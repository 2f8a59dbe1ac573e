use simulator_messages::error::DecodeError;
use simulator_messages::header::{
    Header, PacketFrequency, FLAG_APPENDED_ACKS, FLAG_RELIABLE, FLAG_RESENT, FLAG_ZEROCODED,
};
use simulator_messages::wire::{push_u32_le, read_u32_le};

fn plain(id: u16, frequency: PacketFrequency) -> Header {
    Header {
        id,
        frequency,
        reliable: false,
        sequence_number: 0,
        appended_acks: false,
        zerocoded: false,
        resent: false,
        ack_list: None,
        size: None,
    }
}

fn with_size(mut header: Header, size: usize) -> Header {
    header.size = Some(size);
    header
}

#[test]
fn flag_bits_are_distinct() {
    assert_eq!(FLAG_ZEROCODED, 0x80);
    assert_eq!(FLAG_RELIABLE, 0x40);
    assert_eq!(FLAG_RESENT, 0x20);
    assert_eq!(FLAG_APPENDED_ACKS, 0x10);
}

#[test]
fn u32_is_little_endian() {
    let mut out = vec![9u8];
    push_u32_le(&mut out, 0x0102_0304);
    assert_eq!(out, vec![9, 4, 3, 2, 1]);
    assert_eq!(read_u32_le(&out, 1), Some(0x0102_0304));
    assert_eq!(read_u32_le(&out, 2), None);
    assert_eq!(read_u32_le(&out, usize::MAX), None);
    assert_eq!(read_u32_le(&[1, 2, 3], 0), None);
    assert_eq!(read_u32_le(&[0xFF, 0xFF, 0xFF, 0xFF], 0), Some(u32::MAX));
}

#[test]
fn write_low_frequency_identifier_on_four_bytes() {
    let header = plain(249, PacketFrequency::Low);
    assert!(header.is_well_formed());
    assert_eq!(header.to_bytes(), vec![0, 0, 0, 0, 0, 0xFF, 0xFF, 0x00, 0xF9]);
    let wide = plain(0x1234, PacketFrequency::Low);
    assert_eq!(wide.to_bytes(), vec![0, 0, 0, 0, 0, 0xFF, 0xFF, 0x12, 0x34]);
}

#[test]
fn write_medium_frequency_identifier_on_two_bytes() {
    let header = plain(6, PacketFrequency::Medium);
    assert_eq!(header.to_bytes(), vec![0, 0, 0, 0, 0, 0xFF, 6]);
}

#[test]
fn write_high_frequency_identifier_on_one_byte() {
    let mut header = plain(5, PacketFrequency::High);
    header.reliable = true;
    header.sequence_number = 0x0102_0304;
    assert_eq!(header.to_bytes(), vec![0x40, 4, 3, 2, 1, 5]);
}

#[test]
fn write_sets_each_flag() {
    let mut header = plain(1, PacketFrequency::High);
    header.zerocoded = true;
    assert_eq!(header.to_bytes()[0], 0x80);
    header.resent = true;
    assert_eq!(header.to_bytes()[0], 0xA0);
    header.reliable = true;
    assert_eq!(header.to_bytes()[0], 0xE0);
    header.appended_acks = true;
    header.ack_list = Some(vec![]);
    assert_eq!(header.to_bytes(), vec![0xF0, 0, 0, 0, 0, 1, 0]);
}

#[test]
fn write_appends_count_and_acks() {
    let mut header = plain(2, PacketFrequency::High);
    header.appended_acks = true;
    header.sequence_number = 7;
    header.ack_list = Some(vec![1, 0x0A0B_0C0D]);
    assert_eq!(
        header.to_bytes(),
        vec![0x10, 7, 0, 0, 0, 2, 2, 1, 0, 0, 0, 0x0D, 0x0C, 0x0B, 0x0A]
    );
}

#[test]
fn write_ignores_the_body_offset() {
    let header = with_size(plain(3, PacketFrequency::High), 77);
    assert_eq!(header.to_bytes(), plain(3, PacketFrequency::High).to_bytes());
}

#[test]
fn well_formedness_is_checked() {
    assert!(plain(0xFE, PacketFrequency::High).is_well_formed());
    assert!(!plain(0xFF, PacketFrequency::High).is_well_formed());
    assert!(!plain(0x100, PacketFrequency::Medium).is_well_formed());
    assert!(plain(0xFFFF, PacketFrequency::Low).is_well_formed());
    let mut flag_only = plain(1, PacketFrequency::High);
    flag_only.appended_acks = true;
    assert!(!flag_only.is_well_formed());
    let mut list_only = plain(1, PacketFrequency::High);
    list_only.ack_list = Some(vec![1]);
    assert!(!list_only.is_well_formed());
    let mut full = plain(1, PacketFrequency::High);
    full.appended_acks = true;
    full.ack_list = Some(vec![0; 255]);
    assert!(full.is_well_formed());
    full.ack_list = Some(vec![0; 256]);
    assert!(!full.is_well_formed());
}

#[test]
fn parse_reads_every_field() {
    let bytes = [0x60, 0x78, 0x56, 0x34, 0x12, 0xFF, 0xFF, 0x00, 0xF9, 1, 2, 3];
    let header = Header::try_from_bytes(&bytes).unwrap();
    assert_eq!(header.id, 249);
    assert_eq!(header.frequency, PacketFrequency::Low);
    assert!(header.reliable);
    assert!(header.resent);
    assert!(!header.zerocoded);
    assert!(!header.appended_acks);
    assert_eq!(header.sequence_number, 0x1234_5678);
    assert_eq!(header.ack_list, None);
    assert_eq!(header.size, Some(9));
}

#[test]
fn parse_tells_the_frequency_by_the_identifier_bytes() {
    let high = Header::try_from_bytes(&[0, 0, 0, 0, 0, 0xFE]).unwrap();
    assert_eq!((high.frequency, high.id, high.size), (PacketFrequency::High, 0xFE, Some(6)));
    let medium = Header::try_from_bytes(&[0, 0, 0, 0, 0, 0xFF, 0x00]).unwrap();
    assert_eq!((medium.frequency, medium.id, medium.size), (PacketFrequency::Medium, 0, Some(7)));
    let low = Header::try_from_bytes(&[0, 0, 0, 0, 0, 0xFF, 0xFF, 0xFF, 0xFB]).unwrap();
    assert_eq!((low.frequency, low.id, low.size), (PacketFrequency::Low, 0xFFFB, Some(9)));
}

#[test]
fn parse_ignores_the_unused_flag_bits() {
    let header = Header::try_from_bytes(&[0x0F, 1, 0, 0, 0, 9]).unwrap();
    assert_eq!(header, with_size(Header { sequence_number: 1, ..plain(9, PacketFrequency::High) }, 6));
}

#[test]
fn parse_reads_the_acks_and_puts_the_body_behind_them() {
    let bytes = [0x10, 0, 0, 0, 0, 4, 2, 1, 0, 0, 0, 2, 0, 0, 1, 0xAA, 0xBB];
    let header = Header::try_from_bytes(&bytes).unwrap();
    assert!(header.appended_acks);
    assert_eq!(header.ack_list, Some(vec![1, 0x0100_0002]));
    assert_eq!(header.size, Some(15));
    assert_eq!(&bytes[header.size.unwrap()..], &[0xAA, 0xBB]);
}

#[test]
fn parse_takes_an_empty_ack_list() {
    let header = Header::try_from_bytes(&[0x10, 0, 0, 0, 0, 4, 0]).unwrap();
    assert_eq!(header.ack_list, Some(vec![]));
    assert_eq!(header.size, Some(7));
}

#[test]
fn parse_refuses_a_buffer_that_ends_in_the_fixed_fields() {
    assert_eq!(Header::try_from_bytes(&[]), Err(DecodeError::TruncatedHeader));
    assert_eq!(Header::try_from_bytes(&[0, 1, 2, 3, 4]), Err(DecodeError::TruncatedHeader));
    assert_eq!(Header::try_from_bytes(&[0, 0, 0, 0, 0, 0xFF]), Err(DecodeError::TruncatedHeader));
    assert_eq!(
        Header::try_from_bytes(&[0, 0, 0, 0, 0, 0xFF, 0xFF]),
        Err(DecodeError::TruncatedHeader)
    );
    assert_eq!(
        Header::try_from_bytes(&[0, 0, 0, 0, 0, 0xFF, 0xFF, 0]),
        Err(DecodeError::TruncatedHeader)
    );
}

#[test]
fn parse_refuses_a_missing_ack_count() {
    assert_eq!(Header::try_from_bytes(&[0x10, 0, 0, 0, 0, 4]), Err(DecodeError::TruncatedHeader));
    assert_eq!(
        Header::try_from_bytes(&[0x10, 0, 0, 0, 0, 0xFF, 0xFF, 0, 249]),
        Err(DecodeError::TruncatedHeader)
    );
}

#[test]
fn parse_refuses_a_count_that_passes_the_buffer() {
    assert_eq!(
        Header::try_from_bytes(&[0x10, 0, 0, 0, 0, 4, 1]),
        Err(DecodeError::TruncatedAckList)
    );
    assert_eq!(
        Header::try_from_bytes(&[0x10, 0, 0, 0, 0, 4, 2, 1, 0, 0, 0, 2, 0, 0]),
        Err(DecodeError::TruncatedAckList)
    );
    let mut many = vec![0x10, 0, 0, 0, 0, 4, 255];
    many.extend(vec![0u8; 4 * 255 - 1]);
    assert_eq!(Header::try_from_bytes(&many), Err(DecodeError::TruncatedAckList));
    many.push(0);
    assert_eq!(Header::try_from_bytes(&many).unwrap().size, Some(7 + 4 * 255));
}

#[test]
fn parse_undoes_write() {
    let frequencies = [
        (PacketFrequency::High, 0u16),
        (PacketFrequency::High, 0xFE),
        (PacketFrequency::Medium, 0),
        (PacketFrequency::Medium, 0xFE),
        (PacketFrequency::Low, 0),
        (PacketFrequency::Low, 249),
        (PacketFrequency::Low, 0xFF00),
        (PacketFrequency::Low, 0xFFFF),
    ];
    let ack_lists: [Option<Vec<u32>>; 4] =
        [None, Some(vec![]), Some(vec![5]), Some(vec![0, u32::MAX, 0x0102_0304])];
    for (frequency, id) in frequencies {
        for flags in 0..8u8 {
            for acks in &ack_lists {
                for sequence_number in [0u32, 1, 0xFF, 0x100, 0xDEAD_BEEF, u32::MAX] {
                    let header = Header {
                        id,
                        frequency,
                        reliable: flags & 1 != 0,
                        sequence_number,
                        appended_acks: acks.is_some(),
                        zerocoded: flags & 2 != 0,
                        resent: flags & 4 != 0,
                        ack_list: acks.clone(),
                        size: None,
                    };
                    assert!(header.is_well_formed());
                    let written = header.to_bytes();
                    let parsed = Header::try_from_bytes(&written).unwrap();
                    assert_eq!(parsed.size, Some(written.len()));
                    assert_eq!(parsed, with_size(header.clone(), written.len()));
                    let mut longer = written.clone();
                    longer.extend([0xFF, 0, 0xFF, 1]);
                    let parsed = Header::try_from_bytes(&longer).unwrap();
                    assert_eq!(parsed, with_size(header, written.len()));
                }
            }
        }
    }
}

#[test]
fn clone_keeps_every_field() {
    let mut header = plain(7, PacketFrequency::Medium);
    header.appended_acks = true;
    header.ack_list = Some(vec![3, 4]);
    header.size = Some(12);
    assert_eq!(header.clone(), header);
}
