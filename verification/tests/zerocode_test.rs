use simulator_messages::error::DecodeError;
use simulator_messages::zerocode::{zero_decode, zero_encode, MAX_RUN};

fn zeros(n: usize) -> Vec<u8> {
    vec![0u8; n]
}

#[test]
fn encode_of_nothing_is_nothing() {
    assert_eq!(zero_encode(&[]), Vec::<u8>::new());
    assert_eq!(zero_decode(&[]), Ok(Vec::new()));
}

#[test]
fn encode_copies_nonzero_bytes() {
    assert_eq!(zero_encode(&[1, 2, 255, 7]), vec![1, 2, 255, 7]);
}

#[test]
fn encode_writes_a_run_as_one_pair() {
    assert_eq!(zero_encode(&[1, 0, 0, 0, 2]), vec![1, 0, 3, 2]);
    assert_eq!(zero_encode(&[0]), vec![0, 1]);
    assert_eq!(zero_encode(&[0, 5, 0, 0]), vec![0, 1, 5, 0, 2]);
}

#[test]
fn encode_keeps_a_run_of_255_in_one_pair() {
    assert_eq!(MAX_RUN, 255);
    assert_eq!(zero_encode(&zeros(255)), vec![0, 255]);
}

#[test]
fn encode_splits_a_run_of_256() {
    assert_eq!(zero_encode(&zeros(256)), vec![0, 255, 0, 1]);
}

#[test]
fn encode_splits_300_zeros_and_decode_restores_them() {
    let encoded = zero_encode(&zeros(300));
    assert_eq!(encoded, vec![0, 255, 0, 45]);
    assert!(encoded.len() / 2 >= 2);
    assert_eq!(zero_decode(&encoded), Ok(zeros(300)));
}

#[test]
fn encode_splits_long_runs_into_full_pairs() {
    assert_eq!(zero_encode(&zeros(510)), vec![0, 255, 0, 255]);
    assert_eq!(zero_encode(&zeros(511)), vec![0, 255, 0, 255, 0, 1]);
    let mut input = vec![9u8];
    input.extend(zeros(600));
    input.push(8);
    assert_eq!(zero_encode(&input), vec![9, 0, 255, 0, 255, 0, 90, 8]);
}

#[test]
fn decode_expands_pairs() {
    assert_eq!(zero_decode(&[1, 0, 3, 2]), Ok(vec![1, 0, 0, 0, 2]));
    assert_eq!(zero_decode(&[0, 2, 0, 1]), Ok(vec![0, 0, 0]));
}

#[test]
fn decode_takes_a_count_of_zero_as_no_bytes() {
    assert_eq!(zero_decode(&[4, 0, 0, 5]), Ok(vec![4, 5]));
}

#[test]
fn decode_reads_a_zero_count_byte_as_a_count() {
    // The second zero is the count of the first; the third starts a new pair.
    assert_eq!(zero_decode(&[0, 0, 0, 2]), Ok(vec![0, 0]));
}

#[test]
fn decode_refuses_a_zero_without_count() {
    assert_eq!(zero_decode(&[0]), Err(DecodeError::DanglingZero));
    assert_eq!(zero_decode(&[5, 6, 0]), Err(DecodeError::DanglingZero));
    assert_eq!(zero_decode(&[0, 3, 0]), Err(DecodeError::DanglingZero));
}

#[test]
fn decode_undoes_encode() {
    let mut mixed: Vec<u8> = Vec::new();
    for i in 0..2000u32 {
        mixed.push(if i % 7 < 3 { 0 } else { (i % 251) as u8 });
    }
    let mut long_run = vec![1u8, 2, 3];
    long_run.extend(zeros(1000));
    long_run.extend([4u8, 0, 5]);
    let inputs: Vec<Vec<u8>> = vec![
        vec![],
        vec![0],
        vec![7],
        vec![0, 0],
        vec![0, 1, 0],
        zeros(254),
        zeros(255),
        zeros(256),
        zeros(765),
        mixed,
        long_run,
    ];
    for input in inputs {
        assert_eq!(zero_decode(&zero_encode(&input)), Ok(input));
    }
}

#[test]
fn encode_never_writes_a_zero_count() {
    let mut input = vec![3u8];
    input.extend(zeros(700));
    input.extend([1u8, 0, 0, 9, 0]);
    let encoded = zero_encode(&input);
    let mut i = 0;
    let mut total = 0usize;
    while i < encoded.len() {
        if encoded[i] == 0 {
            assert!(i + 1 < encoded.len());
            assert!(encoded[i + 1] >= 1);
            total += encoded[i + 1] as usize;
            i += 2;
        } else {
            i += 1;
        }
    }
    assert_eq!(total, 703);
}
