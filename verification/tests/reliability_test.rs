use simulator_messages::client_update_data::{ClientUpdateData, EventSink};
use simulator_messages::error::ConfigError;
use simulator_messages::reliability::ReliabilityCoordinator;
use tokio::sync::oneshot::error::TryRecvError;

#[test]
fn register_then_resolve_completes_the_handle_once() {
    let mut coordinator = ReliabilityCoordinator::new();
    let mut handle = coordinator.register(5).unwrap();
    assert!(coordinator.is_pending(5));
    assert_eq!(handle.try_recv(), Err(TryRecvError::Empty));
    assert!(coordinator.resolve(5));
    assert_eq!(handle.try_recv(), Ok(()));
    assert!(!coordinator.is_pending(5));
    assert_eq!(coordinator.len(), 0);
    // A second acknowledgment finds nothing and does nothing.
    assert!(!coordinator.resolve(5));
    assert_eq!(handle.try_recv(), Err(TryRecvError::Closed));
}

#[test]
fn resolve_of_an_unknown_number_is_a_no_op() {
    let mut coordinator = ReliabilityCoordinator::new();
    assert!(!coordinator.resolve(6));
    assert_eq!(coordinator.len(), 0);
    let mut handle = coordinator.register(5).unwrap();
    assert!(!coordinator.resolve(6));
    assert!(coordinator.is_pending(5));
    assert_eq!(handle.try_recv(), Err(TryRecvError::Empty));
}

#[test]
fn register_refuses_a_number_in_flight() {
    let mut coordinator = ReliabilityCoordinator::new();
    let mut first = coordinator.register(9).unwrap();
    match coordinator.register(9) {
        Err(e) => assert_eq!(e, ConfigError::DuplicateSequence { sequence_number: 9 }),
        Ok(_) => panic!("a sequence number in flight was registered again"),
    }
    assert_eq!(coordinator.len(), 1);
    // The first registration is untouched by the refused one.
    assert_eq!(first.try_recv(), Err(TryRecvError::Empty));
    assert!(coordinator.resolve(9));
    assert_eq!(first.try_recv(), Ok(()));
    // Once resolved, the number is free again.
    assert!(coordinator.register(9).is_ok());
}

#[test]
fn resolve_takes_an_abandoned_handle() {
    let mut coordinator = ReliabilityCoordinator::new();
    let handle = coordinator.register(3).unwrap();
    drop(handle);
    assert!(coordinator.resolve(3));
    assert!(!coordinator.is_pending(3));
}

#[test]
fn interleaved_pairs_all_complete_without_cross_talk() {
    let n: u32 = 64;
    let mut coordinator = ReliabilityCoordinator::new();
    let mut bystander = coordinator.register(1_000_000).unwrap();
    let mut handles = Vec::new();
    // Register the even numbers, then interleave the odd registrations with
    // the even resolutions, then resolve the odd numbers backwards.
    for s in (0..n).filter(|s| s % 2 == 0) {
        handles.push((s, coordinator.register(s).unwrap()));
    }
    for s in (0..n).filter(|s| s % 2 == 1) {
        handles.push((s, coordinator.register(s).unwrap()));
        assert!(coordinator.resolve(s - 1));
        assert!(coordinator.is_pending(s));
        assert!(coordinator.is_pending(1_000_000));
    }
    for s in (0..n).rev().filter(|s| s % 2 == 1) {
        for (other, handle) in handles.iter_mut() {
            if *other % 2 == 1 && *other < s {
                assert_eq!(handle.try_recv(), Err(TryRecvError::Empty));
            }
        }
        assert!(coordinator.resolve(s));
    }
    assert_eq!(handles.len(), n as usize);
    for (_, handle) in handles.iter_mut() {
        assert_eq!(handle.try_recv(), Ok(()));
    }
    assert_eq!(coordinator.len(), 1);
    assert!(coordinator.is_pending(1_000_000));
    assert_eq!(bystander.try_recv(), Err(TryRecvError::Empty));
}

#[test]
fn sink_keeps_events_in_order() {
    let mut sink = EventSink::new();
    assert!(sink.is_empty());
    sink.push(ClientUpdateData::Message("one".to_string()));
    sink.push(ClientUpdateData::Error("two".to_string()));
    sink.push(ClientUpdateData::Message("three".to_string()));
    assert_eq!(sink.len(), 3);
    assert!(!sink.is_empty());
    let drained = sink.drain();
    assert_eq!(
        drained,
        vec![
            ClientUpdateData::Message("one".to_string()),
            ClientUpdateData::Error("two".to_string()),
            ClientUpdateData::Message("three".to_string()),
        ]
    );
    assert!(sink.is_empty());
    assert_eq!(sink.drain(), Vec::new());
    sink.push(ClientUpdateData::Message("four".to_string()));
    assert_eq!(sink.drain(), vec![ClientUpdateData::Message("four".to_string())]);
}
