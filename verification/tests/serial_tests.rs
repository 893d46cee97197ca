use domectrl::serial::{next_reader_step, ReadOutcome, ReaderStep, RxEvent, SerialConn};

#[test]
fn only_connected_is_connected() {
    assert!(SerialConn::Connected.is_connected());
    assert!(!SerialConn::Disconnected.is_connected());
    assert!(!SerialConn::Error("x".to_string()).is_connected());
    assert!(!SerialConn::Reconnecting { reason: "x".to_string(), reconnect_at: 5 }.is_connected());
}

#[test]
fn empty_reads_and_timeouts_are_skipped() {
    assert!(matches!(next_reader_step(ReadOutcome::Received(Vec::new())), ReaderStep::Continue));
    assert!(matches!(next_reader_step(ReadOutcome::TimedOut), ReaderStep::Continue));
}

#[test]
fn bytes_are_forwarded() {
    match next_reader_step(ReadOutcome::Received(vec![b'Y', b'\n'])) {
        ReaderStep::Forward(RxEvent::Data(b)) => assert_eq!(b, vec![b'Y', b'\n']),
        _ => panic!("expected forwarded data"),
    }
}

#[test]
fn failure_is_forwarded_last() {
    match next_reader_step(ReadOutcome::Failed("broken pipe".to_string())) {
        ReaderStep::ForwardLast(RxEvent::Error(e)) => assert_eq!(e, "broken pipe"),
        _ => panic!("expected the failure"),
    }
}
