use serial_console::{
    Coordinator, Event, FlowControl, LinkSettings, Parity, PollStep, ReadOutcome, TransportWorker,
    WorkerFault,
};

#[test]
fn polled_bytes_reach_the_transcript() {
    let mut w = TransportWorker::new();
    let mut c = Coordinator::new();
    c.handle(Event::Message("AT\r\n".to_string()));
    let step = w.poll(ReadOutcome::Data(b"OK\r\n".to_vec()));
    assert_eq!(step, PollStep::Publish("OK\r\n".to_string()));
    if let PollStep::Publish(text) = step {
        c.handle(Event::Message(text));
    }
    assert_eq!(c.transcript(), "AT\r\nOK\r\n");
}

#[test]
fn timeout_is_not_an_error() {
    let mut w = TransportWorker::new();
    assert_eq!(w.poll(ReadOutcome::TimedOut), PollStep::Idle);
    assert_eq!(w.poll(ReadOutcome::Data(Vec::new())), PollStep::Idle);
}

#[test]
fn channel_error_is_fatal() {
    let mut w = TransportWorker::new();
    assert_eq!(w.poll(ReadOutcome::Failed), PollStep::Fatal(WorkerFault::Channel));
}

#[test]
fn invalid_bytes_are_a_decode_fault() {
    let mut w = TransportWorker::new();
    assert_eq!(
        w.poll(ReadOutcome::Data(vec![b'o', b'k', 0xff, b'!'])),
        PollStep::Fatal(WorkerFault::Decode)
    );
}

#[test]
fn character_split_across_reads_is_published_whole() {
    let mut w = TransportWorker::new();
    let bytes = "a✓b".as_bytes().to_vec();
    assert_eq!(bytes.len(), 5);
    assert_eq!(
        w.poll(ReadOutcome::Data(bytes[..2].to_vec())),
        PollStep::Publish("a".to_string())
    );
    assert_eq!(w.poll(ReadOutcome::Data(bytes[2..3].to_vec())), PollStep::Idle);
    assert_eq!(w.poll(ReadOutcome::TimedOut), PollStep::Idle);
    assert_eq!(
        w.poll(ReadOutcome::Data(bytes[3..].to_vec())),
        PollStep::Publish("✓b".to_string())
    );
}

#[test]
fn drain_writes_message_bytes() {
    let mut w = TransportWorker::new();
    assert_eq!(
        w.drain(Some(Event::Message("AT✓".to_string()))),
        Some("AT✓".as_bytes().to_vec())
    );
    assert_eq!(w.drain(Some(Event::Message(String::new()))), Some(Vec::new()));
    assert!(!w.close_requested());
}

#[test]
fn drain_records_close_and_writes_nothing() {
    let mut w = TransportWorker::new();
    assert_eq!(w.drain(None), None);
    assert_eq!(w.drain(Some(Event::ClosePort)), None);
    assert!(w.close_requested());
    assert_eq!(w.poll(ReadOutcome::Data(b"late".to_vec())), PollStep::Publish("late".to_string()));
}

#[test]
fn standard_link_is_9600_8n1() {
    let s = LinkSettings::standard();
    assert_eq!(s.baud_rate, 9600);
    assert_eq!(s.char_size, 8);
    assert_eq!(s.parity, Parity::Off);
    assert_eq!(s.stop_bits, 1);
    assert_eq!(s.flow_control, FlowControl::Off);
}
