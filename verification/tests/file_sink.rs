use bytes::Bytes;
use vector::event::Event;
use vector::sinks::file::{
    CompleteStep, Completion, Created, EmbeddedFileSink, EventStep, FilePoll, FileSink,
    FileSinkConfig, FileSinkState, Flushed, Offer, SendStep, Sent,
};
use vector::sinks::util::encoding::BasicEncoding;
use vector::sinks::DataType;

fn line(text: &str) -> Bytes {
    Bytes::from(text.as_bytes().to_vec())
}

fn sink_in(state: FileSinkState) -> FileSink {
    FileSink { path: "out.log".to_string(), state }
}

fn write_of(step: SendStep) -> Bytes {
    match step {
        SendStep::Write(line) => line,
        other => panic!("expected a write, got {:?}", other),
    }
}

#[test]
fn a_new_sink_is_unopened() {
    let sink = FileSink::new("out.log".to_string());
    assert_eq!(sink.path, "out.log");
    assert_eq!(sink.state, FileSinkState::Unopened);
}

#[test]
fn a_sink_never_written_to_is_ready_and_opens_nothing() {
    let mut sink = FileSink::new("out.log".to_string());
    assert_eq!(sink.poll_complete(None, None), CompleteStep::Done(Completion::Ready));
    assert_eq!(sink.state, FileSinkState::Unopened);
    assert_eq!(
        sink.poll_complete(Some(Created::Opened), Some(Flushed::Pending)),
        CompleteStep::Done(Completion::Ready)
    );
    assert_eq!(sink.state, FileSinkState::Unopened);
}

#[test]
fn the_first_offer_starts_the_open() {
    let mut sink = FileSink::new("out.log".to_string());
    match sink.start_send(line("one\n"), None) {
        SendStep::PollOpen(back) => assert_eq!(&back[..], b"one\n"),
        other => panic!("expected a poll, got {:?}", other),
    }
    assert_eq!(sink.state, FileSinkState::Opening);
}

#[test]
fn an_offer_is_rejected_unchanged_while_the_file_opens() {
    let mut sink = FileSink::new("out.log".to_string());
    for _ in 0..3 {
        match sink.start_send(line("one\n"), Some(Created::Pending)) {
            SendStep::Done(Offer::Rejected(back)) => assert_eq!(&back[..], b"one\n"),
            other => panic!("expected a rejection, got {:?}", other),
        }
        assert_eq!(sink.state, FileSinkState::Opening);
        assert_eq!(
            sink.poll_complete(Some(Created::Pending), None),
            CompleteStep::Done(Completion::Pending)
        );
    }
}

#[test]
fn once_opened_the_line_is_written_and_the_flush_completes() {
    let mut sink = FileSink::new("out.log".to_string());
    let back = match sink.start_send(line("one\n"), None) {
        SendStep::PollOpen(back) => back,
        other => panic!("expected a poll, got {:?}", other),
    };
    let written = write_of(sink.start_send(back, Some(Created::Opened)));
    assert_eq!(&written[..], b"one\n");
    assert_eq!(sink.state, FileSinkState::Open);
    assert!(matches!(sink.sent(Sent::Accepted), Offer::Accepted));
    assert_eq!(sink.poll_complete(None, None), CompleteStep::Flush);
    assert_eq!(
        sink.poll_complete(None, Some(Flushed::Pending)),
        CompleteStep::Done(Completion::Pending)
    );
    assert_eq!(
        sink.poll_complete(None, Some(Flushed::Done)),
        CompleteStep::Done(Completion::Ready)
    );
    assert_eq!(sink.state, FileSinkState::Open);
    let again = write_of(sink.start_send(line("two\n"), None));
    assert_eq!(&again[..], b"two\n");
}

#[test]
fn a_busy_file_hands_the_line_back() {
    let mut sink = sink_in(FileSinkState::Open);
    match sink.sent(Sent::Busy(line("one\n"))) {
        Offer::Rejected(back) => assert_eq!(&back[..], b"one\n"),
        other => panic!("expected a rejection, got {:?}", other),
    }
    assert_eq!(sink.state, FileSinkState::Open);
}

#[test]
fn a_failed_write_drops_the_line_and_reverts_the_sink() {
    let mut sink = sink_in(FileSinkState::Open);
    assert!(matches!(sink.sent(Sent::Failed), Offer::Accepted));
    assert_eq!(sink.state, FileSinkState::Unopened);
    assert_eq!(sink.poll_complete(None, None), CompleteStep::Done(Completion::Ready));
    assert_eq!(sink.state, FileSink::new("out.log".to_string()).state);
}

#[test]
fn a_failed_flush_is_ready_and_reverts_the_sink() {
    let mut sink = sink_in(FileSinkState::Open);
    assert_eq!(
        sink.poll_complete(None, Some(Flushed::Failed)),
        CompleteStep::Done(Completion::Ready)
    );
    assert_eq!(sink.state, FileSinkState::Unopened);
    assert_eq!(sink.poll_complete(None, None), CompleteStep::Done(Completion::Ready));
}

#[test]
fn a_failed_open_drops_the_offer_and_is_tried_again() {
    let mut sink = sink_in(FileSinkState::Opening);
    assert!(matches!(
        sink.start_send(line("one\n"), Some(Created::Failed)),
        SendStep::Done(Offer::Accepted)
    ));
    assert_eq!(sink.state, FileSinkState::Unopened);
    assert!(matches!(sink.start_send(line("two\n"), None), SendStep::PollOpen(_)));
    assert_eq!(sink.state, FileSinkState::Opening);
    assert_eq!(
        sink.poll_complete(Some(Created::Failed), None),
        CompleteStep::Done(Completion::Ready)
    );
    assert_eq!(sink.state, FileSinkState::Unopened);
}

#[test]
fn driving_an_opening_sink_polls_then_flushes() {
    let mut sink = sink_in(FileSinkState::Opening);
    assert_eq!(sink.poll_complete(None, None), CompleteStep::PollOpen);
    assert_eq!(sink.state, FileSinkState::Opening);
    assert_eq!(sink.poll_complete(Some(Created::Opened), None), CompleteStep::Flush);
    assert_eq!(sink.state, FileSinkState::Open);
    assert_eq!(
        sink.poll_complete(Some(Created::Opened), Some(Flushed::Done)),
        CompleteStep::Done(Completion::Ready)
    );
}

#[test]
fn poll_file_moves_only_an_opening_sink() {
    let mut sink = sink_in(FileSinkState::Unopened);
    assert_eq!(sink.poll_file(Some(Created::Opened)), FilePoll::Failed);
    assert_eq!(sink.state, FileSinkState::Unopened);
    let mut sink = sink_in(FileSinkState::Open);
    assert_eq!(sink.poll_file(Some(Created::Failed)), FilePoll::Ready);
    assert_eq!(sink.state, FileSinkState::Open);
    let mut sink = sink_in(FileSinkState::Opening);
    assert_eq!(sink.poll_file(None), FilePoll::NotReady);
    assert_eq!(sink.poll_file(Some(Created::Pending)), FilePoll::NotReady);
    assert_eq!(sink.state, FileSinkState::Opening);
    assert_eq!(sink.poll_file(Some(Created::Opened)), FilePoll::Ready);
    assert_eq!(sink.state, FileSinkState::Open);
    let mut sink = sink_in(FileSinkState::Opening);
    assert_eq!(sink.poll_file(Some(Created::Failed)), FilePoll::Failed);
    assert_eq!(sink.state, FileSinkState::Unopened);
}

#[test]
fn an_embedded_sink_writes_each_event_as_one_line() {
    let mut sink =
        FileSink::new_with_encoding("out.log".to_string(), Some(BasicEncoding::Text));
    assert_eq!(sink.sink.state, FileSinkState::Unopened);
    let event = match sink.start_send(Event::from("hello"), None) {
        Ok(EventStep::PollOpen(event)) => event,
        other => panic!("expected a poll, got {:?}", other),
    };
    let event = match sink.start_send(event, Some(Created::Pending)) {
        Ok(EventStep::Done(Offer::Rejected(event))) => event,
        other => panic!("expected a rejection, got {:?}", other),
    };
    assert_eq!(event, Event::from("hello"));
    let (written, event) = match sink.start_send(event, Some(Created::Opened)) {
        Ok(EventStep::Write(line, event)) => (line, event),
        other => panic!("expected a write, got {:?}", other),
    };
    assert_eq!(&written[..], b"hello\n");
    match sink.sent(event, Sent::Busy(written)) {
        Offer::Rejected(event) => assert_eq!(event, Event::from("hello")),
        other => panic!("expected a rejection, got {:?}", other),
    }
    assert!(matches!(sink.sent(Event::from("hello"), Sent::Accepted), Offer::Accepted));
    assert_eq!(sink.poll_complete(None, Some(Flushed::Done)), CompleteStep::Done(Completion::Ready));
    assert!(matches!(sink.sent(Event::from("hello"), Sent::Failed), Offer::Accepted));
    assert_eq!(sink.sink.state, FileSinkState::Unopened);
}

#[test]
fn a_file_configuration_builds_an_unopened_sink() {
    let config = FileSinkConfig::new("out.log".to_string());
    assert_eq!(config.path, "out.log");
    assert_eq!(config.encoding, None);
    assert_eq!(config.input_type(), DataType::Log);
    let sink: EmbeddedFileSink = config.build();
    assert_eq!(sink.sink.path, "out.log");
    assert_eq!(sink.sink.state, FileSinkState::Unopened);
    assert_eq!(sink.encoding, None);
}

#[test]
fn the_health_probe_fails_with_the_path() {
    let config = FileSinkConfig::new("out.log".to_string());
    assert_eq!(config.healthcheck(true), Ok(()));
    assert_eq!(config.healthcheck(false), Err("out.log".to_string()));
}

/// Offers one line as a driver does, to a file in memory that opens,
/// takes every line and flushes at once.
fn offer(sink: &mut FileSink, file: &mut Option<Vec<u8>>, text: &str) -> Offer<Bytes> {
    let mut pending = line(text);
    let mut created = None;
    loop {
        match sink.start_send(pending, created) {
            SendStep::PollOpen(back) => {
                *file = Some(Vec::new());
                created = Some(Created::Opened);
                pending = back;
            }
            SendStep::Write(written) => {
                file.as_mut().unwrap().extend_from_slice(&written[..]);
                return sink.sent(Sent::Accepted);
            }
            SendStep::Done(offer) => return offer,
        }
    }
}

#[test]
fn the_payload_is_in_the_file_once_the_sink_is_ready() {
    let mut sink = FileSink::new("out.log".to_string());
    let mut file = None;
    assert_eq!(sink.poll_complete(None, None), CompleteStep::Done(Completion::Ready));
    assert_eq!(file, None);
    assert!(matches!(offer(&mut sink, &mut file, "one\n"), Offer::Accepted));
    assert!(matches!(offer(&mut sink, &mut file, "two\n"), Offer::Accepted));
    assert_eq!(sink.poll_complete(None, None), CompleteStep::Flush);
    assert_eq!(
        sink.poll_complete(None, Some(Flushed::Done)),
        CompleteStep::Done(Completion::Ready)
    );
    assert_eq!(file, Some(b"one\ntwo\n".to_vec()));
}
