use vector::sinks::file::Completion;
use vector::sinks::util::StreamAck;

#[test]
fn nothing_is_reported_while_the_sink_is_pending() {
    let mut ack = StreamAck::new();
    assert_eq!(ack.pending, 0);
    assert!(!ack.accepted());
    assert!(!ack.accepted());
    assert_eq!(ack.completed(Completion::Pending), 0);
    assert_eq!(ack.pending, 2);
}

#[test]
fn all_that_was_accepted_is_reported_when_the_sink_is_ready() {
    let mut ack = StreamAck::new();
    for _ in 0..3 {
        ack.accepted();
    }
    assert_eq!(ack.completed(Completion::Ready), 3);
    assert_eq!(ack.pending, 0);
    assert_eq!(ack.completed(Completion::Ready), 0);
}

#[test]
fn the_count_says_when_it_is_full() {
    let mut ack = StreamAck { pending: usize::MAX - 1 };
    assert!(!ack.is_full());
    assert!(ack.accepted());
    assert!(ack.is_full());
    assert_eq!(ack.pending, usize::MAX);
    assert_eq!(ack.completed(Completion::Ready), usize::MAX);
}
