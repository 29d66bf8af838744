//! The file sink: a writer that opens its file on the first write and goes
//! back to the unopened state when the file fails.
//!
//! The sink decides; its driver does the work on the file and reports what
//! came of it. A call that needs the file polled, written or flushed says so
//! in the step that it returns, and is made again with the outcome.

use crate::event::Event;
use crate::payload::bytes_view;
use crate::sinks::util::encoding::{encoded, log_event_as_line, BasicEncoding, NEWLINE};
use crate::sinks::DataType;
use vstd::prelude::*;

verus! {

/// The configuration of a file sink.
#[derive(Debug)]
pub struct FileSinkConfig {
    pub path: String,
    pub encoding: Option<BasicEncoding>,
}

impl FileSinkConfig {
    /// The configuration for `path`, with no encoding set.
    pub fn new(path: String) -> (config: Self)
        ensures
            config.path == path,
            config.encoding is None,
    {
        Self { path, encoding: None }
    }

    /// A file takes log events only.
    pub fn input_type(&self) -> (kind: DataType)
        ensures
            kind == DataType::Log,
    {
        DataType::Log
    }

    /// The sink that this configuration describes: unopened, with the
    /// configured path and encoding.
    pub fn build(&self) -> (sink: EmbeddedFileSink)
        ensures
            sink.sink.path@ == self.path@,
            sink.sink.state == FileSinkState::Unopened,
            sink.encoding == self.encoding,
    {
        FileSink::new_with_encoding(self.path.clone(), self.encoding)
    }

    /// The answer of the start-up probe: `reachable` says whether the
    /// destination was found; where it was not, the message names the path.
    pub fn healthcheck(&self, reachable: bool) -> (r: Result<(), String>)
        ensures
            reachable ==> r is Ok,
            !reachable ==> (r matches Err(message) && message@ == self.path@),
    {
        if reachable {
            Ok(())
        } else {
            Err(self.path.clone())
        }
    }
}

/// Where a file sink stands with its file.
#[derive(Debug, Clone, Copy, PartialEq, Eq, Structural)]
pub enum FileSinkState {
    /// No file is held and none is being opened.
    Unopened,
    /// The file is being opened.
    Opening,
    /// The file is open.
    Open,
}

/// What came of polling the pending open.
#[derive(Debug, Clone, Copy, PartialEq, Eq, Structural)]
pub enum Created {
    Pending,
    Opened,
    Failed,
}

/// What came of handing a line to the open file.
#[derive(Debug)]
pub enum Sent {
    /// The file took the line.
    Accepted,
    /// The file has no room now and hands the line back.
    Busy(bytes::Bytes),
    Failed,
}

/// What came of flushing the open file.
#[derive(Debug, Clone, Copy, PartialEq, Eq, Structural)]
pub enum Flushed {
    Done,
    Pending,
    Failed,
}

/// Whether the file is there to write to.
#[derive(Debug, Clone, Copy, PartialEq, Eq, Structural)]
pub enum FilePoll {
    Ready,
    NotReady,
    /// There is no file and none is being opened.
    Failed,
}

/// The answer to an offered item.
#[derive(Debug)]
pub enum Offer<T> {
    /// The sink has taken the item: it was handed on, or dropped with the
    /// file that failed.
    Accepted,
    /// The sink is not ready: the caller keeps the item and offers it again.
    Rejected(T),
}

/// Whether everything that was accepted has been handed on.
#[derive(Debug, Clone, Copy, PartialEq, Eq, Structural)]
pub enum Completion {
    Ready,
    Pending,
}

/// What sending a line needs next.
#[derive(Debug)]
pub enum SendStep {
    /// Poll the pending open, starting it where there is none, and send
    /// again with the outcome.
    PollOpen(bytes::Bytes),
    /// Hand the line to the open file and report the outcome.
    Write(bytes::Bytes),
    Done(Offer<bytes::Bytes>),
}

/// What driving the sink to completion needs next.
#[derive(Debug, Clone, Copy, PartialEq, Eq, Structural)]
pub enum CompleteStep {
    /// Poll the pending open and call again with the outcome.
    PollOpen,
    /// Flush the open file and call again with the outcome.
    Flush,
    Done(Completion),
}

/// The state after the pending open was polled: it opens the file or, by
/// failing, ends the attempt. Nothing else moves the state.
pub open spec fn polled(state: FileSinkState, created: Option<Created>) -> FileSinkState {
    match (state, created) {
        (FileSinkState::Opening, Some(Created::Opened)) => FileSinkState::Open,
        (FileSinkState::Opening, Some(Created::Failed)) => FileSinkState::Unopened,
        _ => state,
    }
}

/// Whether the file is there after the pending open was polled.
pub open spec fn file_poll(state: FileSinkState, created: Option<Created>) -> FilePoll {
    match polled(state, created) {
        FileSinkState::Open => FilePoll::Ready,
        FileSinkState::Opening => FilePoll::NotReady,
        FileSinkState::Unopened => FilePoll::Failed,
    }
}

/// The state after a line was offered: a write attempt starts the open of
/// an unopened sink.
pub open spec fn send_state(state: FileSinkState, created: Option<Created>) -> FileSinkState {
    match state {
        FileSinkState::Open => FileSinkState::Open,
        _ => polled(FileSinkState::Opening, created),
    }
}

/// What an offer comes to, whatever is offered.
#[derive(Debug, Clone, Copy, PartialEq, Eq, Structural)]
pub enum SendKind {
    /// The open must be polled first.
    PollOpen,
    /// The file is open: the line is written.
    Write,
    /// The file is still opening: the item goes back to the caller.
    Rejected,
    /// The open failed: the item is dropped.
    Dropped,
}

/// What an offer comes to: an open file is written to; while the file is
/// opening the item is rejected; where the open fails the item is dropped.
pub open spec fn send_kind(state: FileSinkState, created: Option<Created>) -> SendKind {
    match state {
        FileSinkState::Open => SendKind::Write,
        _ => match created {
            None => SendKind::PollOpen,
            Some(Created::Pending) => SendKind::Rejected,
            Some(Created::Opened) => SendKind::Write,
            Some(Created::Failed) => SendKind::Dropped,
        },
    }
}

/// What an offered line needs next.
pub open spec fn send_step(
    state: FileSinkState,
    line: bytes::Bytes,
    created: Option<Created>,
) -> SendStep {
    match send_kind(state, created) {
        SendKind::PollOpen => SendStep::PollOpen(line),
        SendKind::Write => SendStep::Write(line),
        SendKind::Rejected => SendStep::Done(Offer::Rejected(line)),
        SendKind::Dropped => SendStep::Done(Offer::Accepted),
    }
}

/// The state after a write was reported: a failed write loses the file.
pub open spec fn sent_state(state: FileSinkState, sent: Sent) -> FileSinkState {
    match sent {
        Sent::Failed => FileSinkState::Unopened,
        _ => state,
    }
}

/// The answer to the offer after the write was reported: a line that the
/// file took is accepted, one that it handed back is rejected, and one that
/// it failed on is dropped.
pub open spec fn sent_offer(sent: Sent) -> Offer<bytes::Bytes> {
    match sent {
        Sent::Accepted => Offer::Accepted,
        Sent::Busy(line) => Offer::Rejected(line),
        Sent::Failed => Offer::Accepted,
    }
}

/// The state after the sink was driven: a failed open or flush leaves it
/// unopened. An unopened sink stays so.
pub open spec fn complete_state(
    state: FileSinkState,
    created: Option<Created>,
    flushed: Option<Flushed>,
) -> FileSinkState {
    match polled(state, created) {
        FileSinkState::Open => if flushed == Some(Flushed::Failed) {
            FileSinkState::Unopened
        } else {
            FileSinkState::Open
        },
        other => other,
    }
}

/// What driving the sink needs next: nothing for an unopened sink, which is
/// ready at once; the open polled while it is pending; the open file
/// flushed. A failure counts as done.
pub open spec fn complete_step(
    state: FileSinkState,
    created: Option<Created>,
    flushed: Option<Flushed>,
) -> CompleteStep {
    match state {
        FileSinkState::Unopened => CompleteStep::Done(Completion::Ready),
        FileSinkState::Opening if created is None => CompleteStep::PollOpen,
        _ => match polled(state, created) {
            FileSinkState::Unopened => CompleteStep::Done(Completion::Ready),
            FileSinkState::Opening => CompleteStep::Done(Completion::Pending),
            FileSinkState::Open => match flushed {
                None => CompleteStep::Flush,
                Some(Flushed::Pending) => CompleteStep::Done(Completion::Pending),
                Some(Flushed::Done) => CompleteStep::Done(Completion::Ready),
                Some(Flushed::Failed) => CompleteStep::Done(Completion::Ready),
            },
        },
    }
}

/// Lazy open: a sink that has not been written to is ready at once, and
/// driving it neither asks for an open nor moves it out of the unopened
/// state, whatever the driver reports.
pub proof fn lazy_open(created: Option<Created>, flushed: Option<Flushed>)
    ensures
        complete_step(FileSinkState::Unopened, created, flushed) == CompleteStep::Done(
            Completion::Ready,
        ),
        complete_state(FileSinkState::Unopened, created, flushed) == FileSinkState::Unopened,
{
}

/// Open, then write: the first offer to an unopened sink starts the open;
/// until the file is open the line goes back to the caller as it came; once
/// the file is open that same line is what is written, the line that the
/// file took is accepted, and the flush that is done makes the sink ready.
pub proof fn open_then_write(line: bytes::Bytes, created: Option<Created>)
    ensures
        send_state(FileSinkState::Unopened, None) == FileSinkState::Opening,
        send_step(FileSinkState::Unopened, line, None) == SendStep::PollOpen(line),
        send_state(FileSinkState::Unopened, Some(Created::Pending)) == FileSinkState::Opening,
        send_step(FileSinkState::Unopened, line, Some(Created::Pending)) == SendStep::Done(
            Offer::Rejected(line),
        ),
        send_state(FileSinkState::Unopened, Some(Created::Opened)) == FileSinkState::Open,
        send_step(FileSinkState::Unopened, line, Some(Created::Opened)) == SendStep::Write(line),
        send_state(FileSinkState::Open, created) == FileSinkState::Open,
        send_step(FileSinkState::Open, line, created) == SendStep::Write(line),
        sent_state(FileSinkState::Open, Sent::Accepted) == FileSinkState::Open,
        sent_offer(Sent::Accepted) == Offer::<bytes::Bytes>::Accepted,
        complete_state(FileSinkState::Open, created, Some(Flushed::Done)) == FileSinkState::Open,
        complete_step(FileSinkState::Open, created, Some(Flushed::Done)) == CompleteStep::Done(
            Completion::Ready,
        ),
{
}

/// Failure reversion: a failed open, write or flush leaves the sink
/// unopened, as a new sink is, with the failed offer or round answered as
/// done; driven again, it is ready at once, and the next offer starts a
/// new open.
pub proof fn failure_reverts(
    line: bytes::Bytes,
    created: Option<Created>,
    flushed: Option<Flushed>,
)
    ensures
        send_state(FileSinkState::Unopened, Some(Created::Failed)) == FileSinkState::Unopened,
        send_state(FileSinkState::Opening, Some(Created::Failed)) == FileSinkState::Unopened,
        send_step(FileSinkState::Opening, line, Some(Created::Failed)) == SendStep::Done(
            Offer::Accepted,
        ),
        sent_state(FileSinkState::Open, Sent::Failed) == FileSinkState::Unopened,
        sent_offer(Sent::Failed) == Offer::<bytes::Bytes>::Accepted,
        complete_state(FileSinkState::Opening, Some(Created::Failed), flushed)
            == FileSinkState::Unopened,
        complete_step(FileSinkState::Opening, Some(Created::Failed), flushed)
            == CompleteStep::Done(Completion::Ready),
        complete_state(FileSinkState::Open, created, Some(Flushed::Failed))
            == FileSinkState::Unopened,
        complete_step(FileSinkState::Open, created, Some(Flushed::Failed)) == CompleteStep::Done(
            Completion::Ready,
        ),
        complete_step(FileSinkState::Unopened, created, flushed) == CompleteStep::Done(
            Completion::Ready,
        ),
        send_state(FileSinkState::Unopened, None) == FileSinkState::Opening,
{
}

/// While the file is opening, the sink is pending and holds every offer
/// back, however often it is polled.
pub proof fn opening_is_pending(line: bytes::Bytes, flushed: Option<Flushed>)
    ensures
        send_state(FileSinkState::Opening, Some(Created::Pending)) == FileSinkState::Opening,
        send_step(FileSinkState::Opening, line, Some(Created::Pending)) == SendStep::Done(
            Offer::Rejected(line),
        ),
        complete_state(FileSinkState::Opening, Some(Created::Pending), flushed)
            == FileSinkState::Opening,
        complete_step(FileSinkState::Opening, Some(Created::Pending), flushed)
            == CompleteStep::Done(Completion::Pending),
{
}

/// Driving a sink again with what was already seen changes nothing more:
/// the state stays, and so does the step, which the first call has not
/// yet been given the outcome of.
pub proof fn drive_is_idempotent(
    state: FileSinkState,
    created: Option<Created>,
    flushed: Option<Flushed>,
)
    ensures
        complete_state(complete_state(state, created, flushed), created, flushed)
            == complete_state(state, created, flushed),
        complete_step(complete_state(state, created, flushed), created, flushed) == complete_step(
            state,
            created,
            flushed,
        ),
{
}

/// No step is asked for twice: once the outcome of polling the open is
/// given, no call asks to poll it again, and once the outcome of the flush
/// is given, none asks to flush again. So the third call at the latest
/// answers the offer or the round.
pub proof fn steps_are_asked_once(
    state: FileSinkState,
    created: Created,
    flushed: Flushed,
    any_created: Option<Created>,
    any_flushed: Option<Flushed>,
)
    ensures
        send_kind(state, Some(created)) != SendKind::PollOpen,
        complete_step(state, Some(created), any_flushed) != CompleteStep::PollOpen,
        complete_step(state, any_created, Some(flushed)) != CompleteStep::Flush,
        complete_step(state, Some(created), Some(flushed)) is Done,
{
}

/// A sink that writes lines to one file.
#[derive(Debug)]
pub struct FileSink {
    pub path: String,
    pub state: FileSinkState,
}

impl FileSink {
    /// A sink for `path` that has not opened its file.
    pub fn new(path: String) -> (sink: Self)
        ensures
            sink.path == path,
            sink.state == FileSinkState::Unopened,
    {
        Self { path, state: FileSinkState::Unopened }
    }

    /// A sink for `path` that takes events and writes each as one line in
    /// the given encoding.
    pub fn new_with_encoding(path: String, encoding: Option<BasicEncoding>) -> (sink:
        EmbeddedFileSink)
        ensures
            sink.sink.path == path,
            sink.sink.state == FileSinkState::Unopened,
            sink.encoding == encoding,
    {
        EmbeddedFileSink { sink: FileSink::new(path), encoding }
    }

    /// Takes in what came of polling the pending open, and says whether the
    /// file is there. `created` counts only while the file is opening.
    pub fn poll_file(&mut self, created: Option<Created>) -> (r: FilePoll)
        ensures
            final(self).path == old(self).path,
            final(self).state == polled(old(self).state, created),
            r == file_poll(old(self).state, created),
    {
        match self.state {
            FileSinkState::Unopened => FilePoll::Failed,
            FileSinkState::Opening => match created {
                Some(Created::Opened) => {
                    self.state = FileSinkState::Open;
                    FilePoll::Ready
                },
                Some(Created::Failed) => {
                    self.state = FileSinkState::Unopened;
                    FilePoll::Failed
                },
                _ => FilePoll::NotReady,
            },
            FileSinkState::Open => FilePoll::Ready,
        }
    }

    /// Offers a line. `created` is what came of polling the pending open, if
    /// it was polled.
    pub fn start_send(&mut self, line: bytes::Bytes, created: Option<Created>) -> (step: SendStep)
        ensures
            final(self).path == old(self).path,
            final(self).state == send_state(old(self).state, created),
            step == send_step(old(self).state, line, created),
    {
        match self.state {
            FileSinkState::Open => SendStep::Write(line),
            _ => {
                self.state = FileSinkState::Opening;
                match created {
                    None => SendStep::PollOpen(line),
                    Some(_) => match self.poll_file(created) {
                        FilePoll::Ready => SendStep::Write(line),
                        FilePoll::NotReady => SendStep::Done(Offer::Rejected(line)),
                        FilePoll::Failed => SendStep::Done(Offer::Accepted),
                    },
                }
            },
        }
    }

    /// Takes in what came of the write that [`FileSink::start_send`] asked
    /// for, and answers the offer.
    pub fn sent(&mut self, sent: Sent) -> (offer: Offer<bytes::Bytes>)
        ensures
            final(self).path == old(self).path,
            final(self).state == sent_state(old(self).state, sent),
            offer == sent_offer(sent),
    {
        match sent {
            Sent::Accepted => Offer::Accepted,
            Sent::Busy(line) => Offer::Rejected(line),
            Sent::Failed => {
                self.state = FileSinkState::Unopened;
                Offer::Accepted
            },
        }
    }

    /// Drives the sink towards completion. `created` and `flushed` are what
    /// came of polling the pending open and of flushing the file, as far as
    /// that was done.
    pub fn poll_complete(&mut self, created: Option<Created>, flushed: Option<Flushed>) -> (step:
        CompleteStep)
        ensures
            final(self).path == old(self).path,
            final(self).state == complete_state(old(self).state, created, flushed),
            step == complete_step(old(self).state, created, flushed),
    {
        match self.state {
            FileSinkState::Unopened => CompleteStep::Done(Completion::Ready),
            FileSinkState::Opening if created.is_none() => CompleteStep::PollOpen,
            _ => match self.poll_file(created) {
                FilePoll::Failed => CompleteStep::Done(Completion::Ready),
                FilePoll::NotReady => CompleteStep::Done(Completion::Pending),
                FilePoll::Ready => match flushed {
                    None => CompleteStep::Flush,
                    Some(Flushed::Pending) => CompleteStep::Done(Completion::Pending),
                    Some(Flushed::Done) => CompleteStep::Done(Completion::Ready),
                    Some(Flushed::Failed) => {
                        self.state = FileSinkState::Unopened;
                        CompleteStep::Done(Completion::Ready)
                    },
                },
            },
        }
    }
}

/// A file sink that takes events: it writes each as one line.
#[derive(Debug)]
pub struct EmbeddedFileSink {
    pub sink: FileSink,
    pub encoding: Option<BasicEncoding>,
}

/// What sending an event needs next.
#[derive(Debug)]
pub enum EventStep {
    /// Poll the pending open, starting it where there is none, and send the
    /// event again with the outcome.
    PollOpen(Event),
    /// Hand the line to the open file and report the outcome with the event.
    Write(bytes::Bytes, Event),
    Done(Offer<Event>),
}

/// Whether `step` is what an offer of `event`, encoded as `payload`, comes
/// to: the event goes back with every step but the drop, and the line to
/// write holds the payload.
pub open spec fn event_step(kind: SendKind, event: Event, payload: Seq<u8>, step: EventStep) -> bool {
    match step {
        EventStep::PollOpen(e) => kind == SendKind::PollOpen && e == event,
        EventStep::Write(line, e) => kind == SendKind::Write && e == event && bytes_view(line)
            == payload,
        EventStep::Done(Offer::Rejected(e)) => kind == SendKind::Rejected && e == event,
        EventStep::Done(Offer::Accepted) => kind == SendKind::Dropped,
    }
}

/// The answer to an offered event after the write was reported: an event
/// whose line the file took is accepted, one whose line it handed back is
/// rejected, and one that it failed on is dropped.
pub open spec fn sent_event(event: Event, sent: Sent) -> Offer<Event> {
    match sent {
        Sent::Accepted => Offer::Accepted,
        Sent::Busy(_) => Offer::Rejected(event),
        Sent::Failed => Offer::Accepted,
    }
}

impl EmbeddedFileSink {
    /// Offers an event: encodes it as one line and offers the line to the
    /// file sink. Fails, before the sink is touched, only where the encoder
    /// does.
    pub fn start_send(&mut self, event: Event, created: Option<Created>) -> (r: Result<
        EventStep,
        (),
    >)
        ensures
            final(self).sink.path == old(self).sink.path,
            final(self).encoding == old(self).encoding,
            match encoded(event@, old(self).encoding) {
                Some(bytes) => final(self).sink.state == send_state(old(self).sink.state, created)
                    && (r matches Ok(step) && event_step(
                    send_kind(old(self).sink.state, created),
                    event,
                    bytes.push(NEWLINE),
                    step,
                )),
                None => final(self).sink.state == old(self).sink.state && r is Err,
            },
    {
        match log_event_as_line(&event, &self.encoding) {
            Err(_) => Err(()),
            Ok(line) => match self.sink.start_send(line, created) {
                SendStep::PollOpen(_) => Ok(EventStep::PollOpen(event)),
                SendStep::Write(line) => Ok(EventStep::Write(line, event)),
                SendStep::Done(Offer::Rejected(_)) => Ok(EventStep::Done(Offer::Rejected(event))),
                SendStep::Done(Offer::Accepted) => Ok(EventStep::Done(Offer::Accepted)),
            },
        }
    }

    /// Takes in what came of the write that [`EmbeddedFileSink::start_send`]
    /// asked for, and answers the offer of `event`.
    pub fn sent(&mut self, event: Event, sent: Sent) -> (offer: Offer<Event>)
        ensures
            final(self).sink.path == old(self).sink.path,
            final(self).encoding == old(self).encoding,
            final(self).sink.state == sent_state(old(self).sink.state, sent),
            offer == sent_event(event, sent),
    {
        match self.sink.sent(sent) {
            Offer::Accepted => Offer::Accepted,
            Offer::Rejected(_) => Offer::Rejected(event),
        }
    }

    /// Drives the sink towards completion, as [`FileSink::poll_complete`]
    /// does.
    pub fn poll_complete(&mut self, created: Option<Created>, flushed: Option<Flushed>) -> (step:
        CompleteStep)
        ensures
            final(self).sink.path == old(self).sink.path,
            final(self).encoding == old(self).encoding,
            final(self).sink.state == complete_state(old(self).sink.state, created, flushed),
            step == complete_step(old(self).sink.state, created, flushed),
    {
        self.sink.poll_complete(created, flushed)
    }
}

} // verus!
