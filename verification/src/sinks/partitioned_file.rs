//! The partitioned file sink: it renders a destination key from each event
//! and routes the event to the file sink of that key, which it keeps in a
//! pool.

use crate::event::{Event, EventView};
use crate::payload::bytes_view;
use crate::sinks::file::{
    complete_state, complete_step, send_kind, send_state, sent_state, CompleteStep, Completion,
    Created, EmbeddedFileSink, EventStep, FileSink, FileSinkState, Flushed, Offer, SendKind, Sent,
};
use crate::sinks::util::encoding::{encoded, BasicEncoding, NEWLINE};
use crate::sinks::DataType;
use crate::template::{missing, rendered, Template};
use vstd::prelude::*;

verus! {

/// The configuration of a partitioned file sink.
#[derive(Debug)]
pub struct PartitionedFileSinkConfig {
    pub path_template: String,
    /// Accepted, and not enforced: the sink closes no file.
    pub close_timeout_secs: u64,
    pub encoding: Option<BasicEncoding>,
}

/// The close timeout of a configuration that sets none, in seconds.
pub fn default_close_timeout_secs() -> (secs: u64)
    ensures
        secs == 60,
{
    60
}

impl PartitionedFileSinkConfig {
    /// The configuration for `path_template`, with the default close
    /// timeout and no encoding set.
    pub fn new(path_template: String) -> (config: Self)
        ensures
            config.path_template == path_template,
            config.close_timeout_secs == 60,
            config.encoding is None,
    {
        Self { path_template, close_timeout_secs: default_close_timeout_secs(), encoding: None }
    }

    /// A partitioned file sink takes log events only.
    pub fn input_type(&self) -> (kind: DataType)
        ensures
            kind == DataType::Log,
    {
        DataType::Log
    }

    /// The sink that this configuration describes, with an empty pool.
    pub fn build(&self) -> (sink: PartitionedFileSink)
        ensures
            sink.template() == self.path_template@,
            sink.encoding() == self.encoding,
            sink@ == Seq::<Partition>::empty(),
    {
        PartitionedFileSink::new(Template::from(self.path_template.as_str()), self.encoding)
    }
}

/// One file sink of the pool, as contracts see it.
pub struct Partition {
    pub path: Seq<char>,
    pub state: FileSinkState,
}

/// Whether the pool has a file sink for `path`.
pub open spec fn has_partition(pool: Seq<Partition>, path: Seq<char>) -> bool {
    exists|i: int| 0 <= i < pool.len() && (#[trigger] pool[i]).path == path
}

/// The place of the file sink for `path`: where the pool has it, or behind
/// the last, where a new one goes.
pub open spec fn partition_index(pool: Seq<Partition>, path: Seq<char>) -> int {
    if has_partition(pool, path) {
        choose|i: int| 0 <= i < pool.len() && (#[trigger] pool[i]).path == path
    } else {
        pool.len() as int
    }
}

/// The pool once it has a file sink for `path`: as it was where it had one,
/// else with a new, unopened one behind the last.
pub open spec fn resolved(pool: Seq<Partition>, path: Seq<char>) -> Seq<Partition> {
    if has_partition(pool, path) {
        pool
    } else {
        pool.push(Partition { path, state: FileSinkState::Unopened })
    }
}

/// No two file sinks of the pool share a path.
pub open spec fn distinct_paths(pool: Seq<Partition>) -> bool {
    forall|i: int, j: int|
        0 <= i < j < pool.len() ==> (#[trigger] pool[i]).path != (#[trigger] pool[j]).path
}

/// The pool with the state of the file sink at place `i` replaced.
pub open spec fn with_state(pool: Seq<Partition>, i: int, state: FileSinkState) -> Seq<
    Partition,
> {
    if 0 <= i < pool.len() {
        pool.update(i, Partition { path: pool[i].path, state })
    } else {
        pool
    }
}

/// The answer to a routed event.
#[derive(Debug)]
pub enum Route {
    /// The event was handed on, or dropped with the file that failed.
    Accepted,
    /// The file is not ready: the caller keeps the event and routes it again.
    Rejected(Event),
    /// The event lacks the named fields, which the template asks for: it is
    /// dropped, and no file sink is made or touched.
    Dropped(Vec<String>),
}

/// What routing an event needs next.
#[derive(Debug)]
pub enum RouteStep {
    /// Poll the pending open of the file sink at the given place, starting
    /// it where there is none, and route the event again with the outcome.
    PollOpen(usize, Event),
    /// Hand the line to the open file of the file sink at the given place
    /// and report the outcome with the event.
    Write(usize, bytes::Bytes, Event),
    Done(Route),
}

/// Whether `step` is what routing `event`, encoded as `payload`, to the
/// file sink at place `partition` comes to.
pub open spec fn route_step(
    kind: SendKind,
    partition: int,
    event: Event,
    payload: Seq<u8>,
    step: RouteStep,
) -> bool {
    match step {
        RouteStep::PollOpen(i, e) => kind == SendKind::PollOpen && i == partition && e == event,
        RouteStep::Write(i, line, e) => kind == SendKind::Write && i == partition && e == event
            && bytes_view(line) == payload,
        RouteStep::Done(Route::Rejected(e)) => kind == SendKind::Rejected && e == event,
        RouteStep::Done(Route::Accepted) => kind == SendKind::Dropped,
        RouteStep::Done(Route::Dropped(_)) => false,
    }
}

/// The answer to a routed event after the write was reported.
pub open spec fn sent_route(event: Event, sent: Sent) -> Route {
    match sent {
        Sent::Accepted => Route::Accepted,
        Sent::Busy(_) => Route::Rejected(event),
        Sent::Failed => Route::Accepted,
    }
}

/// The key of an event: what the template renders from its fields, where
/// the event has all the fields that the template asks for.
pub open spec fn key_of(template: Seq<char>, event: EventView) -> Option<Seq<char>> {
    if missing(template, event.fields()).len() == 0 {
        Some(rendered(template, event.fields()))
    } else {
        None
    }
}

/// The pool after an event was routed. An event without a key leaves the
/// pool as it was. Any other has the file sink of its key in the pool
/// afterwards, and that file sink has been offered the event where the
/// encoder gave its line.
pub open spec fn routed(
    pool: Seq<Partition>,
    template: Seq<char>,
    encoding: Option<BasicEncoding>,
    event: EventView,
    created: Option<Created>,
) -> Seq<Partition> {
    match key_of(template, event) {
        None => pool,
        Some(path) => {
            let i = partition_index(pool, path);
            let pool = resolved(pool, path);
            if encoded(event, encoding) is Some {
                with_state(pool, i, send_state(pool[i].state, created))
            } else {
                pool
            }
        },
    }
}

/// Whether `step` is what routing `event` comes to: the drop that names
/// the missing fields for an event without a key, else the step of the
/// file sink of its key, which is offered the event's line.
pub open spec fn route_answer(
    pool: Seq<Partition>,
    template: Seq<char>,
    encoding: Option<BasicEncoding>,
    event: Event,
    created: Option<Created>,
    step: RouteStep,
) -> bool {
    match key_of(template, event@) {
        None => step matches RouteStep::Done(Route::Dropped(names)) && names.deep_view()
            == missing(template, event@.fields()),
        Some(path) => encoded(event@, encoding) matches Some(bytes) && route_step(
            send_kind(
                resolved(pool, path)[partition_index(pool, path)].state,
                created,
            ),
            partition_index(pool, path),
            event,
            bytes.push(NEWLINE),
            step,
        ),
    }
}

/// What the driver has seen of one file sink's file while driving the pool.
#[derive(Debug, Clone, Copy, PartialEq, Eq, Structural)]
pub struct Progress {
    /// What came of polling the pending open, if it was polled.
    pub created: Option<Created>,
    /// What came of flushing the file, if it was flushed.
    pub flushed: Option<Flushed>,
}

/// What driving the pool to completion needs next.
#[derive(Debug, Clone, Copy, PartialEq, Eq, Structural)]
pub enum DriveStep {
    /// Poll the pending open of the file sink at the given place, and drive
    /// again with the outcome.
    PollOpen(usize),
    /// Flush the file of the file sink at the given place, and drive again
    /// with the outcome.
    Flush(usize),
    Done(Completion),
}

/// What was seen of the file sink at place `i`: nothing where `seen` does
/// not reach.
pub open spec fn seen_at(seen: Seq<Progress>, i: int) -> Progress {
    if 0 <= i < seen.len() {
        seen[i]
    } else {
        Progress { created: None, flushed: None }
    }
}

/// What driving the file sink at place `i` needs next.
pub open spec fn step_at(pool: Seq<Partition>, seen: Seq<Progress>, i: int) -> CompleteStep {
    complete_step(pool[i].state, seen_at(seen, i).created, seen_at(seen, i).flushed)
}

/// The file sink at place `i` after it was driven.
pub open spec fn driven_at(pool: Seq<Partition>, seen: Seq<Progress>, i: int) -> Partition {
    Partition {
        path: pool[i].path,
        state: complete_state(pool[i].state, seen_at(seen, i).created, seen_at(seen, i).flushed),
    }
}

/// Whether some file sink before place `n` is pending.
pub open spec fn pending_before(pool: Seq<Partition>, seen: Seq<Progress>, n: int) -> bool {
    exists|i: int|
        0 <= i < n && #[trigger] step_at(pool, seen, i) == CompleteStep::Done(Completion::Pending)
}

/// Whether every file sink before place `n` is done, pending or ready.
pub open spec fn done_before(pool: Seq<Partition>, seen: Seq<Progress>, n: int) -> bool {
    forall|i: int| 0 <= i < n ==> #[trigger] step_at(pool, seen, i) is Done
}

/// The pool after its file sinks up to place `last` were driven, in order.
pub open spec fn driven_through(pool: Seq<Partition>, seen: Seq<Progress>, last: int) -> Seq<
    Partition,
> {
    Seq::new(
        pool.len(),
        |i: int|
            if i <= last {
                driven_at(pool, seen, i)
            } else {
                pool[i]
            },
    )
}

/// A sink that writes each event to the file that its key names.
#[derive(Debug)]
pub struct PartitionedFileSink {
    path_template: Template,
    encoding: Option<BasicEncoding>,
    partitions: Vec<EmbeddedFileSink>,
}

/// The pool that a vector of file sinks stands for.
pub closed spec fn pool_of(partitions: Seq<EmbeddedFileSink>) -> Seq<Partition> {
    Seq::new(
        partitions.len(),
        |i: int| Partition { path: partitions[i].sink.path@, state: partitions[i].sink.state },
    )
}

impl View for PartitionedFileSink {
    type V = Seq<Partition>;

    closed spec fn view(&self) -> Seq<Partition> {
        pool_of(self.partitions@)
    }
}

fn position(partitions: &Vec<EmbeddedFileSink>, path: &String) -> (r: Option<usize>)
    ensures
        match r {
            Some(i) => i < partitions@.len() && pool_of(partitions@)[i as int].path == path@,
            None => !has_partition(pool_of(partitions@), path@),
        },
{
    let mut i: usize = 0;
    while i < partitions.len()
        invariant
            i <= partitions@.len(),
            forall|j: int| 0 <= j < i ==> (#[trigger] pool_of(partitions@)[j]).path != path@,
        decreases partitions@.len() - i,
    {
        if partitions[i].sink.path == *path {
            return Some(i);
        }
        i = i + 1;
    }
    None
}

/// Partition isolation: where two events have different keys, the second
/// is routed to another place than the first; routing it leaves the file
/// sink of the first as it was, and each of the two places holds the path
/// of its own key.
pub proof fn partition_isolation(
    pool: Seq<Partition>,
    template: Seq<char>,
    encoding: Option<BasicEncoding>,
    first: EventView,
    second: EventView,
    created: Option<Created>,
    created_next: Option<Created>,
)
    requires
        distinct_paths(pool),
        key_of(template, first) is Some,
        key_of(template, second) is Some,
        key_of(template, first) != key_of(template, second),
    ensures
        ({
            let once = routed(pool, template, encoding, first, created);
            let twice = routed(once, template, encoding, second, created_next);
            let i = partition_index(pool, key_of(template, first)->0);
            let j = partition_index(once, key_of(template, second)->0);
            &&& i != j
            &&& 0 <= i < once.len() <= twice.len()
            &&& 0 <= j < twice.len()
            &&& twice[i] == once[i]
            &&& twice[i].path == key_of(template, first)->0
            &&& twice[j].path == key_of(template, second)->0
            &&& distinct_paths(twice)
        }),
{
}

/// Partition pooling: a second event of the same key is routed to the file
/// sink that the first one was routed to, at the same place, and the pool
/// takes no new file sink for it. Where the first one left the file open,
/// the second is written to that file: no other open is asked for.
pub proof fn partition_pooling(
    pool: Seq<Partition>,
    template: Seq<char>,
    encoding: Option<BasicEncoding>,
    first: EventView,
    second: EventView,
    created: Option<Created>,
    created_next: Option<Created>,
)
    requires
        distinct_paths(pool),
        key_of(template, first) is Some,
        key_of(template, first) == key_of(template, second),
    ensures
        ({
            let once = routed(pool, template, encoding, first, created);
            let twice = routed(once, template, encoding, second, created_next);
            let i = partition_index(pool, key_of(template, first)->0);
            &&& partition_index(once, key_of(template, second)->0) == i
            &&& 0 <= i < once.len()
            &&& once.len() <= pool.len() + 1
            &&& twice.len() == once.len()
            &&& twice[i].path == key_of(template, first)->0
            &&& once[i].state == FileSinkState::Open ==> send_kind(once[i].state, created_next)
                == SendKind::Write
        }),
{
}

/// Drop on a missing key: an event that lacks a field of the template has
/// no key, and routing it leaves the pool as it was; the answer is the
/// drop, with which the routing of that event is done.
pub proof fn missing_key_drops(
    pool: Seq<Partition>,
    template: Seq<char>,
    encoding: Option<BasicEncoding>,
    event: Event,
    created: Option<Created>,
    step: RouteStep,
)
    requires
        missing(template, event@.fields()).len() > 0,
        route_answer(pool, template, encoding, event, created, step),
    ensures
        key_of(template, event@) is None,
        routed(pool, template, encoding, event@, created) == pool,
        step matches RouteStep::Done(Route::Dropped(names)) && names.deep_view() == missing(
            template,
            event@.fields(),
        ),
{
}

/// The pool only grows: routing, reporting a write and driving keep every
/// file sink at its place with its path. A step on one file sink leaves
/// every other as it was, and so does driving leave those behind the place
/// where it stopped.
pub proof fn pool_only_grows(
    pool: Seq<Partition>,
    path: Seq<char>,
    i: int,
    state: FileSinkState,
    seen: Seq<Progress>,
    last: int,
)
    ensures
        resolved(pool, path).len() >= pool.len(),
        forall|k: int| 0 <= k < pool.len() ==> #[trigger] resolved(pool, path)[k] == pool[k],
        with_state(pool, i, state).len() == pool.len(),
        forall|k: int|
            0 <= k < pool.len() ==> (#[trigger] with_state(pool, i, state)[k]).path == pool[k].path,
        forall|k: int|
            0 <= k < pool.len() && k != i ==> #[trigger] with_state(pool, i, state)[k] == pool[k],
        driven_through(pool, seen, last).len() == pool.len(),
        forall|k: int|
            0 <= k < pool.len() ==> (#[trigger] driven_through(pool, seen, last)[k]).path
                == pool[k].path,
        forall|k: int|
            0 <= k < pool.len() && last < k ==> #[trigger] driven_through(pool, seen, last)[k]
                == pool[k],
{
}

impl PartitionedFileSink {
    #[verifier::type_invariant]
    spec fn well_formed(&self) -> bool {
        &&& distinct_paths(self@)
        &&& forall|i: int|
            0 <= i < self.partitions@.len() ==> (#[trigger] self.partitions@[i]).encoding
                == self.encoding
    }

    /// The text of the template that renders the keys.
    pub closed spec fn template(&self) -> Seq<char> {
        self.path_template@
    }

    /// The encoding of the lines.
    pub closed spec fn encoding(&self) -> Option<BasicEncoding> {
        self.encoding
    }

    /// A sink with an empty pool.
    pub fn new(path_template: Template, encoding: Option<BasicEncoding>) -> (sink: Self)
        ensures
            sink.template() == path_template@,
            sink.encoding() == encoding,
            sink@ == Seq::<Partition>::empty(),
    {
        let sink = PartitionedFileSink { path_template, encoding, partitions: Vec::new() };
        sink
    }

    /// The number of file sinks in the pool, whose paths are distinct.
    pub fn len(&self) -> (n: usize)
        ensures
            n == self@.len(),
            distinct_paths(self@),
    {
        proof {
            use_type_invariant(self);
        }
        self.partitions.len()
    }

    /// The path of the file sink at place `i`.
    pub fn path(&self, i: usize) -> (path: &String)
        requires
            i < self@.len(),
        ensures
            path@ == self@[i as int].path,
    {
        &self.partitions[i].sink.path
    }

    /// The state of the file sink at place `i`.
    pub fn state(&self, i: usize) -> (state: FileSinkState)
        requires
            i < self@.len(),
        ensures
            state == self@[i as int].state,
    {
        self.partitions[i].sink.state
    }

    /// Routes an event: renders its key, finds the file sink of that key in
    /// the pool or puts a new one there, and offers the event to it.
    /// `created` is what came of polling that file sink's pending open, if
    /// it was polled. Fails only where the encoder does.
    pub fn start_send(&mut self, event: Event, created: Option<Created>) -> (r: Result<
        RouteStep,
        (),
    >)
        ensures
            final(self).template() == old(self).template(),
            final(self).encoding() == old(self).encoding(),
            distinct_paths(final(self)@),
            final(self)@ == routed(
                old(self)@,
                old(self).template(),
                old(self).encoding(),
                event@,
                created,
            ),
            r is Err <==> key_of(old(self).template(), event@) is Some && encoded(
                event@,
                old(self).encoding(),
            ) is None,
            r matches Ok(step) ==> route_answer(
                old(self)@,
                old(self).template(),
                old(self).encoding(),
                event,
                created,
                step,
            ),
    {
        proof {
            use_type_invariant(&*self);
        }
        match self.path_template.render(&event) {
            Err(names) => Ok(RouteStep::Done(Route::Dropped(names))),
            Ok(path) => {
                let ghost key = path@;
                let mut partitions: Vec<EmbeddedFileSink> = Vec::new();
                std::mem::swap(&mut partitions, &mut self.partitions);
                let i = match position(&partitions, &path) {
                    Some(i) => i,
                    None => {
                        partitions.push(FileSink::new_with_encoding(path, self.encoding));
                        partitions.len() - 1
                    },
                };
                let ghost pool = resolved(old(self)@, key);
                let r = partitions[i].start_send(event, created);
                assert(pool_of(partitions@) == with_state(
                    pool,
                    i as int,
                    partitions@[i as int].sink.state,
                ));
                self.partitions = partitions;
                match r {
                    Err(_) => Err(()),
                    Ok(EventStep::PollOpen(e)) => Ok(RouteStep::PollOpen(i, e)),
                    Ok(EventStep::Write(line, e)) => Ok(RouteStep::Write(i, line, e)),
                    Ok(EventStep::Done(Offer::Rejected(e))) => Ok(
                        RouteStep::Done(Route::Rejected(e)),
                    ),
                    Ok(EventStep::Done(Offer::Accepted)) => Ok(RouteStep::Done(Route::Accepted)),
                }
            },
        }
    }

    /// Takes in what came of the write that [`PartitionedFileSink::start_send`]
    /// asked for on the file sink at place `partition`, and answers the
    /// routing of `event`. A place beyond the pool changes nothing.
    pub fn sent(&mut self, partition: usize, event: Event, sent: Sent) -> (route: Route)
        ensures
            final(self).template() == old(self).template(),
            final(self).encoding() == old(self).encoding(),
            distinct_paths(final(self)@),
            final(self)@ == with_state(
                old(self)@,
                partition as int,
                sent_state(old(self)@[partition as int].state, sent),
            ),
            route == sent_route(event, sent),
    {
        proof {
            use_type_invariant(&*self);
        }
        let mut partitions: Vec<EmbeddedFileSink> = Vec::new();
        std::mem::swap(&mut partitions, &mut self.partitions);
        let route = if partition < partitions.len() {
            match partitions[partition].sent(event, sent) {
                Offer::Accepted => Route::Accepted,
                Offer::Rejected(e) => Route::Rejected(e),
            }
        } else {
            match sent {
                Sent::Busy(_) => Route::Rejected(event),
                _ => Route::Accepted,
            }
        };
        assert(pool_of(partitions@) == with_state(
            old(self)@,
            partition as int,
            sent_state(old(self)@[partition as int].state, sent),
        ));
        self.partitions = partitions;
        route
    }

    /// Drives every file sink of the pool towards completion, in order.
    /// `seen` holds, place by place, what the driver has seen of the files
    /// in this round. The first file sink that needs its open polled or its
    /// file flushed stops the round with that step; the file sinks behind
    /// it are left as they were. When none needs anything, the pool is
    /// pending if one of them is, else ready: a file sink that failed is
    /// unopened and ready, and holds up no other.
    pub fn poll_complete(&mut self, seen: &Vec<Progress>) -> (step: DriveStep)
        ensures
            final(self).template() == old(self).template(),
            final(self).encoding() == old(self).encoding(),
            distinct_paths(final(self)@),
            match step {
                DriveStep::PollOpen(i) => i < old(self)@.len() && done_before(
                    old(self)@,
                    seen@,
                    i as int,
                ) && step_at(old(self)@, seen@, i as int) == CompleteStep::PollOpen && final(self)@
                    == driven_through(old(self)@, seen@, i as int),
                DriveStep::Flush(i) => i < old(self)@.len() && done_before(
                    old(self)@,
                    seen@,
                    i as int,
                ) && step_at(old(self)@, seen@, i as int) == CompleteStep::Flush && final(self)@
                    == driven_through(old(self)@, seen@, i as int),
                DriveStep::Done(completion) => done_before(
                    old(self)@,
                    seen@,
                    old(self)@.len() as int,
                ) && (completion == Completion::Pending <==> pending_before(
                    old(self)@,
                    seen@,
                    old(self)@.len() as int,
                )) && final(self)@ == driven_through(old(self)@, seen@, old(self)@.len() as int),
            },
    {
        proof {
            use_type_invariant(&*self);
        }
        let ghost pool = self@;
        let mut partitions: Vec<EmbeddedFileSink> = Vec::new();
        std::mem::swap(&mut partitions, &mut self.partitions);
        let n = partitions.len();
        let mut pending = false;
        let mut found: Option<CompleteStep> = None;
        let mut i: usize = 0;
        while i < n && found.is_none()
            invariant
                n == pool.len(),
                partitions@.len() == n,
                self.partitions@.len() == 0,
                self.encoding == old(self).encoding,
                self.path_template == old(self).path_template,
                i <= n,
                distinct_paths(pool),
                forall|j: int|
                    0 <= j < n ==> (#[trigger] partitions@[j]).encoding == old(self).encoding,
                found matches Some(step) ==> i > 0 && step == step_at(pool, seen@, i - 1)
                    && !(step is Done) && done_before(pool, seen@, i - 1),
                found is None ==> done_before(pool, seen@, i as int),
                pending <==> pending_before(pool, seen@, i as int),
                pool_of(partitions@) == driven_through(pool, seen@, i - 1),
            decreases n - i,
        {
            let progress = if i < seen.len() {
                seen[i]
            } else {
                Progress { created: None, flushed: None }
            };
            let ghost before = pool_of(partitions@);
            assert(before[i as int] == pool[i as int]);
            let step = partitions[i].poll_complete(progress.created, progress.flushed);
            assert(pool_of(partitions@) == driven_through(pool, seen@, i as int)) by {
                assert forall|j: int| 0 <= j < n implies pool_of(partitions@)[j]
                    == driven_through(pool, seen@, i as int)[j] by {
                    if j != i {
                        assert(pool_of(partitions@)[j] == before[j]);
                    }
                }
            }
            match step {
                CompleteStep::Done(completion) => {
                    if completion == Completion::Pending {
                        pending = true;
                    }
                },
                _ => {
                    found = Some(step);
                },
            }
            i = i + 1;
        }
        self.partitions = partitions;
        match found {
            Some(CompleteStep::PollOpen) => DriveStep::PollOpen(i - 1),
            Some(CompleteStep::Flush) => DriveStep::Flush(i - 1),
            _ => DriveStep::Done(
                if pending {
                    Completion::Pending
                } else {
                    Completion::Ready
                },
            ),
        }
    }
}

} // verus!
