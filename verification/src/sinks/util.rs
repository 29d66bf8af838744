//! What the sinks share.

use crate::sinks::file::Completion;
use vstd::prelude::*;

pub mod encoding;

verus! {

/// The count of the events that a sink has accepted and not yet reported
/// as handled. They are reported only when the sink is ready, that is when
/// all that it accepted has been handed on.
#[derive(Debug)]
pub struct StreamAck {
    pub pending: usize,
}

impl StreamAck {
    /// A count of nothing.
    pub fn new() -> (ack: Self)
        ensures
            ack.pending == 0,
    {
        Self { pending: 0 }
    }

    /// Whether the count is full: then the sink must be driven to
    /// completion before it accepts another event.
    pub fn is_full(&self) -> (full: bool)
        ensures
            full == (self.pending == usize::MAX),
    {
        self.pending == usize::MAX
    }

    /// Counts one accepted event, which a count that is not full has room
    /// for, and says whether the count is full now.
    pub fn accepted(&mut self) -> (full: bool)
        requires
            old(self).pending < usize::MAX,
        ensures
            final(self).pending == old(self).pending + 1,
            full == (final(self).pending == usize::MAX),
    {
        self.pending = self.pending + 1;
        self.pending == usize::MAX
    }

    /// Takes in how a round of driving ended, and gives the number of
    /// events to report as handled: all that were counted when the sink is
    /// ready, none while it is pending.
    pub fn completed(&mut self, completion: Completion) -> (handled: usize)
        ensures
            completion == Completion::Ready ==> handled == old(self).pending && final(self).pending
                == 0,
            completion == Completion::Pending ==> handled == 0 && final(self).pending == old(
                self,
            ).pending,
    {
        match completion {
            Completion::Ready => {
                let handled = self.pending;
                self.pending = 0;
                handled
            },
            Completion::Pending => 0,
        }
    }
}

} // verus!
