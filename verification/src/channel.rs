//! The caller's side of the request and reply channel: how long a caller
//! that cannot block looks for its reply before it gives up.

use vstd::prelude::*;

verus! {

/// The number of requests that the queue to the actor holds.
pub const QUEUE_DEPTH: usize = 30;

/// The time for which a caller looks for its reply, in milliseconds.
pub const REPLY_WINDOW_MS: u64 = 1000;

/// The pause between two looks at the reply slot, in milliseconds.
pub const POLL_INTERVAL_MS: u64 = 5;

/// The wait of one caller for one reply: the looks at the reply slot that
/// it has left.
#[derive(Clone, Copy, Debug, PartialEq, Eq)]
pub struct ReplyWait {
    pub polls_left: u64,
}

impl ReplyWait {
    /// The number of looks that fit into `window_ms` at one every
    /// `interval_ms`; none if the interval is zero.
    pub open spec fn spec_polls(window_ms: u64, interval_ms: u64) -> u64 {
        if interval_ms == 0 {
            0
        } else {
            window_ms / interval_ms
        }
    }

    /// A wait of `window_ms` milliseconds with a look every `interval_ms`.
    pub fn new(window_ms: u64, interval_ms: u64) -> (wait: ReplyWait)
        ensures
            wait.polls_left == Self::spec_polls(window_ms, interval_ms),
    {
        if interval_ms == 0 {
            ReplyWait { polls_left: 0 }
        } else {
            ReplyWait { polls_left: window_ms / interval_ms }
        }
    }

    /// Whether the caller is to look at the reply slot once more. If not,
    /// the wait is over and the reply, should it come, is dropped.
    pub fn open(&self) -> (open: bool)
        ensures
            open == (self.polls_left > 0),
    {
        self.polls_left > 0
    }

    /// Counts a look that found the slot empty. The caller pauses for the
    /// interval before it asks again.
    pub fn missed(&mut self)
        ensures
            final(self).polls_left == if old(self).polls_left > 0 {
                old(self).polls_left - 1
            } else {
                0
            },
    {
        if self.polls_left > 0 {
            self.polls_left = self.polls_left - 1;
        }
    }
}

impl Default for ReplyWait {
    /// The wait of the standard window at the standard interval: 200 looks.
    fn default() -> (wait: Self)
        ensures
            wait.polls_left == 200,
    {
        ReplyWait::new(REPLY_WINDOW_MS, POLL_INTERVAL_MS)
    }
}

} // verus!
