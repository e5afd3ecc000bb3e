//! Graceful shutdown, as each task sees it.
//!
//! A manager signals the shutdown once; every task that holds a [`Shutdown`]
//! waits for the signal at most once and remembers it from then on. The
//! waiting itself is done by whoever owns the channels; this module records
//! what was seen.

use vstd::prelude::*;

verus! {

/// Remembers whether the shutdown signal was received.
#[derive(Clone, Copy, Debug)]
pub struct Shutdown {
    shutdown: bool,
}

impl Shutdown {
    /// Whether the signal was received.
    pub closed spec fn received(&self) -> bool {
        self.shutdown
    }

    /// A handle that has not received the signal.
    pub fn new() -> (r: Shutdown)
        ensures
            !r.received(),
    {
        Shutdown { shutdown: false }
    }

    /// Returns `true` if the shutdown signal has already been received.
    pub fn is_shutdown(&self) -> (r: bool)
        ensures
            r == self.received(),
    {
        self.shutdown
    }

    /// Whether receiving has to wait for the manager: only as long as the
    /// signal has not been received. Afterwards receiving returns at once.
    pub fn must_wait(&self) -> (r: bool)
        ensures
            r == !self.received(),
    {
        !self.shutdown
    }

    /// Records the signal. The end of the manager counts as the signal.
    /// Once recorded, the signal stays.
    pub fn recv(&mut self)
        ensures
            final(self).received(),
    {
        self.shutdown = true;
    }
}

} // verus!
