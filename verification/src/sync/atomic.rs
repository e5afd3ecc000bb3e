//! Identifier source for requests sent over one connection.

use std::sync::atomic::AtomicU64;
use vstd::prelude::*;

verus! {

pub use crate::json::Id;

/// The identifier that follows `id`: one more, and `0` after `u64::MAX`.
pub open spec fn successor(id: Id) -> Id {
    if id == u64::MAX {
        0
    } else {
        (id + 1) as u64
    }
}

/// The identifier that a counter hands out after `taken` others, where
/// `first` is the one it hands out first.
pub open spec fn nth_after(first: Id, taken: nat) -> Id
    decreases taken,
{
    if taken == 0 {
        first
    } else {
        successor(nth_after(first, (taken - 1) as nat))
    }
}

/// Counting on from `first` is adding modulo 2^64.
pub proof fn lemma_nth_after(first: Id, taken: nat)
    ensures
        nth_after(first, taken) == (first + taken) % 0x1_0000_0000_0000_0000,
    decreases taken,
{
    if taken > 0 {
        lemma_nth_after(first, (taken - 1) as nat);
    }
}

/// A counter hands out no identifier twice before it has handed out 2^64 of
/// them.
pub proof fn lemma_no_reuse(first: Id, a: u64, b: u64)
    requires
        a != b,
    ensures
        nth_after(first, a as nat) != nth_after(first, b as nat),
{
    lemma_nth_after(first, a as nat);
    lemma_nth_after(first, b as nat);
}

/// Lightweight atomic counter that hands out identifiers one after the
/// other, starting from `1`. After `u64::MAX` comes `0`.
///
/// The counter keeps the identifier it starts with and counts, atomically,
/// how many it has handed out. It is shared between the handle and the
/// messenger of a connection, so no call can say how many were handed out
/// before it: only which identifier belongs to each count.
#[derive(Debug)]
pub struct AtomicId {
    first: Id,
    taken: AtomicU64,
}

impl AtomicId {
    /// The identifier that the counter hands out first.
    pub closed spec fn first(&self) -> Id {
        self.first
    }

    /// Creates a counter whose first identifier is `1`.
    pub fn new() -> (r: AtomicId)
        ensures
            r.first() == 1,
    {
        AtomicId { first: 1, taken: AtomicU64::new(0) }
    }

    /// Creates a counter whose first identifier is `first`.
    pub fn starting_at(first: Id) -> (r: AtomicId)
        ensures
            r.first() == first,
    {
        AtomicId { first, taken: AtomicU64::new(0) }
    }

    /// The identifier that the counter hands out after `taken` others.
    pub fn nth(&self, taken: u64) -> (r: Id)
        ensures
            r == nth_after(self.first(), taken as nat),
    {
        proof {
            lemma_nth_after(self.first, taken as nat);
        }
        self.first.wrapping_add(taken)
    }

    /// Returns the next identifier: the one that belongs to the number of
    /// identifiers handed out so far, as [`AtomicId::nth`] has it. That
    /// number is counted up by one, atomically, and starts over after 2^64.
    pub fn next(&self) -> Id {
        let taken = self.taken.fetch_add(1, std::sync::atomic::Ordering::SeqCst);
        self.nth(taken)
    }
}

} // verus!
