//! Identifier allocation: a counter that hands out each number once.

use vstd::prelude::*;

verus! {

/// The identifiers of one class of things. Each identifier is issued once,
/// and each is greater than every one issued before it.
pub struct IdAllocator {
    next: u64,
}

impl View for IdAllocator {
    type V = u64;

    /// The identifier that will be issued next.
    closed spec fn view(&self) -> u64 {
        self.next
    }
}

impl IdAllocator {
    /// An allocator whose first identifier will be `next`.
    pub fn starting_at(next: u64) -> (allocator: IdAllocator)
        ensures
            allocator@ == next,
    {
        IdAllocator { next }
    }

    /// The identifier that will be issued next.
    pub fn peek(&self) -> (next: u64)
        ensures
            next == self@,
    {
        self.next
    }

    /// Whether the identifiers have run out: the last number is never
    /// issued, as nothing could follow it.
    pub fn is_exhausted(&self) -> (exhausted: bool)
        ensures
            exhausted == (self@ == u64::MAX),
    {
        self.next == u64::MAX
    }

    /// Issues the next identifier and moves on by one.
    pub fn next_id(&mut self) -> (id: u64)
        requires
            old(self)@ < u64::MAX,
        ensures
            id == old(self)@,
            final(self)@ == id + 1,
    {
        let id: u64 = self.next;
        self.next = id + 1;
        id
    }
}

} // verus!
