//! Identities of GPU allocations.
//!
//! Every buffer, texture view and sampler the host creates gets a number of
//! its own. Numbers are handed out in increasing order and never reused, so a
//! binding that still names an old number is recognisably stale.

use vstd::prelude::*;

verus! {

/// Identity of one GPU allocation.
#[derive(Clone, Copy, PartialEq, Eq, Hash, Debug, Structural)]
pub struct ResourceId(pub u64);

/// A size in physical pixels.
#[derive(Clone, Copy, PartialEq, Eq, Debug, Structural)]
pub struct PhysicalSize {
    pub width: u32,
    pub height: u32,
}

/// Source of fresh [`ResourceId`]s.
#[derive(Debug)]
pub struct ResourceAllocator {
    next: u64,
}

impl ResourceAllocator {
    /// The number the next allocation will get.
    pub closed spec fn spec_next(&self) -> u64 {
        self.next
    }

    /// Whether `count` more identities can be handed out.
    pub open spec fn has_room(&self, count: int) -> bool {
        self.next() + count <= u64::MAX
    }

    /// Whether `id` has been handed out by this allocator already.
    pub open spec fn issued(&self, id: ResourceId) -> bool {
        id.0 < self.next()
    }

    pub fn new() -> (r: ResourceAllocator)
        ensures
            r.next() == 0,
    {
        ResourceAllocator { next: 0 }
    }

    #[verifier::when_used_as_spec(spec_next)]
    pub fn next(&self) -> (r: u64)
        ensures
            r == self.spec_next(),
    {
        self.next
    }

    /// Exec counterpart of [`Self::has_room`].
    pub fn can_allocate(&self, count: u64) -> (r: bool)
        ensures
            r == self.has_room(count as int),
    {
        count <= u64::MAX - self.next
    }

    /// Hands out the next identity.
    pub fn allocate(&mut self) -> (id: ResourceId)
        requires
            old(self).has_room(1),
        ensures
            id.0 == old(self).next(),
            final(self).next() == old(self).next() + 1,
    {
        let id = ResourceId(self.next);
        self.next = self.next + 1;
        id
    }
}

} // verus!
