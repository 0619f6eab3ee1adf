use vstd::prelude::*;

verus! {

/// An opaque identifier, ordered and compared by its underlying integer.
#[derive(Debug, Clone, Copy, PartialEq, Eq, PartialOrd, Ord, Hash, Structural)]
pub struct Id(pub usize);

impl Id {
    pub fn inner(&self) -> (r: usize)
        ensures
            r == self.0,
    {
        self.0
    }
}

impl From<usize> for Id {
    fn from(id: usize) -> (r: Id)
        ensures
            r == Id(id),
    {
        Id(id)
    }
}

impl vstd::std_specs::convert::FromSpecImpl<usize> for Id {
    open spec fn obeys_from_spec() -> bool {
        true
    }

    open spec fn from_spec(v: usize) -> Id {
        Id(v)
    }
}

/// A monotonic source of identifiers: each call hands out the current value
/// of the counter, then advances it by one.
#[derive(Debug)]
pub struct SequentialIdAllocator {
    now: usize,
}

impl SequentialIdAllocator {
    /// The value the next call of `allocate` hands out.
    pub closed spec fn next(&self) -> nat {
        self.now as nat
    }

    pub fn new() -> (r: Self)
        ensures
            r.next() == 0,
    {
        SequentialIdAllocator { now: 0 }
    }

    /// Whether another identifier can still be handed out.
    pub fn can_allocate(&self) -> (r: bool)
        ensures
            r == (self.next() < usize::MAX),
    {
        self.now < usize::MAX
    }

    pub fn allocate(&mut self) -> (r: Id)
        requires
            old(self).next() < usize::MAX,
        ensures
            r.0 == old(self).next(),
            final(self).next() == old(self).next() + 1,
    {
        let id = Id(self.now);
        self.now = self.now + 1;
        id
    }
}

impl Default for SequentialIdAllocator {
    fn default() -> (r: Self)
        ensures
            r.next() == 0,
    {
        Self::new()
    }
}

} // verus!
