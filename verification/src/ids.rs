use vstd::prelude::*;

verus! {

/// A raw, arena-erased identifier: the bare slot index together with the
/// allocator's reuse-guarding generation counter. The store itself only ever
/// reads the index; the generation is carried for the allocator's benefit.
#[derive(Clone, Copy, PartialEq, Eq, Structural)]
pub struct UntypedId {
    pub index: usize,
    pub generation: u32,
}

impl UntypedId {
    /// The first-generation identifier for a slot.
    pub fn first(index: usize) -> (r: UntypedId)
        ensures
            r.index == index,
            r.generation == 0,
    {
        UntypedId { index, generation: 0 }
    }

    /// The bare integer position this identifier addresses.
    pub fn index(self) -> (r: usize)
        ensures
            r == self.index,
    {
        self.index
    }
}

/// A generational identifier scoped to one arena. The arena is a compile-time
/// marker: two identifiers with different arena parameters cannot be mixed.
pub struct Id<Arena> {
    pub untyped: UntypedId,
    pub marker: core::marker::PhantomData<Arena>,
}

impl<Arena> Clone for Id<Arena> {
    fn clone(&self) -> (r: Self)
        ensures
            r == *self,
    {
        Id { untyped: self.untyped, marker: core::marker::PhantomData }
    }
}

impl<Arena> Copy for Id<Arena> {

}

impl<Arena> Id<Arena> {
    /// The first-generation identifier for a slot of this arena.
    pub fn first(index: usize) -> (r: Id<Arena>)
        ensures
            r.untyped.index == index,
            r.untyped.generation == 0,
    {
        Id { untyped: UntypedId::first(index), marker: core::marker::PhantomData }
    }

    /// Wraps an arena-erased identifier in this arena.
    pub fn new(untyped: UntypedId) -> (r: Id<Arena>)
        ensures
            r.untyped == untyped,
    {
        Id { untyped, marker: core::marker::PhantomData }
    }

    /// The raw slot index this identifier addresses.
    pub fn index(self) -> (r: usize)
        ensures
            r == self.untyped.index,
    {
        self.untyped.index
    }
}

/// A capability asserting that the wrapped identifier is currently valid for
/// the allocator that issued it. The store trusts the holder and allows
/// direct indexing through it.
pub struct Valid<I> {
    pub value: I,
}

impl<I: Copy> Clone for Valid<I> {
    fn clone(&self) -> (r: Self)
        ensures
            r == *self,
    {
        Valid { value: self.value }
    }
}

impl<I: Copy> Copy for Valid<I> {

}

impl<I> Valid<I> {
    /// Vouches for an identifier. The caller, typically the allocator,
    /// is responsible for the claim.
    pub fn new(value: I) -> (r: Valid<I>)
        ensures
            r.value == value,
    {
        Valid { value }
    }
}

/// Marker for arenas whose slot indices are never invalidated; their bare
/// identifiers may index components directly, without a validity capability.
pub trait Fixed {

}

/// An identifier-bearing capability that is allowed to address a component
/// of the matching arena.
pub trait ValidId: Sized {
    type Arena;

    /// The raw slot index the capability addresses.
    spec fn index_spec(self) -> int;

    /// The identifier carried by the capability.
    fn id(self) -> (r: Id<Self::Arena>)
        ensures
            r.untyped.index as int == self.index_spec(),
    ;
}

impl<Arena> ValidId for Valid<Id<Arena>> {
    type Arena = Arena;

    open spec fn index_spec(self) -> int {
        self.value.untyped.index as int
    }

    fn id(self) -> (r: Id<Arena>)
        ensures
            r.untyped.index as int == self.index_spec(),
    {
        self.value
    }
}

impl<Arena: Fixed> ValidId for Id<Arena> {
    type Arena = Arena;

    open spec fn index_spec(self) -> int {
        self.untyped.index as int
    }

    fn id(self) -> (r: Id<Arena>)
        ensures
            r.untyped.index as int == self.index_spec(),
    {
        self
    }
}

impl<'a, Arena: Fixed> ValidId for &'a Id<Arena> {
    type Arena = Arena;

    open spec fn index_spec(self) -> int {
        self.untyped.index as int
    }

    fn id(self) -> (r: Id<Arena>)
        ensures
            r.untyped.index as int == self.index_spec(),
    {
        *self
    }
}

impl<'a, Arena> ValidId for Valid<&'a Id<Arena>> {
    type Arena = Arena;

    open spec fn index_spec(self) -> int {
        self.value.untyped.index as int
    }

    fn id(self) -> (r: Id<Arena>)
        ensures
            r.untyped.index as int == self.index_spec(),
    {
        *self.value
    }
}

/// A contiguous run of slot indices within one arena.
pub struct IdRange<Arena> {
    pub start: usize,
    pub end: usize,
    pub marker: core::marker::PhantomData<Arena>,
}

impl<Arena> Clone for IdRange<Arena> {
    fn clone(&self) -> (r: Self)
        ensures
            r == *self,
    {
        IdRange { start: self.start, end: self.end, marker: core::marker::PhantomData }
    }
}

impl<Arena> Copy for IdRange<Arena> {

}

impl<Arena> IdRange<Arena> {
    /// The run of slots `start..end`.
    pub fn new(start: usize, end: usize) -> (r: IdRange<Arena>)
        requires
            start <= end,
        ensures
            r.start == start,
            r.end == end,
    {
        IdRange { start, end, marker: core::marker::PhantomData }
    }
}

} // verus!
