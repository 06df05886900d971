use crate::context::Iter;
use crate::ids::{IdRange, ValidId};
use crate::index_vec::{lookup, slot_inserted};
use crate::raw_component::RawComponent;
use vstd::prelude::*;

verus! {

/// The arena-tagged component: a growable array of values keyed by the raw
/// indices of same-arena identifiers. Only identifiers (or identifier-bearing
/// capabilities) carrying the matching arena parameter can touch it, so
/// parallel same-arena components stay index-compatible by construction.
pub struct Component<Arena, T> {
    values: RawComponent<Arena, T>,
}

impl<Arena, T> View for Component<Arena, T> {
    type V = Seq<T>;

    closed spec fn view(&self) -> Seq<T> {
        self.values@
    }
}

impl<Arena, T> Component<Arena, T> {
    /// An empty component.
    pub fn new() -> (r: Self)
        ensures
            r@ == Seq::<T>::empty(),
    {
        Component { values: RawComponent::new() }
    }

    /// Builds a component that holds exactly the given values, slot `i`
    /// holding the `i`-th value, index-aligned to allocation order.
    pub fn from(values: Vec<T>) -> (r: Self)
        ensures
            r@ == values@,
    {
        Component { values: RawComponent::from_vec(values) }
    }

    /// Inserts `value` at the capability's slot: overwrites an existing slot
    /// or appends at the end. A gap between the end and the slot is a
    /// programmer error — identifiers arrive in allocation order — so such
    /// an insertion is ruled out rather than silently filled.
    pub fn insert<I: ValidId<Arena = Arena>>(&mut self, id: I, value: T)
        requires
            id.index_spec() <= old(self)@.len(),
        ensures
            slot_inserted(old(self)@, id.index_spec(), value, final(self)@),
    {
        self.values.insert(id.id(), value);
    }

    /// Inserts `value` at the capability's slot; `fill` supplies one value
    /// for each missing gap slot strictly before it.
    pub fn insert_with<I: ValidId<Arena = Arena>, F: Fn() -> T>(&mut self, id: I, value: T, f: F)
        requires
            id.index_spec() > old(self)@.len() ==> f.requires(()),
        ensures
            slot_inserted(old(self)@, id.index_spec(), value, final(self)@),
            forall|i: int|
                old(self)@.len() <= i < id.index_spec() ==> f.ensures(
                    (),
                    #[trigger] final(self)@[i],
                ),
    {
        self.values.insert_with(id.id(), value, f);
    }

    /// Fallible lookup by capability; absence is a normal outcome.
    pub fn get<I: ValidId<Arena = Arena>>(&self, id: I) -> (r: Option<&T>)
        ensures
            match r {
                Some(v) => lookup(self@, id.index_spec()) == Some(*v),
                None => lookup(self@, id.index_spec()) is None,
            },
    {
        self.values.get(id.id())
    }

    /// Fallible mutable lookup by capability; absence is a normal outcome.
    pub fn get_mut<I: ValidId<Arena = Arena>>(&mut self, id: I) -> (r: Option<&mut T>)
        ensures
            match r {
                Some(m) => {
                    &&& lookup(old(self)@, id.index_spec()) == Some(*m)
                    &&& final(self)@ == old(self)@.update(id.index_spec(), *final(m))
                },
                None => {
                    &&& lookup(old(self)@, id.index_spec()) is None
                    &&& final(self)@ == old(self)@
                },
            },
    {
        self.values.get_mut(id.id())
    }

    /// Exchanges the values of two existing slots.
    pub fn swap<IdA, IdB>(&mut self, a: IdA, b: IdB)
        where IdA: ValidId<Arena = Arena>, IdB: ValidId<Arena = Arena>
        requires
            0 <= a.index_spec() < old(self)@.len(),
            0 <= b.index_spec() < old(self)@.len(),
        ensures
            final(self)@ == old(self)@.update(a.index_spec(), old(self)@[b.index_spec()]).update(
                b.index_spec(),
                old(self)@[a.index_spec()],
            ),
    {
        self.values.swap(a.id(), b.id());
    }

    /// Overwrites every existing slot with a value from `f`, called once per
    /// slot, left to right. The length does not change.
    pub fn fill_with<F: Fn() -> T>(&mut self, f: F)
        requires
            old(self)@.len() > 0 ==> f.requires(()),
        ensures
            final(self)@.len() == old(self)@.len(),
            forall|i: int|
                0 <= i < old(self)@.len() ==> f.ensures((), #[trigger] final(self)@[i]),
    {
        self.values.fill_with(f);
    }

    /// A contextual iterator over the slots, labelled with this component's
    /// arena.
    pub fn iter(&self) -> (r: Iter<'_, Arena, T>)
        ensures
            r.items() == self@,
            r.position() == 0,
    {
        self.values.iter()
    }

    /// A mutable ordered view of every existing slot; the length cannot
    /// change through it.
    pub fn iter_mut(&mut self) -> (r: &mut [T])
        ensures
            r@ == old(self)@,
            final(self)@ == final(r)@,
    {
        self.values.iter_mut()
    }

    /// The number of slots, occupied gap fills included.
    pub fn len(&self) -> (r: usize)
        ensures
            r == self@.len(),
    {
        self.values.len()
    }

    /// Whether no slot exists yet.
    pub fn is_empty(&self) -> (r: bool)
        ensures
            r == (self@.len() == 0),
    {
        self.len() == 0
    }

    /// Direct indexing by capability; the slot must exist, a stale or foreign
    /// index being a programmer error.
    pub fn index<I: ValidId<Arena = Arena>>(&self, id: I) -> (r: &T)
        requires
            0 <= id.index_spec() < self@.len(),
        ensures
            *r == self@[id.index_spec()],
    {
        self.values.index(id.id())
    }

    /// Direct mutable indexing by capability; the slot must exist.
    pub fn index_mut<I: ValidId<Arena = Arena>>(&mut self, id: I) -> (r: &mut T)
        requires
            0 <= id.index_spec() < old(self)@.len(),
        ensures
            *r == old(self)@[id.index_spec()],
            final(self)@ == old(self)@.update(id.index_spec(), *final(r)),
    {
        self.values.index_mut(id.id())
    }

    /// Direct indexing by a contiguous identifier range: the run of slots
    /// `start..end` as one view. The whole run must exist.
    pub fn index_range(&self, range: IdRange<Arena>) -> (r: &[T])
        requires
            range.start <= range.end,
            range.end <= self@.len(),
        ensures
            r@ == self@.subrange(range.start as int, range.end as int),
    {
        let s = self.values.as_slice();
        &s[range.start..range.end]
    }

    /// Overwrites the slots in arena order from a same-arena contextual
    /// iterator of values, pairing slot by slot and stopping at the shorter
    /// side; slots past the iterator's end keep their values.
    pub fn assign_ref(&mut self, rhs: Iter<'_, Arena, T>)
        where T: Copy
        requires
            rhs.position() == 0,
        ensures
            final(self)@.len() == old(self)@.len(),
            forall|i: int|
                0 <= i < vstd::math::min(old(self)@.len() as int, rhs.items().len() as int)
                    ==> final(self)@[i] == rhs.items()[i],
            forall|i: int|
                vstd::math::min(old(self)@.len() as int, rhs.items().len() as int) <= i < old(
                    self,
                )@.len() ==> final(self)@[i] == old(self)@[i],
    {
        self.values.assign_ref(rhs);
    }

    /// Reads the slot at a bare position.
    pub(crate) fn at(&self, i: usize) -> (r: &T)
        requires
            i < self@.len(),
        ensures
            *r == self@[i as int],
    {
        let s = self.values.as_slice();
        &s[i]
    }

    /// Overwrites the slot at a bare position.
    pub(crate) fn set_at(&mut self, i: usize, value: T)
        requires
            i < old(self)@.len(),
        ensures
            final(self)@ == old(self)@.update(i as int, value),
    {
        self.values.set_at(i, value);
    }
}

impl<Arena, T> Component<Arena, Option<T>> {
    /// Takes the optional payload out of the capability's slot, leaving
    /// "empty" behind. A missing slot and an already-empty slot both yield
    /// nothing; the two are indistinguishable.
    pub fn remove<I: ValidId<Arena = Arena>>(&mut self, id: I) -> (r: Option<T>)
        ensures
            match lookup(old(self)@, id.index_spec()) {
                Some(slot) => r == slot && final(self)@ == old(self)@.update(
                    id.index_spec(),
                    None,
                ),
                None => r is None && final(self)@ == old(self)@,
            },
    {
        self.values.remove(id.id())
    }
}

} // verus!
