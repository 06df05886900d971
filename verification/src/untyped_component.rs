use crate::ids::UntypedId;
use crate::index_vec::{lookup, slot_inserted, IndexVec};
use vstd::prelude::*;

verus! {

/// A slot array addressed through arena-erased identifiers: each operation
/// extracts the identifier's raw index and delegates to the underlying
/// [`IndexVec`].
pub struct UntypedComponent<T> {
    values: IndexVec<T>,
}

impl<T> View for UntypedComponent<T> {
    type V = Seq<T>;

    closed spec fn view(&self) -> Seq<T> {
        self.values@
    }
}

impl<T> UntypedComponent<T> {
    /// An empty component.
    pub fn new() -> (r: Self)
        ensures
            r@ == Seq::<T>::empty(),
    {
        UntypedComponent { values: IndexVec::new() }
    }

    /// Inserts `value` at the identifier's slot, filling any gap slots with
    /// the element type's default value.
    pub fn insert(&mut self, id: UntypedId, value: T)
        where T: core::default::Default
        ensures
            slot_inserted(old(self)@, id.index as int, value, final(self)@),
            forall|i: int|
                old(self)@.len() <= i < id.index ==> call_ensures(
                    <T as core::default::Default>::default,
                    (),
                    #[trigger] final(self)@[i],
                ),
    {
        self.values.insert(id.index(), value);
    }

    /// Inserts `value` at the identifier's slot; `fill` supplies one value
    /// for each missing gap slot strictly before it.
    pub fn insert_with<F: Fn() -> T>(&mut self, id: UntypedId, value: T, fill: F)
        requires
            id.index > old(self)@.len() ==> fill.requires(()),
        ensures
            slot_inserted(old(self)@, id.index as int, value, final(self)@),
            forall|i: int|
                old(self)@.len() <= i < id.index ==> fill.ensures((), #[trigger] final(self)@[i]),
    {
        self.values.insert_with(id.index(), value, fill);
    }

    /// Overwrites the identifier's slot, or appends when it is the current
    /// length; a gap is not allowed here.
    pub(crate) fn set_or_append(&mut self, id: UntypedId, value: T)
        requires
            id.index <= old(self)@.len(),
        ensures
            slot_inserted(old(self)@, id.index as int, value, final(self)@),
    {
        self.values.set_or_append(id.index(), value);
    }

    /// Fallible lookup by identifier; absence is a normal outcome.
    pub fn get(&self, id: UntypedId) -> (r: Option<&T>)
        ensures
            match r {
                Some(v) => lookup(self@, id.index as int) == Some(*v),
                None => lookup(self@, id.index as int) is None,
            },
    {
        self.values.get(id.index())
    }

    /// Fallible mutable lookup by identifier; absence is a normal outcome.
    pub fn get_mut(&mut self, id: UntypedId) -> (r: Option<&mut T>)
        ensures
            match r {
                Some(m) => {
                    &&& lookup(old(self)@, id.index as int) == Some(*m)
                    &&& final(self)@ == old(self)@.update(id.index as int, *final(m))
                },
                None => {
                    &&& lookup(old(self)@, id.index as int) is None
                    &&& final(self)@ == old(self)@
                },
            },
    {
        self.values.get_mut(id.index())
    }

    /// Exchanges the values of two existing slots.
    pub fn swap(&mut self, a: UntypedId, b: UntypedId)
        requires
            a.index < old(self)@.len(),
            b.index < old(self)@.len(),
        ensures
            final(self)@ == old(self)@.update(a.index as int, old(self)@[b.index as int]).update(
                b.index as int,
                old(self)@[a.index as int],
            ),
    {
        self.values.swap(a.index(), b.index());
    }

    /// Overwrites every existing slot with a value from `f`, called once per
    /// slot, left to right. The length does not change.
    pub fn fill_with<F: Fn() -> T>(&mut self, f: F)
        requires
            old(self)@.len() > 0 ==> f.requires(()),
        ensures
            final(self)@.len() == old(self)@.len(),
            forall|i: int|
                0 <= i < old(self)@.len() ==> f.ensures((), #[trigger] final(self)@[i]),
    {
        self.values.fill_with(f);
    }

    /// An ordered view of every existing slot.
    pub fn iter(&self) -> (r: &[T])
        ensures
            r@ == self@,
    {
        self.values.iter()
    }

    /// A mutable ordered view of every existing slot; the length cannot
    /// change through it.
    pub fn iter_mut(&mut self) -> (r: &mut [T])
        ensures
            r@ == old(self)@,
            final(self)@ == final(r)@,
    {
        self.values.iter_mut()
    }

    /// The number of slots, occupied gap fills included.
    pub fn len(&self) -> (r: usize)
        ensures
            r == self@.len(),
    {
        self.values.len()
    }

    /// Whether no slot exists yet.
    pub fn is_empty(&self) -> (r: bool)
        ensures
            r == (self@.len() == 0),
    {
        self.len() == 0
    }

    /// Direct indexing by identifier; the slot must exist.
    pub fn index(&self, id: UntypedId) -> (r: &T)
        requires
            id.index < self@.len(),
        ensures
            *r == self@[id.index as int],
    {
        match self.values.get(id.index()) {
            Some(v) => v,
            None => unreached(),
        }
    }

    /// Direct mutable indexing by identifier; the slot must exist.
    pub fn index_mut(&mut self, id: UntypedId) -> (r: &mut T)
        requires
            id.index < old(self)@.len(),
        ensures
            *r == old(self)@[id.index as int],
            final(self)@ == old(self)@.update(id.index as int, *final(r)),
    {
        match self.values.get_mut(id.index()) {
            Some(m) => m,
            None => unreached(),
        }
    }

    /// Builds a component that holds exactly the given values, slot `i`
    /// holding the `i`-th value.
    pub fn from_vec(values: Vec<T>) -> (r: Self)
        ensures
            r@ == values@,
    {
        UntypedComponent { values: IndexVec::from_vec(values) }
    }

    /// Releases the slots as a plain vector, in order.
    pub fn into_vec(self) -> (r: Vec<T>)
        ensures
            r@ == self@,
    {
        self.values.into_vec()
    }
}

} // verus!
