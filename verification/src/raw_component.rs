use crate::context::Iter;
use crate::ids::{Id, UntypedId};
use crate::index_vec::{lookup, slot_inserted};
use crate::untyped_component::UntypedComponent;
use vstd::prelude::*;

verus! {

/// An arena-tagged slot array addressed through bare generational
/// identifiers of that arena. The tag is a compile-time marker; the
/// operations strip it and delegate to the untyped component.
pub struct RawComponent<Arena, T> {
    values: UntypedComponent<T>,
    pub marker: core::marker::PhantomData<Arena>,
}

impl<Arena, T> View for RawComponent<Arena, T> {
    type V = Seq<T>;

    closed spec fn view(&self) -> Seq<T> {
        self.values@
    }
}

impl<Arena, T> RawComponent<Arena, T> {
    /// An empty component.
    pub fn new() -> (r: Self)
        ensures
            r@ == Seq::<T>::empty(),
    {
        RawComponent { values: UntypedComponent::new(), marker: core::marker::PhantomData }
    }

    /// Inserts `value` at the identifier's slot: overwrites an existing slot
    /// or appends at the end. A gap between the end and the slot is a
    /// programmer error — identifiers are expected in allocation order — so
    /// such an insertion is ruled out rather than silently filled.
    pub fn insert(&mut self, id: Id<Arena>, value: T)
        requires
            id.untyped.index <= old(self)@.len(),
        ensures
            slot_inserted(old(self)@, id.untyped.index as int, value, final(self)@),
    {
        self.values.set_or_append(id.untyped, value);
    }

    /// Inserts `value` at the identifier's slot; `fill` supplies one value
    /// for each missing gap slot strictly before it.
    pub fn insert_with<F: Fn() -> T>(&mut self, id: Id<Arena>, value: T, fill: F)
        requires
            id.untyped.index > old(self)@.len() ==> fill.requires(()),
        ensures
            slot_inserted(old(self)@, id.untyped.index as int, value, final(self)@),
            forall|i: int|
                old(self)@.len() <= i < id.untyped.index ==> fill.ensures(
                    (),
                    #[trigger] final(self)@[i],
                ),
    {
        self.values.insert_with(id.untyped, value, fill);
    }

    /// The slots as one ordered view.
    pub(crate) fn as_slice(&self) -> (r: &[T])
        ensures
            r@ == self@,
    {
        self.values.iter()
    }

    /// Overwrites the slot at a bare position.
    pub(crate) fn set_at(&mut self, i: usize, value: T)
        requires
            i < old(self)@.len(),
        ensures
            final(self)@ == old(self)@.update(i as int, value),
    {
        self.values.set_or_append(UntypedId::first(i), value);
        proof {
            assert(final(self)@ =~= old(self)@.update(i as int, value));
        }
    }

    /// Fallible lookup by identifier; absence is a normal outcome.
    pub fn get(&self, id: Id<Arena>) -> (r: Option<&T>)
        ensures
            match r {
                Some(v) => lookup(self@, id.untyped.index as int) == Some(*v),
                None => lookup(self@, id.untyped.index as int) is None,
            },
    {
        self.values.get(id.untyped)
    }

    /// Fallible mutable lookup by identifier; absence is a normal outcome.
    pub fn get_mut(&mut self, id: Id<Arena>) -> (r: Option<&mut T>)
        ensures
            match r {
                Some(m) => {
                    &&& lookup(old(self)@, id.untyped.index as int) == Some(*m)
                    &&& final(self)@ == old(self)@.update(id.untyped.index as int, *final(m))
                },
                None => {
                    &&& lookup(old(self)@, id.untyped.index as int) is None
                    &&& final(self)@ == old(self)@
                },
            },
    {
        self.values.get_mut(id.untyped)
    }

    /// Exchanges the values of two existing slots.
    pub fn swap(&mut self, a: Id<Arena>, b: Id<Arena>)
        requires
            a.untyped.index < old(self)@.len(),
            b.untyped.index < old(self)@.len(),
        ensures
            final(self)@ == old(self)@.update(
                a.untyped.index as int,
                old(self)@[b.untyped.index as int],
            ).update(b.untyped.index as int, old(self)@[a.untyped.index as int]),
    {
        self.values.swap(a.untyped, b.untyped);
    }

    /// Overwrites every existing slot with a value from `f`, called once per
    /// slot, left to right. The length does not change.
    pub fn fill_with<F: Fn() -> T>(&mut self, f: F)
        requires
            old(self)@.len() > 0 ==> f.requires(()),
        ensures
            final(self)@.len() == old(self)@.len(),
            forall|i: int|
                0 <= i < old(self)@.len() ==> f.ensures((), #[trigger] final(self)@[i]),
    {
        self.values.fill_with(f);
    }

    /// A contextual iterator over the slots, labelled with this component's
    /// arena.
    pub fn iter(&self) -> (r: Iter<'_, Arena, T>)
        ensures
            r.items() == self@,
            r.position() == 0,
    {
        Iter::new(self.values.iter())
    }

    /// A mutable ordered view of every existing slot; the length cannot
    /// change through it.
    pub fn iter_mut(&mut self) -> (r: &mut [T])
        ensures
            r@ == old(self)@,
            final(self)@ == final(r)@,
    {
        self.values.iter_mut()
    }

    /// The number of slots, occupied gap fills included.
    pub fn len(&self) -> (r: usize)
        ensures
            r == self@.len(),
    {
        self.values.len()
    }

    /// Whether no slot exists yet.
    pub fn is_empty(&self) -> (r: bool)
        ensures
            r == (self@.len() == 0),
    {
        self.len() == 0
    }

    /// Direct indexing by identifier; the slot must exist.
    pub fn index(&self, id: Id<Arena>) -> (r: &T)
        requires
            id.untyped.index < self@.len(),
        ensures
            *r == self@[id.untyped.index as int],
    {
        self.values.index(id.untyped)
    }

    /// Direct mutable indexing by identifier; the slot must exist.
    pub fn index_mut(&mut self, id: Id<Arena>) -> (r: &mut T)
        requires
            id.untyped.index < old(self)@.len(),
        ensures
            *r == old(self)@[id.untyped.index as int],
            final(self)@ == old(self)@.update(id.untyped.index as int, *final(r)),
    {
        self.values.index_mut(id.untyped)
    }

    /// Overwrites the slots in arena order from a same-arena contextual
    /// iterator of values, pairing slot by slot and stopping at the shorter
    /// side; slots past the iterator's end keep their values.
    pub fn assign_ref(&mut self, rhs: Iter<'_, Arena, T>)
        where T: Copy
        requires
            rhs.position() == 0,
        ensures
            final(self)@.len() == old(self)@.len(),
            forall|i: int|
                0 <= i < vstd::math::min(old(self)@.len() as int, rhs.items().len() as int)
                    ==> final(self)@[i] == rhs.items()[i],
            forall|i: int|
                vstd::math::min(old(self)@.len() as int, rhs.items().len() as int) <= i < old(
                    self,
                )@.len() ==> final(self)@[i] == old(self)@[i],
    {
        let mut it = rhs;
        let n = self.len();
        let mut k: usize = 0;
        loop
            invariant
                k <= n,
                n == self@.len(),
                it.items() == rhs.items(),
                it.position() == k as int,
                k as int <= rhs.items().len(),
                forall|i: int| 0 <= i < k ==> self@[i] == rhs.items()[i],
                forall|i: int| k <= i < n ==> self@[i] == old(self)@[i],
            ensures
                k as int == vstd::math::min(n as int, rhs.items().len() as int),
            decreases n - k,
        {
            if k >= n {
                break ;
            }
            match it.next() {
                Some(v) => {
                    let value = *v;
                    self.set_at(k, value);
                    k += 1;
                },
                None => {
                    break ;
                },
            }
        }
    }

    /// Builds a component that holds exactly the given values, slot `i`
    /// holding the `i`-th value.
    pub fn from_vec(values: Vec<T>) -> (r: Self)
        ensures
            r@ == values@,
    {
        RawComponent {
            values: UntypedComponent::from_vec(values),
            marker: core::marker::PhantomData,
        }
    }

    /// Releases the slots as a plain vector, in order.
    pub fn into_vec(self) -> (r: Vec<T>)
        ensures
            r@ == self@,
    {
        self.values.into_vec()
    }
}

impl<Arena, T> RawComponent<Arena, Option<T>> {
    /// Takes the optional payload out of the identifier's slot, leaving
    /// "empty" behind. A missing slot and an already-empty slot both yield
    /// nothing; the two are indistinguishable.
    pub fn remove(&mut self, id: Id<Arena>) -> (r: Option<T>)
        ensures
            match lookup(old(self)@, id.untyped.index as int) {
                Some(slot) => r == slot && final(self)@ == old(self)@.update(
                    id.untyped.index as int,
                    None,
                ),
                None => r is None && final(self)@ == old(self)@,
            },
    {
        match self.values.get_mut(id.untyped) {
            Some(m) => {
                let mut taken: Option<T> = None;
                core::mem::swap(m, &mut taken);
                taken
            },
            None => None,
        }
    }
}

/// Taking a slot's payload twice in a row yields the payload at most once:
/// whatever the slot held, the second removal finds it already empty.
pub proof fn lemma_remove_twice<T>(
    pre: Seq<Option<T>>,
    mid: Seq<Option<T>>,
    post: Seq<Option<T>>,
    index: int,
    first_taken: Option<T>,
    second_taken: Option<T>,
)
    requires
        0 <= index < pre.len(),
        first_taken == pre[index],
        mid == pre.update(index, Option::<T>::None),
        second_taken == mid[index],
        post == mid.update(index, Option::<T>::None),
    ensures
        second_taken is None,
        post == mid,
{
    assert(post =~= mid);
}

/// A removal on a slot that was never inserted yields nothing, and inserting
/// an occupied payload and then removing it yields exactly that payload.
pub proof fn lemma_insert_then_remove<T>(
    pre: Seq<Option<T>>,
    mid: Seq<Option<T>>,
    index: int,
    payload: T,
    taken: Option<T>,
)
    requires
        0 <= index,
        slot_inserted(pre, index, Some(payload), mid),
        taken == lookup(mid, index).unwrap(),
    ensures
        taken == Some(payload),
{
}

} // verus!
