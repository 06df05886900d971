use vstd::prelude::*;

verus! {

/// The length of a slot array after inserting at `index`: unchanged when the
/// slot exists, grown to `index + 1` otherwise.
pub open spec fn grown_len(len: nat, index: nat) -> nat {
    if index < len {
        len
    } else {
        index + 1
    }
}

/// What a point insertion leaves behind: the target slot holds `value`, every
/// other pre-existing slot is untouched, and the length grows exactly as far
/// as the target demands.
pub open spec fn slot_inserted<T>(pre: Seq<T>, index: int, value: T, post: Seq<T>) -> bool {
    &&& post.len() == grown_len(pre.len(), index as nat)
    &&& post[index] == value
    &&& forall|i: int| 0 <= i < pre.len() && i != index ==> post[i] == pre[i]
}

/// Fallible lookup on a sequence of slots: a value for indices below the
/// length, nothing otherwise.
pub open spec fn lookup<T>(s: Seq<T>, index: int) -> Option<T> {
    if 0 <= index < s.len() {
        Some(s[index])
    } else {
        None
    }
}

/// A growable array of slots addressed by plain integer index. Point
/// insertion anywhere is allowed: inserting past the end fills the
/// intervening gap slots and appends. The array never shrinks.
pub struct IndexVec<T> {
    values: Vec<T>,
}

impl<T> View for IndexVec<T> {
    type V = Seq<T>;

    closed spec fn view(&self) -> Seq<T> {
        self.values@
    }
}

impl<T> IndexVec<T> {
    /// An empty slot array.
    pub fn new() -> (r: Self)
        ensures
            r@ == Seq::<T>::empty(),
    {
        IndexVec { values: Vec::new() }
    }

    /// Inserts `value` at `index`. An existing slot is overwritten in place;
    /// past the end, `fill` supplies one value for each missing gap slot
    /// strictly before `index`, and `value` is appended last. `fill` is never
    /// invoked for the target slot itself.
    pub fn insert_with<F: Fn() -> T>(&mut self, index: usize, value: T, fill: F)
        requires
            index > old(self)@.len() ==> fill.requires(()),
        ensures
            slot_inserted(old(self)@, index as int, value, final(self)@),
            forall|i: int|
                old(self)@.len() <= i < index ==> fill.ensures((), #[trigger] final(self)@[i]),
    {
        if index < self.values.len() {
            let slot = &mut self.values[index];
            *slot = value;
        } else {
            while self.values.len() < index
                invariant
                    old(self)@.len() <= self.values@.len() <= index,
                    index > old(self)@.len() ==> fill.requires(()),
                    forall|i: int|
                        0 <= i < old(self)@.len() ==> self.values@[i] == old(self)@[i],
                    forall|i: int|
                        old(self)@.len() <= i < self.values@.len() ==> fill.ensures(
                            (),
                            #[trigger] self.values@[i],
                        ),
                decreases index - self.values@.len(),
            {
                let gap = fill();
                self.values.push(gap);
            }
            self.values.push(value);
        }
    }

    /// Inserts `value` at `index`, filling any gap slots with the element
    /// type's default value.
    pub fn insert(&mut self, index: usize, value: T)
        where T: core::default::Default
        ensures
            slot_inserted(old(self)@, index as int, value, final(self)@),
            forall|i: int|
                old(self)@.len() <= i < index ==> call_ensures(
                    <T as core::default::Default>::default,
                    (),
                    #[trigger] final(self)@[i],
                ),
    {
        if index < self.values.len() {
            let slot = &mut self.values[index];
            *slot = value;
        } else {
            while self.values.len() < index
                invariant
                    old(self)@.len() <= self.values@.len() <= index,
                    forall|i: int|
                        0 <= i < old(self)@.len() ==> self.values@[i] == old(self)@[i],
                    forall|i: int|
                        old(self)@.len() <= i < self.values@.len() ==> call_ensures(
                            <T as core::default::Default>::default,
                            (),
                            #[trigger] self.values@[i],
                        ),
                decreases index - self.values@.len(),
            {
                let gap = T::default();
                self.values.push(gap);
            }
            self.values.push(value);
        }
    }

    /// Overwrites the slot at `index`, or appends when `index` is the
    /// current length; a gap is not allowed here.
    pub(crate) fn set_or_append(&mut self, index: usize, value: T)
        requires
            index <= old(self)@.len(),
        ensures
            slot_inserted(old(self)@, index as int, value, final(self)@),
    {
        if index < self.values.len() {
            let slot = &mut self.values[index];
            *slot = value;
        } else {
            self.values.push(value);
        }
    }

    /// Fallible lookup: a reference for indices below the length, nothing
    /// otherwise. Never aborts.
    pub fn get(&self, index: usize) -> (r: Option<&T>)
        ensures
            match r {
                Some(v) => lookup(self@, index as int) == Some(*v),
                None => lookup(self@, index as int) is None,
            },
    {
        if index < self.values.len() {
            Some(&self.values[index])
        } else {
            None
        }
    }

    /// Fallible mutable lookup: a mutable reference for indices below the
    /// length, nothing otherwise. Never aborts; the length cannot change
    /// through the returned reference.
    pub fn get_mut(&mut self, index: usize) -> (r: Option<&mut T>)
        ensures
            match r {
                Some(m) => {
                    &&& lookup(old(self)@, index as int) == Some(*m)
                    &&& final(self)@ == old(self)@.update(index as int, *final(m))
                },
                None => {
                    &&& lookup(old(self)@, index as int) is None
                    &&& final(self)@ == old(self)@
                },
            },
    {
        if index < self.values.len() {
            Some(&mut self.values[index])
        } else {
            None
        }
    }

    /// The number of slots, occupied gap fills included.
    pub fn len(&self) -> (r: usize)
        ensures
            r == self@.len(),
    {
        self.values.len()
    }

    /// Whether no slot exists yet.
    pub fn is_empty(&self) -> (r: bool)
        ensures
            r == (self@.len() == 0),
    {
        self.values.is_empty()
    }

    /// Exchanges the values of two existing slots.
    pub fn swap(&mut self, a: usize, b: usize)
        requires
            a < old(self)@.len(),
            b < old(self)@.len(),
        ensures
            final(self)@ == old(self)@.update(a as int, old(self)@[b as int]).update(
                b as int,
                old(self)@[a as int],
            ),
    {
        if a != b {
            let lo = if a < b {
                a
            } else {
                b
            };
            let hi = if a < b {
                b
            } else {
                a
            };
            let s = self.values.as_mut_slice();
            let (left, right) = s.split_at_mut(hi);
            let (_, at_lo) = left.split_at_mut(lo);
            let x = at_lo.first_mut().unwrap();
            let y = right.first_mut().unwrap();
            core::mem::swap(x, y);
            proof {
                assert(final(self)@ =~= old(self)@.update(a as int, old(self)@[b as int]).update(
                    b as int,
                    old(self)@[a as int],
                ));
            }
        } else {
            proof {
                assert(final(self)@ =~= old(self)@.update(a as int, old(self)@[b as int]).update(
                    b as int,
                    old(self)@[a as int],
                ));
            }
        }
    }

    /// Overwrites every existing slot with a value from `f`, called once per
    /// slot, left to right. The length does not change.
    pub fn fill_with<F: Fn() -> T>(&mut self, f: F)
        requires
            old(self)@.len() > 0 ==> f.requires(()),
        ensures
            final(self)@.len() == old(self)@.len(),
            forall|i: int|
                0 <= i < old(self)@.len() ==> f.ensures((), #[trigger] final(self)@[i]),
    {
        let n = self.values.len();
        let mut k: usize = 0;
        while k < n
            invariant
                k <= n,
                n == self.values@.len(),
                n > 0 ==> f.requires(()),
                forall|i: int| 0 <= i < k ==> f.ensures((), #[trigger] self.values@[i]),
            decreases n - k,
        {
            let fresh = f();
            let slot = &mut self.values[k];
            *slot = fresh;
            k += 1;
        }
    }

    /// An ordered view of every existing slot.
    pub fn iter(&self) -> (r: &[T])
        ensures
            r@ == self@,
    {
        self.values.as_slice()
    }

    /// A mutable ordered view of every existing slot; the length cannot
    /// change through it.
    pub fn iter_mut(&mut self) -> (r: &mut [T])
        ensures
            r@ == old(self)@,
            final(self)@ == final(r)@,
    {
        self.values.as_mut_slice()
    }

    /// Direct indexing; the slot must exist, an out-of-range index being a
    /// programmer error.
    pub fn index(&self, index: usize) -> (r: &T)
        requires
            index < self@.len(),
        ensures
            *r == self@[index as int],
    {
        &self.values[index]
    }

    /// Direct mutable indexing; the slot must exist.
    pub fn index_mut(&mut self, index: usize) -> (r: &mut T)
        requires
            index < old(self)@.len(),
        ensures
            *r == old(self)@[index as int],
            final(self)@ == old(self)@.update(index as int, *final(r)),
    {
        &mut self.values[index]
    }

    /// Builds a slot array that holds exactly the given values, in order.
    pub fn from_vec(values: Vec<T>) -> (r: Self)
        ensures
            r@ == values@,
    {
        IndexVec { values }
    }

    /// Releases the slots as a plain vector, in order.
    pub fn into_vec(self) -> (r: Vec<T>)
        ensures
            r@ == self@,
    {
        self.values
    }
}

/// The store never shrinks: a point insertion keeps or grows the length, and
/// a slot that exists before it still exists after it.
pub proof fn lemma_length_monotonic<T>(pre: Seq<T>, index: int, value: T, post: Seq<T>)
    requires
        0 <= index,
        slot_inserted(pre, index, value, post),
    ensures
        post.len() >= pre.len(),
        forall|i: int| 0 <= i < pre.len() ==> lookup(post, i) is Some,
{
}

/// Inserting a value and then looking the same slot up yields exactly that
/// value, whatever the store held before.
pub proof fn lemma_insert_then_get<T>(pre: Seq<T>, index: int, value: T, post: Seq<T>)
    requires
        0 <= index,
        slot_inserted(pre, index, value, post),
    ensures
        lookup(post, index) == Some(value),
{
}

/// Inserting at index `k` into an empty store grows it to length `k + 1`:
/// the slots before `k` hold gap-fill values and slot `k` holds the inserted
/// value. Here every gap slot is known to hold `fill_value`.
pub proof fn lemma_growth_by_gap<T>(post: Seq<T>, k: int, value: T, fill_value: T)
    requires
        0 <= k,
        slot_inserted(Seq::<T>::empty(), k, value, post),
        forall|i: int| 0 <= i < k ==> post[i] == fill_value,
    ensures
        post.len() == k + 1,
        post[k] == value,
        forall|i: int| 0 <= i < k ==> post[i] == fill_value,
{
}

/// Inserting at an already-occupied index changes only that slot's value:
/// the length and every other slot are untouched.
pub proof fn lemma_overwrite_preserves_length<T>(pre: Seq<T>, index: int, value: T, post: Seq<T>)
    requires
        0 <= index < pre.len(),
        slot_inserted(pre, index, value, post),
    ensures
        post.len() == pre.len(),
        post == pre.update(index, value),
{
    assert(post =~= pre.update(index, value));
}

/// Swapping two slots exchanges exactly their values and leaves the length
/// and every other slot unchanged.
pub proof fn lemma_swap_exchanges<T>(pre: Seq<T>, a: int, b: int, post: Seq<T>)
    requires
        0 <= a < pre.len(),
        0 <= b < pre.len(),
        post == pre.update(a, pre[b]).update(b, pre[a]),
    ensures
        post.len() == pre.len(),
        post[a] == pre[b],
        post[b] == pre[a],
        forall|i: int| 0 <= i < pre.len() && i != a && i != b ==> post[i] == pre[i],
{
}

} // verus!
