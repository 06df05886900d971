use vstd::prelude::*;

verus! {

/// A contextual iterator: a single-pass, ordered walk over borrowed values,
/// statically labelled with the arena its positions belong to. Two contextual
/// iterators may be combined only when their arena parameters agree.
pub struct Iter<'a, Arena, T> {
    slots: &'a [T],
    at: usize,
    marker: core::marker::PhantomData<Arena>,
}

impl<'a, Arena, T> Clone for Iter<'a, Arena, T> {
    fn clone(&self) -> (r: Self)
        ensures
            r.items() == self.items(),
            r.position() == self.position(),
    {
        Iter { slots: self.slots, at: self.at, marker: core::marker::PhantomData }
    }
}

impl<'a, Arena, T> Copy for Iter<'a, Arena, T> {

}

impl<'a, Arena, T> Iter<'a, Arena, T> {
    /// The full sequence of values the iterator ranges over.
    pub closed spec fn items(self) -> Seq<T> {
        self.slots@
    }

    /// How many values have been handed out so far.
    pub closed spec fn position(self) -> int {
        self.at as int
    }

    /// A fresh iterator over the given values, labelled with `Arena`.
    pub fn new(slots: &'a [T]) -> (r: Self)
        ensures
            r.items() == slots@,
            r.position() == 0,
    {
        Iter { slots, at: 0, marker: core::marker::PhantomData }
    }

    /// The next value, left to right; nothing once every value has been
    /// handed out.
    pub fn next(&mut self) -> (r: Option<&'a T>)
        ensures
            final(self).items() == old(self).items(),
            old(self).position() < old(self).items().len() ==> {
                &&& r matches Some(v) && *v == old(self).items()[old(self).position()]
                &&& final(self).position() == old(self).position() + 1
            },
            old(self).position() >= old(self).items().len() ==> {
                &&& r is None
                &&& final(self).position() == old(self).position()
            },
    {
        if self.at < self.slots.len() {
            let v = &self.slots[self.at];
            self.at = self.at + 1;
            Some(v)
        } else {
            None
        }
    }

    /// Defers `f` over this iterator's values, one call per value, only when
    /// the mapped iterator is consumed. The arena label is preserved.
    pub fn map<U, F: Fn(T) -> U>(self, f: F) -> (r: Mapped<'a, Arena, T, U, F>)
        where T: Copy
        ensures
            r.source() == self.items(),
            r.position() == self.position(),
            r.func() == f,
    {
        Mapped { it: self, f, marker: core::marker::PhantomData }
    }

    /// Pairs this iterator with a same-arena iterator. Pairing stops at the
    /// shorter of the two sequences; lengths are not checked.
    pub fn zip<'b, U>(self, other: Iter<'b, Arena, U>) -> (r: Zip<'a, 'b, Arena, T, U>)
        requires
            self.position() == 0,
            other.position() == 0,
        ensures
            r.lefts() == self.items(),
            r.rights() == other.items(),
            r.position() == 0,
    {
        Zip { left: self.slots, right: other.slots, at: 0, marker: core::marker::PhantomData }
    }
}

/// Two same-arena contextual iterators walked in lockstep. Produces pairs
/// until the shorter side runs out; the mismatch, if any, is silent.
pub struct Zip<'a, 'b, Arena, T, U> {
    left: &'a [T],
    right: &'b [U],
    at: usize,
    marker: core::marker::PhantomData<Arena>,
}

impl<'a, 'b, Arena, T, U> Zip<'a, 'b, Arena, T, U> {
    /// The values of the left side.
    pub closed spec fn lefts(self) -> Seq<T> {
        self.left@
    }

    /// The values of the right side.
    pub closed spec fn rights(self) -> Seq<U> {
        self.right@
    }

    /// How many pairs have been handed out so far.
    pub closed spec fn position(self) -> int {
        self.at as int
    }

    /// How many pairs the zip produces in all: the shorter side's length.
    pub open spec fn pair_count(self) -> int {
        vstd::math::min(self.lefts().len() as int, self.rights().len() as int)
    }

    /// The next pair, left to right; nothing once the shorter side is
    /// exhausted.
    pub fn next(&mut self) -> (r: Option<(&'a T, &'b U)>)
        ensures
            final(self).lefts() == old(self).lefts(),
            final(self).rights() == old(self).rights(),
            old(self).position() < old(self).pair_count() ==> {
                &&& r matches Some(p) && *p.0 == old(self).lefts()[old(self).position()] && *p.1
                    == old(self).rights()[old(self).position()]
                &&& final(self).position() == old(self).position() + 1
            },
            old(self).position() >= old(self).pair_count() ==> {
                &&& r is None
                &&& final(self).position() == old(self).position()
            },
    {
        if self.at < self.left.len() && self.at < self.right.len() {
            let a = &self.left[self.at];
            let b = &self.right[self.at];
            self.at = self.at + 1;
            Some((a, b))
        } else {
            None
        }
    }
}


/// A lazily mapped contextual iterator: applies a function to each value of
/// an underlying same-arena iterator, on demand, preserving the arena label.
pub struct Mapped<'a, Arena, T, U, F> {
    it: Iter<'a, Arena, T>,
    f: F,
    marker: core::marker::PhantomData<U>,
}

impl<'a, Arena, T: Copy, U, F: Fn(T) -> U> Mapped<'a, Arena, T, U, F> {
    /// The values of the underlying iterator.
    pub closed spec fn source(self) -> Seq<T> {
        self.it.items()
    }

    /// How many values have been handed out so far.
    pub closed spec fn position(self) -> int {
        self.it.position()
    }

    /// The deferred function.
    pub closed spec fn func(self) -> F {
        self.f
    }

    /// The next transformed value; `f` runs here and nowhere earlier.
    pub fn next(&mut self) -> (r: Option<U>)
        requires
            old(self).position() < old(self).source().len() ==> call_requires(
                old(self).func(),
                (old(self).source()[old(self).position()],),
            ),
        ensures
            final(self).source() == old(self).source(),
            final(self).func() == old(self).func(),
            old(self).position() < old(self).source().len() ==> {
                &&& r matches Some(u) && call_ensures(
                    old(self).func(),
                    (old(self).source()[old(self).position()],),
                    u,
                )
                &&& final(self).position() == old(self).position() + 1
            },
            old(self).position() >= old(self).source().len() ==> {
                &&& r is None
                &&& final(self).position() == old(self).position()
            },
    {
        match self.it.next() {
            Some(v) => Some((self.f)(*v)),
            None => None,
        }
    }

    /// Consumes the iterator, materializing every transformed value as a new
    /// component in traversal order.
    pub fn collect(self) -> (r: crate::component::Component<Arena, U>)
        requires
            self.position() == 0,
            forall|i: int|
                0 <= i < self.source().len() ==> call_requires(
                    self.func(),
                    (#[trigger] self.source()[i],),
                ),
        ensures
            r@.len() == self.source().len(),
            forall|i: int|
                0 <= i < self.source().len() ==> call_ensures(
                    self.func(),
                    (self.source()[i],),
                    #[trigger] r@[i],
                ),
    {
        let mut inner = self;
        let mut out: Vec<U> = Vec::new();
        loop
            invariant
                inner.source() == self.source(),
                inner.func() == self.func(),
                0 <= inner.position() <= self.source().len(),
                out@.len() == inner.position(),
                forall|i: int|
                    0 <= i < self.source().len() ==> call_requires(
                        self.func(),
                        (#[trigger] self.source()[i],),
                    ),
                forall|i: int|
                    0 <= i < out@.len() ==> call_ensures(
                        self.func(),
                        (self.source()[i],),
                        #[trigger] out@[i],
                    ),
            ensures
                out@.len() == self.source().len(),
                forall|i: int|
                    0 <= i < out@.len() ==> call_ensures(
                        self.func(),
                        (self.source()[i],),
                        #[trigger] out@[i],
                    ),
            decreases self.source().len() - inner.position(),
        {
            match inner.next() {
                Some(u) => {
                    out.push(u);
                },
                None => {
                    break ;
                },
            }
        }
        crate::component::Component::from(out)
    }
}

} // verus!
