use crate::component::Component;
use crate::context::Iter;
use crate::expr::Expr;
use vstd::prelude::*;

verus! {

/// A contextual source of values that can be materialized as a new
/// arena-tagged component, in traversal order, with one slot per value
/// produced.
pub trait FromContextualIterator: Sized {
    type Context;

    type Item;

    /// When the source is ready to be consumed whole.
    spec fn wf(self) -> bool;

    /// The values the source produces, in order.
    spec fn produced(self) -> Seq<Self::Item>;

    /// Consumes the source and materializes its values as a component.
    fn collect(self) -> (r: Component<Self::Context, Self::Item>)
        requires
            self.wf(),
        ensures
            r@ == self.produced(),
    ;
}

impl<'a, Arena, T: Copy> FromContextualIterator for Iter<'a, Arena, T> {
    type Context = Arena;

    type Item = T;

    /// A fresh iterator: nothing handed out yet.
    open spec fn wf(self) -> bool {
        self.position() == 0
    }

    open spec fn produced(self) -> Seq<T> {
        self.items()
    }

    fn collect(self) -> (r: Component<Arena, T>)
        ensures
            r@ == self.produced(),
    {
        let mut it = self;
        let mut out: Vec<T> = Vec::new();
        loop
            invariant
                it.items() == self.items(),
                0 <= it.position() <= self.items().len(),
                out@ == self.items().take(it.position()),
            ensures
                out@ == self.items(),
            decreases self.items().len() - it.position(),
        {
            match it.next() {
                Some(v) => {
                    out.push(*v);
                    proof {
                        assert(out@ =~= self.items().take(it.position()));
                    }
                },
                None => {
                    proof {
                        assert(out@ =~= self.items());
                    }
                    break ;
                },
            }
        }
        Component::from(out)
    }
}

impl<'a, Arena> FromContextualIterator for Expr<'a, Arena> {
    type Context = Arena;

    type Item = u32;

    /// Every operator application inside the expression is legal.
    open spec fn wf(self) -> bool {
        self.in_range()
    }

    open spec fn produced(self) -> Seq<u32> {
        self.values()
    }

    fn collect(self) -> (r: Component<Arena, u32>)
        ensures
            r@ == self.produced(),
    {
        let n = self.len();
        let mut out: Vec<u32> = Vec::new();
        let mut k: usize = 0;
        while k < n
            invariant
                self.in_range(),
                k <= n,
                n == self.length(),
                out@.len() == k,
                forall|i: int| 0 <= i < k ==> out@[i] as int == self.value_at(i),
            decreases n - k,
        {
            let v = self.eval_at(k);
            out.push(v);
            k += 1;
        }
        proof {
            assert(out@ =~= self.values());
        }
        Component::from(out)
    }
}

} // verus!
