use crate::component::Component;
use vstd::prelude::*;

verus! {

/// An elementwise binary operator of the arithmetic overlay.
#[derive(Clone, Copy)]
pub enum BinOp {
    Add,
    Sub,
    Mul,
    Div,
    Rem,
    BitAnd,
    BitOr,
    BitXor,
    Shl,
    Shr,
}

/// The value of one scalar application of `op`. Operands are expected in
/// `u32` range; see `op_ok` for when the application is legal.
pub open spec fn apply_op(op: BinOp, a: int, b: int) -> int {
    match op {
        BinOp::Add => a + b,
        BinOp::Sub => a - b,
        BinOp::Mul => a * b,
        BinOp::Div => a / b,
        BinOp::Rem => a % b,
        BinOp::BitAnd => (((a as u32) & (b as u32)) as int),
        BinOp::BitOr => (((a as u32) | (b as u32)) as int),
        BinOp::BitXor => (((a as u32) ^ (b as u32)) as int),
        BinOp::Shl => (((a as u32) << (b as u32)) as int),
        BinOp::Shr => (((a as u32) >> (b as u32)) as int),
    }
}

/// When one scalar application of `op` is a legal `u32` operation: sums and
/// products in range, differences non-negative, divisors nonzero, shift
/// amounts within the width.
pub open spec fn op_ok(op: BinOp, a: int, b: int) -> bool {
    match op {
        BinOp::Add => a + b <= u32::MAX,
        BinOp::Sub => a - b >= 0,
        BinOp::Mul => a * b <= u32::MAX,
        BinOp::Div => b != 0,
        BinOp::Rem => b != 0,
        BinOp::BitAnd => true,
        BinOp::BitOr => true,
        BinOp::BitXor => true,
        BinOp::Shl => b < 32,
        BinOp::Shr => b < 32,
    }
}

/// One scalar application of `op`.
fn apply_op_exec(op: BinOp, a: u32, b: u32) -> (r: u32)
    requires
        op_ok(op, a as int, b as int),
    ensures
        r as int == apply_op(op, a as int, b as int),
{
    match op {
        BinOp::Add => a + b,
        BinOp::Sub => a - b,
        BinOp::Mul => a * b,
        BinOp::Div => a / b,
        BinOp::Rem => a % b,
        BinOp::BitAnd => a & b,
        BinOp::BitOr => a | b,
        BinOp::BitXor => a ^ b,
        BinOp::Shl => a << b,
        BinOp::Shr => a >> b,
    }
}

/// A lazy elementwise arithmetic expression over same-arena components of
/// `u32` values. Building an expression only borrows its operands, immutably,
/// and computes nothing; values are produced one by one when the expression
/// is materialized, by assigning it into a component or collecting it.
/// Binary nodes pair their operands slot by slot and stop at the shorter
/// side, as `zip` does.
pub enum Expr<'a, Arena> {
    /// The values of one borrowed component.
    Source(&'a Component<Arena, u32>),
    /// An elementwise binary combination of two subexpressions.
    Binary(BinOp, Box<Expr<'a, Arena>>, Box<Expr<'a, Arena>>),
    /// The elementwise bitwise complement of a subexpression.
    Not(Box<Expr<'a, Arena>>),
}

impl<'a, Arena> Expr<'a, Arena> {
    /// How many values the expression produces.
    pub open spec fn length(self) -> nat
        decreases self,
    {
        match self {
            Expr::Source(c) => c@.len(),
            Expr::Binary(op, l, r) => vstd::math::min(
                l.length() as int,
                r.length() as int,
            ) as nat,
            Expr::Not(e) => e.length(),
        }
    }

    /// The mathematical value the expression produces at position `i`.
    pub open spec fn value_at(self, i: int) -> int
        decreases self,
    {
        match self {
            Expr::Source(c) => c@[i] as int,
            Expr::Binary(op, l, r) => apply_op(op, l.value_at(i), r.value_at(i)),
            Expr::Not(e) => ((!(e.value_at(i) as u32)) as int),
        }
    }

    /// Whether every operator application inside the expression is a legal
    /// `u32` operation at every position the expression produces.
    pub open spec fn in_range(self) -> bool
        decreases self,
    {
        match self {
            Expr::Source(c) => true,
            Expr::Binary(op, l, r) => l.in_range() && r.in_range() && (forall|i: int|
                0 <= i < self.length() ==> #[trigger] op_ok(op, l.value_at(i), r.value_at(i))),
            Expr::Not(e) => e.in_range(),
        }
    }

    /// The full sequence of values the expression produces.
    pub open spec fn values(self) -> Seq<u32> {
        Seq::new(self.length(), |i: int| self.value_at(i) as u32)
    }

    /// Every value of an in-range expression fits in `u32`.
    pub proof fn lemma_in_range(self, i: int)
        requires
            self.in_range(),
            0 <= i < self.length(),
        ensures
            0 <= self.value_at(i) <= u32::MAX,
        decreases self,
    {
        match self {
            Expr::Source(c) => {
                assert(self.value_at(i) == c@[i] as int);
            },
            Expr::Binary(op, l, r) => {
                l.lemma_in_range(i);
                r.lemma_in_range(i);
                let a = l.value_at(i);
                let b = r.value_at(i);
                assert(op_ok(op, a, b));
                match op {
                    BinOp::Mul => {
                        assert(a * b >= 0) by (nonlinear_arith)
                            requires
                                a >= 0,
                                b >= 0,
                        ;
                    },
                    BinOp::Div => {
                        assert(0 <= a / b <= a) by (nonlinear_arith)
                            requires
                                a >= 0,
                                b >= 1,
                        ;
                    },
                    BinOp::Rem => {
                        assert(0 <= a % b < b) by (nonlinear_arith)
                            requires
                                b >= 1,
                        ;
                    },
                    _ => {},
                }
            },
            Expr::Not(e) => {},
        }
    }

    /// How many values the expression will produce.
    pub fn len(&self) -> (r: usize)
        ensures
            r == self.length(),
        decreases *self,
    {
        match self {
            Expr::Source(c) => c.len(),
            Expr::Binary(_op, l, r) => {
                let a = l.len();
                let b = r.len();
                if a < b {
                    a
                } else {
                    b
                }
            },
            Expr::Not(e) => e.len(),
        }
    }

    /// The value at one position, computed on demand.
    pub fn eval_at(&self, i: usize) -> (r: u32)
        requires
            self.in_range(),
            i < self.length(),
        ensures
            r as int == self.value_at(i as int),
        decreases *self,
    {
        match self {
            Expr::Source(c) => *c.at(i),
            Expr::Binary(op, l, r) => {
                proof {
                    l.lemma_in_range(i as int);
                    r.lemma_in_range(i as int);
                }
                let a = l.eval_at(i);
                let b = r.eval_at(i);
                apply_op_exec(*op, a, b)
            },
            Expr::Not(e) => {
                let v = e.eval_at(i);
                !v
            },
        }
    }

    /// Combines two same-arena expressions elementwise with `op`, lazily.
    pub fn binary(self, op: BinOp, rhs: Expr<'a, Arena>) -> (r: Expr<'a, Arena>)
        ensures
            r == Expr::Binary(op, Box::new(self), Box::new(rhs)),
    {
        Expr::Binary(op, Box::new(self), Box::new(rhs))
    }

    /// Lazy elementwise sum.
    pub fn add(self, rhs: Expr<'a, Arena>) -> (r: Expr<'a, Arena>)
        ensures
            r == Expr::Binary(BinOp::Add, Box::new(self), Box::new(rhs)),
    {
        self.binary(BinOp::Add, rhs)
    }

    /// Lazy elementwise difference.
    pub fn sub(self, rhs: Expr<'a, Arena>) -> (r: Expr<'a, Arena>)
        ensures
            r == Expr::Binary(BinOp::Sub, Box::new(self), Box::new(rhs)),
    {
        self.binary(BinOp::Sub, rhs)
    }

    /// Lazy elementwise product.
    pub fn mul(self, rhs: Expr<'a, Arena>) -> (r: Expr<'a, Arena>)
        ensures
            r == Expr::Binary(BinOp::Mul, Box::new(self), Box::new(rhs)),
    {
        self.binary(BinOp::Mul, rhs)
    }

    /// Lazy elementwise quotient.
    pub fn div(self, rhs: Expr<'a, Arena>) -> (r: Expr<'a, Arena>)
        ensures
            r == Expr::Binary(BinOp::Div, Box::new(self), Box::new(rhs)),
    {
        self.binary(BinOp::Div, rhs)
    }

    /// Lazy elementwise remainder.
    pub fn rem(self, rhs: Expr<'a, Arena>) -> (r: Expr<'a, Arena>)
        ensures
            r == Expr::Binary(BinOp::Rem, Box::new(self), Box::new(rhs)),
    {
        self.binary(BinOp::Rem, rhs)
    }

    /// Lazy elementwise bitwise and.
    pub fn bitand(self, rhs: Expr<'a, Arena>) -> (r: Expr<'a, Arena>)
        ensures
            r == Expr::Binary(BinOp::BitAnd, Box::new(self), Box::new(rhs)),
    {
        self.binary(BinOp::BitAnd, rhs)
    }

    /// Lazy elementwise bitwise or.
    pub fn bitor(self, rhs: Expr<'a, Arena>) -> (r: Expr<'a, Arena>)
        ensures
            r == Expr::Binary(BinOp::BitOr, Box::new(self), Box::new(rhs)),
    {
        self.binary(BinOp::BitOr, rhs)
    }

    /// Lazy elementwise bitwise exclusive or.
    pub fn bitxor(self, rhs: Expr<'a, Arena>) -> (r: Expr<'a, Arena>)
        ensures
            r == Expr::Binary(BinOp::BitXor, Box::new(self), Box::new(rhs)),
    {
        self.binary(BinOp::BitXor, rhs)
    }

    /// Lazy elementwise left shift.
    pub fn shl(self, rhs: Expr<'a, Arena>) -> (r: Expr<'a, Arena>)
        ensures
            r == Expr::Binary(BinOp::Shl, Box::new(self), Box::new(rhs)),
    {
        self.binary(BinOp::Shl, rhs)
    }

    /// Lazy elementwise right shift.
    pub fn shr(self, rhs: Expr<'a, Arena>) -> (r: Expr<'a, Arena>)
        ensures
            r == Expr::Binary(BinOp::Shr, Box::new(self), Box::new(rhs)),
    {
        self.binary(BinOp::Shr, rhs)
    }

    /// Lazy elementwise bitwise complement.
    pub fn not(self) -> (r: Expr<'a, Arena>)
        ensures
            r == Expr::Not(Box::new(self)),
    {
        Expr::Not(Box::new(self))
    }
}

impl<Arena> Component<Arena, u32> {
    /// Borrows this component as a lazy expression over its values. Nothing
    /// is computed or copied; the expression reads the component only when it
    /// is materialized.
    pub fn expr(&self) -> (r: Expr<'_, Arena>)
        ensures
            r == Expr::Source(self),
            r.length() == self@.len(),
            forall|i: int| 0 <= i < self@.len() ==> r.value_at(i) == self@[i] as int,
            r.in_range(),
    {
        Expr::Source(self)
    }

    /// Materializes `rhs` into this component, slot by slot, stopping at the
    /// shorter of the two lengths; slots past the expression's end keep
    /// their values. This is the terminal step that actually evaluates a
    /// lazy expression.
    pub fn assign(&mut self, rhs: Expr<'_, Arena>)
        requires
            rhs.in_range(),
        ensures
            final(self)@.len() == old(self)@.len(),
            forall|i: int|
                0 <= i < vstd::math::min(old(self)@.len() as int, rhs.length() as int)
                    ==> final(self)@[i] as int == rhs.value_at(i),
            forall|i: int|
                vstd::math::min(old(self)@.len() as int, rhs.length() as int) <= i < old(
                    self,
                )@.len() ==> final(self)@[i] == old(self)@[i],
    {
        let n = self.len();
        let m = rhs.len();
        let bound = if m < n {
            m
        } else {
            n
        };
        let mut k: usize = 0;
        while k < bound
            invariant
                rhs.in_range(),
                k <= bound,
                bound as int == vstd::math::min(self@.len() as int, rhs.length() as int),
                self@.len() == old(self)@.len(),
                forall|i: int| 0 <= i < k ==> self@[i] as int == rhs.value_at(i),
                forall|i: int| k <= i < self@.len() ==> self@[i] == old(self)@[i],
            decreases bound - k,
        {
            let v = rhs.eval_at(k);
            self.set_at(k, v);
            k += 1;
        }
    }

    /// Applies `op` between every slot and the matching expression value,
    /// storing the result back into the slot; pairing stops at the shorter
    /// side.
    fn compound(&mut self, op: BinOp, rhs: Expr<'_, Arena>)
        requires
            rhs.in_range(),
            forall|i: int|
                0 <= i < vstd::math::min(old(self)@.len() as int, rhs.length() as int)
                    ==> #[trigger] op_ok(op, old(self)@[i] as int, rhs.value_at(i)),
        ensures
            final(self)@.len() == old(self)@.len(),
            forall|i: int|
                0 <= i < vstd::math::min(old(self)@.len() as int, rhs.length() as int)
                    ==> final(self)@[i] as int == apply_op(op, old(self)@[i] as int, rhs.value_at(i)),
            forall|i: int|
                vstd::math::min(old(self)@.len() as int, rhs.length() as int) <= i < old(
                    self,
                )@.len() ==> final(self)@[i] == old(self)@[i],
    {
        let n = self.len();
        let m = rhs.len();
        let bound = if m < n {
            m
        } else {
            n
        };
        let mut k: usize = 0;
        while k < bound
            invariant
                rhs.in_range(),
                k <= bound,
                bound as int == vstd::math::min(self@.len() as int, rhs.length() as int),
                self@.len() == old(self)@.len(),
                forall|i: int|
                    0 <= i < bound ==> #[trigger] op_ok(op, old(self)@[i] as int, rhs.value_at(i)),
                forall|i: int|
                    0 <= i < k ==> self@[i] as int == apply_op(
                        op,
                        old(self)@[i] as int,
                        rhs.value_at(i),
                    ),
                forall|i: int| k <= i < self@.len() ==> self@[i] == old(self)@[i],
            decreases bound - k,
        {
            let cur = *self.at(k);
            let v = rhs.eval_at(k);
            let w = apply_op_exec(op, cur, v);
            self.set_at(k, w);
            k += 1;
        }
    }

    /// Elementwise `+=` with a same-arena expression.
    pub fn add_assign(&mut self, rhs: Expr<'_, Arena>)
        requires
            rhs.in_range(),
            forall|i: int|
                0 <= i < vstd::math::min(old(self)@.len() as int, rhs.length() as int)
                    ==> #[trigger] op_ok(BinOp::Add, old(self)@[i] as int, rhs.value_at(i)),
        ensures
            final(self)@.len() == old(self)@.len(),
            forall|i: int|
                0 <= i < vstd::math::min(old(self)@.len() as int, rhs.length() as int)
                    ==> final(self)@[i] as int == apply_op(
                    BinOp::Add,
                    old(self)@[i] as int,
                    rhs.value_at(i),
                ),
            forall|i: int|
                vstd::math::min(old(self)@.len() as int, rhs.length() as int) <= i < old(
                    self,
                )@.len() ==> final(self)@[i] == old(self)@[i],
    {
        self.compound(BinOp::Add, rhs);
    }

    /// Elementwise `-=` with a same-arena expression.
    pub fn sub_assign(&mut self, rhs: Expr<'_, Arena>)
        requires
            rhs.in_range(),
            forall|i: int|
                0 <= i < vstd::math::min(old(self)@.len() as int, rhs.length() as int)
                    ==> #[trigger] op_ok(BinOp::Sub, old(self)@[i] as int, rhs.value_at(i)),
        ensures
            final(self)@.len() == old(self)@.len(),
            forall|i: int|
                0 <= i < vstd::math::min(old(self)@.len() as int, rhs.length() as int)
                    ==> final(self)@[i] as int == apply_op(
                    BinOp::Sub,
                    old(self)@[i] as int,
                    rhs.value_at(i),
                ),
            forall|i: int|
                vstd::math::min(old(self)@.len() as int, rhs.length() as int) <= i < old(
                    self,
                )@.len() ==> final(self)@[i] == old(self)@[i],
    {
        self.compound(BinOp::Sub, rhs);
    }

    /// Elementwise `*=` with a same-arena expression.
    pub fn mul_assign(&mut self, rhs: Expr<'_, Arena>)
        requires
            rhs.in_range(),
            forall|i: int|
                0 <= i < vstd::math::min(old(self)@.len() as int, rhs.length() as int)
                    ==> #[trigger] op_ok(BinOp::Mul, old(self)@[i] as int, rhs.value_at(i)),
        ensures
            final(self)@.len() == old(self)@.len(),
            forall|i: int|
                0 <= i < vstd::math::min(old(self)@.len() as int, rhs.length() as int)
                    ==> final(self)@[i] as int == apply_op(
                    BinOp::Mul,
                    old(self)@[i] as int,
                    rhs.value_at(i),
                ),
            forall|i: int|
                vstd::math::min(old(self)@.len() as int, rhs.length() as int) <= i < old(
                    self,
                )@.len() ==> final(self)@[i] == old(self)@[i],
    {
        self.compound(BinOp::Mul, rhs);
    }

    /// Elementwise `/=` with a same-arena expression.
    pub fn div_assign(&mut self, rhs: Expr<'_, Arena>)
        requires
            rhs.in_range(),
            forall|i: int|
                0 <= i < vstd::math::min(old(self)@.len() as int, rhs.length() as int)
                    ==> #[trigger] op_ok(BinOp::Div, old(self)@[i] as int, rhs.value_at(i)),
        ensures
            final(self)@.len() == old(self)@.len(),
            forall|i: int|
                0 <= i < vstd::math::min(old(self)@.len() as int, rhs.length() as int)
                    ==> final(self)@[i] as int == apply_op(
                    BinOp::Div,
                    old(self)@[i] as int,
                    rhs.value_at(i),
                ),
            forall|i: int|
                vstd::math::min(old(self)@.len() as int, rhs.length() as int) <= i < old(
                    self,
                )@.len() ==> final(self)@[i] == old(self)@[i],
    {
        self.compound(BinOp::Div, rhs);
    }

    /// Elementwise `%=` with a same-arena expression.
    pub fn rem_assign(&mut self, rhs: Expr<'_, Arena>)
        requires
            rhs.in_range(),
            forall|i: int|
                0 <= i < vstd::math::min(old(self)@.len() as int, rhs.length() as int)
                    ==> #[trigger] op_ok(BinOp::Rem, old(self)@[i] as int, rhs.value_at(i)),
        ensures
            final(self)@.len() == old(self)@.len(),
            forall|i: int|
                0 <= i < vstd::math::min(old(self)@.len() as int, rhs.length() as int)
                    ==> final(self)@[i] as int == apply_op(
                    BinOp::Rem,
                    old(self)@[i] as int,
                    rhs.value_at(i),
                ),
            forall|i: int|
                vstd::math::min(old(self)@.len() as int, rhs.length() as int) <= i < old(
                    self,
                )@.len() ==> final(self)@[i] == old(self)@[i],
    {
        self.compound(BinOp::Rem, rhs);
    }

    /// Elementwise `&=` with a same-arena expression.
    pub fn bitand_assign(&mut self, rhs: Expr<'_, Arena>)
        requires
            rhs.in_range(),
        ensures
            final(self)@.len() == old(self)@.len(),
            forall|i: int|
                0 <= i < vstd::math::min(old(self)@.len() as int, rhs.length() as int)
                    ==> final(self)@[i] as int == apply_op(
                    BinOp::BitAnd,
                    old(self)@[i] as int,
                    rhs.value_at(i),
                ),
            forall|i: int|
                vstd::math::min(old(self)@.len() as int, rhs.length() as int) <= i < old(
                    self,
                )@.len() ==> final(self)@[i] == old(self)@[i],
    {
        self.compound(BinOp::BitAnd, rhs);
    }

    /// Elementwise `|=` with a same-arena expression.
    pub fn bitor_assign(&mut self, rhs: Expr<'_, Arena>)
        requires
            rhs.in_range(),
        ensures
            final(self)@.len() == old(self)@.len(),
            forall|i: int|
                0 <= i < vstd::math::min(old(self)@.len() as int, rhs.length() as int)
                    ==> final(self)@[i] as int == apply_op(
                    BinOp::BitOr,
                    old(self)@[i] as int,
                    rhs.value_at(i),
                ),
            forall|i: int|
                vstd::math::min(old(self)@.len() as int, rhs.length() as int) <= i < old(
                    self,
                )@.len() ==> final(self)@[i] == old(self)@[i],
    {
        self.compound(BinOp::BitOr, rhs);
    }

    /// Elementwise `^=` with a same-arena expression.
    pub fn bitxor_assign(&mut self, rhs: Expr<'_, Arena>)
        requires
            rhs.in_range(),
        ensures
            final(self)@.len() == old(self)@.len(),
            forall|i: int|
                0 <= i < vstd::math::min(old(self)@.len() as int, rhs.length() as int)
                    ==> final(self)@[i] as int == apply_op(
                    BinOp::BitXor,
                    old(self)@[i] as int,
                    rhs.value_at(i),
                ),
            forall|i: int|
                vstd::math::min(old(self)@.len() as int, rhs.length() as int) <= i < old(
                    self,
                )@.len() ==> final(self)@[i] == old(self)@[i],
    {
        self.compound(BinOp::BitXor, rhs);
    }

    /// Elementwise `<<=` with a same-arena expression.
    pub fn shl_assign(&mut self, rhs: Expr<'_, Arena>)
        requires
            rhs.in_range(),
            forall|i: int|
                0 <= i < vstd::math::min(old(self)@.len() as int, rhs.length() as int)
                    ==> #[trigger] op_ok(BinOp::Shl, old(self)@[i] as int, rhs.value_at(i)),
        ensures
            final(self)@.len() == old(self)@.len(),
            forall|i: int|
                0 <= i < vstd::math::min(old(self)@.len() as int, rhs.length() as int)
                    ==> final(self)@[i] as int == apply_op(
                    BinOp::Shl,
                    old(self)@[i] as int,
                    rhs.value_at(i),
                ),
            forall|i: int|
                vstd::math::min(old(self)@.len() as int, rhs.length() as int) <= i < old(
                    self,
                )@.len() ==> final(self)@[i] == old(self)@[i],
    {
        self.compound(BinOp::Shl, rhs);
    }

    /// Elementwise `>>=` with a same-arena expression.
    pub fn shr_assign(&mut self, rhs: Expr<'_, Arena>)
        requires
            rhs.in_range(),
            forall|i: int|
                0 <= i < vstd::math::min(old(self)@.len() as int, rhs.length() as int)
                    ==> #[trigger] op_ok(BinOp::Shr, old(self)@[i] as int, rhs.value_at(i)),
        ensures
            final(self)@.len() == old(self)@.len(),
            forall|i: int|
                0 <= i < vstd::math::min(old(self)@.len() as int, rhs.length() as int)
                    ==> final(self)@[i] as int == apply_op(
                    BinOp::Shr,
                    old(self)@[i] as int,
                    rhs.value_at(i),
                ),
            forall|i: int|
                vstd::math::min(old(self)@.len() as int, rhs.length() as int) <= i < old(
                    self,
                )@.len() ==> final(self)@[i] == old(self)@[i],
    {
        self.compound(BinOp::Shr, rhs);
    }
}

} // verus!
