//! Exact rational scalars.
//!
//! Every coordinate, zoom factor and color parameter of the view engine is a
//! [`Rat`]: a fraction of two `i128` values whose denominator is kept
//! positive. Specifications speak about the ghost model [`Q`], a pair of
//! unbounded integers, through the spec-level arithmetic defined here; two
//! model values denote the same rational exactly when [`q_eq`] holds
//! (cross-multiplication). The executable operations return the model result
//! bit for bit, under preconditions that keep every intermediate product
//! inside the `i128` range.

use vstd::prelude::*;

verus! {

/// Ghost model of a rational number: numerator `n` over denominator `d`.
pub struct Q {
    pub n: int,
    pub d: int,
}

/// `a` and `b` denote the same rational number (cross-multiplication).
pub open spec fn q_eq(a: Q, b: Q) -> bool {
    a.n * b.d == b.n * a.d
}

/// Exact rational sum.
pub open spec fn q_add(a: Q, b: Q) -> Q {
    Q { n: a.n * b.d + b.n * a.d, d: a.d * b.d }
}

/// Exact rational difference.
pub open spec fn q_sub(a: Q, b: Q) -> Q {
    Q { n: a.n * b.d - b.n * a.d, d: a.d * b.d }
}

/// Exact rational product.
pub open spec fn q_mul(a: Q, b: Q) -> Q {
    Q { n: a.n * b.n, d: a.d * b.d }
}

/// Exact rational quotient `a / b`, with the sign moved into the numerator
/// so that a positive-denominator operand yields a positive denominator.
pub open spec fn q_div(a: Q, b: Q) -> Q {
    if b.n >= 0 {
        Q { n: a.n * b.d, d: a.d * b.n }
    } else {
        Q { n: -(a.n * b.d), d: -(a.d * b.n) }
    }
}

/// The whole number `n` as a rational.
pub open spec fn q_int(n: int) -> Q {
    Q { n: n, d: 1 }
}

/// The constant one half.
pub open spec fn q_half() -> Q {
    Q { n: 1, d: 2 }
}

/// The denoted rational is strictly positive.
pub open spec fn q_is_pos(a: Q) -> bool {
    0 < a.n * a.d
}

/// The denoted rational is strictly negative.
pub open spec fn q_is_neg(a: Q) -> bool {
    a.n * a.d < 0
}

/// The denoted rational is zero.
pub open spec fn q_is_zero(a: Q) -> bool {
    a.n == 0
}

/// `x` fits in the symmetric `i128` range (so its negation fits too).
pub open spec fn fits(x: int) -> bool {
    -i128::MAX <= x <= i128::MAX
}

/// Every intermediate of an executable addition fits in `i128`.
pub open spec fn add_in_range(a: Q, b: Q) -> bool {
    &&& fits(a.n * b.d)
    &&& fits(b.n * a.d)
    &&& fits(a.n * b.d + b.n * a.d)
    &&& fits(a.d * b.d)
}

/// Every intermediate of an executable subtraction fits in `i128`.
pub open spec fn sub_in_range(a: Q, b: Q) -> bool {
    &&& fits(a.n * b.d)
    &&& fits(b.n * a.d)
    &&& fits(a.n * b.d - b.n * a.d)
    &&& fits(a.d * b.d)
}

/// Every intermediate of an executable multiplication fits in `i128`.
pub open spec fn mul_in_range(a: Q, b: Q) -> bool {
    &&& fits(a.n * b.n)
    &&& fits(a.d * b.d)
}

/// Every intermediate of an executable division fits in `i128`.
pub open spec fn div_in_range(a: Q, b: Q) -> bool {
    &&& fits(a.n * b.d)
    &&& fits(a.d * b.n)
}

/// Adding a rational whose numerator is zero does not change the value.
pub proof fn lemma_add_zero_num(a: Q, t: Q)
    by (nonlinear_arith)
    requires
        a.d != 0,
        t.d != 0,
        t.n == 0,
    ensures
        q_eq(q_add(a, t), a),
{
}

/// Ring identity behind [`lemma_add_congr_left`].
#[verifier::rlimit(100)]
proof fn lemma_add_congr_core(un: int, ud: int, cn: int, cd: int, tn: int, td: int)
    by (nonlinear_arith)
    requires
        un * cd == cn * ud,
    ensures
        (un * td + tn * ud) * (cd * td) == (cn * td + tn * cd) * (ud * td),
{
}

/// Sums of equal values are equal: `q_add` respects `q_eq` on the left.
pub proof fn lemma_add_congr_left(u: Q, c: Q, t: Q)
    requires
        u.d != 0,
        c.d != 0,
        t.d != 0,
        q_eq(u, c),
    ensures
        q_eq(q_add(u, t), q_add(c, t)),
{
    lemma_add_congr_core(u.n, u.d, c.n, c.d, t.n, t.d);
}

/// Adding and then subtracting the same value is the identity:
/// `(a + b) - a == b` up to `q_eq`.
pub proof fn lemma_add_sub_cancel(a: Q, b: Q)
    by (nonlinear_arith)
    requires
        a.d != 0,
        b.d != 0,
    ensures
        q_eq(q_sub(q_add(a, b), a), b),
{
}

/// Subtracting a rational whose numerator is zero does not change the value.
pub proof fn lemma_sub_zero_num(a: Q, t: Q)
    by (nonlinear_arith)
    requires
        a.d != 0,
        t.d != 0,
        t.n == 0,
    ensures
        q_eq(q_sub(a, t), a),
{
}

/// Subtracting and then subtracting the difference is the identity:
/// `a - (a - b) == b` up to `q_eq`.
#[verifier::rlimit(100)]
pub proof fn lemma_sub_sub_cancel(a: Q, b: Q)
    by (nonlinear_arith)
    requires
        a.d != 0,
        b.d != 0,
    ensures
        q_eq(q_sub(a, q_sub(a, b)), b),
{
}

/// Doubling the divisor halves the quotient: `2 * (a / (2 * z)) == a / z`
/// up to `q_eq`, for a positive `z`.
#[verifier::rlimit(100)]
pub proof fn lemma_div_double_halves(a: Q, z: Q)
    by (nonlinear_arith)
    requires
        a.d != 0,
        0 < z.n,
        0 < z.d,
    ensures
        q_eq(q_mul(q_int(2), q_div(a, q_mul(q_int(2), z))), q_div(a, z)),
{
}

/// A positive rational has a nonzero numerator.
pub proof fn lemma_pos_nonzero(a: Q)
    by (nonlinear_arith)
    requires
        q_is_pos(a),
    ensures
        a.n != 0,
{
}

/// The product of two positive rationals is positive.
pub proof fn lemma_mul_pos(a: Q, b: Q)
    by (nonlinear_arith)
    requires
        q_is_pos(a),
        q_is_pos(b),
    ensures
        q_is_pos(q_mul(a, b)),
{
}

/// The quotient of two positive rationals is positive.
pub proof fn lemma_div_pos(a: Q, b: Q)
    by (nonlinear_arith)
    requires
        q_is_pos(a),
        q_is_pos(b),
    ensures
        q_is_pos(q_div(a, b)),
{
}

/// The product of two positive integers is positive.
proof fn lemma_pos_mul_pos(a: int, b: int)
    by (nonlinear_arith)
    requires
        0 < a,
        0 < b,
    ensures
        0 < a * b,
{
}

/// Exact rational scalar: `num / den` with `den > 0`.
#[derive(Clone, Copy, Debug)]
pub struct Rat {
    num: i128,
    den: i128,
}

impl View for Rat {
    type V = Q;

    closed spec fn view(&self) -> Q {
        Q { n: self.num as int, d: self.den as int }
    }
}

impl Rat {
    /// The denominator is positive, so the value's sign is the numerator's.
    pub open spec fn wf(self) -> bool {
        0 < self@.d
    }

    /// The fraction `num / den`.
    pub fn new(num: i128, den: i128) -> (r: Rat)
        requires
            0 < den,
        ensures
            r@ == (Q { n: num as int, d: den as int }),
            r.wf(),
    {
        Rat { num, den }
    }

    /// The whole number `n`.
    pub fn from_int(n: i128) -> (r: Rat)
        ensures
            r@ == q_int(n as int),
            r.wf(),
    {
        Rat { num: n, den: 1 }
    }

    /// The numerator.
    pub fn num(&self) -> (n: i128)
        ensures
            n as int == self@.n,
    {
        self.num
    }

    /// The denominator.
    pub fn den(&self) -> (d: i128)
        ensures
            d as int == self@.d,
    {
        self.den
    }

    /// Sum, if every intermediate fits in `i128`; the only failures are
    /// machine-width overflows.
    pub fn try_add(self, other: Rat) -> (r: Option<Rat>)
        requires
            self.wf(),
            other.wf(),
        ensures
            r matches Some(v) ==> v@ == q_add(self@, other@) && v.wf(),
            add_in_range(self@, other@) ==> r is Some,
    {
        let p1 = match self.num.checked_mul(other.den) {
            Some(v) => v,
            None => {
                return None;
            },
        };
        let p2 = match other.num.checked_mul(self.den) {
            Some(v) => v,
            None => {
                return None;
            },
        };
        let n = match p1.checked_add(p2) {
            Some(v) => v,
            None => {
                return None;
            },
        };
        let d = match self.den.checked_mul(other.den) {
            Some(v) => v,
            None => {
                return None;
            },
        };
        proof {
            lemma_pos_mul_pos(self@.d, other@.d);
        }
        Some(Rat { num: n, den: d })
    }

    /// Exact sum.
    pub fn add(self, other: Rat) -> (r: Rat)
        requires
            self.wf(),
            other.wf(),
            add_in_range(self@, other@),
        ensures
            r@ == q_add(self@, other@),
            r.wf(),
    {
        match self.try_add(other) {
            Some(v) => v,
            None => unreached(),
        }
    }

    /// Difference, if every intermediate fits in `i128`.
    pub fn try_sub(self, other: Rat) -> (r: Option<Rat>)
        requires
            self.wf(),
            other.wf(),
        ensures
            r matches Some(v) ==> v@ == q_sub(self@, other@) && v.wf(),
            sub_in_range(self@, other@) ==> r is Some,
    {
        let p1 = match self.num.checked_mul(other.den) {
            Some(v) => v,
            None => {
                return None;
            },
        };
        let p2 = match other.num.checked_mul(self.den) {
            Some(v) => v,
            None => {
                return None;
            },
        };
        let n = match p1.checked_sub(p2) {
            Some(v) => v,
            None => {
                return None;
            },
        };
        let d = match self.den.checked_mul(other.den) {
            Some(v) => v,
            None => {
                return None;
            },
        };
        proof {
            lemma_pos_mul_pos(self@.d, other@.d);
        }
        Some(Rat { num: n, den: d })
    }

    /// Exact difference.
    pub fn sub(self, other: Rat) -> (r: Rat)
        requires
            self.wf(),
            other.wf(),
            sub_in_range(self@, other@),
        ensures
            r@ == q_sub(self@, other@),
            r.wf(),
    {
        match self.try_sub(other) {
            Some(v) => v,
            None => unreached(),
        }
    }

    /// Product, if every intermediate fits in `i128`.
    pub fn try_mul(self, other: Rat) -> (r: Option<Rat>)
        requires
            self.wf(),
            other.wf(),
        ensures
            r matches Some(v) ==> v@ == q_mul(self@, other@) && v.wf(),
            mul_in_range(self@, other@) ==> r is Some,
    {
        let n = match self.num.checked_mul(other.num) {
            Some(v) => v,
            None => {
                return None;
            },
        };
        let d = match self.den.checked_mul(other.den) {
            Some(v) => v,
            None => {
                return None;
            },
        };
        proof {
            lemma_pos_mul_pos(self@.d, other@.d);
        }
        Some(Rat { num: n, den: d })
    }

    /// Exact product.
    pub fn mul(self, other: Rat) -> (r: Rat)
        requires
            self.wf(),
            other.wf(),
            mul_in_range(self@, other@),
        ensures
            r@ == q_mul(self@, other@),
            r.wf(),
    {
        match self.try_mul(other) {
            Some(v) => v,
            None => unreached(),
        }
    }

    /// Quotient, if the divisor is nonzero and every intermediate fits in
    /// `i128`. A zero divisor always yields `None`.
    pub fn try_div(self, other: Rat) -> (r: Option<Rat>)
        requires
            self.wf(),
            other.wf(),
        ensures
            r matches Some(v) ==> v@ == q_div(self@, other@) && v.wf(),
            !q_is_zero(other@) && div_in_range(self@, other@) ==> r is Some,
    {
        if other.num == 0 {
            return None;
        }
        let p1 = match self.num.checked_mul(other.den) {
            Some(v) => v,
            None => {
                return None;
            },
        };
        let p2 = match self.den.checked_mul(other.num) {
            Some(v) => v,
            None => {
                return None;
            },
        };
        if other.num > 0 {
            proof {
                lemma_pos_mul_pos(self@.d, other@.n);
            }
            Some(Rat { num: p1, den: p2 })
        } else {
            if p1 == i128::MIN || p2 == i128::MIN {
                return None;
            }
            proof {
                assert(0 < -(self@.d * other@.n)) by (nonlinear_arith)
                    requires
                        0 < self@.d,
                        other@.n < 0,
                ;
            }
            Some(Rat { num: -p1, den: -p2 })
        }
    }

    /// Exact quotient; the divisor must not be zero.
    pub fn div(self, other: Rat) -> (r: Rat)
        requires
            self.wf(),
            other.wf(),
            !q_is_zero(other@),
            div_in_range(self@, other@),
        ensures
            r@ == q_div(self@, other@),
            r.wf(),
    {
        match self.try_div(other) {
            Some(v) => v,
            None => unreached(),
        }
    }

    /// Half of the value, if the doubled denominator fits in `i128`.
    pub fn try_half(self) -> (r: Option<Rat>)
        requires
            self.wf(),
        ensures
            r matches Some(v) ==> v@ == q_mul(q_half(), self@) && v.wf(),
            fits(2 * self@.d) ==> r is Some,
    {
        let d = match self.den.checked_mul(2) {
            Some(v) => v,
            None => {
                return None;
            },
        };
        Some(Rat { num: self.num, den: d })
    }

    /// Exact half of the value.
    pub fn half(self) -> (r: Rat)
        requires
            self.wf(),
            fits(2 * self@.d),
        ensures
            r@ == q_mul(q_half(), self@),
            r.wf(),
    {
        match self.try_half() {
            Some(v) => v,
            None => unreached(),
        }
    }

    /// Whether the value is strictly positive.
    pub fn is_pos(&self) -> (b: bool)
        requires
            self.wf(),
        ensures
            b == q_is_pos(self@),
    {
        proof {
            assert(q_is_pos(self@) == (0 < self@.n)) by (nonlinear_arith)
                requires
                    0 < self@.d,
            ;
        }
        self.num > 0
    }

    /// Whether the value is strictly negative.
    pub fn is_neg(&self) -> (b: bool)
        requires
            self.wf(),
        ensures
            b == q_is_neg(self@),
    {
        proof {
            assert(q_is_neg(self@) == (self@.n < 0)) by (nonlinear_arith)
                requires
                    0 < self@.d,
            ;
        }
        self.num < 0
    }

    /// Whether the value is zero.
    pub fn is_zero(&self) -> (b: bool)
        ensures
            b == q_is_zero(self@),
    {
        self.num == 0
    }
}

} // verus!
