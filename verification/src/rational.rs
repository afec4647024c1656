//! Exact rational arithmetic on `i128` numerator/denominator pairs.
//!
//! A value `Rat { num, den }` stands for the rational number `num / den`,
//! with `den > 0`. Values are not kept in lowest terms; equality of the
//! represented rationals is the cross-multiplication relation `frac_eq`.
//! All specification-level arithmetic is over mathematical integers, so
//! the executable operations carry explicit fit conditions that rule out
//! `i128` overflow.

use vstd::prelude::*;

verus! {

/// Ghost-level rational addition on (numerator, denominator) pairs.
pub open spec fn frac_add(a: (int, int), b: (int, int)) -> (int, int) {
    (a.0 * b.1 + b.0 * a.1, a.1 * b.1)
}

/// Ghost-level rational subtraction on (numerator, denominator) pairs.
pub open spec fn frac_sub(a: (int, int), b: (int, int)) -> (int, int) {
    (a.0 * b.1 - b.0 * a.1, a.1 * b.1)
}

/// Ghost-level rational multiplication on (numerator, denominator) pairs.
pub open spec fn frac_mul(a: (int, int), b: (int, int)) -> (int, int) {
    (a.0 * b.0, a.1 * b.1)
}

/// Ghost-level rational division on (numerator, denominator) pairs.
pub open spec fn frac_div(a: (int, int), b: (int, int)) -> (int, int) {
    (a.0 * b.1, a.1 * b.0)
}

/// Equality of the rationals represented by two pairs (valid whenever the
/// denominators are nonzero): `a.0 / a.1 == b.0 / b.1`.
pub open spec fn frac_eq(a: (int, int), b: (int, int)) -> bool {
    a.0 * b.1 == b.0 * a.1
}

/// The integer is representable as an `i128`.
pub open spec fn fits(x: int) -> bool {
    i128::MIN <= x <= i128::MAX
}

/// An exact rational number `num / den` with a positive denominator.
#[derive(Clone, Copy, Debug, PartialEq, Eq, Structural)]
pub struct Rat {
    pub num: i128,
    pub den: i128,
}

impl View for Rat {
    type V = (int, int);

    open spec fn view(&self) -> (int, int) {
        (self.num as int, self.den as int)
    }
}

impl Rat {
    /// Well-formed: the denominator is positive.
    pub open spec fn wf(self) -> bool {
        self.den > 0
    }

    /// Both components lie within 10^4; this is the machine limit under
    /// which the moist-air mixture formulas are proved free of `i128`
    /// overflow.
    pub open spec fn bounded(self) -> bool {
        &&& -10000 <= self.num <= 10000
        &&& 0 < self.den <= 10000
    }

    pub fn new(num: i128, den: i128) -> (r: Rat)
        requires
            den > 0,
        ensures
            r.wf(),
            r@ == (num as int, den as int),
    {
        Rat { num, den }
    }

    /// The rational number one.
    pub fn one() -> (r: Rat)
        ensures
            r.wf(),
            r@ == (1int, 1int),
    {
        Rat { num: 1, den: 1 }
    }

    /// Exact rational addition.
    pub fn plus(&self, other: &Rat) -> (r: Rat)
        requires
            self.wf(),
            other.wf(),
            fits(self.num * other.den),
            fits(other.num * self.den),
            fits(self.num * other.den + other.num * self.den),
            fits(self.den * other.den),
        ensures
            r.wf(),
            r@ == frac_add(self@, other@),
    {
        proof {
            lemma_pos_mul_pos(self.den as int, other.den as int);
        }
        let num: i128 = self.num * other.den + other.num * self.den;
        let den: i128 = self.den * other.den;
        Rat { num, den }
    }

    /// Exact rational subtraction.
    pub fn minus(&self, other: &Rat) -> (r: Rat)
        requires
            self.wf(),
            other.wf(),
            fits(self.num * other.den),
            fits(other.num * self.den),
            fits(self.num * other.den - other.num * self.den),
            fits(self.den * other.den),
        ensures
            r.wf(),
            r@ == frac_sub(self@, other@),
    {
        proof {
            lemma_pos_mul_pos(self.den as int, other.den as int);
        }
        let num: i128 = self.num * other.den - other.num * self.den;
        let den: i128 = self.den * other.den;
        Rat { num, den }
    }

    /// Exact rational multiplication.
    pub fn times(&self, other: &Rat) -> (r: Rat)
        requires
            self.wf(),
            other.wf(),
            fits(self.num * other.num),
            fits(self.den * other.den),
        ensures
            r.wf(),
            r@ == frac_mul(self@, other@),
    {
        proof {
            lemma_pos_mul_pos(self.den as int, other.den as int);
        }
        let num: i128 = self.num * other.num;
        let den: i128 = self.den * other.den;
        Rat { num, den }
    }

    /// Exact rational division; the divisor must be a positive rational so
    /// that the result keeps a positive denominator.
    pub fn over(&self, other: &Rat) -> (r: Rat)
        requires
            self.wf(),
            other.wf(),
            other.num > 0,
            fits(self.num * other.den),
            fits(self.den * other.num),
        ensures
            r.wf(),
            r@ == frac_div(self@, other@),
    {
        proof {
            lemma_pos_mul_pos(self.den as int, other.num as int);
        }
        let num: i128 = self.num * other.den;
        let den: i128 = self.den * other.num;
        Rat { num, den }
    }
}

/// The product of two positive integers is positive.
pub proof fn lemma_pos_mul_pos(x: int, y: int)
    by (nonlinear_arith)
    requires
        x > 0,
        y > 0,
    ensures
        x * y > 0,
{
}

/// Magnitude bound for a product: if `|x| <= bx` and `|y| <= by_`, then
/// `|x * y| <= bx * by_`.
pub proof fn lemma_mul_bound(x: int, y: int, bx: int, by_: int)
    by (nonlinear_arith)
    requires
        -bx <= x <= bx,
        -by_ <= y <= by_,
    ensures
        -(bx * by_) <= x * y <= bx * by_,
{
}


/// Right-distributivity of multiplication over addition.
pub proof fn lemma_mul_distrib(a: int, b: int, m: int)
    by (nonlinear_arith)
    ensures
        (a + b) * m == a * m + b * m,
{
}


/// Right-distributivity of multiplication over subtraction.
pub proof fn lemma_mul_distrib_sub(a: int, b: int, m: int)
    by (nonlinear_arith)
    ensures
        (a - b) * m == a * m - b * m,
{
}

/// Left-distributivity of multiplication over subtraction.
pub proof fn lemma_mul_sub(m: int, a: int, b: int)
    by (nonlinear_arith)
    ensures
        m * (a - b) == m * a - m * b,
{
}

/// `frac_eq` is transitive when the middle denominator is nonzero.
pub proof fn lemma_frac_eq_trans(a: (int, int), b: (int, int), c: (int, int))
    requires
        frac_eq(a, b),
        frac_eq(b, c),
        b.1 != 0,
    ensures
        frac_eq(a, c),
{
    assert(a.0 * c.1 == c.0 * a.1) by (nonlinear_arith)
        requires
            a.0 * b.1 == b.0 * a.1,
            b.0 * c.1 == c.0 * b.1,
            b.1 != 0,
    ;
}

/// Adding `frac_eq` rationals to `frac_eq` rationals gives `frac_eq` sums.
pub proof fn lemma_frac_add_cong(a: (int, int), a2: (int, int), b: (int, int), b2: (int, int))
    requires
        frac_eq(a, a2),
        frac_eq(b, b2),
    ensures
        frac_eq(frac_add(a, b), frac_add(a2, b2)),
{
    assert((a.0 * b.1 + b.0 * a.1) * (a2.1 * b2.1)
        == (a.0 * b.1) * (a2.1 * b2.1) + (b.0 * a.1) * (a2.1 * b2.1)) by (nonlinear_arith);
    assert((a.0 * b.1) * (a2.1 * b2.1) == (a.0 * a2.1) * (b.1 * b2.1)) by (nonlinear_arith);
    assert((b.0 * a.1) * (a2.1 * b2.1) == (b.0 * b2.1) * (a.1 * a2.1)) by (nonlinear_arith);
    assert((a2.0 * b2.1 + b2.0 * a2.1) * (a.1 * b.1)
        == (a2.0 * b2.1) * (a.1 * b.1) + (b2.0 * a2.1) * (a.1 * b.1)) by (nonlinear_arith);
    assert((a2.0 * b2.1) * (a.1 * b.1) == (a2.0 * a.1) * (b.1 * b2.1)) by (nonlinear_arith);
    assert((b2.0 * a2.1) * (a.1 * b.1) == (b2.0 * b.1) * (a.1 * a2.1)) by (nonlinear_arith);
}

/// Subtracting `frac_eq` rationals from `frac_eq` rationals gives `frac_eq`
/// differences.
pub proof fn lemma_frac_sub_cong(a: (int, int), a2: (int, int), b: (int, int), b2: (int, int))
    requires
        frac_eq(a, a2),
        frac_eq(b, b2),
    ensures
        frac_eq(frac_sub(a, b), frac_sub(a2, b2)),
{
    assert((a.0 * b.1 - b.0 * a.1) * (a2.1 * b2.1)
        == (a.0 * b.1) * (a2.1 * b2.1) - (b.0 * a.1) * (a2.1 * b2.1)) by (nonlinear_arith);
    assert((a.0 * b.1) * (a2.1 * b2.1) == (a.0 * a2.1) * (b.1 * b2.1)) by (nonlinear_arith);
    assert((b.0 * a.1) * (a2.1 * b2.1) == (b.0 * b2.1) * (a.1 * a2.1)) by (nonlinear_arith);
    assert((a2.0 * b2.1 - b2.0 * a2.1) * (a.1 * b.1)
        == (a2.0 * b2.1) * (a.1 * b.1) - (b2.0 * a2.1) * (a.1 * b.1)) by (nonlinear_arith);
    assert((a2.0 * b2.1) * (a.1 * b.1) == (a2.0 * a.1) * (b.1 * b2.1)) by (nonlinear_arith);
    assert((b2.0 * a2.1) * (a.1 * b.1) == (b2.0 * b.1) * (a.1 * a2.1)) by (nonlinear_arith);
}

/// Multiplying `frac_eq` rationals by `frac_eq` rationals gives `frac_eq`
/// products.
pub proof fn lemma_frac_mul_cong(a: (int, int), a2: (int, int), b: (int, int), b2: (int, int))
    requires
        frac_eq(a, a2),
        frac_eq(b, b2),
    ensures
        frac_eq(frac_mul(a, b), frac_mul(a2, b2)),
{
    assert((a.0 * b.0) * (a2.1 * b2.1) == (a.0 * a2.1) * (b.0 * b2.1)) by (nonlinear_arith);
    assert((a2.0 * b2.0) * (a.1 * b.1) == (a2.0 * a.1) * (b2.0 * b.1)) by (nonlinear_arith);
}

} // verus!
