//! Exact scalar coordinates.
//!
//! Drawing commands carry their coordinates, colors and sizes as exact
//! rationals: an integer numerator over a positive integer denominator.
//! Contracts about values (rather than representations) are stated over
//! `(int, int)` pairs with the `rat_*` spec functions below.

use vstd::prelude::*;

verus! {

/// An exact rational quantity `num / den`, with `den >= 1`.
///
/// Two `Scalar`s are `==` when their representations agree; `rat_eq`
/// compares the values they denote.
#[derive(Clone, Copy, PartialEq, Eq, Structural, Debug)]
pub struct Scalar {
    pub num: i64,
    pub den: i64,
}

impl Scalar {
    /// Well-formed: the denominator is positive.
    pub open spec fn wf(self) -> bool {
        self.den >= 1
    }

    /// The denoted value, as a pair (numerator, denominator).
    pub open spec fn val(self) -> (int, int) {
        (self.num as int, self.den as int)
    }

}

/// Shorthand for a scalar literal in specifications.
pub open spec fn sc(num: int, den: int) -> Scalar {
    Scalar { num: num as i64, den: den as i64 }
}

/// Value equality of two rationals: `a.0 / a.1 == b.0 / b.1`, by
/// cross-multiplication (meaningful for positive denominators).
pub open spec fn rat_eq(a: (int, int), b: (int, int)) -> bool {
    a.0 * b.1 == b.0 * a.1
}

/// The rational denotes exactly the integer `k`.
pub open spec fn rat_is_int(a: (int, int), k: int) -> bool {
    a.0 == k * a.1
}

/// Sum of two rationals.
pub open spec fn rat_add(a: (int, int), b: (int, int)) -> (int, int) {
    (a.0 * b.1 + b.0 * a.1, a.1 * b.1)
}

/// Difference of two rationals.
pub open spec fn rat_sub(a: (int, int), b: (int, int)) -> (int, int) {
    (a.0 * b.1 - b.0 * a.1, a.1 * b.1)
}

/// Half of a rational.
pub open spec fn rat_half(a: (int, int)) -> (int, int) {
    (a.0, 2 * a.1)
}

/// Product of two rationals.
pub open spec fn rat_mul(a: (int, int), b: (int, int)) -> (int, int) {
    (a.0 * b.0, a.1 * b.1)
}

/// The representation of an exact product: pairwise products of the
/// fields. Meaningful where `fits_mul` holds, so the casts change nothing.
pub open spec fn mul_rep(a: Scalar, b: Scalar) -> Scalar {
    Scalar { num: (a.num * b.num) as i64, den: (a.den * b.den) as i64 }
}

/// The representation of an exact sum over the common denominator.
/// Meaningful where `fits_add` holds, so the casts change nothing.
pub open spec fn add_rep(a: Scalar, b: Scalar) -> Scalar {
    Scalar { num: (a.num * b.den + b.num * a.den) as i64, den: (a.den * b.den) as i64 }
}

/// The products needed to multiply the two representations fit in `i64`.
pub open spec fn fits_mul(a: Scalar, b: Scalar) -> bool {
    &&& i64::MIN <= a.num * b.num <= i64::MAX
    &&& i64::MIN <= a.den * b.den <= i64::MAX
}

/// The products and the sum needed to add the two representations fit in `i64`.
pub open spec fn fits_add(a: Scalar, b: Scalar) -> bool {
    &&& i64::MIN <= a.num * b.den <= i64::MAX
    &&& i64::MIN <= b.num * a.den <= i64::MAX
    &&& i64::MIN <= a.num * b.den + b.num * a.den <= i64::MAX
    &&& i64::MIN <= a.den * b.den <= i64::MAX
}

impl Scalar {
    /// Exact product; the representation is the pairwise product.
    pub fn mul(self, other: Scalar) -> (r: Scalar)
        requires
            self.wf(),
            other.wf(),
            fits_mul(self, other),
        ensures
            r.num == self.num * other.num,
            r.den == self.den * other.den,
            r == mul_rep(self, other),
            r.wf(),
            r.val() == rat_mul(self.val(), other.val()),
    {
        proof {
            assert(self.den * other.den >= 1) by (nonlinear_arith)
                requires
                    self.den >= 1,
                    other.den >= 1,
            ;
        }
        Scalar { num: self.num * other.num, den: self.den * other.den }
    }

    /// Exact sum over the common denominator.
    pub fn add(self, other: Scalar) -> (r: Scalar)
        requires
            self.wf(),
            other.wf(),
            fits_add(self, other),
        ensures
            r.num == self.num * other.den + other.num * self.den,
            r.den == self.den * other.den,
            r == add_rep(self, other),
            r.wf(),
            r.val() == rat_add(self.val(), other.val()),
    {
        proof {
            assert(self.den * other.den >= 1) by (nonlinear_arith)
                requires
                    self.den >= 1,
                    other.den >= 1,
            ;
        }
        Scalar {
            num: self.num * other.den + other.num * self.den,
            den: self.den * other.den,
        }
    }
}

} // verus!
