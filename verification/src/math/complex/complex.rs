//! The complex value type.

use crate::math::binary64::{Binary64, ONE_BITS, SIGN_BIT};
use vstd::prelude::*;
use vstd::std_specs::cmp::PartialEqSpecImpl;

verus! {

/// A complex number: a real and an imaginary part, each a binary64 value.
/// Either part may be finite, infinite or NaN, independently of the other.
#[derive(Clone, Copy, Debug)]
pub struct Complex {
    pub re: Binary64,
    pub im: Binary64,
}

impl Complex {
    /// Component-wise IEEE equality: a NaN in any part makes it false, and
    /// the sign of a zero part does not matter.
    pub open spec fn ieee_eq(self, other: Complex) -> bool {
        self.re.ieee_eq(other.re) && self.im.ieee_eq(other.im)
    }

    /// Both parts are finite.
    pub open spec fn finite(self) -> bool {
        self.re.finite() && self.im.finite()
    }

    /// The same real part and the negated imaginary part.
    pub open spec fn conjugate(self) -> Complex {
        Complex { re: self.re, im: self.im.negated() }
    }

    /// Both parts negated.
    pub open spec fn negated(self) -> Complex {
        Complex { re: self.re.negated(), im: self.im.negated() }
    }

    /// The imaginary unit, with a positive zero as real part.
    pub open spec fn imaginary_unit() -> Complex {
        Complex { re: Binary64 { bits: 0 }, im: Binary64 { bits: ONE_BITS } }
    }

    /// The number one, with a positive zero as imaginary part.
    pub open spec fn unit() -> Complex {
        Complex { re: Binary64 { bits: ONE_BITS }, im: Binary64 { bits: 0 } }
    }

    /// The origin, both parts positive zero.
    pub open spec fn origin() -> Complex {
        Complex { re: Binary64 { bits: 0 }, im: Binary64 { bits: 0 } }
    }

    /// The complex number with the given parts.
    pub fn new(re: Binary64, im: Binary64) -> (z: Complex)
        ensures
            z.re == re,
            z.im == im,
    {
        Complex { re, im }
    }

    /// The imaginary unit.
    pub fn i() -> (z: Complex)
        ensures
            z == Complex::imaginary_unit(),
    {
        Complex { re: Binary64::positive_zero(), im: Binary64::one() }
    }

    /// The number one.
    pub fn one() -> (z: Complex)
        ensures
            z == Complex::unit(),
    {
        Complex { re: Binary64::one(), im: Binary64::positive_zero() }
    }

    /// The complex conjugate.
    pub fn conj(&self) -> (z: Complex)
        ensures
            z == self.conjugate(),
    {
        Complex { re: self.re, im: self.im.negate() }
    }

    /// The number with the opposite sign in both parts.
    pub fn negate(&self) -> (z: Complex)
        ensures
            z == self.negated(),
    {
        Complex { re: self.re.negate(), im: self.im.negate() }
    }

    /// A copy with the same bit patterns.
    pub fn clone(&self) -> (z: Complex)
        ensures
            z == *self,
    {
        Complex { re: self.re, im: self.im }
    }

    /// Whether `self` and `z` are equal part by part, as `==` decides it.
    pub fn equals(&self, z: &Complex) -> (r: bool)
        ensures
            r == self.ieee_eq(*z),
    {
        self.eq(z)
    }
}

impl PartialEq for Complex {
    /// Component-wise IEEE equality.
    fn eq(&self, other: &Complex) -> (r: bool) {
        self.re == other.re && self.im == other.im
    }
}

impl PartialEqSpecImpl for Complex {
    open spec fn obeys_eq_spec() -> bool {
        true
    }

    open spec fn eq_spec(&self, other: &Complex) -> bool {
        self.ieee_eq(*other)
    }
}

/// Equality of complex numbers is symmetric and transitive. A number with a
/// NaN part equals nothing, itself included; every other number equals
/// itself.
pub proof fn lemma_equality(z: Complex, w: Complex, v: Complex)
    ensures
        z.ieee_eq(w) == w.ieee_eq(z),
        z.ieee_eq(w) && w.ieee_eq(v) ==> z.ieee_eq(v),
        z.re.nan() || z.im.nan() ==> !z.ieee_eq(w) && !w.ieee_eq(z),
        z.ieee_eq(z) <==> !z.re.nan() && !z.im.nan(),
{
}

/// The origin written with a negative zero is another pair of patterns and
/// still equal to the origin.
pub proof fn lemma_zero_signs(re: Binary64, im: Binary64)
    requires
        re.zero(),
        im.zero(),
    ensures
        (Complex { re, im }).ieee_eq(Complex::origin()),
        (Complex { re: Binary64 { bits: SIGN_BIT }, im: Binary64 { bits: 0 } })
            != Complex::origin(),
{
}

/// Conjugating twice gives the number back, pattern for pattern, and a
/// conjugate is finite exactly when the number is. A number equals its
/// conjugate exactly when its imaginary part is zero and its real part is
/// not NaN.
pub proof fn lemma_conjugate(z: Complex)
    ensures
        z.conjugate().conjugate() == z,
        z.conjugate().finite() == z.finite(),
        z.conjugate().ieee_eq(z) <==> z.im.zero() && !z.re.nan(),
{
}

} // verus!
