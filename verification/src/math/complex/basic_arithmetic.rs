//! Parts, construction and finiteness of a complex number.

use crate::math::binary64::Binary64;
use crate::math::complex::complex::Complex;
use vstd::prelude::*;

verus! {

/// The real part of `z`.
pub fn re(z: &Complex) -> (r: Binary64)
    ensures
        r == z.re,
{
    z.re
}

/// The imaginary part of `z`.
pub fn im(z: &Complex) -> (r: Binary64)
    ensures
        r == z.im,
{
    z.im
}

/// The complex number `a + bi`.
pub fn construct(a: Binary64, b: Binary64) -> (z: Complex)
    ensures
        z.re == a,
        z.im == b,
{
    Complex::new(a, b)
}

/// Whether both parts of `z` are finite: neither is infinite or NaN.
pub fn is_finite(z: &Complex) -> (r: bool)
    ensures
        r == z.finite(),
{
    z.re.is_finite() && z.im.is_finite()
}

} // verus!
