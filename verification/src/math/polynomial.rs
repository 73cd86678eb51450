//! The shape of single-variable polynomials under the ring operations.
//!
//! A polynomial is an ordered list of coefficients, the coefficient of `x^i`
//! at index `i`. Nothing strips a zero at the upper end, so the degree is a
//! matter of the list's length alone.

use crate::math::binary64::Binary64;
use vstd::prelude::*;

verus! {

/// The degree of a polynomial of `len` coefficients.
pub open spec fn degree_spec(len: nat) -> nat
    recommends
        len >= 1,
{
    (len - 1) as nat
}

/// The number of coefficients of a sum or a difference: that of the longer
/// operand, the shorter one counting as padded with zeros.
pub open spec fn sum_len_spec(a: nat, b: nat) -> nat {
    if a >= b {
        a
    } else {
        b
    }
}

/// The number of coefficients of a product: one more than the two degrees
/// together.
pub open spec fn product_len_spec(a: nat, b: nat) -> nat
    recommends
        a >= 1,
        b >= 1,
{
    (a + b - 1) as nat
}

/// The number of coefficients of a derivative: one fewer, but a constant is
/// answered by the constant zero, which still has one.
pub open spec fn derivative_len_spec(len: nat) -> nat
    recommends
        len >= 1,
{
    if len <= 1 {
        1
    } else {
        (len - 1) as nat
    }
}

/// The degree of a polynomial of `len` coefficients.
pub fn degree(len: usize) -> (d: usize)
    requires
        len >= 1,
    ensures
        d == degree_spec(len as nat),
{
    len - 1
}

/// The number of coefficients after adding or subtracting polynomials of `a`
/// and of `b` coefficients.
pub fn sum_len(a: usize, b: usize) -> (n: usize)
    ensures
        n == sum_len_spec(a as nat, b as nat),
{
    if a >= b {
        a
    } else {
        b
    }
}

/// The number of coefficients of the product of polynomials of `a` and of `b`
/// coefficients, or `None` where that number does not fit.
pub fn product_len(a: usize, b: usize) -> (n: Option<usize>)
    requires
        a >= 1,
        b >= 1,
    ensures
        n == if product_len_spec(a as nat, b as nat) <= usize::MAX {
            Some(product_len_spec(a as nat, b as nat) as usize)
        } else {
            None
        },
{
    (a - 1).checked_add(b)
}

/// The number of coefficients of the derivative of a polynomial of `len`
/// coefficients.
pub fn derivative_len(len: usize) -> (n: usize)
    requires
        len >= 1,
    ensures
        n == derivative_len_spec(len as nat),
{
    if len <= 1 {
        1
    } else {
        len - 1
    }
}

/// Whether evaluation at a real argument passes over a term: it does where
/// the coefficient is a zero of either sign, and never for a NaN.
pub fn skips_term(coefficient: Binary64) -> (r: bool)
    ensures
        r == coefficient.ieee_eq(Binary64 { bits: 0 }),
{
    coefficient.eq(&Binary64::positive_zero())
}

/// Degrees under the ring operations: a sum has the greater degree, a
/// product the sum of the degrees, and a derivative one degree less unless
/// the polynomial is a constant.
pub proof fn lemma_degree_growth(a: nat, b: nat)
    requires
        a >= 1,
        b >= 1,
    ensures
        degree_spec(sum_len_spec(a, b)) == if degree_spec(a) >= degree_spec(b) {
            degree_spec(a)
        } else {
            degree_spec(b)
        },
        degree_spec(product_len_spec(a, b)) == degree_spec(a) + degree_spec(b),
        degree_spec(a) >= 1 ==> degree_spec(derivative_len_spec(a)) == degree_spec(a) - 1,
        degree_spec(a) == 0 ==> degree_spec(derivative_len_spec(a)) == 0,
{
}

} // verus!
