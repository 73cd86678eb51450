//! Where a logarithm to a complex base is fixed before any logarithm is
//! taken.

use crate::math::complex::complex::Complex;
use vstd::prelude::*;

verus! {

/// What the logarithm of `z` to base `b` is known to be from the arguments
/// alone: one where `b` and `z` are equal part by part, nothing otherwise.
pub open spec fn log_b_known(b: Complex, z: Complex) -> Option<Complex> {
    if b.ieee_eq(z) {
        Some(Complex::unit())
    } else {
        None
    }
}

/// The same on branch `branch` of the logarithm. Equal arguments fix the
/// result on branch 0 only: on any other branch the quotient of the two
/// logarithms is computed even for equal arguments.
pub open spec fn log_b_branched_known(b: Complex, z: Complex, branch: i32) -> Option<Complex> {
    if branch == 0 && b.ieee_eq(z) {
        Some(Complex::unit())
    } else {
        None
    }
}

/// Returns `Some(1)` where the principal logarithm of `z` to base `b` is one
/// because `b == z`, and `None` where it is the quotient `ln z / ln b`.
pub fn log_b_shortcut(b: &Complex, z: &Complex) -> (r: Option<Complex>)
    ensures
        r == log_b_known(*b, *z),
{
    if b.equals(z) {
        Some(Complex::one())
    } else {
        None
    }
}

/// Returns `Some(1)` where the logarithm of `z` to base `b` on branch
/// `branch` is one because `branch == 0` and `b == z`, and `None` where it is
/// the quotient of the two branched logarithms.
pub fn log_b_branched_shortcut(b: &Complex, z: &Complex, branch: i32) -> (r: Option<Complex>)
    ensures
        r == log_b_branched_known(*b, *z, branch),
{
    if branch == 0 && b.equals(z) {
        Some(Complex::one())
    } else {
        None
    }
}

/// On branch 0 the branched logarithm to a base is fixed exactly where the
/// principal one is; on every other branch it never is.
pub proof fn lemma_branch_zero_only(b: Complex, z: Complex, branch: i32)
    ensures
        log_b_branched_known(b, z, 0) == log_b_known(b, z),
        branch != 0 ==> log_b_branched_known(b, z, branch).is_none(),
        log_b_known(b, z).is_some() <==> b.ieee_eq(z),
        b.re.nan() || b.im.nan() ==> log_b_known(b, z).is_none(),
{
}

} // verus!
