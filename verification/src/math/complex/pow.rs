//! Which formula a power or a root is computed by.

use crate::math::binary64::Binary64;
use crate::math::complex::complex::Complex;
use vstd::arithmetic::power2::{
    lemma2_to64, lemma2_to64_rest, lemma_pow2_adds, lemma_pow2_pos, lemma_pow2_unfold, pow2,
};
use vstd::prelude::*;

verus! {

/// The pattern of `1.0e-17`: an imaginary part whose absolute value is below
/// it counts as zero when a square root is taken.
pub const NEGLIGIBLE_BITS: u64 = 0x3c67_0ef5_4646_d497;

/// How `z` is raised to an integer power.
#[derive(Clone, Copy, Debug, PartialEq, Eq, Structural)]
pub enum IntegerPower {
    /// Exponent 0: the result is one, whatever `z` is.
    One,
    /// Exponent 1: the result is `z`.
    Base,
    /// Exponent -1: the conjugate of `z` scaled by the inverse of `|z|^2`.
    Reciprocal,
    /// Exponent 2: the product of `z` with itself.
    Square,
    /// Any other exponent: `|z|` to that power, at that multiple of `arg z`.
    Polar,
}

/// How a real base `r` enters a complex power.
#[derive(Clone, Copy, Debug, PartialEq, Eq, Structural)]
pub enum RealBase {
    /// `r == 0`: the power is the origin and no logarithm is taken.
    Zero,
    /// `r > 0`: the logarithm of the base is `ln r`.
    Positive,
    /// Otherwise: the logarithm of the base is `ln |r| + i pi`.
    Negative,
}

/// How the principal square root of `z` is computed.
#[derive(Clone, Copy, Debug, PartialEq, Eq, Structural)]
pub enum SquareRoot {
    /// Negligible imaginary part, `re >= 0`: the root is `sqrt(re)`, real.
    Real,
    /// Negligible imaginary part, otherwise: the root is `sqrt(-re)` times i.
    Imaginary,
    /// Otherwise: `z + |z|`, normalized and scaled by `sqrt(|z|)`.
    HalfAngle,
}

/// The formula by which the `n`th power is computed.
pub open spec fn pow_n_formula_spec(n: i32) -> IntegerPower {
    if n == 0 {
        IntegerPower::One
    } else if n == 1 {
        IntegerPower::Base
    } else if n == -1 {
        IntegerPower::Reciprocal
    } else if n == 2 {
        IntegerPower::Square
    } else {
        IntegerPower::Polar
    }
}

/// The class of the real base `r`, by IEEE comparison with zero: a zero of
/// either sign is `Zero`, and a NaN, which is neither equal to zero nor
/// greater, falls to `Negative`.
pub open spec fn pow_z_base_spec(r: Binary64) -> RealBase {
    if r.ieee_eq(Binary64 { bits: 0 }) {
        RealBase::Zero
    } else if (Binary64 { bits: 0 }).ieee_lt(r) {
        RealBase::Positive
    } else {
        RealBase::Negative
    }
}

/// The threshold as a value.
pub open spec fn negligible_threshold() -> Binary64 {
    Binary64 { bits: NEGLIGIBLE_BITS }
}

/// Whether the imaginary part `im` counts as zero under a square root:
/// `|im| < 1e-17`. A NaN never does.
pub open spec fn negligible(im: Binary64) -> bool {
    im.absolute().ieee_lt(negligible_threshold())
}

/// The formula by which the principal square root of `z` is computed. On
/// the real axis a real part that is NaN, being not `>= 0`, takes the
/// imaginary form.
pub open spec fn sqrt_formula_spec(z: Complex) -> SquareRoot {
    if negligible(z.im) {
        if (Binary64 { bits: 0 }).ieee_le(z.re) {
            SquareRoot::Real
        } else {
            SquareRoot::Imaginary
        }
    } else {
        SquareRoot::HalfAngle
    }
}

/// Whether branch `branch` of the square root is the negated principal root:
/// it is for odd `branch`, of either sign.
pub open spec fn sqrt_branched_negated(branch: i32) -> bool {
    branch % 2 != 0
}

/// Branch `branch` of the square root, given the principal root: the
/// principal root itself on even branches, its negation on odd ones.
pub open spec fn sqrt_branch_spec(principal: Complex, branch: i32) -> Complex {
    if sqrt_branched_negated(branch) {
        principal.negated()
    } else {
        principal
    }
}

/// The formula for the `n`th power: exact short cuts for 0, 1, -1 and 2, the
/// polar form for every other exponent.
pub fn pow_n_formula(n: i32) -> (r: IntegerPower)
    ensures
        r == pow_n_formula_spec(n),
{
    if n == 0 {
        IntegerPower::One
    } else if n == 1 {
        IntegerPower::Base
    } else if n == -1 {
        IntegerPower::Reciprocal
    } else if n == 2 {
        IntegerPower::Square
    } else {
        IntegerPower::Polar
    }
}

/// Classifies the real base of a complex power.
pub fn pow_z_base(r: Binary64) -> (c: RealBase)
    ensures
        c == pow_z_base_spec(r),
{
    let zero = Binary64::positive_zero();
    if r.eq(&zero) {
        RealBase::Zero
    } else if r.gt(&zero) {
        RealBase::Positive
    } else {
        RealBase::Negative
    }
}

/// The formula for the principal square root of `z`.
pub fn sqrt_formula(z: &Complex) -> (r: SquareRoot)
    ensures
        r == sqrt_formula_spec(*z),
{
    let threshold = Binary64::from_bits(NEGLIGIBLE_BITS);
    let zero = Binary64::positive_zero();
    if z.im.abs().lt(&threshold) {
        if z.re.ge(&zero) {
            SquareRoot::Real
        } else {
            SquareRoot::Imaginary
        }
    } else {
        SquareRoot::HalfAngle
    }
}

/// Whether branch `branch` of the square root negates the principal root.
pub fn sqrt_branched_negates(branch: i32) -> (r: bool)
    ensures
        r == sqrt_branched_negated(branch),
{
    branch % 2 != 0
}

/// Branch `branch` of a square root whose principal value is `principal`.
pub fn sqrt_branch(principal: &Complex, branch: i32) -> (r: Complex)
    ensures
        r == sqrt_branch_spec(*principal, branch),
{
    if sqrt_branched_negates(branch) {
        principal.negate()
    } else {
        principal.clone()
    }
}

/// The exponents with a formula of their own are 0, 1, -1 and 2; every
/// other exponent takes the polar form.
pub proof fn lemma_pow_n_short_cuts(n: i32)
    ensures
        pow_n_formula_spec(0) == IntegerPower::One,
        pow_n_formula_spec(1) == IntegerPower::Base,
        pow_n_formula_spec(-1i32) == IntegerPower::Reciprocal,
        pow_n_formula_spec(2) == IntegerPower::Square,
        pow_n_formula_spec(n) == IntegerPower::Polar <==> n < -1 || n > 2,
{
}

/// The square root has two branches, which alternate: branch 0 is the
/// principal root, branch 1 its negation, and each next branch is the
/// negation of the one before, so that two steps lead back.
pub proof fn lemma_sqrt_branches_alternate(principal: Complex, branch: i32)
    ensures
        sqrt_branch_spec(principal, 0) == principal,
        sqrt_branch_spec(principal, 1) == principal.negated(),
        branch < i32::MAX ==> sqrt_branch_spec(principal, (branch + 1) as i32) == sqrt_branch_spec(
            principal,
            branch,
        ).negated(),
        branch < i32::MAX - 1 ==> sqrt_branch_spec(principal, (branch + 2) as i32)
            == sqrt_branch_spec(principal, branch),
        branch > i32::MIN ==> sqrt_branch_spec(principal, (-branch) as i32) == sqrt_branch_spec(
            principal,
            branch,
        ),
{
}

/// A zero base is told by its magnitude, either sign; a base that is NaN or
/// has its sign bit set, zero apart, counts as negative.
pub proof fn lemma_pow_z_base(r: Binary64)
    ensures
        pow_z_base_spec(r) == RealBase::Zero <==> r.zero(),
        pow_z_base_spec(r) == RealBase::Positive <==> !r.nan() && !r.zero() && !r.sign_negative(),
        pow_z_base_spec(r) == RealBase::Negative <==> r.nan() || (!r.zero() && r.sign_negative()),
{
}

/// On the real axis the root is real for a real part that is zero, of
/// either sign, or positive, and imaginary for one that is negative or NaN.
/// An imaginary part that is NaN or infinite always takes the half-angle
/// form.
pub proof fn lemma_sqrt_formula_cases(z: Complex)
    ensures
        z.im.zero() ==> negligible(z.im),
        z.im.nan() || z.im.infinite() ==> sqrt_formula_spec(z) == SquareRoot::HalfAngle,
        negligible(z.im) && !z.re.nan() && (z.re.zero() || !z.re.sign_negative())
            ==> sqrt_formula_spec(z) == SquareRoot::Real,
        negligible(z.im) && (z.re.nan() || (z.re.sign_negative() && !z.re.zero()))
            ==> sqrt_formula_spec(z) == SquareRoot::Imaginary,
        negligible(z.im) == negligible(z.im.negated()),
{
}

/// The threshold is the binary64 value nearest to `10^-17`: it differs from
/// `10^-17` by less than half a unit in its last place. In the units in
/// which `scaled_magnitude` counts, the number one is `2^1074` and that half
/// unit is `2^964`; the claim is multiplied through by `10^17`.
pub proof fn lemma_negligible_threshold()
    ensures
        negligible_threshold().finite(),
        !negligible_threshold().sign_negative(),
        negligible_threshold().exponent_field() == 966,
        100_000_000_000_000_000 * negligible_threshold().scaled_value() - pow2(1074)
            < 100_000_000_000_000_000 * pow2(964),
        pow2(1074) - 100_000_000_000_000_000 * negligible_threshold().scaled_value()
            < 100_000_000_000_000_000 * pow2(964),
{
    let t = negligible_threshold();
    let significand: int = 6490371073168535;
    let ten17: int = 100_000_000_000_000_000;
    let half = pow2(964) as int;
    let p110: int = 0x4000_0000_0000_0000_0000_0000_0000;
    assert(t.exponent_field() == 966);
    assert(t.significand() == significand);
    assert(t.exponent() + 1074 == 965);
    lemma_pow2_unfold(965);
    lemma_pow2_pos(964);
    lemma2_to64();
    lemma2_to64_rest();
    lemma_pow2_adds(64, 46);
    assert(pow2(110) == p110);
    lemma_pow2_adds(110, 964);
    assert(t.scaled_value() == significand * (2 * half));
    assert(ten17 * (significand * (2 * half)) - p110 * half == (2 * ten17 * significand - p110)
        * half) by (nonlinear_arith);
    assert((2 * ten17 * significand - p110) * half < ten17 * half) by (nonlinear_arith)
        requires
            2 * ten17 * significand - p110 < ten17,
            half > 0,
    ;
    assert((p110 - 2 * ten17 * significand) * half < ten17 * half) by (nonlinear_arith)
        requires
            p110 - 2 * ten17 * significand < ten17,
            half > 0,
    ;
    assert(p110 * half - ten17 * (significand * (2 * half)) == (p110 - 2 * ten17 * significand)
        * half) by (nonlinear_arith);
}

} // verus!
