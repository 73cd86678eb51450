//! IEEE-754 binary64 values, held and classified as 64-bit patterns.
//!
//! The top bit is the sign, the next eleven are the biased exponent and the
//! low fifty-two are the fraction. Everything here is integer arithmetic on
//! that pattern.

use vstd::arithmetic::power2::{
    lemma2_to64, lemma2_to64_rest, lemma_pow2_adds, lemma_pow2_pos,
    lemma_pow2_strictly_increases, lemma_pow2_unfold, pow2,
};
use vstd::prelude::*;
use vstd::std_specs::cmp::PartialEqSpecImpl;

verus! {

/// The pattern whose only set bit is the sign bit; also the pattern of `-0.0`.
pub const SIGN_BIT: u64 = 0x8000_0000_0000_0000;

/// The pattern of positive infinity: every exponent bit set, fraction zero.
pub const INFINITY_BITS: u64 = 0x7ff0_0000_0000_0000;

/// The pattern of `1.0`.
pub const ONE_BITS: u64 = 0x3ff0_0000_0000_0000;

/// Two to the fifty-second: the number of fractions under one exponent.
pub const FRACTION_RANGE: u64 = 0x10_0000_0000_0000;

/// One binary64 value, given by its bit pattern.
#[derive(Clone, Copy, Debug)]
pub struct Binary64 {
    pub bits: u64,
}

impl Binary64 {
    /// The pattern with the sign bit cleared.
    pub open spec fn magnitude(self) -> u64 {
        if self.bits >= SIGN_BIT {
            (self.bits - SIGN_BIT) as u64
        } else {
            self.bits
        }
    }

    /// Whether the sign bit is set. This holds of `-0.0` and of half the NaNs.
    pub open spec fn sign_negative(self) -> bool {
        self.bits >= SIGN_BIT
    }

    /// Not a number: the exponent is all ones and the fraction is not zero.
    pub open spec fn nan(self) -> bool {
        self.magnitude() > INFINITY_BITS
    }

    /// Positive or negative infinity.
    pub open spec fn infinite(self) -> bool {
        self.magnitude() == INFINITY_BITS
    }

    /// Zero, subnormal or normal: neither infinite nor NaN.
    pub open spec fn finite(self) -> bool {
        self.magnitude() < INFINITY_BITS
    }

    /// Positive or negative zero.
    pub open spec fn zero(self) -> bool {
        self.magnitude() == 0
    }

    /// The biased exponent: the eleven bits below the sign.
    pub open spec fn exponent_field(self) -> nat {
        (self.magnitude() / FRACTION_RANGE) as nat
    }

    /// The fraction: the low fifty-two bits.
    pub open spec fn fraction_field(self) -> nat {
        (self.magnitude() % FRACTION_RANGE) as nat
    }

    /// The significand of a finite pattern: the fraction, with its hidden
    /// leading bit unless the value is subnormal.
    pub open spec fn significand(self) -> nat {
        if self.exponent_field() == 0 {
            self.fraction_field()
        } else {
            FRACTION_RANGE as nat + self.fraction_field()
        }
    }

    /// The binary exponent of a finite pattern: its absolute value is
    /// `significand * 2^exponent`. Subnormal values share the exponent of
    /// the smallest normal ones, -1074.
    pub open spec fn exponent(self) -> int {
        if self.exponent_field() == 0 {
            -1074
        } else {
            self.exponent_field() - 1075
        }
    }

    /// The absolute value of a finite pattern, counted in units of `2^-1074`,
    /// the smallest positive binary64 value.
    pub open spec fn scaled_magnitude(self) -> nat {
        self.significand() * pow2((self.exponent() + 1074) as nat)
    }

    /// The value of a finite pattern in units of `2^-1074`, with its sign.
    pub open spec fn scaled_value(self) -> int {
        if self.sign_negative() {
            -(self.scaled_magnitude() as int)
        } else {
            self.scaled_magnitude() as int
        }
    }

    /// The place of a value that is not NaN on the number line, as an integer:
    /// the magnitude, counted downwards from zero where the sign is set.
    /// Both zeros have rank 0; among values that are not NaN a greater rank
    /// is a greater number.
    pub open spec fn rank(self) -> int {
        if self.sign_negative() {
            -(self.magnitude() as int)
        } else {
            self.magnitude() as int
        }
    }

    /// IEEE equality: false where either side is NaN, otherwise equal ranks.
    pub open spec fn ieee_eq(self, other: Binary64) -> bool {
        !self.nan() && !other.nan() && self.rank() == other.rank()
    }

    /// IEEE `<`: false where either side is NaN.
    pub open spec fn ieee_lt(self, other: Binary64) -> bool {
        !self.nan() && !other.nan() && self.rank() < other.rank()
    }

    /// IEEE `<=`: false where either side is NaN.
    pub open spec fn ieee_le(self, other: Binary64) -> bool {
        !self.nan() && !other.nan() && self.rank() <= other.rank()
    }

    /// The value with the opposite sign bit and the same magnitude.
    pub open spec fn negated(self) -> Binary64 {
        if self.bits >= SIGN_BIT {
            Binary64 { bits: (self.bits - SIGN_BIT) as u64 }
        } else {
            Binary64 { bits: (self.bits + SIGN_BIT) as u64 }
        }
    }

    /// The value with the sign bit cleared.
    pub open spec fn absolute(self) -> Binary64 {
        Binary64 { bits: self.magnitude() }
    }

    /// Wraps a bit pattern.
    pub fn from_bits(bits: u64) -> (r: Binary64)
        ensures
            r.bits == bits,
    {
        Binary64 { bits }
    }

    /// The bit pattern.
    pub fn to_bits(&self) -> (r: u64)
        ensures
            r == self.bits,
    {
        self.bits
    }

    /// Positive zero.
    pub fn positive_zero() -> (r: Binary64)
        ensures
            r.bits == 0,
    {
        Binary64 { bits: 0 }
    }

    /// The number one.
    pub fn one() -> (r: Binary64)
        ensures
            r.bits == ONE_BITS,
    {
        Binary64 { bits: ONE_BITS }
    }

    fn magnitude_bits(&self) -> (r: u64)
        ensures
            r == self.magnitude(),
    {
        if self.bits >= SIGN_BIT {
            self.bits - SIGN_BIT
        } else {
            self.bits
        }
    }

    /// Whether the sign bit is set.
    pub fn is_sign_negative(&self) -> (r: bool)
        ensures
            r == self.sign_negative(),
    {
        self.bits >= SIGN_BIT
    }

    /// Whether the value is NaN.
    pub fn is_nan(&self) -> (r: bool)
        ensures
            r == self.nan(),
    {
        self.magnitude_bits() > INFINITY_BITS
    }

    /// Whether the value is positive or negative infinity.
    pub fn is_infinite(&self) -> (r: bool)
        ensures
            r == self.infinite(),
    {
        self.magnitude_bits() == INFINITY_BITS
    }

    /// Whether the value is neither infinite nor NaN.
    pub fn is_finite(&self) -> (r: bool)
        ensures
            r == self.finite(),
    {
        self.magnitude_bits() < INFINITY_BITS
    }

    /// Whether the value is positive or negative zero.
    pub fn is_zero(&self) -> (r: bool)
        ensures
            r == self.zero(),
    {
        self.magnitude_bits() == 0
    }

    /// Takes a value apart: whether the sign bit is set, the significand and
    /// the binary exponent. A finite value is `significand * 2^exponent`,
    /// negated where the sign is set.
    pub fn decode(&self) -> (r: (bool, u64, i32))
        ensures
            r.0 == self.sign_negative(),
            r.1 == self.significand(),
            r.2 == self.exponent(),
    {
        let magnitude: u64 = self.magnitude_bits();
        let field: u64 = magnitude / FRACTION_RANGE;
        let fraction: u64 = magnitude % FRACTION_RANGE;
        if field == 0 {
            (self.is_sign_negative(), fraction, -1074)
        } else {
            (self.is_sign_negative(), FRACTION_RANGE + fraction, field as i32 - 1075)
        }
    }

    /// Flips the sign bit, as unary minus does: NaN stays NaN, zero changes
    /// its sign.
    pub fn negate(&self) -> (r: Binary64)
        ensures
            r == self.negated(),
    {
        if self.bits >= SIGN_BIT {
            Binary64 { bits: self.bits - SIGN_BIT }
        } else {
            Binary64 { bits: self.bits + SIGN_BIT }
        }
    }

    /// Clears the sign bit.
    pub fn abs(&self) -> (r: Binary64)
        ensures
            r == self.absolute(),
    {
        Binary64 { bits: self.magnitude_bits() }
    }

    /// IEEE `<`.
    pub fn lt(&self, other: &Binary64) -> (r: bool)
        ensures
            r == self.ieee_lt(*other),
    {
        if self.is_nan() || other.is_nan() {
            false
        } else {
            let a: u64 = self.magnitude_bits();
            let b: u64 = other.magnitude_bits();
            if self.is_sign_negative() {
                if other.is_sign_negative() {
                    a > b
                } else {
                    a != 0 || b != 0
                }
            } else {
                !other.is_sign_negative() && a < b
            }
        }
    }

    /// IEEE `<=`.
    pub fn le(&self, other: &Binary64) -> (r: bool)
        ensures
            r == self.ieee_le(*other),
    {
        self.lt(other) || self.eq(other)
    }

    /// IEEE `>`.
    pub fn gt(&self, other: &Binary64) -> (r: bool)
        ensures
            r == other.ieee_lt(*self),
    {
        other.lt(self)
    }

    /// IEEE `>=`.
    pub fn ge(&self, other: &Binary64) -> (r: bool)
        ensures
            r == other.ieee_le(*self),
    {
        other.le(self)
    }
}

impl PartialEq for Binary64 {
    /// IEEE `==`: NaN equals nothing, the two zeros equal each other.
    fn eq(&self, other: &Binary64) -> (r: bool) {
        if self.is_nan() || other.is_nan() {
            false
        } else {
            self.bits == other.bits || (self.magnitude_bits() == 0 && other.magnitude_bits() == 0)
        }
    }
}

impl PartialEqSpecImpl for Binary64 {
    open spec fn obeys_eq_spec() -> bool {
        true
    }

    open spec fn eq_spec(&self, other: &Binary64) -> bool {
        self.ieee_eq(*other)
    }
}

/// Exactly one of finite, infinite and NaN holds of every pattern.
pub proof fn lemma_classes(x: Binary64)
    ensures
        x.finite() <==> !x.infinite() && !x.nan(),
        !(x.infinite() && x.nan()),
        x.zero() ==> x.finite(),
{
}

/// A greater magnitude among patterns is a greater absolute value.
proof fn lemma_scaled_magnitude_increases(a: Binary64, b: Binary64)
    requires
        a.magnitude() < b.magnitude(),
    ensures
        a.scaled_magnitude() < b.scaled_magnitude(),
{
    let range = FRACTION_RANGE as int;
    let ea = a.exponent_field();
    let eb = b.exponent_field();
    let sa = a.significand() as int;
    let sb = b.significand() as int;
    let pa = pow2((a.exponent() + 1074) as nat) as int;
    let pb = pow2((b.exponent() + 1074) as nat) as int;
    lemma_pow2_pos((a.exponent() + 1074) as nat);
    lemma_pow2_pos((b.exponent() + 1074) as nat);
    if ea == eb {
        assert(sa * pa < sb * pa) by (nonlinear_arith)
            requires
                sa < sb,
                pa > 0,
        ;
    } else if ea == 0 {
        lemma2_to64();
        assert(sa * pa < sb * pb) by (nonlinear_arith)
            requires
                0 <= sa < range,
                pa == 1,
                range <= sb,
                pb >= 1,
        ;
    } else {
        lemma_pow2_unfold(ea);
        if ea < eb - 1 {
            lemma_pow2_strictly_increases(ea, (eb - 1) as nat);
        }
        assert(sa * pa < sb * pb) by (nonlinear_arith)
            requires
                0 <= sa < 2 * range,
                range <= sb,
                pa > 0,
                2 * pa <= pb,
        ;
    }
}

/// The order of ranks is the order of values: of two finite patterns the one
/// of lower rank is the smaller number, and equal ranks are equal numbers.
pub proof fn lemma_rank_orders_values(a: Binary64, b: Binary64)
    requires
        a.finite(),
        b.finite(),
    ensures
        a.rank() < b.rank() <==> a.scaled_value() < b.scaled_value(),
        a.rank() == b.rank() <==> a.scaled_value() == b.scaled_value(),
{
    let zero = Binary64 { bits: 0 };
    assert(zero.significand() == 0);
    assert(zero.scaled_magnitude() == 0) by (nonlinear_arith)
        requires
            zero.significand() == 0,
            zero.scaled_magnitude() == zero.significand() * pow2(
                (zero.exponent() + 1074) as nat,
            ),
    ;
    if a.magnitude() > 0 {
        lemma_scaled_magnitude_increases(zero, a);
    }
    if b.magnitude() > 0 {
        lemma_scaled_magnitude_increases(zero, b);
    }
    if a.magnitude() < b.magnitude() {
        lemma_scaled_magnitude_increases(a, b);
    }
    if b.magnitude() < a.magnitude() {
        lemma_scaled_magnitude_increases(b, a);
    }
}

/// The number one is `2^1074` of the units in which `scaled_magnitude`
/// counts, and both zeros are none of them.
pub proof fn lemma_unit_of_scale()
    ensures
        (Binary64 { bits: ONE_BITS }).scaled_value() == pow2(1074),
        (Binary64 { bits: 0 }).scaled_value() == 0,
        (Binary64 { bits: SIGN_BIT }).scaled_value() == 0,
        (Binary64 { bits: 1 }).scaled_value() == 1,
{
    let one = Binary64 { bits: ONE_BITS };
    assert(one.exponent_field() == 1023);
    assert(one.fraction_field() == 0);
    lemma2_to64();
    lemma2_to64_rest();
    lemma_pow2_adds(52, 1022);
    assert((Binary64 { bits: 0 }).significand() == 0);
    assert((Binary64 { bits: SIGN_BIT }).significand() == 0);
    assert((Binary64 { bits: 1 }).significand() == 1);
    assert((Binary64 { bits: 1 }).exponent() == -1074);
}

/// The infinities lie beyond every finite value, one on each side.
pub proof fn lemma_infinities_bound(a: Binary64, b: Binary64)
    requires
        a.finite(),
        b.infinite(),
    ensures
        b.sign_negative() ==> b.ieee_lt(a),
        !b.sign_negative() ==> a.ieee_lt(b),
{
}

/// IEEE equality is symmetric and transitive, and a value equals itself
/// unless it is NaN. The two zeros are equal though their patterns differ.
pub proof fn lemma_equality(a: Binary64, b: Binary64, c: Binary64)
    ensures
        a.ieee_eq(b) == b.ieee_eq(a),
        a.ieee_eq(b) && b.ieee_eq(c) ==> a.ieee_eq(c),
        a.ieee_eq(a) <==> !a.nan(),
        (Binary64 { bits: 0 }).ieee_eq(Binary64 { bits: SIGN_BIT }),
        a.ieee_eq(b) ==> a.bits == b.bits || (a.zero() && b.zero()),
{
}

/// IEEE `<` is a strict order on the values that are not NaN, and any two of
/// them are equal or ordered one way. NaN is ordered against nothing.
pub proof fn lemma_order(a: Binary64, b: Binary64, c: Binary64)
    ensures
        !a.ieee_lt(a),
        a.ieee_lt(b) ==> !b.ieee_lt(a),
        a.ieee_lt(b) && b.ieee_lt(c) ==> a.ieee_lt(c),
        a.ieee_le(b) <==> a.ieee_lt(b) || a.ieee_eq(b),
        !a.nan() && !b.nan() ==> a.ieee_lt(b) || a.ieee_eq(b) || b.ieee_lt(a),
        a.nan() || b.nan() ==> !a.ieee_lt(b) && !a.ieee_le(b) && !a.ieee_eq(b),
{
}

/// Negation flips the sign and nothing else: twice is the identity, the
/// class stays, and the order turns around.
pub proof fn lemma_negation(a: Binary64, b: Binary64)
    ensures
        a.negated().negated() == a,
        a.negated().sign_negative() == !a.sign_negative(),
        a.negated().magnitude() == a.magnitude(),
        a.negated().rank() == -a.rank(),
        a.ieee_lt(b) <==> b.negated().ieee_lt(a.negated()),
{
}

/// The absolute value has no sign, and is the value or its negation.
pub proof fn lemma_absolute(a: Binary64)
    ensures
        !a.absolute().sign_negative(),
        a.absolute().magnitude() == a.magnitude(),
        a.absolute() == if a.sign_negative() {
            a.negated()
        } else {
            a
        },
        !a.nan() ==> (Binary64 { bits: 0 }).ieee_le(a.absolute()),
{
}

} // verus!
