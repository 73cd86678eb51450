use grapheme::math::binary64::{Binary64, FRACTION_RANGE, INFINITY_BITS, ONE_BITS, SIGN_BIT};

fn b(x: f64) -> Binary64 {
    Binary64::from_bits(x.to_bits())
}

fn samples() -> Vec<f64> {
    vec![
        0.0,
        -0.0,
        1.0,
        -1.0,
        0.5,
        -0.5,
        2.0,
        3.0,
        -8.0,
        1.0 / 3.0,
        1.0e-17,
        -1.0e-17,
        9.9e-18,
        5e-324,
        -5e-324,
        f64::MIN_POSITIVE,
        -f64::MIN_POSITIVE,
        2.2250738585072009e-308,
        f64::EPSILON,
        1.0e300,
        -1.0e300,
        f64::MAX,
        f64::MIN,
        f64::INFINITY,
        f64::NEG_INFINITY,
        f64::NAN,
        -f64::NAN,
        f64::from_bits(0x7ff0_0000_0000_0001),
        f64::from_bits(0xffff_ffff_ffff_ffff),
        std::f64::consts::PI,
        -std::f64::consts::PI,
    ]
}

#[test]
fn constants_are_the_patterns_of_the_doubles() {
    assert_eq!(SIGN_BIT, (-0.0f64).to_bits());
    assert_eq!(INFINITY_BITS, f64::INFINITY.to_bits());
    assert_eq!(ONE_BITS, 1.0f64.to_bits());
    assert_eq!(FRACTION_RANGE, 1u64 << 52);
    assert_eq!(Binary64::one().to_bits(), 1.0f64.to_bits());
    assert_eq!(Binary64::positive_zero().to_bits(), 0.0f64.to_bits());
}

#[test]
fn bits_go_in_and_come_out() {
    for x in samples() {
        assert_eq!(b(x).to_bits(), x.to_bits());
        assert_eq!(b(x).bits, x.to_bits());
    }
    assert_eq!(Binary64::from_bits(0x4008_0000_0000_0000).to_bits(), 3.0f64.to_bits());
}

#[test]
fn classes_agree_with_the_hardware() {
    for x in samples() {
        assert_eq!(b(x).is_nan(), x.is_nan(), "is_nan of {:?}", x);
        assert_eq!(b(x).is_infinite(), x.is_infinite(), "is_infinite of {:?}", x);
        assert_eq!(b(x).is_finite(), x.is_finite(), "is_finite of {:?}", x);
        assert_eq!(b(x).is_sign_negative(), x.is_sign_negative(), "sign of {:?}", x);
        assert_eq!(b(x).is_zero(), x == 0.0, "is_zero of {:?}", x);
    }
}

#[test]
fn class_edge_cases() {
    assert!(b(f64::NAN).is_nan());
    assert!(!b(f64::NAN).is_finite());
    assert!(!b(f64::NAN).is_infinite());
    assert!(b(f64::INFINITY).is_infinite());
    assert!(b(f64::NEG_INFINITY).is_infinite());
    assert!(!b(f64::INFINITY).is_finite());
    assert!(b(f64::MAX).is_finite());
    assert!(b(5e-324).is_finite());
    assert!(b(-0.0).is_zero());
    assert!(b(-0.0).is_sign_negative());
    assert!(!b(0.0).is_sign_negative());
    assert!(!b(5e-324).is_zero());
}

#[test]
fn negate_and_abs_agree_with_the_hardware() {
    for x in samples() {
        assert_eq!(b(x).negate().to_bits(), (-x).to_bits(), "negation of {:?}", x);
        assert_eq!(b(x).abs().to_bits(), x.abs().to_bits(), "abs of {:?}", x);
    }
}

#[test]
fn negate_changes_the_value() {
    assert_eq!(b(1.0).negate().to_bits(), (-1.0f64).to_bits());
    assert_eq!(b(0.0).negate().to_bits(), 0x8000_0000_0000_0000);
    assert_eq!(b(-2.5).negate().to_bits(), 2.5f64.to_bits());
    assert_eq!(b(-2.5).abs().to_bits(), 2.5f64.to_bits());
    assert_eq!(b(2.5).negate().negate().to_bits(), 2.5f64.to_bits());
}

#[test]
fn comparisons_agree_with_the_hardware() {
    for x in samples() {
        for y in samples() {
            assert_eq!(b(x).lt(&b(y)), x < y, "{:?} < {:?}", x, y);
            assert_eq!(b(x).le(&b(y)), x <= y, "{:?} <= {:?}", x, y);
            assert_eq!(b(x).gt(&b(y)), x > y, "{:?} > {:?}", x, y);
            assert_eq!(b(x).ge(&b(y)), x >= y, "{:?} >= {:?}", x, y);
            assert_eq!(b(x) == b(y), x == y, "{:?} == {:?}", x, y);
            assert_eq!(b(x) != b(y), x != y, "{:?} != {:?}", x, y);
        }
    }
}

#[test]
fn comparison_edge_cases() {
    assert!(b(0.0) == b(-0.0));
    assert!(!b(-0.0).lt(&b(0.0)));
    assert!(b(-0.0).le(&b(0.0)));
    assert!(b(-0.0).ge(&b(0.0)));
    assert!(b(f64::NAN) != b(f64::NAN));
    assert!(!b(f64::NAN).le(&b(f64::NAN)));
    assert!(!b(f64::NAN).lt(&b(1.0)));
    assert!(!b(1.0).lt(&b(f64::NAN)));
    assert!(b(f64::NEG_INFINITY).lt(&b(f64::MIN)));
    assert!(b(f64::MAX).lt(&b(f64::INFINITY)));
    assert!(b(-5e-324).lt(&b(5e-324)));
    assert!(b(-1.0).lt(&b(-0.5)));
    assert!(b(-0.5).gt(&b(-1.0)));
    assert!(b(1.0).lt(&b(2.0)));
    assert!(!b(2.0).lt(&b(1.0)));
    assert!(!b(1.0).lt(&b(1.0)));
}

#[test]
fn order_is_strict_and_total_off_nan() {
    for x in samples() {
        assert!(!b(x).lt(&b(x)));
        for y in samples() {
            if b(x).lt(&b(y)) {
                assert!(!b(y).lt(&b(x)));
            }
            if !x.is_nan() && !y.is_nan() {
                assert!(b(x).lt(&b(y)) || b(x) == b(y) || b(y).lt(&b(x)));
            }
            assert_eq!(b(x).lt(&b(y)), b(y).negate().lt(&b(x).negate()));
        }
    }
}

fn patterns() -> Vec<u64> {
    let mut state: u64 = 0x9e37_79b9_7f4a_7c15;
    let mut out = Vec::new();
    for _ in 0..400 {
        state = state.wrapping_mul(6364136223846793005).wrapping_add(1442695040888963407);
        out.push(state);
        out.push(state >> 12);
        out.push(state | 0x7ff0_0000_0000_0000);
    }
    out
}

#[test]
fn a_sweep_of_patterns_agrees_with_the_hardware() {
    let all = patterns();
    for &p in &all {
        let x = f64::from_bits(p);
        let v = Binary64::from_bits(p);
        assert_eq!(v.is_nan(), x.is_nan());
        assert_eq!(v.is_finite(), x.is_finite());
        assert_eq!(v.is_infinite(), x.is_infinite());
        assert_eq!(v.is_sign_negative(), x.is_sign_negative());
        assert_eq!(v.is_zero(), x == 0.0);
        assert_eq!(v.negate().to_bits(), (-x).to_bits());
        assert_eq!(v.abs().to_bits(), x.abs().to_bits());
    }
    for &p in all.iter().take(300) {
        for &q in all.iter().rev().take(300) {
            let (x, y) = (f64::from_bits(p), f64::from_bits(q));
            let (v, w) = (Binary64::from_bits(p), Binary64::from_bits(q));
            assert_eq!(v.lt(&w), x < y);
            assert_eq!(v.le(&w), x <= y);
            assert_eq!(v.gt(&w), x > y);
            assert_eq!(v.ge(&w), x >= y);
            assert_eq!(v == w, x == y);
        }
    }
}

#[test]
fn decode_of_known_values() {
    assert_eq!(b(1.0).decode(), (false, 1u64 << 52, -52));
    assert_eq!(b(-8.0).decode(), (true, 1u64 << 52, -49));
    assert_eq!(b(3.0).decode(), (false, 3u64 << 51, -51));
    assert_eq!(b(0.0).decode(), (false, 0, -1074));
    assert_eq!(b(-0.0).decode(), (true, 0, -1074));
    assert_eq!(b(5e-324).decode(), (false, 1, -1074));
    assert_eq!(b(f64::MIN_POSITIVE).decode(), (false, 1u64 << 52, -1074));
    assert_eq!(b(f64::MAX).decode(), (false, (1u64 << 53) - 1, 971));
    assert_eq!(b(1.0e-17).decode(), (false, 6490371073168535, -109));
}

#[test]
fn decode_gives_the_value_back() {
    let mut all: Vec<f64> = samples();
    all.extend(patterns().into_iter().map(f64::from_bits));
    for x in all {
        if !x.is_finite() {
            continue;
        }
        let (negative, significand, exponent) = b(x).decode();
        assert!(significand < (1u64 << 53));
        let low = exponent / 2;
        let value = (significand as f64) * 2f64.powi(low) * 2f64.powi(exponent - low);
        assert_eq!(value.to_bits(), x.abs().to_bits(), "magnitude of {:?}", x);
        assert_eq!(negative, x.is_sign_negative());
    }
}
