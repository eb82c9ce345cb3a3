use audio_limiter::ieee::{
    check_negative32, check_zero, clear_sign, less_than, INFINITY, INFINITY32, ONE, SIGN, SIGN32,
    ZERO,
};

fn samples64() -> Vec<f64> {
    vec![
        0.0,
        -0.0,
        1.0,
        -1.0,
        0.5,
        -0.5,
        2.0,
        -2.0,
        1e-310,
        -1e-310,
        f64::MIN_POSITIVE,
        -f64::MIN_POSITIVE,
        f64::MAX,
        f64::MIN,
        f64::EPSILON,
        1.0 + f64::EPSILON,
        1.0 - f64::EPSILON / 2.0,
        0.501187233627272,
        3.141592653589793,
        -3.141592653589793,
        f64::INFINITY,
        f64::NEG_INFINITY,
        f64::NAN,
        -f64::NAN,
        f64::from_bits(0x7FF0_0000_0000_0001),
        f64::from_bits(0xFFFF_FFFF_FFFF_FFFF),
    ]
}

fn samples32() -> Vec<f32> {
    vec![
        0.0,
        -0.0,
        1.0,
        -1.0,
        20.0,
        -20.0,
        1e-40,
        -1e-40,
        f32::MIN_POSITIVE,
        -f32::MIN_POSITIVE,
        f32::MAX,
        f32::MIN,
        f32::INFINITY,
        f32::NEG_INFINITY,
        f32::NAN,
        -f32::NAN,
        f32::from_bits(0x7F80_0001),
        f32::from_bits(0xFF80_0001),
        f32::from_bits(0xFFFF_FFFF),
    ]
}

#[test]
fn constants_are_the_patterns_they_name() {
    assert_eq!(ONE, 1.0f64.to_bits());
    assert_eq!(ZERO, 0.0f64.to_bits());
    assert_eq!(SIGN, (-0.0f64).to_bits());
    assert_eq!(INFINITY, f64::INFINITY.to_bits());
    assert_eq!(SIGN32, (-0.0f32).to_bits());
    assert_eq!(INFINITY32, f32::INFINITY.to_bits());
}

#[test]
fn clear_sign_is_the_absolute_value() {
    for x in samples64() {
        assert_eq!(clear_sign(x.to_bits()), x.abs().to_bits(), "{x:?}");
    }
    assert_eq!(clear_sign((-1.0f64).to_bits()), 0x3FF0_0000_0000_0000);
}

#[test]
fn check_zero_agrees_with_the_hardware() {
    for x in samples64() {
        assert_eq!(check_zero(x.to_bits()), x == 0.0, "{x:?}");
    }
    assert!(check_zero(0x8000_0000_0000_0000));
    assert!(!check_zero(1));
}

#[test]
fn less_than_agrees_with_the_hardware() {
    for a in samples64() {
        for b in samples64() {
            assert_eq!(less_than(a.to_bits(), b.to_bits()), a < b, "{a:?} < {b:?}");
        }
    }
}

#[test]
fn less_than_on_chosen_patterns() {
    // 0.5 < 1.0
    assert!(less_than(0x3FE0_0000_0000_0000, 0x3FF0_0000_0000_0000));
    // -1.0 < -0.5, and not the other way round
    assert!(less_than(0xBFF0_0000_0000_0000, 0xBFE0_0000_0000_0000));
    assert!(!less_than(0xBFE0_0000_0000_0000, 0xBFF0_0000_0000_0000));
    // the two zeros are equal
    assert!(!less_than(0x8000_0000_0000_0000, 0));
    assert!(!less_than(0, 0x8000_0000_0000_0000));
    // nothing is below or above a NaN
    assert!(!less_than(0x7FF8_0000_0000_0000, 0x3FF0_0000_0000_0000));
    assert!(!less_than(0x3FF0_0000_0000_0000, 0x7FF8_0000_0000_0000));
    // irreflexive
    assert!(!less_than(0x3FF0_0000_0000_0000, 0x3FF0_0000_0000_0000));
}

#[test]
fn check_negative32_agrees_with_the_hardware() {
    for x in samples32() {
        assert_eq!(check_negative32(x.to_bits()), x < 0.0, "{x:?}");
    }
    assert!(check_negative32(0xBF80_0000));
    assert!(!check_negative32(0x8000_0000));
    assert!(!check_negative32(0x3F80_0000));
    assert!(check_negative32(0xFF80_0000));
    assert!(!check_negative32(0xFF80_0001));
}

/// A small deterministic generator of bit patterns.
fn next_pattern(state: &mut u64) -> u64 {
    *state ^= *state << 13;
    *state ^= *state >> 7;
    *state ^= *state << 17;
    *state
}

#[test]
fn less_than_agrees_with_the_hardware_on_many_patterns() {
    let mut state = 0x9E37_79B9_7F4A_7C15u64;
    for _ in 0..200_000 {
        let a = next_pattern(&mut state);
        let b = next_pattern(&mut state);
        assert_eq!(less_than(a, b), f64::from_bits(a) < f64::from_bits(b), "{a:#x} < {b:#x}");
        // neighbours, where an order on the patterns is most easily wrong
        let c = a.wrapping_add(1);
        assert_eq!(less_than(a, c), f64::from_bits(a) < f64::from_bits(c), "{a:#x} < {c:#x}");
        assert_eq!(less_than(c, a), f64::from_bits(c) < f64::from_bits(a), "{c:#x} < {a:#x}");
        let d = a ^ SIGN;
        assert_eq!(less_than(a, d), f64::from_bits(a) < f64::from_bits(d), "{a:#x} < {d:#x}");
    }
}

#[test]
fn check_zero_and_clear_sign_agree_with_the_hardware_on_many_patterns() {
    let mut state = 0x2545_F491_4F6C_DD1Du64;
    for _ in 0..100_000 {
        let a = next_pattern(&mut state);
        assert_eq!(check_zero(a), f64::from_bits(a) == 0.0);
        assert_eq!(clear_sign(a), f64::from_bits(a).abs().to_bits());
    }
}

#[test]
fn check_negative32_agrees_with_the_hardware_on_many_patterns() {
    let mut state = 0xD1B5_4A32_D192_ED03u64;
    for _ in 0..200_000 {
        let a = (next_pattern(&mut state) >> 32) as u32;
        assert_eq!(check_negative32(a), f32::from_bits(a) < 0.0, "{a:#x}");
    }
    for a in [0x7F7F_FFFFu32, 0x7F80_0000, 0x7F80_0001, 0xFF7F_FFFF, 0xFF80_0000, 0xFF80_0001, 0x8000_0001] {
        assert_eq!(check_negative32(a), f32::from_bits(a) < 0.0, "{a:#x}");
    }
}
