use single_phase_line::double::{HIDDEN_ONE, INFINITY_MAGNITUDE, SIGN_BIT};
use single_phase_line::engine::{laminar_limit, LAMINAR_LIMIT_BITS};
use single_phase_line::Double;

fn d(x: f64) -> Double {
    Double::from_bits(x.to_bits())
}

fn samples() -> Vec<f64> {
    vec![
        0.0,
        -0.0,
        f64::from_bits(1),
        -f64::from_bits(1),
        f64::MIN_POSITIVE,
        -f64::MIN_POSITIVE,
        f64::from_bits(f64::MIN_POSITIVE.to_bits() - 1),
        1.0e-300,
        0.5,
        -0.5,
        1.0,
        -1.0,
        1.0 + f64::EPSILON,
        2.0,
        64.0,
        2299.9999999999995,
        2300.0,
        2300.0000000000005,
        -2300.0,
        2933428.365900389,
        1.0e300,
        f64::MAX,
        f64::MIN,
        f64::INFINITY,
        f64::NEG_INFINITY,
        f64::NAN,
        -f64::NAN,
        f64::from_bits(0x7ff0_0000_0000_0001),
        f64::from_bits(0xffff_ffff_ffff_ffff),
    ]
}

#[test]
fn bits_go_in_and_come_out_unchanged() {
    for x in samples() {
        assert_eq!(d(x).to_bits(), x.to_bits());
        assert_eq!(Double::from_bits(x.to_bits()).bits, x.to_bits());
    }
}

#[test]
fn the_constants_are_those_of_binary64() {
    assert_eq!(SIGN_BIT, (-0.0_f64).to_bits());
    assert_eq!(INFINITY_MAGNITUDE, f64::INFINITY.to_bits());
    assert_eq!(HIDDEN_ONE, 1_u64 << 52);
    assert_eq!(LAMINAR_LIMIT_BITS, 2300.0_f64.to_bits());
    assert_eq!(laminar_limit(), d(2300.0));
}

#[test]
fn is_zero_agrees_with_comparing_to_zero() {
    for x in samples() {
        assert_eq!(d(x).is_zero(), x == 0.0, "{:?}", x);
    }
    assert!(d(0.0).is_zero());
    assert!(d(-0.0).is_zero());
    assert!(!d(f64::from_bits(1)).is_zero());
    assert!(!d(f64::NAN).is_zero());
}

#[test]
fn is_nan_agrees_with_the_hardware() {
    for x in samples() {
        assert_eq!(d(x).is_nan(), x.is_nan(), "{:?}", x);
    }
}

#[test]
fn sign_and_magnitude_split_the_bits() {
    for x in samples() {
        assert_eq!(d(x).is_sign_negative(), x.is_sign_negative(), "{:?}", x);
        assert_eq!(d(x).magnitude(), x.abs().to_bits(), "{:?}", x);
    }
}

#[test]
fn le_agrees_with_the_hardware_comparison() {
    for a in samples() {
        for b in samples() {
            assert_eq!(d(a).le(d(b)), a <= b, "{:?} <= {:?}", a, b);
        }
    }
}

#[test]
fn le_orders_the_zeros_as_equal_and_no_nan_at_all() {
    assert!(d(0.0).le(d(-0.0)));
    assert!(d(-0.0).le(d(0.0)));
    assert!(!d(f64::NAN).le(d(f64::NAN)));
    assert!(!d(f64::NAN).le(d(f64::INFINITY)));
    assert!(!d(f64::NEG_INFINITY).le(d(f64::NAN)));
    assert!(d(f64::NEG_INFINITY).le(d(f64::INFINITY)));
    assert!(!d(f64::INFINITY).le(d(f64::MAX)));
}

#[test]
fn le_at_the_laminar_limit() {
    let limit = laminar_limit();
    assert!(d(2300.0).le(limit));
    assert!(Double::from_bits(LAMINAR_LIMIT_BITS - 1).le(limit));
    assert!(!Double::from_bits(LAMINAR_LIMIT_BITS + 1).le(limit));
    assert!(d(-1.0e9).le(limit));
    assert!(d(0.0).le(limit));
}
