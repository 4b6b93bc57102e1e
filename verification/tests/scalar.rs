use gravity_sandbox::scalar::{Scalar, Vec2, INFINITY_BITS, SIGN_BIT};

fn samples() -> Vec<f32> {
    vec![
        0.0,
        -0.0,
        1.0,
        -1.0,
        0.1,
        -0.1,
        10.0,
        100.0,
        -50.0,
        50.0,
        1.0e-40,
        -1.0e-40,
        f32::MIN_POSITIVE,
        f32::MAX,
        f32::MIN,
        f32::INFINITY,
        f32::NEG_INFINITY,
        f32::NAN,
        -f32::NAN,
        6.67430e-11,
    ]
}

fn scalar(value: f32) -> Scalar {
    Scalar::from_bits(value.to_bits())
}

#[test]
fn bit_constants_are_the_ieee_patterns() {
    assert_eq!(INFINITY_BITS, f32::INFINITY.to_bits());
    assert_eq!(SIGN_BIT, (-0.0f32).to_bits());
    assert_eq!(Scalar::zero().to_bits(), 0.0f32.to_bits());
    assert_eq!(Vec2::zero(), Vec2::from_bits(0, 0));
}

#[test]
fn from_bits_and_to_bits_round_trip() {
    for value in samples() {
        assert_eq!(scalar(value).to_bits(), value.to_bits());
    }
    assert_eq!(Scalar::from_bits(0x4120_0000).to_bits(), 10.0f32.to_bits());
}

#[test]
fn classification_agrees_with_the_numbers() {
    for value in samples() {
        let s = scalar(value);
        assert_eq!(s.is_nan(), value.is_nan(), "is_nan of {value}");
        assert_eq!(s.is_finite(), value.is_finite(), "is_finite of {value}");
        assert_eq!(s.is_zero(), value == 0.0, "is_zero of {value}");
        assert_eq!(s.is_positive(), value.is_finite() && value > 0.0, "is_positive of {value}");
    }
}

#[test]
fn equality_agrees_with_the_numbers() {
    for a in samples() {
        for b in samples() {
            assert_eq!(scalar(a).equals(scalar(b)), a == b, "{a} == {b}");
        }
    }
}

#[test]
fn order_agrees_with_the_numbers() {
    for a in samples() {
        for b in samples() {
            assert_eq!(scalar(a).at_most(scalar(b)), a <= b, "{a} <= {b}");
        }
    }
}

#[test]
fn the_two_zeros_are_equal_and_nan_equals_nothing() {
    assert!(scalar(0.0).equals(scalar(-0.0)));
    assert!(!scalar(f32::NAN).equals(scalar(f32::NAN)));
    assert!(!scalar(1.0).equals(scalar(-1.0)));
}

#[test]
fn coinciding_points_are_told_from_distinct_ones() {
    let a = Vec2::new(scalar(-50.0), scalar(0.0));
    let b = Vec2::new(scalar(50.0), scalar(0.0));
    let c = Vec2::new(scalar(-50.0), scalar(-0.0));
    assert!(!a.coincides(b));
    assert!(a.coincides(a));
    assert!(a.coincides(c));
    let broken = Vec2::new(scalar(f32::NAN), scalar(0.0));
    assert!(!broken.coincides(broken));
    assert!(!broken.is_finite());
    assert!(a.is_finite());
    assert!(!Vec2::new(scalar(0.0), scalar(f32::INFINITY)).is_finite());
}
