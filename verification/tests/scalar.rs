use too_many_cooks::scalar::{Scalar, Vec2};

fn s(x: f32) -> Scalar {
    Scalar::from_bits(x.to_bits())
}

fn samples() -> Vec<f32> {
    vec![
        0.0,
        -0.0,
        1.0,
        -1.0,
        0.5,
        -0.5,
        300.0,
        400.0,
        -600.0,
        600.0,
        601.0,
        1.0e-45,
        -1.0e-45,
        1.1754944e-38,
        3.4028235e38,
        -3.4028235e38,
        f32::INFINITY,
        f32::NEG_INFINITY,
        f32::NAN,
        -f32::NAN,
    ]
}

#[test]
fn lt_agrees_with_the_hardware_on_every_pair() {
    for a in samples() {
        for b in samples() {
            assert_eq!(s(a).lt(s(b)), a < b, "{} < {}", a, b);
        }
    }
}

#[test]
fn gt_agrees_with_the_hardware_on_every_pair() {
    for a in samples() {
        for b in samples() {
            assert_eq!(s(a).gt(s(b)), a > b, "{} > {}", a, b);
        }
    }
}

#[test]
fn same_value_agrees_with_the_hardware_on_every_pair() {
    for a in samples() {
        for b in samples() {
            assert_eq!(s(a).same_value(s(b)), a == b, "{} == {}", a, b);
        }
    }
}

#[test]
fn neg_flips_the_sign_bit_as_the_hardware_does() {
    for a in samples() {
        assert_eq!(s(a).neg().to_bits(), (-a).to_bits());
    }
}

#[test]
fn neg_of_six_hundred_is_its_exact_opposite() {
    assert_eq!(s(600.0).neg().to_bits(), 0xc416_0000);
    assert_eq!(s(600.0).to_bits(), 0x4416_0000);
}

#[test]
fn is_nan_and_is_zero_agree_with_the_hardware() {
    for a in samples() {
        assert_eq!(s(a).is_nan(), a.is_nan());
        assert_eq!(s(a).is_zero(), a == 0.0);
    }
}

#[test]
fn the_two_zeros_are_equal_and_unordered() {
    assert!(s(0.0).same_value(s(-0.0)));
    assert!(!s(-0.0).lt(s(0.0)));
    assert!(!s(0.0).gt(s(-0.0)));
}

#[test]
fn nan_compares_false_with_everything() {
    let nan = s(f32::NAN);
    assert!(!nan.lt(s(1.0)));
    assert!(!nan.gt(s(1.0)));
    assert!(!nan.same_value(nan));
}

#[test]
fn new_zero_is_positive_zero() {
    assert_eq!(Scalar::new_zero().to_bits(), 0.0f32.to_bits());
    assert_eq!(Vec2::new_zero(), Vec2::new(s(0.0), s(0.0)));
}

#[test]
fn vectors_are_the_same_component_by_component() {
    let a = Vec2::new(s(0.0), s(50.0));
    let b = Vec2::new(s(-0.0), s(50.0));
    let c = Vec2::new(s(0.0), s(51.0));
    assert!(a.same_value(b));
    assert!(!a.same_value(c));
    assert!(!Vec2::new(s(f32::NAN), s(0.0)).same_value(Vec2::new(s(f32::NAN), s(0.0))));
}
