use polyprops::scalar::{constant, is_negative, magnitude};

#[test]
fn constants_stand_for_small_integers() {
    assert_eq!(constant::<f64>(0), 0.0);
    assert_eq!(constant::<f64>(2), 2.0);
    assert_eq!(constant::<f64>(6), 6.0);
    assert_eq!(constant::<i64>(6), 6);
    assert_eq!(constant::<f32>(-3), -3.0);
}

#[test]
fn negative_means_below_zero() {
    assert!(is_negative(-1.5f64));
    assert!(is_negative(f64::NEG_INFINITY));
    assert!(!is_negative(0.0f64));
    assert!(!is_negative(-0.0f64));
    assert!(!is_negative(2.0f64));
    assert!(!is_negative(f64::NAN));
    assert!(is_negative(-1i32));
    assert!(!is_negative(0i32));
}

#[test]
fn magnitude_is_the_absolute_value() {
    assert_eq!(magnitude(-2.5f64), 2.5);
    assert_eq!(magnitude(2.5f64), 2.5);
    assert_eq!(magnitude(f64::NEG_INFINITY), f64::INFINITY);
    assert_eq!(magnitude(f64::INFINITY), f64::INFINITY);
    assert_eq!(magnitude(-7i64), 7);
    assert_eq!(magnitude(7i64), 7);
    assert_eq!(magnitude(0i64), 0);
}

#[test]
fn magnitude_of_either_zero_is_positive_zero() {
    assert_eq!(magnitude(0.0f64).to_bits(), 0.0f64.to_bits());
    assert_eq!(magnitude(-0.0f64).to_bits(), 0.0f64.to_bits());
}

#[test]
fn magnitude_keeps_what_is_no_number() {
    assert!(magnitude(f64::NAN).is_nan());
}
