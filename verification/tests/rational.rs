use rate_util::Rate;
use rate_util::RateError;
use rate_util::SerRate;

#[test]
fn test_rate_from() {
    assert_eq!(SerRate::from(Rate::new(42, 2)), SerRate::new(21, 1));
    assert_eq!(Rate::from_ser(SerRate::new(42, 2)).unwrap(), Rate::new(21, 1));
}

#[test]
fn round_trip_via_arithmetic() {
    let samples = [
        (1i64, 2i64),
        (-7, 3),
        (0, 9),
        (42, 2),
        (-100, -40),
        (i64::MIN, 2),
        (i64::MAX, i64::MAX),
    ];
    for (n, d) in samples {
        let a = Rate::new(n, d);
        let back = Rate::from_ser(SerRate::from(a)).unwrap();
        assert_eq!(back, a);
    }
}

#[test]
fn reduction_on_conversion() {
    let r = Rate::from_ser(SerRate::new(42, 2)).unwrap();
    assert_eq!((r.numer(), r.denom()), (21, 1));
    // A negative denominator's sign moves to the numerator.
    let r = Rate::from_ser(SerRate::new(3, -6)).unwrap();
    assert_eq!((r.numer(), r.denom()), (-1, 2));
    let r = Rate::from_ser(SerRate::new(-3, -6)).unwrap();
    assert_eq!((r.numer(), r.denom()), (1, 2));
}

#[test]
fn matches_num_rational() {
    let q = num_rational::Rational64::new(42, -12);
    let r = Rate::new(42, -12);
    assert_eq!((r.numer(), r.denom()), (*q.numer(), *q.denom()));
}

#[test]
fn no_implicit_reduction_on_interchange() {
    let s = SerRate::new(42, 2);
    assert_eq!(s.numer(), 42);
    assert_eq!(s.denom(), 2);
    let reduced = SerRate::from(Rate::new(42, 2));
    assert_eq!(reduced.numer(), 21);
    assert_eq!(reduced.denom(), 1);
}

#[test]
fn zero_denominator_rejected() {
    assert_eq!(
        Rate::from_ser(SerRate::new(5, 0)),
        Err(RateError::DivisionByZero)
    );
    assert_eq!(
        Rate::from_ser(SerRate::new(0, 0)),
        Err(RateError::DivisionByZero)
    );
}

#[test]
fn structural_equality() {
    assert_ne!(SerRate::new(1, 2), SerRate::new(2, 4));
    assert_eq!(SerRate::new(1, 2), SerRate::new(1, 2));
}

#[test]
fn fraction_string_literal() {
    assert_eq!(SerRate::new(-3, 4).to_fraction_string(), "-3/4");
    assert_eq!(SerRate::new(21, 1).to_fraction_string(), "21/1");
    assert_eq!(SerRate::new(0, 5).to_fraction_string(), "0/5");
}

#[test]
fn fraction_string_negative_denominator() {
    assert_eq!(SerRate::new(3, -4).to_fraction_string(), "3/-4");
    assert_eq!(
        SerRate::new(i64::MIN, 0).to_fraction_string(),
        "-9223372036854775808/0"
    );
}

#[test]
fn zero_numerator_normalizes() {
    let r = Rate::from_ser(SerRate::new(0, -7)).unwrap();
    assert_eq!((r.numer(), r.denom()), (0, 1));
    let r = Rate::from_ser(SerRate::new(0, i64::MIN)).unwrap();
    assert_eq!((r.numer(), r.denom()), (0, 1));
}

#[test]
fn reduction_extreme_magnitudes() {
    let r = Rate::new(i64::MIN, 2);
    assert_eq!((r.numer(), r.denom()), (i64::MIN / 2, 1));
    let r = Rate::new(i64::MIN, i64::MIN);
    assert_eq!((r.numer(), r.denom()), (1, 1));
    let r = Rate::new(2, i64::MIN);
    assert_eq!((r.numer(), r.denom()), (-1, 1i64 << 62));
    let r = Rate::new(i64::MIN, 3);
    assert_eq!((r.numer(), r.denom()), (i64::MIN, 3));
}
