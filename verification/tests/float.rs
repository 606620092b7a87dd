use thiessen::Float;

fn f(v: f64) -> Float {
    Float::from_bits(v.to_bits())
}

const SAMPLES: [f64; 14] = [
    0.0,
    -0.0,
    1.0,
    -1.0,
    0.5,
    2.5,
    -3.25,
    1e-310,
    -1e-310,
    f64::MAX,
    f64::MIN,
    f64::INFINITY,
    f64::NEG_INFINITY,
    f64::NAN,
];

#[test]
fn comparisons_agree_with_f64() {
    for &a in &SAMPLES {
        for &b in &SAMPLES {
            assert_eq!(f(a).is_below(f(b)), a < b, "{a} < {b}");
            assert_eq!(f(a).is_at_most(f(b)), a <= b, "{a} <= {b}");
            assert_eq!(f(a).is_same_value(f(b)), a == b, "{a} == {b}");
        }
    }
}

#[test]
fn classification_agrees_with_f64() {
    for &a in &SAMPLES {
        assert_eq!(f(a).is_finite(), a.is_finite(), "{a}");
        assert_eq!(f(a).is_nan(), a.is_nan(), "{a}");
        assert_eq!(f(a).is_finite_positive(), a.is_finite() && a > 0.0, "{a}");
        assert_eq!(f(a).to_bits(), a.to_bits());
    }
    assert_eq!(f(-2.0).magnitude_bits(), 2.0f64.to_bits());
}

#[test]
fn equality_is_the_value_equality_of_f64() {
    assert_ne!(f(f64::NAN), f(f64::NAN));
    assert_eq!(f(0.0), f(-0.0));
    assert_eq!(f(2.5), f(2.5));
    let nan = thiessen::Config::new().with_k(f(f64::NAN));
    assert_ne!(nan, nan.clone());
    assert_eq!(
        thiessen::Config::new().with_k(f(0.0)),
        thiessen::Config::new().with_k(f(-0.0))
    );
}
