use telemetry_core::ieee::Ieee64;

fn d(v: f64) -> Ieee64 {
    Ieee64::from_bits(v.to_bits())
}

#[test]
fn comparisons_match_ieee() {
    let values = [
        f64::NEG_INFINITY,
        -1e300,
        -2.5,
        -0.0,
        0.0,
        5e-324,
        1.0,
        5400.25,
        f64::INFINITY,
        f64::NAN,
        -f64::NAN,
    ];
    for a in values {
        for b in values {
            assert_eq!(d(a).less_than(&d(b)), a < b, "{} < {}", a, b);
            assert_eq!(d(a).at_most(&d(b)), a <= b, "{} <= {}", a, b);
        }
        assert_eq!(d(a).is_nan(), a.is_nan());
    }
}

#[test]
fn zero_is_positive_zero() {
    assert_eq!(Ieee64::zero().bits, 0.0f64.to_bits());
}
