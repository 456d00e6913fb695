use vclip_media::float_bits::f64_bits_less;

fn lt(a: f64, b: f64) -> bool {
    f64_bits_less(a.to_bits(), b.to_bits())
}

#[test]
fn order_matches_f64_comparison() {
    let values = [
        f64::NEG_INFINITY, -1e300, -2.5, -1.0, -1e-300, -0.0, 0.0, 1e-300, 0.3, 0.4, 0.5, 1.0, 2.5,
        1e300, f64::INFINITY, f64::NAN,
    ];
    for a in values {
        for b in values {
            assert_eq!(lt(a, b), a < b, "{} < {}", a, b);
        }
    }
}

#[test]
fn zeros_are_equal_and_nan_unordered() {
    assert!(!lt(-0.0, 0.0));
    assert!(!lt(0.0, -0.0));
    assert!(!lt(f64::NAN, 1.0));
    assert!(!lt(1.0, f64::NAN));
    assert!(lt(0.3, 0.5));
}
