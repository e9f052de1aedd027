use matroska_demuxer::floatbits::{is_negative_f64_bits, widen_f32_bits};

#[test]
fn widening_binary32_bits_is_exact() {
    let values: Vec<f32> = vec![
        0.0,
        -0.0,
        1.0,
        -1.0,
        156.1251,
        8000.0,
        1.5e-45,
        -1.0e-40,
        3.4e38,
        f32::INFINITY,
        f32::NEG_INFINITY,
        f32::MIN_POSITIVE,
    ];
    for v in values {
        let widened = f64::from_bits(widen_f32_bits(v.to_bits()));
        assert_eq!(widened, v as f64);
        assert_eq!(widened.to_bits(), (v as f64).to_bits());
    }
}

#[test]
fn widened_nan_stays_nan() {
    let widened = f64::from_bits(widen_f32_bits(f32::NAN.to_bits()));
    assert!(widened.is_nan());
}

#[test]
fn negative_test_matches_float_compare() {
    let values: Vec<f64> = vec![0.0, -0.0, 1.0, -1.0, -1.0e-300, f64::INFINITY, f64::NEG_INFINITY];
    for v in values {
        assert_eq!(is_negative_f64_bits(v.to_bits()), v < 0.0);
    }
    // NaN does not compare below zero.
    assert!(!is_negative_f64_bits(f64::NAN.to_bits()));
}
