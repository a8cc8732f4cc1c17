use soft_dp::ieee754::{check_finite_bits, check_positive_finite_bits, POSITIVE_INFINITY_BITS};

#[test]
fn finiteness_of_bit_patterns_matches_the_values() {
    for v in [0.0f64, -0.0, 1.0, -1.0, 5e-324, -5e-324, f64::MAX, f64::MIN, 1e300] {
        assert!(check_finite_bits(v.to_bits()), "{v} should be finite");
    }
    for v in [f64::INFINITY, f64::NEG_INFINITY, f64::NAN, -f64::NAN] {
        assert!(!check_finite_bits(v.to_bits()), "{v} should not be finite");
    }
}

#[test]
fn positive_finite_bit_patterns_match_the_values() {
    for v in [0.5f64, 1.0, 1e-3, 5e-324, f64::MAX] {
        assert!(check_positive_finite_bits(v.to_bits()), "{v} should be accepted");
    }
    for v in [0.0f64, -0.0, -1.0, f64::INFINITY, f64::NEG_INFINITY, f64::NAN] {
        assert!(!check_positive_finite_bits(v.to_bits()), "{v} should be rejected");
    }
}

#[test]
fn the_infinity_constant_is_the_bit_pattern_of_positive_infinity() {
    assert_eq!(POSITIVE_INFINITY_BITS, f64::INFINITY.to_bits());
}
