use hindmarsh_rose_v2::fbits;

fn battery() -> Vec<f64> {
    vec![
        0.0,
        -0.0,
        1.0,
        -1.0,
        0.5,
        -0.5,
        1000.0,
        -1000.0,
        1e-308,
        -1e-308,
        5e-324,
        -5e-324,
        f64::MAX,
        f64::MIN,
        f64::INFINITY,
        f64::NEG_INFINITY,
        f64::NAN,
        -f64::NAN,
        f64::EPSILON,
        2829.7,
        94527.4,
        -0.9013747551021072,
    ]
}

#[test]
fn bit_level_equality_matches_ieee_equality() {
    for &a in battery().iter() {
        for &b in battery().iter() {
            assert_eq!(
                fbits::f64_eq(a.to_bits(), b.to_bits()),
                a == b,
                "eq mismatch for {a:?} vs {b:?}"
            );
        }
    }
}

#[test]
fn bit_level_lt_matches_ieee_lt() {
    for &a in battery().iter() {
        for &b in battery().iter() {
            assert_eq!(
                fbits::f64_lt(a.to_bits(), b.to_bits()),
                a < b,
                "lt mismatch for {a:?} vs {b:?}"
            );
        }
    }
}

#[test]
fn bit_level_le_matches_ieee_le() {
    for &a in battery().iter() {
        for &b in battery().iter() {
            assert_eq!(
                fbits::f64_le(a.to_bits(), b.to_bits()),
                a <= b,
                "le mismatch for {a:?} vs {b:?}"
            );
        }
    }
}

#[test]
fn bit_level_classifications_match_std() {
    for &a in battery().iter() {
        assert_eq!(fbits::is_nan(a.to_bits()), a.is_nan(), "nan mismatch for {a:?}");
        assert_eq!(fbits::is_finite(a.to_bits()), a.is_finite(), "finite mismatch for {a:?}");
        assert_eq!(fbits::abs_bits(a.to_bits()), a.abs().to_bits(), "abs mismatch for {a:?}");
    }
}

#[test]
fn zero_comparisons_match_std() {
    for &a in battery().iter() {
        assert_eq!(fbits::le_zero(a.to_bits()), a <= 0.0, "le_zero mismatch for {a:?}");
        assert_eq!(fbits::gt_zero(a.to_bits()), a > 0.0, "gt_zero mismatch for {a:?}");
    }
}
