use decimator::coef::{coef_numerators, coef_shifts};

fn coefficients() -> Vec<f64> {
    coef_numerators()
        .iter()
        .zip(coef_shifts().iter())
        .map(|(m, s)| (*m as f64) * (0.5f64).powi(*s as i32))
        .collect()
}

#[test]
fn table_has_91_taps() {
    assert_eq!(coef_numerators().len(), 91);
    assert_eq!(coef_shifts().len(), 91);
}

#[test]
fn table_is_symmetric() {
    let nums = coef_numerators();
    let shifts = coef_shifts();
    for k in 0..91 {
        assert_eq!(nums[k], nums[90 - k]);
        assert_eq!(shifts[k], shifts[90 - k]);
    }
}

#[test]
fn table_encodes_the_design_values() {
    let c = coefficients();
    // Spot checks against the designed double-precision taps, bit-exact.
    assert_eq!(c[45], 0.45011339147505103);
    assert_eq!(c[44], 0.3142499866912212);
    assert_eq!(c[46], 0.3142499866912212);
    assert_eq!(c[0], 0.0007402732643054117);
    assert_eq!(c[90], 0.0007402732643054117);
}

#[test]
fn dc_gain_is_near_unity() {
    let s: f64 = coefficients().iter().sum();
    assert!((s - 1.0).abs() < 1e-12, "sum {s}");
}
