use decimator::quantizer::quantize_trunc;

/// The full quantizer on a real-valued filter output: truncate toward zero
/// (the `as i64` cast) and saturate at the symmetric 16-bit bound.
fn quantize(x: f64) -> i16 {
    quantize_trunc(x as i64)
}

#[test]
fn saturates_high() {
    assert_eq!(quantize(40000.0), 32767);
}

#[test]
fn saturates_low() {
    assert_eq!(quantize(-40000.0), -32767);
}

#[test]
fn truncates_toward_zero() {
    assert_eq!(quantize(100.7), 100);
    assert_eq!(quantize(-100.7), -100);
    assert_eq!(quantize(0.0), 0);
}

#[test]
fn symmetric_bound() {
    assert_eq!(quantize(32767.0), 32767);
    assert_eq!(quantize(-32767.0), -32767);
    assert_eq!(quantize(-32768.0), -32767);
    assert_eq!(quantize_trunc(i64::MAX), 32767);
    assert_eq!(quantize_trunc(i64::MIN), -32767);
}

#[test]
fn in_range_everywhere() {
    let mut x: f64 = -50000.0;
    while x < 50000.0 {
        let q = quantize(x);
        assert!((-32767..=32767).contains(&(q as i32)));
        x += 13.7;
    }
}
