use decimator::coef::{coef_numerators, coef_shifts};
use decimator::engine::{process, process_by_index, EdgePolicy};

/// The 91 tap values as doubles, reconstructed exactly from the library's
/// dyadic table: numerator * 2^-shift.
fn coefficients() -> Vec<f64> {
    coef_numerators()
        .iter()
        .zip(coef_shifts().iter())
        .map(|(m, s)| (*m as f64) * (0.5f64).powi(*s as i32))
        .collect()
}

/// The convolution values the engine expects: for every position with a
/// full tap window (position 90 onward), the double-precision dot product
/// of the window with the taps, truncated toward zero.
fn dots_for(input: &[i16]) -> Vec<i64> {
    let c = coefficients();
    let n = input.len();
    let mut dots = Vec::new();
    if n > 90 {
        for i in 90..n {
            let mut acc: f64 = 0.0;
            for k in 0..91 {
                acc += c[k] * input[i - 90 + k] as f64;
            }
            dots.push(acc as i64);
        }
    }
    dots
}

fn run(input: &[i16]) -> Vec<i16> {
    process(EdgePolicy::PassThrough, &input.to_vec(), &dots_for(input))
}

#[test]
fn output_length_is_ceil_half() {
    for n in [0usize, 1, 2, 3, 10, 89, 90, 91, 92, 200, 333] {
        let input = vec![7i16; n];
        let out = run(&input);
        assert_eq!(out.len(), n.div_ceil(2), "length {n}");
    }
}

#[test]
fn zero_input_gives_zero_output() {
    let input = vec![0i16; 200];
    let out = run(&input);
    assert_eq!(out.len(), 100);
    assert!(out.iter().all(|&s| s == 0));
}

#[test]
fn empty_input_gives_empty_output() {
    assert!(run(&[]).is_empty());
}

#[test]
fn short_input_passes_through_even_positions() {
    let input: Vec<i16> = vec![5, -9, 1000, 44, -32768, 77, 32767, 0, -3, 8];
    let out = run(&input);
    // Pass-through edge policy, decimation keeps even positions, and the
    // quantizer still saturates at the symmetric bound.
    assert_eq!(out, vec![5, 1000, -32767, 32767, -3]);
}

#[test]
fn short_input_odd_length() {
    let input: Vec<i16> = vec![1, 2, 3, 4, 5, 6, 7];
    assert_eq!(run(&input), vec![1, 3, 5, 7]);
}

#[test]
fn dc_input_is_preserved_in_filtered_region() {
    let input = vec![1000i16; 300];
    let out = run(&input);
    assert_eq!(out.len(), 150);
    // Positions before the first full window pass through unchanged; the
    // filtered positions carry the DC level times the near-unity gain.
    for (j, &s) in out.iter().enumerate() {
        if 2 * j < 90 {
            assert_eq!(s, 1000, "pass-through slot {j}");
        } else {
            assert_eq!(s, 1000, "filtered slot {j}");
        }
    }
}

#[test]
fn parallel_and_sequential_schedules_agree() {
    // Deterministic pseudo-random input.
    let mut x: u32 = 0x2468ace1;
    let input: Vec<i16> = (0..500)
        .map(|_| {
            x = x.wrapping_mul(1664525).wrapping_add(1013904223);
            (x >> 16) as i16
        })
        .collect();
    let dots = dots_for(&input);
    let a = process(EdgePolicy::PassThrough, &input, &dots);
    let b = process_by_index(EdgePolicy::PassThrough, &input, &dots);
    assert_eq!(a, b);
}

#[test]
fn edge_policies_differ_only_at_the_bound() {
    let input: Vec<i16> = vec![-32768, 5, 17, -32768, -32768];
    let dots = dots_for(&input);
    let pass = process(EdgePolicy::PassThrough, &input, &dots);
    let raw = process(EdgePolicy::RawCast, &input, &dots);
    assert_eq!(pass, vec![-32767, 17, -32767]);
    assert_eq!(raw, vec![-32768, 17, -32768]);
}
