use vstd::prelude::*;

verus! {

/// Saturation bound of the quantizer. The bound is symmetric on purpose:
/// values below -32767 clamp to -32767, never to -32768. This asymmetry
/// relative to the full two's-complement range is a design decision kept
/// for bit-exact output, not an oversight.
pub open spec fn clamp_sat(t: int) -> int {
    if t > 32767 {
        32767
    } else if t < -32767 {
        -32767
    } else {
        t
    }
}

/// Quantize a filter output, already truncated toward zero to an integer,
/// into a signed 16-bit sample: saturate at the symmetric bound, never wrap.
pub fn quantize_trunc(t: i64) -> (r: i16)
    ensures
        r as int == clamp_sat(t as int),
        -32767 <= r as int <= 32767,
{
    if t > 32767 {
        32767
    } else if t < -32767 {
        -32767
    } else {
        t as i16
    }
}

} // verus!
