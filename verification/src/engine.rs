use vstd::prelude::*;

use crate::quantizer::clamp_sat;
use crate::quantizer::quantize_trunc;

verus! {

/// Number of taps in the FIR coefficient table.
pub const FILTER_LEN: usize = 91;

/// What the engine emits for a position whose tap window is incomplete,
/// that is, for the first `FILTER_LEN - 1` positions of the filtered
/// sequence. The two variants differ only on the one input value -32768.
#[derive(Clone, Copy, Debug, PartialEq, Eq, Structural)]
pub enum EdgePolicy {
    /// The default: the input sample is routed through the quantizer like
    /// any filtered value, so -32768 saturates to -32767 and every other
    /// sample passes unchanged.
    PassThrough,
    /// The input sample is emitted exactly as it is, with no saturation.
    RawCast,
}

/// Number of positions of the filtered sequence that a full tap window
/// covers: position `i` is filtered when `i >= FILTER_LEN - 1`, since the
/// causal window ending at `i` needs the `FILTER_LEN` samples at
/// `i - FILTER_LEN + 1 ..= i`. Earlier positions fall under the edge policy.
pub open spec fn filtered_count(n: int) -> int {
    if n >= FILTER_LEN - 1 {
        n - (FILTER_LEN - 1)
    } else {
        0
    }
}

/// Executable counterpart of `filtered_count`, for callers that prepare
/// the convolution values and must hand the engine exactly one value per
/// fully covered position.
pub fn filtered_count_exec(n: usize) -> (r: usize)
    ensures
        r == filtered_count(n as int),
{
    if n >= FILTER_LEN - 1 {
        n - (FILTER_LEN - 1)
    } else {
        0
    }
}

/// Length of the decimated output for an input of length `n`: every second
/// position starting at index 0 is kept, so the output has ceil(n / 2)
/// samples.
pub open spec fn out_len(n: int) -> int {
    (n + 1) / 2
}

/// What the chosen edge policy emits for one input sample.
pub open spec fn edge_sample(policy: EdgePolicy, s: i16) -> i16 {
    match policy {
        EdgePolicy::PassThrough => clamp_sat(s as int) as i16,
        EdgePolicy::RawCast => s,
    }
}

/// What one independent evaluation of output slot `j` yields. Decimation
/// keeps the even positions of the filtered sequence, so slot `j` is
/// position `2 * j`: an edge position emits the input sample under the
/// edge policy; a position with a full tap window emits its convolution
/// value, which `dots[i - (FILTER_LEN - 1)]` holds for position `i`,
/// truncated toward zero, saturated to a 16-bit sample. Each slot reads
/// only the shared read-only inputs and no other slot, so slots may be
/// evaluated in any order, or in parallel, without changing the result.
pub open spec fn engine_out_at(policy: EdgePolicy, input: Seq<i16>, dots: Seq<i64>, j: int) -> i16 {
    if 2 * j < FILTER_LEN - 1 {
        edge_sample(policy, input[2 * j])
    } else {
        clamp_sat(dots[2 * j - (FILTER_LEN - 1)] as int) as i16
    }
}

/// The whole decimated output sequence.
pub open spec fn engine_out(policy: EdgePolicy, input: Seq<i16>, dots: Seq<i64>) -> Seq<i16> {
    Seq::new(out_len(input.len() as int) as nat, |j: int| engine_out_at(policy, input, dots, j))
}

/// Sequential evaluation of the engine: walk the kept (even) positions in
/// order, apply the edge policy, and quantize the convolution values.
pub fn process(policy: EdgePolicy, input: &Vec<i16>, dots: &Vec<i64>) -> (out: Vec<i16>)
    requires
        dots@.len() == filtered_count(input@.len() as int),
    ensures
        out@ == engine_out(policy, input@, dots@),
        out@.len() == out_len(input@.len() as int),
        out@.len() <= input@.len(),
{
    let n: usize = input.len();
    let m: usize = n / 2 + n % 2;
    assert(m == out_len(n as int));
    let mut out: Vec<i16> = Vec::new();
    let mut j: usize = 0;
    while j < m
        invariant
            n == input@.len(),
            m == out_len(input@.len() as int),
            dots@.len() == filtered_count(input@.len() as int),
            j <= m,
            out@.len() == j,
            forall|k: int| 0 <= k < j ==> out@[k] == engine_out_at(policy, input@, dots@, k),
        decreases m - j,
    {
        assert(2 * j < n) by {
            assert(2 * out_len(n as int) <= n + 1);
        }
        let i: usize = 2 * j;
        let s: i16 = if i < FILTER_LEN - 1 {
            match policy {
                EdgePolicy::PassThrough => quantize_trunc(input[i] as i64),
                EdgePolicy::RawCast => input[i],
            }
        } else {
            quantize_trunc(dots[i - (FILTER_LEN - 1)])
        };
        out.push(s);
        j = j + 1;
    }
    assert(out@ =~= engine_out(policy, input@, dots@));
    out
}

/// Evaluate one output slot on its own. A slot reads only the shared
/// read-only input and dot values, and no other slot, so a worker pool may
/// evaluate disjoint slots concurrently and collect them in index order.
pub fn output_at(policy: EdgePolicy, input: &Vec<i16>, dots: &Vec<i64>, j: usize) -> (r: i16)
    requires
        dots@.len() == filtered_count(input@.len() as int),
        j < out_len(input@.len() as int),
    ensures
        r == engine_out_at(policy, input@, dots@, j as int),
        r == engine_out(policy, input@, dots@)[j as int],
{
    let n: usize = input.len();
    assert(2 * j < n) by {
        assert(2 * out_len(n as int) <= n + 1);
    }
    let i: usize = 2 * j;
    if i < FILTER_LEN - 1 {
        match policy {
            EdgePolicy::PassThrough => quantize_trunc(input[i] as i64),
            EdgePolicy::RawCast => input[i],
        }
    } else {
        quantize_trunc(dots[i - (FILTER_LEN - 1)])
    }
}

/// Evaluate the engine slot by slot through `output_at` and collect the
/// results in index order, as an order-preserving parallel evaluation
/// would. The contract pins the result to the same sequence as `process`,
/// so the two schedules agree bit for bit.
pub fn process_by_index(policy: EdgePolicy, input: &Vec<i16>, dots: &Vec<i64>) -> (out: Vec<i16>)
    requires
        dots@.len() == filtered_count(input@.len() as int),
    ensures
        out@ == engine_out(policy, input@, dots@),
        out@.len() == out_len(input@.len() as int),
        out@.len() <= input@.len(),
{
    let n: usize = input.len();
    let m: usize = n / 2 + n % 2;
    assert(m == out_len(n as int));
    let mut out: Vec<i16> = Vec::new();
    let mut j: usize = 0;
    while j < m
        invariant
            n == input@.len(),
            m == out_len(input@.len() as int),
            dots@.len() == filtered_count(input@.len() as int),
            j <= m,
            out@.len() == j,
            forall|k: int| 0 <= k < j ==> out@[k] == engine_out_at(policy, input@, dots@, k),
        decreases m - j,
    {
        let s: i16 = output_at(policy, input, dots, j);
        out.push(s);
        j = j + 1;
    }
    assert(out@ =~= engine_out(policy, input@, dots@));
    out
}

/// Order-preservation law: assembling the independently evaluated slots in
/// index order yields exactly the sequential output sequence, whatever
/// schedule produced the slot values. Together with the contracts of
/// `process` and `process_by_index` this says that parallel and sequential
/// evaluation of the engine are bit-identical.
pub proof fn lemma_slots_assemble(policy: EdgePolicy, input: Seq<i16>, dots: Seq<i64>)
    ensures
        engine_out(policy, input, dots) =~= Seq::new(
            out_len(input.len() as int) as nat,
            |j: int| engine_out_at(policy, input, dots, j),
        ),
{
}

/// The two edge policies agree on every sample except -32768, the one
/// value outside the quantizer's symmetric range.
pub proof fn lemma_edge_policies_agree(s: i16)
    requires
        s != i16::MIN,
    ensures
        edge_sample(EdgePolicy::PassThrough, s) == edge_sample(EdgePolicy::RawCast, s),
{
}

/// Edge policy law: when the input is shorter than the filter, no position
/// has a full tap window, so the whole output is a deterministic transform
/// of the raw input fixed by the chosen policy alone: the samples at even
/// positions, each put through the policy's edge treatment.
pub proof fn lemma_edge_policy(policy: EdgePolicy, input: Seq<i16>, dots: Seq<i64>)
    requires
        input.len() < FILTER_LEN,
    ensures
        engine_out(policy, input, dots) =~= Seq::new(
            out_len(input.len() as int) as nat,
            |j: int| edge_sample(policy, input[2 * j]),
        ),
{
}

} // verus!
