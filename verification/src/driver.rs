use vstd::prelude::*;

verus! {

/// How the samples of a stream are encoded in its container.
#[derive(Clone, Copy, Debug, PartialEq, Eq, Structural)]
pub enum SampleEncoding {
    /// Signed integer samples.
    SignedInteger,
    /// Floating-point samples.
    Floating,
}

/// Metadata of one audio stream: what a sample source reports and what a
/// sample sink is told to write.
#[derive(Clone, Copy, Debug, PartialEq, Eq, Structural)]
pub struct AudioDescriptor {
    /// Number of interleaved channels.
    pub channel_count: u16,
    /// Samples per second, in hertz.
    pub sample_rate: u32,
    /// Width of one sample in bits.
    pub bits_per_sample: u16,
    /// Encoding of the stored samples.
    pub encoding: SampleEncoding,
}

/// Why a run, or one file of a run, failed.
#[derive(Clone, Copy, Debug, PartialEq, Eq, Structural)]
pub enum DriverError {
    /// The requested rate fraction lies outside the open interval (0, 1);
    /// reported once, before any file is touched.
    InvalidRate,
    /// A source file could not be opened or its header could not be parsed.
    OpenError,
    /// The sink file could not be created or finalized.
    WriteError,
}

/// The descriptor every output file is written with: one channel of signed
/// 16-bit samples at the computed target rate.
pub fn output_descriptor(target_rate: u32) -> (d: AudioDescriptor)
    ensures
        d == (AudioDescriptor {
            channel_count: 1,
            sample_rate: target_rate,
            bits_per_sample: 16,
            encoding: SampleEncoding::SignedInteger,
        }),
{
    AudioDescriptor {
        channel_count: 1,
        sample_rate: target_rate,
        bits_per_sample: 16,
        encoding: SampleEncoding::SignedInteger,
    }
}

/// Byte value of the ASCII letter `r`, the prefix of every output file name.
pub const NAME_PREFIX: u8 = 114;

/// Name of the output file for a given input file name: the input name,
/// as bytes, prefixed with the letter `r`.
pub fn output_name(name: &Vec<u8>) -> (r: Vec<u8>)
    ensures
        r@ == seq![NAME_PREFIX] + name@,
{
    let mut r: Vec<u8> = Vec::new();
    r.push(NAME_PREFIX);
    let mut i: usize = 0;
    while i < name.len()
        invariant
            i <= name@.len(),
            r@ == seq![NAME_PREFIX] + name@.subrange(0, i as int),
        decreases name@.len() - i,
    {
        r.push(name[i]);
        assert(r@ =~= seq![NAME_PREFIX] + name@.subrange(0, i + 1));
        i = i + 1;
    }
    assert(name@.subrange(0, name@.len() as int) =~= name@);
    r
}

} // verus!
