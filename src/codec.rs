use vstd::prelude::*;

use crate::downmix::{first_channel, first_channel_of};
use crate::PipelineError;

verus! {

/// How a WAV file stores its samples.
#[derive(PartialEq, Eq, Structural, Clone, Copy, Debug)]
pub enum WavSampleKind {
    Int,
    Float,
}

/// How decoded samples are brought into [-1, 1].
#[derive(PartialEq, Eq, Structural, Clone, Copy, Debug)]
pub enum SampleScale {
    /// Floating samples are taken as they are.
    Unit,
    /// Integer samples are divided by the bit depth's full scale.
    DivideBy(u64),
}

/// Bits written per sample when encoding: mono, signed 16-bit PCM.
pub const PCM_BITS_PER_SAMPLE: u16 = 16;

/// Channels written when encoding.
pub const PCM_CHANNELS: u16 = 1;

/// The largest magnitude of a signed integer of `bits` bits: 2^(bits - 1).
pub open spec fn full_scale_of(bits: nat) -> nat
    decreases bits,
{
    if bits <= 1 {
        1
    } else {
        2 * full_scale_of((bits - 1) as nat)
    }
}

proof fn lemma_full_scale_monotone(i: nat, j: nat)
    requires
        i <= j,
    ensures
        full_scale_of(i) <= full_scale_of(j),
    decreases j - i,
{
    if i < j {
        lemma_full_scale_monotone(i, (j - 1) as nat);
    }
}

/// The scale for samples of the given kind and bit depth. Integer depths
/// outside 1..=32 are refused with `CodecError`.
pub fn decode_scale(kind: WavSampleKind, bits_per_sample: u16) -> (r: Result<
    SampleScale,
    PipelineError,
>)
    ensures
        kind == WavSampleKind::Float ==> r == Ok::<SampleScale, PipelineError>(SampleScale::Unit),
        kind == WavSampleKind::Int && 1 <= bits_per_sample <= 32 ==> (r matches Ok(
            SampleScale::DivideBy(m),
        ) && m == full_scale_of(bits_per_sample as nat)),
        kind == WavSampleKind::Int && !(1 <= bits_per_sample <= 32) ==> r == Err::<
            SampleScale,
            PipelineError,
        >(PipelineError::CodecError),
{
    match kind {
        WavSampleKind::Float => Ok(SampleScale::Unit),
        WavSampleKind::Int => {
            if bits_per_sample < 1 || bits_per_sample > 32 {
                return Err(PipelineError::CodecError);
            }
            let mut m: u64 = 1;
            let mut i: u16 = 1;
            while i < bits_per_sample
                invariant
                    1 <= i <= bits_per_sample <= 32,
                    m == full_scale_of(i as nat),
                decreases bits_per_sample - i,
            {
                proof {
                    lemma_full_scale_monotone((i + 1) as nat, 32);
                    reveal_with_fuel(full_scale_of, 32);
                }
                m = m * 2;
                i = i + 1;
            }
            Ok(SampleScale::DivideBy(m))
        }
    }
}

/// The channel policy of decoding: a two-channel file keeps the first
/// channel of each frame; any other file is taken as it is.
pub fn mono_samples<T: Copy>(samples: Vec<T>, channels: u16) -> (r: Vec<T>)
    ensures
        channels == 2 ==> r@ == first_channel_of(samples@, 2),
        channels != 2 ==> r@ == samples@,
{
    if channels == 2 {
        first_channel(samples.as_slice(), 2)
    } else {
        samples
    }
}

} // verus!
