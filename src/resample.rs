use vstd::prelude::*;

use crate::PipelineError;

verus! {

/// The sample rate that the inference engine takes.
pub const TARGET_SAMPLE_RATE: u32 = 16000;

/// The outcome of the resampling decision.
pub enum Resampling<T> {
    /// Already at the wanted rate: the samples, untouched.
    Done(Vec<T>),
    /// Needs a band-limited sinc pass from `from_rate` to `to_rate`.
    Interpolate { samples: Vec<T>, from_rate: u32, to_rate: u32 },
}

/// Decides how to bring `samples` from `from_rate` to `to_rate`. Equal rates
/// give the input back unchanged, whatever it holds; otherwise an empty signal
/// or a zero rate is degenerate and fails with `ResamplingError`.
pub fn begin_resample<T>(samples: Vec<T>, from_rate: u32, to_rate: u32) -> (r: Result<
    Resampling<T>,
    PipelineError,
>)
    ensures
        from_rate == to_rate ==> (r matches Ok(Resampling::Done(v)) && v@ == samples@),
        r is Err <==> from_rate != to_rate && (samples@.len() == 0 || from_rate == 0 || to_rate
            == 0),
        r is Err ==> r == Err::<Resampling<T>, PipelineError>(PipelineError::ResamplingError),
        from_rate != to_rate && r is Ok ==> (r matches Ok(
            Resampling::Interpolate { samples: v, from_rate: f, to_rate: t },
        ) && v@ == samples@ && f == from_rate && t == to_rate),
{
    if from_rate == to_rate {
        return Ok(Resampling::Done(samples));
    }
    if samples.len() == 0 || from_rate == 0 || to_rate == 0 {
        return Err(PipelineError::ResamplingError);
    }
    Ok(Resampling::Interpolate { samples, from_rate, to_rate })
}

} // verus!
