use vstd::prelude::*;

use crate::downmix::{first_channel, first_channel_of, interleave, lemma_stereo_first_channel};
use crate::PipelineError;

verus! {

/// Sample formats an input device may report.
#[derive(PartialEq, Eq, Structural, Clone, Copy, Debug)]
pub enum DeviceSampleFormat {
    I8,
    I16,
    I32,
    I64,
    U8,
    U16,
    U32,
    U64,
    F32,
    F64,
    Unknown,
}

/// The raw encodings that capture accepts.
#[derive(PartialEq, Eq, Structural, Clone, Copy, Debug)]
pub enum SampleEncoding {
    F32,
    I16,
    I32,
}

/// Chooses the capture encoding for a device format; any other format is
/// refused with `UnsupportedFormat`.
pub fn encoding_for(format: DeviceSampleFormat) -> (r: Result<SampleEncoding, PipelineError>)
    ensures
        format == DeviceSampleFormat::F32 ==> r == Ok::<SampleEncoding, PipelineError>(
            SampleEncoding::F32,
        ),
        format == DeviceSampleFormat::I16 ==> r == Ok::<SampleEncoding, PipelineError>(
            SampleEncoding::I16,
        ),
        format == DeviceSampleFormat::I32 ==> r == Ok::<SampleEncoding, PipelineError>(
            SampleEncoding::I32,
        ),
        format != DeviceSampleFormat::F32 && format != DeviceSampleFormat::I16 && format
            != DeviceSampleFormat::I32 ==> r == Err::<SampleEncoding, PipelineError>(
            PipelineError::UnsupportedFormat,
        ),
{
    match format {
        DeviceSampleFormat::F32 => Ok(SampleEncoding::F32),
        DeviceSampleFormat::I16 => Ok(SampleEncoding::I16),
        DeviceSampleFormat::I32 => Ok(SampleEncoding::I32),
        _ => Err(PipelineError::UnsupportedFormat),
    }
}

/// The magnitude that an integer encoding is divided by to land in [-1, 1];
/// `None` for floating samples, which are taken as they are.
pub fn full_scale(encoding: SampleEncoding) -> (r: Option<u64>)
    ensures
        encoding == SampleEncoding::F32 ==> r == None::<u64>,
        encoding == SampleEncoding::I16 ==> r == Some(32768u64),
        encoding == SampleEncoding::I32 ==> r == Some(2147483648u64),
{
    match encoding {
        SampleEncoding::F32 => None,
        SampleEncoding::I16 => Some(32768),
        SampleEncoding::I32 => Some(2147483648),
    }
}

/// Where a capture session stands: taking samples, asked to stop while the
/// stream may still deliver, or with the stream closed.
#[derive(PartialEq, Eq, Structural, Clone, Copy, Debug)]
pub enum CapturePhase {
    Recording,
    Draining,
    Stopped,
}

/// What a capture session is, mathematically.
pub struct CaptureState<T> {
    pub samples: Seq<T>,
    pub phase: CapturePhase,
    pub channels: nat,
}

/// Things that happen to a capture session: the driver delivers a batch of
/// interleaved frames, the stop signal arrives, or the stream is closed.
pub enum CaptureEvent<T> {
    Batch(Seq<T>),
    Stop,
    Close,
}

pub open spec fn step<T>(s: CaptureState<T>, e: CaptureEvent<T>) -> CaptureState<T> {
    match e {
        CaptureEvent::Batch(data) => if s.phase == CapturePhase::Recording {
            CaptureState { samples: s.samples + first_channel_of(data, s.channels), ..s }
        } else {
            s
        },
        CaptureEvent::Stop => if s.phase == CapturePhase::Recording {
            CaptureState { phase: CapturePhase::Draining, ..s }
        } else {
            s
        },
        CaptureEvent::Close => CaptureState { phase: CapturePhase::Stopped, ..s },
    }
}

pub open spec fn run<T>(s: CaptureState<T>, events: Seq<CaptureEvent<T>>) -> CaptureState<T>
    decreases events.len(),
{
    if events.len() == 0 {
        s
    } else {
        run(step(s, events[0]), events.drop_first())
    }
}

/// A fresh session: recording, nothing captured yet.
pub open spec fn fresh<T>(channels: nat) -> CaptureState<T> {
    CaptureState { samples: Seq::empty(), phase: CapturePhase::Recording, channels }
}

/// The mono samples that a sequence of batches yields, in delivery order.
pub open spec fn downmixed<T>(batches: Seq<Seq<T>>, channels: nat) -> Seq<T>
    decreases batches.len(),
{
    if batches.len() == 0 {
        Seq::empty()
    } else {
        downmixed(batches.drop_last(), channels) + first_channel_of(batches.last(), channels)
    }
}

pub open spec fn as_batches<T>(batches: Seq<Seq<T>>) -> Seq<CaptureEvent<T>> {
    batches.map_values(|b: Seq<T>| CaptureEvent::Batch(b))
}

proof fn lemma_run_concat<T>(s: CaptureState<T>, a: Seq<CaptureEvent<T>>, b: Seq<CaptureEvent<T>>)
    ensures
        run(s, a + b) == run(run(s, a), b),
    decreases a.len(),
{
    if a.len() == 0 {
        assert(a + b =~= b);
    } else {
        assert((a + b).drop_first() =~= a.drop_first() + b);
        lemma_run_concat(step(s, a[0]), a.drop_first(), b);
    }
}

proof fn lemma_run_single<T>(s: CaptureState<T>, e: CaptureEvent<T>)
    ensures
        run(s, seq![e]) == step(s, e),
{
    let es = seq![e];
    assert(es.drop_first() =~= Seq::<CaptureEvent<T>>::empty());
    assert(run(step(s, e), es.drop_first()) == step(s, e));
}

/// Every session's samples only grow: what was captured before any sequence
/// of events is a prefix of what is captured after it.
pub proof fn lemma_samples_only_grow<T>(s: CaptureState<T>, events: Seq<CaptureEvent<T>>)
    ensures
        s.samples.len() <= run(s, events).samples.len(),
        run(s, events).samples.subrange(0, s.samples.len() as int) == s.samples,
    decreases events.len(),
{
    if events.len() > 0 {
        let t = step(s, events[0]);
        assert(t.samples.subrange(0, s.samples.len() as int) =~= s.samples);
        lemma_samples_only_grow(t, events.drop_first());
        assert(run(s, events).samples.subrange(0, s.samples.len() as int) =~= run(
            t,
            events.drop_first(),
        ).samples.subrange(0, t.samples.len() as int).subrange(0, s.samples.len() as int));
    }
}

/// Once a session has left the recording phase, no event appends a sample.
pub proof fn lemma_no_append_after_stop<T>(s: CaptureState<T>, events: Seq<CaptureEvent<T>>)
    requires
        s.phase != CapturePhase::Recording,
    ensures
        run(s, events).samples == s.samples,
        run(s, events).phase != CapturePhase::Recording,
    decreases events.len(),
{
    if events.len() > 0 {
        lemma_no_append_after_stop(step(s, events[0]), events.drop_first());
    }
}

/// While recording, every delivered batch is kept, downmixed, in order.
pub proof fn lemma_recording_keeps_batches<T>(s: CaptureState<T>, batches: Seq<Seq<T>>)
    requires
        s.phase == CapturePhase::Recording,
    ensures
        run(s, as_batches(batches)) == (CaptureState {
            samples: s.samples + downmixed(batches, s.channels),
            ..s
        }),
    decreases batches.len(),
{
    if batches.len() == 0 {
        assert(s.samples + downmixed(batches, s.channels) =~= s.samples);
    } else {
        let init = batches.drop_last();
        lemma_recording_keeps_batches(s, init);
        assert(as_batches(batches) =~= as_batches(init) + seq![
            CaptureEvent::Batch(batches.last()),
        ]);
        lemma_run_concat(s, as_batches(init), seq![CaptureEvent::Batch(batches.last())]);
        let mid = run(s, as_batches(init));
        lemma_run_single(mid, CaptureEvent::Batch(batches.last()));
        assert(s.samples + downmixed(init, s.channels) + first_channel_of(
            batches.last(),
            s.channels,
        ) =~= s.samples + downmixed(batches, s.channels));
    }
}

/// A stop signal raised in the middle of a stream: every batch delivered
/// before it is kept, downmixed and in order, and nothing delivered after it
/// (before or after the stream closes) is appended.
pub proof fn lemma_stop_mid_stream<T>(
    channels: nat,
    before: Seq<Seq<T>>,
    after: Seq<CaptureEvent<T>>,
)
    ensures
        run(fresh(channels), as_batches(before) + seq![CaptureEvent::Stop] + after).samples
            == downmixed(before, channels),
{
    let s = fresh::<T>(channels);
    lemma_recording_keeps_batches(s, before);
    lemma_run_concat(s, as_batches(before) + seq![CaptureEvent::Stop], after);
    lemma_run_concat(s, as_batches(before), seq![CaptureEvent::Stop]);
    let mid = run(s, as_batches(before));
    lemma_run_single(mid, CaptureEvent::Stop);
    let stopped = run(mid, seq![CaptureEvent::Stop]);
    lemma_no_append_after_stop(stopped, after);
    assert(s.samples + downmixed(before, channels) =~= downmixed(before, channels));
}

/// Live capture of interleaved stereo frames `[(L0, R0), (L1, R1), ...]`
/// keeps exactly `[L0, L1, ...]`, the same samples that decoding a
/// two-channel file keeps.
pub proof fn lemma_stereo_capture<T>(left: Seq<T>, right: Seq<T>)
    requires
        left.len() == right.len(),
    ensures
        run(fresh(2), seq![CaptureEvent::Batch(interleave(left, right))]).samples == left,
        first_channel_of(interleave(left, right), 2) == left,
{
    let s = fresh::<T>(2);
    lemma_run_single(s, CaptureEvent::Batch(interleave(left, right)));
    lemma_stereo_first_channel(left, right);
    assert(s.samples + left =~= left);
}

/// A finished recording: mono samples at the device's native rate.
pub struct RecordingResult<T> {
    pub data: Vec<T>,
    pub sample_rate: u32,
}

/// The decisions of one capture session, over samples of type `T`. The
/// driver's callback hands each batch to `deliver`; the stop signal calls
/// `raise_stop`; the caller polls `keep_waiting`, then closes the stream and
/// calls `finish`.
pub struct CaptureSession<T> {
    buffer: Vec<T>,
    phase: CapturePhase,
    channels: usize,
    sample_rate: u32,
}

impl<T> View for CaptureSession<T> {
    type V = CaptureState<T>;

    closed spec fn view(&self) -> CaptureState<T> {
        CaptureState { samples: self.buffer@, phase: self.phase, channels: self.channels as nat }
    }
}

impl<T: Copy> CaptureSession<T> {
    pub closed spec fn wf(&self) -> bool {
        self.channels > 0
    }

    pub closed spec fn rate(&self) -> u32 {
        self.sample_rate
    }

    /// Opens a session for a negotiated configuration; a configuration with
    /// no channels is refused with `DeviceUnavailable`.
    pub fn new(sample_rate: u32, channels: u16) -> (r: Result<Self, PipelineError>)
        ensures
            channels == 0 <==> r is Err,
            r is Err ==> r == Err::<Self, PipelineError>(PipelineError::DeviceUnavailable),
            r matches Ok(s) ==> s.wf() && s@ == fresh::<T>(channels as nat) && s.rate()
                == sample_rate,
    {
        if channels == 0 {
            return Err(PipelineError::DeviceUnavailable);
        }
        Ok(CaptureSession {
            buffer: Vec::new(),
            phase: CapturePhase::Recording,
            channels: channels as usize,
            sample_rate,
        })
    }

    /// A batch of interleaved frames from the driver: kept, downmixed to the
    /// first channel, only while recording.
    pub fn deliver(&mut self, data: &[T])
        requires
            old(self).wf(),
        ensures
            final(self).wf(),
            final(self).rate() == old(self).rate(),
            final(self)@ == step(old(self)@, CaptureEvent::Batch(data@)),
    {
        if self.phase == CapturePhase::Recording {
            let mut mono = first_channel(data, self.channels);
            self.buffer.append(&mut mono);
        }
    }

    /// The stop signal: a recording session starts draining.
    pub fn raise_stop(&mut self)
        requires
            old(self).wf(),
        ensures
            final(self).wf(),
            final(self).rate() == old(self).rate(),
            final(self)@ == step(old(self)@, CaptureEvent::<T>::Stop),
    {
        if self.phase == CapturePhase::Recording {
            self.phase = CapturePhase::Draining;
        }
    }

    /// The stream is closed: no callback will deliver again.
    pub fn close_stream(&mut self)
        requires
            old(self).wf(),
        ensures
            final(self).wf(),
            final(self).rate() == old(self).rate(),
            final(self)@ == step(old(self)@, CaptureEvent::<T>::Close),
    {
        self.phase = CapturePhase::Stopped;
    }

    /// Whether the poller should keep waiting for the stop signal.
    pub fn keep_waiting(&self) -> (r: bool)
        ensures
            r == (self@.phase == CapturePhase::Recording),
    {
        self.phase == CapturePhase::Recording
    }

    pub fn sample_rate(&self) -> (r: u32)
        ensures
            r == self.rate(),
    {
        self.sample_rate
    }

    pub fn len(&self) -> (r: usize)
        ensures
            r == self@.samples.len(),
    {
        self.buffer.len()
    }

    /// Hands over what was captured; a session with no samples fails with
    /// `EmptyRecording`.
    pub fn finish(self) -> (r: Result<RecordingResult<T>, PipelineError>)
        ensures
            self@.samples.len() == 0 <==> r is Err,
            r is Err ==> r == Err::<RecordingResult<T>, PipelineError>(
                PipelineError::EmptyRecording,
            ),
            r matches Ok(rec) ==> rec.data@ == self@.samples && rec.sample_rate == self.rate(),
    {
        if self.buffer.len() == 0 {
            return Err(PipelineError::EmptyRecording);
        }
        Ok(RecordingResult { data: self.buffer, sample_rate: self.sample_rate })
    }
}

} // verus!
