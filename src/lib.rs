use vstd::prelude::*;

pub mod capture;
pub mod codec;
pub mod downmix;
pub mod models;
pub mod notes;
pub mod resample;
pub mod transcript;

verus! {

/// The ways a capture-to-transcript run can fail.
#[derive(PartialEq, Eq, Structural, Clone, Copy, Debug)]
pub enum PipelineError {
    DeviceUnavailable,
    UnsupportedFormat,
    EmptyRecording,
    ResamplingError,
    CodecError,
    ModelNotFound,
    ModelLoadError,
    InferenceError,
}

/// Where transcripts are stored and which model transcribes them.
#[derive(Clone, Debug)]
pub struct Config {
    /// Absolute path of the notes vault.
    pub vault_path: String,
    /// Folder inside the vault that receives transcripts.
    pub save_folder: String,
    /// Name of the speech-recognition model tier.
    pub whisper_model: String,
}

} // verus!
