//! Cloud speech-recognition request building and response handling, plus
//! the 16 kHz mono PCM WAV encoding used to upload captured audio.

pub mod request;
pub mod settings;
pub mod text;
pub mod transcribe;
pub mod wav;

pub use request::{CloudAsrRequest, DEFAULT_0G_ASR_MODEL, DEFAULT_0G_BASE_URL, ZH_INITIAL_PROMPT};
pub use settings::{
    cloud_credentials, request_from_settings, request_with_credentials, ApiKeyEntry, CloudAsrSettings,
    CloudCredentials, ProviderEntry,
};
pub use transcribe::{
    finish_transcription, http_error, is_success_status, plan_transcription, ApiResponse, AsrError,
    CloudAsrResult, FormField, TeeProof, TranscriptionPlan,
};
pub use wav::{
    check_sample_count, decode_pcm16, encode_pcm16_wav, standard_wav_spec, verify_wav_bytes, WavError, WavSpec,
};
