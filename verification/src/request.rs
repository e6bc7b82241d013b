use vstd::prelude::*;
use std::time::Duration;

verus! {

/// Default base URL for the 0G Compute Router (OpenAI-compatible).
pub const DEFAULT_0G_BASE_URL: &'static str = "https://router-api.0g.ai/v1";

/// Default ASR model identifier on 0G.
pub const DEFAULT_0G_ASR_MODEL: &'static str = "whisper-large-v3";

/// Recommended Whisper `initial_prompt` for Mandarin Chinese: a prompt that
/// already carries punctuation biases the decoder toward emitting it.
pub const ZH_INITIAL_PROMPT: &'static str = "以下是一段普通话语音，请输出带标点的转写。";

/// Number of seconds in the default per-request timeout.
pub const DEFAULT_TIMEOUT_SECS: u64 = 60;

/// The `Duration` of the given whole number of seconds.
pub uninterp spec fn secs_duration(secs: u64) -> Duration;

/// `Duration::from_secs` is a pure constructor: the same number of seconds
/// always gives the same duration.
pub assume_specification[ Duration::from_secs ](secs: u64) -> (d: Duration)
    ensures
        d == secs_duration(secs),
;

/// `Duration` is `Copy`, and its clone is the same value.
pub assume_specification[ <Duration as Clone>::clone ](d: &Duration) -> (r: Duration)
    ensures
        r == *d,
;

/// Configuration of one cloud transcription call.
#[derive(Debug, Clone)]
pub struct CloudAsrRequest {
    /// Base URL of the OpenAI-compatible router.
    pub base_url: String,
    /// Bearer token.
    pub api_key: String,
    /// Model identifier (e.g. `whisper-large-v3`).
    pub model: String,
    /// WAV-encoded mono PCM audio bytes.
    pub audio_wav: Vec<u8>,
    /// BCP-47 language hint; `None` or `Some("auto")` enables detection.
    pub language: Option<String>,
    /// Whisper `initial_prompt`.
    pub initial_prompt: Option<String>,
    /// When true, the call fails if the provider response lacks a TEE proof.
    pub require_tee_proof: bool,
    /// Per-request timeout.
    pub timeout: Duration,
}

/// The view of an optional string: the optional sequence of its characters.
pub open spec fn opt_view(o: Option<String>) -> Option<Seq<char>> {
    match o {
        Some(s) => Some(s@),
        None => None,
    }
}

impl CloudAsrRequest {
    /// A new request with the defaults: the default model, no language
    /// forcing, no initial prompt, TEE proof optional, 60 s timeout.
    pub fn new(base_url: &str, api_key: &str, audio_wav: Vec<u8>) -> (r: Self)
        ensures
            r.base_url@ == base_url@,
            r.api_key@ == api_key@,
            r.model@ == DEFAULT_0G_ASR_MODEL@,
            r.audio_wav@ == audio_wav@,
            r.language is None,
            r.initial_prompt is None,
            !r.require_tee_proof,
            r.timeout == secs_duration(DEFAULT_TIMEOUT_SECS),
    {
        CloudAsrRequest {
            base_url: base_url.to_owned(),
            api_key: api_key.to_owned(),
            model: DEFAULT_0G_ASR_MODEL.to_owned(),
            audio_wav,
            language: None,
            initial_prompt: None,
            require_tee_proof: false,
            timeout: Duration::from_secs(DEFAULT_TIMEOUT_SECS),
        }
    }

    /// Replaces the model identifier; every other field is kept.
    pub fn with_model(self, model: &str) -> (r: Self)
        ensures
            r.model@ == model@,
            r == (CloudAsrRequest { model: r.model, ..self }),
    {
        let mut r = self;
        r.model = model.to_owned();
        r
    }

    /// Forces the given language; every other field is kept.
    pub fn with_language(self, lang: &str) -> (r: Self)
        ensures
            opt_view(r.language) == Some(lang@),
            r == (CloudAsrRequest { language: r.language, ..self }),
    {
        let mut r = self;
        r.language = Some(lang.to_owned());
        r
    }

    /// Sets the initial prompt; every other field is kept.
    pub fn with_initial_prompt(self, prompt: &str) -> (r: Self)
        ensures
            opt_view(r.initial_prompt) == Some(prompt@),
            r == (CloudAsrRequest { initial_prompt: r.initial_prompt, ..self }),
    {
        let mut r = self;
        r.initial_prompt = Some(prompt.to_owned());
        r
    }

    /// Sets whether a TEE proof is required; every other field is kept.
    pub fn with_require_tee_proof(self, require: bool) -> (r: Self)
        ensures
            r == (CloudAsrRequest { require_tee_proof: require, ..self }),
    {
        let mut r = self;
        r.require_tee_proof = require;
        r
    }

    /// Sets the per-request timeout; every other field is kept.
    pub fn with_timeout(self, timeout: Duration) -> (r: Self)
        ensures
            r == (CloudAsrRequest { timeout, ..self }),
    {
        let mut r = self;
        r.timeout = timeout;
        r
    }
}

} // verus!
