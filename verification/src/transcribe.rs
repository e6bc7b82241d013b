use vstd::prelude::*;
use vstd::string::*;
use std::time::Duration;

use crate::request::{opt_view, CloudAsrRequest};
use crate::text::{
    blank, is_blank, lemma_occurs_in_concat, lemma_occurs_in_trimmed, occurs_in, same_text, straddles, take_chars,
    trim_end_slashes, without_trailing_slashes, decimal, decimal_text,
};

verus! {

/// Path of the transcription endpoint, appended to the router's base URL.
pub const TRANSCRIPTIONS_PATH: &'static str = "/audio/transcriptions";

/// Name of the multipart field that carries the audio file.
pub const AUDIO_FIELD: &'static str = "file";

/// File name given to the uploaded audio.
pub const AUDIO_FILE_NAME: &'static str = "audio.wav";

/// MIME type given to the uploaded audio.
pub const AUDIO_MIME: &'static str = "audio/wav";

/// Language hint that asks the model to detect the language itself.
pub const AUTO_LANGUAGE: &'static str = "auto";

/// Longest provider error body, in characters, that is kept in an error.
pub const MAX_ERROR_BODY_CHARS: usize = 512;

/// Why a cloud transcription did not produce a result.
#[derive(Debug, Clone)]
pub enum AsrError {
    /// The API key is empty or white space only.
    EmptyApiKey,
    /// The audio buffer is empty.
    EmptyAudio,
    /// The provider answered with a status outside 200..=299; `body` holds
    /// at most the first 512 characters of its answer.
    Http { status: u16, body: String },
    /// A TEE proof was required but the answer carried none.
    MissingTeeProof,
    /// The configured cloud provider is not registered.
    ProviderNotRegistered { provider_id: String },
    /// The configured cloud provider has no (non-empty) API key.
    MissingApiKey { provider_id: String },
}

/// TEE attestation metadata returned by providers running in `TeeML` mode.
#[derive(Debug, Clone)]
pub struct TeeProof {
    /// Address of the on-chain signer for the enclave.
    pub signer_address: String,
    /// Hash of the docker-compose manifest of the enclave runtime.
    pub compose_hash: String,
    /// Signature over the response payload produced inside the enclave.
    pub signature: String,
    /// Hash of the model weights served by the enclave.
    pub model_hash: Option<String>,
}

/// Result returned by a successful cloud transcription.
#[derive(Debug, Clone)]
pub struct CloudAsrResult {
    /// The transcribed text.
    pub text: String,
    /// Detected language, if the provider returned one.
    pub language: Option<String>,
    /// Optional TEE attestation proof attached by the provider.
    pub proof: Option<TeeProof>,
    /// End-to-end wall-clock latency in milliseconds.
    pub latency_ms: u128,
}

/// The decoded JSON answer of the transcription endpoint.
#[derive(Debug, Clone)]
pub struct ApiResponse {
    pub text: String,
    pub language: Option<String>,
    pub tee_proof: Option<TeeProof>,
}

/// One text field of the multipart form.
#[derive(Debug, Clone)]
pub struct FormField {
    pub name: String,
    pub value: String,
}

/// Everything the HTTP layer needs to send one transcription request.
#[derive(Debug)]
pub struct TranscriptionPlan {
    /// Full endpoint URL.
    pub url: String,
    /// Bearer token.
    pub api_key: String,
    /// Text fields of the multipart form, in order.
    pub fields: Vec<FormField>,
    /// The audio, sent as the `file` part.
    pub audio_wav: Vec<u8>,
    /// Per-request timeout.
    pub timeout: Duration,
}

/// The language that is forced on the model: a hint that is neither empty
/// nor `auto`.
pub open spec fn forced_language(lang: Option<Seq<char>>) -> Option<Seq<char>> {
    match lang {
        Some(l) => if l.len() > 0 && l != AUTO_LANGUAGE@ { Some(l) } else { None },
        None => None,
    }
}

/// The prompt that is sent: a non-empty one.
pub open spec fn sent_prompt(prompt: Option<Seq<char>>) -> Option<Seq<char>> {
    match prompt {
        Some(p) => if p.len() > 0 { Some(p) } else { None },
        None => None,
    }
}

/// A form field named `name` when `value` is present, nothing otherwise.
pub open spec fn optional_field(name: Seq<char>, value: Option<Seq<char>>) -> Seq<(Seq<char>, Seq<char>)> {
    match value {
        Some(v) => seq![(name, v)],
        None => Seq::empty(),
    }
}

/// The text fields of the form: the model, the JSON response format, then
/// the forced language and the prompt where there are any.
pub open spec fn form_fields(
    model: Seq<char>,
    language: Option<Seq<char>>,
    prompt: Option<Seq<char>>,
) -> Seq<(Seq<char>, Seq<char>)> {
    seq![("model"@, model), ("response_format"@, "json"@)]
        + optional_field("language"@, forced_language(language))
        + optional_field("prompt"@, sent_prompt(prompt))
}

/// The (name, value) views of form fields.
pub open spec fn field_views(fields: Seq<FormField>) -> Seq<(Seq<char>, Seq<char>)> {
    fields.map_values(|f: FormField| (f.name@, f.value@))
}

/// The error a request is refused with before anything is sent, if any:
/// a blank API key first, then empty audio.
pub open spec fn request_refusal(req: CloudAsrRequest) -> Option<AsrError> {
    if blank(req.api_key@) {
        Some(AsrError::EmptyApiKey)
    } else if req.audio_wav@.len() == 0 {
        Some(AsrError::EmptyAudio)
    } else {
        None
    }
}

/// The endpoint URL: the base URL without trailing slashes, then the path.
pub open spec fn endpoint_url(base_url: Seq<char>) -> Seq<char> {
    trim_end_slashes(base_url) + TRANSCRIPTIONS_PATH@
}

/// The plan describes exactly the request `req`.
pub open spec fn plan_of(p: TranscriptionPlan, req: CloudAsrRequest) -> bool {
    &&& p.url@ == endpoint_url(req.base_url@)
    &&& p.api_key@ == req.api_key@
    &&& field_views(p.fields@) == form_fields(
        req.model@,
        opt_view(req.language),
        opt_view(req.initial_prompt),
    )
    &&& p.audio_wav@ == req.audio_wav@
    &&& p.timeout == req.timeout
}

/// The form of a planned request: the model, then `response_format=json`,
/// then the language exactly when a non-empty hint other than `auto` is
/// given, then the prompt exactly when a non-empty one is given, whatever
/// the other of the two is.
pub proof fn lemma_form_fields_sent(req: CloudAsrRequest, p: TranscriptionPlan)
    requires
        plan_of(p, req),
    ensures
        ({
            let fs = p.fields@;
            let lang_sent = req.language is Some && req.language->0@.len() > 0
                && req.language->0@ != "auto"@;
            let prompt_sent = req.initial_prompt is Some && req.initial_prompt->0@.len() > 0;
            &&& fs.len() == 2 + (if lang_sent { 1int } else { 0int }) + (if prompt_sent { 1int } else { 0int })
            &&& fs[0].name@ == "model"@ && fs[0].value@ == req.model@
            &&& fs[1].name@ == "response_format"@ && fs[1].value@ == "json"@
            &&& lang_sent ==> fs[2].name@ == "language"@ && fs[2].value@ == req.language->0@
            &&& prompt_sent ==> fs[fs.len() - 1].name@ == "prompt"@
                && fs[fs.len() - 1].value@ == req.initial_prompt->0@
        }),
{
    reveal_strlit("auto");
    assert(AUTO_LANGUAGE@ =~= "auto"@);
    let fs = p.fields@;
    let v = field_views(fs);
    let spec_fields = form_fields(req.model@, opt_view(req.language), opt_view(req.initial_prompt));
    assert(v.len() == fs.len());
    assert(v[0] == spec_fields[0]);
    assert(v[1] == spec_fields[1]);
    assert(v[2] == spec_fields[2] || fs.len() <= 2);
    assert(v.len() > 0 ==> v[v.len() - 1] == spec_fields[spec_fields.len() - 1]);
}

/// Trimming only removes slashes: a base URL that does not end in `/` is
/// kept whole, and the path follows it.
pub proof fn lemma_endpoint_of_unslashed_base(base_url: Seq<char>)
    requires
        base_url.len() == 0 || base_url.last() != '/',
    ensures
        endpoint_url(base_url) == base_url + "/audio/transcriptions"@,
{
    reveal_strlit("/audio/transcriptions");
    assert(TRANSCRIPTIONS_PATH@ =~= "/audio/transcriptions"@);
}

/// Trailing slashes on the base URL never change the endpoint.
pub proof fn lemma_endpoint_ignores_trailing_slash(base_url: Seq<char>)
    ensures
        endpoint_url(base_url.push('/')) == endpoint_url(base_url),
{
    crate::text::lemma_trim_end_slashes_absorbs_slash(base_url);
}

/// The API key leaves a request only as its bearer token: when it occurs in
/// none of the texts that go into the form (the model, the language, the
/// prompt, and the fixed field names and `json`), it occurs in no form field;
/// when it occurs neither in the base URL nor in the endpoint path, and is
/// not spelled across the joint of the trimmed base URL and the path, it does
/// not occur in the URL.
pub proof fn lemma_api_key_only_in_header(req: CloudAsrRequest, p: TranscriptionPlan)
    requires
        plan_of(p, req),
        !occurs_in(req.api_key@, req.model@),
        forall|l: Seq<char>| opt_view(req.language) == Some(l) ==> !occurs_in(req.api_key@, l),
        forall|t: Seq<char>| opt_view(req.initial_prompt) == Some(t) ==> !occurs_in(req.api_key@, t),
        !occurs_in(req.api_key@, "model"@),
        !occurs_in(req.api_key@, "response_format"@),
        !occurs_in(req.api_key@, "json"@),
        !occurs_in(req.api_key@, "language"@),
        !occurs_in(req.api_key@, "prompt"@),
        !occurs_in(req.api_key@, req.base_url@),
        !occurs_in(req.api_key@, TRANSCRIPTIONS_PATH@),
        !straddles(req.api_key@, trim_end_slashes(req.base_url@), TRANSCRIPTIONS_PATH@),
    ensures
        p.api_key@ == req.api_key@,
        p.url@ == endpoint_url(req.base_url@),
        !occurs_in(req.api_key@, p.url@),
        forall|i: int| 0 <= i < p.fields@.len() ==> {
            &&& !occurs_in(req.api_key@, #[trigger] p.fields@[i].name@)
            &&& !occurs_in(req.api_key@, p.fields@[i].value@)
        },
{
    let key = req.api_key@;
    if occurs_in(key, p.url@) {
        lemma_occurs_in_concat(key, trim_end_slashes(req.base_url@), TRANSCRIPTIONS_PATH@);
        if occurs_in(key, trim_end_slashes(req.base_url@)) {
            lemma_occurs_in_trimmed(key, req.base_url@);
        }
    }
    let fs = form_fields(req.model@, opt_view(req.language), opt_view(req.initial_prompt));
    assert forall|i: int| 0 <= i < fs.len() implies !occurs_in(key, (#[trigger] fs[i]).0) && !occurs_in(key, fs[i].1) by {
        let base = seq![("model"@, req.model@), ("response_format"@, "json"@)];
        let lang = optional_field("language"@, forced_language(opt_view(req.language)));
        let prompt = optional_field("prompt"@, sent_prompt(opt_view(req.initial_prompt)));
        assert(fs == base + lang + prompt);
        if i < 2 {
            assert(fs[i] == base[i]);
        } else if i < 2 + lang.len() {
            assert(fs[i] == lang[i - 2]);
            assert(opt_view(req.language) == Some(lang[i - 2].1));
        } else {
            assert(fs[i] == prompt[i - 2 - lang.len()]);
            assert(opt_view(req.initial_prompt) == Some(prompt[i - 2 - lang.len()].1));
        }
    }
    assert forall|i: int| 0 <= i < p.fields@.len() implies {
        &&& !occurs_in(key, #[trigger] p.fields@[i].name@)
        &&& !occurs_in(key, p.fields@[i].value@)
    } by {
        assert(field_views(p.fields@)[i] == (p.fields@[i].name@, p.fields@[i].value@));
        assert(fs[i] == field_views(p.fields@)[i]);
    }
}

fn text_field(name: &str, value: String) -> (f: FormField)
    ensures
        f.name@ == name@,
        f.value@ == value@,
{
    FormField { name: String::from_str(name), value }
}

/// The language hint to send, if it forces a language.
pub fn language_to_send(lang: &Option<String>) -> (r: Option<String>)
    ensures
        opt_view(r) == forced_language(opt_view(*lang)),
{
    match lang {
        Some(l) => {
            if l.as_str().unicode_len() > 0 && !same_text(l.as_str(), AUTO_LANGUAGE) {
                Some(l.clone())
            } else {
                None
            }
        },
        None => None,
    }
}

/// The prompt to send, if it is not empty.
pub fn prompt_to_send(prompt: &Option<String>) -> (r: Option<String>)
    ensures
        opt_view(r) == sent_prompt(opt_view(*prompt)),
{
    match prompt {
        Some(p) => {
            if p.as_str().unicode_len() > 0 {
                Some(p.clone())
            } else {
                None
            }
        },
        None => None,
    }
}

/// The full transcription endpoint for a router base URL.
pub fn transcription_url(base_url: &str) -> (r: String)
    ensures
        r@ == endpoint_url(base_url@),
{
    let mut url = without_trailing_slashes(base_url);
    url.append(TRANSCRIPTIONS_PATH);
    url
}

/// Checks a request and turns it into what has to be sent: refused with
/// `EmptyApiKey` when the key is blank, else with `EmptyAudio` when there
/// is no audio; otherwise the plan describes exactly this request.
pub fn plan_transcription(req: CloudAsrRequest) -> (r: Result<TranscriptionPlan, AsrError>)
    ensures
        match r {
            Ok(p) => request_refusal(req) is None && plan_of(p, req),
            Err(e) => request_refusal(req) == Some(e),
        },
{
    if is_blank(req.api_key.as_str()) {
        return Err(AsrError::EmptyApiKey);
    }
    if req.audio_wav.len() == 0 {
        return Err(AsrError::EmptyAudio);
    }
    let url = transcription_url(req.base_url.as_str());
    let mut fields: Vec<FormField> = Vec::new();
    fields.push(text_field("model", req.model.clone()));
    fields.push(text_field("response_format", String::from_str("json")));
    let ghost base = field_views(fields@);
    if let Some(lang) = language_to_send(&req.language) {
        fields.push(text_field("language", lang));
    }
    let ghost with_lang = field_views(fields@);
    if let Some(prompt) = prompt_to_send(&req.initial_prompt) {
        fields.push(text_field("prompt", prompt));
    }
    proof {
        let spec_fields = form_fields(req.model@, opt_view(req.language), opt_view(req.initial_prompt));
        assert(base =~= seq![("model"@, req.model@), ("response_format"@, "json"@)]);
        assert(with_lang =~= base + optional_field("language"@, forced_language(opt_view(req.language))));
        assert(field_views(fields@) =~= with_lang + optional_field("prompt"@, sent_prompt(opt_view(req.initial_prompt))));
        assert(field_views(fields@) =~= spec_fields);
    }
    Ok(TranscriptionPlan {
        url,
        api_key: req.api_key,
        fields,
        audio_wav: req.audio_wav,
        timeout: req.timeout,
    })
}

/// Whether an HTTP status is a success (200..=299).
pub fn is_success_status(status: u16) -> (b: bool)
    ensures
        b == (200 <= status && status <= 299),
{
    200 <= status && status <= 299
}

/// The error for an unsuccessful HTTP answer: its status and at most the
/// first 512 characters of its body.
pub fn http_error(status: u16, body: &str) -> (e: AsrError)
    ensures
        e matches AsrError::Http { status: s, body: b } && s == status
            && b@ == body@.take(
                if MAX_ERROR_BODY_CHARS < body@.len() { MAX_ERROR_BODY_CHARS as int } else { body@.len() as int },
            ),
{
    AsrError::Http { status, body: take_chars(body, MAX_ERROR_BODY_CHARS) }
}

/// Turns a decoded answer into the result: refused with `MissingTeeProof`
/// exactly when a proof is required and the answer has none; otherwise the
/// text, language and proof of the answer with the measured latency.
pub fn finish_transcription(
    parsed: ApiResponse,
    require_tee_proof: bool,
    latency_ms: u128,
) -> (r: Result<CloudAsrResult, AsrError>)
    ensures
        match r {
            Ok(res) => {
                &&& !(require_tee_proof && parsed.tee_proof is None)
                &&& res == (CloudAsrResult {
                    text: parsed.text,
                    language: parsed.language,
                    proof: parsed.tee_proof,
                    latency_ms,
                })
            },
            Err(e) => require_tee_proof && parsed.tee_proof is None && e == AsrError::MissingTeeProof,
        },
{
    if require_tee_proof && parsed.tee_proof.is_none() {
        return Err(AsrError::MissingTeeProof);
    }
    Ok(CloudAsrResult {
        text: parsed.text,
        language: parsed.language,
        proof: parsed.tee_proof,
        latency_ms,
    })
}

/// The reason phrase the `http` crate gives a status code
/// (`StatusCode::canonical_reason`), or `<unknown status code>` where it
/// has none.
pub uninterp spec fn status_reason(status: u16) -> Seq<char>;

/// reqwest's `StatusCode` as text: its `Display` writes the code in decimal,
/// a space, and the reason phrase.
#[verifier::external_body]
fn status_code_text(status: u16) -> (r: String)
    requires
        100 <= status <= 999,
    ensures
        r@ == decimal(status as nat) + " "@ + status_reason(status),
{
    match reqwest::StatusCode::from_u16(status) {
        Ok(code) => code.to_string(),
        Err(_) => status.to_string(),
    }
}

/// How an HTTP status is written in messages: as reqwest displays a valid
/// status code, and in bare decimal otherwise.
pub open spec fn http_status_text(status: u16) -> Seq<char> {
    if 100 <= status <= 999 {
        decimal(status as nat) + " "@ + status_reason(status)
    } else {
        decimal(status as nat)
    }
}

/// The message that describes a transcription error to the user.
pub open spec fn asr_message(e: AsrError) -> Seq<char> {
    match e {
        AsrError::EmptyApiKey => "0G Compute API key is empty"@,
        AsrError::EmptyAudio => "audio buffer is empty"@,
        AsrError::Http { status, body } => "0G ASR HTTP "@ + http_status_text(status) + ": "@ + body@,
        AsrError::MissingTeeProof => "TEE attestation required but provider response had no tee_proof"@,
        AsrError::ProviderNotRegistered { provider_id } =>
            "cloud ASR provider '"@ + provider_id@ + "' is not registered in post_process_providers"@,
        AsrError::MissingApiKey { provider_id } =>
            "cloud ASR provider '"@ + provider_id@ + "' has no API key configured"@,
    }
}

impl AsrError {
    /// The message that describes this error to the user.
    pub fn message(&self) -> (r: String)
        ensures
            r@ == asr_message(*self),
    {
        match self {
            AsrError::EmptyApiKey => String::from_str("0G Compute API key is empty"),
            AsrError::EmptyAudio => String::from_str("audio buffer is empty"),
            AsrError::Http { status, body } => {
                let mut r = String::from_str("0G ASR HTTP ");
                if 100 <= *status && *status <= 999 {
                    let code = status_code_text(*status);
                    r.append(code.as_str());
                } else {
                    let code = decimal_text(*status as u64);
                    r.append(code.as_str());
                }
                r.append(": ");
                r.append(body.as_str());
                r
            },
            AsrError::MissingTeeProof => String::from_str(
                "TEE attestation required but provider response had no tee_proof",
            ),
            AsrError::ProviderNotRegistered { provider_id } => {
                let mut r = String::from_str("cloud ASR provider '");
                r.append(provider_id.as_str());
                r.append("' is not registered in post_process_providers");
                r
            },
            AsrError::MissingApiKey { provider_id } => {
                let mut r = String::from_str("cloud ASR provider '");
                r.append(provider_id.as_str());
                r.append("' has no API key configured");
                r
            },
        }
    }
}

} // verus!
