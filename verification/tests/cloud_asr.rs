use std::time::Duration;

use handy_asr::request::{CloudAsrRequest, DEFAULT_0G_ASR_MODEL, ZH_INITIAL_PROMPT};
use handy_asr::transcribe::{
    finish_transcription, http_error, is_success_status, plan_transcription, transcription_url,
    ApiResponse, AsrError, TeeProof,
};

#[test]
fn builder_sets_defaults() {
    let req = CloudAsrRequest::new("https://x/v1", "k", vec![0u8; 8]);
    assert_eq!(req.model, DEFAULT_0G_ASR_MODEL);
    assert!(req.language.is_none());
    assert!(req.initial_prompt.is_none());
    assert!(!req.require_tee_proof);
    assert_eq!(req.timeout, Duration::from_secs(60));
}

#[test]
fn builder_chains() {
    let req = CloudAsrRequest::new("https://x/v1", "k", vec![0u8; 8])
        .with_model("whisper-large-v3-turbo")
        .with_language("zh")
        .with_initial_prompt(ZH_INITIAL_PROMPT)
        .with_require_tee_proof(true)
        .with_timeout(Duration::from_secs(30));
    assert_eq!(req.model, "whisper-large-v3-turbo");
    assert_eq!(req.language.as_deref(), Some("zh"));
    assert_eq!(req.initial_prompt.as_deref(), Some(ZH_INITIAL_PROMPT));
    assert!(req.require_tee_proof);
    assert_eq!(req.timeout, Duration::from_secs(30));
}

#[test]
fn builder_keeps_other_fields() {
    let req = CloudAsrRequest::new("https://x/v1", "k", vec![1u8, 2, 3]).with_model("m");
    assert_eq!(req.base_url, "https://x/v1");
    assert_eq!(req.api_key, "k");
    assert_eq!(req.audio_wav, vec![1u8, 2, 3]);
    assert!(req.language.is_none());
    assert_eq!(req.timeout, Duration::from_secs(60));
}

#[test]
fn rejects_empty_api_key() {
    let req = CloudAsrRequest::new("https://x/v1", "", vec![0u8; 8]);
    assert!(matches!(plan_transcription(req), Err(AsrError::EmptyApiKey)));
}

#[test]
fn plan_rejects_blank_api_key() {
    let req = CloudAsrRequest::new("https://x/v1", " \t\n\u{3000}", vec![0u8; 8]);
    assert!(matches!(plan_transcription(req), Err(AsrError::EmptyApiKey)));
}

#[test]
fn rejects_empty_audio() {
    let req = CloudAsrRequest::new("https://x/v1", "k", vec![]);
    assert!(matches!(plan_transcription(req), Err(AsrError::EmptyAudio)));
}

#[test]
fn plan_checks_api_key_before_audio() {
    let req = CloudAsrRequest::new("https://x/v1", "  ", vec![]);
    assert!(matches!(plan_transcription(req), Err(AsrError::EmptyApiKey)));
}

fn field_pairs(plan: &handy_asr::transcribe::TranscriptionPlan) -> Vec<(String, String)> {
    plan.fields.iter().map(|f| (f.name.clone(), f.value.clone())).collect()
}

#[test]
fn plan_minimal_request() {
    let req = CloudAsrRequest::new("https://x/v1", "k", vec![7u8; 4]);
    let plan = plan_transcription(req).unwrap();
    assert_eq!(plan.url, "https://x/v1/audio/transcriptions");
    assert_eq!(plan.api_key, "k");
    assert_eq!(plan.audio_wav, vec![7u8; 4]);
    assert_eq!(plan.timeout, Duration::from_secs(60));
    assert_eq!(
        field_pairs(&plan),
        vec![
            ("model".to_string(), "whisper-large-v3".to_string()),
            ("response_format".to_string(), "json".to_string()),
        ]
    );
}

#[test]
fn plan_sends_language_and_prompt() {
    let req = CloudAsrRequest::new("https://x/v1/", "k", vec![1u8])
        .with_language("zh")
        .with_initial_prompt("hello")
        .with_timeout(Duration::from_secs(5));
    let plan = plan_transcription(req).unwrap();
    assert_eq!(plan.url, "https://x/v1/audio/transcriptions");
    assert_eq!(plan.timeout, Duration::from_secs(5));
    assert_eq!(
        field_pairs(&plan),
        vec![
            ("model".to_string(), "whisper-large-v3".to_string()),
            ("response_format".to_string(), "json".to_string()),
            ("language".to_string(), "zh".to_string()),
            ("prompt".to_string(), "hello".to_string()),
        ]
    );
}

#[test]
fn plan_skips_auto_and_empty_hints() {
    let req = CloudAsrRequest::new("https://x/v1", "k", vec![1u8])
        .with_language("auto")
        .with_initial_prompt("");
    let plan = plan_transcription(req).unwrap();
    assert_eq!(plan.fields.len(), 2);
    let req = CloudAsrRequest::new("https://x/v1", "k", vec![1u8]).with_language("");
    let plan = plan_transcription(req).unwrap();
    assert_eq!(plan.fields.len(), 2);
}

#[test]
fn url_ignores_trailing_slashes() {
    assert_eq!(transcription_url("https://x/v1"), "https://x/v1/audio/transcriptions");
    assert_eq!(transcription_url("https://x/v1/"), "https://x/v1/audio/transcriptions");
    assert_eq!(transcription_url("https://x/v1///"), "https://x/v1/audio/transcriptions");
    assert_eq!(transcription_url(""), "/audio/transcriptions");
    assert_eq!(transcription_url("///"), "/audio/transcriptions");
}

#[test]
fn success_statuses() {
    assert!(is_success_status(200));
    assert!(is_success_status(204));
    assert!(is_success_status(299));
    assert!(!is_success_status(199));
    assert!(!is_success_status(300));
    assert!(!is_success_status(404));
    assert!(!is_success_status(500));
}

#[test]
fn http_error_keeps_short_body() {
    match http_error(404, "not found") {
        AsrError::Http { status, body } => {
            assert_eq!(status, 404);
            assert_eq!(body, "not found");
        }
        other => panic!("unexpected error {:?}", other),
    }
}

#[test]
fn http_error_truncates_to_512_chars() {
    let long: String = "é".repeat(600);
    match http_error(500, &long) {
        AsrError::Http { status, body } => {
            assert_eq!(status, 500);
            assert_eq!(body.chars().count(), 512);
            assert_eq!(body, "é".repeat(512));
        }
        other => panic!("unexpected error {:?}", other),
    }
}

fn sample_proof() -> TeeProof {
    TeeProof {
        signer_address: "0xabc".to_string(),
        compose_hash: "c".to_string(),
        signature: "s".to_string(),
        model_hash: None,
    }
}

#[test]
fn missing_tee_proof_is_refused_when_required() {
    let parsed = ApiResponse { text: "hi".to_string(), language: None, tee_proof: None };
    assert!(matches!(finish_transcription(parsed, true, 5), Err(AsrError::MissingTeeProof)));
}

#[test]
fn missing_tee_proof_is_accepted_when_optional() {
    let parsed = ApiResponse { text: "hi".to_string(), language: Some("en".to_string()), tee_proof: None };
    let res = finish_transcription(parsed, false, 42).unwrap();
    assert_eq!(res.text, "hi");
    assert_eq!(res.language.as_deref(), Some("en"));
    assert!(res.proof.is_none());
    assert_eq!(res.latency_ms, 42);
}

#[test]
fn tee_proof_is_passed_through() {
    let parsed = ApiResponse { text: "你好".to_string(), language: Some("zh".to_string()), tee_proof: Some(sample_proof()) };
    let res = finish_transcription(parsed, true, 7).unwrap();
    assert_eq!(res.text, "你好");
    let p = res.proof.unwrap();
    assert_eq!(p.signer_address, "0xabc");
    assert_eq!(p.compose_hash, "c");
    assert_eq!(p.signature, "s");
    assert!(p.model_hash.is_none());
}

#[test]
fn api_key_is_only_the_bearer_token() {
    let req = CloudAsrRequest::new("https://x/v1", "sk-secret", vec![1u8])
        .with_language("en")
        .with_initial_prompt("hello");
    let plan = plan_transcription(req).unwrap();
    assert_eq!(plan.api_key, "sk-secret");
    assert!(!plan.url.contains("sk-secret"));
    for f in &plan.fields {
        assert!(!f.name.contains("sk-secret"));
        assert!(!f.value.contains("sk-secret"));
    }
}

#[test]
fn rejects_empty_api_key_with_message() {
    let req = CloudAsrRequest::new("https://x/v1", "", vec![0u8; 8]);
    let err = plan_transcription(req).unwrap_err();
    assert!(err.message().contains("API key"));
    assert_eq!(err.message(), "0G Compute API key is empty");
}

#[test]
fn rejects_empty_audio_with_message() {
    let req = CloudAsrRequest::new("https://x/v1", "k", vec![]);
    let err = plan_transcription(req).unwrap_err();
    assert!(err.message().contains("audio"));
    assert_eq!(err.message(), "audio buffer is empty");
}

#[test]
fn error_messages() {
    assert_eq!(http_error(404, "gone").message(), "0G ASR HTTP 404 Not Found: gone");
    assert_eq!(http_error(503, "").message(), "0G ASR HTTP 503 Service Unavailable: ");
    assert_eq!(http_error(42, "x").message(), "0G ASR HTTP 42: x");
    assert_eq!(
        AsrError::MissingTeeProof.message(),
        "TEE attestation required but provider response had no tee_proof"
    );
    assert_eq!(
        AsrError::ProviderNotRegistered { provider_id: "zerog".to_string() }.message(),
        "cloud ASR provider 'zerog' is not registered in post_process_providers"
    );
    assert_eq!(
        AsrError::MissingApiKey { provider_id: "zerog".to_string() }.message(),
        "cloud ASR provider 'zerog' has no API key configured"
    );
}
