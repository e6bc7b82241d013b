use handy_asr::request::ZH_INITIAL_PROMPT;
use handy_asr::settings::{initial_prompt_for, map_language, request_from_settings, ApiKeyEntry, CloudAsrSettings, ProviderEntry};
use handy_asr::transcribe::AsrError;

fn settings() -> CloudAsrSettings {
    CloudAsrSettings {
        cloud_asr_provider_id: "zerog".to_string(),
        post_process_providers: vec![
            ProviderEntry { id: "openai".to_string(), base_url: "https://api.openai.com/v1".to_string() },
            ProviderEntry { id: "zerog".to_string(), base_url: "https://router-api.0g.ai/v1".to_string() },
        ],
        post_process_api_keys: vec![
            ApiKeyEntry { provider_id: "openai".to_string(), api_key: "sk-openai".to_string() },
            ApiKeyEntry { provider_id: "zerog".to_string(), api_key: "sk-zerog".to_string() },
        ],
        selected_language: "auto".to_string(),
        cloud_asr_model: "whisper-large-v3-turbo".to_string(),
        cloud_asr_require_tee_proof: true,
        custom_words: vec![],
    }
}

#[test]
fn language_mapping() {
    assert_eq!(map_language("auto"), None);
    assert_eq!(map_language(""), None);
    assert_eq!(map_language("zh-Hans").as_deref(), Some("zh"));
    assert_eq!(map_language("zh-Hant").as_deref(), Some("zh"));
    assert_eq!(map_language("zh-CN").as_deref(), Some("zh"));
    assert_eq!(map_language("zh-TW").as_deref(), Some("zh"));
    assert_eq!(map_language("zh").as_deref(), Some("zh"));
    assert_eq!(map_language("en").as_deref(), Some("en"));
    assert_eq!(map_language("ja").as_deref(), Some("ja"));
}

#[test]
fn prompt_for_chinese_without_words() {
    let p = initial_prompt_for(&Some("zh".to_string()), &vec![]);
    assert_eq!(p.as_deref(), Some(ZH_INITIAL_PROMPT));
}

#[test]
fn prompt_for_chinese_with_words() {
    let words = vec!["Verus".to_string(), "零知识".to_string()];
    let p = initial_prompt_for(&Some("zh".to_string()), &words);
    assert_eq!(p.unwrap(), format!("{} 自定义词汇：Verus, 零知识.", ZH_INITIAL_PROMPT));
}

#[test]
fn prompt_for_other_language_with_words() {
    let words = vec!["Verus".to_string(), "Handy".to_string()];
    let p = initial_prompt_for(&Some("en".to_string()), &words);
    assert_eq!(p.as_deref(), Some("Use these custom words when relevant: Verus, Handy."));
    let p = initial_prompt_for(&None, &vec!["one".to_string()]);
    assert_eq!(p.as_deref(), Some("Use these custom words when relevant: one."));
}

#[test]
fn no_prompt_without_chinese_or_words() {
    assert_eq!(initial_prompt_for(&None, &vec![]), None);
    assert_eq!(initial_prompt_for(&Some("en".to_string()), &vec![]), None);
}

#[test]
fn settings_build_request() {
    let req = request_from_settings(&settings(), vec![1u8, 2]).unwrap();
    assert_eq!(req.base_url, "https://router-api.0g.ai/v1");
    assert_eq!(req.api_key, "sk-zerog");
    assert_eq!(req.model, "whisper-large-v3-turbo");
    assert_eq!(req.audio_wav, vec![1u8, 2]);
    assert!(req.language.is_none());
    assert!(req.initial_prompt.is_none());
    assert!(req.require_tee_proof);
    assert_eq!(req.timeout, std::time::Duration::from_secs(60));
}

#[test]
fn settings_chinese_with_custom_words() {
    let mut s = settings();
    s.selected_language = "zh-Hans".to_string();
    s.custom_words = vec!["Handy".to_string()];
    let req = request_from_settings(&s, vec![1u8]).unwrap();
    assert_eq!(req.language.as_deref(), Some("zh"));
    assert_eq!(req.initial_prompt.unwrap(), format!("{} 自定义词汇：Handy.", ZH_INITIAL_PROMPT));
}

#[test]
fn settings_unknown_provider() {
    let mut s = settings();
    s.cloud_asr_provider_id = "missing".to_string();
    match request_from_settings(&s, vec![1u8]) {
        Err(AsrError::ProviderNotRegistered { provider_id }) => assert_eq!(provider_id, "missing"),
        other => panic!("unexpected {:?}", other.map(|r| r.base_url)),
    }
}

#[test]
fn settings_missing_or_empty_key() {
    let mut s = settings();
    s.post_process_api_keys.retain(|k| k.provider_id != "zerog");
    match request_from_settings(&s, vec![1u8]) {
        Err(AsrError::MissingApiKey { provider_id }) => assert_eq!(provider_id, "zerog"),
        other => panic!("unexpected {:?}", other.map(|r| r.base_url)),
    }
    let mut s = settings();
    s.post_process_api_keys[1].api_key = String::new();
    assert!(matches!(request_from_settings(&s, vec![1u8]), Err(AsrError::MissingApiKey { .. })));
}

#[test]
fn credentials_come_before_audio() {
    let c = handy_asr::settings::cloud_credentials(&settings()).unwrap();
    assert_eq!(c.base_url, "https://router-api.0g.ai/v1");
    assert_eq!(c.api_key, "sk-zerog");
    let req = handy_asr::settings::request_with_credentials(&settings(), &c, vec![9u8]);
    assert_eq!(req.api_key, "sk-zerog");
    assert_eq!(req.audio_wav, vec![9u8]);
    let mut s = settings();
    s.cloud_asr_provider_id = "nope".to_string();
    assert!(matches!(
        handy_asr::settings::cloud_credentials(&s),
        Err(AsrError::ProviderNotRegistered { .. })
    ));
}

#[test]
fn lookups_take_the_entry_with_the_id() {
    let s = settings();
    let p = handy_asr::settings::lookup_provider(&s.post_process_providers, "openai").unwrap();
    assert_eq!(p.base_url, "https://api.openai.com/v1");
    assert_eq!(
        handy_asr::settings::lookup_api_key(&s.post_process_api_keys, "zerog").as_deref(),
        Some("sk-zerog")
    );
    assert_eq!(handy_asr::settings::lookup_api_key(&s.post_process_api_keys, "other"), None);
}
