use vstd::prelude::*;
use vstd::string::*;

use crate::request::{opt_view, secs_duration, CloudAsrRequest, DEFAULT_TIMEOUT_SECS, ZH_INITIAL_PROMPT};
use crate::text::{join_with, lemma_join_layout, lemma_middle_subrange, same_text, seq_join, views, word_start};
use crate::transcribe::{AsrError, AUTO_LANGUAGE};

verus! {

/// Separator between custom words in the prompt.
pub const WORD_SEPARATOR: &'static str = ", ";

/// Introduces the custom words after an existing (Chinese) prompt.
pub const ZH_CUSTOM_WORDS_INTRO: &'static str = " 自定义词汇：";

/// Introduces the custom words when there is no other prompt.
pub const CUSTOM_WORDS_INTRO: &'static str = "Use these custom words when relevant: ";

/// Ends the list of custom words.
pub const CUSTOM_WORDS_END: &'static str = ".";

/// Whisper's code for Chinese.
pub const WHISPER_CHINESE: &'static str = "zh";

/// A registered post-processing provider.
#[derive(Debug, Clone)]
pub struct ProviderEntry {
    pub id: String,
    pub base_url: String,
}

/// The API key stored for a provider.
#[derive(Debug, Clone)]
pub struct ApiKeyEntry {
    pub provider_id: String,
    pub api_key: String,
}

/// The application settings that cloud transcription reads.
#[derive(Debug, Clone)]
pub struct CloudAsrSettings {
    /// Id of the provider used for cloud transcription.
    pub cloud_asr_provider_id: String,
    /// Registered providers. Ids are meant to be unique; a lookup takes the
    /// first entry with the id.
    pub post_process_providers: Vec<ProviderEntry>,
    /// API keys by provider id. Ids are meant to be unique, as in a map; a
    /// lookup takes the first entry with the id.
    pub post_process_api_keys: Vec<ApiKeyEntry>,
    /// The language the user picked (`auto`, `zh-Hans`, `en`, ...).
    pub selected_language: String,
    /// Model to transcribe with.
    pub cloud_asr_model: String,
    /// Whether a TEE proof is required.
    pub cloud_asr_require_tee_proof: bool,
    /// User-defined vocabulary.
    pub custom_words: Vec<String>,
}

/// The first provider registered under `id`.
pub open spec fn find_provider(ps: Seq<ProviderEntry>, id: Seq<char>) -> Option<ProviderEntry>
    decreases ps.len(),
{
    if ps.len() == 0 {
        None
    } else if ps[0].id@ == id {
        Some(ps[0])
    } else {
        find_provider(ps.drop_first(), id)
    }
}

/// The first key stored for `id`.
pub open spec fn find_api_key(ks: Seq<ApiKeyEntry>, id: Seq<char>) -> Option<Seq<char>>
    decreases ks.len(),
{
    if ks.len() == 0 {
        None
    } else if ks[0].provider_id@ == id {
        Some(ks[0].api_key@)
    } else {
        find_api_key(ks.drop_first(), id)
    }
}

/// The key stored for `id`, when it is not empty.
pub open spec fn usable_api_key(ks: Seq<ApiKeyEntry>, id: Seq<char>) -> Option<Seq<char>> {
    match find_api_key(ks, id) {
        Some(k) => if k.len() > 0 { Some(k) } else { None },
        None => None,
    }
}

/// The language code Whisper is given for the user's choice: none for
/// `auto` or nothing, `zh` for any Chinese variant, the choice otherwise.
pub open spec fn whisper_language(selected: Seq<char>) -> Option<Seq<char>> {
    if selected == AUTO_LANGUAGE@ || selected.len() == 0 {
        None
    } else if selected == "zh-Hans"@ || selected == "zh-Hant"@ || selected == "zh-CN"@
        || selected == "zh-TW"@ {
        Some(WHISPER_CHINESE@)
    } else {
        Some(selected)
    }
}

/// The initial prompt: the Chinese punctuation prompt for Chinese, then the
/// custom words folded in when there are any.
pub open spec fn settings_prompt(language: Option<Seq<char>>, words: Seq<Seq<char>>) -> Option<Seq<char>> {
    let base = if language == Some(WHISPER_CHINESE@) {
        Some(ZH_INITIAL_PROMPT@)
    } else {
        None::<Seq<char>>
    };
    if words.len() == 0 {
        base
    } else {
        let extras = seq_join(words, WORD_SEPARATOR@);
        match base {
            Some(existing) => Some(existing + ZH_CUSTOM_WORDS_INTRO@ + extras + CUSTOM_WORDS_END@),
            None => Some(CUSTOM_WORDS_INTRO@ + extras + CUSTOM_WORDS_END@),
        }
    }
}

/// Which languages become Chinese: exactly the four Chinese variants and
/// `zh` itself map to `zh`; `auto` and the empty choice force nothing; any
/// other choice is passed through unchanged.
pub proof fn lemma_language_mapping(selected: Seq<char>)
    ensures
        whisper_language(selected) == Some("zh"@) <==> (selected == "zh-Hans"@ || selected == "zh-Hant"@
            || selected == "zh-CN"@ || selected == "zh-TW"@ || selected == "zh"@),
        whisper_language(selected) is None <==> (selected == "auto"@ || selected.len() == 0),
        selected != "auto"@ && selected.len() > 0 && selected != "zh-Hans"@ && selected != "zh-Hant"@
            && selected != "zh-CN"@ && selected != "zh-TW"@ ==> whisper_language(selected) == Some(selected),
{
    reveal_strlit("zh");
    reveal_strlit("auto");
    reveal_strlit("zh-Hans");
    reveal_strlit("zh-Hant");
    reveal_strlit("zh-CN");
    reveal_strlit("zh-TW");
    assert(WHISPER_CHINESE@ =~= "zh"@);
    assert(AUTO_LANGUAGE@ =~= "auto"@);
    assert("zh"@ != "auto"@) by { assert("zh"@.len() != "auto"@.len()); }
}

/// Every custom word reaches the prompt, in order: after the introduction
/// (the Chinese prompt and its custom-word lead-in for `zh`, the English
/// lead-in otherwise) come the words, `", "` between neighbours, then `.`,
/// and nothing else.
pub proof fn lemma_custom_words_in_prompt(language: Option<Seq<char>>, words: Seq<Seq<char>>)
    requires
        words.len() > 0,
    ensures
        ({
            let intro = if language == Some("zh"@) {
                ZH_INITIAL_PROMPT@ + " 自定义词汇："@
            } else {
                "Use these custom words when relevant: "@
            };
            let t = settings_prompt(language, words)->0;
            let start = intro.len() as int;
            let n = words.len() as int;
            &&& settings_prompt(language, words) is Some
            &&& t.subrange(0, start) == intro
            &&& t.len() == start + word_start(words, 2, n) - 2 + 1
            &&& t.last() == '.'
            &&& forall|i: int| 0 <= i < n ==>
                t.subrange(start + word_start(words, 2, i), start + word_start(words, 2, i) + words[i].len())
                    == #[trigger] words[i]
            &&& forall|i: int| 0 <= i < n - 1 ==>
                t.subrange(start + word_start(words, 2, i) + words[i].len(), start + #[trigger] word_start(words, 2, i + 1))
                    == ", "@
        }),
{
    let intro = if language == Some("zh"@) {
        ZH_INITIAL_PROMPT@ + " 自定义词汇："@
    } else {
        "Use these custom words when relevant: "@
    };
    let sep = ", "@;
    let extras = seq_join(words, sep);
    let t = settings_prompt(language, words)->0;
    let start = intro.len() as int;
    let n = words.len() as int;
    lemma_prompt_shape(language, words);
    assert(sep.len() == 2) by { reveal_strlit(", "); }
    assert(t.subrange(0, start) =~= intro);
    assert(t.last() == '.') by { reveal_strlit("."); }
    assert(t.len() == start + extras.len() + 1) by { reveal_strlit("."); }
    lemma_join_layout(words, sep);
    assert forall|i: int| 0 <= i < n implies
        t.subrange(start + word_start(words, 2, i), start + word_start(words, 2, i) + words[i].len())
            == #[trigger] words[i] by {
        let a = word_start(words, 2, i);
        lemma_middle_subrange(intro, extras, "."@, a, a + words[i].len());
    }
    assert forall|i: int| 0 <= i < n - 1 implies
        t.subrange(start + word_start(words, 2, i) + words[i].len(), start + #[trigger] word_start(words, 2, i + 1))
            == ", "@ by {
        let a = word_start(words, 2, i) + words[i].len();
        let b = word_start(words, 2, i + 1);
        assert(0 <= word_start(words, 2, i));
        lemma_middle_subrange(intro, extras, "."@, a, b);
    }
}

proof fn lemma_prompt_shape(language: Option<Seq<char>>, words: Seq<Seq<char>>)
    requires
        words.len() > 0,
    ensures
        settings_prompt(language, words) == Some(
            (if language == Some("zh"@) {
                ZH_INITIAL_PROMPT@ + " 自定义词汇："@
            } else {
                "Use these custom words when relevant: "@
            }) + seq_join(words, ", "@) + "."@,
        ),
{
    assert(WHISPER_CHINESE@ == "zh"@);
    assert(WORD_SEPARATOR@ == ", "@);
    assert(CUSTOM_WORDS_END@ == "."@);
    assert(ZH_CUSTOM_WORDS_INTRO@ == " 自定义词汇："@);
    assert(CUSTOM_WORDS_INTRO@ == "Use these custom words when relevant: "@);
}

/// Without custom words, the prompt is the Chinese punctuation prompt for
/// `zh` and nothing otherwise.
pub proof fn lemma_prompt_without_words(language: Option<Seq<char>>)
    ensures
        settings_prompt(language, Seq::empty())
            == if language == Some("zh"@) { Some(ZH_INITIAL_PROMPT@) } else { None },
{
    reveal_strlit("zh");
    assert(WHISPER_CHINESE@ =~= "zh"@);
}

/// No two providers share an id.
pub open spec fn unique_provider_ids(ps: Seq<ProviderEntry>) -> bool {
    forall|i: int, j: int| 0 <= i < j < ps.len() ==> ps[i].id@ != ps[j].id@
}

/// No two keys share a provider id: the list is a map from id to key.
pub open spec fn unique_key_ids(ks: Seq<ApiKeyEntry>) -> bool {
    forall|i: int, j: int| 0 <= i < j < ks.len() ==> ks[i].provider_id@ != ks[j].provider_id@
}

/// With unique ids, looking a provider up by the id of any entry gives that
/// entry, as a map would.
pub proof fn lemma_unique_provider_lookup(ps: Seq<ProviderEntry>, i: int)
    requires
        unique_provider_ids(ps),
        0 <= i < ps.len(),
    ensures
        find_provider(ps, ps[i].id@) == Some(ps[i]),
    decreases i,
{
    if i > 0 {
        assert(ps[0].id@ != ps[i].id@);
        let rest = ps.drop_first();
        assert(rest[i - 1] == ps[i]);
        assert forall|a: int, b: int| 0 <= a < b < rest.len() implies rest[a].id@ != rest[b].id@ by {
            assert(rest[a] == ps[a + 1] && rest[b] == ps[b + 1]);
        }
        lemma_unique_provider_lookup(rest, i - 1);
    }
}

/// With unique ids, looking a key up by the id of any entry gives that
/// entry's key, as a map would.
pub proof fn lemma_unique_key_lookup(ks: Seq<ApiKeyEntry>, i: int)
    requires
        unique_key_ids(ks),
        0 <= i < ks.len(),
    ensures
        find_api_key(ks, ks[i].provider_id@) == Some(ks[i].api_key@),
    decreases i,
{
    if i > 0 {
        assert(ks[0].provider_id@ != ks[i].provider_id@);
        let rest = ks.drop_first();
        assert(rest[i - 1] == ks[i]);
        assert forall|a: int, b: int| 0 <= a < b < rest.len() implies rest[a].provider_id@ != rest[b].provider_id@ by {
            assert(rest[a] == ks[a + 1] && rest[b] == ks[b + 1]);
        }
        lemma_unique_key_lookup(rest, i - 1);
    }
}

proof fn lemma_find_provider_skip(ps: Seq<ProviderEntry>, id: Seq<char>, i: int)
    requires
        0 <= i < ps.len(),
        ps[i].id@ != id,
    ensures
        find_provider(ps.skip(i), id) == find_provider(ps.skip(i + 1), id),
{
    assert(ps.skip(i).drop_first() =~= ps.skip(i + 1));
}

proof fn lemma_find_api_key_skip(ks: Seq<ApiKeyEntry>, id: Seq<char>, i: int)
    requires
        0 <= i < ks.len(),
        ks[i].provider_id@ != id,
    ensures
        find_api_key(ks.skip(i), id) == find_api_key(ks.skip(i + 1), id),
{
    assert(ks.skip(i).drop_first() =~= ks.skip(i + 1));
}

/// The first provider registered under `id`.
pub fn lookup_provider<'a>(ps: &'a Vec<ProviderEntry>, id: &str) -> (r: Option<&'a ProviderEntry>)
    ensures
        match r {
            Some(p) => find_provider(ps@, id@) == Some(*p),
            None => find_provider(ps@, id@) is None,
        },
{
    let n = ps.len();
    let mut i: usize = 0;
    proof {
        assert(ps@.skip(0) =~= ps@);
    }
    while i < n
        invariant
            n == ps@.len(),
            i <= n,
            find_provider(ps@, id@) == find_provider(ps@.skip(i as int), id@),
        decreases n - i,
    {
        if same_text(ps[i].id.as_str(), id) {
            return Some(&ps[i]);
        }
        proof {
            lemma_find_provider_skip(ps@, id@, i as int);
        }
        i = i + 1;
    }
    None
}

/// The non-empty API key stored for `id`, if there is one.
pub fn lookup_api_key(ks: &Vec<ApiKeyEntry>, id: &str) -> (r: Option<String>)
    ensures
        opt_view(r) == usable_api_key(ks@, id@),
{
    let n = ks.len();
    let mut i: usize = 0;
    proof {
        assert(ks@.skip(0) =~= ks@);
    }
    while i < n
        invariant
            n == ks@.len(),
            i <= n,
            find_api_key(ks@, id@) == find_api_key(ks@.skip(i as int), id@),
        decreases n - i,
    {
        if same_text(ks[i].provider_id.as_str(), id) {
            if ks[i].api_key.as_str().unicode_len() > 0 {
                return Some(ks[i].api_key.clone());
            } else {
                return None;
            }
        }
        proof {
            lemma_find_api_key_skip(ks@, id@, i as int);
        }
        i = i + 1;
    }
    None
}

/// Maps the user's language choice to the code Whisper understands.
pub fn map_language(selected: &str) -> (r: Option<String>)
    ensures
        opt_view(r) == whisper_language(selected@),
{
    if same_text(selected, AUTO_LANGUAGE) || selected.unicode_len() == 0 {
        None
    } else if same_text(selected, "zh-Hans") || same_text(selected, "zh-Hant")
        || same_text(selected, "zh-CN") || same_text(selected, "zh-TW") {
        Some(String::from_str(WHISPER_CHINESE))
    } else {
        Some(String::from_str(selected))
    }
}

/// The initial prompt for a language and a list of custom words.
pub fn initial_prompt_for(language: &Option<String>, custom_words: &Vec<String>) -> (r: Option<String>)
    ensures
        opt_view(r) == settings_prompt(opt_view(*language), views(custom_words@)),
{
    let is_chinese = match language {
        Some(l) => same_text(l.as_str(), WHISPER_CHINESE),
        None => false,
    };
    proof {
        assert(is_chinese == (opt_view(*language) == Some(WHISPER_CHINESE@)));
    }
    if custom_words.len() == 0 {
        if is_chinese {
            return Some(String::from_str(ZH_INITIAL_PROMPT));
        } else {
            return None;
        }
    }
    let extras = join_with(custom_words.as_slice(), WORD_SEPARATOR);
    let mut prompt = if is_chinese {
        let mut p = String::from_str(ZH_INITIAL_PROMPT);
        p.append(ZH_CUSTOM_WORDS_INTRO);
        p
    } else {
        String::from_str(CUSTOM_WORDS_INTRO)
    };
    prompt.append(extras.as_str());
    prompt.append(CUSTOM_WORDS_END);
    Some(prompt)
}

/// Where cloud transcription is sent, and with which key.
#[derive(Debug, Clone)]
pub struct CloudCredentials {
    pub base_url: String,
    pub api_key: String,
}

/// The base URL of the configured provider and its API key: refused with
/// `ProviderNotRegistered` when the provider is unknown, else with
/// `MissingApiKey` when it has no non-empty key.
pub fn cloud_credentials(settings: &CloudAsrSettings) -> (r: Result<CloudCredentials, AsrError>)
    ensures
        ({
            let id = settings.cloud_asr_provider_id@;
            let provider = find_provider(settings.post_process_providers@, id);
            let key = usable_api_key(settings.post_process_api_keys@, id);
            match r {
                Ok(c) => {
                    &&& provider is Some && key is Some
                    &&& c.base_url@ == provider->0.base_url@
                    &&& c.api_key@ == key->0
                },
                Err(e) => {
                    ||| provider is None && (e matches AsrError::ProviderNotRegistered { provider_id } && provider_id@ == id)
                    ||| provider is Some && key is None && (e matches AsrError::MissingApiKey { provider_id } && provider_id@ == id)
                },
            }
        }),
{
    let id = settings.cloud_asr_provider_id.as_str();
    let provider = match lookup_provider(&settings.post_process_providers, id) {
        Some(p) => p,
        None => {
            return Err(AsrError::ProviderNotRegistered { provider_id: settings.cloud_asr_provider_id.clone() });
        },
    };
    let api_key = match lookup_api_key(&settings.post_process_api_keys, id) {
        Some(k) => k,
        None => {
            return Err(AsrError::MissingApiKey { provider_id: settings.cloud_asr_provider_id.clone() });
        },
    };
    Ok(CloudCredentials { base_url: provider.base_url.clone(), api_key })
}

/// The request the settings describe for the given credentials and audio.
pub fn request_with_credentials(settings: &CloudAsrSettings, credentials: &CloudCredentials, audio_wav: Vec<u8>) -> (req: CloudAsrRequest)
    ensures
        ({
            let language = whisper_language(settings.selected_language@);
            &&& req.base_url@ == credentials.base_url@
            &&& req.api_key@ == credentials.api_key@
            &&& req.model@ == settings.cloud_asr_model@
            &&& req.audio_wav@ == audio_wav@
            &&& opt_view(req.language) == language
            &&& opt_view(req.initial_prompt) == settings_prompt(language, views(settings.custom_words@))
            &&& req.require_tee_proof == settings.cloud_asr_require_tee_proof
            &&& req.timeout == secs_duration(DEFAULT_TIMEOUT_SECS)
        }),
{
    let language = map_language(settings.selected_language.as_str());
    let prompt = initial_prompt_for(&language, &settings.custom_words);
    let mut req = CloudAsrRequest::new(credentials.base_url.as_str(), credentials.api_key.as_str(), audio_wav)
        .with_model(settings.cloud_asr_model.as_str())
        .with_require_tee_proof(settings.cloud_asr_require_tee_proof);
    if let Some(lang) = &language {
        req = req.with_language(lang.as_str());
    }
    if let Some(p) = &prompt {
        req = req.with_initial_prompt(p.as_str());
    }
    req
}

/// The request the settings describe for the given audio: refused with
/// `ProviderNotRegistered` when the provider is unknown, else with
/// `MissingApiKey` when it has no non-empty key.
pub fn request_from_settings(settings: &CloudAsrSettings, audio_wav: Vec<u8>) -> (r: Result<CloudAsrRequest, AsrError>)
    ensures
        ({
            let id = settings.cloud_asr_provider_id@;
            let provider = find_provider(settings.post_process_providers@, id);
            let key = usable_api_key(settings.post_process_api_keys@, id);
            let language = whisper_language(settings.selected_language@);
            match r {
                Ok(req) => {
                    &&& provider is Some && key is Some
                    &&& req.base_url@ == provider->0.base_url@
                    &&& req.api_key@ == key->0
                    &&& req.model@ == settings.cloud_asr_model@
                    &&& req.audio_wav@ == audio_wav@
                    &&& opt_view(req.language) == language
                    &&& opt_view(req.initial_prompt) == settings_prompt(language, views(settings.custom_words@))
                    &&& req.require_tee_proof == settings.cloud_asr_require_tee_proof
                    &&& req.timeout == secs_duration(DEFAULT_TIMEOUT_SECS)
                },
                Err(e) => {
                    ||| provider is None && (e matches AsrError::ProviderNotRegistered { provider_id } && provider_id@ == id)
                    ||| provider is Some && key is None && (e matches AsrError::MissingApiKey { provider_id } && provider_id@ == id)
                },
            }
        }),
{
    let credentials = cloud_credentials(settings)?;
    Ok(request_with_credentials(settings, &credentials, audio_wav))
}

} // verus!
