//! The values that configuration starts with, and the repair of a stored
//! configuration that predates some of them.

use crate::options::{
    ClipboardHandling, KeyboardImplementation, LogLevel, ModelUnloadTimeout, OperatingSystem,
    OverlayPosition, PasteMethod, Platform, RecordingRetentionPeriod, SoundTheme,
};
use crate::settings::{
    binding_views, find_prompt, find_provider, has_prompt, has_provider,
    lemma_binding_views_insert, lemma_text_views_insert, list_views, text_views,
    AppSettingsView,
    AppSettings, LLMPrompt, LLMPromptView, PostProcessProvider, PostProcessProviderView,
    ShortcutBinding, ShortcutBindingView,
};
use crate::table::Table;
use crate::text::{language_of_locale, language_part, owned, same};
use vstd::prelude::*;

verus! {

/// The id of the on-device provider of Apple-silicon Macs.
pub const APPLE_INTELLIGENCE_PROVIDER_ID: &'static str = "apple_intelligence";

/// The one model that the on-device provider offers.
pub const APPLE_INTELLIGENCE_DEFAULT_MODEL_ID: &'static str = "Apple Intelligence";

/// The file that the settings store keeps the configuration in.
pub const SETTINGS_STORE_PATH: &'static str = "settings_store.json";

/// The bits of `1.0` as a 32-bit float: full volume.
pub const DEFAULT_AUDIO_FEEDBACK_VOLUME_BITS: u32 = 0x3F80_0000;

/// The bits of `0.18` as a 64-bit float.
pub const DEFAULT_WORD_CORRECTION_THRESHOLD_BITS: u64 = 0x3FC7_0A3D_70A3_D70A;

pub const PROMPT_IMPROVE_TRANSCRIPTIONS: &'static str =
    "Clean this transcript:\n1. Fix spelling, capitalization, and punctuation errors\n2. Convert number words to digits (twenty-five → 25, ten percent → 10%, five dollars → $5)\n3. Replace spoken punctuation with symbols (period → ., comma → ,, question mark → ?)\n4. Remove filler words (um, uh, like as filler)\n5. Keep the language in the original version (if it was french, keep it in french for example)\n\nPreserve exact meaning and word order. Do not paraphrase or reorder content.\n\nReturn only the cleaned transcript.\n\nTranscript:\n${output}";

pub const PROMPT_BEAUTIFUL_PROMPTS: &'static str =
    "Refine this transcribed text into a clear, professional, and well-structured prompt for an AI image generator or LLM. Remove filler words and stutters while preserving the core artistic or functional intent.\n\nOriginal: ${output}\n\nBeautiful Prompt:";

pub const PROMPT_EVERYDAY_MESSAGING: &'static str =
    "You are a helpful assistant that rewrites text into clean, casual messages or emails.\n\nInstructions:\n1. Fix grammar, punctuation, and capitalization.\n2. Remove stutters, filler words (um, uh, like), and false starts.\n3. Keep the tone natural and conversational.\n4. CRITICAL: Do NOT add any preamble, conversational filler, or your own commentary (e.g. \"Here is the cleaned text\"). Return ONLY the refined text.\n5. Do NOT verify facts or hallucinate new information. Stick strictly to the provided content.\n\nInput Text:\n\"\"\"\n${output}\n\"\"\"";

pub const PROMPT_PROFESSIONAL_EMAIL: &'static str =
    "You are a professional corporate communications expert.\n\nInstructions:\n1. Rewrite the input into a polished, professional email.\n2. Use a polite and respectful tone.\n3. Ensure clarity and conciseness.\n4. CRITICAL: Return ONLY the email body. Do NOT include subject lines unless obvious, and NO conversational filler.\n\nInput Text:\n\"\"\"\n${output}\n\"\"\"";

pub const PROMPT_BULLET_POINTS: &'static str =
    "You are a summarization expert.\n\nInstructions:\n1. Convert the input text into a concise list of bullet points.\n2. Capture key facts, action items, and decisions.\n3. Remove fluff and repetition.\n4. CRITICAL: Return ONLY the bulleted list.\n\nInput Text:\n\"\"\"\n${output}\n\"\"\"";

pub const PROMPT_SOCIAL_MEDIA_POST: &'static str =
    "You are a social media manager.\n\nInstructions:\n1. Rewrite the text as an engaging social media post (Twitter/LinkedIn style).\n2. Use emojis sparingly but effectively.\n3. Add 2-3 relevant hashtags at the end.\n4. Keep it punchy and under 280 characters if possible, or break into a thread if long.\n5. CRITICAL: Return ONLY the post text.\n\nInput Text:\n\"\"\"\n${output}\n\"\"\"";

pub const PROMPT_MEETING_MINUTES: &'static str =
    "You are a professional scribe.\n\nInstructions:\n1. Format the input text into structured meeting minutes.\n2. Sections: Summary, Action Items, Key Decisions.\n3. Be strictly factual.\n4. CRITICAL: Return ONLY the formatted minutes.\n\nInput Text:\n\"\"\"\n${output}\n\"\"\"";

pub const PROMPT_ELI5: &'static str =
    "You are a teacher for young students.\n\nInstructions:\n1. Rewrite the input text using simple language and analogies.\n2. Aim for a reading level of an 8-10 year old.\n3. Do not be condescending, just clear.\n4. CRITICAL: Return ONLY the explanation.\n\nInput Text:\n\"\"\"\n${output}\n\"\"\"";

pub const PROMPT_CODE_EXPERT: &'static str =
    "You are a senior software engineer.\n\nInstructions:\n1. Interpret the input as a coding voice memo.\n2. If it describes code, write the code snippet.\n3. If it asks a technical question, answer it concisely.\n4. Fix any technical terminology that was likely transcribed incorrectly (e.g., 'sequel' -> 'SQL').\n5. CRITICAL: Return markdown formatted code or technical text ONLY.\n\nInput Text:\n\"\"\"\n${output}\n\"\"\"";

pub const PROMPT_STRICT_PROOFREAD: &'static str =
    "You are a strict proofreader.\n\nInstructions:\n1. Fix ONLY spelling, grammar, and punctuation errors.\n2. Do NOT change the tone, style, or word choice unless grammatically incorrect.\n3. Preserve the original voice exactly.\n4. CRITICAL: Return ONLY the corrected text.\n\nInput Text:\n\"\"\"\n${output}\n\"\"\"";

/// The model that was selected before any was chosen: none.
pub fn default_model() -> (r: String)
    ensures
        r@ == Seq::<char>::empty(),
{
    String::new()
}

pub fn default_always_on_microphone() -> (r: bool)
    ensures
        !r,
{
    false
}

pub fn default_translate_to_english() -> (r: bool)
    ensures
        !r,
{
    false
}

pub fn default_start_hidden() -> (r: bool)
    ensures
        !r,
{
    false
}

pub fn default_autostart_enabled() -> (r: bool)
    ensures
        !r,
{
    false
}

pub fn default_update_checks_enabled() -> (r: bool)
    ensures
        r,
{
    true
}

/// The language to transcribe from: detected from the audio.
pub fn default_selected_language() -> (r: String)
    ensures
        r@ == "auto"@,
{
    owned("auto")
}

pub fn default_overlay_position(platform: Platform) -> (r: OverlayPosition)
    ensures
        r == OverlayPosition::default_on(platform),
{
    if platform.os == OperatingSystem::Linux {
        OverlayPosition::Hidden
    } else {
        OverlayPosition::Bottom
    }
}

pub fn default_debug_mode() -> (r: bool)
    ensures
        !r,
{
    false
}

pub fn default_log_level() -> (r: LogLevel)
    ensures
        r == LogLevel::Debug,
{
    LogLevel::Debug
}

/// The bits of the threshold under which a word may be corrected.
pub fn default_word_correction_threshold() -> (r: u64)
    ensures
        r == DEFAULT_WORD_CORRECTION_THRESHOLD_BITS,
{
    DEFAULT_WORD_CORRECTION_THRESHOLD_BITS
}

pub fn default_history_limit() -> (r: usize)
    ensures
        r == 5,
{
    5
}

pub fn default_recording_retention_period() -> (r: RecordingRetentionPeriod)
    ensures
        r == RecordingRetentionPeriod::PreserveLimit,
{
    RecordingRetentionPeriod::PreserveLimit
}

/// The bits of the volume of the feedback sounds.
pub fn default_audio_feedback_volume() -> (r: u32)
    ensures
        r == DEFAULT_AUDIO_FEEDBACK_VOLUME_BITS,
{
    DEFAULT_AUDIO_FEEDBACK_VOLUME_BITS
}

pub fn default_sound_theme() -> (r: SoundTheme)
    ensures
        r == SoundTheme::Marimba,
{
    SoundTheme::Marimba
}

pub fn default_post_process_enabled() -> (r: bool)
    ensures
        !r,
{
    false
}

pub fn default_post_process_provider_id() -> (r: String)
    ensures
        r@ == "openai"@,
{
    owned("openai")
}

/// The value of a provider made of the given parts.
pub open spec fn provider_of(
    id: &str,
    label: &str,
    base_url: &str,
    allow_base_url_edit: bool,
    models_endpoint: Option<&str>,
) -> PostProcessProviderView {
    PostProcessProviderView {
        id: id@,
        label: label@,
        base_url: base_url@,
        allow_base_url_edit,
        models_endpoint: match models_endpoint {
            Some(path) => Some(path@),
            None => None,
        },
    }
}

/// The providers that every configuration knows, in the order in which
/// they are offered: the hosted ones, the on-device one where the platform
/// can have it, the local server, and last the freely configurable one.
pub open spec fn default_providers(platform: Platform) -> Seq<PostProcessProviderView> {
    let hosted = seq![
        provider_of("openai", "OpenAI", "https://api.openai.com/v1", false, Some("/models")),
        provider_of("openrouter", "OpenRouter", "https://openrouter.ai/api/v1", false, Some("/models")),
        provider_of("anthropic", "Anthropic", "https://api.anthropic.com/v1", false, Some("/models")),
        provider_of("groq", "Groq", "https://api.groq.com/openai/v1", false, Some("/models")),
        provider_of("cerebras", "Cerebras", "https://api.cerebras.ai/v1", false, Some("/models")),
    ];
    let on_device = if platform.offers_apple_intelligence() {
        seq![
            provider_of(
                APPLE_INTELLIGENCE_PROVIDER_ID,
                "Apple Intelligence",
                "apple-intelligence://local",
                false,
                None,
            ),
        ]
    } else {
        Seq::empty()
    };
    let local = seq![
        provider_of("lm_studio", "LM Studio", "http://localhost:1234/v1", true, Some("/models")),
        provider_of("custom", "Custom", "http://localhost:11434/v1", true, Some("/models")),
    ];
    hosted + on_device + local
}

fn provider(
    id: &str,
    label: &str,
    base_url: &str,
    allow_base_url_edit: bool,
    models_endpoint: Option<&str>,
) -> (r: PostProcessProvider)
    ensures
        r@ == provider_of(id, label, base_url, allow_base_url_edit, models_endpoint),
{
    PostProcessProvider {
        id: owned(id),
        label: owned(label),
        base_url: owned(base_url),
        allow_base_url_edit,
        models_endpoint: match models_endpoint {
            Some(path) => Some(owned(path)),
            None => None,
        },
    }
}

/// The providers that every configuration knows.
pub fn default_post_process_providers(platform: Platform) -> (r: Vec<PostProcessProvider>)
    ensures
        r.deep_view() == default_providers(platform),
{
    let mut providers: Vec<PostProcessProvider> = Vec::new();
    providers.push(
        provider("openai", "OpenAI", "https://api.openai.com/v1", false, Some("/models")),
    );
    providers.push(
        provider("openrouter", "OpenRouter", "https://openrouter.ai/api/v1", false, Some("/models")),
    );
    providers.push(
        provider("anthropic", "Anthropic", "https://api.anthropic.com/v1", false, Some("/models")),
    );
    providers.push(
        provider("groq", "Groq", "https://api.groq.com/openai/v1", false, Some("/models")),
    );
    providers.push(
        provider("cerebras", "Cerebras", "https://api.cerebras.ai/v1", false, Some("/models")),
    );
    if platform.has_apple_intelligence() {
        providers.push(
            provider(
                APPLE_INTELLIGENCE_PROVIDER_ID,
                "Apple Intelligence",
                "apple-intelligence://local",
                false,
                None,
            ),
        );
    }
    providers.push(
        provider("lm_studio", "LM Studio", "http://localhost:1234/v1", true, Some("/models")),
    );
    providers.push(
        provider("custom", "Custom", "http://localhost:11434/v1", true, Some("/models")),
    );
    providers
}

/// The model a provider starts with: the on-device provider has its one
/// model, every other provider none.
pub open spec fn default_model_of(provider_id: Seq<char>) -> Seq<char> {
    if provider_id == APPLE_INTELLIGENCE_PROVIDER_ID@ {
        APPLE_INTELLIGENCE_DEFAULT_MODEL_ID@
    } else {
        Seq::empty()
    }
}

/// The model a provider starts with.
pub fn default_model_for_provider(provider_id: &str) -> (r: String)
    ensures
        r@ == default_model_of(provider_id@),
{
    if same(provider_id, APPLE_INTELLIGENCE_PROVIDER_ID) {
        return owned(APPLE_INTELLIGENCE_DEFAULT_MODEL_ID);
    }
    String::new()
}

/// The value of a prompt made of the given parts.
pub open spec fn prompt_of(id: &str, name: &str, prompt: &str) -> LLMPromptView {
    LLMPromptView { id: id@, name: name@, prompt: prompt@ }
}

/// The prompts that every configuration knows, in the order in which they
/// are offered.
pub open spec fn default_prompts() -> Seq<LLMPromptView> {
    seq![
        prompt_of(
            "default_improve_transcriptions",
            "Improve Transcriptions",
            PROMPT_IMPROVE_TRANSCRIPTIONS,
        ),
        prompt_of("beautiful_prompts", "Beautiful Prompts", PROMPT_BEAUTIFUL_PROMPTS),
        prompt_of("everyday_messaging", "Everyday Messaging", PROMPT_EVERYDAY_MESSAGING),
        prompt_of("professional_email", "Professional Email", PROMPT_PROFESSIONAL_EMAIL),
        prompt_of("bullet_points", "Bullet Points", PROMPT_BULLET_POINTS),
        prompt_of("social_media_post", "Social Media Post", PROMPT_SOCIAL_MEDIA_POST),
        prompt_of("meeting_minutes", "Meeting Minutes", PROMPT_MEETING_MINUTES),
        prompt_of("eli5", "Explain Like I'm 5", PROMPT_ELI5),
        prompt_of("code_expert", "Code Expert", PROMPT_CODE_EXPERT),
        prompt_of("strict_proofread", "Strict Proofread", PROMPT_STRICT_PROOFREAD),
    ]
}

fn prompt(id: &str, name: &str, text: &str) -> (r: LLMPrompt)
    ensures
        r@ == prompt_of(id, name, text),
{
    LLMPrompt { id: owned(id), name: owned(name), prompt: owned(text) }
}

/// The prompts that every configuration knows.
pub fn default_post_process_prompts() -> (r: Vec<LLMPrompt>)
    ensures
        r.deep_view() == default_prompts(),
{
    let mut prompts: Vec<LLMPrompt> = Vec::new();
    prompts.push(
        prompt(
            "default_improve_transcriptions",
            "Improve Transcriptions",
            PROMPT_IMPROVE_TRANSCRIPTIONS,
        ),
    );
    prompts.push(prompt("beautiful_prompts", "Beautiful Prompts", PROMPT_BEAUTIFUL_PROMPTS));
    prompts.push(prompt("everyday_messaging", "Everyday Messaging", PROMPT_EVERYDAY_MESSAGING));
    prompts.push(prompt("professional_email", "Professional Email", PROMPT_PROFESSIONAL_EMAIL));
    prompts.push(prompt("bullet_points", "Bullet Points", PROMPT_BULLET_POINTS));
    prompts.push(prompt("social_media_post", "Social Media Post", PROMPT_SOCIAL_MEDIA_POST));
    prompts.push(prompt("meeting_minutes", "Meeting Minutes", PROMPT_MEETING_MINUTES));
    prompts.push(prompt("eli5", "Explain Like I'm 5", PROMPT_ELI5));
    prompts.push(prompt("code_expert", "Code Expert", PROMPT_CODE_EXPERT));
    prompts.push(prompt("strict_proofread", "Strict Proofread", PROMPT_STRICT_PROOFREAD));
    prompts
}

/// The API keys a configuration starts with: an empty one for each
/// provider it knows.
pub open spec fn default_api_keys(platform: Platform) -> Map<Seq<char>, Seq<char>> {
    Map::new(
        |id: Seq<char>| has_provider(default_providers(platform), id),
        |id: Seq<char>| Seq::<char>::empty(),
    )
}

/// The models a configuration starts with: for each provider it knows, the
/// model that provider starts with.
pub open spec fn default_models(platform: Platform) -> Map<Seq<char>, Seq<char>> {
    Map::new(
        |id: Seq<char>| has_provider(default_providers(platform), id),
        |id: Seq<char>| default_model_of(id),
    )
}

/// The API keys a configuration starts with.
pub fn default_post_process_api_keys(platform: Platform) -> (r: Table<String>)
    ensures
        text_views(r@) == default_api_keys(platform),
{
    let providers = default_post_process_providers(platform);
    let mut keys: Table<String> = Table::new();
    let mut i: usize = 0;
    while i < providers.len()
        invariant
            i <= providers.len(),
            providers.deep_view() == default_providers(platform),
            text_views(keys@) == Map::new(
                |id: Seq<char>| has_provider(providers.deep_view().take(i as int), id),
                |id: Seq<char>| Seq::<char>::empty(),
            ),
        decreases providers.len() - i,
    {
        let ghost before = keys@;
        let ghost seen = providers.deep_view().take(i as int);
        let ghost next = providers.deep_view().take(i + 1);
        let value = String::new();
        let ghost stored = value;
        keys.insert(providers[i].id.clone(), value);
        proof {
            let id_here = providers[i as int].id@;
            lemma_text_views_insert(before, id_here, stored);
            assert(next =~= seen.push(providers.deep_view()[i as int]));
            assert forall|id: Seq<char>| has_provider(next, id) <==> has_provider(seen, id) || id
                == id_here by {
                lemma_has_provider_push(seen, providers.deep_view()[i as int], id);
            }
        }
        i = i + 1;
    }
    proof {
        assert(providers.deep_view().take(i as int) =~= providers.deep_view());
    }
    keys
}

/// The models a configuration starts with.
pub fn default_post_process_models(platform: Platform) -> (r: Table<String>)
    ensures
        text_views(r@) == default_models(platform),
{
    let providers = default_post_process_providers(platform);
    let mut models: Table<String> = Table::new();
    let mut i: usize = 0;
    while i < providers.len()
        invariant
            i <= providers.len(),
            providers.deep_view() == default_providers(platform),
            text_views(models@) == Map::new(
                |id: Seq<char>| has_provider(providers.deep_view().take(i as int), id),
                |id: Seq<char>| default_model_of(id),
            ),
        decreases providers.len() - i,
    {
        let ghost before = models@;
        let ghost seen = providers.deep_view().take(i as int);
        let ghost next = providers.deep_view().take(i + 1);
        let value = default_model_for_provider(providers[i].id.as_str());
        let ghost stored = value;
        models.insert(providers[i].id.clone(), value);
        proof {
            let id_here = providers[i as int].id@;
            lemma_text_views_insert(before, id_here, stored);
            assert(next =~= seen.push(providers.deep_view()[i as int]));
            assert forall|id: Seq<char>| has_provider(next, id) <==> has_provider(seen, id) || id
                == id_here by {
                lemma_has_provider_push(seen, providers.deep_view()[i as int], id);
            }
        }
        i = i + 1;
    }
    proof {
        assert(providers.deep_view().take(i as int) =~= providers.deep_view());
    }
    models
}

/// The language of the user interface for the locale of the system: the
/// language part of its name, or English where the system names none.
pub open spec fn app_language_of(locale: Option<Seq<char>>) -> Seq<char> {
    match locale {
        Some(name) => language_part(name),
        None => "en"@,
    }
}

/// The language of the user interface for the locale that the system
/// reports: the language part of its name, or English where it reports
/// none.
pub fn default_app_language(locale: Option<&str>) -> (r: String)
    ensures
        r@ == app_language_of(
            match locale {
                Some(name) => Some(name@),
                None => None,
            },
        ),
{
    match locale {
        Some(name) => language_of_locale(name),
        None => owned("en"),
    }
}

/// The key combination that starts a transcription on a platform.
pub open spec fn default_shortcut_on(platform: Platform) -> Seq<char> {
    match platform.os {
        OperatingSystem::Windows => "ctrl+space"@,
        OperatingSystem::MacOs => "option+space"@,
        OperatingSystem::Linux => "ctrl+space"@,
        OperatingSystem::Other => "alt+space"@,
    }
}

/// The two bindings that every configuration has.
pub open spec fn default_bindings(platform: Platform) -> Map<Seq<char>, ShortcutBindingView> {
    Map::empty().insert(
        "transcribe"@,
        ShortcutBindingView {
            id: "transcribe"@,
            name: "Transcribe"@,
            description: "Converts your speech into text."@,
            default_binding: default_shortcut_on(platform),
            current_binding: default_shortcut_on(platform),
        },
    ).insert(
        "cancel"@,
        ShortcutBindingView {
            id: "cancel"@,
            name: "Cancel"@,
            description: "Cancels the current recording."@,
            default_binding: "escape"@,
            current_binding: "escape"@,
        },
    )
}

fn default_shortcut(platform: Platform) -> (r: &'static str)
    ensures
        r@ == default_shortcut_on(platform),
{
    match platform.os {
        OperatingSystem::Windows => "ctrl+space",
        OperatingSystem::MacOs => "option+space",
        OperatingSystem::Linux => "ctrl+space",
        OperatingSystem::Other => "alt+space",
    }
}

fn default_shortcut_bindings(platform: Platform) -> (r: Table<ShortcutBinding>)
    ensures
        binding_views(r@) == default_bindings(platform),
{
    let shortcut = default_shortcut(platform);
    let mut bindings: Table<ShortcutBinding> = Table::new();
    let transcribe = ShortcutBinding {
        id: owned("transcribe"),
        name: owned("Transcribe"),
        description: owned("Converts your speech into text."),
        default_binding: owned(shortcut),
        current_binding: owned(shortcut),
    };
    let cancel = ShortcutBinding {
        id: owned("cancel"),
        name: owned("Cancel"),
        description: owned("Cancels the current recording."),
        default_binding: owned("escape"),
        current_binding: owned("escape"),
    };
    bindings.insert(owned("transcribe"), transcribe);
    bindings.insert(owned("cancel"), cancel);
    bindings
}

/// The configuration of a fresh installation on the given platform, whose
/// system reports the given locale.
pub open spec fn default_settings(platform: Platform, locale: Option<Seq<char>>) -> AppSettingsView {
    AppSettingsView {
        bindings: default_bindings(platform),
        push_to_talk: true,
        audio_feedback: false,
        audio_feedback_volume_bits: DEFAULT_AUDIO_FEEDBACK_VOLUME_BITS,
        sound_theme: SoundTheme::Marimba,
        start_hidden: false,
        autostart_enabled: false,
        update_checks_enabled: true,
        selected_model: Seq::empty(),
        always_on_microphone: false,
        selected_microphone: None,
        clamshell_microphone: None,
        selected_output_device: None,
        translate_to_english: false,
        selected_language: "auto"@,
        overlay_position: OverlayPosition::default_on(platform),
        debug_mode: false,
        log_level: LogLevel::Debug,
        custom_words: Seq::empty(),
        model_unload_timeout: ModelUnloadTimeout::Never,
        word_correction_threshold_bits: DEFAULT_WORD_CORRECTION_THRESHOLD_BITS,
        history_limit: 5,
        recording_retention_period: RecordingRetentionPeriod::PreserveLimit,
        paste_method: PasteMethod::CtrlV,
        clipboard_handling: ClipboardHandling::DontModify,
        post_process_enabled: false,
        post_process_provider_id: "openai"@,
        post_process_providers: default_providers(platform),
        post_process_api_keys: default_api_keys(platform),
        post_process_models: default_models(platform),
        post_process_prompts: default_prompts(),
        post_process_selected_prompt_id: None,
        mute_while_recording: false,
        append_trailing_space: false,
        app_language: app_language_of(locale),
        experimental_enabled: false,
        keyboard_implementation: KeyboardImplementation::default_on(platform),
        post_process_custom_models: Map::empty(),
    }
}

/// The configuration of a fresh installation.
pub fn get_default_settings(platform: Platform, locale: Option<&str>) -> (r: AppSettings)
    ensures
        r@ == default_settings(
            platform,
            match locale {
                Some(name) => Some(name@),
                None => None,
            },
        ),
{
    let custom_models: Table<Vec<String>> = Table::new();
    let custom_words: Vec<String> = Vec::new();
    proof {
        assert(list_views(custom_models@) =~= Map::empty());
        assert(custom_words.deep_view() =~= Seq::empty());
    }
    AppSettings {
        bindings: default_shortcut_bindings(platform),
        push_to_talk: true,
        audio_feedback: false,
        audio_feedback_volume_bits: default_audio_feedback_volume(),
        sound_theme: default_sound_theme(),
        start_hidden: default_start_hidden(),
        autostart_enabled: default_autostart_enabled(),
        update_checks_enabled: default_update_checks_enabled(),
        selected_model: String::new(),
        always_on_microphone: false,
        selected_microphone: None,
        clamshell_microphone: None,
        selected_output_device: None,
        translate_to_english: false,
        selected_language: owned("auto"),
        overlay_position: default_overlay_position(platform),
        debug_mode: false,
        log_level: default_log_level(),
        custom_words,
        model_unload_timeout: ModelUnloadTimeout::Never,
        word_correction_threshold_bits: default_word_correction_threshold(),
        history_limit: default_history_limit(),
        recording_retention_period: default_recording_retention_period(),
        paste_method: PasteMethod::default(),
        clipboard_handling: ClipboardHandling::default(),
        post_process_enabled: default_post_process_enabled(),
        post_process_provider_id: default_post_process_provider_id(),
        post_process_providers: default_post_process_providers(platform),
        post_process_api_keys: default_post_process_api_keys(platform),
        post_process_models: default_post_process_models(platform),
        post_process_prompts: default_post_process_prompts(),
        post_process_selected_prompt_id: None,
        mute_while_recording: false,
        append_trailing_space: false,
        app_language: default_app_language(locale),
        experimental_enabled: false,
        keyboard_implementation: KeyboardImplementation::default_for(platform),
        post_process_custom_models: custom_models,
    }
}

/// A list of providers with one more has the ids it had and the new one.
pub proof fn lemma_has_provider_push(
    seen: Seq<PostProcessProviderView>,
    provider: PostProcessProviderView,
    id: Seq<char>,
)
    ensures
        has_provider(seen.push(provider), id) <==> has_provider(seen, id) || provider.id == id,
{
    let next = seen.push(provider);
    if has_provider(seen, id) {
        let j = choose|j: int| 0 <= j < seen.len() && (#[trigger] seen[j]).id == id;
        assert(next[j].id == id);
    }
    if provider.id == id {
        assert(next[seen.len() as int].id == id);
    }
}

/// `have`, followed by each of `defaults`, in order, whose id was not in
/// the list when its turn came.
pub open spec fn with_missing_providers(
    have: Seq<PostProcessProviderView>,
    defaults: Seq<PostProcessProviderView>,
) -> Seq<PostProcessProviderView>
    decreases defaults.len(),
{
    if defaults.len() == 0 {
        have
    } else if has_provider(have, defaults[0].id) {
        with_missing_providers(have, defaults.drop_first())
    } else {
        with_missing_providers(have.push(defaults[0]), defaults.drop_first())
    }
}

/// `have`, followed by each of `defaults`, in order, whose id was not in
/// the list when its turn came.
pub open spec fn with_missing_prompts(have: Seq<LLMPromptView>, defaults: Seq<LLMPromptView>) -> Seq<
    LLMPromptView,
>
    decreases defaults.len(),
{
    if defaults.len() == 0 {
        have
    } else if has_prompt(have, defaults[0].id) {
        with_missing_prompts(have, defaults.drop_first())
    } else {
        with_missing_prompts(have.push(defaults[0]), defaults.drop_first())
    }
}

/// `have`, and an empty key for each of `providers` that had none.
pub open spec fn with_default_api_keys(
    have: Map<Seq<char>, Seq<char>>,
    providers: Seq<PostProcessProviderView>,
) -> Map<Seq<char>, Seq<char>> {
    Map::new(
        |id: Seq<char>| have.contains_key(id) || has_provider(providers, id),
        |id: Seq<char>|
            if have.contains_key(id) {
                have[id]
            } else {
                Seq::<char>::empty()
            },
    )
}

/// `have`, where each of `providers` that had no model, or an empty one,
/// has the model it starts with.
pub open spec fn with_default_models(
    have: Map<Seq<char>, Seq<char>>,
    providers: Seq<PostProcessProviderView>,
) -> Map<Seq<char>, Seq<char>> {
    Map::new(
        |id: Seq<char>| have.contains_key(id) || has_provider(providers, id),
        |id: Seq<char>|
            if have.contains_key(id) && !(has_provider(providers, id) && have[id].len() == 0) {
                have[id]
            } else {
                default_model_of(id)
            },
    )
}

/// A configuration in which every provider and prompt that a fresh
/// installation knows is present: providers and prompts that were missing
/// are appended, providers without an API key get an empty one, and
/// providers without a model get the model they start with. Nothing that
/// was set is changed.
pub open spec fn with_post_process_defaults(
    settings: AppSettingsView,
    platform: Platform,
) -> AppSettingsView {
    AppSettingsView {
        post_process_providers: with_missing_providers(
            settings.post_process_providers,
            default_providers(platform),
        ),
        post_process_api_keys: with_default_api_keys(
            settings.post_process_api_keys,
            default_providers(platform),
        ),
        post_process_models: with_default_models(
            settings.post_process_models,
            default_providers(platform),
        ),
        post_process_prompts: with_missing_prompts(settings.post_process_prompts, default_prompts()),
        ..settings
    }
}

fn add_missing_providers(
    have: &mut Vec<PostProcessProvider>,
    defaults: &Vec<PostProcessProvider>,
) -> (changed: bool)
    ensures
        final(have).deep_view() == with_missing_providers(
            old(have).deep_view(),
            defaults.deep_view(),
        ),
        changed == (final(have).deep_view() != old(have).deep_view()),
{
    let ghost start = have.deep_view();
    let ghost all = defaults.deep_view();
    let mut changed = false;
    let mut i: usize = 0;
    proof {
        assert(all.skip(0) =~= all);
    }
    while i < defaults.len()
        invariant
            i <= defaults.len(),
            all == defaults.deep_view(),
            with_missing_providers(have.deep_view(), all.skip(i as int)) == with_missing_providers(
                start,
                all,
            ),
            start.len() <= have.deep_view().len(),
            have.deep_view().take(start.len() as int) == start,
            changed == (have.deep_view().len() > start.len()),
        decreases defaults.len() - i,
    {
        let ghost before = have.deep_view();
        proof {
            assert(all.skip(i as int).drop_first() =~= all.skip(i + 1));
        }
        if find_provider(have, defaults[i].id.as_str()).is_none() {
            have.push(defaults[i].clone());
            changed = true;
            proof {
                assert(have.deep_view() =~= before.push(all[i as int]));
            }
        }
        i = i + 1;
    }
    proof {
        if have.deep_view().len() == start.len() {
            assert(have.deep_view().take(start.len() as int) =~= have.deep_view());
        }
    }
    changed
}

fn add_missing_prompts(have: &mut Vec<LLMPrompt>, defaults: &Vec<LLMPrompt>) -> (changed: bool)
    ensures
        final(have).deep_view() == with_missing_prompts(old(have).deep_view(), defaults.deep_view()),
        changed == (final(have).deep_view() != old(have).deep_view()),
{
    let ghost start = have.deep_view();
    let ghost all = defaults.deep_view();
    let mut changed = false;
    let mut i: usize = 0;
    proof {
        assert(all.skip(0) =~= all);
    }
    while i < defaults.len()
        invariant
            i <= defaults.len(),
            all == defaults.deep_view(),
            with_missing_prompts(have.deep_view(), all.skip(i as int)) == with_missing_prompts(
                start,
                all,
            ),
            start.len() <= have.deep_view().len(),
            have.deep_view().take(start.len() as int) == start,
            changed == (have.deep_view().len() > start.len()),
        decreases defaults.len() - i,
    {
        let ghost before = have.deep_view();
        proof {
            assert(all.skip(i as int).drop_first() =~= all.skip(i + 1));
        }
        if find_prompt(have, defaults[i].id.as_str()).is_none() {
            have.push(defaults[i].clone());
            changed = true;
            proof {
                assert(have.deep_view() =~= before.push(all[i as int]));
            }
        }
        i = i + 1;
    }
    proof {
        if have.deep_view().len() == start.len() {
            assert(have.deep_view().take(start.len() as int) =~= have.deep_view());
        }
    }
    changed
}

fn add_missing_api_keys(keys: &mut Table<String>, defaults: &Vec<PostProcessProvider>) -> (changed:
    bool)
    ensures
        text_views(final(keys)@) == with_default_api_keys(
            text_views(old(keys)@),
            defaults.deep_view(),
        ),
        changed == (text_views(final(keys)@) != text_views(old(keys)@)),
{
    let ghost start = text_views(keys@);
    let ghost all = defaults.deep_view();
    let mut changed = false;
    let mut i: usize = 0;
    while i < defaults.len()
        invariant
            i <= defaults.len(),
            all == defaults.deep_view(),
            text_views(keys@) == with_default_api_keys(start, all.take(i as int)),
            changed == (text_views(keys@) != start),
        decreases defaults.len() - i,
    {
        let ghost before = keys@;
        let ghost seen = all.take(i as int);
        let ghost id_here = all[i as int].id;
        proof {
            assert(all.take(i + 1) =~= seen.push(all[i as int]));
            assert forall|id: Seq<char>|
                has_provider(all.take(i + 1), id) <==> has_provider(seen, id) || id_here
                    == id by {
                lemma_has_provider_push(seen, all[i as int], id);
            }
        }
        if !keys.contains_key(defaults[i].id.as_str()) {
            let value = String::new();
            let ghost stored = value;
            keys.insert(defaults[i].id.clone(), value);
            changed = true;
            proof {
                lemma_text_views_insert(before, id_here, stored);
                assert(!text_views(before).contains_key(id_here));
            }
        }
        i = i + 1;
    }
    proof {
        assert(all.take(i as int) =~= all);
    }
    changed
}

fn add_missing_models(models: &mut Table<String>, defaults: &Vec<PostProcessProvider>) -> (changed:
    bool)
    ensures
        text_views(final(models)@) == with_default_models(
            text_views(old(models)@),
            defaults.deep_view(),
        ),
        changed == (text_views(final(models)@) != text_views(old(models)@)),
{
    let ghost start = text_views(models@);
    let ghost all = defaults.deep_view();
    let mut changed = false;
    let mut i: usize = 0;
    while i < defaults.len()
        invariant
            i <= defaults.len(),
            all == defaults.deep_view(),
            text_views(models@) == with_default_models(start, all.take(i as int)),
            changed == (text_views(models@) != start),
        decreases defaults.len() - i,
    {
        let ghost before = models@;
        let ghost seen = all.take(i as int);
        let ghost id_here = all[i as int].id;
        proof {
            assert(all.take(i + 1) =~= seen.push(all[i as int]));
            assert forall|id: Seq<char>|
                has_provider(all.take(i + 1), id) <==> has_provider(seen, id) || id_here
                    == id by {
                lemma_has_provider_push(seen, all[i as int], id);
            }
        }
        let default_model = default_model_for_provider(defaults[i].id.as_str());
        let replace = match models.get(defaults[i].id.as_str()) {
            Some(existing) => existing.as_str().is_empty() && !default_model.as_str().is_empty(),
            None => true,
        };
        if replace {
            let ghost stored = default_model;
            models.insert(defaults[i].id.clone(), default_model);
            changed = true;
            proof {
                lemma_text_views_insert(before, id_here, stored);
                if start.contains_key(id_here) {
                    assert(text_views(before)[id_here].len() == 0);
                }
            }
        }
        proof {
            let now = text_views(models@);
            let target = with_default_models(start, all.take(i + 1));
            assert(forall|id: Seq<char>| #[trigger]
                target.contains_key(id) ==> now[id] == target[id]);
            assert(text_views(before).contains_key(id_here) || replace);
            assert(forall|id: Seq<char>| now.contains_key(id) <==> target.contains_key(id));
        }
        i = i + 1;
    }
    proof {
        assert(all.take(i as int) =~= all);
    }
    changed
}

/// Brings a stored configuration up to what a fresh installation knows:
/// see [`with_post_process_defaults`]. The result says whether anything had
/// to be added.
pub fn ensure_post_process_defaults(settings: &mut AppSettings, platform: Platform) -> (changed:
    bool)
    ensures
        final(settings)@ == with_post_process_defaults(old(settings)@, platform),
        changed == (final(settings)@ != old(settings)@),
{
    let providers = default_post_process_providers(platform);
    let prompts = default_post_process_prompts();
    let providers_changed = add_missing_providers(&mut settings.post_process_providers, &providers);
    let keys_changed = add_missing_api_keys(&mut settings.post_process_api_keys, &providers);
    let models_changed = add_missing_models(&mut settings.post_process_models, &providers);
    let prompts_changed = add_missing_prompts(&mut settings.post_process_prompts, &prompts);
    providers_changed || keys_changed || models_changed || prompts_changed
}

/// What has to happen to the settings store after a configuration was
/// read from it.
#[derive(Clone, Copy, Debug, PartialEq, Eq, Structural)]
pub enum Persist {
    /// The store holds what was returned.
    Keep,
    /// What was returned has to be put into the store.
    Store,
    /// What was returned has to be put into the store, and the store
    /// written to disk.
    StoreAndSave,
}

/// `have`, and each binding of a fresh installation whose id `have` lacks.
pub open spec fn with_default_bindings(
    have: Map<Seq<char>, ShortcutBindingView>,
    platform: Platform,
) -> Map<Seq<char>, ShortcutBindingView> {
    default_bindings(platform).union_prefer_right(have)
}

/// The configuration to start from, given what the store held: the stored
/// one with the bindings it lacks, or that of a fresh installation.
pub open spec fn startup_base(
    stored: Option<AppSettingsView>,
    platform: Platform,
    locale: Option<Seq<char>>,
) -> AppSettingsView {
    match stored {
        Some(s) => AppSettingsView { bindings: with_default_bindings(s.bindings, platform), ..s },
        None => default_settings(platform, locale),
    }
}

/// The configuration to go on with, given what the store held: the stored
/// one, or that of a fresh installation.
pub open spec fn current_base(
    stored: Option<AppSettingsView>,
    platform: Platform,
    locale: Option<Seq<char>>,
) -> AppSettingsView {
    match stored {
        Some(s) => s,
        None => default_settings(platform, locale),
    }
}

/// The view of an optional configuration.
pub open spec fn stored_view(stored: Option<AppSettings>) -> Option<AppSettingsView> {
    match stored {
        Some(s) => Some(s@),
        None => None,
    }
}

/// The view of an optional string slice.
pub open spec fn locale_view(locale: Option<&str>) -> Option<Seq<char>> {
    match locale {
        Some(name) => Some(name@),
        None => None,
    }
}

fn add_missing_bindings(bindings: &mut Table<ShortcutBinding>, platform: Platform) -> (changed: bool)
    ensures
        binding_views(final(bindings)@) == with_default_bindings(
            binding_views(old(bindings)@),
            platform,
        ),
        changed == (binding_views(final(bindings)@) != binding_views(old(bindings)@)),
{
    let defaults = default_shortcut_bindings(platform);
    let ghost start = binding_views(bindings@);
    let ghost extra = binding_views(defaults@);
    let ghost order = defaults.order();
    let count = defaults.len();
    let mut changed = false;
    let mut i: usize = 0;
    proof {
        defaults.lemma_order();
    }
    while i < count
        invariant
            i <= count,
            count == order.len(),
            order == defaults.order(),
            extra == binding_views(defaults@),
            defaults@.dom() == order.to_set(),
            binding_views(bindings@) == Map::new(
                |k: Seq<char>| start.contains_key(k) || order.take(i as int).contains(k),
                |k: Seq<char>|
                    if start.contains_key(k) {
                        start[k]
                    } else {
                        extra[k]
                    },
            ),
            changed == (binding_views(bindings@) != start),
        decreases count - i,
    {
        let ghost before = bindings@;
        let ghost key_here = order[i as int];
        proof {
            assert forall|k: Seq<char>|
                order.take(i + 1).contains(k) <==> order.take(i as int).contains(k) || k
                    == key_here by {
                if k == key_here {
                    assert(order.take(i + 1)[i as int] == k);
                }
            }
        }
        let key = defaults.key_at(i);
        if !bindings.contains_key(key.as_str()) {
            let value = defaults.value_at(i).clone();
            let ghost stored = value;
            bindings.insert(key.clone(), value);
            changed = true;
            proof {
                lemma_binding_views_insert(before, key_here, stored);
                assert(!binding_views(before).contains_key(key_here));
            }
        }
        i = i + 1;
    }
    proof {
        assert(order.take(i as int) =~= order);
    }
    changed
}

fn startup_settings(stored: Option<AppSettings>, platform: Platform, locale: Option<&str>) -> (r: (
    AppSettings,
    bool,
))
    ensures
        r.0@ == startup_base(stored_view(stored), platform, locale_view(locale)),
        r.1 == (stored_view(stored) != Some(r.0@)),
{
    match stored {
        Some(found) => {
            let mut found = found;
            let updated = add_missing_bindings(&mut found.bindings, platform);
            (found, updated)
        },
        None => (get_default_settings(platform, locale), true),
    }
}

/// The configuration with which the program starts, from what the store
/// held (`None` where it held nothing that could be read): the stored
/// configuration with the bindings it lacks, or that of a fresh
/// installation, then brought up to date by
/// [`ensure_post_process_defaults`]. The second result says what to do with
/// the store: save it where that last step added something, else put the
/// configuration into it where the store held none or lacked a binding.
pub fn load_or_create_app_settings(
    stored: Option<AppSettings>,
    platform: Platform,
    locale: Option<&str>,
) -> (r: (AppSettings, Persist))
    ensures
        r.0@ == with_post_process_defaults(
            startup_base(stored_view(stored), platform, locale_view(locale)),
            platform,
        ),
        r.1 == if r.0@ != startup_base(stored_view(stored), platform, locale_view(locale)) {
            Persist::StoreAndSave
        } else if stored_view(stored) != Some(r.0@) {
            Persist::Store
        } else {
            Persist::Keep
        },
{
    let (mut settings, updated) = startup_settings(stored, platform, locale);
    if ensure_post_process_defaults(&mut settings, platform) {
        (settings, Persist::StoreAndSave)
    } else if updated {
        (settings, Persist::Store)
    } else {
        (settings, Persist::Keep)
    }
}

/// The configuration to go on with, from what the store held (`None` where
/// it held nothing that could be read): the stored configuration, or that
/// of a fresh installation, brought up to date by
/// [`ensure_post_process_defaults`]. The second result says whether the
/// store has to be given the configuration: it held none, or something was
/// added.
pub fn get_settings(stored: Option<AppSettings>, platform: Platform, locale: Option<&str>) -> (r: (
    AppSettings,
    bool,
))
    ensures
        r.0@ == with_post_process_defaults(
            current_base(stored_view(stored), platform, locale_view(locale)),
            platform,
        ),
        r.1 == (stored_view(stored) != Some(r.0@)),
{
    let mut fresh = true;
    let mut settings = match stored {
        Some(found) => {
            fresh = false;
            found
        },
        None => get_default_settings(platform, locale),
    };
    let changed = ensure_post_process_defaults(&mut settings, platform);
    (settings, fresh || changed)
}

/// The shortcut bindings of a configuration.
pub fn get_bindings(settings: &AppSettings) -> (r: &Table<ShortcutBinding>)
    ensures
        r == &settings.bindings,
{
    &settings.bindings
}

/// The stored binding with the given id, which the configuration must hold.
pub fn get_stored_binding(settings: &AppSettings, id: &str) -> (r: ShortcutBinding)
    requires
        settings@.bindings.contains_key(id@),
    ensures
        r@ == settings@.bindings[id@],
{
    match settings.bindings.get(id) {
        Some(binding) => binding.clone(),
        None => {
            ShortcutBinding {
                id: String::new(),
                name: String::new(),
                description: String::new(),
                default_binding: String::new(),
                current_binding: String::new(),
            }
        },
    }
}

/// How many history entries are kept.
pub fn get_history_limit(settings: &AppSettings) -> (r: usize)
    ensures
        r == settings@.history_limit,
{
    settings.history_limit
}

/// How long recordings are kept.
pub fn get_recording_retention_period(settings: &AppSettings) -> (r: RecordingRetentionPeriod)
    ensures
        r == settings@.recording_retention_period,
{
    settings.recording_retention_period
}

} // verus!
