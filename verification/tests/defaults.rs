use handy::defaults::{
    default_app_language, default_audio_feedback_volume, default_history_limit,
    default_log_level, default_model, default_model_for_provider, default_overlay_position,
    default_post_process_api_keys, default_post_process_models, default_post_process_prompts,
    default_post_process_provider_id, default_post_process_providers,
    default_recording_retention_period, default_selected_language, default_sound_theme,
    default_update_checks_enabled, default_word_correction_threshold,
    ensure_post_process_defaults, get_bindings, get_default_settings, get_history_limit,
    get_recording_retention_period, get_settings, get_stored_binding,
    load_or_create_app_settings, Persist, APPLE_INTELLIGENCE_DEFAULT_MODEL_ID,
    APPLE_INTELLIGENCE_PROVIDER_ID, SETTINGS_STORE_PATH,
};
use handy::options::{
    ClipboardHandling, KeyboardImplementation, LogLevel, ModelUnloadTimeout, OperatingSystem,
    OverlayPosition, PasteMethod, Platform, RecordingRetentionPeriod, SoundTheme,
};
use handy::settings::{LLMPrompt, PostProcessProvider};
use handy::table::Table;

fn linux() -> Platform {
    Platform { os: OperatingSystem::Linux, arm64: false }
}

fn mac_arm() -> Platform {
    Platform { os: OperatingSystem::MacOs, arm64: true }
}

fn ids(providers: &Vec<PostProcessProvider>) -> Vec<String> {
    let mut out = Vec::new();
    for p in providers {
        out.push(p.id.clone());
    }
    out
}

#[test]
fn timeout_in_minutes() {
    assert_eq!(ModelUnloadTimeout::Never.to_minutes(), None);
    assert_eq!(ModelUnloadTimeout::Immediately.to_minutes(), Some(0));
    assert_eq!(ModelUnloadTimeout::Min2.to_minutes(), Some(2));
    assert_eq!(ModelUnloadTimeout::Min5.to_minutes(), Some(5));
    assert_eq!(ModelUnloadTimeout::Min10.to_minutes(), Some(10));
    assert_eq!(ModelUnloadTimeout::Min15.to_minutes(), Some(15));
    assert_eq!(ModelUnloadTimeout::Hour1.to_minutes(), Some(60));
    assert_eq!(ModelUnloadTimeout::Sec5.to_minutes(), Some(0));
}

#[test]
fn timeout_in_seconds() {
    assert_eq!(ModelUnloadTimeout::Never.to_seconds(), None);
    assert_eq!(ModelUnloadTimeout::Immediately.to_seconds(), Some(0));
    assert_eq!(ModelUnloadTimeout::Sec5.to_seconds(), Some(5));
    assert_eq!(ModelUnloadTimeout::Min2.to_seconds(), Some(120));
    assert_eq!(ModelUnloadTimeout::Min5.to_seconds(), Some(300));
    assert_eq!(ModelUnloadTimeout::Min10.to_seconds(), Some(600));
    assert_eq!(ModelUnloadTimeout::Min15.to_seconds(), Some(900));
    assert_eq!(ModelUnloadTimeout::Hour1.to_seconds(), Some(3600));
}

#[test]
fn sound_theme_paths() {
    assert_eq!(SoundTheme::Marimba.to_start_path(), "resources/marimba_start.wav");
    assert_eq!(SoundTheme::Marimba.to_stop_path(), "resources/marimba_stop.wav");
    assert_eq!(SoundTheme::Pop.to_start_path(), "resources/pop_start.wav");
    assert_eq!(SoundTheme::Custom.to_stop_path(), "resources/custom_stop.wav");
    assert_eq!(SoundTheme::Pop.as_str(), "pop");
}

#[test]
fn enum_defaults() {
    assert_eq!(ModelUnloadTimeout::default(), ModelUnloadTimeout::Never);
    assert_eq!(PasteMethod::default(), PasteMethod::CtrlV);
    assert_eq!(ClipboardHandling::default(), ClipboardHandling::DontModify);
    assert_eq!(KeyboardImplementation::default_for(mac_arm()), KeyboardImplementation::HandyKeys);
    assert_eq!(KeyboardImplementation::default_for(linux()), KeyboardImplementation::Tauri);
}

#[test]
fn scalar_defaults() {
    assert_eq!(default_model(), "");
    assert!(default_update_checks_enabled());
    assert_eq!(default_selected_language(), "auto");
    assert_eq!(default_log_level(), LogLevel::Debug);
    assert_eq!(default_history_limit(), 5);
    assert_eq!(default_recording_retention_period(), RecordingRetentionPeriod::PreserveLimit);
    assert_eq!(default_sound_theme(), SoundTheme::Marimba);
    assert_eq!(default_post_process_provider_id(), "openai");
    assert_eq!(SETTINGS_STORE_PATH, "settings_store.json");
}

#[test]
fn fractional_defaults_are_the_bits_of_the_values() {
    assert_eq!(f32::from_bits(default_audio_feedback_volume()), 1.0f32);
    assert_eq!(f64::from_bits(default_word_correction_threshold()), 0.18f64);
}

#[test]
fn overlay_default_depends_on_the_platform() {
    assert_eq!(default_overlay_position(linux()), OverlayPosition::Hidden);
    assert_eq!(default_overlay_position(mac_arm()), OverlayPosition::Bottom);
    let windows = Platform { os: OperatingSystem::Windows, arm64: false };
    assert_eq!(default_overlay_position(windows), OverlayPosition::Bottom);
}

#[test]
fn app_language_from_locale() {
    assert_eq!(default_app_language(Some("en-US")), "en");
    assert_eq!(default_app_language(Some("fr_CA")), "fr");
    assert_eq!(default_app_language(Some("ja")), "ja");
    assert_eq!(default_app_language(None), "en");
}

#[test]
fn providers_without_the_on_device_one() {
    let providers = default_post_process_providers(linux());
    assert_eq!(
        ids(&providers),
        vec!["openai", "openrouter", "anthropic", "groq", "cerebras", "lm_studio", "custom"]
    );
    assert_eq!(providers[0].label, "OpenAI");
    assert_eq!(providers[0].base_url, "https://api.openai.com/v1");
    assert!(!providers[0].allow_base_url_edit);
    assert_eq!(providers[0].models_endpoint, Some("/models".to_string()));
    assert_eq!(providers[5].base_url, "http://localhost:1234/v1");
    assert!(providers[5].allow_base_url_edit);
    assert_eq!(providers[6].base_url, "http://localhost:11434/v1");
    assert!(providers[6].allow_base_url_edit);
}

#[test]
fn providers_with_the_on_device_one() {
    let providers = default_post_process_providers(mac_arm());
    assert_eq!(providers.len(), 8);
    assert_eq!(providers[5].id, APPLE_INTELLIGENCE_PROVIDER_ID);
    assert_eq!(providers[5].label, "Apple Intelligence");
    assert_eq!(providers[5].base_url, "apple-intelligence://local");
    assert_eq!(providers[5].models_endpoint, None);
    assert_eq!(providers[7].id, "custom");
    let mac_intel = Platform { os: OperatingSystem::MacOs, arm64: false };
    assert_eq!(default_post_process_providers(mac_intel).len(), 7);
}

#[test]
fn default_keys_and_models_cover_the_providers() {
    let keys = default_post_process_api_keys(mac_arm());
    let models = default_post_process_models(mac_arm());
    assert_eq!(keys.len(), 8);
    assert_eq!(models.len(), 8);
    for provider in default_post_process_providers(mac_arm()) {
        assert_eq!(keys.get(&provider.id), Some(&String::new()));
        assert_eq!(models.get(&provider.id), Some(&default_model_for_provider(&provider.id)));
    }
    assert_eq!(models.get("apple_intelligence"), Some(&"Apple Intelligence".to_string()));
    assert_eq!(models.get("openai"), Some(&String::new()));
}

#[test]
fn model_for_provider() {
    assert_eq!(default_model_for_provider("apple_intelligence"), APPLE_INTELLIGENCE_DEFAULT_MODEL_ID);
    assert_eq!(default_model_for_provider("openai"), "");
    assert_eq!(default_model_for_provider(""), "");
}

#[test]
fn ten_default_prompts() {
    let prompts = default_post_process_prompts();
    assert_eq!(prompts.len(), 10);
    assert_eq!(prompts[0].id, "default_improve_transcriptions");
    assert_eq!(prompts[0].name, "Improve Transcriptions");
    assert!(prompts[0].prompt.starts_with("Clean this transcript:\n1. Fix spelling"));
    assert!(prompts[0].prompt.contains("twenty-five \u{2192} 25"));
    assert_eq!(prompts[7].id, "eli5");
    assert_eq!(prompts[7].name, "Explain Like I'm 5");
    assert_eq!(prompts[9].id, "strict_proofread");
    for prompt in &prompts {
        assert!(prompt.prompt.contains("${output}"));
    }
}

#[test]
fn fresh_settings_on_linux() {
    let settings = get_default_settings(linux(), Some("de-DE"));
    assert_eq!(settings.bindings.len(), 2);
    let transcribe = settings.bindings.get("transcribe").unwrap();
    assert_eq!(transcribe.id, "transcribe");
    assert_eq!(transcribe.name, "Transcribe");
    assert_eq!(transcribe.description, "Converts your speech into text.");
    assert_eq!(transcribe.default_binding, "ctrl+space");
    assert_eq!(transcribe.current_binding, "ctrl+space");
    let cancel = settings.bindings.get("cancel").unwrap();
    assert_eq!(cancel.name, "Cancel");
    assert_eq!(cancel.description, "Cancels the current recording.");
    assert_eq!(cancel.current_binding, "escape");
    assert!(settings.push_to_talk);
    assert!(!settings.audio_feedback);
    assert_eq!(settings.selected_model, "");
    assert_eq!(settings.selected_microphone, None);
    assert_eq!(settings.selected_language, "auto");
    assert_eq!(settings.overlay_position, OverlayPosition::Hidden);
    assert_eq!(settings.model_unload_timeout, ModelUnloadTimeout::Never);
    assert_eq!(settings.paste_method, PasteMethod::CtrlV);
    assert_eq!(settings.clipboard_handling, ClipboardHandling::DontModify);
    assert!(!settings.post_process_enabled);
    assert_eq!(settings.post_process_provider_id, "openai");
    assert_eq!(settings.post_process_providers.len(), 7);
    assert_eq!(settings.post_process_prompts.len(), 10);
    assert_eq!(settings.post_process_selected_prompt_id, None);
    assert_eq!(settings.app_language, "de");
    assert_eq!(settings.keyboard_implementation, KeyboardImplementation::Tauri);
    assert_eq!(settings.post_process_custom_models.len(), 0);
    assert_eq!(settings.history_limit, 5);
}

#[test]
fn default_shortcut_per_system() {
    let mac = get_default_settings(mac_arm(), None);
    assert_eq!(mac.bindings.get("transcribe").unwrap().current_binding, "option+space");
    let windows = Platform { os: OperatingSystem::Windows, arm64: false };
    let win = get_default_settings(windows, None);
    assert_eq!(win.bindings.get("transcribe").unwrap().current_binding, "ctrl+space");
    let other = Platform { os: OperatingSystem::Other, arm64: false };
    let elsewhere = get_default_settings(other, None);
    assert_eq!(elsewhere.bindings.get("transcribe").unwrap().default_binding, "alt+space");
}

#[test]
fn fresh_settings_need_no_repair() {
    let mut settings = get_default_settings(mac_arm(), None);
    let before = settings.clone();
    assert!(!ensure_post_process_defaults(&mut settings, mac_arm()));
    assert_eq!(settings, before);
}

#[test]
fn repair_adds_what_is_missing() {
    let mut settings = get_default_settings(linux(), None);
    settings.post_process_providers.remove(2);
    settings.post_process_prompts.truncate(1);
    settings.post_process_api_keys = Table::new();
    settings.post_process_api_keys.insert("openai".to_string(), "secret".to_string());
    assert!(ensure_post_process_defaults(&mut settings, linux()));
    assert_eq!(
        ids(&settings.post_process_providers),
        vec!["openai", "openrouter", "groq", "cerebras", "lm_studio", "custom", "anthropic"]
    );
    assert_eq!(settings.post_process_prompts.len(), 10);
    assert_eq!(settings.post_process_prompts[0].id, "default_improve_transcriptions");
    assert_eq!(settings.post_process_prompts[1].id, "beautiful_prompts");
    assert_eq!(settings.post_process_api_keys.get("openai"), Some(&"secret".to_string()));
    assert_eq!(settings.post_process_api_keys.get("anthropic"), Some(&String::new()));
    assert_eq!(settings.post_process_api_keys.len(), 7);
    assert!(!ensure_post_process_defaults(&mut settings, linux()));
}

#[test]
fn repair_keeps_what_was_set() {
    let mut settings = get_default_settings(linux(), None);
    settings.post_process_models.insert("openai".to_string(), "gpt-4o".to_string());
    settings.post_process_providers.push(PostProcessProvider {
        id: "mine".to_string(),
        label: "Mine".to_string(),
        base_url: "http://example.test".to_string(),
        allow_base_url_edit: true,
        models_endpoint: None,
    });
    settings.post_process_prompts.push(LLMPrompt {
        id: "own".to_string(),
        name: "Own".to_string(),
        prompt: "Say ${output}".to_string(),
    });
    let before = settings.clone();
    assert!(!ensure_post_process_defaults(&mut settings, linux()));
    assert_eq!(settings, before);
}

#[test]
fn repair_gives_the_on_device_provider_its_model() {
    let mut settings = get_default_settings(mac_arm(), None);
    settings.post_process_models.insert("apple_intelligence".to_string(), String::new());
    settings.post_process_models.remove("groq");
    assert!(ensure_post_process_defaults(&mut settings, mac_arm()));
    assert_eq!(
        settings.post_process_models.get("apple_intelligence"),
        Some(&"Apple Intelligence".to_string())
    );
    assert_eq!(settings.post_process_models.get("groq"), Some(&String::new()));
}

#[test]
fn repair_adds_the_on_device_provider_where_it_can_exist() {
    let mut settings = get_default_settings(linux(), None);
    assert!(ensure_post_process_defaults(&mut settings, mac_arm()));
    assert_eq!(settings.post_process_providers.len(), 8);
    assert_eq!(settings.post_process_providers[7].id, "apple_intelligence");
    assert_eq!(
        settings.post_process_models.get("apple_intelligence"),
        Some(&"Apple Intelligence".to_string())
    );
}

#[test]
fn startup_without_stored_settings() {
    let (settings, persist) = load_or_create_app_settings(None, linux(), Some("en-GB"));
    assert_eq!(settings, get_default_settings(linux(), Some("en-GB")));
    assert_eq!(persist, Persist::Store);
}

#[test]
fn startup_with_complete_settings() {
    let mut stored = get_default_settings(linux(), None);
    stored.push_to_talk = false;
    let (settings, persist) = load_or_create_app_settings(Some(stored.clone()), linux(), None);
    assert_eq!(settings, stored);
    assert_eq!(persist, Persist::Keep);
}

#[test]
fn startup_adds_a_missing_binding() {
    let mut stored = get_default_settings(linux(), None);
    stored.bindings.remove("cancel");
    stored.bindings.get("transcribe").unwrap();
    let (settings, persist) = load_or_create_app_settings(Some(stored), linux(), None);
    assert_eq!(settings.bindings.len(), 2);
    assert_eq!(settings.bindings.get("cancel").unwrap().current_binding, "escape");
    assert_eq!(persist, Persist::Store);
}

#[test]
fn startup_keeps_a_changed_binding() {
    let mut stored = get_default_settings(linux(), None);
    let mut binding = stored.bindings.get("transcribe").unwrap().clone();
    binding.current_binding = "ctrl+alt+d".to_string();
    stored.bindings.insert("transcribe".to_string(), binding);
    let (settings, persist) = load_or_create_app_settings(Some(stored), linux(), None);
    assert_eq!(settings.bindings.get("transcribe").unwrap().current_binding, "ctrl+alt+d");
    assert_eq!(persist, Persist::Keep);
}

#[test]
fn startup_saves_after_a_repair() {
    let mut stored = get_default_settings(linux(), None);
    stored.post_process_prompts.pop();
    let (settings, persist) = load_or_create_app_settings(Some(stored), linux(), None);
    assert_eq!(settings.post_process_prompts.len(), 10);
    assert_eq!(persist, Persist::StoreAndSave);
}

#[test]
fn reading_settings_later() {
    let (fresh, write) = get_settings(None, linux(), None);
    assert_eq!(fresh, get_default_settings(linux(), None));
    assert!(write);
    let (same, write) = get_settings(Some(fresh.clone()), linux(), None);
    assert_eq!(same, fresh);
    assert!(!write);
    let mut stored = fresh.clone();
    stored.bindings.remove("cancel");
    stored.post_process_api_keys.remove("custom");
    let (repaired, write) = get_settings(Some(stored), linux(), None);
    assert!(write);
    assert!(!repaired.bindings.contains_key("cancel"));
    assert_eq!(repaired.post_process_api_keys.get("custom"), Some(&String::new()));
}

#[test]
fn getters_read_the_settings() {
    let mut settings = get_default_settings(linux(), None);
    settings.history_limit = 9;
    settings.recording_retention_period = RecordingRetentionPeriod::Weeks2;
    assert_eq!(get_history_limit(&settings), 9);
    assert_eq!(get_recording_retention_period(&settings), RecordingRetentionPeriod::Weeks2);
    assert_eq!(get_bindings(&settings).len(), 2);
    assert_eq!(get_stored_binding(&settings, "cancel").default_binding, "escape");
}

#[test]
fn provider_lookups() {
    let mut settings = get_default_settings(linux(), None);
    assert_eq!(settings.active_post_process_provider().unwrap().id, "openai");
    assert_eq!(settings.post_process_provider("groq").unwrap().label, "Groq");
    assert!(settings.post_process_provider("nobody").is_none());
    settings.post_process_provider_id = "nobody".to_string();
    assert!(settings.active_post_process_provider().is_none());
    settings.post_process_provider_mut("custom").unwrap().base_url = "http://x".to_string();
    assert_eq!(settings.post_process_provider("custom").unwrap().base_url, "http://x");
    assert!(settings.post_process_provider_mut("nobody").is_none());
}
