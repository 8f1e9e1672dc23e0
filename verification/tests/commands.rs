use handy::commands::{
    add_post_process_prompt, add_post_process_prompt_at, change_app_language_setting,
    change_append_trailing_space_setting, change_audio_feedback_setting,
    change_audio_feedback_volume_setting, change_autostart_setting,
    change_clipboard_handling_setting, change_debug_mode_setting,
    change_experimental_enabled_setting, change_mute_while_recording_setting,
    change_overlay_position_setting, change_paste_method_setting,
    change_post_process_api_key_setting, change_post_process_base_url_setting,
    change_post_process_enabled_setting, change_post_process_model_setting, change_ptt_setting,
    change_selected_language_setting, change_sound_theme_setting, change_start_hidden_setting,
    change_translate_to_english_setting, change_update_checks_setting,
    change_word_correction_threshold_setting, delete_post_process_prompt, set_log_level,
    set_post_process_provider, set_post_process_selected_prompt, update_custom_words,
    update_post_process_prompt, validate_provider_exists,
};
use handy::defaults::get_default_settings;
use handy::error::CommandError;
use handy::options::{
    ClipboardHandling, LogLevel, OperatingSystem, OverlayPosition, PasteMethod, Platform,
    SoundTheme,
};
use handy::settings::{AppSettings, LLMPrompt};

fn linux() -> Platform {
    Platform { os: OperatingSystem::Linux, arm64: false }
}

fn settings() -> AppSettings {
    get_default_settings(linux(), None)
}

#[test]
fn switches_change_their_field_only() {
    let mut s = settings();
    let mut expected = s.clone();
    assert_eq!(change_ptt_setting(&mut s, false), Ok(()));
    expected.push_to_talk = false;
    assert_eq!(s, expected);
    assert_eq!(change_audio_feedback_setting(&mut s, true), Ok(()));
    expected.audio_feedback = true;
    assert_eq!(s, expected);
    assert_eq!(change_translate_to_english_setting(&mut s, true), Ok(()));
    expected.translate_to_english = true;
    assert_eq!(s, expected);
    assert_eq!(change_debug_mode_setting(&mut s, true), Ok(()));
    expected.debug_mode = true;
    assert_eq!(s, expected);
    assert_eq!(change_start_hidden_setting(&mut s, true), Ok(()));
    expected.start_hidden = true;
    assert_eq!(s, expected);
    assert_eq!(change_autostart_setting(&mut s, true), Ok(()));
    expected.autostart_enabled = true;
    assert_eq!(s, expected);
    assert_eq!(change_update_checks_setting(&mut s, false), Ok(()));
    expected.update_checks_enabled = false;
    assert_eq!(s, expected);
    assert_eq!(change_post_process_enabled_setting(&mut s, true), Ok(()));
    expected.post_process_enabled = true;
    assert_eq!(s, expected);
    assert_eq!(change_experimental_enabled_setting(&mut s, true), Ok(()));
    expected.experimental_enabled = true;
    assert_eq!(s, expected);
    assert_eq!(change_mute_while_recording_setting(&mut s, true), Ok(()));
    expected.mute_while_recording = true;
    assert_eq!(s, expected);
    assert_eq!(change_append_trailing_space_setting(&mut s, true), Ok(()));
    expected.append_trailing_space = true;
    assert_eq!(s, expected);
}

#[test]
fn values_are_stored() {
    let mut s = settings();
    let mut expected = s.clone();
    change_selected_language_setting(&mut s, "fr".to_string()).unwrap();
    expected.selected_language = "fr".to_string();
    change_app_language_setting(&mut s, "de".to_string()).unwrap();
    expected.app_language = "de".to_string();
    update_custom_words(&mut s, vec!["Kubernetes".to_string()]).unwrap();
    expected.custom_words = vec!["Kubernetes".to_string()];
    change_audio_feedback_volume_setting(&mut s, 0.5f32.to_bits()).unwrap();
    expected.audio_feedback_volume_bits = 0x3F00_0000;
    change_word_correction_threshold_setting(&mut s, 0.25f64.to_bits()).unwrap();
    expected.word_correction_threshold_bits = 0x3FD0_0000_0000_0000;
    assert_eq!(s, expected);
    assert_eq!(f32::from_bits(s.audio_feedback_volume_bits), 0.5);
    assert_eq!(f64::from_bits(s.word_correction_threshold_bits), 0.25);
}

#[test]
fn sound_theme_by_name() {
    let mut s = settings();
    change_sound_theme_setting(&mut s, "pop").unwrap();
    assert_eq!(s.sound_theme, SoundTheme::Pop);
    change_sound_theme_setting(&mut s, "custom").unwrap();
    assert_eq!(s.sound_theme, SoundTheme::Custom);
    change_sound_theme_setting(&mut s, "marimba").unwrap();
    assert_eq!(s.sound_theme, SoundTheme::Marimba);
    change_sound_theme_setting(&mut s, "pop").unwrap();
    change_sound_theme_setting(&mut s, "Pop").unwrap();
    assert_eq!(s.sound_theme, SoundTheme::Marimba);
    assert_eq!(SoundTheme::from_name(""), SoundTheme::Marimba);
}

#[test]
fn overlay_position_by_name() {
    let mut s = settings();
    change_overlay_position_setting(&mut s, "top").unwrap();
    assert_eq!(s.overlay_position, OverlayPosition::Top);
    change_overlay_position_setting(&mut s, "none").unwrap();
    assert_eq!(s.overlay_position, OverlayPosition::Hidden);
    change_overlay_position_setting(&mut s, "bottom").unwrap();
    assert_eq!(s.overlay_position, OverlayPosition::Bottom);
    change_overlay_position_setting(&mut s, "top").unwrap();
    change_overlay_position_setting(&mut s, "left").unwrap();
    assert_eq!(s.overlay_position, OverlayPosition::Bottom);
}

#[test]
fn paste_method_by_name() {
    let mut s = settings();
    change_paste_method_setting(&mut s, "direct").unwrap();
    assert_eq!(s.paste_method, PasteMethod::Direct);
    change_paste_method_setting(&mut s, "none").unwrap();
    assert_eq!(s.paste_method, PasteMethod::NoPaste);
    change_paste_method_setting(&mut s, "shift_insert").unwrap();
    assert_eq!(s.paste_method, PasteMethod::ShiftInsert);
    change_paste_method_setting(&mut s, "ctrl_shift_v").unwrap();
    assert_eq!(s.paste_method, PasteMethod::CtrlShiftV);
    change_paste_method_setting(&mut s, "ctrl_v").unwrap();
    assert_eq!(s.paste_method, PasteMethod::CtrlV);
    change_paste_method_setting(&mut s, "direct").unwrap();
    change_paste_method_setting(&mut s, "telepathy").unwrap();
    assert_eq!(s.paste_method, PasteMethod::CtrlV);
}

#[test]
fn clipboard_handling_by_name() {
    let mut s = settings();
    change_clipboard_handling_setting(&mut s, "copy_to_clipboard").unwrap();
    assert_eq!(s.clipboard_handling, ClipboardHandling::CopyToClipboard);
    change_clipboard_handling_setting(&mut s, "dont_modify").unwrap();
    assert_eq!(s.clipboard_handling, ClipboardHandling::DontModify);
    change_clipboard_handling_setting(&mut s, "copy_to_clipboard").unwrap();
    change_clipboard_handling_setting(&mut s, "shred").unwrap();
    assert_eq!(s.clipboard_handling, ClipboardHandling::DontModify);
}

#[test]
fn log_levels_by_name_and_number() {
    assert_eq!(LogLevel::from_name("trace"), Some(LogLevel::Trace));
    assert_eq!(LogLevel::from_name("DEBUG"), Some(LogLevel::Debug));
    assert_eq!(LogLevel::from_name("Info"), Some(LogLevel::Info));
    assert_eq!(LogLevel::from_name("wArN"), Some(LogLevel::Warn));
    assert_eq!(LogLevel::from_name("error"), Some(LogLevel::Error));
    assert_eq!(LogLevel::from_name("verbose"), None);
    assert_eq!(LogLevel::from_name(""), None);
    assert_eq!(LogLevel::from_lowercase_name("debug"), Some(LogLevel::Debug));
    assert_eq!(LogLevel::from_lowercase_name("DEBUG"), None);
    assert_eq!(LogLevel::from_number(1), Some(LogLevel::Trace));
    assert_eq!(LogLevel::from_number(2), Some(LogLevel::Debug));
    assert_eq!(LogLevel::from_number(3), Some(LogLevel::Info));
    assert_eq!(LogLevel::from_number(4), Some(LogLevel::Warn));
    assert_eq!(LogLevel::from_number(5), Some(LogLevel::Error));
    assert_eq!(LogLevel::from_number(0), None);
    assert_eq!(LogLevel::from_number(6), None);
}

#[test]
fn log_level_and_its_filter_number() {
    let mut s = settings();
    assert_eq!(set_log_level(&mut s, LogLevel::Error), 1);
    assert_eq!(s.log_level, LogLevel::Error);
    assert_eq!(set_log_level(&mut s, LogLevel::Warn), 2);
    assert_eq!(set_log_level(&mut s, LogLevel::Info), 3);
    assert_eq!(set_log_level(&mut s, LogLevel::Debug), 4);
    assert_eq!(set_log_level(&mut s, LogLevel::Trace), 5);
    assert_eq!(s.log_level, LogLevel::Trace);
    assert_eq!(LogLevel::Info.to_filter_number(), 3);
}

#[test]
fn known_and_unknown_providers() {
    let s = settings();
    assert_eq!(validate_provider_exists(&s, "groq"), Ok(()));
    let refused = validate_provider_exists(&s, "nobody");
    assert_eq!(refused, Err(CommandError::ProviderNotFound("nobody".to_string())));
    assert_eq!(refused.unwrap_err().message(), "Provider 'nobody' not found");
}

#[test]
fn base_url_of_a_provider() {
    let mut s = settings();
    let before = s.clone();
    let locked = change_post_process_base_url_setting(&mut s, "openai", "http://x".to_string());
    assert_eq!(locked, Err(CommandError::BaseUrlLocked("OpenAI".to_string())));
    assert_eq!(
        locked.unwrap_err().message(),
        "Provider 'OpenAI' does not allow editing the base URL"
    );
    assert_eq!(s, before);
    let unknown = change_post_process_base_url_setting(&mut s, "nobody", "http://x".to_string());
    assert_eq!(unknown, Err(CommandError::ProviderNotFound("nobody".to_string())));
    assert_eq!(s, before);
    assert_eq!(
        change_post_process_base_url_setting(&mut s, "custom", "http://x".to_string()),
        Ok(())
    );
    assert_eq!(s.post_process_provider("custom").unwrap().base_url, "http://x");
    assert_eq!(s.post_process_provider("custom").unwrap().label, "Custom");
    assert_eq!(s.post_process_providers.len(), before.post_process_providers.len());
    assert_eq!(s.post_process_providers[0], before.post_process_providers[0]);
}

#[test]
fn api_key_of_a_provider() {
    let mut s = settings();
    let before = s.clone();
    assert_eq!(
        change_post_process_api_key_setting(&mut s, "groq".to_string(), "gsk".to_string()),
        Ok(())
    );
    assert_eq!(s.post_process_api_keys.get("groq"), Some(&"gsk".to_string()));
    assert_eq!(s.post_process_api_keys.len(), before.post_process_api_keys.len());
    let refused =
        change_post_process_api_key_setting(&mut s, "nobody".to_string(), "k".to_string());
    assert_eq!(refused, Err(CommandError::ProviderNotFound("nobody".to_string())));
    assert!(!s.post_process_api_keys.contains_key("nobody"));
}

#[test]
fn model_of_a_provider_is_remembered_trimmed() {
    let mut s = settings();
    change_post_process_model_setting(&mut s, "groq".to_string(), " llama-3 ".to_string())
        .unwrap();
    assert_eq!(s.post_process_models.get("groq"), Some(&" llama-3 ".to_string()));
    assert_eq!(s.post_process_custom_models.get("groq"), Some(&vec!["llama-3".to_string()]));
    change_post_process_model_setting(&mut s, "groq".to_string(), "llama-3".to_string()).unwrap();
    change_post_process_model_setting(&mut s, "groq".to_string(), "mixtral".to_string()).unwrap();
    assert_eq!(
        s.post_process_custom_models.get("groq"),
        Some(&vec!["llama-3".to_string(), "mixtral".to_string()])
    );
    assert_eq!(s.post_process_models.get("groq"), Some(&"mixtral".to_string()));
}

#[test]
fn a_blank_model_is_not_remembered() {
    let mut s = settings();
    change_post_process_model_setting(&mut s, "groq".to_string(), "  ".to_string()).unwrap();
    assert_eq!(s.post_process_models.get("groq"), Some(&"  ".to_string()));
    assert!(!s.post_process_custom_models.contains_key("groq"));
    let before = s.clone();
    let refused = change_post_process_model_setting(&mut s, "nobody".to_string(), "m".to_string());
    assert_eq!(refused, Err(CommandError::ProviderNotFound("nobody".to_string())));
    assert_eq!(s, before);
}

#[test]
fn select_a_provider() {
    let mut s = settings();
    assert_eq!(set_post_process_provider(&mut s, "anthropic".to_string()), Ok(()));
    assert_eq!(s.post_process_provider_id, "anthropic");
    assert_eq!(
        set_post_process_provider(&mut s, "nobody".to_string()),
        Err(CommandError::ProviderNotFound("nobody".to_string()))
    );
    assert_eq!(s.post_process_provider_id, "anthropic");
}

#[test]
fn add_a_prompt_at_a_given_time() {
    let mut s = settings();
    let added = add_post_process_prompt_at(
        &mut s,
        1_700_000_000_123,
        "Mine".to_string(),
        "Do ${output}".to_string(),
    )
    .unwrap();
    assert_eq!(
        added,
        LLMPrompt {
            id: "prompt_1700000000123".to_string(),
            name: "Mine".to_string(),
            prompt: "Do ${output}".to_string(),
        }
    );
    assert_eq!(s.post_process_prompts.len(), 11);
    assert_eq!(s.post_process_prompts[10], added);
    let early = add_post_process_prompt_at(&mut s, -5, String::new(), String::new()).unwrap();
    assert_eq!(early.id, "prompt_-5");
    let zero = add_post_process_prompt_at(&mut s, 0, String::new(), String::new()).unwrap();
    assert_eq!(zero.id, "prompt_0");
}

#[test]
fn add_a_prompt_now() {
    let mut s = settings();
    let added = add_post_process_prompt(&mut s, "Mine".to_string(), "Do it".to_string()).unwrap();
    assert_eq!(added.name, "Mine");
    assert_eq!(added.prompt, "Do it");
    let digits = added.id.strip_prefix("prompt_").unwrap();
    assert!(!digits.is_empty());
    assert!(digits.chars().all(|c| c.is_ascii_digit()));
    assert!(digits.parse::<i64>().unwrap() > 1_600_000_000_000);
    assert_eq!(s.post_process_prompts.last(), Some(&added));
}

#[test]
fn update_a_prompt() {
    let mut s = settings();
    assert_eq!(
        update_post_process_prompt(
            &mut s,
            "eli5".to_string(),
            "Simple".to_string(),
            "Explain ${output}".to_string()
        ),
        Ok(())
    );
    assert_eq!(s.post_process_prompts[7].id, "eli5");
    assert_eq!(s.post_process_prompts[7].name, "Simple");
    assert_eq!(s.post_process_prompts[7].prompt, "Explain ${output}");
    assert_eq!(s.post_process_prompts.len(), 10);
    let before = s.clone();
    let refused =
        update_post_process_prompt(&mut s, "lost".to_string(), String::new(), String::new());
    assert_eq!(refused, Err(CommandError::PromptNotFound("lost".to_string())));
    assert_eq!(refused.unwrap_err().message(), "Prompt with id 'lost' not found");
    assert_eq!(s, before);
}

#[test]
fn select_a_prompt() {
    let mut s = settings();
    assert_eq!(set_post_process_selected_prompt(&mut s, "eli5".to_string()), Ok(()));
    assert_eq!(s.post_process_selected_prompt_id, Some("eli5".to_string()));
    assert_eq!(
        set_post_process_selected_prompt(&mut s, "lost".to_string()),
        Err(CommandError::PromptNotFound("lost".to_string()))
    );
    assert_eq!(s.post_process_selected_prompt_id, Some("eli5".to_string()));
}

#[test]
fn the_last_prompt_cannot_be_deleted() {
    let mut s = settings();
    s.post_process_prompts.truncate(1);
    s.post_process_selected_prompt_id = Some("default_improve_transcriptions".to_string());
    let before = s.clone();
    let refused = delete_post_process_prompt(&mut s, "default_improve_transcriptions".to_string());
    assert_eq!(refused, Err(CommandError::LastPrompt));
    assert_eq!(refused.unwrap_err().message(), "Cannot delete the last prompt");
    assert_eq!(s, before);
    s.post_process_prompts.clear();
    assert_eq!(delete_post_process_prompt(&mut s, "x".to_string()), Err(CommandError::LastPrompt));
}

#[test]
fn delete_a_prompt() {
    let mut s = settings();
    assert_eq!(delete_post_process_prompt(&mut s, "eli5".to_string()), Ok(()));
    assert_eq!(s.post_process_prompts.len(), 9);
    assert!(s.post_process_prompts.iter().all(|p| p.id != "eli5"));
    assert_eq!(s.post_process_prompts[7].id, "code_expert");
    assert_eq!(s.post_process_selected_prompt_id, None);
    let before = s.clone();
    let refused = delete_post_process_prompt(&mut s, "eli5".to_string());
    assert_eq!(refused, Err(CommandError::PromptNotFound("eli5".to_string())));
    assert_eq!(s, before);
}

#[test]
fn deleting_the_selected_prompt_selects_the_first() {
    let mut s = settings();
    s.post_process_selected_prompt_id = Some("default_improve_transcriptions".to_string());
    delete_post_process_prompt(&mut s, "default_improve_transcriptions".to_string()).unwrap();
    assert_eq!(s.post_process_selected_prompt_id, Some("beautiful_prompts".to_string()));
    delete_post_process_prompt(&mut s, "eli5".to_string()).unwrap();
    assert_eq!(s.post_process_selected_prompt_id, Some("beautiful_prompts".to_string()));
}

#[test]
fn deleting_removes_every_prompt_with_the_id() {
    let mut s = settings();
    s.post_process_prompts.truncate(2);
    let twin = s.post_process_prompts[1].clone();
    s.post_process_prompts.push(twin);
    s.post_process_selected_prompt_id = Some("beautiful_prompts".to_string());
    delete_post_process_prompt(&mut s, "beautiful_prompts".to_string()).unwrap();
    assert_eq!(s.post_process_prompts.len(), 1);
    assert_eq!(
        s.post_process_selected_prompt_id,
        Some("default_improve_transcriptions".to_string())
    );
}
