//! The commands of the user interface that edit the configuration. Each
//! takes the configuration as it was read from the store and leaves it as
//! it is to be written back; a command that is refused leaves it
//! unchanged.

use crate::clock::current_millis;
use crate::error::{CommandError, CommandErrorView};
use crate::options::{ClipboardHandling, LogLevel, OverlayPosition, PasteMethod, SoundTheme};
use crate::postprocess::contains_text;
use crate::settings::{
    find_prompt, find_provider, has_prompt, has_provider, lemma_text_views_insert, list_views,
    prompt_index, provider_index, AppSettings, AppSettingsView, LLMPrompt, LLMPromptView,
    PostProcessProviderView,
};
use crate::table::Table;
use crate::text::{clone_strings, decimal, decimal_text, join2, owned, same, trim, trimmed};
use vstd::prelude::*;

verus! {

/// Switches push-to-talk on or off: off means toggle mode.
pub fn change_ptt_setting(settings: &mut AppSettings, enabled: bool) -> (r: Result<
    (),
    CommandError,
>)
    ensures
        r is Ok,
        final(settings)@ == (AppSettingsView { push_to_talk: enabled, ..old(settings)@ }),
{
    settings.push_to_talk = enabled;
    Ok(())
}

/// Switches the feedback sounds on or off.
pub fn change_audio_feedback_setting(settings: &mut AppSettings, enabled: bool) -> (r: Result<
    (),
    CommandError,
>)
    ensures
        r is Ok,
        final(settings)@ == (AppSettingsView { audio_feedback: enabled, ..old(settings)@ }),
{
    settings.audio_feedback = enabled;
    Ok(())
}

/// Sets the volume of the feedback sounds, given as the bits of a 32-bit
/// float.
pub fn change_audio_feedback_volume_setting(settings: &mut AppSettings, volume_bits: u32) -> (r: Result<
    (),
    CommandError,
>)
    ensures
        r is Ok,
        final(settings)@ == (AppSettingsView {
            audio_feedback_volume_bits: volume_bits,
            ..old(settings)@
        }),
{
    settings.audio_feedback_volume_bits = volume_bits;
    Ok(())
}

/// Selects the feedback sounds by the name of their theme; an unknown
/// name selects the marimba.
pub fn change_sound_theme_setting(settings: &mut AppSettings, theme: &str) -> (r: Result<
    (),
    CommandError,
>)
    ensures
        r is Ok,
        final(settings)@ == (AppSettingsView {
            sound_theme: SoundTheme::named(theme@),
            ..old(settings)@
        }),
{
    settings.sound_theme = SoundTheme::from_name(theme);
    Ok(())
}

/// Switches translation to English on or off.
pub fn change_translate_to_english_setting(settings: &mut AppSettings, enabled: bool) -> (r: Result<
    (),
    CommandError,
>)
    ensures
        r is Ok,
        final(settings)@ == (AppSettingsView { translate_to_english: enabled, ..old(settings)@ }),
{
    settings.translate_to_english = enabled;
    Ok(())
}

/// Sets the language to transcribe from; `auto` has it detected.
pub fn change_selected_language_setting(settings: &mut AppSettings, language: String) -> (r: Result<
    (),
    CommandError,
>)
    ensures
        r is Ok,
        final(settings)@ == (AppSettingsView { selected_language: language@, ..old(settings)@ }),
{
    settings.selected_language = language;
    Ok(())
}

/// Places the recording overlay by the name of the position; an unknown
/// name places it at the bottom.
pub fn change_overlay_position_setting(settings: &mut AppSettings, position: &str) -> (r: Result<
    (),
    CommandError,
>)
    ensures
        r is Ok,
        final(settings)@ == (AppSettingsView {
            overlay_position: OverlayPosition::named(position@),
            ..old(settings)@
        }),
{
    settings.overlay_position = OverlayPosition::from_name(position);
    Ok(())
}

/// Switches debug mode on or off.
pub fn change_debug_mode_setting(settings: &mut AppSettings, enabled: bool) -> (r: Result<
    (),
    CommandError,
>)
    ensures
        r is Ok,
        final(settings)@ == (AppSettingsView { debug_mode: enabled, ..old(settings)@ }),
{
    settings.debug_mode = enabled;
    Ok(())
}

/// Sets whether the program starts without showing its window.
pub fn change_start_hidden_setting(settings: &mut AppSettings, enabled: bool) -> (r: Result<
    (),
    CommandError,
>)
    ensures
        r is Ok,
        final(settings)@ == (AppSettingsView { start_hidden: enabled, ..old(settings)@ }),
{
    settings.start_hidden = enabled;
    Ok(())
}

/// Sets whether the program starts with the system.
pub fn change_autostart_setting(settings: &mut AppSettings, enabled: bool) -> (r: Result<
    (),
    CommandError,
>)
    ensures
        r is Ok,
        final(settings)@ == (AppSettingsView { autostart_enabled: enabled, ..old(settings)@ }),
{
    settings.autostart_enabled = enabled;
    Ok(())
}

/// Switches the checks for updates on or off.
pub fn change_update_checks_setting(settings: &mut AppSettings, enabled: bool) -> (r: Result<
    (),
    CommandError,
>)
    ensures
        r is Ok,
        final(settings)@ == (AppSettingsView { update_checks_enabled: enabled, ..old(settings)@ }),
{
    settings.update_checks_enabled = enabled;
    Ok(())
}

/// Replaces the list of words that the speech model is biased towards.
pub fn update_custom_words(settings: &mut AppSettings, words: Vec<String>) -> (r: Result<
    (),
    CommandError,
>)
    ensures
        r is Ok,
        final(settings)@ == (AppSettingsView { custom_words: words.deep_view(), ..old(settings)@ }),
{
    settings.custom_words = words;
    Ok(())
}

/// Sets the threshold under which a word may be corrected, given as the
/// bits of a 64-bit float.
pub fn change_word_correction_threshold_setting(settings: &mut AppSettings, threshold_bits: u64) -> (r: Result<
    (),
    CommandError,
>)
    ensures
        r is Ok,
        final(settings)@ == (AppSettingsView {
            word_correction_threshold_bits: threshold_bits,
            ..old(settings)@
        }),
{
    settings.word_correction_threshold_bits = threshold_bits;
    Ok(())
}

/// Selects the paste method by its name; an unknown name selects the
/// Ctrl+V paste.
pub fn change_paste_method_setting(settings: &mut AppSettings, method: &str) -> (r: Result<
    (),
    CommandError,
>)
    ensures
        r is Ok,
        final(settings)@ == (AppSettingsView {
            paste_method: PasteMethod::named(method@),
            ..old(settings)@
        }),
{
    settings.paste_method = PasteMethod::from_name(method);
    Ok(())
}

/// Selects the clipboard handling by its name; an unknown name leaves the
/// clipboard alone.
pub fn change_clipboard_handling_setting(settings: &mut AppSettings, handling: &str) -> (r: Result<
    (),
    CommandError,
>)
    ensures
        r is Ok,
        final(settings)@ == (AppSettingsView {
            clipboard_handling: ClipboardHandling::named(handling@),
            ..old(settings)@
        }),
{
    settings.clipboard_handling = ClipboardHandling::from_name(handling);
    Ok(())
}

/// Switches the rewriting stage on or off.
pub fn change_post_process_enabled_setting(settings: &mut AppSettings, enabled: bool) -> (r: Result<
    (),
    CommandError,
>)
    ensures
        r is Ok,
        final(settings)@ == (AppSettingsView { post_process_enabled: enabled, ..old(settings)@ }),
{
    settings.post_process_enabled = enabled;
    Ok(())
}

/// Switches the experimental features on or off.
pub fn change_experimental_enabled_setting(settings: &mut AppSettings, enabled: bool) -> (r: Result<
    (),
    CommandError,
>)
    ensures
        r is Ok,
        final(settings)@ == (AppSettingsView { experimental_enabled: enabled, ..old(settings)@ }),
{
    settings.experimental_enabled = enabled;
    Ok(())
}

/// Sets whether the other sounds of the system are muted while a session
/// records.
pub fn change_mute_while_recording_setting(settings: &mut AppSettings, enabled: bool) -> (r: Result<
    (),
    CommandError,
>)
    ensures
        r is Ok,
        final(settings)@ == (AppSettingsView { mute_while_recording: enabled, ..old(settings)@ }),
{
    settings.mute_while_recording = enabled;
    Ok(())
}

/// Sets whether a space is typed behind the delivered text.
pub fn change_append_trailing_space_setting(settings: &mut AppSettings, enabled: bool) -> (r: Result<
    (),
    CommandError,
>)
    ensures
        r is Ok,
        final(settings)@ == (AppSettingsView { append_trailing_space: enabled, ..old(settings)@ }),
{
    settings.append_trailing_space = enabled;
    Ok(())
}

/// Sets the language of the user interface.
pub fn change_app_language_setting(settings: &mut AppSettings, language: String) -> (r: Result<
    (),
    CommandError,
>)
    ensures
        r is Ok,
        final(settings)@ == (AppSettingsView { app_language: language@, ..old(settings)@ }),
{
    settings.app_language = language;
    Ok(())
}

/// Sets how much the log file records, and gives the number under which
/// the log filter knows the level.
pub fn set_log_level(settings: &mut AppSettings, level: LogLevel) -> (r: u8)
    ensures
        r == level.filter_number(),
        final(settings)@ == (AppSettingsView { log_level: level, ..old(settings)@ }),
{
    settings.log_level = level;
    level.to_filter_number()
}

/// Accepts the id of a provider that the configuration knows.
pub fn validate_provider_exists(settings: &AppSettings, provider_id: &str) -> (r: Result<
    (),
    CommandError,
>)
    ensures
        match r {
            Ok(_) => has_provider(settings@.post_process_providers, provider_id@),
            Err(e) => !has_provider(settings@.post_process_providers, provider_id@) && e@
                == CommandErrorView::ProviderNotFound(provider_id@),
        },
{
    match find_provider(&settings.post_process_providers, provider_id) {
        Some(_) => Ok(()),
        None => Err(CommandError::ProviderNotFound(owned(provider_id))),
    }
}

/// A configuration in which the first provider with the given id has
/// another base URL.
pub open spec fn with_base_url(
    settings: AppSettingsView,
    provider_id: Seq<char>,
    base_url: Seq<char>,
) -> AppSettingsView {
    let providers = settings.post_process_providers;
    let i = provider_index(providers, provider_id);
    AppSettingsView {
        post_process_providers: providers.update(
            i,
            PostProcessProviderView { base_url, ..providers[i] },
        ),
        ..settings
    }
}

/// Gives a provider another base URL. The provider has to exist and to
/// allow it.
pub fn change_post_process_base_url_setting(
    settings: &mut AppSettings,
    provider_id: &str,
    base_url: String,
) -> (r: Result<(), CommandError>)
    ensures
        match r {
            Ok(_) => {
                &&& has_provider(old(settings)@.post_process_providers, provider_id@)
                &&& old(settings)@.post_process_providers[provider_index(
                    old(settings)@.post_process_providers,
                    provider_id@,
                )].allow_base_url_edit
                &&& final(settings)@ == with_base_url(old(settings)@, provider_id@, base_url@)
            },
            Err(e) => {
                &&& final(settings)@ == old(settings)@
                &&& if has_provider(old(settings)@.post_process_providers, provider_id@) {
                    let provider = old(settings)@.post_process_providers[provider_index(
                        old(settings)@.post_process_providers,
                        provider_id@,
                    )];
                    !provider.allow_base_url_edit && e@ == CommandErrorView::BaseUrlLocked(
                        provider.label,
                    )
                } else {
                    e@ == CommandErrorView::ProviderNotFound(provider_id@)
                }
            },
        },
{
    let label = match settings.post_process_provider(provider_id) {
        Some(provider) => {
            if provider.allow_base_url_edit {
                None
            } else {
                Some(provider.label.clone())
            }
        },
        None => {
            return Err(CommandError::ProviderNotFound(owned(provider_id)));
        },
    };
    match label {
        Some(label) => Err(CommandError::BaseUrlLocked(label)),
        None => {
            match settings.post_process_provider_mut(provider_id) {
                Some(provider) => {
                    provider.base_url = base_url;
                },
                None => {},
            }
            Ok(())
        },
    }
}

/// Stores the API key of a provider that the configuration knows.
pub fn change_post_process_api_key_setting(
    settings: &mut AppSettings,
    provider_id: String,
    api_key: String,
) -> (r: Result<(), CommandError>)
    ensures
        match r {
            Ok(_) => {
                &&& has_provider(old(settings)@.post_process_providers, provider_id@)
                &&& final(settings)@ == (AppSettingsView {
                    post_process_api_keys: old(settings)@.post_process_api_keys.insert(
                        provider_id@,
                        api_key@,
                    ),
                    ..old(settings)@
                })
            },
            Err(e) => {
                &&& !has_provider(old(settings)@.post_process_providers, provider_id@)
                &&& e@ == CommandErrorView::ProviderNotFound(provider_id@)
                &&& final(settings)@ == old(settings)@
            },
        },
{
    match validate_provider_exists(settings, provider_id.as_str()) {
        Err(e) => {
            return Err(e);
        },
        Ok(_) => {},
    }
    let ghost before = settings.post_process_api_keys@;
    settings.post_process_api_keys.insert(provider_id, api_key);
    proof {
        lemma_text_views_insert(before, provider_id@, api_key);
    }
    Ok(())
}

/// The names that the user has typed in for a provider, with one more:
/// the trimmed name, unless it is empty or in the list already.
pub open spec fn with_custom_model(
    custom: Map<Seq<char>, Seq<Seq<char>>>,
    provider_id: Seq<char>,
    model: Seq<char>,
) -> Map<Seq<char>, Seq<Seq<char>>> {
    let name = trimmed(model);
    let known = if custom.contains_key(provider_id) {
        custom[provider_id]
    } else {
        Seq::empty()
    };
    if name.len() == 0 {
        custom
    } else if known.contains(name) {
        custom.insert(provider_id, known)
    } else {
        custom.insert(provider_id, known.push(name))
    }
}

fn remember_custom_model(custom: &mut Table<Vec<String>>, provider_id: &str, model: &str)
    ensures
        list_views(final(custom)@) == with_custom_model(
            list_views(old(custom)@),
            provider_id@,
            model@,
        ),
{
    let name = trim(model);
    if name.is_empty() {
        return ;
    }
    let mut known = match custom.get(provider_id) {
        Some(list) => clone_strings(list),
        None => {
            let none: Vec<String> = Vec::new();
            proof {
                assert(none.deep_view() =~= Seq::empty());
            }
            none
        },
    };
    if !contains_text(&known, name) {
        let ghost before = known.deep_view();
        known.push(owned(name));
        proof {
            assert(known.deep_view() =~= before.push(name@));
        }
    }
    custom.insert(owned(provider_id), known);
}

/// Selects the model of a provider that the configuration knows, and
/// remembers its trimmed name among the names typed in for that provider.
pub fn change_post_process_model_setting(
    settings: &mut AppSettings,
    provider_id: String,
    model: String,
) -> (r: Result<(), CommandError>)
    ensures
        match r {
            Ok(_) => {
                &&& has_provider(old(settings)@.post_process_providers, provider_id@)
                &&& final(settings)@ == (AppSettingsView {
                    post_process_models: old(settings)@.post_process_models.insert(
                        provider_id@,
                        model@,
                    ),
                    post_process_custom_models: with_custom_model(
                        old(settings)@.post_process_custom_models,
                        provider_id@,
                        model@,
                    ),
                    ..old(settings)@
                })
            },
            Err(e) => {
                &&& !has_provider(old(settings)@.post_process_providers, provider_id@)
                &&& e@ == CommandErrorView::ProviderNotFound(provider_id@)
                &&& final(settings)@ == old(settings)@
            },
        },
{
    match validate_provider_exists(settings, provider_id.as_str()) {
        Err(e) => {
            return Err(e);
        },
        Ok(_) => {},
    }
    remember_custom_model(
        &mut settings.post_process_custom_models,
        provider_id.as_str(),
        model.as_str(),
    );
    let ghost before = settings.post_process_models@;
    settings.post_process_models.insert(provider_id, model);
    proof {
        lemma_text_views_insert(before, provider_id@, model);
    }
    Ok(())
}

/// Selects the provider that rewrites, which the configuration has to
/// know.
pub fn set_post_process_provider(settings: &mut AppSettings, provider_id: String) -> (r: Result<
    (),
    CommandError,
>)
    ensures
        match r {
            Ok(_) => {
                &&& has_provider(old(settings)@.post_process_providers, provider_id@)
                &&& final(settings)@ == (AppSettingsView {
                    post_process_provider_id: provider_id@,
                    ..old(settings)@
                })
            },
            Err(e) => {
                &&& !has_provider(old(settings)@.post_process_providers, provider_id@)
                &&& e@ == CommandErrorView::ProviderNotFound(provider_id@)
                &&& final(settings)@ == old(settings)@
            },
        },
{
    match validate_provider_exists(settings, provider_id.as_str()) {
        Err(e) => {
            return Err(e);
        },
        Ok(_) => {},
    }
    settings.post_process_provider_id = provider_id;
    Ok(())
}

/// The id of the prompt that was added at the given time.
pub open spec fn prompt_id_at(millis: i64) -> Seq<char> {
    "prompt_"@ + decimal_text(millis as int)
}

/// Adds a prompt whose id is made from the given time in milliseconds, and
/// returns it.
pub fn add_post_process_prompt_at(
    settings: &mut AppSettings,
    millis: i64,
    name: String,
    prompt: String,
) -> (r: Result<LLMPrompt, CommandError>)
    ensures
        r matches Ok(added) && added@ == (LLMPromptView {
            id: prompt_id_at(millis),
            name: name@,
            prompt: prompt@,
        }),
        final(settings)@ == (AppSettingsView {
            post_process_prompts: old(settings)@.post_process_prompts.push(
                LLMPromptView { id: prompt_id_at(millis), name: name@, prompt: prompt@ },
            ),
            ..old(settings)@
        }),
{
    let id = join2("prompt_", decimal(millis).as_str());
    let new_prompt = LLMPrompt { id, name, prompt };
    let added = new_prompt.clone();
    let ghost before = settings.post_process_prompts.deep_view();
    settings.post_process_prompts.push(new_prompt);
    proof {
        assert(settings.post_process_prompts.deep_view() =~= before.push(added@));
    }
    Ok(added)
}

/// Adds a prompt whose id is made from the time of the call, and returns
/// it.
pub fn add_post_process_prompt(settings: &mut AppSettings, name: String, prompt: String) -> (r:
    Result<LLMPrompt, CommandError>)
    ensures
        r matches Ok(added) && added@.name == name@ && added@.prompt == prompt@ && exists|millis: i64|
            added@.id == #[trigger] prompt_id_at(millis),
        r matches Ok(added) && final(settings)@ == (AppSettingsView {
            post_process_prompts: old(settings)@.post_process_prompts.push(added@),
            ..old(settings)@
        }),
{
    let millis = current_millis();
    add_post_process_prompt_at(settings, millis, name, prompt)
}

/// A configuration in which the first prompt with the given id has
/// another name and text.
pub open spec fn with_prompt_text(
    settings: AppSettingsView,
    id: Seq<char>,
    name: Seq<char>,
    prompt: Seq<char>,
) -> AppSettingsView {
    let prompts = settings.post_process_prompts;
    AppSettingsView {
        post_process_prompts: prompts.update(
            prompt_index(prompts, id),
            LLMPromptView { id, name, prompt },
        ),
        ..settings
    }
}

/// Gives the first prompt with the given id another name and text.
pub fn update_post_process_prompt(
    settings: &mut AppSettings,
    id: String,
    name: String,
    prompt: String,
) -> (r: Result<(), CommandError>)
    ensures
        match r {
            Ok(_) => has_prompt(old(settings)@.post_process_prompts, id@) && final(settings)@
                == with_prompt_text(old(settings)@, id@, name@, prompt@),
            Err(e) => !has_prompt(old(settings)@.post_process_prompts, id@) && e@
                == CommandErrorView::PromptNotFound(id@) && final(settings)@ == old(settings)@,
        },
{
    match find_prompt(&settings.post_process_prompts, id.as_str()) {
        Some(i) => {
            let ghost before = settings.post_process_prompts.deep_view();
            let changed = LLMPrompt { id, name, prompt };
            settings.post_process_prompts.set(i, changed);
            proof {
                assert(settings.post_process_prompts.deep_view() =~= before.update(
                    i as int,
                    changed@,
                ));
            }
            Ok(())
        },
        None => Err(CommandError::PromptNotFound(id)),
    }
}

/// Selects the prompt that rewriting uses, which the configuration has to
/// hold.
pub fn set_post_process_selected_prompt(settings: &mut AppSettings, id: String) -> (r: Result<
    (),
    CommandError,
>)
    ensures
        match r {
            Ok(_) => has_prompt(old(settings)@.post_process_prompts, id@) && final(settings)@
                == (AppSettingsView {
                post_process_selected_prompt_id: Some(id@),
                ..old(settings)@
            }),
            Err(e) => !has_prompt(old(settings)@.post_process_prompts, id@) && e@
                == CommandErrorView::PromptNotFound(id@) && final(settings)@ == old(settings)@,
        },
{
    match find_prompt(&settings.post_process_prompts, id.as_str()) {
        Some(_) => {
            settings.post_process_selected_prompt_id = Some(id);
            Ok(())
        },
        None => Err(CommandError::PromptNotFound(id)),
    }
}

/// A list of prompts without those that have the given id.
pub open spec fn without_prompt(prompts: Seq<LLMPromptView>, id: Seq<char>) -> Seq<LLMPromptView> {
    prompts.filter(|p: LLMPromptView| p.id != id)
}

/// The selection after the prompts with the given id were deleted: where
/// one of them was selected, the first of the remaining prompts is, or
/// none if none remains.
pub open spec fn selection_after_delete(
    selected: Option<Seq<char>>,
    remaining: Seq<LLMPromptView>,
    id: Seq<char>,
) -> Option<Seq<char>> {
    if selected == Some(id) {
        if remaining.len() > 0 {
            Some(remaining[0].id)
        } else {
            None
        }
    } else {
        selected
    }
}

fn prompts_without(prompts: &Vec<LLMPrompt>, id: &str) -> (r: Vec<LLMPrompt>)
    ensures
        r.deep_view() == without_prompt(prompts.deep_view(), id@),
{
    let ghost keep = |p: LLMPromptView| p.id != id@;
    let mut kept: Vec<LLMPrompt> = Vec::new();
    let mut i: usize = 0;
    while i < prompts.len()
        invariant
            i <= prompts.len(),
            keep == (|p: LLMPromptView| p.id != id@),
            kept.deep_view() == prompts.deep_view().take(i as int).filter(keep),
        decreases prompts.len() - i,
    {
        let ghost seen = prompts.deep_view().take(i as int);
        let ghost next = prompts.deep_view().take(i + 1);
        proof {
            reveal(Seq::filter);
            assert(next.drop_last() =~= seen);
        }
        if !same(prompts[i].id.as_str(), id) {
            kept.push(prompts[i].clone());
        }
        i = i + 1;
    }
    proof {
        assert(prompts.deep_view().take(i as int) =~= prompts.deep_view());
    }
    kept
}

/// Deletes the prompts with the given id. The last remaining prompt
/// cannot be deleted, and the id has to be that of a prompt; a command
/// that is refused changes nothing. Where a deleted prompt was the
/// selected one, the first of the remaining prompts is selected.
pub fn delete_post_process_prompt(settings: &mut AppSettings, id: String) -> (r: Result<
    (),
    CommandError,
>)
    ensures
        match r {
            Ok(_) => {
                &&& old(settings)@.post_process_prompts.len() > 1
                &&& has_prompt(old(settings)@.post_process_prompts, id@)
                &&& final(settings)@ == (AppSettingsView {
                    post_process_prompts: without_prompt(
                        old(settings)@.post_process_prompts,
                        id@,
                    ),
                    post_process_selected_prompt_id: selection_after_delete(
                        old(settings)@.post_process_selected_prompt_id,
                        without_prompt(old(settings)@.post_process_prompts, id@),
                        id@,
                    ),
                    ..old(settings)@
                })
            },
            Err(e) => {
                &&& final(settings)@ == old(settings)@
                &&& if old(settings)@.post_process_prompts.len() <= 1 {
                    e@ == CommandErrorView::LastPrompt
                } else {
                    !has_prompt(old(settings)@.post_process_prompts, id@) && e@
                        == CommandErrorView::PromptNotFound(id@)
                }
            },
        },
{
    if settings.post_process_prompts.len() <= 1 {
        return Err(CommandError::LastPrompt);
    }
    if find_prompt(&settings.post_process_prompts, id.as_str()).is_none() {
        return Err(CommandError::PromptNotFound(id));
    }
    let kept = prompts_without(&settings.post_process_prompts, id.as_str());
    let was_selected = match &settings.post_process_selected_prompt_id {
        Some(selected) => same(selected.as_str(), id.as_str()),
        None => false,
    };
    if was_selected {
        let first = if kept.len() > 0 {
            Some(kept[0].id.clone())
        } else {
            None
        };
        settings.post_process_selected_prompt_id = first;
    }
    settings.post_process_prompts = kept;
    Ok(())
}

} // verus!
