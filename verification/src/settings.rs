//! The stored configuration and the records it is made of.

use crate::options::{
    ClipboardHandling, KeyboardImplementation, LogLevel, ModelUnloadTimeout, OverlayPosition,
    PasteMethod, RecordingRetentionPeriod, SoundTheme,
};
use crate::table::Table;
use crate::text::same;
use vstd::prelude::*;

verus! {

/// A global shortcut: what it is for, the key combination it started with
/// and the one it has now.
#[derive(Debug, PartialEq, Eq)]
pub struct ShortcutBinding {
    pub id: String,
    pub name: String,
    pub description: String,
    pub default_binding: String,
    pub current_binding: String,
}

/// The mathematical value of a [`ShortcutBinding`].
pub struct ShortcutBindingView {
    pub id: Seq<char>,
    pub name: Seq<char>,
    pub description: Seq<char>,
    pub default_binding: Seq<char>,
    pub current_binding: Seq<char>,
}

impl View for ShortcutBinding {
    type V = ShortcutBindingView;

    open spec fn view(&self) -> ShortcutBindingView {
        ShortcutBindingView {
            id: self.id@,
            name: self.name@,
            description: self.description@,
            default_binding: self.default_binding@,
            current_binding: self.current_binding@,
        }
    }
}

impl DeepView for ShortcutBinding {
    type V = ShortcutBindingView;

    open spec fn deep_view(&self) -> ShortcutBindingView {
        self@
    }
}

impl Clone for ShortcutBinding {
    fn clone(&self) -> (r: Self)
        ensures
            r@ == self@,
    {
        ShortcutBinding {
            id: self.id.clone(),
            name: self.name.clone(),
            description: self.description.clone(),
            default_binding: self.default_binding.clone(),
            current_binding: self.current_binding.clone(),
        }
    }
}

/// A prompt for the rewriting model. The text of the prompt holds the
/// placeholder that the transcript is put in for.
#[derive(Debug, PartialEq, Eq)]
pub struct LLMPrompt {
    pub id: String,
    pub name: String,
    pub prompt: String,
}

/// The mathematical value of an [`LLMPrompt`].
pub struct LLMPromptView {
    pub id: Seq<char>,
    pub name: Seq<char>,
    pub prompt: Seq<char>,
}

impl View for LLMPrompt {
    type V = LLMPromptView;

    open spec fn view(&self) -> LLMPromptView {
        LLMPromptView { id: self.id@, name: self.name@, prompt: self.prompt@ }
    }
}

impl DeepView for LLMPrompt {
    type V = LLMPromptView;

    open spec fn deep_view(&self) -> LLMPromptView {
        self@
    }
}

impl Clone for LLMPrompt {
    fn clone(&self) -> (r: Self)
        ensures
            r@ == self@,
    {
        LLMPrompt { id: self.id.clone(), name: self.name.clone(), prompt: self.prompt.clone() }
    }
}

/// A backend that can rewrite text.
#[derive(Debug, PartialEq, Eq)]
pub struct PostProcessProvider {
    pub id: String,
    pub label: String,
    pub base_url: String,
    pub allow_base_url_edit: bool,
    pub models_endpoint: Option<String>,
}

/// The mathematical value of a [`PostProcessProvider`].
pub struct PostProcessProviderView {
    pub id: Seq<char>,
    pub label: Seq<char>,
    pub base_url: Seq<char>,
    pub allow_base_url_edit: bool,
    pub models_endpoint: Option<Seq<char>>,
}

impl View for PostProcessProvider {
    type V = PostProcessProviderView;

    open spec fn view(&self) -> PostProcessProviderView {
        PostProcessProviderView {
            id: self.id@,
            label: self.label@,
            base_url: self.base_url@,
            allow_base_url_edit: self.allow_base_url_edit,
            models_endpoint: self.models_endpoint.deep_view(),
        }
    }
}

impl DeepView for PostProcessProvider {
    type V = PostProcessProviderView;

    open spec fn deep_view(&self) -> PostProcessProviderView {
        self@
    }
}

impl Clone for PostProcessProvider {
    fn clone(&self) -> (r: Self)
        ensures
            r@ == self@,
    {
        let models_endpoint = match &self.models_endpoint {
            Some(path) => Some(path.clone()),
            None => None,
        };
        PostProcessProvider {
            id: self.id.clone(),
            label: self.label.clone(),
            base_url: self.base_url.clone(),
            allow_base_url_edit: self.allow_base_url_edit,
            models_endpoint,
        }
    }
}

/// The values of a table of shortcut bindings, as a map.
pub open spec fn binding_views(table: Map<Seq<char>, ShortcutBinding>) -> Map<
    Seq<char>,
    ShortcutBindingView,
> {
    table.map_values(|b: ShortcutBinding| b@)
}

/// The values of a table of strings, as a map.
pub open spec fn text_views(table: Map<Seq<char>, String>) -> Map<Seq<char>, Seq<char>> {
    table.map_values(|s: String| s@)
}

/// The values of a table of string lists, as a map.
pub open spec fn list_views(table: Map<Seq<char>, Vec<String>>) -> Map<Seq<char>, Seq<Seq<char>>> {
    table.map_values(|l: Vec<String>| l.deep_view())
}

/// Storing a value in a table of shortcut bindings stores its view.
pub proof fn lemma_binding_views_insert(
    table: Map<Seq<char>, ShortcutBinding>,
    key: Seq<char>,
    value: ShortcutBinding,
)
    ensures
        binding_views(table.insert(key, value)) == binding_views(table).insert(key, value@),
{
}

/// Storing a value in a table of strings stores its view.
pub proof fn lemma_text_views_insert(table: Map<Seq<char>, String>, key: Seq<char>, value: String)
    ensures
        text_views(table.insert(key, value)) == text_views(table).insert(key, value@),
{
}

/// The whole stored configuration.
///
/// The two fractional settings are carried as the bit patterns of their
/// IEEE-754 values: nothing here computes with them.
#[derive(Debug, Clone, PartialEq, Eq)]
pub struct AppSettings {
    pub bindings: Table<ShortcutBinding>,
    pub push_to_talk: bool,
    pub audio_feedback: bool,
    /// The bits of the 32-bit volume of the feedback sounds.
    pub audio_feedback_volume_bits: u32,
    pub sound_theme: SoundTheme,
    pub start_hidden: bool,
    pub autostart_enabled: bool,
    pub update_checks_enabled: bool,
    pub selected_model: String,
    pub always_on_microphone: bool,
    pub selected_microphone: Option<String>,
    pub clamshell_microphone: Option<String>,
    pub selected_output_device: Option<String>,
    pub translate_to_english: bool,
    pub selected_language: String,
    pub overlay_position: OverlayPosition,
    pub debug_mode: bool,
    pub log_level: LogLevel,
    pub custom_words: Vec<String>,
    pub model_unload_timeout: ModelUnloadTimeout,
    /// The bits of the 64-bit threshold under which a word may be corrected.
    pub word_correction_threshold_bits: u64,
    pub history_limit: usize,
    pub recording_retention_period: RecordingRetentionPeriod,
    pub paste_method: PasteMethod,
    pub clipboard_handling: ClipboardHandling,
    pub post_process_enabled: bool,
    pub post_process_provider_id: String,
    pub post_process_providers: Vec<PostProcessProvider>,
    pub post_process_api_keys: Table<String>,
    pub post_process_models: Table<String>,
    pub post_process_prompts: Vec<LLMPrompt>,
    pub post_process_selected_prompt_id: Option<String>,
    pub mute_while_recording: bool,
    pub append_trailing_space: bool,
    pub app_language: String,
    pub experimental_enabled: bool,
    pub keyboard_implementation: KeyboardImplementation,
    pub post_process_custom_models: Table<Vec<String>>,
}

/// The mathematical value of an [`AppSettings`].
pub struct AppSettingsView {
    pub bindings: Map<Seq<char>, ShortcutBindingView>,
    pub push_to_talk: bool,
    pub audio_feedback: bool,
    pub audio_feedback_volume_bits: u32,
    pub sound_theme: SoundTheme,
    pub start_hidden: bool,
    pub autostart_enabled: bool,
    pub update_checks_enabled: bool,
    pub selected_model: Seq<char>,
    pub always_on_microphone: bool,
    pub selected_microphone: Option<Seq<char>>,
    pub clamshell_microphone: Option<Seq<char>>,
    pub selected_output_device: Option<Seq<char>>,
    pub translate_to_english: bool,
    pub selected_language: Seq<char>,
    pub overlay_position: OverlayPosition,
    pub debug_mode: bool,
    pub log_level: LogLevel,
    pub custom_words: Seq<Seq<char>>,
    pub model_unload_timeout: ModelUnloadTimeout,
    pub word_correction_threshold_bits: u64,
    pub history_limit: usize,
    pub recording_retention_period: RecordingRetentionPeriod,
    pub paste_method: PasteMethod,
    pub clipboard_handling: ClipboardHandling,
    pub post_process_enabled: bool,
    pub post_process_provider_id: Seq<char>,
    pub post_process_providers: Seq<PostProcessProviderView>,
    pub post_process_api_keys: Map<Seq<char>, Seq<char>>,
    pub post_process_models: Map<Seq<char>, Seq<char>>,
    pub post_process_prompts: Seq<LLMPromptView>,
    pub post_process_selected_prompt_id: Option<Seq<char>>,
    pub mute_while_recording: bool,
    pub append_trailing_space: bool,
    pub app_language: Seq<char>,
    pub experimental_enabled: bool,
    pub keyboard_implementation: KeyboardImplementation,
    pub post_process_custom_models: Map<Seq<char>, Seq<Seq<char>>>,
}

impl View for AppSettings {
    type V = AppSettingsView;

    open spec fn view(&self) -> AppSettingsView {
        AppSettingsView {
            bindings: binding_views(self.bindings@),
            push_to_talk: self.push_to_talk,
            audio_feedback: self.audio_feedback,
            audio_feedback_volume_bits: self.audio_feedback_volume_bits,
            sound_theme: self.sound_theme,
            start_hidden: self.start_hidden,
            autostart_enabled: self.autostart_enabled,
            update_checks_enabled: self.update_checks_enabled,
            selected_model: self.selected_model@,
            always_on_microphone: self.always_on_microphone,
            selected_microphone: self.selected_microphone.deep_view(),
            clamshell_microphone: self.clamshell_microphone.deep_view(),
            selected_output_device: self.selected_output_device.deep_view(),
            translate_to_english: self.translate_to_english,
            selected_language: self.selected_language@,
            overlay_position: self.overlay_position,
            debug_mode: self.debug_mode,
            log_level: self.log_level,
            custom_words: self.custom_words.deep_view(),
            model_unload_timeout: self.model_unload_timeout,
            word_correction_threshold_bits: self.word_correction_threshold_bits,
            history_limit: self.history_limit,
            recording_retention_period: self.recording_retention_period,
            paste_method: self.paste_method,
            clipboard_handling: self.clipboard_handling,
            post_process_enabled: self.post_process_enabled,
            post_process_provider_id: self.post_process_provider_id@,
            post_process_providers: self.post_process_providers.deep_view(),
            post_process_api_keys: text_views(self.post_process_api_keys@),
            post_process_models: text_views(self.post_process_models@),
            post_process_prompts: self.post_process_prompts.deep_view(),
            post_process_selected_prompt_id: self.post_process_selected_prompt_id.deep_view(),
            mute_while_recording: self.mute_while_recording,
            append_trailing_space: self.append_trailing_space,
            app_language: self.app_language@,
            experimental_enabled: self.experimental_enabled,
            keyboard_implementation: self.keyboard_implementation,
            post_process_custom_models: list_views(self.post_process_custom_models@),
        }
    }
}

/// Whether a list of providers holds one with the given id.
pub open spec fn has_provider(providers: Seq<PostProcessProviderView>, id: Seq<char>) -> bool {
    exists|i: int| 0 <= i < providers.len() && (#[trigger] providers[i]).id == id
}

/// Whether a list of prompts holds one with the given id.
pub open spec fn has_prompt(prompts: Seq<LLMPromptView>, id: Seq<char>) -> bool {
    exists|i: int| 0 <= i < prompts.len() && (#[trigger] prompts[i]).id == id
}

/// Whether `i` is the position of the first provider with the given id.
pub open spec fn first_provider_at(
    providers: Seq<PostProcessProviderView>,
    id: Seq<char>,
    i: int,
) -> bool {
    &&& 0 <= i < providers.len()
    &&& providers[i].id == id
    &&& forall|j: int| 0 <= j < i ==> (#[trigger] providers[j]).id != id
}

/// Whether `i` is the position of the first prompt with the given id.
pub open spec fn first_prompt_at(prompts: Seq<LLMPromptView>, id: Seq<char>, i: int) -> bool {
    &&& 0 <= i < prompts.len()
    &&& prompts[i].id == id
    &&& forall|j: int| 0 <= j < i ==> (#[trigger] prompts[j]).id != id
}

/// The position of the first provider with the given id, where the list
/// holds one.
pub open spec fn provider_index(providers: Seq<PostProcessProviderView>, id: Seq<char>) -> int {
    choose|i: int| first_provider_at(providers, id, i)
}

/// The position of the first prompt with the given id, where the list
/// holds one.
pub open spec fn prompt_index(prompts: Seq<LLMPromptView>, id: Seq<char>) -> int {
    choose|i: int| first_prompt_at(prompts, id, i)
}

/// There is one first position only.
pub proof fn lemma_provider_index(providers: Seq<PostProcessProviderView>, id: Seq<char>, i: int)
    requires
        first_provider_at(providers, id, i),
    ensures
        provider_index(providers, id) == i,
        has_provider(providers, id),
{
    assert(first_provider_at(providers, id, provider_index(providers, id)));
}

/// There is one first position only.
pub proof fn lemma_prompt_index(prompts: Seq<LLMPromptView>, id: Seq<char>, i: int)
    requires
        first_prompt_at(prompts, id, i),
    ensures
        prompt_index(prompts, id) == i,
        has_prompt(prompts, id),
{
    assert(first_prompt_at(prompts, id, prompt_index(prompts, id)));
}

/// The position of the first provider with the given id.
pub fn find_provider(providers: &Vec<PostProcessProvider>, id: &str) -> (r: Option<usize>)
    ensures
        match r {
            Some(i) => first_provider_at(providers.deep_view(), id@, i as int) && i
                == provider_index(providers.deep_view(), id@),
            None => !has_provider(providers.deep_view(), id@),
        },
{
    let mut i: usize = 0;
    while i < providers.len()
        invariant
            i <= providers.len(),
            forall|j: int| 0 <= j < i ==> (#[trigger] providers.deep_view()[j]).id != id@,
        decreases providers.len() - i,
    {
        if same(providers[i].id.as_str(), id) {
            proof {
                lemma_provider_index(providers.deep_view(), id@, i as int);
            }
            return Some(i);
        }
        i = i + 1;
    }
    None
}

/// The position of the first prompt with the given id.
pub fn find_prompt(prompts: &Vec<LLMPrompt>, id: &str) -> (r: Option<usize>)
    ensures
        match r {
            Some(i) => first_prompt_at(prompts.deep_view(), id@, i as int) && i == prompt_index(
                prompts.deep_view(),
                id@,
            ),
            None => !has_prompt(prompts.deep_view(), id@),
        },
{
    let mut i: usize = 0;
    while i < prompts.len()
        invariant
            i <= prompts.len(),
            forall|j: int| 0 <= j < i ==> (#[trigger] prompts.deep_view()[j]).id != id@,
        decreases prompts.len() - i,
    {
        if same(prompts[i].id.as_str(), id) {
            proof {
                lemma_prompt_index(prompts.deep_view(), id@, i as int);
            }
            return Some(i);
        }
        i = i + 1;
    }
    None
}

impl AppSettings {
    /// The provider that is selected for rewriting, if the list holds it.
    pub fn active_post_process_provider(&self) -> (r: Option<&PostProcessProvider>)
        ensures
            match r {
                Some(p) => has_provider(
                    self@.post_process_providers,
                    self@.post_process_provider_id,
                ) && p@ == self@.post_process_providers[provider_index(
                    self@.post_process_providers,
                    self@.post_process_provider_id,
                )],
                None => !has_provider(self@.post_process_providers, self@.post_process_provider_id),
            },
    {
        match find_provider(&self.post_process_providers, self.post_process_provider_id.as_str()) {
            Some(i) => Some(&self.post_process_providers[i]),
            None => None,
        }
    }

    /// The first provider with the given id, if the list holds one.
    pub fn post_process_provider(&self, provider_id: &str) -> (r: Option<&PostProcessProvider>)
        ensures
            match r {
                Some(p) => has_provider(self@.post_process_providers, provider_id@) && p@
                    == self@.post_process_providers[provider_index(
                    self@.post_process_providers,
                    provider_id@,
                )],
                None => !has_provider(self@.post_process_providers, provider_id@),
            },
    {
        match find_provider(&self.post_process_providers, provider_id) {
            Some(i) => Some(&self.post_process_providers[i]),
            None => None,
        }
    }
}

impl AppSettings {
    /// The first provider with the given id, to be changed in place.
    pub fn post_process_provider_mut(&mut self, provider_id: &str) -> (r: Option<
        &mut PostProcessProvider,
    >)
        ensures
            match r {
                Some(p) => {
                    &&& has_provider(old(self)@.post_process_providers, provider_id@)
                    &&& p@ == old(self)@.post_process_providers[provider_index(
                        old(self)@.post_process_providers,
                        provider_id@,
                    )]
                    &&& final(self)@.post_process_providers == old(
                        self,
                    )@.post_process_providers.update(
                        provider_index(old(self)@.post_process_providers, provider_id@),
                        final(p)@,
                    )
                    &&& final(self)@ == (AppSettingsView {
                        post_process_providers: final(self)@.post_process_providers,
                        ..old(self)@
                    })
                },
                None => {
                    &&& !has_provider(old(self)@.post_process_providers, provider_id@)
                    &&& final(self)@ == old(self)@
                },
            },
    {
        match find_provider(&self.post_process_providers, provider_id) {
            Some(i) => {
                Some(&mut self.post_process_providers[i])
            },
            None => None,
        }
    }
}

} // verus!
