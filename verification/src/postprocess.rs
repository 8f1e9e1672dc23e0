//! The rewriting stage: what is sent to a language model, and what is made
//! of its answer.

use crate::defaults::{APPLE_INTELLIGENCE_DEFAULT_MODEL_ID, APPLE_INTELLIGENCE_PROVIDER_ID};
use crate::error::{
    CommandError, CommandErrorView, Error, ErrorView, Misconfiguration, MisconfigurationView,
};
use crate::options::Platform;
use crate::settings::{
    find_prompt, has_prompt, has_provider, prompt_index, provider_index, AppSettings,
    AppSettingsView, PostProcessProvider, PostProcessProviderView,
};
use crate::text::{
    blank, is_blank, join2, occurs, occurs_at, owned, parse_i32, parsed_i32, replace, replaced,
    same, strip_invisible, trim, trimmed, visible_part,
};
use vstd::prelude::*;

verus! {

/// The placeholder in a prompt that the transcript is put in for.
pub const PLACEHOLDER: &'static str = "${output}";

/// How a provider is spoken to.
#[derive(Debug, PartialEq, Eq)]
pub enum ProviderCall {
    /// One chat-style completion request over HTTP, with an API key that
    /// may be empty.
    Chat { api_key: String },
    /// The on-device model, which takes a token limit in place of a model
    /// name.
    OnDevice { token_limit: i32 },
}

/// The mathematical value of a [`ProviderCall`].
pub enum ProviderCallView {
    Chat { api_key: Seq<char> },
    OnDevice { token_limit: i32 },
}

impl View for ProviderCall {
    type V = ProviderCallView;

    open spec fn view(&self) -> ProviderCallView {
        match self {
            ProviderCall::Chat { api_key } => ProviderCallView::Chat { api_key: api_key@ },
            ProviderCall::OnDevice { token_limit } => ProviderCallView::OnDevice {
                token_limit: *token_limit,
            },
        }
    }
}

/// One exchange with a provider: who is asked, for which model, with which
/// prompt, about which text.
#[derive(Debug, PartialEq, Eq)]
pub struct PostProcessRequest {
    pub provider: PostProcessProvider,
    pub model: String,
    /// The prompt with the transcript put in.
    pub prompt: String,
    /// The transcript.
    pub input: String,
    pub call: ProviderCall,
}

/// The mathematical value of a [`PostProcessRequest`].
pub struct PostProcessRequestView {
    pub provider: PostProcessProviderView,
    pub model: Seq<char>,
    pub prompt: Seq<char>,
    pub input: Seq<char>,
    pub call: ProviderCallView,
}

impl View for PostProcessRequest {
    type V = PostProcessRequestView;

    open spec fn view(&self) -> PostProcessRequestView {
        PostProcessRequestView {
            provider: self.provider@,
            model: self.model@,
            prompt: self.prompt@,
            input: self.input@,
            call: self.call@,
        }
    }
}

impl PostProcessRequestView {
    /// A request names its provider and its model and has something to
    /// say.
    pub open spec fn well_formed(self) -> bool {
        self.provider.id.len() > 0 && self.model.len() > 0 && self.prompt.len() > 0
    }
}

/// What came back from a provider.
#[derive(Debug, PartialEq, Eq)]
pub enum ProviderReply {
    /// The text of the first completion.
    Text(String),
    /// An answer without any completion text.
    NoContent,
    /// The exchange failed; the payload is the provider's or the network's
    /// message.
    Failed(String),
    /// The on-device model exists on this platform but cannot be used on
    /// this device.
    Unavailable,
}

/// The mathematical value of a [`ProviderReply`].
pub enum ProviderReplyView {
    Text(Seq<char>),
    NoContent,
    Failed(Seq<char>),
    Unavailable,
}

impl View for ProviderReply {
    type V = ProviderReplyView;

    open spec fn view(&self) -> ProviderReplyView {
        match self {
            ProviderReply::Text(t) => ProviderReplyView::Text(t@),
            ProviderReply::NoContent => ProviderReplyView::NoContent,
            ProviderReply::Failed(m) => ProviderReplyView::Failed(m@),
            ProviderReply::Unavailable => ProviderReplyView::Unavailable,
        }
    }
}

/// The value stored under `key`, or the empty text.
pub open spec fn text_or_empty(table: Map<Seq<char>, Seq<char>>, key: Seq<char>) -> Seq<char> {
    if table.contains_key(key) {
        table[key]
    } else {
        Seq::empty()
    }
}

/// The token limit that a parsed model name stands for: the number, or
/// zero where the name is no number.
pub open spec fn token_limit_of(parsed: Option<i32>) -> i32 {
    match parsed {
        Some(n) => n,
        None => 0,
    }
}

/// The token limit that a parsed model name stands for.
pub fn token_limit(parsed: Option<i32>) -> (r: i32)
    ensures
        r == token_limit_of(parsed),
{
    match parsed {
        Some(n) => n,
        None => 0,
    }
}

/// The request that rewriting `input` takes under a configuration, or the
/// reason why there is none. The checks come in this order: rewriting is
/// enabled; the selected provider exists and has an id; it has a model that
/// is not blank; a prompt is selected, exists and is not blank; the prompt
/// with every placeholder replaced by `input` is not empty; the on-device
/// provider exists on the platform. A prompt without placeholder is sent
/// as it is.
#[verifier::opaque]
pub open spec fn planned_request(
    settings: AppSettingsView,
    platform: Platform,
    input: Seq<char>,
) -> Result<PostProcessRequestView, ErrorView> {
    let providers = settings.post_process_providers;
    let prompts = settings.post_process_prompts;
    if !settings.post_process_enabled {
        Err(ErrorView::PostProcessMisconfigured(MisconfigurationView::Disabled))
    } else if !has_provider(providers, settings.post_process_provider_id) {
        Err(ErrorView::PostProcessMisconfigured(MisconfigurationView::NoProvider))
    } else {
        let provider = providers[provider_index(providers, settings.post_process_provider_id)];
        let model = text_or_empty(settings.post_process_models, provider.id);
        if provider.id.len() == 0 {
            Err(ErrorView::PostProcessMisconfigured(MisconfigurationView::NoProvider))
        } else if blank(model) {
            Err(ErrorView::PostProcessMisconfigured(MisconfigurationView::NoModel(provider.label)))
        } else {
            match settings.post_process_selected_prompt_id {
                None => Err(
                    ErrorView::PostProcessMisconfigured(MisconfigurationView::NoPromptSelected),
                ),
                Some(id) => if !has_prompt(prompts, id) {
                    Err(ErrorView::PostProcessMisconfigured(MisconfigurationView::PromptNotFound(id)))
                } else {
                    let template = prompts[prompt_index(prompts, id)].prompt;
                    let rendered = replaced(template, PLACEHOLDER@, input);
                    if blank(template) || rendered.len() == 0 {
                        Err(ErrorView::PostProcessMisconfigured(MisconfigurationView::EmptyPrompt))
                    } else if provider.id == APPLE_INTELLIGENCE_PROVIDER_ID@ {
                        if platform.offers_apple_intelligence() {
                            Ok(
                                PostProcessRequestView {
                                    provider,
                                    model,
                                    prompt: rendered,
                                    input,
                                    call: ProviderCallView::OnDevice {
                                        token_limit: token_limit_of(parsed_i32(trimmed(model))),
                                    },
                                },
                            )
                        } else {
                            Err(
                                ErrorView::UpstreamError(
                                    "Apple Intelligence is only available on Apple silicon Macs."@,
                                ),
                            )
                        }
                    } else {
                        Ok(
                            PostProcessRequestView {
                                provider,
                                model,
                                prompt: rendered,
                                input,
                                call: ProviderCallView::Chat {
                                    api_key: text_or_empty(
                                        settings.post_process_api_keys,
                                        provider.id,
                                    ),
                                },
                            },
                        )
                    }
                },
            }
        }
    }
}

/// The view of the outcome of planning a request.
pub open spec fn plan_view(r: Result<PostProcessRequest, Error>) -> Result<
    PostProcessRequestView,
    ErrorView,
> {
    match r {
        Ok(request) => Ok(request@),
        Err(e) => Err(e@),
    }
}

fn misconfigured(why: Misconfiguration) -> (r: Result<PostProcessRequest, Error>)
    ensures
        plan_view(r) == Err::<PostProcessRequestView, ErrorView>(
            ErrorView::PostProcessMisconfigured(why@),
        ),
{
    Err(Error::PostProcessMisconfigured(why))
}

/// Plans the rewriting of `input` under a configuration: the request to
/// send, or the reason why none is sent. See [`planned_request`].
pub fn post_process_request(settings: &AppSettings, platform: Platform, input: &str) -> (r: Result<
    PostProcessRequest,
    Error,
>)
    ensures
        plan_view(r) == planned_request(settings@, platform, input@),
        r matches Ok(request) ==> request@.well_formed(),
{
    reveal(planned_request);
    if !settings.post_process_enabled {
        return misconfigured(Misconfiguration::Disabled);
    }
    let provider = match settings.active_post_process_provider() {
        Some(found) => found.clone(),
        None => {
            return misconfigured(Misconfiguration::NoProvider);
        },
    };
    if provider.id.as_str().is_empty() {
        return misconfigured(Misconfiguration::NoProvider);
    }
    let model = match settings.post_process_models.get(provider.id.as_str()) {
        Some(found) => found.clone(),
        None => String::new(),
    };
    if is_blank(model.as_str()) {
        return misconfigured(Misconfiguration::NoModel(provider.label.clone()));
    }
    let selected = match &settings.post_process_selected_prompt_id {
        Some(id) => id,
        None => {
            return misconfigured(Misconfiguration::NoPromptSelected);
        },
    };
    let template = match find_prompt(&settings.post_process_prompts, selected.as_str()) {
        Some(i) => &settings.post_process_prompts[i].prompt,
        None => {
            return misconfigured(Misconfiguration::PromptNotFound(selected.clone()));
        },
    };
    if is_blank(template.as_str()) {
        return misconfigured(Misconfiguration::EmptyPrompt);
    }
    proof {
        reveal_strlit("${output}");
    }
    let rendered = replace(template.as_str(), PLACEHOLDER, input);
    if rendered.as_str().is_empty() {
        return misconfigured(Misconfiguration::EmptyPrompt);
    }
    if same(provider.id.as_str(), APPLE_INTELLIGENCE_PROVIDER_ID) {
        if !platform.has_apple_intelligence() {
            return Err(
                Error::UpstreamError(
                    owned("Apple Intelligence is only available on Apple silicon Macs."),
                ),
            );
        }
        let limit = token_limit(parse_i32(trim(model.as_str())));
        return Ok(
            PostProcessRequest {
                provider,
                model,
                prompt: rendered,
                input: owned(input),
                call: ProviderCall::OnDevice { token_limit: limit },
            },
        );
    }
    let api_key = match settings.post_process_api_keys.get(provider.id.as_str()) {
        Some(found) => found.clone(),
        None => String::new(),
    };
    Ok(
        PostProcessRequest {
            provider,
            model,
            prompt: rendered,
            input: owned(input),
            call: ProviderCall::Chat { api_key },
        },
    )
}

/// Runs the planning of the rewriting stage on a text of the user's
/// choice, with the configuration as it is.
pub fn test_post_process(settings: &AppSettings, platform: Platform, input_text: &str) -> (r:
    Result<PostProcessRequest, Error>)
    ensures
        plan_view(r) == planned_request(settings@, platform, input_text@),
        r matches Ok(request) ==> request@.well_formed(),
{
    post_process_request(settings, platform, input_text)
}

/// What a provider's reply to a request comes to: the text without its
/// invisible characters; no text at all, or none that is visible, is an
/// empty response; a failure is an upstream error whose sentence names the
/// kind of provider.
pub open spec fn rewritten(call: ProviderCallView, reply: ProviderReplyView) -> Result<
    Seq<char>,
    ErrorView,
> {
    match reply {
        ProviderReplyView::Text(text) => if visible_part(text).len() == 0 {
            Err(ErrorView::EmptyResponse)
        } else {
            Ok(visible_part(text))
        },
        ProviderReplyView::NoContent => Err(ErrorView::EmptyResponse),
        ProviderReplyView::Failed(message) => match call {
            ProviderCallView::Chat { .. } => Err(
                ErrorView::UpstreamError("LLM request failed: "@ + message),
            ),
            ProviderCallView::OnDevice { .. } => Err(
                ErrorView::UpstreamError("Apple Intelligence error: "@ + message),
            ),
        },
        ProviderReplyView::Unavailable => Err(
            ErrorView::UpstreamError("Apple Intelligence is not available on this device."@),
        ),
    }
}

/// The view of the outcome of an exchange.
pub open spec fn text_result_view(r: Result<String, Error>) -> Result<Seq<char>, ErrorView> {
    match r {
        Ok(text) => Ok(text@),
        Err(e) => Err(e@),
    }
}

/// Turns a provider's reply into the rewritten text or into the one error
/// that is shown to the user. See [`rewritten`].
pub fn finish_post_process(call: &ProviderCall, reply: ProviderReply) -> (r: Result<String, Error>)
    ensures
        text_result_view(r) == rewritten(call@, reply@),
{
    match reply {
        ProviderReply::Text(text) => {
            let clean = strip_invisible(text.as_str());
            if clean.as_str().is_empty() {
                Err(Error::EmptyResponse)
            } else {
                Ok(clean)
            }
        },
        ProviderReply::NoContent => Err(Error::EmptyResponse),
        ProviderReply::Failed(message) => match call {
            ProviderCall::Chat { .. } => Err(
                Error::UpstreamError(join2("LLM request failed: ", message.as_str())),
            ),
            ProviderCall::OnDevice { .. } => Err(
                Error::UpstreamError(join2("Apple Intelligence error: ", message.as_str())),
            ),
        },
        ProviderReply::Unavailable => Err(
            Error::UpstreamError(owned("Apple Intelligence is not available on this device.")),
        ),
    }
}

/// Whether a list of strings holds the given text.
pub fn contains_text(list: &Vec<String>, text: &str) -> (r: bool)
    ensures
        r == list.deep_view().contains(text@),
{
    let mut i: usize = 0;
    while i < list.len()
        invariant
            i <= list.len(),
            forall|j: int| 0 <= j < i ==> list.deep_view()[j] != text@,
        decreases list.len() - i,
    {
        if same(list[i].as_str(), text) {
            assert(list.deep_view()[i as int] == text@);
            return true;
        }
        i = i + 1;
    }
    false
}

/// What is known of a provider's models without asking it, or whom to ask.
#[derive(Debug, PartialEq, Eq)]
pub enum ModelQuery {
    /// The list is known: nothing is fetched.
    Known(Vec<String>),
    /// The provider's model list has to be fetched with this key; the
    /// answer goes to [`merge_post_process_models`].
    Fetch { provider: PostProcessProvider, api_key: String },
}

/// The mathematical value of a [`ModelQuery`].
pub enum ModelQueryView {
    Known(Seq<Seq<char>>),
    Fetch { provider: PostProcessProviderView, api_key: Seq<char> },
}

impl View for ModelQuery {
    type V = ModelQueryView;

    open spec fn view(&self) -> ModelQueryView {
        match self {
            ModelQuery::Known(models) => ModelQueryView::Known(models.deep_view()),
            ModelQuery::Fetch { provider, api_key } => ModelQueryView::Fetch {
                provider: provider@,
                api_key: api_key@,
            },
        }
    }
}

/// `models`, followed by each of `custom`, in order, that was not in the
/// list when its turn came.
pub open spec fn with_custom_models(models: Seq<Seq<char>>, custom: Seq<Seq<char>>) -> Seq<
    Seq<char>,
>
    decreases custom.len(),
{
    if custom.len() == 0 {
        models
    } else if models.contains(custom[0]) {
        with_custom_models(models, custom.drop_first())
    } else {
        with_custom_models(models.push(custom[0]), custom.drop_first())
    }
}

/// The model names that the user has typed in for a provider.
pub open spec fn custom_models_of(settings: AppSettingsView, provider_id: Seq<char>) -> Seq<
    Seq<char>,
> {
    if settings.post_process_custom_models.contains_key(provider_id) {
        settings.post_process_custom_models[provider_id]
    } else {
        Seq::empty()
    }
}

/// What asking for a provider's models starts with. An unknown provider is
/// an error. The on-device provider has its one model where the platform
/// has it, and is an error elsewhere. A provider without API key is not
/// asked, unless it is the freely configurable one: its list is what the
/// user has typed in. Every other provider is asked.
pub open spec fn model_query(
    settings: AppSettingsView,
    platform: Platform,
    provider_id: Seq<char>,
) -> Result<ModelQueryView, CommandErrorView> {
    let providers = settings.post_process_providers;
    if !has_provider(providers, provider_id) {
        Err(CommandErrorView::ProviderNotFound(provider_id))
    } else if provider_id == APPLE_INTELLIGENCE_PROVIDER_ID@ {
        if platform.offers_apple_intelligence() {
            Ok(ModelQueryView::Known(seq![APPLE_INTELLIGENCE_DEFAULT_MODEL_ID@]))
        } else {
            Err(CommandErrorView::OnDeviceUnavailable)
        }
    } else {
        let api_key = text_or_empty(settings.post_process_api_keys, provider_id);
        if blank(api_key) && provider_id != "custom"@ {
            Ok(
                ModelQueryView::Known(
                    with_custom_models(Seq::empty(), custom_models_of(settings, provider_id)),
                ),
            )
        } else {
            Ok(
                ModelQueryView::Fetch {
                    provider: providers[provider_index(providers, provider_id)],
                    api_key,
                },
            )
        }
    }
}

/// The view of the outcome of a model query.
pub open spec fn query_view(r: Result<ModelQuery, CommandError>) -> Result<
    ModelQueryView,
    CommandErrorView,
> {
    match r {
        Ok(query) => Ok(query@),
        Err(e) => Err(e@),
    }
}

/// The models that were fetched, or none where fetching failed.
pub open spec fn fetched_view(fetched: Result<Vec<String>, String>) -> Seq<Seq<char>> {
    match fetched {
        Ok(models) => models.deep_view(),
        Err(_) => Seq::empty(),
    }
}

fn add_custom_models(models: &mut Vec<String>, settings: &AppSettings, provider_id: &str)
    ensures
        final(models).deep_view() == with_custom_models(
            old(models).deep_view(),
            custom_models_of(settings@, provider_id@),
        ),
{
    let ghost start = models.deep_view();
    let ghost all = custom_models_of(settings@, provider_id@);
    match settings.post_process_custom_models.get(provider_id) {
        Some(custom) => {
            let mut i: usize = 0;
            proof {
                assert(all.skip(0) =~= all);
            }
            while i < custom.len()
                invariant
                    i <= custom.len(),
                    all == custom.deep_view(),
                    with_custom_models(models.deep_view(), all.skip(i as int))
                        == with_custom_models(start, all),
                decreases custom.len() - i,
            {
                let ghost before = models.deep_view();
                proof {
                    assert(all.skip(i as int).drop_first() =~= all.skip(i + 1));
                }
                if !contains_text(models, custom[i].as_str()) {
                    models.push(custom[i].clone());
                    proof {
                        assert(models.deep_view() =~= before.push(all[i as int]));
                    }
                }
                i = i + 1;
            }
        },
        None => {},
    }
}

/// Starts the query for a provider's models. See [`model_query`].
pub fn fetch_post_process_models(settings: &AppSettings, platform: Platform, provider_id: &str) -> (r:
    Result<ModelQuery, CommandError>)
    ensures
        query_view(r) == model_query(settings@, platform, provider_id@),
{
    let provider = match settings.post_process_provider(provider_id) {
        Some(found) => found,
        None => {
            return Err(CommandError::ProviderNotFound(owned(provider_id)));
        },
    };
    if same(provider_id, APPLE_INTELLIGENCE_PROVIDER_ID) {
        if platform.has_apple_intelligence() {
            let mut models: Vec<String> = Vec::new();
            models.push(owned(APPLE_INTELLIGENCE_DEFAULT_MODEL_ID));
            proof {
                assert(models.deep_view() =~= seq![APPLE_INTELLIGENCE_DEFAULT_MODEL_ID@]);
            }
            return Ok(ModelQuery::Known(models));
        }
        return Err(CommandError::OnDeviceUnavailable);
    }
    let api_key = match settings.post_process_api_keys.get(provider_id) {
        Some(found) => found.clone(),
        None => String::new(),
    };
    if is_blank(api_key.as_str()) && !same(provider_id, "custom") {
        let mut models: Vec<String> = Vec::new();
        proof {
            assert(models.deep_view() =~= Seq::empty());
        }
        add_custom_models(&mut models, settings, provider_id);
        return Ok(ModelQuery::Known(models));
    }
    Ok(ModelQuery::Fetch { provider: provider.clone(), api_key })
}

/// The list of models to offer once a provider was asked: what it
/// answered, or nothing where asking failed, followed by the names that
/// the user has typed in and that are not in the list yet. A failure is
/// never passed on: the list may come out empty.
pub fn merge_post_process_models(
    settings: &AppSettings,
    provider_id: &str,
    fetched: Result<Vec<String>, String>,
) -> (r: Vec<String>)
    ensures
        r.deep_view() == with_custom_models(
            fetched_view(fetched),
            custom_models_of(settings@, provider_id@),
        ),
{
    let mut models = match fetched {
        Ok(found) => found,
        Err(_) => {
            let none: Vec<String> = Vec::new();
            proof {
                assert(none.deep_view() =~= Seq::empty());
            }
            none
        },
    };
    add_custom_models(&mut models, settings, provider_id);
    models
}

/// A text in which the pattern does not occur is what replacing yields:
/// a prompt without placeholder is sent as it is.
pub proof fn lemma_replaced_absent(text: Seq<char>, pattern: Seq<char>, with: Seq<char>)
    requires
        !occurs(text, pattern),
    ensures
        replaced(text, pattern, with) == text,
    decreases text.len(),
{
    if pattern.len() > 0 && text.len() >= pattern.len() {
        assert(!occurs_at(text, pattern, 0));
        let rest = text.drop_first();
        assert forall|at: int| !occurs_at(rest, pattern, at) by {
            if occurs_at(rest, pattern, at) {
                assert(rest.subrange(at, at + pattern.len()) =~= text.subrange(
                    at + 1,
                    at + 1 + pattern.len(),
                ));
                assert(occurs_at(text, pattern, at + 1));
            }
        }
        lemma_replaced_absent(rest, pattern, with);
    }
}

/// Whether the on-device model can be used: the platform has to be one
/// that can have it, and the device has to report it as ready.
pub fn check_apple_intelligence_available(platform: Platform, device_ready: bool) -> (r: bool)
    ensures
        r == (platform.offers_apple_intelligence() && device_ready),
{
    platform.has_apple_intelligence() && device_ready
}

} // verus!
