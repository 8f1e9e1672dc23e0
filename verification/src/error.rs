//! What can go wrong, and how each failure reads to the user.

use crate::text::{join2, join3, owned};
use vstd::prelude::*;

verus! {

/// Why the rewriting stage cannot run with the configuration as it is.
#[derive(Debug, PartialEq, Eq)]
pub enum Misconfiguration {
    /// Rewriting is switched off.
    Disabled,
    /// The selected provider is not among the providers.
    NoProvider,
    /// The provider, whose label is given, has no model configured.
    NoModel(String),
    /// No prompt is selected.
    NoPromptSelected,
    /// The selected prompt, whose id is given, is not among the prompts.
    PromptNotFound(String),
    /// The selected prompt has no text.
    EmptyPrompt,
}

/// The mathematical value of a [`Misconfiguration`].
pub enum MisconfigurationView {
    Disabled,
    NoProvider,
    NoModel(Seq<char>),
    NoPromptSelected,
    PromptNotFound(Seq<char>),
    EmptyPrompt,
}

impl View for Misconfiguration {
    type V = MisconfigurationView;

    open spec fn view(&self) -> MisconfigurationView {
        match self {
            Misconfiguration::Disabled => MisconfigurationView::Disabled,
            Misconfiguration::NoProvider => MisconfigurationView::NoProvider,
            Misconfiguration::NoModel(label) => MisconfigurationView::NoModel(label@),
            Misconfiguration::NoPromptSelected => MisconfigurationView::NoPromptSelected,
            Misconfiguration::PromptNotFound(id) => MisconfigurationView::PromptNotFound(id@),
            Misconfiguration::EmptyPrompt => MisconfigurationView::EmptyPrompt,
        }
    }
}

impl MisconfigurationView {
    /// The sentence shown to the user.
    pub open spec fn message(self) -> Seq<char> {
        match self {
            MisconfigurationView::Disabled => "Post-processing is disabled. Please enable it first."@,
            MisconfigurationView::NoProvider => "No post-processing provider is selected."@,
            MisconfigurationView::NoModel(label) => "No model configured for provider '"@ + label
                + "'."@,
            MisconfigurationView::NoPromptSelected => "No prompt is selected."@,
            MisconfigurationView::PromptNotFound(id) => "Selected prompt '"@ + id
                + "' not found."@,
            MisconfigurationView::EmptyPrompt => "The selected prompt is empty."@,
        }
    }
}

impl Misconfiguration {
    /// The sentence shown to the user.
    pub fn message(&self) -> (r: String)
        ensures
            r@ == self@.message(),
    {
        match self {
            Misconfiguration::Disabled => owned(
                "Post-processing is disabled. Please enable it first.",
            ),
            Misconfiguration::NoProvider => owned("No post-processing provider is selected."),
            Misconfiguration::NoModel(label) => join3(
                "No model configured for provider '",
                label.as_str(),
                "'.",
            ),
            Misconfiguration::NoPromptSelected => owned("No prompt is selected."),
            Misconfiguration::PromptNotFound(id) => join3(
                "Selected prompt '",
                id.as_str(),
                "' not found.",
            ),
            Misconfiguration::EmptyPrompt => owned("The selected prompt is empty."),
        }
    }
}

/// A failure of the dictation pipeline or of one of its commands. A
/// failure ends the session it happened in, never the process.
#[derive(Debug, PartialEq, Eq)]
pub enum Error {
    /// A session is already active.
    Busy,
    /// The system does not let the program simulate input; the payload is
    /// what the system said.
    PermissionDenied(String),
    /// The microphone could not be opened.
    DeviceUnavailable(String),
    /// The speech model could not be loaded.
    ModelLoadFailed(String),
    /// The speech model failed on the recording.
    TranscriptionFailed(String),
    /// The rewriting stage cannot run as configured.
    PostProcessMisconfigured(Misconfiguration),
    /// The provider could not be reached or refused; the payload is the
    /// whole sentence shown to the user.
    UpstreamError(String),
    /// The provider answered without any text.
    EmptyResponse,
    /// The text could not be delivered to the focused application.
    InjectionFailed(String),
    /// The key combination belongs to another active binding, whose id is
    /// given.
    ShortcutConflict(String),
    /// The text is not a key combination; the payload says why.
    ValidationError(String),
}

/// The mathematical value of an [`Error`].
pub enum ErrorView {
    Busy,
    PermissionDenied(Seq<char>),
    DeviceUnavailable(Seq<char>),
    ModelLoadFailed(Seq<char>),
    TranscriptionFailed(Seq<char>),
    PostProcessMisconfigured(MisconfigurationView),
    UpstreamError(Seq<char>),
    EmptyResponse,
    InjectionFailed(Seq<char>),
    ShortcutConflict(Seq<char>),
    ValidationError(Seq<char>),
}

impl View for Error {
    type V = ErrorView;

    open spec fn view(&self) -> ErrorView {
        match self {
            Error::Busy => ErrorView::Busy,
            Error::PermissionDenied(m) => ErrorView::PermissionDenied(m@),
            Error::DeviceUnavailable(m) => ErrorView::DeviceUnavailable(m@),
            Error::ModelLoadFailed(m) => ErrorView::ModelLoadFailed(m@),
            Error::TranscriptionFailed(m) => ErrorView::TranscriptionFailed(m@),
            Error::PostProcessMisconfigured(why) => ErrorView::PostProcessMisconfigured(why@),
            Error::UpstreamError(m) => ErrorView::UpstreamError(m@),
            Error::EmptyResponse => ErrorView::EmptyResponse,
            Error::InjectionFailed(m) => ErrorView::InjectionFailed(m@),
            Error::ShortcutConflict(id) => ErrorView::ShortcutConflict(id@),
            Error::ValidationError(m) => ErrorView::ValidationError(m@),
        }
    }
}

impl ErrorView {
    /// The one sentence shown to the user.
    pub open spec fn message(self) -> Seq<char> {
        match self {
            ErrorView::Busy => "A dictation session is already active."@,
            ErrorView::PermissionDenied(m) => "Failed to initialize input system: "@ + m,
            ErrorView::DeviceUnavailable(m) => "Failed to open the microphone: "@ + m,
            ErrorView::ModelLoadFailed(m) => "Failed to load the model: "@ + m,
            ErrorView::TranscriptionFailed(m) => "Transcription failed: "@ + m,
            ErrorView::PostProcessMisconfigured(why) => why.message(),
            ErrorView::UpstreamError(m) => m,
            ErrorView::EmptyResponse => "LLM returned an empty response."@,
            ErrorView::InjectionFailed(m) => "Failed to paste the text: "@ + m,
            ErrorView::ShortcutConflict(id) => "Shortcut is already in use by '"@ + id + "'"@,
            ErrorView::ValidationError(m) => m,
        }
    }
}

impl Error {
    /// The one sentence shown to the user.
    pub fn message(&self) -> (r: String)
        ensures
            r@ == self@.message(),
    {
        match self {
            Error::Busy => owned("A dictation session is already active."),
            Error::PermissionDenied(m) => join2("Failed to initialize input system: ", m.as_str()),
            Error::DeviceUnavailable(m) => join2("Failed to open the microphone: ", m.as_str()),
            Error::ModelLoadFailed(m) => join2("Failed to load the model: ", m.as_str()),
            Error::TranscriptionFailed(m) => join2("Transcription failed: ", m.as_str()),
            Error::PostProcessMisconfigured(why) => why.message(),
            Error::UpstreamError(m) => m.clone(),
            Error::EmptyResponse => owned("LLM returned an empty response."),
            Error::InjectionFailed(m) => join2("Failed to paste the text: ", m.as_str()),
            Error::ShortcutConflict(id) => join3("Shortcut is already in use by '", id.as_str(), "'"),
            Error::ValidationError(m) => m.clone(),
        }
    }
}


/// Why a command that edits the configuration was refused.
#[derive(Debug, PartialEq, Eq)]
pub enum CommandError {
    /// No provider has the given id.
    ProviderNotFound(String),
    /// The provider, whose label is given, has a fixed base URL.
    BaseUrlLocked(String),
    /// No prompt has the given id.
    PromptNotFound(String),
    /// The one remaining prompt cannot be deleted.
    LastPrompt,
    /// No binding has the given id.
    BindingNotFound(String),
    /// Only the hotkey library is supported as keyboard backend.
    UnsupportedImplementation,
    /// The on-device provider does not exist on this platform.
    OnDeviceUnavailable,
}

/// The mathematical value of a [`CommandError`].
pub enum CommandErrorView {
    ProviderNotFound(Seq<char>),
    BaseUrlLocked(Seq<char>),
    PromptNotFound(Seq<char>),
    LastPrompt,
    BindingNotFound(Seq<char>),
    UnsupportedImplementation,
    OnDeviceUnavailable,
}

impl View for CommandError {
    type V = CommandErrorView;

    open spec fn view(&self) -> CommandErrorView {
        match self {
            CommandError::ProviderNotFound(id) => CommandErrorView::ProviderNotFound(id@),
            CommandError::BaseUrlLocked(label) => CommandErrorView::BaseUrlLocked(label@),
            CommandError::PromptNotFound(id) => CommandErrorView::PromptNotFound(id@),
            CommandError::LastPrompt => CommandErrorView::LastPrompt,
            CommandError::BindingNotFound(id) => CommandErrorView::BindingNotFound(id@),
            CommandError::UnsupportedImplementation => CommandErrorView::UnsupportedImplementation,
            CommandError::OnDeviceUnavailable => CommandErrorView::OnDeviceUnavailable,
        }
    }
}

impl CommandErrorView {
    /// The sentence shown to the user.
    pub open spec fn message(self) -> Seq<char> {
        match self {
            CommandErrorView::ProviderNotFound(id) => "Provider '"@ + id + "' not found"@,
            CommandErrorView::BaseUrlLocked(label) => "Provider '"@ + label
                + "' does not allow editing the base URL"@,
            CommandErrorView::PromptNotFound(id) => "Prompt with id '"@ + id + "' not found"@,
            CommandErrorView::LastPrompt => "Cannot delete the last prompt"@,
            CommandErrorView::BindingNotFound(id) => "Binding with id '"@ + id + "' not found"@,
            CommandErrorView::UnsupportedImplementation =>
                "Only handy_keys implementation is supported"@,
            CommandErrorView::OnDeviceUnavailable =>
                "Apple Intelligence is only available on Apple silicon Macs running macOS 15 or later."@,
        }
    }
}

impl CommandError {
    /// The sentence shown to the user.
    pub fn message(&self) -> (r: String)
        ensures
            r@ == self@.message(),
    {
        match self {
            CommandError::ProviderNotFound(id) => join3("Provider '", id.as_str(), "' not found"),
            CommandError::BaseUrlLocked(label) => join3(
                "Provider '",
                label.as_str(),
                "' does not allow editing the base URL",
            ),
            CommandError::PromptNotFound(id) => join3(
                "Prompt with id '",
                id.as_str(),
                "' not found",
            ),
            CommandError::LastPrompt => owned("Cannot delete the last prompt"),
            CommandError::BindingNotFound(id) => join3(
                "Binding with id '",
                id.as_str(),
                "' not found",
            ),
            CommandError::UnsupportedImplementation => owned(
                "Only handy_keys implementation is supported",
            ),
            CommandError::OnDeviceUnavailable => owned(
                "Apple Intelligence is only available on Apple silicon Macs running macOS 15 or later.",
            ),
        }
    }
}

} // verus!
