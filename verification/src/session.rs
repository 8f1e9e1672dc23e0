//! The dictation session and the controller that owns it.
//!
//! The controller is the one place where the state of the pipeline
//! changes. It is handed events (a shortcut was pressed, a command came
//! from the user interface, a stage has finished) and answers each with
//! the new state and the list of things to do. It never waits: recording,
//! transcribing, rewriting and typing are done elsewhere and report back
//! with an event that names the session they worked for. An event for a
//! session that is no longer live is dropped, which is how a result that
//! arrives after a cancellation comes to nothing.

use crate::error::{Error, ErrorView};
use crate::model::{language_hint, language_hint_of};
use crate::options::{ClipboardHandling, PasteMethod, Platform, SoundTheme};
use crate::postprocess::{
    planned_request, post_process_request, PostProcessRequest, PostProcessRequestView,
};
use crate::settings::{AppSettings, AppSettingsView};
use crate::shortcut::CANCEL_BINDING_ID;
use crate::text::{blank, clone_optional, clone_strings, is_blank, join2, same};
use vstd::prelude::*;

verus! {

/// The id of the binding that starts and stops a recording.
pub const TRANSCRIBE_BINDING_ID: &'static str = "transcribe";

/// Where the pipeline stands. `Cancelling` and `Error` are passed through
/// on the way back to `Idle` and shown to observers; the controller never
/// rests in them.
#[derive(Clone, Copy, Debug, PartialEq, Eq, Structural)]
pub enum SessionState {
    Idle,
    Recording,
    Transcribing,
    PostProcessing,
    Injecting,
    Cancelling,
    Error,
}

impl SessionState {
    /// The states in which a session is under way.
    pub open spec fn is_live(self) -> bool {
        self == SessionState::Recording || self == SessionState::Transcribing || self
            == SessionState::PostProcessing || self == SessionState::Injecting
    }

    /// The states in which the cancel shortcut is registered.
    pub open spec fn wants_cancel_shortcut(self) -> bool {
        self == SessionState::Recording || self == SessionState::Transcribing || self
            == SessionState::PostProcessing
    }
}

/// The microphone a session records from, fixed when the session starts.
#[derive(Debug, PartialEq, Eq)]
pub struct AudioDeviceRef {
    /// The name of the device, or `None` for the system's default one.
    pub name: Option<String>,
    /// Whether the stream is kept open between sessions.
    pub always_on: bool,
}

/// The mathematical value of an [`AudioDeviceRef`].
pub struct AudioDeviceRefView {
    pub name: Option<Seq<char>>,
    pub always_on: bool,
}

impl View for AudioDeviceRef {
    type V = AudioDeviceRefView;

    open spec fn view(&self) -> AudioDeviceRefView {
        AudioDeviceRefView { name: self.name.deep_view(), always_on: self.always_on }
    }
}

/// One cycle of recording, transcribing, rewriting and typing.
#[derive(Debug, PartialEq, Eq)]
pub struct Session {
    pub id: u64,
    pub state: SessionState,
    /// When the session started, in milliseconds.
    pub started_at: u64,
    pub device: AudioDeviceRef,
    /// Whether the other sounds of the system were muted for the
    /// recording.
    pub muted: bool,
    /// What was said, once it is known.
    pub transcript: Option<String>,
    /// What the language model made of it, where it was asked.
    pub processed: Option<String>,
}

/// The mathematical value of a [`Session`].
pub struct SessionView {
    pub id: u64,
    pub state: SessionState,
    pub started_at: u64,
    pub device: AudioDeviceRefView,
    pub muted: bool,
    pub transcript: Option<Seq<char>>,
    pub processed: Option<Seq<char>>,
}

impl View for Session {
    type V = SessionView;

    open spec fn view(&self) -> SessionView {
        SessionView {
            id: self.id,
            state: self.state,
            started_at: self.started_at,
            device: self.device@,
            muted: self.muted,
            transcript: self.transcript.deep_view(),
            processed: self.processed.deep_view(),
        }
    }
}

/// Which of the two feedback sounds to play.
#[derive(Clone, Copy, Debug, PartialEq, Eq, Structural)]
pub enum Feedback {
    Start,
    Stop,
}

/// Something the controller wants done. The list that answers an event is
/// to be carried out in its order.
#[derive(Debug, PartialEq, Eq)]
pub enum Action {
    /// Tell the observers that the pipeline is in this state now.
    Notify(SessionState),
    /// Play the start or the stop sound of the theme.
    PlayFeedback(Feedback, SoundTheme),
    MuteSystemAudio,
    UnmuteSystemAudio,
    /// Open the microphone and start to buffer.
    OpenAudio(AudioDeviceRef),
    /// Stop to buffer and keep what was recorded.
    CloseAudio,
    /// Stop to buffer and throw away what was recorded.
    AbortAudio,
    RegisterCancelShortcut,
    UnregisterCancelShortcut,
    /// Transcribe what the session recorded. Without a language the speech
    /// model detects it; with `translate` the text comes out in English.
    Transcribe {
        session: u64,
        language: Option<String>,
        translate: bool,
        custom_words: Vec<String>,
    },
    /// Send the request to its provider.
    PostProcess { session: u64, request: PostProcessRequest },
    /// Deliver the text to the focused application.
    Inject {
        session: u64,
        text: String,
        paste_method: PasteMethod,
        clipboard_handling: ClipboardHandling,
    },
    /// Report the end of a session that came through: what was said, and
    /// the text that was delivered.
    Deliver { session: u64, transcript: String, text: String },
    /// Report the one error that ended a session.
    Fail { session: u64, error: Error },
}

/// The mathematical value of an [`Action`].
pub enum ActionView {
    Notify(SessionState),
    PlayFeedback(Feedback, SoundTheme),
    MuteSystemAudio,
    UnmuteSystemAudio,
    OpenAudio(AudioDeviceRefView),
    CloseAudio,
    AbortAudio,
    RegisterCancelShortcut,
    UnregisterCancelShortcut,
    Transcribe {
        session: u64,
        language: Option<Seq<char>>,
        translate: bool,
        custom_words: Seq<Seq<char>>,
    },
    PostProcess { session: u64, request: PostProcessRequestView },
    Inject {
        session: u64,
        text: Seq<char>,
        paste_method: PasteMethod,
        clipboard_handling: ClipboardHandling,
    },
    Deliver { session: u64, transcript: Seq<char>, text: Seq<char> },
    Fail { session: u64, error: ErrorView },
}

impl View for Action {
    type V = ActionView;

    open spec fn view(&self) -> ActionView {
        match self {
            Action::Notify(state) => ActionView::Notify(*state),
            Action::PlayFeedback(sound, theme) => ActionView::PlayFeedback(*sound, *theme),
            Action::MuteSystemAudio => ActionView::MuteSystemAudio,
            Action::UnmuteSystemAudio => ActionView::UnmuteSystemAudio,
            Action::OpenAudio(device) => ActionView::OpenAudio(device@),
            Action::CloseAudio => ActionView::CloseAudio,
            Action::AbortAudio => ActionView::AbortAudio,
            Action::RegisterCancelShortcut => ActionView::RegisterCancelShortcut,
            Action::UnregisterCancelShortcut => ActionView::UnregisterCancelShortcut,
            Action::Transcribe { session, language, translate, custom_words } =>
                ActionView::Transcribe {
                session: *session,
                language: language.deep_view(),
                translate: *translate,
                custom_words: custom_words.deep_view(),
            },
            Action::PostProcess { session, request } => ActionView::PostProcess {
                session: *session,
                request: request@,
            },
            Action::Inject { session, text, paste_method, clipboard_handling } =>
                ActionView::Inject {
                session: *session,
                text: text@,
                paste_method: *paste_method,
                clipboard_handling: *clipboard_handling,
            },
            Action::Deliver { session, transcript, text } => ActionView::Deliver {
                session: *session,
                transcript: transcript@,
                text: text@,
            },
            Action::Fail { session, error } => ActionView::Fail {
                session: *session,
                error: error@,
            },
        }
    }
}

impl DeepView for Action {
    type V = ActionView;

    open spec fn deep_view(&self) -> ActionView {
        self@
    }
}

/// The orchestrator of the pipeline: it holds the one session that is
/// under way, if any.
#[derive(Debug, PartialEq, Eq)]
pub struct SessionController {
    session: Option<Session>,
    next_id: u64,
    cancel_shortcut: bool,
}

/// The mathematical value of a [`SessionController`].
pub struct ControllerView {
    /// The session that is under way.
    pub session: Option<SessionView>,
    /// The id that the next session gets.
    pub next_id: u64,
    /// Whether the cancel shortcut is registered.
    pub cancel_shortcut: bool,
}

impl View for SessionController {
    type V = ControllerView;

    closed spec fn view(&self) -> ControllerView {
        ControllerView {
            session: match self.session {
                Some(s) => Some(s@),
                None => None,
            },
            next_id: self.next_id,
            cancel_shortcut: self.cancel_shortcut,
        }
    }
}

impl ControllerView {
    /// The state of the pipeline: that of the session under way, or idle.
    pub open spec fn state(self) -> SessionState {
        match self.session {
            Some(s) => s.state,
            None => SessionState::Idle,
        }
    }

    /// How many sessions are under way.
    pub open spec fn live_sessions(self) -> nat {
        if self.session is Some {
            1
        } else {
            0
        }
    }

    /// The invariant of the controller. A session that is held is under
    /// way: the controller lets go of a session the moment it ends. What
    /// was said is known from the rewriting on, and what was made of it
    /// only while it is typed. The cancel shortcut is registered exactly
    /// while there is something to cancel by key.
    pub open spec fn wf(self) -> bool {
        match self.session {
            Some(s) => {
                &&& s.state.is_live()
                &&& self.cancel_shortcut == s.state.wants_cancel_shortcut()
                &&& s.transcript is Some <==> s.state == SessionState::PostProcessing || s.state
                    == SessionState::Injecting
                &&& s.processed is Some ==> s.state == SessionState::Injecting
            },
            None => !self.cancel_shortcut,
        }
    }

    /// Whether an event for the session `id` in stage `stage` is for the
    /// session under way; any other is dropped.
    pub open spec fn awaits(self, id: u64, stage: SessionState) -> bool {
        self.session matches Some(s) && s.id == id && s.state == stage
    }
}

/// The answer to an event: the controller afterwards, and what is to be
/// done.
pub struct Step {
    pub next: ControllerView,
    pub actions: Seq<ActionView>,
}

/// One action if the condition holds, none otherwise.
pub open spec fn when(condition: bool, action: ActionView) -> Seq<ActionView> {
    if condition {
        seq![action]
    } else {
        Seq::empty()
    }
}

/// The microphone for the next session: the one set aside for a closed
/// lid where the lid is closed and one is set aside, the selected one
/// otherwise.
pub open spec fn device_for(settings: AppSettingsView, lid_closed: bool) -> AudioDeviceRefView {
    AudioDeviceRefView {
        name: if lid_closed && settings.clamshell_microphone is Some {
            settings.clamshell_microphone
        } else {
            settings.selected_microphone
        },
        always_on: settings.always_on_microphone,
    }
}

/// The id after `id`; after the last one the ids start over.
pub open spec fn id_after(id: u64) -> u64 {
    if id == u64::MAX {
        0
    } else {
        (id + 1) as u64
    }
}

/// A session starts: an idle controller takes a snapshot of the
/// configured microphone and begins to record.
pub open spec fn started(
    c: ControllerView,
    settings: AppSettingsView,
    lid_closed: bool,
    now: u64,
) -> Step {
    let device = device_for(settings, lid_closed);
    let session = SessionView {
        id: c.next_id,
        state: SessionState::Recording,
        started_at: now,
        device,
        muted: settings.mute_while_recording,
        transcript: None,
        processed: None,
    };
    Step {
        next: ControllerView {
            session: Some(session),
            next_id: id_after(c.next_id),
            cancel_shortcut: true,
        },
        actions: seq![ActionView::Notify(SessionState::Recording)] + when(
            settings.audio_feedback,
            ActionView::PlayFeedback(Feedback::Start, settings.sound_theme),
        ) + seq![ActionView::OpenAudio(device)] + when(
            settings.mute_while_recording,
            ActionView::MuteSystemAudio,
        ) + seq![ActionView::RegisterCancelShortcut],
    }
}

/// An event that does not concern the controller as it is: nothing
/// changes and nothing is to be done.
pub open spec fn ignored(c: ControllerView) -> Step {
    Step { next: c, actions: Seq::empty() }
}

/// The recording stops: the microphone is closed and what was recorded
/// goes to the speech model. Only a recording can be stopped.
pub open spec fn stopped(c: ControllerView, settings: AppSettingsView) -> Step {
    match c.session {
        Some(s) => if s.state == SessionState::Recording {
            Step {
                next: ControllerView {
                    session: Some(SessionView { state: SessionState::Transcribing, ..s }),
                    ..c
                },
                actions: seq![ActionView::CloseAudio] + when(s.muted, ActionView::UnmuteSystemAudio)
                    + when(
                    settings.audio_feedback,
                    ActionView::PlayFeedback(Feedback::Stop, settings.sound_theme),
                )
                    + seq![
                    ActionView::Notify(SessionState::Transcribing),
                    ActionView::Transcribe {
                        session: s.id,
                        language: language_hint_of(settings.selected_language),
                        translate: settings.translate_to_english,
                        custom_words: settings.custom_words,
                    },
                ],
            }
        } else {
            ignored(c)
        },
        None => ignored(c),
    }
}

/// What is to be done about the microphone when a session ends before its
/// recording was stopped.
pub open spec fn released(s: SessionView) -> Seq<ActionView> {
    if s.state == SessionState::Recording {
        seq![ActionView::AbortAudio] + when(s.muted, ActionView::UnmuteSystemAudio)
    } else {
        Seq::empty()
    }
}

/// The session under way is cancelled: the controller lets go of it and
/// is idle. Nothing is typed, whatever the stages had produced. Without a
/// session nothing happens.
pub open spec fn cancelled(c: ControllerView) -> Step {
    match c.session {
        Some(s) => Step {
            next: ControllerView { session: None, cancel_shortcut: false, ..c },
            actions: released(s) + seq![ActionView::Notify(SessionState::Cancelling)] + when(
                c.cancel_shortcut,
                ActionView::UnregisterCancelShortcut,
            ) + seq![ActionView::Notify(SessionState::Idle)],
        },
        None => ignored(c),
    }
}

/// The session under way fails: the one error is reported, the controller
/// lets go of the session and is idle. No later stage is run.
pub open spec fn failed(c: ControllerView, error: ErrorView) -> Step {
    match c.session {
        Some(s) => Step {
            next: ControllerView { session: None, cancel_shortcut: false, ..c },
            actions: released(s) + seq![
                ActionView::Notify(SessionState::Error),
                ActionView::Fail { session: s.id, error },
            ] + when(c.cancel_shortcut, ActionView::UnregisterCancelShortcut)
                + seq![ActionView::Notify(SessionState::Idle)],
        },
        None => ignored(c),
    }
}

/// The text that is typed: the final text, with a space behind it where
/// the configuration asks for one.
pub open spec fn text_to_inject(settings: AppSettingsView, text: Seq<char>) -> Seq<char> {
    if settings.append_trailing_space {
        text + " "@
    } else {
        text
    }
}

/// The session goes on to typing `text`. From here on the cancel shortcut
/// is free for other uses.
pub open spec fn injecting(
    c: ControllerView,
    settings: AppSettingsView,
    transcript: Seq<char>,
    processed: Option<Seq<char>>,
) -> Step {
    match c.session {
        Some(s) => Step {
            next: ControllerView {
                session: Some(
                    SessionView {
                        state: SessionState::Injecting,
                        transcript: Some(transcript),
                        processed,
                        ..s
                    },
                ),
                cancel_shortcut: false,
                ..c
            },
            actions: when(c.cancel_shortcut, ActionView::UnregisterCancelShortcut) + seq![
                ActionView::Notify(SessionState::Injecting),
                ActionView::Inject {
                    session: s.id,
                    text: text_to_inject(
                        settings,
                        match processed {
                            Some(text) => text,
                            None => transcript,
                        },
                    ),
                    paste_method: settings.paste_method,
                    clipboard_handling: settings.clipboard_handling,
                },
            ],
        },
        None => ignored(c),
    }
}

/// The session ends well: the result is reported and the controller is
/// idle.
pub open spec fn delivered(c: ControllerView, transcript: Seq<char>, text: Seq<char>) -> Step {
    match c.session {
        Some(s) => Step {
            next: ControllerView { session: None, cancel_shortcut: false, ..c },
            actions: when(c.cancel_shortcut, ActionView::UnregisterCancelShortcut) + seq![
                ActionView::Deliver { session: s.id, transcript, text },
                ActionView::Notify(SessionState::Idle),
            ],
        },
        None => ignored(c),
    }
}

/// The speech model has answered for the session `id`. A failure ends the
/// session. A blank transcript ends it too, with nothing typed. Otherwise
/// the transcript goes to the language model where rewriting is enabled,
/// which fails the session where no well-formed request can be made, and
/// to typing where it is not.
pub open spec fn transcribed(
    c: ControllerView,
    id: u64,
    outcome: Result<Seq<char>, ErrorView>,
    settings: AppSettingsView,
    platform: Platform,
) -> Step {
    if !c.awaits(id, SessionState::Transcribing) {
        ignored(c)
    } else {
        match outcome {
            Err(error) => failed(c, error),
            Ok(transcript) => if blank(transcript) {
                delivered(c, transcript, Seq::empty())
            } else if settings.post_process_enabled {
                match planned_request(settings, platform, transcript) {
                    Ok(request) => Step {
                        next: ControllerView {
                            session: Some(
                                SessionView {
                                    state: SessionState::PostProcessing,
                                    transcript: Some(transcript),
                                    ..c.session->0
                                },
                            ),
                            ..c
                        },
                        actions: seq![
                            ActionView::Notify(SessionState::PostProcessing),
                            ActionView::PostProcess { session: id, request },
                        ],
                    },
                    Err(error) => failed(c, error),
                }
            } else {
                injecting(c, settings, transcript, None)
            },
        }
    }
}

/// The language model has answered for the session `id`: its text goes
/// to typing, a failure ends the session.
pub open spec fn post_processed(
    c: ControllerView,
    id: u64,
    outcome: Result<Seq<char>, ErrorView>,
    settings: AppSettingsView,
) -> Step {
    if !c.awaits(id, SessionState::PostProcessing) {
        ignored(c)
    } else {
        match outcome {
            Err(error) => failed(c, error),
            Ok(text) => injecting(c, settings, c.session->0.transcript->0, Some(text)),
        }
    }
}

/// The typing for the session `id` is over: the session ends, well or
/// with the failure.
pub open spec fn injected(c: ControllerView, id: u64, outcome: Result<(), ErrorView>) -> Step {
    if !c.awaits(id, SessionState::Injecting) {
        ignored(c)
    } else {
        match outcome {
            Err(error) => failed(c, error),
            Ok(_) => {
                let s = c.session->0;
                delivered(
                    c,
                    s.transcript->0,
                    match s.processed {
                        Some(text) => text,
                        None => s.transcript->0,
                    },
                )
            },
        }
    }
}

/// The microphone of the session `id` has failed while it recorded.
pub open spec fn audio_lost(c: ControllerView, id: u64, message: Seq<char>) -> Step {
    if !c.awaits(id, SessionState::Recording) {
        ignored(c)
    } else {
        failed(c, ErrorView::DeviceUnavailable(message))
    }
}

/// A shortcut was pressed. The cancel binding cancels. The transcribe
/// binding starts a session when the controller is idle. When it is not,
/// the press is dropped in push-to-talk mode, where the key is held while
/// recording, and stops a recording in toggle mode. No other binding
/// concerns the controller.
pub open spec fn pressed(
    c: ControllerView,
    binding: Seq<char>,
    settings: AppSettingsView,
    lid_closed: bool,
    now: u64,
) -> Step {
    if binding == CANCEL_BINDING_ID@ {
        cancelled(c)
    } else if binding == TRANSCRIBE_BINDING_ID@ {
        if c.session is None {
            started(c, settings, lid_closed, now)
        } else if settings.push_to_talk {
            ignored(c)
        } else {
            stopped(c, settings)
        }
    } else {
        ignored(c)
    }
}

/// A shortcut was released: in push-to-talk mode the release of the
/// transcribe binding stops the recording.
pub open spec fn let_go(c: ControllerView, binding: Seq<char>, settings: AppSettingsView) -> Step {
    if binding == TRANSCRIBE_BINDING_ID@ && settings.push_to_talk {
        stopped(c, settings)
    } else {
        ignored(c)
    }
}

/// An event, as the model of the controller takes it.
pub enum EventView {
    /// The user interface asks for a session.
    Start { lid_closed: bool, now: u64 },
    /// The user interface asks to stop the recording.
    Stop,
    /// The user interface asks to cancel.
    Cancel,
    Pressed { binding: Seq<char>, lid_closed: bool, now: u64 },
    Released { binding: Seq<char> },
    AudioLost { session: u64, message: Seq<char> },
    Transcribed { session: u64, outcome: Result<Seq<char>, ErrorView> },
    PostProcessed { session: u64, outcome: Result<Seq<char>, ErrorView> },
    Injected { session: u64, result: Result<(), ErrorView> },
}

/// Whether an event is refused as `Busy`: a request for a session while
/// one is under way.
pub open spec fn refused_busy(c: ControllerView, event: EventView) -> bool {
    event is Start && c.session is Some
}

/// The answer of the controller to an event.
pub open spec fn step(
    c: ControllerView,
    event: EventView,
    settings: AppSettingsView,
    platform: Platform,
) -> Step {
    match event {
        EventView::Start { lid_closed, now } => if c.session is Some {
            ignored(c)
        } else {
            started(c, settings, lid_closed, now)
        },
        EventView::Stop => stopped(c, settings),
        EventView::Cancel => cancelled(c),
        EventView::Pressed { binding, lid_closed, now } => pressed(
            c,
            binding,
            settings,
            lid_closed,
            now,
        ),
        EventView::Released { binding } => let_go(c, binding, settings),
        EventView::AudioLost { session, message } => audio_lost(c, session, message),
        EventView::Transcribed { session, outcome } => transcribed(
            c,
            session,
            outcome,
            settings,
            platform,
        ),
        EventView::PostProcessed { session, outcome } => post_processed(
            c,
            session,
            outcome,
            settings,
        ),
        EventView::Injected { session, result } => injected(c, session, result),
    }
}

/// Whether a list of actions opens the microphone.
pub open spec fn opens_audio(actions: Seq<ActionView>) -> bool {
    exists|i: int| 0 <= i < actions.len() && #[trigger] actions[i] is OpenAudio
}

/// Whether a list of actions types text.
pub open spec fn injects(actions: Seq<ActionView>) -> bool {
    exists|i: int| 0 <= i < actions.len() && #[trigger] actions[i] is Inject
}

/// The two bindings that concern the controller have different ids.
pub proof fn lemma_binding_ids_differ()
    ensures
        TRANSCRIBE_BINDING_ID@ != CANCEL_BINDING_ID@,
{
    reveal_strlit("transcribe");
    reveal_strlit("cancel");
    assert(CANCEL_BINDING_ID@.len() == 6);
}

/// What holds of every answer of the controller: it is well-formed, a
/// session that was under way was not replaced by another, and the
/// microphone was opened only by a controller that was idle, for the
/// session that begins.
pub open spec fn keeps_one_session(c: ControllerView, after: Step) -> bool {
    &&& after.next.wf()
    &&& after.next.live_sessions() <= 1
    &&& c.session is Some && after.next.session is Some ==> after.next.session->0.id
        == c.session->0.id
    &&& opens_audio(after.actions) ==> c.session is None && after.next.state()
        == SessionState::Recording
}

proof fn lemma_no_audio(actions: Seq<ActionView>)
    requires
        forall|i: int| 0 <= i < actions.len() ==> !(#[trigger] actions[i] is OpenAudio),
    ensures
        !opens_audio(actions),
{
}

proof fn lemma_ignored_keeps(c: ControllerView)
    requires
        c.wf(),
    ensures
        keeps_one_session(c, ignored(c)),
{
    lemma_no_audio(ignored(c).actions);
}

proof fn lemma_started_keeps(c: ControllerView, settings: AppSettingsView, lid_closed: bool, now: u64)
    requires
        c.wf(),
        c.session is None,
    ensures
        keeps_one_session(c, started(c, settings, lid_closed, now)),
{
}

proof fn lemma_stopped_keeps(c: ControllerView, settings: AppSettingsView)
    requires
        c.wf(),
    ensures
        keeps_one_session(c, stopped(c, settings)),
{
    lemma_no_audio(stopped(c, settings).actions);
}

proof fn lemma_cancelled_keeps(c: ControllerView)
    requires
        c.wf(),
    ensures
        keeps_one_session(c, cancelled(c)),
        !injects(cancelled(c).actions),
{
    lemma_no_audio(cancelled(c).actions);
}

proof fn lemma_failed_keeps(c: ControllerView, error: ErrorView)
    requires
        c.wf(),
    ensures
        keeps_one_session(c, failed(c, error)),
{
    lemma_no_audio(failed(c, error).actions);
}

proof fn lemma_injecting_keeps(
    c: ControllerView,
    settings: AppSettingsView,
    transcript: Seq<char>,
    processed: Option<Seq<char>>,
)
    requires
        c.wf(),
    ensures
        keeps_one_session(c, injecting(c, settings, transcript, processed)),
{
    lemma_no_audio(injecting(c, settings, transcript, processed).actions);
}

proof fn lemma_delivered_keeps(c: ControllerView, transcript: Seq<char>, text: Seq<char>)
    requires
        c.wf(),
    ensures
        keeps_one_session(c, delivered(c, transcript, text)),
{
    lemma_no_audio(delivered(c, transcript, text).actions);
}

proof fn lemma_transcribed_keeps(
    c: ControllerView,
    id: u64,
    outcome: Result<Seq<char>, ErrorView>,
    settings: AppSettingsView,
    platform: Platform,
)
    requires
        c.wf(),
    ensures
        keeps_one_session(c, transcribed(c, id, outcome, settings, platform)),
{
    let after = transcribed(c, id, outcome, settings, platform);
    if !c.awaits(id, SessionState::Transcribing) {
        lemma_ignored_keeps(c);
    } else {
        match outcome {
            Err(error) => {
                lemma_failed_keeps(c, error);
            },
            Ok(transcript) => {
                if blank(transcript) {
                    lemma_delivered_keeps(c, transcript, Seq::empty());
                } else if settings.post_process_enabled {
                    match planned_request(settings, platform, transcript) {
                        Ok(request) => {
                            lemma_no_audio(after.actions);
                        },
                        Err(error) => {
                            lemma_failed_keeps(c, error);
                        },
                    }
                } else {
                    lemma_injecting_keeps(c, settings, transcript, None);
                }
            },
        }
    }
}

/// At all times at most one session is under way. Whatever the event, a
/// well-formed controller stays well-formed; a session that is under way
/// is never replaced by another; and the microphone is opened only by a
/// controller that was idle, for the session that begins.
pub proof fn law_single_session(
    c: ControllerView,
    event: EventView,
    settings: AppSettingsView,
    platform: Platform,
)
    requires
        c.wf(),
    ensures
        keeps_one_session(c, step(c, event, settings, platform)),
{
    lemma_binding_ids_differ();
    lemma_ignored_keeps(c);
    lemma_cancelled_keeps(c);
    lemma_stopped_keeps(c, settings);
    match event {
        EventView::Start { lid_closed, now } => {
            if c.session is None {
                lemma_started_keeps(c, settings, lid_closed, now);
            }
        },
        EventView::Stop => {},
        EventView::Cancel => {},
        EventView::Pressed { binding, lid_closed, now } => {
            if c.session is None {
                lemma_started_keeps(c, settings, lid_closed, now);
            }
        },
        EventView::Released { binding } => {},
        EventView::AudioLost { session, message } => {
            lemma_failed_keeps(c, ErrorView::DeviceUnavailable(message));
        },
        EventView::Transcribed { session, outcome } => {
            lemma_transcribed_keeps(c, session, outcome, settings, platform);
        },
        EventView::PostProcessed { session, outcome } => {
            if c.awaits(session, SessionState::PostProcessing) {
                match outcome {
                    Err(error) => {
                        lemma_failed_keeps(c, error);
                    },
                    Ok(text) => {
                        lemma_injecting_keeps(
                            c,
                            settings,
                            c.session->0.transcript->0,
                            Some(text),
                        );
                    },
                }
            }
        },
        EventView::Injected { session, result } => {
            if c.awaits(session, SessionState::Injecting) {
                match result {
                    Err(error) => {
                        lemma_failed_keeps(c, error);
                    },
                    Ok(_) => {
                        let s = c.session->0;
                        lemma_delivered_keeps(
                            c,
                            s.transcript->0,
                            match s.processed {
                                Some(text) => text,
                                None => s.transcript->0,
                            },
                        );
                    },
                }
            }
        },
    }
}

/// An event together with the configuration as it is when the event
/// comes in.
pub struct Input {
    pub event: EventView,
    pub settings: AppSettingsView,
}

/// The controller after a series of events, each answered in its turn.
pub open spec fn run(c: ControllerView, inputs: Seq<Input>, platform: Platform) -> ControllerView
    decreases inputs.len(),
{
    if inputs.len() == 0 {
        c
    } else {
        step(
            run(c, inputs.drop_last(), platform),
            inputs.last().event,
            inputs.last().settings,
            platform,
        ).next
    }
}

/// Whatever happens, and however the configuration changes in between, a
/// controller that was well-formed is well-formed after it, and at most
/// one session is under way.
pub proof fn law_single_session_at_all_times(
    c: ControllerView,
    inputs: Seq<Input>,
    platform: Platform,
)
    requires
        c.wf(),
    ensures
        run(c, inputs, platform).wf(),
        run(c, inputs, platform).live_sessions() <= 1,
    decreases inputs.len(),
{
    if inputs.len() > 0 {
        law_single_session_at_all_times(c, inputs.drop_last(), platform);
        law_single_session(
            run(c, inputs.drop_last(), platform),
            inputs.last().event,
            inputs.last().settings,
            platform,
        );
    }
}

/// Cancelling a session, by command or by key, from whatever state it is
/// in, leaves the controller idle and types nothing; and whatever a stage
/// reports afterwards is dropped: nothing changes and nothing is done.
pub proof fn law_cancel(
    c: ControllerView,
    later: EventView,
    settings: AppSettingsView,
    platform: Platform,
    lid_closed: bool,
    now: u64,
)
    requires
        c.wf(),
        c.session is Some,
        later is AudioLost || later is Transcribed || later is PostProcessed || later is Injected,
    ensures
        cancelled(c).next.state() == SessionState::Idle,
        cancelled(c).next.wf(),
        !injects(cancelled(c).actions),
        step(c, EventView::Cancel, settings, platform) == cancelled(c),
        step(
            c,
            EventView::Pressed { binding: CANCEL_BINDING_ID@, lid_closed, now },
            settings,
            platform,
        ) == cancelled(c),
        step(cancelled(c).next, later, settings, platform) == ignored(cancelled(c).next),
{
    lemma_cancelled_keeps(c);
}

/// The session that a stage reports for; none for the events that are
/// not reports of a stage.
pub open spec fn reported_session(event: EventView) -> Option<u64> {
    match event {
        EventView::AudioLost { session, .. } => Some(session),
        EventView::Transcribed { session, .. } => Some(session),
        EventView::PostProcessed { session, .. } => Some(session),
        EventView::Injected { session, .. } => Some(session),
        _ => None,
    }
}

/// What a stage reports for a session that is not the one under way, be
/// it cancelled, ended or replaced by a later one, is dropped: nothing
/// changes and nothing is done.
pub proof fn law_late_reports_are_dropped(
    c: ControllerView,
    report: EventView,
    settings: AppSettingsView,
    platform: Platform,
)
    requires
        reported_session(report) matches Some(id) && !(c.session matches Some(s) && s.id == id),
    ensures
        step(c, report, settings, platform) == ignored(c),
{
}

/// Asking for a session while one is recording changes nothing: the
/// request is refused as busy, and a press of the held push-to-talk key
/// is dropped. No second session comes to be and the recording goes on.
pub proof fn law_start_while_recording(
    c: ControllerView,
    settings: AppSettingsView,
    platform: Platform,
    lid_closed: bool,
    now: u64,
)
    requires
        c.wf(),
        c.state() == SessionState::Recording,
    ensures
        refused_busy(c, EventView::Start { lid_closed, now }),
        step(c, EventView::Start { lid_closed, now }, settings, platform) == ignored(c),
        settings.push_to_talk ==> step(
            c,
            EventView::Pressed { binding: TRANSCRIBE_BINDING_ID@, lid_closed, now },
            settings,
            platform,
        ) == ignored(c),
{
    lemma_binding_ids_differ();
}

/// In toggle mode two presses of the transcribe binding start one session
/// and stop that same session: the second press opens no microphone and
/// uses up no id.
pub proof fn law_toggle(
    c: ControllerView,
    settings: AppSettingsView,
    platform: Platform,
    lid_closed: bool,
    first: u64,
    second: u64,
)
    requires
        c.wf(),
        c.session is None,
        !settings.push_to_talk,
    ensures
        ({
            let one = step(
                c,
                EventView::Pressed { binding: TRANSCRIBE_BINDING_ID@, lid_closed, now: first },
                settings,
                platform,
            );
            let two = step(
                one.next,
                EventView::Pressed { binding: TRANSCRIBE_BINDING_ID@, lid_closed, now: second },
                settings,
                platform,
            );
            &&& one.next.state() == SessionState::Recording
            &&& one.next.session->0.id == c.next_id
            &&& opens_audio(one.actions)
            &&& two.next.state() == SessionState::Transcribing
            &&& two.next.session->0.id == c.next_id
            &&& two.next.next_id == one.next.next_id
            &&& !opens_audio(two.actions)
        }),
{
    lemma_binding_ids_differ();
    let one = step(
        c,
        EventView::Pressed { binding: TRANSCRIBE_BINDING_ID@, lid_closed, now: first },
        settings,
        platform,
    );
    let at = if settings.audio_feedback {
        2
    } else {
        1int
    };
    assert(one.actions[at] is OpenAudio);
}

/// The view of the outcome of a stage that yields text.
pub open spec fn outcome_view(outcome: Result<String, Error>) -> Result<Seq<char>, ErrorView> {
    match outcome {
        Ok(text) => Ok(text@),
        Err(e) => Err(e@),
    }
}

/// The view of the outcome of a stage that yields nothing.
pub open spec fn done_view(outcome: Result<(), Error>) -> Result<(), ErrorView> {
    match outcome {
        Ok(_) => Ok(()),
        Err(e) => Err(e@),
    }
}

fn push_when(actions: &mut Vec<Action>, condition: bool, action: Action)
    ensures
        final(actions).deep_view() == old(actions).deep_view() + when(condition, action@),
{
    if condition {
        actions.push(action);
    }
}

fn push(actions: &mut Vec<Action>, action: Action)
    ensures
        final(actions).deep_view() == old(actions).deep_view() + seq![action@],
{
    actions.push(action);
}

fn no_actions() -> (r: Vec<Action>)
    ensures
        r.deep_view() == Seq::<ActionView>::empty(),
{
    let r: Vec<Action> = Vec::new();
    r
}

/// The microphone for the next session.
pub fn resolve_device(settings: &AppSettings, lid_closed: bool) -> (r: AudioDeviceRef)
    ensures
        r@ == device_for(settings@, lid_closed),
{
    let name = if lid_closed && settings.clamshell_microphone.is_some() {
        clone_optional(&settings.clamshell_microphone)
    } else {
        clone_optional(&settings.selected_microphone)
    };
    AudioDeviceRef { name, always_on: settings.always_on_microphone }
}

impl AudioDeviceRef {
    /// A copy of the snapshot.
    pub fn duplicate(&self) -> (r: AudioDeviceRef)
        ensures
            r@ == self@,
    {
        AudioDeviceRef { name: clone_optional(&self.name), always_on: self.always_on }
    }
}

impl SessionController {
    /// An idle controller.
    pub fn new() -> (r: Self)
        ensures
            r@.wf(),
            r@.session is None,
            r@.next_id == 1,
    {
        SessionController { session: None, next_id: 1, cancel_shortcut: false }
    }

    /// The state of the pipeline.
    pub fn state(&self) -> (r: SessionState)
        ensures
            r == self@.state(),
    {
        match &self.session {
            Some(s) => s.state,
            None => SessionState::Idle,
        }
    }

    /// The session under way.
    pub fn session(&self) -> (r: Option<&Session>)
        ensures
            match r {
                Some(s) => self@.session == Some(s@),
                None => self@.session is None,
            },
    {
        self.session.as_ref()
    }

    /// Whether the session with this id is the one under way. A stage
    /// that works for a session asks this before it starts and before it
    /// hands over: a session that was cancelled, or that ended otherwise,
    /// is not under way, and what was made for it is thrown away.
    pub fn is_live(&self, session: u64) -> (r: bool)
        ensures
            r == (self@.session matches Some(s) && s.id == session),
    {
        match &self.session {
            Some(s) => s.id == session,
            None => false,
        }
    }

    /// Whether the cancel shortcut is registered.
    pub fn cancel_shortcut_registered(&self) -> (r: bool)
        ensures
            r == self@.cancel_shortcut,
    {
        self.cancel_shortcut
    }

    fn begin(&mut self, settings: &AppSettings, lid_closed: bool, now: u64) -> (actions: Vec<Action>)
        requires
            old(self)@.session is None,
        ensures
            final(self)@ == started(old(self)@, settings@, lid_closed, now).next,
            actions.deep_view() == started(old(self)@, settings@, lid_closed, now).actions,
    {
        let device = resolve_device(settings, lid_closed);
        let mut actions = no_actions();
        push(&mut actions, Action::Notify(SessionState::Recording));
        push_when(
            &mut actions,
            settings.audio_feedback,
            Action::PlayFeedback(Feedback::Start, settings.sound_theme),
        );
        push(&mut actions, Action::OpenAudio(device.duplicate()));
        push_when(&mut actions, settings.mute_while_recording, Action::MuteSystemAudio);
        push(&mut actions, Action::RegisterCancelShortcut);
        let id = self.next_id;
        self.session = Some(
            Session {
                id,
                state: SessionState::Recording,
                started_at: now,
                device,
                muted: settings.mute_while_recording,
                transcript: None,
                processed: None,
            },
        );
        self.next_id = if id == u64::MAX {
            0
        } else {
            id + 1
        };
        self.cancel_shortcut = true;
        actions
    }

    /// Starts a session: the microphone that is configured now is opened
    /// and recorded from. While a session is under way the request is
    /// refused as `Busy` and nothing changes.
    pub fn start_session(&mut self, settings: &AppSettings, lid_closed: bool, now: u64) -> (r: Result<
        Vec<Action>,
        Error,
    >)
        requires
            old(self)@.wf(),
        ensures
            final(self)@.wf(),
            match r {
                Ok(actions) => {
                    &&& old(self)@.session is None
                    &&& final(self)@ == started(old(self)@, settings@, lid_closed, now).next
                    &&& actions.deep_view() == started(
                        old(self)@,
                        settings@,
                        lid_closed,
                        now,
                    ).actions
                },
                Err(e) => old(self)@.session is Some && e@ == ErrorView::Busy && final(self)@
                    == old(self)@,
            },
    {
        if self.session.is_some() {
            return Err(Error::Busy);
        }
        Ok(self.begin(settings, lid_closed, now))
    }

    /// Stops the recording and hands what was recorded to the speech
    /// model. Where nothing is recorded, nothing happens.
    pub fn stop_session(&mut self, settings: &AppSettings) -> (actions: Vec<Action>)
        requires
            old(self)@.wf(),
        ensures
            final(self)@.wf(),
            final(self)@ == stopped(old(self)@, settings@).next,
            actions.deep_view() == stopped(old(self)@, settings@).actions,
    {
        let mut actions = no_actions();
        match self.session.take() {
            Some(s) => {
                if s.state == SessionState::Recording {
                    push(&mut actions, Action::CloseAudio);
                    push_when(&mut actions, s.muted, Action::UnmuteSystemAudio);
                    push_when(
                        &mut actions,
                        settings.audio_feedback,
                        Action::PlayFeedback(Feedback::Stop, settings.sound_theme),
                    );
                    push(&mut actions, Action::Notify(SessionState::Transcribing));
                    push(
                        &mut actions,
                        Action::Transcribe {
                            session: s.id,
                            language: language_hint(settings.selected_language.as_str()),
                            translate: settings.translate_to_english,
                            custom_words: clone_strings(&settings.custom_words),
                        },
                    );
                    self.session = Some(
                        Session {
                            id: s.id,
                            state: SessionState::Transcribing,
                            started_at: s.started_at,
                            device: s.device,
                            muted: s.muted,
                            transcript: s.transcript,
                            processed: s.processed,
                        },
                    );
                } else {
                    self.session = Some(s);
                }
            },
            None => {},
        }
        actions
    }

    fn release(actions: &mut Vec<Action>, s: &Session)
        ensures
            final(actions).deep_view() == old(actions).deep_view() + released(s@),
    {
        if s.state == SessionState::Recording {
            push(actions, Action::AbortAudio);
            push_when(actions, s.muted, Action::UnmuteSystemAudio);
        }
    }

    /// Cancels the session under way, in whatever state it is: the
    /// controller is idle afterwards and nothing is typed. Without a
    /// session nothing happens.
    pub fn cancel_session(&mut self) -> (actions: Vec<Action>)
        requires
            old(self)@.wf(),
        ensures
            final(self)@.wf(),
            final(self)@ == cancelled(old(self)@).next,
            actions.deep_view() == cancelled(old(self)@).actions,
    {
        let mut actions = no_actions();
        match self.session.take() {
            Some(s) => {
                Self::release(&mut actions, &s);
                push(&mut actions, Action::Notify(SessionState::Cancelling));
                push_when(&mut actions, self.cancel_shortcut, Action::UnregisterCancelShortcut);
                push(&mut actions, Action::Notify(SessionState::Idle));
                self.cancel_shortcut = false;
            },
            None => {},
        }
        actions
    }

    fn fail(&mut self, error: Error) -> (actions: Vec<Action>)
        requires
            old(self)@.wf(),
        ensures
            final(self)@.wf(),
            final(self)@ == failed(old(self)@, error@).next,
            actions.deep_view() == failed(old(self)@, error@).actions,
    {
        let mut actions = no_actions();
        match self.session.take() {
            Some(s) => {
                Self::release(&mut actions, &s);
                push(&mut actions, Action::Notify(SessionState::Error));
                push(&mut actions, Action::Fail { session: s.id, error });
                push_when(&mut actions, self.cancel_shortcut, Action::UnregisterCancelShortcut);
                push(&mut actions, Action::Notify(SessionState::Idle));
                self.cancel_shortcut = false;
            },
            None => {},
        }
        actions
    }

    fn deliver(&mut self, transcript: String, text: String) -> (actions: Vec<Action>)
        requires
            old(self)@.wf(),
        ensures
            final(self)@.wf(),
            final(self)@ == delivered(old(self)@, transcript@, text@).next,
            actions.deep_view() == delivered(old(self)@, transcript@, text@).actions,
    {
        let mut actions = no_actions();
        match self.session.take() {
            Some(s) => {
                push_when(&mut actions, self.cancel_shortcut, Action::UnregisterCancelShortcut);
                push(&mut actions, Action::Deliver { session: s.id, transcript, text });
                push(&mut actions, Action::Notify(SessionState::Idle));
                self.cancel_shortcut = false;
            },
            None => {},
        }
        actions
    }

    fn inject(&mut self, settings: &AppSettings, transcript: String, processed: Option<String>) -> (actions:
        Vec<Action>)
        requires
            old(self)@.wf(),
        ensures
            final(self)@.wf(),
            final(self)@ == injecting(
                old(self)@,
                settings@,
                transcript@,
                processed.deep_view(),
            ).next,
            actions.deep_view() == injecting(
                old(self)@,
                settings@,
                transcript@,
                processed.deep_view(),
            ).actions,
    {
        let mut actions = no_actions();
        match self.session.take() {
            Some(s) => {
                let text = match &processed {
                    Some(text) => text,
                    None => &transcript,
                };
                let text = if settings.append_trailing_space {
                    join2(text.as_str(), " ")
                } else {
                    text.clone()
                };
                push_when(&mut actions, self.cancel_shortcut, Action::UnregisterCancelShortcut);
                push(&mut actions, Action::Notify(SessionState::Injecting));
                push(
                    &mut actions,
                    Action::Inject {
                        session: s.id,
                        text,
                        paste_method: settings.paste_method,
                        clipboard_handling: settings.clipboard_handling,
                    },
                );
                self.session = Some(
                    Session {
                        id: s.id,
                        state: SessionState::Injecting,
                        started_at: s.started_at,
                        device: s.device,
                        muted: s.muted,
                        transcript: Some(transcript),
                        processed,
                    },
                );
                self.cancel_shortcut = false;
            },
            None => {},
        }
        actions
    }

    fn awaits(&self, id: u64, stage: SessionState) -> (r: bool)
        ensures
            r == self@.awaits(id, stage),
    {
        match &self.session {
            Some(s) => s.id == id && s.state == stage,
            None => false,
        }
    }
}

impl SessionController {
    /// Takes the press of a shortcut. See [`pressed`].
    pub fn shortcut_pressed(
        &mut self,
        binding: &str,
        settings: &AppSettings,
        lid_closed: bool,
        now: u64,
    ) -> (actions: Vec<Action>)
        requires
            old(self)@.wf(),
        ensures
            final(self)@.wf(),
            final(self)@ == pressed(old(self)@, binding@, settings@, lid_closed, now).next,
            actions.deep_view() == pressed(old(self)@, binding@, settings@, lid_closed, now).actions,
    {
        if same(binding, CANCEL_BINDING_ID) {
            self.cancel_session()
        } else if same(binding, TRANSCRIBE_BINDING_ID) {
            if self.session.is_none() {
                self.begin(settings, lid_closed, now)
            } else if settings.push_to_talk {
                no_actions()
            } else {
                self.stop_session(settings)
            }
        } else {
            no_actions()
        }
    }

    /// Takes the release of a shortcut. See [`let_go`].
    pub fn shortcut_released(&mut self, binding: &str, settings: &AppSettings) -> (actions: Vec<
        Action,
    >)
        requires
            old(self)@.wf(),
        ensures
            final(self)@.wf(),
            final(self)@ == let_go(old(self)@, binding@, settings@).next,
            actions.deep_view() == let_go(old(self)@, binding@, settings@).actions,
    {
        if same(binding, TRANSCRIBE_BINDING_ID) && settings.push_to_talk {
            self.stop_session(settings)
        } else {
            no_actions()
        }
    }

    /// Takes the failure of the microphone of the session `session`. See
    /// [`audio_lost`].
    pub fn audio_failed(&mut self, session: u64, message: String) -> (actions: Vec<Action>)
        requires
            old(self)@.wf(),
        ensures
            final(self)@.wf(),
            final(self)@ == audio_lost(old(self)@, session, message@).next,
            actions.deep_view() == audio_lost(old(self)@, session, message@).actions,
    {
        if !self.awaits(session, SessionState::Recording) {
            return no_actions();
        }
        self.fail(Error::DeviceUnavailable(message))
    }

    fn rewrite(&mut self, transcript: String, request: PostProcessRequest) -> (actions: Vec<Action>)
        requires
            old(self)@.wf(),
            old(self)@.session is Some,
            old(self)@.session->0.state == SessionState::Transcribing,
        ensures
            final(self)@.wf(),
            final(self)@ == (ControllerView {
                session: Some(
                    SessionView {
                        state: SessionState::PostProcessing,
                        transcript: Some(transcript@),
                        ..old(self)@.session->0
                    },
                ),
                ..old(self)@
            }),
            actions.deep_view() == seq![
                ActionView::Notify(SessionState::PostProcessing),
                ActionView::PostProcess { session: old(self)@.session->0.id, request: request@ },
            ],
    {
        let mut actions = no_actions();
        match self.session.take() {
            Some(s) => {
                push(&mut actions, Action::Notify(SessionState::PostProcessing));
                push(&mut actions, Action::PostProcess { session: s.id, request });
                self.session = Some(
                    Session {
                        id: s.id,
                        state: SessionState::PostProcessing,
                        started_at: s.started_at,
                        device: s.device,
                        muted: s.muted,
                        transcript: Some(transcript),
                        processed: s.processed,
                    },
                );
            },
            None => {},
        }
        actions
    }

    /// Takes the answer of the speech model for the session `session`:
    /// the transcript, or the failure to load the model or to transcribe.
    /// See [`transcribed`].
    pub fn transcription_finished(
        &mut self,
        session: u64,
        outcome: Result<String, Error>,
        settings: &AppSettings,
        platform: Platform,
    ) -> (actions: Vec<Action>)
        requires
            old(self)@.wf(),
        ensures
            final(self)@.wf(),
            final(self)@ == transcribed(
                old(self)@,
                session,
                outcome_view(outcome),
                settings@,
                platform,
            ).next,
            actions.deep_view() == transcribed(
                old(self)@,
                session,
                outcome_view(outcome),
                settings@,
                platform,
            ).actions,
    {
        if !self.awaits(session, SessionState::Transcribing) {
            return no_actions();
        }
        let transcript = match outcome {
            Ok(text) => text,
            Err(error) => {
                return self.fail(error);
            },
        };
        if is_blank(transcript.as_str()) {
            let nothing = String::new();
            return self.deliver(transcript, nothing);
        }
        if !settings.post_process_enabled {
            return self.inject(settings, transcript, None);
        }
        match post_process_request(settings, platform, transcript.as_str()) {
            Ok(request) => self.rewrite(transcript, request),
            Err(error) => self.fail(error),
        }
    }

    /// Takes the outcome of the rewriting for the session `session`: the
    /// text that [`crate::postprocess::finish_post_process`] made of the
    /// provider's reply, or the error. See [`post_processed`].
    pub fn post_process_finished(
        &mut self,
        session: u64,
        outcome: Result<String, Error>,
        settings: &AppSettings,
    ) -> (actions: Vec<Action>)
        requires
            old(self)@.wf(),
        ensures
            final(self)@.wf(),
            final(self)@ == post_processed(
                old(self)@,
                session,
                outcome_view(outcome),
                settings@,
            ).next,
            actions.deep_view() == post_processed(
                old(self)@,
                session,
                outcome_view(outcome),
                settings@,
            ).actions,
    {
        if !self.awaits(session, SessionState::PostProcessing) {
            return no_actions();
        }
        let text = match outcome {
            Ok(text) => text,
            Err(error) => {
                return self.fail(error);
            },
        };
        let transcript = match &self.session {
            Some(s) => match &s.transcript {
                Some(t) => t.clone(),
                None => String::new(),
            },
            None => String::new(),
        };
        self.inject(settings, transcript, Some(text))
    }

    /// Takes the outcome of the typing for the session `session`. See
    /// [`injected`].
    pub fn injection_finished(&mut self, session: u64, outcome: Result<(), Error>) -> (actions: Vec<
        Action,
    >)
        requires
            old(self)@.wf(),
        ensures
            final(self)@.wf(),
            final(self)@ == injected(old(self)@, session, done_view(outcome)).next,
            actions.deep_view() == injected(old(self)@, session, done_view(outcome)).actions,
    {
        if !self.awaits(session, SessionState::Injecting) {
            return no_actions();
        }
        match outcome {
            Err(error) => self.fail(error),
            Ok(_) => {
                let (transcript, text) = match &self.session {
                    Some(s) => {
                        let transcript = match &s.transcript {
                            Some(t) => t.clone(),
                            None => String::new(),
                        };
                        let text = match &s.processed {
                            Some(t) => t.clone(),
                            None => transcript.clone(),
                        };
                        (transcript, text)
                    },
                    None => (String::new(), String::new()),
                };
                self.deliver(transcript, text)
            },
        }
    }
}

/// Cancels the session under way, if there is one: the command of the
/// user interface.
pub fn cancel_operation(controller: &mut SessionController) -> (actions: Vec<Action>)
    requires
        old(controller)@.wf(),
    ensures
        final(controller)@.wf(),
        final(controller)@ == cancelled(old(controller)@).next,
        actions.deep_view() == cancelled(old(controller)@).actions,
{
    controller.cancel_session()
}

/// An event for the controller. All events come in through
/// [`SessionController::handle`], one after the other.
#[derive(Debug, PartialEq, Eq)]
pub enum Event {
    /// The user interface asks for a session.
    Start { lid_closed: bool, now: u64 },
    /// The user interface asks to stop the recording.
    Stop,
    /// The user interface asks to cancel.
    Cancel,
    /// The shortcut with this binding id was pressed.
    Pressed { binding: String, lid_closed: bool, now: u64 },
    /// The shortcut with this binding id was released.
    Released { binding: String },
    /// The microphone failed while the session recorded.
    AudioLost { session: u64, message: String },
    /// The speech model has answered.
    Transcribed { session: u64, outcome: Result<String, Error> },
    /// The language model has answered.
    PostProcessed { session: u64, outcome: Result<String, Error> },
    /// The typing is over.
    Injected { session: u64, result: Result<(), Error> },
}

impl View for Event {
    type V = EventView;

    open spec fn view(&self) -> EventView {
        match self {
            Event::Start { lid_closed, now } => EventView::Start {
                lid_closed: *lid_closed,
                now: *now,
            },
            Event::Stop => EventView::Stop,
            Event::Cancel => EventView::Cancel,
            Event::Pressed { binding, lid_closed, now } => EventView::Pressed {
                binding: binding@,
                lid_closed: *lid_closed,
                now: *now,
            },
            Event::Released { binding } => EventView::Released { binding: binding@ },
            Event::AudioLost { session, message } => EventView::AudioLost {
                session: *session,
                message: message@,
            },
            Event::Transcribed { session, outcome } => EventView::Transcribed {
                session: *session,
                outcome: outcome_view(*outcome),
            },
            Event::PostProcessed { session, outcome } => EventView::PostProcessed {
                session: *session,
                outcome: outcome_view(*outcome),
            },
            Event::Injected { session, result } => EventView::Injected {
                session: *session,
                result: done_view(*result),
            },
        }
    }
}

impl SessionController {
    /// Answers an event with the things to do. The one event that is
    /// refused is a request for a session while one is under way: it is
    /// answered with `Busy`. See [`step`].
    pub fn handle(&mut self, event: Event, settings: &AppSettings, platform: Platform) -> (r: Result<
        Vec<Action>,
        Error,
    >)
        requires
            old(self)@.wf(),
        ensures
            final(self)@.wf(),
            final(self)@ == step(old(self)@, event@, settings@, platform).next,
            match r {
                Ok(actions) => !refused_busy(old(self)@, event@) && actions.deep_view() == step(
                    old(self)@,
                    event@,
                    settings@,
                    platform,
                ).actions,
                Err(e) => refused_busy(old(self)@, event@) && e@ == ErrorView::Busy,
            },
    {
        match event {
            Event::Start { lid_closed, now } => self.start_session(settings, lid_closed, now),
            Event::Stop => Ok(self.stop_session(settings)),
            Event::Cancel => Ok(self.cancel_session()),
            Event::Pressed { binding, lid_closed, now } => Ok(
                self.shortcut_pressed(binding.as_str(), settings, lid_closed, now),
            ),
            Event::Released { binding } => Ok(self.shortcut_released(binding.as_str(), settings)),
            Event::AudioLost { session, message } => Ok(self.audio_failed(session, message)),
            Event::Transcribed { session, outcome } => Ok(
                self.transcription_finished(session, outcome, settings, platform),
            ),
            Event::PostProcessed { session, outcome } => Ok(
                self.post_process_finished(session, outcome, settings),
            ),
            Event::Injected { session, result } => Ok(self.injection_finished(session, result)),
        }
    }
}

} // verus!
