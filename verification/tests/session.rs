use handy::defaults::get_default_settings;
use handy::error::{Error, Misconfiguration};
use handy::options::{ClipboardHandling, OperatingSystem, PasteMethod, Platform, SoundTheme};
use handy::postprocess::ProviderCall;
use handy::session::{
    cancel_operation, resolve_device, Action, AudioDeviceRef, Event, Feedback, SessionController,
    SessionState,
};
use handy::settings::{AppSettings, LLMPrompt};
use handy::shortcut::{
    change_binding, init_shortcuts, register_cancel_shortcut, unregister_cancel_shortcut,
    ShortcutRouter,
};

fn linux() -> Platform {
    Platform { os: OperatingSystem::Linux, arm64: false }
}

fn settings() -> AppSettings {
    get_default_settings(linux(), None)
}

fn rewriting() -> AppSettings {
    let mut settings = settings();
    settings.post_process_enabled = true;
    settings.post_process_models.insert("openai".to_string(), "gpt".to_string());
    settings.post_process_prompts.push(LLMPrompt {
        id: "p".to_string(),
        name: "P".to_string(),
        prompt: "Fix ${output}".to_string(),
    });
    settings.post_process_selected_prompt_id = Some("p".to_string());
    settings
}

fn default_device() -> AudioDeviceRef {
    AudioDeviceRef { name: None, always_on: false }
}

fn injects(actions: &Vec<Action>) -> bool {
    actions.iter().any(|a| matches!(a, Action::Inject { .. }))
}

fn opens(actions: &Vec<Action>) -> usize {
    actions.iter().filter(|a| matches!(a, Action::OpenAudio(_))).count()
}

fn recording(controller: &mut SessionController, settings: &AppSettings) -> u64 {
    controller.start_session(settings, false, 1_000).unwrap();
    controller.session().unwrap().id
}

fn transcribing(controller: &mut SessionController, settings: &AppSettings) -> u64 {
    let id = recording(controller, settings);
    controller.stop_session(settings);
    id
}

fn post_processing(controller: &mut SessionController, settings: &AppSettings) -> u64 {
    let id = transcribing(controller, settings);
    controller.transcription_finished(id, Ok("helo".to_string()), settings, linux());
    assert_eq!(controller.state(), SessionState::PostProcessing);
    id
}

fn injecting(controller: &mut SessionController, settings: &AppSettings) -> u64 {
    let id = transcribing(controller, settings);
    controller.transcription_finished(id, Ok("hello".to_string()), settings, linux());
    assert_eq!(controller.state(), SessionState::Injecting);
    id
}

#[test]
fn a_new_controller_is_idle() {
    let controller = SessionController::new();
    assert_eq!(controller.state(), SessionState::Idle);
    assert!(controller.session().is_none());
    assert!(!controller.cancel_shortcut_registered());
}

#[test]
fn start_opens_the_microphone() {
    let settings = settings();
    let mut controller = SessionController::new();
    let actions = controller.start_session(&settings, false, 42).unwrap();
    assert_eq!(
        actions,
        vec![
            Action::Notify(SessionState::Recording),
            Action::OpenAudio(default_device()),
            Action::RegisterCancelShortcut,
        ]
    );
    assert_eq!(controller.state(), SessionState::Recording);
    let session = controller.session().unwrap();
    assert_eq!(session.id, 1);
    assert_eq!(session.started_at, 42);
    assert_eq!(session.transcript, None);
    assert_eq!(session.processed, None);
    assert!(controller.cancel_shortcut_registered());
}

#[test]
fn start_with_feedback_and_muting() {
    let mut settings = settings();
    settings.audio_feedback = true;
    settings.sound_theme = SoundTheme::Pop;
    settings.mute_while_recording = true;
    settings.selected_microphone = Some("USB".to_string());
    settings.always_on_microphone = true;
    let mut controller = SessionController::new();
    let actions = controller.start_session(&settings, false, 0).unwrap();
    assert_eq!(
        actions,
        vec![
            Action::Notify(SessionState::Recording),
            Action::PlayFeedback(Feedback::Start, SoundTheme::Pop),
            Action::OpenAudio(AudioDeviceRef { name: Some("USB".to_string()), always_on: true }),
            Action::MuteSystemAudio,
            Action::RegisterCancelShortcut,
        ]
    );
    assert!(controller.session().unwrap().muted);
}

#[test]
fn start_while_busy_is_refused() {
    let settings = settings();
    let mut controller = SessionController::new();
    let id = recording(&mut controller, &settings);
    assert_eq!(controller.start_session(&settings, false, 2_000), Err(Error::Busy));
    assert_eq!(controller.state(), SessionState::Recording);
    assert_eq!(controller.session().unwrap().id, id);
    assert_eq!(controller.session().unwrap().started_at, 1_000);
    controller.stop_session(&settings);
    assert_eq!(controller.start_session(&settings, false, 3_000), Err(Error::Busy));
    assert_eq!(controller.state(), SessionState::Transcribing);
    assert_eq!(Error::Busy.message(), "A dictation session is already active.");
}

#[test]
fn device_for_a_closed_lid() {
    let mut settings = settings();
    settings.selected_microphone = Some("Built-in".to_string());
    assert_eq!(resolve_device(&settings, true).name, Some("Built-in".to_string()));
    settings.clamshell_microphone = Some("Dock".to_string());
    assert_eq!(resolve_device(&settings, true).name, Some("Dock".to_string()));
    assert_eq!(resolve_device(&settings, false).name, Some("Built-in".to_string()));
}

#[test]
fn device_is_fixed_when_the_session_starts() {
    let mut settings = settings();
    settings.selected_microphone = Some("A".to_string());
    let mut controller = SessionController::new();
    controller.start_session(&settings, false, 0).unwrap();
    settings.selected_microphone = Some("B".to_string());
    controller.stop_session(&settings);
    assert_eq!(controller.session().unwrap().device.name, Some("A".to_string()));
}

#[test]
fn stop_hands_over_to_the_speech_model() {
    let mut settings = settings();
    settings.selected_language = "fr".to_string();
    settings.translate_to_english = true;
    settings.custom_words = vec!["Kubernetes".to_string()];
    let mut controller = SessionController::new();
    let id = recording(&mut controller, &settings);
    let actions = controller.stop_session(&settings);
    assert_eq!(
        actions,
        vec![
            Action::CloseAudio,
            Action::Notify(SessionState::Transcribing),
            Action::Transcribe {
                session: id,
                language: Some("fr".to_string()),
                translate: true,
                custom_words: vec!["Kubernetes".to_string()],
            },
        ]
    );
    assert_eq!(controller.state(), SessionState::Transcribing);
    assert!(controller.cancel_shortcut_registered());
}

#[test]
fn stop_unmutes_and_plays_the_stop_sound() {
    let mut settings = settings();
    settings.audio_feedback = true;
    settings.mute_while_recording = true;
    let mut controller = SessionController::new();
    recording(&mut controller, &settings);
    let actions = controller.stop_session(&settings);
    assert_eq!(actions[0], Action::CloseAudio);
    assert_eq!(actions[1], Action::UnmuteSystemAudio);
    assert_eq!(actions[2], Action::PlayFeedback(Feedback::Stop, SoundTheme::Marimba));
    assert_eq!(actions[3], Action::Notify(SessionState::Transcribing));
}

#[test]
fn the_language_is_detected_where_none_is_set() {
    let settings = settings();
    assert_eq!(settings.selected_language, "auto");
    let mut controller = SessionController::new();
    let id = recording(&mut controller, &settings);
    let actions = controller.stop_session(&settings);
    assert_eq!(
        actions[2],
        Action::Transcribe {
            session: id,
            language: None,
            translate: false,
            custom_words: vec![],
        }
    );
}

#[test]
fn stop_without_recording_does_nothing() {
    let settings = settings();
    let mut controller = SessionController::new();
    assert!(controller.stop_session(&settings).is_empty());
    assert_eq!(controller.state(), SessionState::Idle);
    transcribing(&mut controller, &settings);
    assert!(controller.stop_session(&settings).is_empty());
    assert_eq!(controller.state(), SessionState::Transcribing);
}

#[test]
fn the_pipeline_without_rewriting() {
    let settings = settings();
    let mut controller = SessionController::new();
    let id = transcribing(&mut controller, &settings);
    let actions = controller.transcription_finished(id, Ok("hello".to_string()), &settings, linux());
    assert_eq!(
        actions,
        vec![
            Action::UnregisterCancelShortcut,
            Action::Notify(SessionState::Injecting),
            Action::Inject {
                session: id,
                text: "hello".to_string(),
                paste_method: PasteMethod::CtrlV,
                clipboard_handling: ClipboardHandling::DontModify,
            },
        ]
    );
    assert_eq!(controller.state(), SessionState::Injecting);
    assert!(!controller.cancel_shortcut_registered());
    let actions = controller.injection_finished(id, Ok(()));
    assert_eq!(
        actions,
        vec![
            Action::Deliver {
                session: id,
                transcript: "hello".to_string(),
                text: "hello".to_string(),
            },
            Action::Notify(SessionState::Idle),
        ]
    );
    assert_eq!(controller.state(), SessionState::Idle);
    assert!(controller.session().is_none());
}

#[test]
fn the_pipeline_with_rewriting() {
    let mut settings = rewriting();
    settings.append_trailing_space = true;
    settings.paste_method = PasteMethod::Direct;
    let mut controller = SessionController::new();
    let id = transcribing(&mut controller, &settings);
    let actions = controller.transcription_finished(id, Ok("helo".to_string()), &settings, linux());
    assert_eq!(actions.len(), 2);
    assert_eq!(actions[0], Action::Notify(SessionState::PostProcessing));
    match &actions[1] {
        Action::PostProcess { session, request } => {
            assert_eq!(*session, id);
            assert_eq!(request.prompt, "Fix helo");
            assert_eq!(request.model, "gpt");
            assert_eq!(request.call, ProviderCall::Chat { api_key: String::new() });
        },
        other => panic!("unexpected action {:?}", other),
    }
    assert_eq!(controller.state(), SessionState::PostProcessing);
    assert!(controller.cancel_shortcut_registered());
    assert_eq!(controller.session().unwrap().transcript, Some("helo".to_string()));
    let actions = controller.post_process_finished(id, Ok("Hello".to_string()), &settings);
    assert_eq!(
        actions,
        vec![
            Action::UnregisterCancelShortcut,
            Action::Notify(SessionState::Injecting),
            Action::Inject {
                session: id,
                text: "Hello ".to_string(),
                paste_method: PasteMethod::Direct,
                clipboard_handling: ClipboardHandling::DontModify,
            },
        ]
    );
    assert_eq!(controller.session().unwrap().processed, Some("Hello".to_string()));
    let actions = controller.injection_finished(id, Ok(()));
    assert_eq!(
        actions,
        vec![
            Action::Deliver {
                session: id,
                transcript: "helo".to_string(),
                text: "Hello".to_string(),
            },
            Action::Notify(SessionState::Idle),
        ]
    );
    assert_eq!(controller.state(), SessionState::Idle);
}

#[test]
fn a_blank_transcript_is_not_typed() {
    let settings = rewriting();
    let mut controller = SessionController::new();
    let id = transcribing(&mut controller, &settings);
    let actions = controller.transcription_finished(id, Ok("  \n".to_string()), &settings, linux());
    assert_eq!(
        actions,
        vec![
            Action::UnregisterCancelShortcut,
            Action::Deliver { session: id, transcript: "  \n".to_string(), text: String::new() },
            Action::Notify(SessionState::Idle),
        ]
    );
    assert_eq!(controller.state(), SessionState::Idle);
}

#[test]
fn a_malformed_request_is_not_sent() {
    let mut settings = rewriting();
    settings.post_process_models.insert("openai".to_string(), String::new());
    let mut controller = SessionController::new();
    let id = transcribing(&mut controller, &settings);
    let actions = controller.transcription_finished(id, Ok("helo".to_string()), &settings, linux());
    assert_eq!(
        actions,
        vec![
            Action::Notify(SessionState::Error),
            Action::Fail {
                session: id,
                error: Error::PostProcessMisconfigured(Misconfiguration::NoModel(
                    "OpenAI".to_string()
                )),
            },
            Action::UnregisterCancelShortcut,
            Action::Notify(SessionState::Idle),
        ]
    );
    assert_eq!(controller.state(), SessionState::Idle);
}

#[test]
fn failures_end_the_session() {
    let settings = rewriting();

    let mut controller = SessionController::new();
    let id = recording(&mut controller, &settings);
    let actions = controller.audio_failed(id, "unplugged".to_string());
    assert_eq!(
        actions,
        vec![
            Action::AbortAudio,
            Action::Notify(SessionState::Error),
            Action::Fail { session: id, error: Error::DeviceUnavailable("unplugged".to_string()) },
            Action::UnregisterCancelShortcut,
            Action::Notify(SessionState::Idle),
        ]
    );
    assert_eq!(controller.state(), SessionState::Idle);

    let id = transcribing(&mut controller, &settings);
    let error = Error::ModelLoadFailed("no file".to_string());
    let actions = controller.transcription_finished(id, Err(error), &settings, linux());
    assert!(actions.contains(&Action::Fail {
        session: id,
        error: Error::ModelLoadFailed("no file".to_string()),
    }));
    assert!(!injects(&actions));
    assert_eq!(controller.state(), SessionState::Idle);

    let id = post_processing(&mut controller, &settings);
    let actions = controller.post_process_finished(id, Err(Error::EmptyResponse), &settings);
    assert!(actions.contains(&Action::Fail { session: id, error: Error::EmptyResponse }));
    assert!(!injects(&actions));
    assert_eq!(controller.state(), SessionState::Idle);

    let id = injecting(&mut controller, &settings_without_rewriting());
    let error = Error::InjectionFailed("window gone".to_string());
    let actions = controller.injection_finished(id, Err(error));
    assert_eq!(
        actions,
        vec![
            Action::Notify(SessionState::Error),
            Action::Fail { session: id, error: Error::InjectionFailed("window gone".to_string()) },
            Action::Notify(SessionState::Idle),
        ]
    );
    assert_eq!(controller.state(), SessionState::Idle);
}

fn settings_without_rewriting() -> AppSettings {
    settings()
}

#[test]
fn cancel_while_recording() {
    let mut settings = settings();
    settings.mute_while_recording = true;
    let mut controller = SessionController::new();
    recording(&mut controller, &settings);
    let actions = controller.cancel_session();
    assert_eq!(
        actions,
        vec![
            Action::AbortAudio,
            Action::UnmuteSystemAudio,
            Action::Notify(SessionState::Cancelling),
            Action::UnregisterCancelShortcut,
            Action::Notify(SessionState::Idle),
        ]
    );
    assert_eq!(controller.state(), SessionState::Idle);
    assert!(!controller.cancel_shortcut_registered());
}

#[test]
fn cancel_from_every_state_types_nothing() {
    let plain = settings();
    let rewriting = rewriting();

    let mut controller = SessionController::new();
    recording(&mut controller, &plain);
    let actions = controller.cancel_session();
    assert!(!injects(&actions));
    assert_eq!(controller.state(), SessionState::Idle);

    transcribing(&mut controller, &plain);
    let actions = controller.cancel_session();
    assert_eq!(
        actions,
        vec![
            Action::Notify(SessionState::Cancelling),
            Action::UnregisterCancelShortcut,
            Action::Notify(SessionState::Idle),
        ]
    );
    assert_eq!(controller.state(), SessionState::Idle);

    post_processing(&mut controller, &rewriting);
    let actions = cancel_operation(&mut controller);
    assert!(!injects(&actions));
    assert_eq!(controller.state(), SessionState::Idle);

    injecting(&mut controller, &plain);
    let actions = controller.cancel_session();
    assert_eq!(
        actions,
        vec![Action::Notify(SessionState::Cancelling), Action::Notify(SessionState::Idle)]
    );
    assert_eq!(controller.state(), SessionState::Idle);
}

#[test]
fn cancel_without_session_does_nothing() {
    let mut controller = SessionController::new();
    assert!(controller.cancel_session().is_empty());
    assert!(cancel_operation(&mut controller).is_empty());
    assert_eq!(controller.state(), SessionState::Idle);
}

#[test]
fn results_that_arrive_after_a_cancel_are_dropped() {
    let settings = rewriting();
    let mut controller = SessionController::new();
    let id = transcribing(&mut controller, &settings);
    controller.cancel_session();
    assert!(controller
        .transcription_finished(id, Ok("late".to_string()), &settings, linux())
        .is_empty());
    assert!(controller.post_process_finished(id, Ok("late".to_string()), &settings).is_empty());
    assert!(controller.injection_finished(id, Ok(())).is_empty());
    assert!(controller.audio_failed(id, "late".to_string()).is_empty());
    assert_eq!(controller.state(), SessionState::Idle);
}

#[test]
fn results_for_an_earlier_session_do_not_touch_the_next() {
    let settings = settings();
    let mut controller = SessionController::new();
    let first = transcribing(&mut controller, &settings);
    controller.cancel_session();
    let second = transcribing(&mut controller, &settings);
    assert_ne!(first, second);
    assert!(controller
        .transcription_finished(first, Ok("late".to_string()), &settings, linux())
        .is_empty());
    assert_eq!(controller.state(), SessionState::Transcribing);
    assert_eq!(controller.session().unwrap().id, second);
}

#[test]
fn results_for_another_stage_are_dropped() {
    let settings = settings();
    let mut controller = SessionController::new();
    let id = recording(&mut controller, &settings);
    assert!(controller
        .transcription_finished(id, Ok("early".to_string()), &settings, linux())
        .is_empty());
    assert!(controller.injection_finished(id, Ok(())).is_empty());
    assert_eq!(controller.state(), SessionState::Recording);
}

#[test]
fn push_to_talk_press_and_release() {
    let settings = settings();
    assert!(settings.push_to_talk);
    let mut controller = SessionController::new();
    let actions = controller.shortcut_pressed("transcribe", &settings, false, 7);
    assert_eq!(opens(&actions), 1);
    assert_eq!(controller.state(), SessionState::Recording);
    let actions = controller.shortcut_released("transcribe", &settings);
    assert_eq!(actions[0], Action::CloseAudio);
    assert_eq!(controller.state(), SessionState::Transcribing);
}

#[test]
fn holding_the_push_to_talk_key_starts_one_session() {
    let settings = settings();
    let mut controller = SessionController::new();
    controller.shortcut_pressed("transcribe", &settings, false, 7);
    let id = controller.session().unwrap().id;
    for now in 8..20 {
        let actions = controller.shortcut_pressed("transcribe", &settings, false, now);
        assert!(actions.is_empty());
    }
    assert_eq!(controller.state(), SessionState::Recording);
    assert_eq!(controller.session().unwrap().id, id);
    assert_eq!(controller.session().unwrap().started_at, 7);
}

#[test]
fn toggle_press_twice() {
    let mut settings = settings();
    settings.push_to_talk = false;
    let mut controller = SessionController::new();
    let first = controller.shortcut_pressed("transcribe", &settings, false, 1);
    assert_eq!(opens(&first), 1);
    assert_eq!(controller.state(), SessionState::Recording);
    let id = controller.session().unwrap().id;
    assert!(controller.shortcut_released("transcribe", &settings).is_empty());
    assert_eq!(controller.state(), SessionState::Recording);
    let second = controller.shortcut_pressed("transcribe", &settings, false, 2);
    assert_eq!(opens(&second), 0);
    assert_eq!(second[0], Action::CloseAudio);
    assert_eq!(controller.state(), SessionState::Transcribing);
    assert_eq!(controller.session().unwrap().id, id);
    let third = controller.shortcut_pressed("transcribe", &settings, false, 3);
    assert!(third.is_empty());
    assert_eq!(controller.state(), SessionState::Transcribing);
}

#[test]
fn the_cancel_key_cancels() {
    let settings = settings();
    let mut controller = SessionController::new();
    transcribing(&mut controller, &settings);
    let actions = controller.shortcut_pressed("cancel", &settings, false, 9);
    assert_eq!(actions[0], Action::Notify(SessionState::Cancelling));
    assert_eq!(controller.state(), SessionState::Idle);
    assert!(controller.shortcut_pressed("cancel", &settings, false, 10).is_empty());
}

#[test]
fn other_keys_are_none_of_the_controllers_business() {
    let settings = settings();
    let mut controller = SessionController::new();
    assert!(controller.shortcut_pressed("something", &settings, false, 1).is_empty());
    assert!(controller.shortcut_released("cancel", &settings).is_empty());
    assert_eq!(controller.state(), SessionState::Idle);
}

#[test]
fn stages_can_ask_whether_their_session_is_live() {
    let settings = settings();
    let mut controller = SessionController::new();
    assert!(!controller.is_live(1));
    let id = transcribing(&mut controller, &settings);
    assert!(controller.is_live(id));
    assert!(!controller.is_live(id + 1));
    controller.cancel_session();
    assert!(!controller.is_live(id));
}

#[test]
fn a_registered_combination_starts_a_recording() {
    let mut settings = settings();
    let mut router = ShortcutRouter::new();
    init_shortcuts(&settings, &mut router).unwrap();
    let response =
        change_binding(&mut settings, &mut router, "transcribe", "ctrl+alt+d".to_string())
            .unwrap();
    assert!(response.success);
    assert_eq!(router.registered_chord("transcribe"), Some(&"ctrl+alt+d".to_string()));
    let mut controller = SessionController::new();
    assert_eq!(controller.state(), SessionState::Idle);
    let actions = controller.shortcut_pressed("transcribe", &settings, false, 100);
    assert_eq!(controller.state(), SessionState::Recording);
    assert!(actions.contains(&Action::RegisterCancelShortcut));
    register_cancel_shortcut(&settings, &mut router).unwrap();
    assert_eq!(router.registered_chord("cancel"), Some(&"escape".to_string()));
}

#[test]
fn the_cancel_binding_changes_while_a_session_records() {
    let mut settings = settings();
    let mut router = ShortcutRouter::new();
    init_shortcuts(&settings, &mut router).unwrap();
    let mut controller = SessionController::new();
    controller.start_session(&settings, false, 0).unwrap();
    register_cancel_shortcut(&settings, &mut router).unwrap();
    let live = router.clone();
    let response =
        change_binding(&mut settings, &mut router, "cancel", "escape".to_string()).unwrap();
    assert!(response.success);
    assert_eq!(response.binding.unwrap().current_binding, "escape");
    assert_eq!(settings.bindings.get("cancel").unwrap().current_binding, "escape");
    assert_eq!(router, live);
    assert_eq!(controller.state(), SessionState::Recording);
    assert!(controller.cancel_shortcut_registered());
    let actions = controller.cancel_session();
    assert!(actions.contains(&Action::UnregisterCancelShortcut));
    unregister_cancel_shortcut(&settings, &mut router);
    assert!(!router.is_registered("cancel"));
}

#[test]
fn ids_count_up() {
    let settings = settings();
    let mut controller = SessionController::new();
    let first = recording(&mut controller, &settings);
    controller.cancel_session();
    let second = recording(&mut controller, &settings);
    controller.cancel_session();
    let third = recording(&mut controller, &settings);
    assert_eq!((first, second, third), (1, 2, 3));
}

#[test]
fn events_go_through_one_door() {
    let settings = settings();
    let mut controller = SessionController::new();
    let started = controller
        .handle(Event::Start { lid_closed: false, now: 5 }, &settings, linux())
        .unwrap();
    assert_eq!(opens(&started), 1);
    assert_eq!(
        controller.handle(Event::Start { lid_closed: false, now: 6 }, &settings, linux()),
        Err(Error::Busy)
    );
    let id = controller.session().unwrap().id;
    controller.handle(Event::Stop, &settings, linux()).unwrap();
    assert_eq!(controller.state(), SessionState::Transcribing);
    controller
        .handle(
            Event::Transcribed { session: id, outcome: Ok("hi".to_string()) },
            &settings,
            linux(),
        )
        .unwrap();
    assert_eq!(controller.state(), SessionState::Injecting);
    controller.handle(Event::Injected { session: id, result: Ok(()) }, &settings, linux()).unwrap();
    assert_eq!(controller.state(), SessionState::Idle);
    controller
        .handle(
            Event::Pressed { binding: "transcribe".to_string(), lid_closed: false, now: 9 },
            &settings,
            linux(),
        )
        .unwrap();
    assert_eq!(controller.state(), SessionState::Recording);
    controller
        .handle(Event::Released { binding: "transcribe".to_string() }, &settings, linux())
        .unwrap();
    assert_eq!(controller.state(), SessionState::Transcribing);
    let cancelled = controller.handle(Event::Cancel, &settings, linux()).unwrap();
    assert!(!injects(&cancelled));
    assert_eq!(controller.state(), SessionState::Idle);
    let id = recording(&mut controller, &settings);
    controller
        .handle(Event::AudioLost { session: id, message: "gone".to_string() }, &settings, linux())
        .unwrap();
    assert_eq!(controller.state(), SessionState::Idle);
    let dropped = controller
        .handle(
            Event::PostProcessed { session: id, outcome: Ok("late".to_string()) },
            &settings,
            linux(),
        )
        .unwrap();
    assert!(dropped.is_empty());
}
