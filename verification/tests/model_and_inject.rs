use handy::error::Error;
use handy::inject::{
    initialization_finished, initialize_enigo, inject, Initialization, InjectStep, InputSystem,
    INPUT_NOT_READY,
};
use handy::model::{language_hint, Acquire, ModelHandle, ModelState};
use handy::options::{ClipboardHandling, ModelUnloadTimeout, PasteMethod};

fn loaded(timeout: ModelUnloadTimeout, at: u64) -> ModelHandle {
    let mut handle = ModelHandle::new(timeout);
    assert_eq!(handle.acquire(at), Acquire::Load);
    handle.load_finished(true, at);
    handle.release(at);
    handle
}

#[test]
fn a_new_model_is_not_loaded() {
    let handle = ModelHandle::new(ModelUnloadTimeout::Min5);
    assert_eq!(handle.state(), ModelState::Unloaded);
    assert_eq!(handle.users(), 0);
    assert_eq!(handle.last_used(), 0);
    assert_eq!(handle.timeout(), ModelUnloadTimeout::Min5);
    assert!(!handle.should_evict(1_000_000));
}

#[test]
fn the_first_caller_loads_the_others_wait() {
    let mut handle = ModelHandle::new(ModelUnloadTimeout::Never);
    assert_eq!(handle.acquire(10), Acquire::Load);
    assert_eq!(handle.state(), ModelState::Loading);
    assert_eq!(handle.acquire(11), Acquire::Wait);
    assert_eq!(handle.users(), 2);
    handle.load_finished(true, 20);
    assert_eq!(handle.state(), ModelState::Loaded);
    assert_eq!(handle.last_used(), 20);
    assert_eq!(handle.acquire(30), Acquire::Ready);
    assert_eq!(handle.users(), 3);
    assert_eq!(handle.last_used(), 30);
}

#[test]
fn a_failed_load_leaves_the_model_unloaded() {
    let mut handle = ModelHandle::new(ModelUnloadTimeout::Never);
    handle.acquire(10);
    handle.load_finished(false, 20);
    assert_eq!(handle.state(), ModelState::Unloaded);
    assert_eq!(handle.last_used(), 0);
    handle.release(21);
    assert_eq!(handle.users(), 0);
    assert_eq!(handle.acquire(30), Acquire::Load);
}

#[test]
fn load_reports_are_for_a_loading_model_only() {
    let mut handle = loaded(ModelUnloadTimeout::Never, 5);
    handle.load_finished(false, 9);
    assert_eq!(handle.state(), ModelState::Loaded);
    assert_eq!(handle.last_used(), 5);
}

#[test]
fn release_counts_down_and_takes_the_time() {
    let mut handle = loaded(ModelUnloadTimeout::Min2, 5);
    handle.acquire(6);
    handle.acquire(7);
    handle.release(50);
    assert_eq!(handle.users(), 1);
    assert_eq!(handle.last_used(), 50);
    handle.release(60);
    handle.release(70);
    assert_eq!(handle.users(), 0);
    assert_eq!(handle.last_used(), 70);
}

#[test]
fn five_seconds_without_use_unload_the_model() {
    let mut handle = loaded(ModelUnloadTimeout::Sec5, 1_000);
    assert!(!handle.should_evict(5_999));
    assert!(!handle.evict_if_idle(5_999));
    assert_eq!(handle.state(), ModelState::Loaded);
    assert!(handle.should_evict(6_000));
    assert!(handle.evict_if_idle(6_000));
    assert_eq!(handle.state(), ModelState::Unloaded);
    assert!(!handle.evict_if_idle(7_000));
    assert_eq!(handle.acquire(8_000), Acquire::Load);
    handle.load_finished(true, 8_500);
    assert_eq!(handle.state(), ModelState::Loaded);
    assert_eq!(handle.users(), 1);
}

#[test]
fn a_model_in_use_is_not_unloaded() {
    let mut handle = loaded(ModelUnloadTimeout::Immediately, 0);
    assert_eq!(handle.acquire(10), Acquire::Ready);
    assert!(!handle.evict_if_idle(1_000_000));
    assert_eq!(handle.state(), ModelState::Loaded);
    handle.release(1_000_001);
    assert!(handle.evict_if_idle(1_000_001));
}

#[test]
fn timeouts_in_milliseconds() {
    let handle = loaded(ModelUnloadTimeout::Min2, 0);
    assert!(!handle.should_evict(119_999));
    assert!(handle.should_evict(120_000));
    let handle = loaded(ModelUnloadTimeout::Hour1, 1);
    assert!(!handle.should_evict(3_600_000));
    assert!(handle.should_evict(3_600_001));
    let handle = loaded(ModelUnloadTimeout::Never, 0);
    assert!(!handle.should_evict(u64::MAX));
}

#[test]
fn a_clock_that_went_back_counts_as_no_time() {
    let handle = loaded(ModelUnloadTimeout::Sec5, 10_000);
    assert!(!handle.should_evict(0));
    let handle = loaded(ModelUnloadTimeout::Immediately, 10_000);
    assert!(handle.should_evict(0));
}

#[test]
fn a_changed_timeout_counts_from_then_on() {
    let mut handle = loaded(ModelUnloadTimeout::Never, 0);
    assert!(!handle.should_evict(10_000));
    handle.set_timeout(ModelUnloadTimeout::Sec5);
    assert!(handle.should_evict(10_000));
}

#[test]
fn language_hints() {
    assert_eq!(language_hint("auto"), None);
    assert_eq!(language_hint("de"), Some("de".to_string()));
    assert_eq!(language_hint("Auto"), Some("Auto".to_string()));
}

#[test]
fn input_simulation_is_set_up_once() {
    let mut system = InputSystem::new();
    assert!(!system.is_ready());
    assert_eq!(initialize_enigo(&system), Initialization::Attempt);
    assert_eq!(initialization_finished(&mut system, Ok(())), Ok(()));
    assert!(system.is_ready());
    assert_eq!(initialize_enigo(&system), Initialization::Done);
}

#[test]
fn a_refused_setup_is_a_permission_error() {
    let mut system = InputSystem::new();
    let refused = initialization_finished(&mut system, Err("not trusted".to_string()));
    assert_eq!(refused, Err(Error::PermissionDenied("not trusted".to_string())));
    assert_eq!(
        refused.unwrap_err().message(),
        "Failed to initialize input system: not trusted"
    );
    assert!(!system.is_ready());
    assert_eq!(initialize_enigo(&system), Initialization::Attempt);
}

#[test]
fn a_late_failure_takes_nothing_away() {
    let mut system = InputSystem::new();
    initialization_finished(&mut system, Ok(())).unwrap();
    assert!(initialization_finished(&mut system, Err("again".to_string())).is_err());
    assert!(system.is_ready());
}

fn ready() -> InputSystem {
    let mut system = InputSystem::new();
    initialization_finished(&mut system, Ok(())).unwrap();
    system
}

#[test]
fn paste_without_touching_the_clipboard() {
    for method in [PasteMethod::CtrlV, PasteMethod::ShiftInsert, PasteMethod::CtrlShiftV] {
        assert_eq!(
            inject(&ready(), "hi", method, ClipboardHandling::DontModify),
            Ok(vec![
                InjectStep::SaveClipboard,
                InjectStep::SetClipboard("hi".to_string()),
                InjectStep::PressPaste(method),
                InjectStep::RestoreClipboard,
            ])
        );
    }
}

#[test]
fn paste_and_keep_the_text_on_the_clipboard() {
    assert_eq!(
        inject(&ready(), "hi", PasteMethod::CtrlShiftV, ClipboardHandling::CopyToClipboard),
        Ok(vec![
            InjectStep::SetClipboard("hi".to_string()),
            InjectStep::PressPaste(PasteMethod::CtrlShiftV),
        ])
    );
}

#[test]
fn direct_typing() {
    for handling in [ClipboardHandling::DontModify, ClipboardHandling::CopyToClipboard] {
        assert_eq!(
            inject(&ready(), "hi", PasteMethod::Direct, handling),
            Ok(vec![InjectStep::TypeText("hi".to_string())])
        );
    }
}

#[test]
fn no_paste_needs_no_input_simulation() {
    assert_eq!(
        inject(&InputSystem::new(), "hi", PasteMethod::NoPaste, ClipboardHandling::DontModify),
        Ok(vec![InjectStep::SetClipboard("hi".to_string())])
    );
}

#[test]
fn typing_needs_the_input_simulation() {
    for method in [
        PasteMethod::CtrlV,
        PasteMethod::ShiftInsert,
        PasteMethod::CtrlShiftV,
        PasteMethod::Direct,
    ] {
        assert_eq!(
            inject(&InputSystem::new(), "hi", method, ClipboardHandling::DontModify),
            Err(Error::PermissionDenied(INPUT_NOT_READY.to_string()))
        );
    }
}
