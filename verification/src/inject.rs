//! The delivery of the final text to the focused application.

use crate::error::{Error, ErrorView};
use crate::options::{ClipboardHandling, PasteMethod};
use crate::text::owned;
use vstd::prelude::*;

verus! {

/// What is said where text is to be typed before the input simulation was
/// set up.
pub const INPUT_NOT_READY: &'static str = "input simulation is not initialized";

/// The input simulation of the process: set up once, on first need, and
/// kept from then on. Setting it up can fail, most often because the
/// system has not been allowed to let the program simulate input.
#[derive(Clone, Copy, Debug, PartialEq, Eq, Structural)]
pub struct InputSystem {
    ready: bool,
}

impl View for InputSystem {
    type V = bool;

    /// Whether the input simulation is set up.
    closed spec fn view(&self) -> bool {
        self.ready
    }
}

/// One step of a delivery.
#[derive(Debug, PartialEq, Eq)]
pub enum InjectStep {
    /// Remember what the clipboard holds.
    SaveClipboard,
    /// Put the text on the clipboard.
    SetClipboard(String),
    /// Press the paste key combination of this method.
    PressPaste(PasteMethod),
    /// Type the text, character by character.
    TypeText(String),
    /// Put back what the clipboard held.
    RestoreClipboard,
}

/// The mathematical value of an [`InjectStep`].
pub enum InjectStepView {
    SaveClipboard,
    SetClipboard(Seq<char>),
    PressPaste(PasteMethod),
    TypeText(Seq<char>),
    RestoreClipboard,
}

impl View for InjectStep {
    type V = InjectStepView;

    open spec fn view(&self) -> InjectStepView {
        match self {
            InjectStep::SaveClipboard => InjectStepView::SaveClipboard,
            InjectStep::SetClipboard(text) => InjectStepView::SetClipboard(text@),
            InjectStep::PressPaste(method) => InjectStepView::PressPaste(*method),
            InjectStep::TypeText(text) => InjectStepView::TypeText(text@),
            InjectStep::RestoreClipboard => InjectStepView::RestoreClipboard,
        }
    }
}

impl DeepView for InjectStep {
    type V = InjectStepView;

    open spec fn deep_view(&self) -> InjectStepView {
        self@
    }
}

/// Whether a paste method simulates input.
pub open spec fn simulates_input(method: PasteMethod) -> bool {
    method != PasteMethod::NoPaste
}

/// The steps that deliver `text`. Without paste the text is left on the
/// clipboard and that is all. Direct delivery types it. The three paste
/// methods put it on the clipboard and press their key combination; where
/// the clipboard is not to be modified, what it held is saved before and
/// put back after.
pub open spec fn delivery(
    text: Seq<char>,
    method: PasteMethod,
    handling: ClipboardHandling,
) -> Seq<InjectStepView> {
    match method {
        PasteMethod::NoPaste => seq![InjectStepView::SetClipboard(text)],
        PasteMethod::Direct => seq![InjectStepView::TypeText(text)],
        _ => match handling {
            ClipboardHandling::DontModify => seq![
                InjectStepView::SaveClipboard,
                InjectStepView::SetClipboard(text),
                InjectStepView::PressPaste(method),
                InjectStepView::RestoreClipboard,
            ],
            ClipboardHandling::CopyToClipboard => seq![
                InjectStepView::SetClipboard(text),
                InjectStepView::PressPaste(method),
            ],
        },
    }
}

/// What setting up the input simulation starts with.
#[derive(Clone, Copy, Debug, PartialEq, Eq, Structural)]
pub enum Initialization {
    /// It is set up already: nothing to do.
    Done,
    /// Try to set it up and report with
    /// [`initialization_finished`].
    Attempt,
}

impl InputSystem {
    /// An input simulation that is not set up yet.
    pub fn new() -> (r: Self)
        ensures
            !r@,
    {
        InputSystem { ready: false }
    }

    /// Whether the input simulation is set up.
    pub fn is_ready(&self) -> (r: bool)
        ensures
            r == self@,
    {
        self.ready
    }
}

/// Asks for the input simulation to be set up. Asking again once it is set
/// up changes nothing and succeeds.
pub fn initialize_enigo(system: &InputSystem) -> (r: Initialization)
    ensures
        r == if system@ {
            Initialization::Done
        } else {
            Initialization::Attempt
        },
{
    if system.ready {
        Initialization::Done
    } else {
        Initialization::Attempt
    }
}

/// Takes the outcome of an attempt to set the input simulation up. A
/// success stays for the lifetime of the process. A failure is reported as
/// `PermissionDenied` with what the system said, and takes nothing away: an
/// input simulation that was set up by another attempt stays set up.
pub fn initialization_finished(system: &mut InputSystem, outcome: Result<(), String>) -> (r: Result<
    (),
    Error,
>)
    ensures
        final(system)@ == (old(system)@ || outcome is Ok),
        match r {
            Ok(_) => outcome is Ok,
            Err(e) => outcome matches Err(m) && e@ == ErrorView::PermissionDenied(m@),
        },
{
    match outcome {
        Ok(_) => {
            system.ready = true;
            Ok(())
        },
        Err(message) => Err(Error::PermissionDenied(message)),
    }
}

/// The view of the outcome of planning a delivery.
pub open spec fn steps_view(r: Result<Vec<InjectStep>, Error>) -> Result<
    Seq<InjectStepView>,
    ErrorView,
> {
    match r {
        Ok(steps) => Ok(steps.deep_view()),
        Err(e) => Err(e@),
    }
}

/// Plans the delivery of `text`: the steps of [`delivery`]. A method that
/// simulates input needs the input simulation; where that is not set up
/// the delivery is refused as `PermissionDenied`.
pub fn inject(
    system: &InputSystem,
    text: &str,
    paste_method: PasteMethod,
    clipboard_handling: ClipboardHandling,
) -> (r: Result<Vec<InjectStep>, Error>)
    ensures
        steps_view(r) == if simulates_input(paste_method) && !system@ {
            Err::<Seq<InjectStepView>, ErrorView>(ErrorView::PermissionDenied(INPUT_NOT_READY@))
        } else {
            Ok(delivery(text@, paste_method, clipboard_handling))
        },
{
    let mut steps: Vec<InjectStep> = Vec::new();
    match paste_method {
        PasteMethod::NoPaste => {
            steps.push(InjectStep::SetClipboard(owned(text)));
        },
        _ => {
            if !system.ready {
                return Err(Error::PermissionDenied(owned(INPUT_NOT_READY)));
            }
            match paste_method {
                PasteMethod::Direct => {
                    steps.push(InjectStep::TypeText(owned(text)));
                },
                _ => {
                    match clipboard_handling {
                        ClipboardHandling::DontModify => {
                            steps.push(InjectStep::SaveClipboard);
                            steps.push(InjectStep::SetClipboard(owned(text)));
                            steps.push(InjectStep::PressPaste(paste_method));
                            steps.push(InjectStep::RestoreClipboard);
                        },
                        ClipboardHandling::CopyToClipboard => {
                            steps.push(InjectStep::SetClipboard(owned(text)));
                            steps.push(InjectStep::PressPaste(paste_method));
                        },
                    }
                },
            }
        },
    }
    proof {
        assert(steps.deep_view() =~= delivery(text@, paste_method, clipboard_handling));
    }
    Ok(steps)
}

} // verus!
