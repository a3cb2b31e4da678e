//! What every controller offers: the operations, how a controller asks for commands
//! and reports its result, and the errors it can report.
use crate::util::command_helper::{AudioCommand, AudioCommandView, CommandOutcome, CommandOutcomeView};
use vstd::prelude::*;

verus! {

#[verifier::external_type_specification]
#[verifier::external_body]
pub struct ExIoError(std::io::Error);

/// Why a controller could not do what it was asked.
#[derive(Debug)]
pub enum AudioError {
    /// The program could not be started.
    Io(std::io::Error),
    /// The program ran and failed; its standard error.
    CommandFailed(String),
    /// The program's output did not say what was looked for.
    ParseError(String),
    BackendUnavailable,
    /// Both the primary and the fallback controller failed.
    BothFailed { primary: Box<AudioError>, secondary: Box<AudioError> },
}

pub enum AudioErrorView {
    Io(std::io::Error),
    CommandFailed(Seq<char>),
    ParseError(Seq<char>),
    BackendUnavailable,
    BothFailed { primary: Box<AudioErrorView>, secondary: Box<AudioErrorView> },
}

pub open spec fn error_view(e: AudioError) -> AudioErrorView
    decreases e,
{
    match e {
        AudioError::Io(io) => AudioErrorView::Io(io),
        AudioError::CommandFailed(s) => AudioErrorView::CommandFailed(s@),
        AudioError::ParseError(s) => AudioErrorView::ParseError(s@),
        AudioError::BackendUnavailable => AudioErrorView::BackendUnavailable,
        AudioError::BothFailed { primary, secondary } => AudioErrorView::BothFailed {
            primary: Box::new(error_view(*primary)),
            secondary: Box::new(error_view(*secondary)),
        },
    }
}

impl View for AudioError {
    type V = AudioErrorView;

    open spec fn view(&self) -> AudioErrorView {
        error_view(*self)
    }
}

/// The three things that a controller can be asked to do.
pub enum AudioOperation {
    /// Change the volume by the given step, such as `+5%`, then report the volume.
    AdjustVolume(String),
    /// Mute or unmute, then report `MUTED` or the volume.
    ToggleMute,
    /// Report the volume.
    GetCurrentVolume,
}

pub enum AudioOperationView {
    AdjustVolume(Seq<char>),
    ToggleMute,
    GetCurrentVolume,
}

impl View for AudioOperation {
    type V = AudioOperationView;

    open spec fn view(&self) -> AudioOperationView {
        match self {
            AudioOperation::AdjustVolume(v) => AudioOperationView::AdjustVolume(v@),
            AudioOperation::ToggleMute => AudioOperationView::ToggleMute,
            AudioOperation::GetCurrentVolume => AudioOperationView::GetCurrentVolume,
        }
    }
}

/// What a controller asks for next: a command to run, or the end of the operation
/// with its result.
pub enum ControllerAction {
    Run(AudioCommand),
    Finish(Result<String, AudioError>),
}

pub enum ControllerActionView {
    Run(AudioCommandView),
    Finish(Result<Seq<char>, AudioErrorView>),
}

impl View for ControllerAction {
    type V = ControllerActionView;

    open spec fn view(&self) -> ControllerActionView {
        match self {
            ControllerAction::Run(c) => ControllerActionView::Run(c@),
            ControllerAction::Finish(Ok(s)) => ControllerActionView::Finish(Ok(s@)),
            ControllerAction::Finish(Err(e)) => ControllerActionView::Finish(Err(e@)),
        }
    }
}

/// A controller carries out an operation as a run of commands that its caller performs:
/// `start` gives the first action, and each finished command is handed to `resume`,
/// which gives the next, until an action finishes the operation.
pub trait AudioController: Sized {
    /// Where the controller stands inside an operation.
    type Progress: View;

    spec fn spec_start(&self, op: AudioOperationView) -> (
        <Self::Progress as View>::V,
        ControllerActionView,
    );

    spec fn spec_resume(
        &self,
        op: AudioOperationView,
        progress: <Self::Progress as View>::V,
        outcome: CommandOutcomeView,
    ) -> (<Self::Progress as View>::V, ControllerActionView);

    fn start(&self, op: &AudioOperation) -> (r: (Self::Progress, ControllerAction))
        ensures
            (r.0@, r.1@) == self.spec_start(op@),
    ;

    fn resume(&self, op: &AudioOperation, progress: Self::Progress, outcome: CommandOutcome) -> (r: (
        Self::Progress,
        ControllerAction,
    ))
        ensures
            (r.0@, r.1@) == self.spec_resume(op@, progress@, outcome@),
    ;
}

/// The result with which `c`, standing at `state`, finishes the operation when the commands
/// it asks for give exactly `outcomes`, in order; `None` when it asks for fewer or more.
pub open spec fn finishes_from<C: AudioController>(
    c: C,
    op: AudioOperationView,
    state: (<C::Progress as View>::V, ControllerActionView),
    outcomes: Seq<CommandOutcomeView>,
) -> Option<Result<Seq<char>, AudioErrorView>>
    decreases outcomes.len(),
{
    match state.1 {
        ControllerActionView::Finish(r) => if outcomes.len() == 0 {
            Some(r)
        } else {
            None
        },
        ControllerActionView::Run(_) => if outcomes.len() == 0 {
            None
        } else {
            finishes_from(c, op, c.spec_resume(op, state.0, outcomes[0]), outcomes.drop_first())
        },
    }
}

/// The result of operation `op` on `c` when its commands give exactly `outcomes`.
pub open spec fn run_outcome<C: AudioController>(
    c: C,
    op: AudioOperationView,
    outcomes: Seq<CommandOutcomeView>,
) -> Option<Result<Seq<char>, AudioErrorView>> {
    finishes_from(c, op, c.spec_start(op), outcomes)
}

} // verus!
