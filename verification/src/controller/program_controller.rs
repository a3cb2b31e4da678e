//! The procedure that a controller driving one program follows; the pactl and the amixer
//! controllers differ only in their commands and in how they read the volume.
use crate::controller::audio_controller::{
    AudioError, AudioErrorView, AudioOperation, AudioOperationView, ControllerAction,
    ControllerActionView,
};
use crate::util::command_helper::{
    command_result, AudioCommand, AudioCommandView, AudioProgramType, CommandOutcome,
    CommandOutcomeView, command_result_view, result_view,
};
use crate::util::text::{
    amixer_volume, contains_yes, opt_text, pactl_volume, parse_amixer_volume, parse_pactl_volume,
    text_contains_yes,
};
use vstd::prelude::*;

verus! {

/// Which command a single-program controller waits for.
#[derive(Clone, Copy, Debug, PartialEq, Eq)]
pub enum ProgramStage {
    /// The command that changes the volume.
    AwaitAdjust,
    /// The command that toggles the mute state.
    AwaitToggle,
    /// The command that reports the mute state.
    AwaitMuteState,
    /// The command that reports the volume.
    AwaitVolume,
}

impl View for ProgramStage {
    type V = ProgramStage;

    open spec fn view(&self) -> ProgramStage {
        *self
    }
}

pub open spec fn adjust_command(p: AudioProgramType, volume: Seq<char>) -> AudioCommandView {
    match p {
        AudioProgramType::Pactl => AudioCommandView {
            program: p,
            args: seq!["set-sink-volume"@, "@DEFAULT_SINK@"@, volume],
        },
        AudioProgramType::Amixer => AudioCommandView { program: p, args: seq!["Master"@, volume] },
    }
}

pub open spec fn toggle_mute_command(p: AudioProgramType) -> AudioCommandView {
    AudioCommandView { program: p, args: seq!["set-sink-mute"@, "@DEFAULT_SINK@"@, "toggle"@] }
}

pub open spec fn mute_state_command(p: AudioProgramType) -> AudioCommandView {
    AudioCommandView { program: p, args: seq!["get-sink-mute"@, "@DEFAULT_SINK@"@] }
}

pub open spec fn volume_command(p: AudioProgramType) -> AudioCommandView {
    match p {
        AudioProgramType::Pactl => AudioCommandView {
            program: p,
            args: seq!["get-sink-volume"@, "@DEFAULT_SINK@"@],
        },
        AudioProgramType::Amixer => AudioCommandView { program: p, args: seq!["get"@, "Master"@] },
    }
}

/// The volume that program `p` reports in `text`.
pub open spec fn program_volume(p: AudioProgramType, text: Seq<char>) -> Option<Seq<char>> {
    match p {
        AudioProgramType::Pactl => pactl_volume(text),
        AudioProgramType::Amixer => amixer_volume(text),
    }
}

/// A volume report read: the volume, or the error for a report without one.
pub open spec fn volume_reading(p: AudioProgramType, text: Seq<char>) -> Result<
    Seq<char>,
    AudioErrorView,
> {
    match program_volume(p, text) {
        Some(v) => Ok(v),
        None => Err(AudioErrorView::ParseError("Could not find volume percentage"@)),
    }
}

/// The first command of each operation.
pub open spec fn program_start(p: AudioProgramType, op: AudioOperationView) -> (
    ProgramStage,
    ControllerActionView,
) {
    match op {
        AudioOperationView::AdjustVolume(v) => (
            ProgramStage::AwaitAdjust,
            ControllerActionView::Run(adjust_command(p, v)),
        ),
        AudioOperationView::ToggleMute => (
            ProgramStage::AwaitToggle,
            ControllerActionView::Run(toggle_mute_command(p)),
        ),
        AudioOperationView::GetCurrentVolume => (
            ProgramStage::AwaitVolume,
            ControllerActionView::Run(volume_command(p)),
        ),
    }
}

/// What follows a finished command: a failure ends the operation with that failure;
/// a change of volume is followed by a volume report; a toggle by a mute report; a mute
/// report that says `yes` ends with `MUTED`, any other by a volume report; and a volume
/// report ends the operation with the volume read from it.
pub open spec fn program_resume(
    p: AudioProgramType,
    stage: ProgramStage,
    outcome: CommandOutcomeView,
) -> (ProgramStage, ControllerActionView) {
    match command_result_view(outcome) {
        Err(e) => (stage, ControllerActionView::Finish(Err(e))),
        Ok(out) => match stage {
            ProgramStage::AwaitAdjust => (
                ProgramStage::AwaitVolume,
                ControllerActionView::Run(volume_command(p)),
            ),
            ProgramStage::AwaitToggle => (
                ProgramStage::AwaitMuteState,
                ControllerActionView::Run(mute_state_command(p)),
            ),
            ProgramStage::AwaitMuteState => if contains_yes(out) {
                (stage, ControllerActionView::Finish(Ok("MUTED"@)))
            } else {
                (ProgramStage::AwaitVolume, ControllerActionView::Run(volume_command(p)))
            },
            ProgramStage::AwaitVolume => (
                stage,
                ControllerActionView::Finish(volume_reading(p, out)),
            ),
        },
    }
}

/// How many more commands an operation may ask for, at most, after the one it waits for.
pub open spec fn commands_left(stage: ProgramStage) -> nat {
    match stage {
        ProgramStage::AwaitVolume => 0,
        ProgramStage::AwaitAdjust => 1,
        ProgramStage::AwaitMuteState => 1,
        ProgramStage::AwaitToggle => 2,
    }
}

fn text(s: &str) -> (r: String)
    ensures
        r@ == s@,
{
    String::from_str(s)
}

fn make_command(program: AudioProgramType, args: Vec<String>) -> (c: AudioCommand)
    ensures
        c@ == (AudioCommandView { program, args: args@.map_values(|a: String| a@) }),
{
    AudioCommand { program, args }
}

/// The command that changes the volume by `volume`.
pub fn adjust_command_for(p: AudioProgramType, volume: &str) -> (c: AudioCommand)
    ensures
        c@ == adjust_command(p, volume@),
{
    match p {
        AudioProgramType::Pactl => {
            let args: Vec<String> = vec![text("set-sink-volume"), text("@DEFAULT_SINK@"), text(volume)];
            let c = make_command(p, args);
            assert(c@.args =~= adjust_command(p, volume@).args);
            c
        },
        AudioProgramType::Amixer => {
            let args: Vec<String> = vec![text("Master"), text(volume)];
            let c = make_command(p, args);
            assert(c@.args =~= adjust_command(p, volume@).args);
            c
        },
    }
}

/// The command that toggles the mute state.
pub fn toggle_mute_command_for(p: AudioProgramType) -> (c: AudioCommand)
    ensures
        c@ == toggle_mute_command(p),
{
    let args: Vec<String> = vec![text("set-sink-mute"), text("@DEFAULT_SINK@"), text("toggle")];
    let c = make_command(p, args);
    assert(c@.args =~= toggle_mute_command(p).args);
    c
}

/// The command that reports the mute state.
pub fn mute_state_command_for(p: AudioProgramType) -> (c: AudioCommand)
    ensures
        c@ == mute_state_command(p),
{
    let args: Vec<String> = vec![text("get-sink-mute"), text("@DEFAULT_SINK@")];
    let c = make_command(p, args);
    assert(c@.args =~= mute_state_command(p).args);
    c
}

/// The command that reports the volume.
pub fn volume_command_for(p: AudioProgramType) -> (c: AudioCommand)
    ensures
        c@ == volume_command(p),
{
    match p {
        AudioProgramType::Pactl => {
            let args: Vec<String> = vec![text("get-sink-volume"), text("@DEFAULT_SINK@")];
            let c = make_command(p, args);
            assert(c@.args =~= volume_command(p).args);
            c
        },
        AudioProgramType::Amixer => {
            let args: Vec<String> = vec![text("get"), text("Master")];
            let c = make_command(p, args);
            assert(c@.args =~= volume_command(p).args);
            c
        },
    }
}

/// Reads the volume that program `p` reports in `out`.
pub fn read_volume(p: AudioProgramType, out: &str) -> (r: Result<String, AudioError>)
    ensures
        result_view(r) == volume_reading(p, out@),
{
    let found: Option<String> = match p {
        AudioProgramType::Pactl => parse_pactl_volume(out),
        AudioProgramType::Amixer => parse_amixer_volume(out),
    };
    assert(opt_text(found) == program_volume(p, out@));
    match found {
        Some(v) => Ok(v),
        None => Err(AudioError::ParseError(text("Could not find volume percentage"))),
    }
}

/// The first action of operation `op` for program `p`; an operation asks for at most three
/// commands in all.
pub fn program_start_for(p: AudioProgramType, op: &AudioOperation) -> (r: (ProgramStage, ControllerAction))
    ensures
        (r.0@, r.1@) == program_start(p, op@),
        commands_left(r.0) <= 2,
{
    match op {
        AudioOperation::AdjustVolume(v) => (
            ProgramStage::AwaitAdjust,
            ControllerAction::Run(adjust_command_for(p, v.as_str())),
        ),
        AudioOperation::ToggleMute => (
            ProgramStage::AwaitToggle,
            ControllerAction::Run(toggle_mute_command_for(p)),
        ),
        AudioOperation::GetCurrentVolume => (
            ProgramStage::AwaitVolume,
            ControllerAction::Run(volume_command_for(p)),
        ),
    }
}

/// The action that follows a finished command for program `p` at `stage`. When it asks for
/// another command, fewer commands are left to ask for.
pub fn program_resume_for(p: AudioProgramType, stage: ProgramStage, outcome: CommandOutcome) -> (r: (
    ProgramStage,
    ControllerAction,
))
    ensures
        (r.0@, r.1@) == program_resume(p, stage, outcome@),
        r.1 is Run ==> commands_left(r.0) < commands_left(stage),
{
    match command_result(outcome) {
        Err(e) => (stage, ControllerAction::Finish(Err(e))),
        Ok(out) => match stage {
            ProgramStage::AwaitAdjust => (
                ProgramStage::AwaitVolume,
                ControllerAction::Run(volume_command_for(p)),
            ),
            ProgramStage::AwaitToggle => (
                ProgramStage::AwaitMuteState,
                ControllerAction::Run(mute_state_command_for(p)),
            ),
            ProgramStage::AwaitMuteState => if text_contains_yes(out.as_str()) {
                (stage, ControllerAction::Finish(Ok(text("MUTED"))))
            } else {
                (ProgramStage::AwaitVolume, ControllerAction::Run(volume_command_for(p)))
            },
            ProgramStage::AwaitVolume => {
                let r = read_volume(p, out.as_str());
                (stage, ControllerAction::Finish(r))
            },
        },
    }
}

} // verus!
