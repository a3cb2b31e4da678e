//! Tolerant event handling. It never reports an error: every failure is
//! papered over by a second try with another command, and what cannot be read is `NA`.
//! A volume change is made with pactl, or with amixer when pactl fails; a mute toggle is
//! made with pactl, tried a second time when it fails; the volume is read from pactl, or
//! from amixer when pactl gives none.
use crate::controller::program_controller::{
    adjust_command, adjust_command_for, mute_state_command, mute_state_command_for,
    toggle_mute_command, toggle_mute_command_for, volume_command, volume_command_for,
};
use crate::daemon_core::state::{ColorState, DaemonState};
use crate::events::EventType;
use crate::util::command_helper::{
    text_from_bytes_lossy, utf8_lossy, AudioCommand, AudioCommandView, AudioProgramType,
    CommandOutcome, CommandOutcomeView,
};
use crate::util::text::{
    amixer_volume, contains_yes, pactl_volume, parse_amixer_volume, parse_pactl_volume,
    text_contains_yes,
};
use vstd::prelude::*;

verus! {

/// Which command the handler waits for.
#[derive(Clone, Copy, Debug, PartialEq, Eq)]
pub enum HandlerStep {
    /// pactl changing the volume.
    PactlSetVolume,
    /// amixer changing the volume, after pactl failed to.
    AmixerSetVolume,
    /// pactl toggling the mute state.
    ToggleMute,
    /// pactl toggling the mute state a second time, after the first try failed.
    ToggleMuteAgain,
    /// pactl reporting the mute state.
    MuteState,
    /// pactl reporting the volume.
    PactlVolume,
    /// amixer reporting the volume, after pactl gave none.
    AmixerVolume,
}

/// What the handler asks for next: a command to run, or the end with the volume text.
pub enum HandlerAction {
    Run(AudioCommand),
    Finish(String),
}

pub enum HandlerActionView {
    Run(AudioCommandView),
    Finish(Seq<char>),
}

impl View for HandlerAction {
    type V = HandlerActionView;

    open spec fn view(&self) -> HandlerActionView {
        match self {
            HandlerAction::Run(c) => HandlerActionView::Run(c@),
            HandlerAction::Finish(s) => HandlerActionView::Finish(s@),
        }
    }
}

/// The volume step of an event: `+5%` up, `-5%` down.
pub open spec fn event_step(event: EventType) -> Seq<char> {
    match event {
        EventType::VolumeUp => "+5%"@,
        EventType::VolumeDown => "-5%"@,
        EventType::MuteToggle => Seq::empty(),
    }
}

/// The colour in which an event's result is shown.
pub open spec fn event_color(event: EventType) -> ColorState {
    match event {
        EventType::VolumeUp => ColorState::Increased,
        EventType::VolumeDown => ColorState::Decreased,
        EventType::MuteToggle => ColorState::Default,
    }
}

/// The amixer command that changes the volume by `volume`.
pub open spec fn amixer_set_command(volume: Seq<char>) -> AudioCommandView {
    AudioCommandView { program: AudioProgramType::Amixer, args: seq!["set"@, "Master"@, volume] }
}

/// A command that ran and reported success.
pub open spec fn succeeded(o: CommandOutcomeView) -> bool {
    o matches CommandOutcomeView::Exited { success: true, .. }
}

/// The first command of an event.
pub open spec fn handler_start_spec(event: EventType) -> (HandlerStep, HandlerActionView) {
    match event {
        EventType::MuteToggle => (
            HandlerStep::ToggleMute,
            HandlerActionView::Run(toggle_mute_command(AudioProgramType::Pactl)),
        ),
        _ => (
            HandlerStep::PactlSetVolume,
            HandlerActionView::Run(adjust_command(AudioProgramType::Pactl, event_step(event))),
        ),
    }
}

pub open spec fn read_pactl_volume() -> (HandlerStep, HandlerActionView) {
    (HandlerStep::PactlVolume, HandlerActionView::Run(volume_command(AudioProgramType::Pactl)))
}

pub open spec fn read_amixer_volume() -> (HandlerStep, HandlerActionView) {
    (HandlerStep::AmixerVolume, HandlerActionView::Run(volume_command(AudioProgramType::Amixer)))
}

/// What follows a finished command.
pub open spec fn handler_resume_spec(event: EventType, step: HandlerStep, o: CommandOutcomeView) -> (
    HandlerStep,
    HandlerActionView,
) {
    match step {
        HandlerStep::PactlSetVolume => if succeeded(o) {
            read_pactl_volume()
        } else {
            (
                HandlerStep::AmixerSetVolume,
                HandlerActionView::Run(amixer_set_command(event_step(event))),
            )
        },
        HandlerStep::AmixerSetVolume => read_pactl_volume(),
        HandlerStep::ToggleMute => if succeeded(o) {
            (
                HandlerStep::MuteState,
                HandlerActionView::Run(mute_state_command(AudioProgramType::Pactl)),
            )
        } else {
            (
                HandlerStep::ToggleMuteAgain,
                HandlerActionView::Run(toggle_mute_command(AudioProgramType::Pactl)),
            )
        },
        HandlerStep::ToggleMuteAgain => (
            HandlerStep::MuteState,
            HandlerActionView::Run(mute_state_command(AudioProgramType::Pactl)),
        ),
        HandlerStep::MuteState => match o {
            CommandOutcomeView::Exited { success: true, stdout, .. } => if contains_yes(
                utf8_lossy(stdout),
            ) {
                (step, HandlerActionView::Finish("MUTED"@))
            } else {
                read_pactl_volume()
            },
            _ => (step, HandlerActionView::Finish("NA"@)),
        },
        HandlerStep::PactlVolume => match o {
            CommandOutcomeView::Exited { stdout, .. } => match pactl_volume(utf8_lossy(stdout)) {
                Some(v) => (step, HandlerActionView::Finish(v)),
                None => read_amixer_volume(),
            },
            CommandOutcomeView::NotStarted(_) => read_amixer_volume(),
        },
        HandlerStep::AmixerVolume => match o {
            CommandOutcomeView::Exited { stdout, .. } => match amixer_volume(utf8_lossy(stdout)) {
                Some(v) => (step, HandlerActionView::Finish(v)),
                None => (step, HandlerActionView::Finish("NA"@)),
            },
            CommandOutcomeView::NotStarted(_) => (step, HandlerActionView::Finish("NA"@)),
        },
    }
}

/// How many more commands the handler may ask for, at most, after the one it waits for.
pub open spec fn commands_left(step: HandlerStep) -> nat {
    match step {
        HandlerStep::PactlSetVolume => 3,
        HandlerStep::AmixerSetVolume => 2,
        HandlerStep::ToggleMute => 4,
        HandlerStep::ToggleMuteAgain => 3,
        HandlerStep::MuteState => 2,
        HandlerStep::PactlVolume => 1,
        HandlerStep::AmixerVolume => 0,
    }
}

fn event_step_text(event: EventType) -> (r: String)
    ensures
        r@ == event_step(event),
{
    match event {
        EventType::VolumeUp => String::from_str("+5%"),
        EventType::VolumeDown => String::from_str("-5%"),
        EventType::MuteToggle => String::new(),
    }
}

fn amixer_set_command_for(volume: &str) -> (c: AudioCommand)
    ensures
        c@ == amixer_set_command(volume@),
{
    let args: Vec<String> = vec![String::from_str("set"), String::from_str("Master"), String::from_str(volume)];
    let c = AudioCommand { program: AudioProgramType::Amixer, args };
    assert(c@.args =~= amixer_set_command(volume@).args);
    c
}

/// The first command of an event: pactl toggling the mute state, or pactl changing the
/// volume by the event's step. It asks for at most five commands in all.
pub fn handler_start(event: EventType) -> (r: (HandlerStep, HandlerAction))
    ensures
        (r.0, r.1@) == handler_start_spec(event),
        commands_left(r.0) <= 4,
{
    match event {
        EventType::MuteToggle => (
            HandlerStep::ToggleMute,
            HandlerAction::Run(toggle_mute_command_for(AudioProgramType::Pactl)),
        ),
        _ => {
            let step: String = event_step_text(event);
            (
                HandlerStep::PactlSetVolume,
                HandlerAction::Run(adjust_command_for(AudioProgramType::Pactl, step.as_str())),
            )
        },
    }
}

/// The action after a finished command. When it asks for another command, fewer commands
/// are left to ask for.
pub fn handler_resume(event: EventType, step: HandlerStep, outcome: CommandOutcome) -> (r: (
    HandlerStep,
    HandlerAction,
))
    ensures
        (r.0, r.1@) == handler_resume_spec(event, step, outcome@),
        r.1 is Run ==> commands_left(r.0) < commands_left(step),
{
    match step {
        HandlerStep::PactlSetVolume => {
            if let CommandOutcome::Exited { success: true, .. } = outcome {
                (HandlerStep::PactlVolume, HandlerAction::Run(volume_command_for(AudioProgramType::Pactl)))
            } else {
                let volume: String = event_step_text(event);
                (HandlerStep::AmixerSetVolume, HandlerAction::Run(amixer_set_command_for(volume.as_str())))
            }
        },
        HandlerStep::AmixerSetVolume => (
            HandlerStep::PactlVolume,
            HandlerAction::Run(volume_command_for(AudioProgramType::Pactl)),
        ),
        HandlerStep::ToggleMute => {
            if let CommandOutcome::Exited { success: true, .. } = outcome {
                (HandlerStep::MuteState, HandlerAction::Run(mute_state_command_for(AudioProgramType::Pactl)))
            } else {
                (
                    HandlerStep::ToggleMuteAgain,
                    HandlerAction::Run(toggle_mute_command_for(AudioProgramType::Pactl)),
                )
            }
        },
        HandlerStep::ToggleMuteAgain => (
            HandlerStep::MuteState,
            HandlerAction::Run(mute_state_command_for(AudioProgramType::Pactl)),
        ),
        HandlerStep::MuteState => match outcome {
            CommandOutcome::Exited { success: true, stdout, .. } => {
                let text: String = text_from_bytes_lossy(stdout.as_slice());
                if text_contains_yes(text.as_str()) {
                    (step, HandlerAction::Finish(String::from_str("MUTED")))
                } else {
                    (HandlerStep::PactlVolume, HandlerAction::Run(volume_command_for(AudioProgramType::Pactl)))
                }
            },
            _ => (step, HandlerAction::Finish(String::from_str("NA"))),
        },
        HandlerStep::PactlVolume => match outcome {
            CommandOutcome::Exited { stdout, .. } => {
                let text: String = text_from_bytes_lossy(stdout.as_slice());
                match parse_pactl_volume(text.as_str()) {
                    Some(v) => (step, HandlerAction::Finish(v)),
                    None => (
                        HandlerStep::AmixerVolume,
                        HandlerAction::Run(volume_command_for(AudioProgramType::Amixer)),
                    ),
                }
            },
            CommandOutcome::NotStarted(_) => (
                HandlerStep::AmixerVolume,
                HandlerAction::Run(volume_command_for(AudioProgramType::Amixer)),
            ),
        },
        HandlerStep::AmixerVolume => match outcome {
            CommandOutcome::Exited { stdout, .. } => {
                let text: String = text_from_bytes_lossy(stdout.as_slice());
                match parse_amixer_volume(text.as_str()) {
                    Some(v) => (step, HandlerAction::Finish(v)),
                    None => (step, HandlerAction::Finish(String::from_str("NA"))),
                }
            },
            CommandOutcome::NotStarted(_) => (step, HandlerAction::Finish(String::from_str("NA"))),
        },
    }
}

/// Records the volume text that an event ended with, handled at `now`, and gives the line
/// for the status FIFO: the volume in the event's colour.
pub fn finish_event(state: &mut DaemonState, event: EventType, volume: String, now: u64) -> (line: String)
    ensures
        final(state).volume_state.volume matches Some(s) && s@ == volume@,
        final(state).volume_state.color == event_color(event),
        final(state).volume_state.last_event_time == Some(now),
        line@ == event_color(event).colored(volume@),
{
    let color: ColorState = match event {
        EventType::VolumeUp => ColorState::Increased,
        EventType::VolumeDown => ColorState::Decreased,
        EventType::MuteToggle => ColorState::Default,
    };
    let line: String = color.apply_color(volume.as_str());
    state.volume_state.volume = Some(volume);
    state.volume_state.color = color;
    state.volume_state.last_event_time = Some(now);
    line
}

/// The volume step that a volume event asks for: up by 5% or down by 5%.
pub open spec fn requested_step(event: EventType) -> Seq<char> {
    if event == EventType::VolumeUp {
        "+5%"@
    } else {
        "-5%"@
    }
}

/// A volume event starts with pactl changing the volume by the event's own step: `+5%` up,
/// `-5%` down.
pub proof fn lemma_volume_event_starts_with_its_step(event: EventType)
    requires
        event != EventType::MuteToggle,
    ensures
        handler_start_spec(event).1 matches HandlerActionView::Run(c) && c.program
            == AudioProgramType::Pactl && c.args.len() > 0 && c.args.last() == requested_step(event),
{
}

/// When pactl fails to change the volume for an event, the stand-in asked for next is amixer
/// changing the volume by that same event's step.
pub proof fn lemma_stand_in_keeps_step(event: EventType, o: CommandOutcomeView)
    requires
        event != EventType::MuteToggle,
        !succeeded(o),
    ensures
        handler_resume_spec(event, HandlerStep::PactlSetVolume, o).0 == HandlerStep::AmixerSetVolume,
        handler_resume_spec(event, HandlerStep::PactlSetVolume, o).1 matches HandlerActionView::Run(c)
            && c.program == AudioProgramType::Amixer && c.args.len() > 0 && c.args.last()
            == requested_step(event),
{
}

/// When pactl changes the volume, amixer is not asked to change it as well: the volume report
/// follows.
pub proof fn lemma_no_stand_in_after_success(event: EventType, o: CommandOutcomeView)
    requires
        succeeded(o),
    ensures
        handler_resume_spec(event, HandlerStep::PactlSetVolume, o) == read_pactl_volume(),
{
}


/// A mute report ends the event with `MUTED` when it succeeded and holds `yes`, with `NA` when
/// it failed or did not start, and otherwise goes on to the pactl volume report.
pub proof fn lemma_mute_report_ends(event: EventType, o: CommandOutcomeView)
    ensures
        !succeeded(o) ==> handler_resume_spec(event, HandlerStep::MuteState, o).1 == HandlerActionView::Finish("NA"@),
        o matches CommandOutcomeView::Exited { success: true, stdout, .. } ==> (
            if contains_yes(utf8_lossy(stdout)) {
                handler_resume_spec(event, HandlerStep::MuteState, o).1 == HandlerActionView::Finish("MUTED"@)
            } else {
                handler_resume_spec(event, HandlerStep::MuteState, o) == read_pactl_volume()
            }
        ),
{
}

/// The pactl volume report ends the event with the volume it shows, whether or not pactl
/// reported success; when it shows none, or pactl did not start, amixer is asked. The amixer
/// report ends the event with the volume it shows, or with `NA`.
pub proof fn lemma_volume_reports_end(event: EventType, o: CommandOutcomeView)
    ensures
        o matches CommandOutcomeView::Exited { stdout, .. } ==> handler_resume_spec(event, HandlerStep::PactlVolume, o)
            == match pactl_volume(utf8_lossy(stdout)) {
            Some(v) => (HandlerStep::PactlVolume, HandlerActionView::Finish(v)),
            None => read_amixer_volume(),
        },
        o is NotStarted ==> handler_resume_spec(event, HandlerStep::PactlVolume, o) == read_amixer_volume(),
        o matches CommandOutcomeView::Exited { stdout, .. } ==> handler_resume_spec(event, HandlerStep::AmixerVolume, o).1
            == HandlerActionView::Finish(
            match amixer_volume(utf8_lossy(stdout)) {
                Some(v) => v,
                None => "NA"@,
            },
        ),
        o is NotStarted ==> handler_resume_spec(event, HandlerStep::AmixerVolume, o).1 == HandlerActionView::Finish("NA"@),
        read_pactl_volume().1 == HandlerActionView::Run(volume_command(AudioProgramType::Pactl)),
        read_amixer_volume().1 == HandlerActionView::Run(volume_command(AudioProgramType::Amixer)),
{
}

} // verus!
