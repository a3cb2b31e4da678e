//! What the single-program controllers do, stated over whole runs of commands: the volume
//! step is passed on, a failed command ends the operation with its failure, a mute report
//! says `MUTED` exactly when it holds `yes`, and otherwise the volume is read.
use crate::controller::amixer_controller::AmixerController;
use crate::controller::audio_controller::{
    finishes_from, run_outcome, AudioErrorView, AudioOperationView, ControllerActionView,
};
use crate::controller::pactl_controller::PactlController;
use crate::controller::program_controller::{
    program_resume, program_start, volume_command, volume_reading, ProgramStage,
};
use crate::util::command_helper::{
    command_result_view, utf8_lossy, AudioCommandView, AudioProgramType, CommandOutcomeView,
};
use crate::util::text::{amixer_volume, contains_yes, pactl_volume};
use vstd::prelude::*;

verus! {

/// A command that ran and succeeded, printing `text`.
pub open spec fn succeeded_with(o: CommandOutcomeView, text: Seq<char>) -> bool {
    o matches CommandOutcomeView::Exited { success: true, stdout, .. } && utf8_lossy(stdout) == text
}

/// What an operation ends with when its last command is a volume report giving `o`.
pub open spec fn reading_of(p: AudioProgramType, o: CommandOutcomeView) -> Result<Seq<char>, AudioErrorView> {
    match command_result_view(o) {
        Ok(out) => volume_reading(p, out),
        Err(e) => Err(e),
    }
}

/// Whatever a controller waits for, a command that failed or did not start ends the
/// operation with that failure, and no further command is asked for.
pub proof fn lemma_failure_ends_operation(
    p: AudioProgramType,
    stage: ProgramStage,
    o: CommandOutcomeView,
    e: AudioErrorView,
)
    requires
        command_result_view(o) == Err::<Seq<char>, AudioErrorView>(e),
    ensures
        program_resume(p, stage, o).1 == ControllerActionView::Finish(Err(e)),
{
}

/// A mute report that succeeds ends the operation with `MUTED` exactly when it holds `yes`;
/// otherwise the volume report is asked for next.
pub proof fn lemma_mute_report(p: AudioProgramType, o: CommandOutcomeView, text: Seq<char>)
    requires
        succeeded_with(o, text),
    ensures
        (program_resume(p, ProgramStage::AwaitMuteState, o).1 == ControllerActionView::Finish(
            Ok("MUTED"@),
        )) == contains_yes(text),
        !contains_yes(text) ==> program_resume(p, ProgramStage::AwaitMuteState, o) == (
            ProgramStage::AwaitVolume,
            ControllerActionView::Run(volume_command(p)),
        ),
{
    if !contains_yes(text) {
        assert(program_resume(p, ProgramStage::AwaitMuteState, o).1 == ControllerActionView::Run(
            volume_command(p),
        ));
    }
}

/// The command that changes the volume is a command of the controller's own program, and
/// its last argument is the requested step.
pub proof fn lemma_adjust_passes_step(p: AudioProgramType, v: Seq<char>)
    ensures
        program_start(p, AudioOperationView::AdjustVolume(v)).1 matches ControllerActionView::Run(c)
            && c.program == p && c.args.len() > 0 && c.args.last() == v,
{
}

/// With pactl: a failed first command ends any operation with that failure; the operation
/// asks for no second command.
pub proof fn lemma_pactl_first_failure(op: AudioOperationView, o1: CommandOutcomeView, rest: Seq<CommandOutcomeView>, e: AudioErrorView)
    requires
        command_result_view(o1) == Err::<Seq<char>, AudioErrorView>(e),
    ensures
        run_outcome(PactlController, op, seq![o1]) == Some(Err::<Seq<char>, AudioErrorView>(e)),
        rest.len() > 0 ==> run_outcome(PactlController, op, seq![o1] + rest) is None,
{
    reveal_with_fuel(finishes_from, 3);
    assert(seq![o1].drop_first() =~= Seq::<CommandOutcomeView>::empty());
    if rest.len() > 0 {
        assert((seq![o1] + rest)[0] == o1);
        assert((seq![o1] + rest).drop_first() =~= rest);
    }
}

/// With pactl: a volume change that succeeds is followed by the volume report, whose
/// reading is the result.
pub proof fn lemma_pactl_adjust_then_read(v: Seq<char>, o1: CommandOutcomeView, o2: CommandOutcomeView)
    requires
        command_result_view(o1) is Ok,
    ensures
        run_outcome(PactlController, AudioOperationView::AdjustVolume(v), seq![o1, o2]) == Some(reading_of(AudioProgramType::Pactl, o2)),
{
    reveal_with_fuel(finishes_from, 3);
    assert(seq![o1, o2].drop_first() =~= seq![o2]);
    assert(seq![o2].drop_first() =~= Seq::<CommandOutcomeView>::empty());
}

/// With pactl: toggling the mute state ends with `MUTED` when the mute report that follows
/// holds `yes`.
pub proof fn lemma_pactl_toggle_muted(o1: CommandOutcomeView, o2: CommandOutcomeView, text: Seq<char>)
    requires
        command_result_view(o1) is Ok,
        succeeded_with(o2, text),
        contains_yes(text),
    ensures
        run_outcome(PactlController, AudioOperationView::ToggleMute, seq![o1, o2]) == Some(Ok::<Seq<char>, AudioErrorView>("MUTED"@)),
{
    reveal_with_fuel(finishes_from, 3);
    assert(seq![o1, o2].drop_first() =~= seq![o2]);
    assert(seq![o2].drop_first() =~= Seq::<CommandOutcomeView>::empty());
}

/// With pactl: toggling the mute state when the mute report does not hold `yes` goes on to
/// the volume report and ends with its reading, never with `MUTED` on that report alone.
pub proof fn lemma_pactl_toggle_unmuted(o1: CommandOutcomeView, o2: CommandOutcomeView, o3: CommandOutcomeView, text: Seq<char>)
    requires
        command_result_view(o1) is Ok,
        succeeded_with(o2, text),
        !contains_yes(text),
    ensures
        run_outcome(PactlController, AudioOperationView::ToggleMute, seq![o1, o2]) is None,
        run_outcome(PactlController, AudioOperationView::ToggleMute, seq![o1, o2, o3]) == Some(reading_of(AudioProgramType::Pactl, o3)),
{
    reveal_with_fuel(finishes_from, 4);
    assert(seq![o1, o2, o3].drop_first() =~= seq![o2, o3]);
    assert(seq![o2, o3].drop_first() =~= seq![o3]);
    assert(seq![o1, o2].drop_first() =~= seq![o2]);
    assert(seq![o2].drop_first() =~= Seq::<CommandOutcomeView>::empty());
    assert(seq![o3].drop_first() =~= Seq::<CommandOutcomeView>::empty());
}

/// With amixer: a failed first command ends any operation with that failure; the operation
/// asks for no second command.
pub proof fn lemma_amixer_first_failure(op: AudioOperationView, o1: CommandOutcomeView, rest: Seq<CommandOutcomeView>, e: AudioErrorView)
    requires
        command_result_view(o1) == Err::<Seq<char>, AudioErrorView>(e),
    ensures
        run_outcome(AmixerController, op, seq![o1]) == Some(Err::<Seq<char>, AudioErrorView>(e)),
        rest.len() > 0 ==> run_outcome(AmixerController, op, seq![o1] + rest) is None,
{
    reveal_with_fuel(finishes_from, 3);
    assert(seq![o1].drop_first() =~= Seq::<CommandOutcomeView>::empty());
    if rest.len() > 0 {
        assert((seq![o1] + rest)[0] == o1);
        assert((seq![o1] + rest).drop_first() =~= rest);
    }
}

/// With amixer: a volume change that succeeds is followed by the volume report, whose
/// reading is the result.
pub proof fn lemma_amixer_adjust_then_read(v: Seq<char>, o1: CommandOutcomeView, o2: CommandOutcomeView)
    requires
        command_result_view(o1) is Ok,
    ensures
        run_outcome(AmixerController, AudioOperationView::AdjustVolume(v), seq![o1, o2]) == Some(reading_of(AudioProgramType::Amixer, o2)),
{
    reveal_with_fuel(finishes_from, 3);
    assert(seq![o1, o2].drop_first() =~= seq![o2]);
    assert(seq![o2].drop_first() =~= Seq::<CommandOutcomeView>::empty());
}

/// With amixer: toggling the mute state ends with `MUTED` when the mute report that follows
/// holds `yes`.
pub proof fn lemma_amixer_toggle_muted(o1: CommandOutcomeView, o2: CommandOutcomeView, text: Seq<char>)
    requires
        command_result_view(o1) is Ok,
        succeeded_with(o2, text),
        contains_yes(text),
    ensures
        run_outcome(AmixerController, AudioOperationView::ToggleMute, seq![o1, o2]) == Some(Ok::<Seq<char>, AudioErrorView>("MUTED"@)),
{
    reveal_with_fuel(finishes_from, 3);
    assert(seq![o1, o2].drop_first() =~= seq![o2]);
    assert(seq![o2].drop_first() =~= Seq::<CommandOutcomeView>::empty());
}

/// With amixer: toggling the mute state when the mute report does not hold `yes` goes on to
/// the volume report and ends with its reading, never with `MUTED` on that report alone.
pub proof fn lemma_amixer_toggle_unmuted(o1: CommandOutcomeView, o2: CommandOutcomeView, o3: CommandOutcomeView, text: Seq<char>)
    requires
        command_result_view(o1) is Ok,
        succeeded_with(o2, text),
        !contains_yes(text),
    ensures
        run_outcome(AmixerController, AudioOperationView::ToggleMute, seq![o1, o2]) is None,
        run_outcome(AmixerController, AudioOperationView::ToggleMute, seq![o1, o2, o3]) == Some(reading_of(AudioProgramType::Amixer, o3)),
{
    reveal_with_fuel(finishes_from, 4);
    assert(seq![o1, o2, o3].drop_first() =~= seq![o2, o3]);
    assert(seq![o2, o3].drop_first() =~= seq![o3]);
    assert(seq![o1, o2].drop_first() =~= seq![o2]);
    assert(seq![o2].drop_first() =~= Seq::<CommandOutcomeView>::empty());
    assert(seq![o3].drop_first() =~= Seq::<CommandOutcomeView>::empty());
}


/// The commands the controllers run. pactl changes the volume with `set-sink-volume
/// @DEFAULT_SINK@ <step>` and reports it with `get-sink-volume @DEFAULT_SINK@`; amixer changes
/// it with `Master <step>` and reports it with `get Master`; both toggle the mute state with
/// `set-sink-mute @DEFAULT_SINK@ toggle` and report it with `get-sink-mute @DEFAULT_SINK@`.
pub proof fn lemma_commands(v: Seq<char>)
    ensures
        program_start(AudioProgramType::Pactl, AudioOperationView::AdjustVolume(v)).1 == ControllerActionView::Run(
            AudioCommandView { program: AudioProgramType::Pactl, args: seq!["set-sink-volume"@, "@DEFAULT_SINK@"@, v] },
        ),
        program_start(AudioProgramType::Amixer, AudioOperationView::AdjustVolume(v)).1 == ControllerActionView::Run(
            AudioCommandView { program: AudioProgramType::Amixer, args: seq!["Master"@, v] },
        ),
        volume_command(AudioProgramType::Pactl) == (AudioCommandView {
            program: AudioProgramType::Pactl,
            args: seq!["get-sink-volume"@, "@DEFAULT_SINK@"@],
        }),
        volume_command(AudioProgramType::Amixer) == (AudioCommandView {
            program: AudioProgramType::Amixer,
            args: seq!["get"@, "Master"@],
        }),
        forall|p: AudioProgramType|
            program_start(p, AudioOperationView::ToggleMute).1 == ControllerActionView::Run(
                AudioCommandView { program: p, args: seq!["set-sink-mute"@, "@DEFAULT_SINK@"@, "toggle"@] },
            ),
        forall|p: AudioProgramType|
            program_start(p, AudioOperationView::GetCurrentVolume).1 == ControllerActionView::Run(volume_command(p)),
        forall|p: AudioProgramType, o: CommandOutcomeView|
            command_result_view(o) is Ok ==> program_resume(p, ProgramStage::AwaitToggle, o).1
                == ControllerActionView::Run(
                AudioCommandView { program: p, args: seq!["get-sink-mute"@, "@DEFAULT_SINK@"@] },
            ),
{
}

/// A volume report is read as pactl's first word ending in `%`, or amixer's bracketed volume;
/// a report without one is the error `Could not find volume percentage`.
pub proof fn lemma_volume_reading(p: AudioProgramType, text: Seq<char>)
    ensures
        p == AudioProgramType::Pactl ==> volume_reading(p, text) == match pactl_volume(text) {
            Some(v) => Ok(v),
            None => Err(AudioErrorView::ParseError("Could not find volume percentage"@)),
        },
        p == AudioProgramType::Amixer ==> volume_reading(p, text) == match amixer_volume(text) {
            Some(v) => Ok(v),
            None => Err(AudioErrorView::ParseError("Could not find volume percentage"@)),
        },
{
}

} // verus!
