//! The controller that does its work with `pactl`.
use crate::controller::audio_controller::{
    AudioController, AudioOperation, AudioOperationView, ControllerAction, ControllerActionView,
};
use crate::controller::program_controller::{
    program_resume, program_resume_for, program_start, program_start_for, ProgramStage,
};
use crate::util::command_helper::{AudioProgramType, CommandOutcome, CommandOutcomeView};
use vstd::prelude::*;

verus! {

/// Changes and reports the volume with pactl (PulseAudio).
pub struct PactlController;

impl AudioController for PactlController {
    type Progress = ProgramStage;

    open spec fn spec_start(&self, op: AudioOperationView) -> (ProgramStage, ControllerActionView) {
        program_start(AudioProgramType::Pactl, op)
    }

    open spec fn spec_resume(
        &self,
        op: AudioOperationView,
        progress: ProgramStage,
        outcome: CommandOutcomeView,
    ) -> (ProgramStage, ControllerActionView) {
        program_resume(AudioProgramType::Pactl, progress, outcome)
    }

    fn start(&self, op: &AudioOperation) -> (r: (ProgramStage, ControllerAction)) {
        program_start_for(AudioProgramType::Pactl, op)
    }

    fn resume(&self, op: &AudioOperation, progress: ProgramStage, outcome: CommandOutcome) -> (r: (
        ProgramStage,
        ControllerAction,
    )) {
        program_resume_for(AudioProgramType::Pactl, progress, outcome)
    }
}

} // verus!
