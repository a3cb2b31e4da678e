//! The fallback combination as a backend: the same combination under a second name.
use crate::controller::audio_controller::{
    finishes_from, run_outcome, AudioController, AudioErrorView, AudioOperation, AudioOperationView, ControllerAction, ControllerActionView,
};
use crate::controller::fallback_controller::{
    after_failure, lemma_fallback_after_primary_failure, lemma_primary_success_stands,
    FallbackController, fallback_resume, fallback_resume_spec, fallback_start, fallback_start_spec, FallbackProgress,
    FallbackProgressView,
};
use crate::util::command_helper::{CommandOutcome, CommandOutcomeView};
use vstd::prelude::*;

verus! {

/// Asks `primary` first; when it fails, asks `fallback`, and when that fails too, reports
/// both errors. It acts step for step as `FallbackController` does.
pub struct FallbackBackend<B1, B2> {
    pub primary: B1,
    pub fallback: B2,
}

impl<B1: AudioController, B2: AudioController> AudioController for FallbackBackend<B1, B2> {
    type Progress = FallbackProgress<B1::Progress, B2::Progress>;

    open spec fn spec_start(&self, op: AudioOperationView) -> (
        FallbackProgressView<<B1::Progress as View>::V, <B2::Progress as View>::V>,
        ControllerActionView,
    ) {
        fallback_start_spec(self.primary, self.fallback, op)
    }

    open spec fn spec_resume(
        &self,
        op: AudioOperationView,
        progress: FallbackProgressView<<B1::Progress as View>::V, <B2::Progress as View>::V>,
        outcome: CommandOutcomeView,
    ) -> (
        FallbackProgressView<<B1::Progress as View>::V, <B2::Progress as View>::V>,
        ControllerActionView,
    ) {
        fallback_resume_spec(self.primary, self.fallback, op, progress, outcome)
    }

    fn start(&self, op: &AudioOperation) -> (r: (Self::Progress, ControllerAction)) {
        fallback_start(&self.primary, &self.fallback, op)
    }

    fn resume(&self, op: &AudioOperation, progress: Self::Progress, outcome: CommandOutcome) -> (r: (
        Self::Progress,
        ControllerAction,
    )) {
        fallback_resume(&self.primary, &self.fallback, op, progress, outcome)
    }
}

proof fn lemma_runs_as_controller<B1: AudioController, B2: AudioController>(
    backend: FallbackBackend<B1, B2>,
    op: AudioOperationView,
    state: (
        FallbackProgressView<<B1::Progress as View>::V, <B2::Progress as View>::V>,
        ControllerActionView,
    ),
    outcomes: Seq<CommandOutcomeView>,
)
    ensures
        finishes_from(backend, op, state, outcomes) == finishes_from(
            FallbackController { primary: backend.primary, fallback: backend.fallback },
            op,
            state,
            outcomes,
        ),
    decreases outcomes.len(),
{
    if outcomes.len() > 0 {
        let next = backend.spec_resume(op, state.0, outcomes[0]);
        lemma_runs_as_controller(backend, op, next, outcomes.drop_first());
    }
}

/// When the primary carries out an operation successfully, the combination runs the same
/// commands and reports the same volume.
pub proof fn lemma_backend_primary_success_stands<B1: AudioController, B2: AudioController>(
    backend: FallbackBackend<B1, B2>,
    op: AudioOperationView,
    outcomes: Seq<CommandOutcomeView>,
    v: Seq<char>,
)
    requires
        run_outcome(backend.primary, op, outcomes) == Some(Ok::<Seq<char>, AudioErrorView>(v)),
    ensures
        run_outcome(backend, op, outcomes) == Some(Ok::<Seq<char>, AudioErrorView>(v)),
{
    let ctl = FallbackController { primary: backend.primary, fallback: backend.fallback };
    lemma_primary_success_stands(ctl, op, outcomes, v);
    lemma_runs_as_controller(backend, op, backend.spec_start(op), outcomes);
}

/// When the primary fails an operation with `e1`, the combination goes on with the
/// fallback's commands and reports the fallback's volume, or both errors.
pub proof fn lemma_backend_fallback_after_primary_failure<B1: AudioController, B2: AudioController>(
    backend: FallbackBackend<B1, B2>,
    op: AudioOperationView,
    outcomes1: Seq<CommandOutcomeView>,
    outcomes2: Seq<CommandOutcomeView>,
    e1: AudioErrorView,
    r2: Result<Seq<char>, AudioErrorView>,
)
    requires
        run_outcome(backend.primary, op, outcomes1) == Some(Err::<Seq<char>, AudioErrorView>(e1)),
        run_outcome(backend.fallback, op, outcomes2) == Some(r2),
    ensures
        run_outcome(backend, op, outcomes1 + outcomes2) == Some(after_failure(e1, r2)),
{
    let ctl = FallbackController { primary: backend.primary, fallback: backend.fallback };
    lemma_fallback_after_primary_failure(ctl, op, outcomes1, outcomes2, e1, r2);
    lemma_runs_as_controller(backend, op, backend.spec_start(op), outcomes1 + outcomes2);
}

} // verus!
