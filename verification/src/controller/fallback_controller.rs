//! A controller that tries a primary controller and, when it fails, a fallback one.
use crate::controller::audio_controller::{
    finishes_from, run_outcome, AudioController, AudioError, AudioErrorView, AudioOperation,
    AudioOperationView, ControllerAction, ControllerActionView,
};
use crate::util::command_helper::{CommandOutcome, CommandOutcomeView};
use vstd::prelude::*;

verus! {

/// Asks `primary` first; when it fails, asks `fallback`, and when that fails too, reports
/// both errors.
pub struct FallbackController<B1, B2> {
    pub primary: B1,
    pub fallback: B2,
}

/// Which of the two controllers is at work, and where it stands; once the fallback is at
/// work, also the error with which the primary failed. `BothFailed` once both failed.
pub enum FallbackProgress<P1, P2> {
    Primary(P1),
    Secondary(AudioError, P2),
    BothFailed,
}

pub enum FallbackProgressView<V1, V2> {
    Primary(V1),
    Secondary(AudioErrorView, V2),
    BothFailed,
}

impl<P1: View, P2: View> View for FallbackProgress<P1, P2> {
    type V = FallbackProgressView<P1::V, P2::V>;

    open spec fn view(&self) -> FallbackProgressView<P1::V, P2::V> {
        match self {
            FallbackProgress::Primary(p) => FallbackProgressView::Primary(p@),
            FallbackProgress::Secondary(e, p) => FallbackProgressView::Secondary(e@, p@),
            FallbackProgress::BothFailed => FallbackProgressView::BothFailed,
        }
    }
}

/// The result once the primary failed with `e1` and the fallback finished with `r2`:
/// the fallback's volume, or both errors.
pub open spec fn after_failure(e1: AudioErrorView, r2: Result<Seq<char>, AudioErrorView>) -> Result<
    Seq<char>,
    AudioErrorView,
> {
    match r2 {
        Ok(v) => Ok(v),
        Err(e2) => Err(AudioErrorView::BothFailed { primary: Box::new(e1), secondary: Box::new(e2) }),
    }
}

/// The fallback's step `s2`, seen from the combined controller, once the primary failed with `e1`.
pub open spec fn after_secondary<V1, V2>(e1: AudioErrorView, s2: (V2, ControllerActionView)) -> (
    FallbackProgressView<V1, V2>,
    ControllerActionView,
) {
    match s2.1 {
        ControllerActionView::Finish(Err(e2)) => (
            FallbackProgressView::BothFailed,
            ControllerActionView::Finish(after_failure(e1, Err(e2))),
        ),
        _ => (FallbackProgressView::Secondary(e1, s2.0), s2.1),
    }
}

/// The primary's step `s1`, seen from the combined controller: a failure starts the fallback.
pub open spec fn after_primary<B2: AudioController, V1>(
    fallback: B2,
    op: AudioOperationView,
    s1: (V1, ControllerActionView),
) -> (FallbackProgressView<V1, <B2::Progress as View>::V>, ControllerActionView) {
    match s1.1 {
        ControllerActionView::Finish(Err(e1)) => after_secondary(e1, fallback.spec_start(op)),
        _ => (FallbackProgressView::Primary(s1.0), s1.1),
    }
}

pub open spec fn fallback_start_spec<B1: AudioController, B2: AudioController>(
    primary: B1,
    fallback: B2,
    op: AudioOperationView,
) -> (
    FallbackProgressView<<B1::Progress as View>::V, <B2::Progress as View>::V>,
    ControllerActionView,
) {
    after_primary(fallback, op, primary.spec_start(op))
}

pub open spec fn fallback_resume_spec<B1: AudioController, B2: AudioController>(
    primary: B1,
    fallback: B2,
    op: AudioOperationView,
    progress: FallbackProgressView<<B1::Progress as View>::V, <B2::Progress as View>::V>,
    outcome: CommandOutcomeView,
) -> (
    FallbackProgressView<<B1::Progress as View>::V, <B2::Progress as View>::V>,
    ControllerActionView,
) {
    match progress {
        FallbackProgressView::Primary(p1) => after_primary(
            fallback,
            op,
            primary.spec_resume(op, p1, outcome),
        ),
        FallbackProgressView::Secondary(e1, p2) => after_secondary(
            e1,
            fallback.spec_resume(op, p2, outcome),
        ),
        FallbackProgressView::BothFailed => (
            FallbackProgressView::BothFailed,
            ControllerActionView::Finish(Err(AudioErrorView::BackendUnavailable)),
        ),
    }
}

fn fallback_after_secondary<P1: View, P2: View>(e1: AudioError, s2: (P2, ControllerAction)) -> (r: (
    FallbackProgress<P1, P2>,
    ControllerAction,
))
    ensures
        (r.0@, r.1@) == after_secondary::<P1::V, P2::V>(e1@, (s2.0@, s2.1@)),
{
    let (p2, a2) = s2;
    match a2 {
        ControllerAction::Run(c) => (FallbackProgress::Secondary(e1, p2), ControllerAction::Run(c)),
        ControllerAction::Finish(Ok(v)) => (
            FallbackProgress::Secondary(e1, p2),
            ControllerAction::Finish(Ok(v)),
        ),
        ControllerAction::Finish(Err(e2)) => {
            let both = AudioError::BothFailed { primary: Box::new(e1), secondary: Box::new(e2) };
            (FallbackProgress::BothFailed, ControllerAction::Finish(Err(both)))
        },
    }
}

/// The combined controller's first action: the primary's, or, should the primary fail at
/// once, the fallback's.
pub fn fallback_start<B1: AudioController, B2: AudioController>(
    primary: &B1,
    fallback: &B2,
    op: &AudioOperation,
) -> (r: (FallbackProgress<B1::Progress, B2::Progress>, ControllerAction))
    ensures
        (r.0@, r.1@) == fallback_start_spec(*primary, *fallback, op@),
{
    let s1 = primary.start(op);
    fallback_after_primary(fallback, op, s1)
}

/// The combined controller's next action after a finished command. Once both controllers
/// have failed the operation is over, and a further command outcome is answered with
/// `BackendUnavailable`.
pub fn fallback_resume<B1: AudioController, B2: AudioController>(
    primary: &B1,
    fallback: &B2,
    op: &AudioOperation,
    progress: FallbackProgress<B1::Progress, B2::Progress>,
    outcome: CommandOutcome,
) -> (r: (FallbackProgress<B1::Progress, B2::Progress>, ControllerAction))
    ensures
        (r.0@, r.1@) == fallback_resume_spec(*primary, *fallback, op@, progress@, outcome@),
{
    match progress {
        FallbackProgress::Primary(p1) => {
            let s1 = primary.resume(op, p1, outcome);
            fallback_after_primary(fallback, op, s1)
        },
        FallbackProgress::Secondary(e1, p2) => {
            let s2 = fallback.resume(op, p2, outcome);
            fallback_after_secondary(e1, s2)
        },
        FallbackProgress::BothFailed => (
            FallbackProgress::BothFailed,
            ControllerAction::Finish(Err(AudioError::BackendUnavailable)),
        ),
    }
}

fn fallback_after_primary<B2: AudioController, P1: View>(
    fallback: &B2,
    op: &AudioOperation,
    s1: (P1, ControllerAction),
) -> (r: (FallbackProgress<P1, B2::Progress>, ControllerAction))
    ensures
        (r.0@, r.1@) == after_primary(*fallback, op@, (s1.0@, s1.1@)),
{
    let (p1, a1) = s1;
    match a1 {
        ControllerAction::Finish(Err(e1)) => {
            let s2 = fallback.start(op);
            fallback_after_secondary(e1, s2)
        },
        ControllerAction::Finish(Ok(v)) => (
            FallbackProgress::Primary(p1),
            ControllerAction::Finish(Ok(v)),
        ),
        ControllerAction::Run(c) => (FallbackProgress::Primary(p1), ControllerAction::Run(c)),
    }
}

impl<B1: AudioController, B2: AudioController> AudioController for FallbackController<B1, B2> {
    type Progress = FallbackProgress<B1::Progress, B2::Progress>;

    open spec fn spec_start(&self, op: AudioOperationView) -> (
        FallbackProgressView<<B1::Progress as View>::V, <B2::Progress as View>::V>,
        ControllerActionView,
    ) {
        fallback_start_spec(self.primary, self.fallback, op)
    }

    open spec fn spec_resume(
        &self,
        op: AudioOperationView,
        progress: FallbackProgressView<<B1::Progress as View>::V, <B2::Progress as View>::V>,
        outcome: CommandOutcomeView,
    ) -> (
        FallbackProgressView<<B1::Progress as View>::V, <B2::Progress as View>::V>,
        ControllerActionView,
    ) {
        fallback_resume_spec(self.primary, self.fallback, op, progress, outcome)
    }

    fn start(&self, op: &AudioOperation) -> (r: (Self::Progress, ControllerAction)) {
        fallback_start(&self.primary, &self.fallback, op)
    }

    fn resume(&self, op: &AudioOperation, progress: Self::Progress, outcome: CommandOutcome) -> (r: (
        Self::Progress,
        ControllerAction,
    )) {
        fallback_resume(&self.primary, &self.fallback, op, progress, outcome)
    }
}

proof fn lemma_secondary_run<B1: AudioController, B2: AudioController>(
    ctl: FallbackController<B1, B2>,
    op: AudioOperationView,
    e1: AudioErrorView,
    s2: (<B2::Progress as View>::V, ControllerActionView),
    outcomes: Seq<CommandOutcomeView>,
)
    ensures
        finishes_from(ctl, op, after_secondary::<<B1::Progress as View>::V, _>(e1, s2), outcomes)
            == match finishes_from(ctl.fallback, op, s2, outcomes) {
            Some(r2) => Some(after_failure(e1, r2)),
            None => None,
        },
    decreases outcomes.len(),
{
    if outcomes.len() > 0 {
        if let ControllerActionView::Run(_) = s2.1 {
            let next = ctl.fallback.spec_resume(op, s2.0, outcomes[0]);
            lemma_secondary_run(ctl, op, e1, next, outcomes.drop_first());
        }
    }
}

proof fn lemma_primary_run_ok<B1: AudioController, B2: AudioController>(
    ctl: FallbackController<B1, B2>,
    op: AudioOperationView,
    s1: (<B1::Progress as View>::V, ControllerActionView),
    outcomes: Seq<CommandOutcomeView>,
    v: Seq<char>,
)
    requires
        finishes_from(ctl.primary, op, s1, outcomes) == Some(Ok::<Seq<char>, AudioErrorView>(v)),
    ensures
        finishes_from(ctl, op, after_primary(ctl.fallback, op, s1), outcomes) == Some(
            Ok::<Seq<char>, AudioErrorView>(v),
        ),
    decreases outcomes.len(),
{
    if outcomes.len() > 0 {
        let next = ctl.primary.spec_resume(op, s1.0, outcomes[0]);
        lemma_primary_run_ok(ctl, op, next, outcomes.drop_first(), v);
    }
}

proof fn lemma_primary_run_err<B1: AudioController, B2: AudioController>(
    ctl: FallbackController<B1, B2>,
    op: AudioOperationView,
    s1: (<B1::Progress as View>::V, ControllerActionView),
    outcomes1: Seq<CommandOutcomeView>,
    outcomes2: Seq<CommandOutcomeView>,
    e1: AudioErrorView,
    r2: Result<Seq<char>, AudioErrorView>,
)
    requires
        finishes_from(ctl.primary, op, s1, outcomes1) == Some(Err::<Seq<char>, AudioErrorView>(e1)),
        run_outcome(ctl.fallback, op, outcomes2) == Some(r2),
    ensures
        finishes_from(ctl, op, after_primary(ctl.fallback, op, s1), outcomes1 + outcomes2) == Some(
            after_failure(e1, r2),
        ),
    decreases outcomes1.len(),
{
    if outcomes1.len() == 0 {
        assert(outcomes1 + outcomes2 =~= outcomes2);
        lemma_secondary_run(ctl, op, e1, ctl.fallback.spec_start(op), outcomes2);
    } else {
        let next = ctl.primary.spec_resume(op, s1.0, outcomes1[0]);
        assert((outcomes1 + outcomes2)[0] == outcomes1[0]);
        assert((outcomes1 + outcomes2).drop_first() =~= outcomes1.drop_first() + outcomes2);
        lemma_primary_run_err(ctl, op, next, outcomes1.drop_first(), outcomes2, e1, r2);
    }
}

/// When the primary controller carries out an operation successfully, the fallback
/// controller is never asked: the combined controller runs the same commands and reports
/// the same volume.
pub proof fn lemma_primary_success_stands<B1: AudioController, B2: AudioController>(
    ctl: FallbackController<B1, B2>,
    op: AudioOperationView,
    outcomes: Seq<CommandOutcomeView>,
    v: Seq<char>,
)
    requires
        run_outcome(ctl.primary, op, outcomes) == Some(Ok::<Seq<char>, AudioErrorView>(v)),
    ensures
        run_outcome(ctl, op, outcomes) == Some(Ok::<Seq<char>, AudioErrorView>(v)),
{
    lemma_primary_run_ok(ctl, op, ctl.primary.spec_start(op), outcomes, v);
}

/// When the primary controller fails an operation with `e1`, the combined controller goes
/// on with the fallback's commands and reports the fallback's volume, or, when the fallback
/// fails too, both errors.
pub proof fn lemma_fallback_after_primary_failure<B1: AudioController, B2: AudioController>(
    ctl: FallbackController<B1, B2>,
    op: AudioOperationView,
    outcomes1: Seq<CommandOutcomeView>,
    outcomes2: Seq<CommandOutcomeView>,
    e1: AudioErrorView,
    r2: Result<Seq<char>, AudioErrorView>,
)
    requires
        run_outcome(ctl.primary, op, outcomes1) == Some(Err::<Seq<char>, AudioErrorView>(e1)),
        run_outcome(ctl.fallback, op, outcomes2) == Some(r2),
    ensures
        run_outcome(ctl, op, outcomes1 + outcomes2) == Some(after_failure(e1, r2)),
{
    lemma_primary_run_err(ctl, op, ctl.primary.spec_start(op), outcomes1, outcomes2, e1, r2);
}

} // verus!
