//! The deployment pipeline: a repository sync, then a site build, each an
//! outside process. The caller runs each step that the pipeline asks for and
//! reports how it ended; the pipeline decides what comes next.

use vstd::prelude::*;

verus! {

/// A step of the pipeline.
#[derive(Debug, Clone, Copy, PartialEq, Eq, Structural)]
pub enum Step {
    /// Bring the working copy up to date (`git pull`).
    Sync,
    /// Regenerate the site from its sources (`hugo`).
    Build,
}

/// How a step ended.
#[derive(Debug, Clone, Copy, PartialEq, Eq, Structural)]
pub enum StepOutcome {
    /// The process could not be started.
    NotLaunched,
    /// The process ran and exited with a failure status.
    Failed,
    /// The process ran and exited with success.
    Succeeded,
}

/// Why a pipeline stopped short.
#[derive(Debug, Clone, Copy, PartialEq, Eq, Structural)]
pub enum PipelineError {
    /// The step's process could not be started.
    Launch(Step),
    /// The step's process exited with a failure status.
    Exit(Step),
}

/// What the pipeline asks of its caller next.
#[derive(Debug, Clone, Copy, PartialEq, Eq)]
pub enum Action {
    /// Run this step and report how it ended.
    Run(Step),
    /// The pipeline is over, with this result.
    Finish(Result<(), PipelineError>),
}

/// The step at a position of the pipeline.
pub open spec fn step_at(i: int) -> Step {
    if i == 0 {
        Step::Sync
    } else {
        Step::Build
    }
}

/// A history that a run can reach: at most the two steps, and only the last
/// of them may have gone wrong.
pub open spec fn valid_history(h: Seq<StepOutcome>) -> bool {
    &&& h.len() <= 2
    &&& forall|i: int| 0 <= i < h.len() - 1 ==> h[i] == StepOutcome::Succeeded
}

/// The error for a step that went wrong.
pub open spec fn error_of(step: Step, outcome: StepOutcome) -> PipelineError {
    if outcome == StepOutcome::NotLaunched {
        PipelineError::Launch(step)
    } else {
        PipelineError::Exit(step)
    }
}

/// What comes after the steps that ended as `h`: the sync first, the build
/// only after a successful sync, and the end at the first step that went
/// wrong or after a successful build.
pub open spec fn action_after(h: Seq<StepOutcome>) -> Action {
    if h.len() == 0 {
        Action::Run(Step::Sync)
    } else if h.last() != StepOutcome::Succeeded {
        Action::Finish(Err(error_of(step_at(h.len() - 1), h.last())))
    } else if h.len() == 1 {
        Action::Run(Step::Build)
    } else {
        Action::Finish(Ok(()))
    }
}

/// A step that was run, how it ended, and what it printed.
#[derive(Debug, Clone)]
pub struct StepReport {
    pub step: Step,
    pub outcome: StepOutcome,
    pub output: Vec<u8>,
}

/// One run of the pipeline for one delivery.
pub struct PipelineRun {
    reports: Vec<StepReport>,
}

impl View for PipelineRun {
    type V = Seq<StepOutcome>;

    /// How each step that was run ended, in order.
    closed spec fn view(&self) -> Seq<StepOutcome> {
        Seq::new(self.reports@.len(), |i: int| self.reports@[i].outcome)
    }
}

impl PipelineRun {
    /// What each step that was run printed, in order.
    pub closed spec fn outputs(&self) -> Seq<Seq<u8>> {
        Seq::new(self.reports@.len(), |i: int| self.reports@[i].output@)
    }

    pub closed spec fn wf(&self) -> bool {
        &&& valid_history(self@)
        &&& forall|i: int| 0 <= i < self.reports@.len() ==> #[trigger] self.reports@[i].step
            == step_at(i)
    }

    /// A run in which no step has been run yet.
    pub fn new() -> (r: PipelineRun)
        ensures
            r.wf(),
            r@ == Seq::<StepOutcome>::empty(),
            r.outputs() == Seq::<Seq<u8>>::empty(),
    {
        let r = PipelineRun { reports: Vec::new() };
        assert(r@ =~= Seq::<StepOutcome>::empty());
        assert(r.outputs() =~= Seq::<Seq<u8>>::empty());
        r
    }

    /// What the caller is to do next.
    pub fn next_action(&self) -> (r: Action)
        requires
            self.wf(),
        ensures
            r == action_after(self@),
    {
        let n = self.reports.len();
        if n == 0 {
            return Action::Run(Step::Sync);
        }
        let last = &self.reports[n - 1];
        match last.outcome {
            StepOutcome::NotLaunched => Action::Finish(Err(PipelineError::Launch(last.step))),
            StepOutcome::Failed => Action::Finish(Err(PipelineError::Exit(last.step))),
            StepOutcome::Succeeded => {
                if n == 1 {
                    Action::Run(Step::Build)
                } else {
                    Action::Finish(Ok(()))
                }
            },
        }
    }

    /// Records how the step that the run asked for ended, with what it printed.
    pub fn record(&mut self, outcome: StepOutcome, output: Vec<u8>)
        requires
            old(self).wf(),
            action_after(old(self)@) is Run,
        ensures
            final(self).wf(),
            final(self)@ == old(self)@.push(outcome),
            final(self).outputs() == old(self).outputs().push(output@),
    {
        let ghost before = self.outputs();
        let ghost output_view = output@;
        let step = if self.reports.len() == 0 {
            Step::Sync
        } else {
            Step::Build
        };
        self.reports.push(StepReport { step, outcome, output });
        assert(self@ =~= old(self)@.push(outcome));
        assert(self.outputs() =~= before.push(output_view));
    }

    /// The number of steps run so far.
    pub fn steps_run(&self) -> (r: usize)
        ensures
            r == self@.len(),
    {
        self.reports.len()
    }

    /// What step `i` of the run printed.
    pub fn output(&self, i: usize) -> (r: &Vec<u8>)
        requires
            i < self@.len(),
        ensures
            r@ == self.outputs()[i as int],
    {
        &self.reports[i].output
    }

    /// The result of the run once it is over, `None` while a step is still owed.
    pub fn result(&self) -> (r: Option<Result<(), PipelineError>>)
        requires
            self.wf(),
        ensures
            match action_after(self@) {
                Action::Run(_) => r is None,
                Action::Finish(res) => r == Some(res),
            },
    {
        match self.next_action() {
            Action::Run(_) => None,
            Action::Finish(res) => Some(res),
        }
    }
}

} // verus!
