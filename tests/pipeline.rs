use hook_deploy::{Action, PipelineError, PipelineRun, Step, StepOutcome};

/// Drives a run with a fake executor that ends each step as `outcomes`
/// says, and returns the run and the steps that were asked for.
fn drive(outcomes: &[StepOutcome]) -> (PipelineRun, Vec<Step>) {
    let mut run = PipelineRun::new();
    let mut asked = Vec::new();
    let mut next = outcomes.iter();
    while let Action::Run(step) = run.next_action() {
        asked.push(step);
        let outcome = *next.next().expect("the run asked for more steps than expected");
        run.record(outcome, format!("output of {:?}", step).into_bytes());
    }
    (run, asked)
}

#[test]
fn new_run_asks_for_sync_first() {
    let run = PipelineRun::new();
    assert_eq!(run.next_action(), Action::Run(Step::Sync));
    assert_eq!(run.result(), None);
    assert_eq!(run.steps_run(), 0);
}

#[test]
fn sync_failure_never_runs_build() {
    let (run, asked) = drive(&[StepOutcome::Failed]);
    assert_eq!(asked, vec![Step::Sync]);
    assert_eq!(run.result(), Some(Err(PipelineError::Exit(Step::Sync))));
    assert_eq!(run.steps_run(), 1);
}

#[test]
fn sync_launch_failure_never_runs_build() {
    let (run, asked) = drive(&[StepOutcome::NotLaunched]);
    assert_eq!(asked, vec![Step::Sync]);
    assert_eq!(run.result(), Some(Err(PipelineError::Launch(Step::Sync))));
}

#[test]
fn build_failure_after_sync_keeps_both_outputs() {
    let (run, asked) = drive(&[StepOutcome::Succeeded, StepOutcome::Failed]);
    assert_eq!(asked, vec![Step::Sync, Step::Build]);
    assert_eq!(run.result(), Some(Err(PipelineError::Exit(Step::Build))));
    assert_eq!(run.steps_run(), 2);
    assert_eq!(run.output(0), &b"output of Sync".to_vec());
    assert_eq!(run.output(1), &b"output of Build".to_vec());
}

#[test]
fn build_launch_failure_is_reported() {
    let (run, _) = drive(&[StepOutcome::Succeeded, StepOutcome::NotLaunched]);
    assert_eq!(run.result(), Some(Err(PipelineError::Launch(Step::Build))));
}

#[test]
fn both_steps_succeeding_finish_the_run() {
    let (run, asked) = drive(&[StepOutcome::Succeeded, StepOutcome::Succeeded]);
    assert_eq!(asked, vec![Step::Sync, Step::Build]);
    assert_eq!(run.next_action(), Action::Finish(Ok(())));
    assert_eq!(run.result(), Some(Ok(())));
}

#[test]
fn run_after_sync_asks_for_build() {
    let mut run = PipelineRun::new();
    run.record(StepOutcome::Succeeded, Vec::new());
    assert_eq!(run.next_action(), Action::Run(Step::Build));
    assert_eq!(run.result(), None);
    assert!(run.output(0).is_empty());
}
