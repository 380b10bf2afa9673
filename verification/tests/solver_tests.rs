use fir_lowpass::errors::DesignError;
use fir_lowpass::solver::SolveStatus;
use fir_lowpass::solver::StepDecision;
use fir_lowpass::solver::certify_outcome;
use fir_lowpass::solver::step_decision;

#[test]
fn converged_residuals_finish_the_run() {
    let d = step_decision(0, 1000, true, true);
    assert_eq!(d, StepDecision::Finish(SolveStatus::Converged));
    let late = step_decision(999, 1000, true, true);
    assert_eq!(late, StepDecision::Finish(SolveStatus::Converged));
}

#[test]
fn one_unconverged_residual_keeps_running() {
    assert_eq!(step_decision(0, 1000, true, false), StepDecision::Proceed);
    assert_eq!(step_decision(5, 1000, false, true), StepDecision::Proceed);
    assert_eq!(step_decision(998, 1000, false, false), StepDecision::Proceed);
}

#[test]
fn iteration_cap_exhausts_the_run() {
    let d = step_decision(999, 1000, false, true);
    assert_eq!(d, StepDecision::Finish(SolveStatus::Exhausted));
    let tiny = step_decision(0, 1, false, false);
    assert_eq!(tiny, StepDecision::Finish(SolveStatus::Exhausted));
}

#[test]
fn exhausted_runs_report_nonconvergence() {
    assert_eq!(certify_outcome(SolveStatus::Converged), Ok(()));
    assert_eq!(
        certify_outcome(SolveStatus::Exhausted),
        Err(DesignError::NonConvergence)
    );
}
