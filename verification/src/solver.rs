use vstd::prelude::*;

use crate::errors::DesignError;

verus! {

/// How a feasibility run ended: both residual norms fell below the
/// tolerance, or the iteration cap was reached first.
#[derive(Clone, Copy, Debug, PartialEq, Eq, Structural)]
pub enum SolveStatus {
    Converged,
    Exhausted,
}

/// What the iteration does after one primal-dual update: take another step,
/// or finish with the given status.
#[derive(Clone, Copy, Debug, PartialEq, Eq, Structural)]
pub enum StepDecision {
    Proceed,
    Finish(SolveStatus),
}

/// The decision taken after the update of iteration number `completed`
/// (zero-based): convergence of both residuals ends the run successfully;
/// otherwise the run proceeds until the cap is reached, at which point it
/// ends exhausted.
pub open spec fn step_decision_spec(
    completed: int,
    max_iter: int,
    primal_ok: bool,
    dual_ok: bool,
) -> StepDecision {
    if primal_ok && dual_ok {
        StepDecision::Finish(SolveStatus::Converged)
    } else if completed + 1 < max_iter {
        StepDecision::Proceed
    } else {
        StepDecision::Finish(SolveStatus::Exhausted)
    }
}

/// Decides how the iteration continues after the update of iteration number
/// `completed`, given whether the primal and dual residual norms are below
/// the tolerance.
pub fn step_decision(completed: usize, max_iter: usize, primal_ok: bool, dual_ok: bool) -> (d:
    StepDecision)
    requires
        completed < max_iter,
    ensures
        d == step_decision_spec(completed as int, max_iter as int, primal_ok, dual_ok),
{
    if primal_ok && dual_ok {
        StepDecision::Finish(SolveStatus::Converged)
    } else if completed + 1 < max_iter {
        StepDecision::Proceed
    } else {
        StepDecision::Finish(SolveStatus::Exhausted)
    }
}

/// The iteration-cap law: once the next step would reach the cap, the
/// decision is never to proceed, whatever the residuals say — so a run that
/// consults the decision after every update performs at most `max_iter`
/// updates before it finishes, converged or exhausted.
pub proof fn lemma_cap_forces_finish(
    completed: int,
    max_iter: int,
    primal_ok: bool,
    dual_ok: bool,
)
    requires
        completed + 1 >= max_iter,
    ensures
        step_decision_spec(completed, max_iter, primal_ok, dual_ok) is Finish,
{
}

/// The convergence law: when both residual norms are below the tolerance,
/// the decision is to finish converged, regardless of how many iterations
/// remain.
pub proof fn lemma_convergence_finishes(
    completed: int,
    max_iter: int,
)
    ensures
        step_decision_spec(completed, max_iter, true, true) == StepDecision::Finish(
            SolveStatus::Converged,
        ),
{
}

/// Certifies the outcome of a run: a converged run validates its
/// coefficient vector, while an exhausted run reports `NonConvergence` so
/// the caller cannot mistake the returned vector for a certified feasible
/// point.
pub fn certify_outcome(status: SolveStatus) -> (r: Result<(), DesignError>)
    ensures
        r is Ok <==> status == SolveStatus::Converged,
        status == SolveStatus::Exhausted ==> (r matches Err(e) && e
            == DesignError::NonConvergence),
{
    match status {
        SolveStatus::Converged => Ok(()),
        SolveStatus::Exhausted => Err(DesignError::NonConvergence),
    }
}

} // verus!
