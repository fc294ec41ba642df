//! Side-effect-free simulation rules: trigger acceptance under run-mode and
//! self-trigger policies, execution budgets, and failure policies.

use vstd::prelude::*;

use crate::automation_evaluator::AutomationEvaluationError;
use crate::automation_events::AutomationSelfTriggerPolicy;
use crate::automation_runtime::{AutomationPlanFailurePolicy, AutomationRunMode};

verus! {

/// Terminal simulator outcome.
#[derive(Clone, Copy, Debug, PartialEq, Eq, Structural)]
pub enum AutomationSimulationStatus {
    /// Plan reached `Complete`.
    Completed,
    /// Trigger was intentionally suppressed by run/self-trigger rules.
    Suppressed,
    /// Schedule occurrence expired and was recorded as skipped.
    MissedSkipped,
    /// Explicit failure policy stopped the run.
    Failed,
}

/// Deterministic simulation contract failure.
#[derive(Clone, Copy, Debug, PartialEq, Eq)]
pub enum AutomationSimulationError {
    /// Plan graph referenced an unknown node.
    MissingNode(u32),
    /// Fixture or plan required an unavailable typed value.
    MissingValue(&'static str),
    /// Typed expression operands were invalid despite compilation.
    TypeMismatch,
    /// Plan exceeded a compiler-owned execution budget.
    BudgetExceeded,
    /// Schedule or timezone contract was invalid.
    InvalidSchedule,
    /// Canonical trace hashing failed.
    TraceHash,
}

/// Side-effect-free simulator: it accepts data only; no command dispatcher or
/// integration adapter can be supplied.
#[derive(Clone, Copy, Debug, Default)]
pub struct AutomationSimulator;

/// The simulation failure reported for an evaluation failure.
pub open spec fn simulation_error_of(error: AutomationEvaluationError) -> AutomationSimulationError {
    match error {
        AutomationEvaluationError::MissingValue(value) => AutomationSimulationError::MissingValue(value),
        AutomationEvaluationError::TypeMismatch => AutomationSimulationError::TypeMismatch,
        AutomationEvaluationError::InvalidTimeWindow => AutomationSimulationError::InvalidSchedule,
        _ => AutomationSimulationError::TypeMismatch,
    }
}

/// Maps an evaluation failure to the simulation failure it is reported as.
pub fn map_evaluation_error(error: AutomationEvaluationError) -> (e: AutomationSimulationError)
    ensures
        e == simulation_error_of(error),
{
    match error {
        AutomationEvaluationError::MissingValue(value) => AutomationSimulationError::MissingValue(value),
        AutomationEvaluationError::TypeMismatch => AutomationSimulationError::TypeMismatch,
        AutomationEvaluationError::InvalidTimeWindow => AutomationSimulationError::InvalidSchedule,
        AutomationEvaluationError::DurableDurationRequired
        | AutomationEvaluationError::ConditionHash
        | AutomationEvaluationError::DurationOverflow
        | AutomationEvaluationError::DurationTimerMissing => AutomationSimulationError::TypeMismatch,
    }
}

/// Synthetic trigger facts that decide acceptance.
#[derive(Clone, Copy, Debug, PartialEq, Eq, Structural)]
pub struct SimulationTriggerFacts {
    /// Whether the synthetic trigger matches one of the plan's triggers.
    pub matches: bool,
    /// Instant at which the simulation accepts the occurrence.
    pub accepted_at: i64,
    /// End of the normal acceptance window.
    pub window_ends_at: i64,
    /// Explicit user-requested catch-up.
    pub explicit_catch_up: bool,
    /// Active runs of this exact version before this trigger.
    pub active_runs: u16,
    /// Already queued triggers before this trigger.
    pub queued_triggers: u32,
    /// Version that caused the trigger, when automation-generated.
    pub caused_by_version: Option<u32>,
    /// Whether the trigger belongs to the current correlation chain.
    pub same_correlation: bool,
}

/// Why a trigger was not accepted.
#[derive(Clone, Copy, Debug, PartialEq, Eq, Structural)]
pub enum TriggerRejection {
    NotMatched,
    MissedSkipped,
    Suppressed,
}

/// Whether the self-trigger policy suppresses the trigger.
pub open spec fn self_trigger_suppresses(policy: AutomationSelfTriggerPolicy, version: u32, trigger: SimulationTriggerFacts) -> bool {
    match policy {
        AutomationSelfTriggerPolicy::SuppressSameVersion => trigger.caused_by_version == Some(version),
        AutomationSelfTriggerPolicy::SuppressSameCorrelation => trigger.same_correlation,
        AutomationSelfTriggerPolicy::Allow => false,
    }
}

/// Whether the run mode's capacity rule suppresses the trigger.
pub open spec fn run_mode_suppresses(mode: AutomationRunMode, trigger: SimulationTriggerFacts) -> bool {
    match mode {
        AutomationRunMode::Single => trigger.active_runs > 0,
        AutomationRunMode::Restart => false,
        AutomationRunMode::Queued { capacity } => trigger.queued_triggers >= capacity,
        AutomationRunMode::Parallel { maximum_parallel } => trigger.active_runs >= maximum_parallel,
    }
}

/// The acceptance decision: unmatched triggers are suppressed, expired ones are
/// skipped unless catch-up was requested explicitly, and self-trigger or
/// capacity rules suppress the rest.
pub open spec fn trigger_decision(
    mode: AutomationRunMode,
    policy: AutomationSelfTriggerPolicy,
    version: u32,
    trigger: SimulationTriggerFacts,
) -> Option<TriggerRejection> {
    if !trigger.matches {
        Some(TriggerRejection::NotMatched)
    } else if trigger.accepted_at > trigger.window_ends_at && !trigger.explicit_catch_up {
        Some(TriggerRejection::MissedSkipped)
    } else if self_trigger_suppresses(policy, version, trigger) || run_mode_suppresses(mode, trigger) {
        Some(TriggerRejection::Suppressed)
    } else {
        None
    }
}

/// Decides whether a synthetic trigger starts a run.
pub fn accept_trigger(
    mode: AutomationRunMode,
    policy: AutomationSelfTriggerPolicy,
    version: u32,
    trigger: SimulationTriggerFacts,
) -> (r: Option<TriggerRejection>)
    ensures
        r == trigger_decision(mode, policy, version, trigger),
{
    if !trigger.matches {
        return Some(TriggerRejection::NotMatched);
    }
    if trigger.accepted_at > trigger.window_ends_at && !trigger.explicit_catch_up {
        return Some(TriggerRejection::MissedSkipped);
    }
    let self_suppressed = match policy {
        AutomationSelfTriggerPolicy::SuppressSameVersion => trigger.caused_by_version == Some(version),
        AutomationSelfTriggerPolicy::SuppressSameCorrelation => trigger.same_correlation,
        AutomationSelfTriggerPolicy::Allow => false,
    };
    let run_suppressed = match mode {
        AutomationRunMode::Single => trigger.active_runs > 0,
        AutomationRunMode::Restart => false,
        AutomationRunMode::Queued { capacity } => trigger.queued_triggers >= capacity as u32,
        AutomationRunMode::Parallel { maximum_parallel } => trigger.active_runs >= maximum_parallel,
    };
    if self_suppressed || run_suppressed {
        return Some(TriggerRejection::Suppressed);
    }
    None
}

/// The status a rejected trigger ends the simulation with.
pub fn rejection_status(rejection: TriggerRejection) -> (s: AutomationSimulationStatus)
    ensures
        s == (if rejection == TriggerRejection::MissedSkipped {
            AutomationSimulationStatus::MissedSkipped
        } else {
            AutomationSimulationStatus::Suppressed
        }),
{
    match rejection {
        TriggerRejection::MissedSkipped => AutomationSimulationStatus::MissedSkipped,
        _ => AutomationSimulationStatus::Suppressed,
    }
}

/// A missed schedule occurrence never starts a run unless catch-up is explicit,
/// and an explicit catch-up is never skipped as missed.
pub proof fn lemma_missed_schedule_requires_catch_up(
    mode: AutomationRunMode,
    policy: AutomationSelfTriggerPolicy,
    version: u32,
    trigger: SimulationTriggerFacts,
)
    requires
        trigger.accepted_at > trigger.window_ends_at,
    ensures
        !trigger.explicit_catch_up ==> trigger_decision(mode, policy, version, trigger) is Some,
        trigger.explicit_catch_up ==> trigger_decision(mode, policy, version, trigger) != Some(
            TriggerRejection::MissedSkipped,
        ),
{
}

/// Restart mode never suppresses for capacity, and allowing self triggers never
/// suppresses for causation.
pub proof fn lemma_restart_allow_accepts_matching(version: u32, trigger: SimulationTriggerFacts)
    requires
        trigger.matches,
        trigger.accepted_at <= trigger.window_ends_at || trigger.explicit_catch_up,
    ensures
        trigger_decision(AutomationRunMode::Restart, AutomationSelfTriggerPolicy::Allow, version, trigger) is None,
{
}

/// Execution budget of one simulated run.
#[derive(Clone, Copy, Debug, PartialEq, Eq, Structural)]
pub struct AutomationExecutionBudget {
    pub maximum_trace_steps: u32,
    pub maximum_run_duration_ms: u64,
}

/// Whether one more interpreter step stays inside the budget: the step count,
/// the trace length and the elapsed virtual time are all bounded.
pub open spec fn step_within_budget(budget: AutomationExecutionBudget, steps: u64, trace_len: usize, elapsed_ms: int) -> bool {
    &&& steps + 1 <= budget.maximum_trace_steps
    &&& trace_len < budget.maximum_trace_steps
    &&& elapsed_ms <= budget.maximum_run_duration_ms
}

/// Consumes one interpreter step of the budget. The counter is wider than the
/// step bound, so it passes any `u32` bound before it could saturate.
pub fn consume_budget(
    budget: AutomationExecutionBudget,
    steps: &mut u64,
    trace_len: usize,
    started_at: i64,
    now: i64,
) -> (r: Result<(), AutomationSimulationError>)
    requires
        *old(steps) <= u32::MAX,
    ensures
        *final(steps) == *old(steps) + 1,
        r is Ok <==> step_within_budget(budget, *old(steps), trace_len, now - started_at),
        r matches Err(e) ==> e == AutomationSimulationError::BudgetExceeded,
{
    *steps = *steps + 1;
    let elapsed: i128 = now as i128 - started_at as i128;
    if *steps > budget.maximum_trace_steps as u64 || trace_len >= budget.maximum_trace_steps as usize || elapsed
        > budget.maximum_run_duration_ms as i128 {
        return Err(AutomationSimulationError::BudgetExceeded);
    }
    Ok(())
}

/// How interpretation continues after a node.
#[derive(Clone, Copy, Debug, PartialEq, Eq, Structural)]
pub enum Flow {
    Completed,
    StopRun,
    StopBranch,
}

/// Where a failure policy sends interpretation.
#[derive(Clone, Copy, Debug, PartialEq, Eq, Structural)]
pub enum FailureRoute {
    /// Stop with the given flow.
    Stop(Flow),
    /// Continue interpretation from this node.
    ContinueAt(u32),
}

/// Where a failure policy sends interpretation: stop the run or branch, or
/// continue with the following node or the fallback entry, completing where
/// there is none.
pub open spec fn failure_route_of(policy: AutomationPlanFailurePolicy, next: Option<u32>) -> FailureRoute {
    match policy {
        AutomationPlanFailurePolicy::StopRun => FailureRoute::Stop(Flow::StopRun),
        AutomationPlanFailurePolicy::StopBranch => FailureRoute::Stop(Flow::StopBranch),
        AutomationPlanFailurePolicy::Continue => match next {
            Some(n) => FailureRoute::ContinueAt(n),
            None => FailureRoute::Stop(Flow::Completed),
        },
        AutomationPlanFailurePolicy::Fallback { entry } => match (if entry is Some { entry } else { next }) {
            Some(n) => FailureRoute::ContinueAt(n),
            None => FailureRoute::Stop(Flow::Completed),
        },
    }
}

/// Routes a failed command or timed-out wait by its failure policy.
pub fn failure_route(policy: AutomationPlanFailurePolicy, next: Option<u32>) -> (r: FailureRoute)
    ensures
        r == failure_route_of(policy, next),
{
    match policy {
        AutomationPlanFailurePolicy::StopRun => FailureRoute::Stop(Flow::StopRun),
        AutomationPlanFailurePolicy::StopBranch => FailureRoute::Stop(Flow::StopBranch),
        AutomationPlanFailurePolicy::Continue => match next {
            Some(n) => FailureRoute::ContinueAt(n),
            None => FailureRoute::Stop(Flow::Completed),
        },
        AutomationPlanFailurePolicy::Fallback { entry } => match (if entry.is_some() { entry } else { next }) {
            Some(n) => FailureRoute::ContinueAt(n),
            None => FailureRoute::Stop(Flow::Completed),
        },
    }
}

} // verus!
