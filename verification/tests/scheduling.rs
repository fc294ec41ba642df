use homemagic_application::automation_runtime::{AutomationPlanFailurePolicy, AutomationRunMode, AutomationRunState, AutomationTimerState};
use homemagic_application::automation_scheduler::{
    bump, count_open_runs, occurrence_step, occurrence_window_end, ready_timer, AutomationOccurrenceState,
    AutomationSchedulerError, OccurrenceStep, ScheduledRunSummary,
};
use homemagic_application::automation_events::AutomationSelfTriggerPolicy;
use homemagic_application::automation_evaluator::AutomationEvaluationError;
use homemagic_application::automation_simulator::{
    accept_trigger, consume_budget, failure_route, map_evaluation_error, rejection_status, AutomationExecutionBudget,
    AutomationSimulationError, AutomationSimulationStatus, FailureRoute, Flow, SimulationTriggerFacts, TriggerRejection,
};

fn trigger() -> SimulationTriggerFacts {
    SimulationTriggerFacts {
        matches: true,
        accepted_at: 1_000,
        window_ends_at: 2_000,
        explicit_catch_up: false,
        active_runs: 0,
        queued_triggers: 0,
        caused_by_version: None,
        same_correlation: false,
    }
}

#[test]
fn timers_become_ready_when_due() {
    assert_eq!(ready_timer(AutomationTimerState::Pending, 10, 10), AutomationTimerState::Ready);
    assert_eq!(ready_timer(AutomationTimerState::Pending, 11, 10), AutomationTimerState::Pending);
    assert_eq!(ready_timer(AutomationTimerState::Consumed, 1, 10), AutomationTimerState::Consumed);
}

#[test]
fn occurrences_are_missed_waited_suppressed_or_accepted() {
    let single = AutomationRunMode::Single;
    assert_eq!(occurrence_step(AutomationOccurrenceState::Scheduled, 5, 20, 21, single, 0), OccurrenceStep::MissedSkipped);
    assert_eq!(occurrence_step(AutomationOccurrenceState::Scheduled, 15, 20, 10, single, 0), OccurrenceStep::Wait);
    assert_eq!(occurrence_step(AutomationOccurrenceState::Scheduled, 5, 20, 10, single, 1), OccurrenceStep::Suppressed);
    assert_eq!(occurrence_step(AutomationOccurrenceState::Scheduled, 5, 20, 10, single, 0), OccurrenceStep::Accept);
    assert_eq!(occurrence_step(AutomationOccurrenceState::Accepted, 5, 20, 30, single, 3), OccurrenceStep::CreateRun);
    assert_eq!(occurrence_step(AutomationOccurrenceState::Suppressed, 5, 20, 10, single, 0), OccurrenceStep::Wait);
    let runs = vec![
        ScheduledRunSummary { automation_id: 1, version: 2, state: AutomationRunState::Running },
        ScheduledRunSummary { automation_id: 1, version: 2, state: AutomationRunState::Completed },
        ScheduledRunSummary { automation_id: 1, version: 3, state: AutomationRunState::Waiting },
        ScheduledRunSummary { automation_id: 1, version: 2, state: AutomationRunState::Pending },
    ];
    assert_eq!(count_open_runs(&runs, 1, 2), 2);
    assert_eq!(occurrence_window_end(1_000, 500), Some(1_500));
    assert_eq!(bump(u64::MAX), u64::MAX);
    assert_eq!(AutomationSchedulerError::InvalidSchedule.message(), "automation scheduler encountered an invalid active schedule");
}

#[test]
fn simulated_triggers_apply_each_run_mode_capacity_rule() {
    let mut t = trigger();
    t.active_runs = 1;
    let allow = AutomationSelfTriggerPolicy::Allow;
    assert_eq!(accept_trigger(AutomationRunMode::Single, allow, 1, t), Some(TriggerRejection::Suppressed));
    assert_eq!(accept_trigger(AutomationRunMode::Restart, allow, 1, t), None);
    t.queued_triggers = 2;
    assert_eq!(accept_trigger(AutomationRunMode::Queued { capacity: 2 }, allow, 1, t), Some(TriggerRejection::Suppressed));
    assert_eq!(
        accept_trigger(AutomationRunMode::Parallel { maximum_parallel: 1 }, allow, 1, t),
        Some(TriggerRejection::Suppressed)
    );
    assert_eq!(rejection_status(TriggerRejection::Suppressed), AutomationSimulationStatus::Suppressed);
}

#[test]
fn simulated_missed_schedules_skip_unless_catch_up_is_explicit() {
    let mut missed = trigger();
    missed.accepted_at = missed.window_ends_at + 1_000;
    let decision = accept_trigger(AutomationRunMode::Single, AutomationSelfTriggerPolicy::Allow, 1, missed);
    assert_eq!(decision, Some(TriggerRejection::MissedSkipped));
    assert_eq!(rejection_status(TriggerRejection::MissedSkipped), AutomationSimulationStatus::MissedSkipped);
    missed.explicit_catch_up = true;
    assert_eq!(accept_trigger(AutomationRunMode::Single, AutomationSelfTriggerPolicy::Allow, 1, missed), None);
    let mut unmatched = trigger();
    unmatched.matches = false;
    assert_eq!(
        accept_trigger(AutomationRunMode::Restart, AutomationSelfTriggerPolicy::Allow, 1, unmatched),
        Some(TriggerRejection::NotMatched)
    );
    let mut own = trigger();
    own.caused_by_version = Some(3);
    assert_eq!(
        accept_trigger(AutomationRunMode::Restart, AutomationSelfTriggerPolicy::SuppressSameVersion, 3, own),
        Some(TriggerRejection::Suppressed)
    );
}

#[test]
fn budgets_and_failure_policies_terminate() {
    let budget = AutomationExecutionBudget { maximum_trace_steps: 2, maximum_run_duration_ms: 100 };
    let mut steps = 0u64;
    assert_eq!(consume_budget(budget, &mut steps, 0, 0, 10), Ok(()));
    assert_eq!(consume_budget(budget, &mut steps, 1, 0, 10), Ok(()));
    assert_eq!(consume_budget(budget, &mut steps, 1, 0, 10), Err(AutomationSimulationError::BudgetExceeded));
    assert_eq!(steps, 3);
    let mut fresh = 0u64;
    assert_eq!(consume_budget(budget, &mut fresh, 0, 0, 101), Err(AutomationSimulationError::BudgetExceeded));
    assert_eq!(failure_route(AutomationPlanFailurePolicy::StopRun, Some(4)), FailureRoute::Stop(Flow::StopRun));
    assert_eq!(failure_route(AutomationPlanFailurePolicy::Continue, Some(4)), FailureRoute::ContinueAt(4));
    assert_eq!(failure_route(AutomationPlanFailurePolicy::Continue, None), FailureRoute::Stop(Flow::Completed));
    assert_eq!(failure_route(AutomationPlanFailurePolicy::Fallback { entry: None }, Some(4)), FailureRoute::ContinueAt(4));
    assert_eq!(failure_route(AutomationPlanFailurePolicy::Fallback { entry: Some(8) }, Some(4)), FailureRoute::ContinueAt(8));
    assert_eq!(map_evaluation_error(AutomationEvaluationError::InvalidTimeWindow), AutomationSimulationError::InvalidSchedule);
    assert_eq!(map_evaluation_error(AutomationEvaluationError::ConditionHash), AutomationSimulationError::TypeMismatch);
}
