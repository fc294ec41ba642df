use homemagic_application::automation_runtime::{
    apply_failure, cancel_timer, checkpoint, enter_group, join_step, retry_plan, run_mode_accepts,
    AutomationCommandOutcome, AutomationJoinEvent, AutomationPlanFailurePolicy, AutomationRetryPolicy, AutomationRun,
    AutomationRunContinuationKind, AutomationRunMode, AutomationRunState, AutomationRuntimeError,
    AutomationRuntimeStep, AutomationTimerState, CommandErrorCode, CommandState,
};

/// 2026-07-12T12:00:00Z in milliseconds since the Unix epoch.
const AT: i64 = 1_783_857_600_000;

fn command(id: u64, state: CommandState, failure: Option<CommandErrorCode>, at: i64) -> AutomationCommandOutcome {
    AutomationCommandOutcome { command_id: id, state, failure, updated_at: at }
}

fn policy() -> AutomationRetryPolicy {
    AutomationRetryPolicy {
        maximum_retries: 1,
        backoff_ms: 10,
        retryable_command_errors: vec![CommandErrorCode::TransportFailure],
    }
}

#[test]
fn retry_plan_should_select_only_retryable_failed_targets() {
    let confirmed = command(100, CommandState::Confirmed, None, AT);
    let failed = command(101, CommandState::Failed, Some(CommandErrorCode::TransportFailure), AT + 5);

    let retry = retry_plan(0, &vec![0, 1], &vec![confirmed, failed], &policy())
        .unwrap_or_else(|error| panic!("retry plan: {error:?}"))
        .unwrap_or_else(|| panic!("eligible retry"));

    assert_eq!(retry.target_indices, vec![1]);
    assert_eq!(retry.command_ids, vec![failed.command_id]);
    assert_eq!(retry.ready_at, AT + 15);
}

#[test]
fn retry_plan_should_stop_after_declared_attempt_bound() {
    let failed = command(101, CommandState::Failed, Some(CommandErrorCode::TransportFailure), AT);

    let retry = retry_plan(1, &vec![0], &vec![failed], &policy())
        .unwrap_or_else(|error| panic!("retry plan: {error:?}"));

    assert!(retry.is_none());
}

#[test]
fn retry_plan_refuses_non_retryable_failures_and_mismatched_targets() {
    let denied = command(7, CommandState::Rejected, Some(CommandErrorCode::PolicyDenied), AT);
    let transport = command(8, CommandState::Failed, Some(CommandErrorCode::TransportFailure), AT);
    assert_eq!(retry_plan(0, &vec![0, 1], &vec![transport, denied], &policy()), Ok(None));
    assert_eq!(retry_plan(0, &vec![0], &vec![transport, transport], &policy()), Ok(None));
    let all_confirmed = command(9, CommandState::Confirmed, None, AT);
    assert_eq!(retry_plan(0, &vec![0], &vec![all_confirmed], &policy()), Ok(None));
    let late = command(10, CommandState::Failed, Some(CommandErrorCode::TransportFailure), i64::MAX - 5);
    assert_eq!(retry_plan(0, &vec![0], &vec![late], &policy()), Err(AutomationRuntimeError::DurationOverflow));
}

fn run() -> AutomationRun {
    AutomationRun {
        id: 1,
        state: AutomationRunState::Running,
        node_id: Some(3),
        continuations: Vec::new(),
        revision: 4,
        updated_at: AT,
    }
}

#[test]
fn checkpoint_bumps_revision_and_time() {
    let mut r = run();
    checkpoint(&mut r, AT + 1);
    assert_eq!(r.revision, 5);
    assert_eq!(r.updated_at, AT + 1);
    r.revision = u64::MAX;
    checkpoint(&mut r, AT + 2);
    assert_eq!(r.revision, u64::MAX);
}

#[test]
fn failure_policies_route_the_run() {
    let mut r = run();
    assert_eq!(apply_failure(&mut r, AutomationPlanFailurePolicy::Continue, Some(9)), AutomationRuntimeStep::Advanced);
    assert_eq!(r.node_id, Some(9));
    let mut r = run();
    apply_failure(&mut r, AutomationPlanFailurePolicy::Fallback { entry: Some(20) }, Some(9));
    assert_eq!(r.node_id, Some(20));
    let mut r = run();
    assert_eq!(apply_failure(&mut r, AutomationPlanFailurePolicy::StopRun, Some(9)), AutomationRuntimeStep::Completed);
    assert_eq!(r.state, AutomationRunState::Failed);
    assert_eq!(r.node_id, None);
    let mut r = run();
    assert_eq!(apply_failure(&mut r, AutomationPlanFailurePolicy::StopBranch, Some(9)), AutomationRuntimeStep::Completed);
    assert_eq!(r.state, AutomationRunState::Failed);
}

#[test]
fn race_groups_win_on_first_success_and_fail_when_every_branch_fails() {
    let mut r = run();
    enter_group(&mut r, 3, &vec![10, 11], 2, Some(12), AutomationRunContinuationKind::Race).expect("group");
    assert_eq!(r.node_id, Some(10));
    assert_eq!(r.continuations.len(), 1);
    assert_eq!(r.continuations[0].remaining_branches, vec![11]);
    apply_failure(&mut r, AutomationPlanFailurePolicy::StopBranch, None);
    assert_eq!(r.node_id, Some(12));
    assert!(r.continuations[0].current_branch_failed);
    assert_eq!(join_step(&mut r, 12, Some(13)), (AutomationRuntimeStep::Advanced, AutomationJoinEvent::NextBranch));
    assert_eq!(r.node_id, Some(11));
    assert_eq!(join_step(&mut r, 12, Some(13)), (AutomationRuntimeStep::Advanced, AutomationJoinEvent::RaceWon));
    assert_eq!(r.node_id, Some(13));
    assert!(r.continuations.is_empty());

    let mut lost = run();
    enter_group(&mut lost, 3, &vec![10], 1, Some(12), AutomationRunContinuationKind::Race).expect("group");
    apply_failure(&mut lost, AutomationPlanFailurePolicy::StopBranch, None);
    assert_eq!(join_step(&mut lost, 12, Some(13)), (AutomationRuntimeStep::Completed, AutomationJoinEvent::RaceFailed));
    assert_eq!(lost.state, AutomationRunState::Failed);

    let mut invalid = run();
    assert_eq!(
        enter_group(&mut invalid, 3, &vec![], 1, Some(12), AutomationRunContinuationKind::Parallel),
        Err(AutomationRuntimeError::InvalidPlan)
    );
}

#[test]
fn every_run_mode_applies_its_capacity_rule() {
    assert!(run_mode_accepts(AutomationRunMode::Single, 0));
    assert!(!run_mode_accepts(AutomationRunMode::Single, 1));
    assert!(run_mode_accepts(AutomationRunMode::Restart, 9));
    assert!(run_mode_accepts(AutomationRunMode::Queued { capacity: 2 }, 1));
    assert!(!run_mode_accepts(AutomationRunMode::Queued { capacity: 2 }, 2));
    assert!(!run_mode_accepts(AutomationRunMode::Parallel { maximum_parallel: 1 }, 1));
}

#[test]
fn timers_cancel_until_consumed() {
    assert_eq!(cancel_timer(AutomationTimerState::Pending), AutomationTimerState::Cancelled);
    assert_eq!(cancel_timer(AutomationTimerState::Ready), AutomationTimerState::Cancelled);
    assert_eq!(cancel_timer(AutomationTimerState::Consumed), AutomationTimerState::Consumed);
    assert!(CommandState::TimedOut.is_terminal());
    assert!(!CommandState::Dispatched.is_terminal());
    assert!(AutomationRunState::Cancelled.is_terminal());
}
