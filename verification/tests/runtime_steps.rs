use homemagic_application::automation_runtime::{begin_runtime_step, RuntimeStepBegin};
use homemagic_application::simulation_run::{TraceDetail, TraceIdentity};
use homemagic_application::automation_evaluator::AutomationValue;
use homemagic_application::automation_runtime::{runtime_node, set_variable_step};
use homemagic_application::simulation_run::{AutomationPlanNode, AutomationPlanNodeKind};
use homemagic_application::automation_evaluator::AutomationEvaluationError;
use homemagic_application::automation_runtime::{
    accept_run, apply_duration_request, delay_action, AutomationDelayAction, branch_successor, complete_run, resume_running, forget_node_durations,
    retain_valid_durations, start_waiting, state_duration_step, step_start, take_branch, time_out_wait, wait_action,
    AutomationConditionDuration, AutomationConditionDurationPhase, AutomationPlanFailurePolicy, AutomationRun,
    AutomationRunState, AutomationRuntimeError, AutomationRuntimeStep, AutomationStepStart, AutomationTimerState,
    AutomationWaitAction, DurationWaitEvent, RuntimeDurationRequest,
};

/// 2026-07-12T12:00:00Z in milliseconds since the Unix epoch.
const AT: i64 = 1_783_857_600_000;

fn run(state: AutomationRunState) -> AutomationRun {
    AutomationRun { id: 1, state, node_id: Some(4), continuations: Vec::new(), revision: 2, updated_at: AT - 1 }
}

fn duration(node_id: u32, hash: &str, timer_id: u64, phase: AutomationConditionDurationPhase) -> AutomationConditionDuration {
    AutomationConditionDuration {
        node_id,
        condition_hash: hash.to_owned(),
        duration_ms: 10,
        ready_at: AT + 10,
        timer_id,
        phase,
    }
}

#[test]
fn step_start_skips_terminal_and_inactive_runs() {
    for state in [AutomationRunState::Completed, AutomationRunState::Failed, AutomationRunState::Cancelled] {
        assert_eq!(step_start(state, 1, Some(1), true, 0, 10, AT, AT, 1_000), Ok(AutomationStepStart::NoWork));
    }
    assert_eq!(
        step_start(AutomationRunState::Running, 1, Some(2), true, 0, 10, AT, AT, 1_000),
        Ok(AutomationStepStart::NoWork)
    );
    assert_eq!(
        step_start(AutomationRunState::Running, 1, None, true, 0, 10, AT, AT, 1_000),
        Ok(AutomationStepStart::NoWork)
    );
}

#[test]
fn step_start_checks_plan_and_budget_before_accepting() {
    assert_eq!(
        step_start(AutomationRunState::Pending, 1, Some(1), false, 0, 10, AT, AT, 1_000),
        Err(AutomationRuntimeError::InvalidPlan)
    );
    assert_eq!(
        step_start(AutomationRunState::Running, 1, Some(1), true, 10, 10, AT, AT, 1_000),
        Err(AutomationRuntimeError::BudgetExceeded)
    );
    assert_eq!(
        step_start(AutomationRunState::Running, 1, Some(1), true, 9, 10, AT, AT + 1_001, 1_000),
        Err(AutomationRuntimeError::BudgetExceeded)
    );
    assert_eq!(
        step_start(AutomationRunState::Pending, 1, Some(1), true, 9, 10, AT, AT + 1_000, 1_000),
        Ok(AutomationStepStart::Accept)
    );
    assert_eq!(
        step_start(AutomationRunState::Waiting, 1, Some(1), true, 0, 10, AT, i64::MAX, u64::MAX),
        Ok(AutomationStepStart::Interpret)
    );
}

#[test]
fn accepted_run_starts_running() {
    let mut r = run(AutomationRunState::Pending);
    accept_run(&mut r, AT);
    assert_eq!((r.state, r.revision, r.updated_at, r.node_id), (AutomationRunState::Running, 3, AT, Some(4)));
}

#[test]
fn complete_node_completes_the_run() {
    let mut r = run(AutomationRunState::Running);
    assert_eq!(complete_run(&mut r, AT), AutomationRuntimeStep::Completed);
    assert_eq!((r.state, r.node_id, r.revision), (AutomationRunState::Completed, None, 3));
}

#[test]
fn branch_falls_back_to_join_for_an_empty_arm() {
    assert_eq!(branch_successor(true, Some(5), Some(6), Some(9)), Some(5));
    assert_eq!(branch_successor(false, Some(5), Some(6), Some(9)), Some(6));
    assert_eq!(branch_successor(false, Some(5), None, Some(9)), Some(9));
    assert_eq!(branch_successor(true, None, Some(6), None), None);
    let mut r = run(AutomationRunState::Waiting);
    assert_eq!(take_branch(&mut r, false, Some(5), None, Some(9), AT), AutomationRuntimeStep::Advanced);
    assert_eq!((r.state, r.node_id, r.updated_at), (AutomationRunState::Running, Some(9), AT));
}

#[test]
fn wait_starts_its_timeout_once() {
    assert_eq!(
        wait_action(AutomationRunState::Running, AT, 250, None, None, false),
        Ok(AutomationWaitAction::StartTimeout { ready_at: AT + 250 })
    );
    assert_eq!(
        wait_action(AutomationRunState::Running, AT, u64::MAX, None, None, false),
        Err(AutomationRuntimeError::DurationOverflow)
    );
    let mut r = run(AutomationRunState::Running);
    assert_eq!(start_waiting(&mut r, AT), AutomationRuntimeStep::Waiting);
    assert_eq!((r.state, r.node_id), (AutomationRunState::Waiting, Some(4)));
}

#[test]
fn waiting_run_resolves_by_condition_then_timer() {
    let waiting = AutomationRunState::Waiting;
    assert_eq!(wait_action(waiting, AT, 250, None, None, true), Ok(AutomationWaitAction::KeepWaiting));
    assert_eq!(wait_action(waiting, AT, 250, Some(true), None, false), Err(AutomationRuntimeError::InvalidPlan));
    assert_eq!(
        wait_action(waiting, AT, 250, Some(true), Some(AutomationTimerState::Ready), false),
        Ok(AutomationWaitAction::Satisfied)
    );
    assert_eq!(
        wait_action(waiting, AT, 250, Some(false), Some(AutomationTimerState::Pending), false),
        Ok(AutomationWaitAction::KeepWaiting)
    );
    assert_eq!(
        wait_action(waiting, AT, 250, Some(false), Some(AutomationTimerState::Pending), true),
        Ok(AutomationWaitAction::Refresh)
    );
    assert_eq!(
        wait_action(waiting, AT, 250, Some(false), Some(AutomationTimerState::Ready), true),
        Ok(AutomationWaitAction::TimedOut)
    );
}

#[test]
fn finished_and_timed_out_waits_move_on() {
    let mut r = run(AutomationRunState::Waiting);
    assert_eq!(resume_running(&mut r, Some(8), AT), AutomationRuntimeStep::Advanced);
    assert_eq!((r.state, r.node_id, r.revision), (AutomationRunState::Running, Some(8), 3));

    let mut stopped = run(AutomationRunState::Waiting);
    assert_eq!(
        time_out_wait(&mut stopped, AutomationPlanFailurePolicy::StopRun, Some(8), AT),
        AutomationRuntimeStep::Completed
    );
    assert_eq!((stopped.state, stopped.node_id, stopped.revision), (AutomationRunState::Failed, None, 3));

    let mut fallback = run(AutomationRunState::Waiting);
    assert_eq!(
        time_out_wait(&mut fallback, AutomationPlanFailurePolicy::Fallback { entry: Some(11) }, Some(8), AT),
        AutomationRuntimeStep::Advanced
    );
    assert_eq!(fallback.node_id, Some(11));
}

#[test]
fn duration_evaluation_should_reset_pending_interval_when_inner_value_turns_false() {
    let hash = "inner-condition-hash".to_owned();
    let durations = vec![duration(4, &hash, 77, AutomationConditionDurationPhase::Pending)];
    let timers = vec![(77, AutomationTimerState::Pending)];

    let step = state_duration_step(4, &hash, false, 10, &durations, &timers, AT);

    assert_eq!(step.result, Ok(false));
    assert!(step.invalidated);
    assert!(step.request.is_none());
}

#[test]
fn duration_evaluation_follows_the_interval_timer() {
    let hash = "h".to_owned();
    let pending = vec![duration(4, &hash, 77, AutomationConditionDurationPhase::Pending)];
    let mature = vec![duration(4, &hash, 77, AutomationConditionDurationPhase::Mature)];

    let holds = state_duration_step(4, &hash, true, 10, &mature, &vec![], AT);
    assert_eq!(holds.result, Ok(true));

    let waiting = state_duration_step(4, &hash, true, 10, &pending, &vec![(77, AutomationTimerState::Pending)], AT);
    assert_eq!(waiting.result, Err(AutomationEvaluationError::DurableDurationRequired));
    assert!(matches!(waiting.request, Some(RuntimeDurationRequest::Pending)));

    let ready = state_duration_step(4, &hash, true, 10, &pending, &vec![(77, AutomationTimerState::Ready)], AT);
    assert!(matches!(ready.request, Some(RuntimeDurationRequest::Mature { timer_id: 77, .. })));

    let missing = state_duration_step(4, &hash, true, 10, &pending, &vec![(78, AutomationTimerState::Ready)], AT);
    assert_eq!(missing.result, Err(AutomationEvaluationError::DurationTimerMissing));

    let started = state_duration_step(4, &hash, true, 10, &vec![], &vec![], AT);
    match started.request {
        Some(RuntimeDurationRequest::Start { node_id, condition_hash, duration_ms, ready_at }) => {
            assert_eq!((node_id, condition_hash.as_str(), duration_ms, ready_at), (4, "h", 10, AT + 10));
        }
        other => panic!("expected a started interval, got {other:?}"),
    }
}

#[test]
fn duration_requests_update_the_records() {
    let mut records = vec![duration(4, "a", 1, AutomationConditionDurationPhase::Pending)];
    assert_eq!(apply_duration_request(&mut records, &None, 0, 9), Err(AutomationRuntimeError::InvalidPlan));
    assert_eq!(apply_duration_request(&mut records, &Some(RuntimeDurationRequest::Pending), 0, 9), Ok(None));
    assert_eq!(
        apply_duration_request(&mut records, &Some(RuntimeDurationRequest::Pending), 1, 9),
        Ok(Some(DurationWaitEvent::Reset))
    );
    let start = RuntimeDurationRequest::Start { node_id: 5, condition_hash: "b".to_owned(), duration_ms: 20, ready_at: AT + 20 };
    assert_eq!(apply_duration_request(&mut records, &Some(start), 0, 9), Ok(Some(DurationWaitEvent::Started)));
    assert_eq!(records.len(), 2);
    assert_eq!((records[1].node_id, records[1].timer_id, records[1].ready_at), (5, 9, AT + 20));
    let mature = RuntimeDurationRequest::Mature { condition_hash: "a".to_owned(), timer_id: 1 };
    assert_eq!(apply_duration_request(&mut records, &Some(mature), 0, 9), Ok(Some(DurationWaitEvent::Matured)));
    assert_eq!(records[0].phase, AutomationConditionDurationPhase::Mature);
    let unknown = RuntimeDurationRequest::Mature { condition_hash: "z".to_owned(), timer_id: 1 };
    assert_eq!(apply_duration_request(&mut records, &Some(unknown), 0, 9), Err(AutomationRuntimeError::InvalidPlan));
}

#[test]
fn duration_records_are_filtered_in_order() {
    let records = vec![
        duration(4, "a", 1, AutomationConditionDurationPhase::Pending),
        duration(5, "b", 2, AutomationConditionDurationPhase::Pending),
        duration(4, "c", 3, AutomationConditionDurationPhase::Mature),
    ];
    let kept = retain_valid_durations(&records, &vec!["b".to_owned()]);
    assert_eq!(kept.iter().map(|d| d.timer_id).collect::<Vec<_>>(), vec![1, 3]);
    let other = forget_node_durations(&records, 4);
    assert_eq!(other.iter().map(|d| d.timer_id).collect::<Vec<_>>(), vec![2]);
}

#[test]
fn delay_starts_once_and_resumes_on_its_ready_timer() {
    assert_eq!(
        delay_action(AutomationRunState::Running, AT, 1_000, None),
        Ok(AutomationDelayAction::StartDelay { ready_at: AT + 1_000 })
    );
    assert_eq!(
        delay_action(AutomationRunState::Running, i64::MAX - 10, 1_000, None),
        Err(AutomationRuntimeError::DurationOverflow)
    );
    let waiting = AutomationRunState::Waiting;
    assert_eq!(delay_action(waiting, AT, 1_000, None), Err(AutomationRuntimeError::InvalidPlan));
    assert_eq!(delay_action(waiting, AT, 1_000, Some(AutomationTimerState::Pending)), Ok(AutomationDelayAction::KeepWaiting));
    assert_eq!(delay_action(waiting, AT, 1_000, Some(AutomationTimerState::Ready)), Ok(AutomationDelayAction::Ready));
}

#[test]
fn set_variable_binds_the_value_and_moves_on() {
    let mut current = run(AutomationRunState::Running);
    let mut variables: Vec<(String, AutomationValue)> = vec![("mode".to_owned(), AutomationValue::Boolean(false))];
    let step = set_variable_step(&mut current, &mut variables, &"mode".to_owned(), Ok(AutomationValue::Boolean(true)), Some(7), AT);
    assert_eq!(step, Ok(AutomationRuntimeStep::Advanced));
    assert_eq!(variables, vec![("mode".to_owned(), AutomationValue::Boolean(true))]);
    assert_eq!((current.node_id, current.revision, current.updated_at), (Some(7), 3, AT));
    let step = set_variable_step(&mut current, &mut variables, &"level".to_owned(), Ok(AutomationValue::Boolean(false)), None, AT + 1);
    assert_eq!(step, Ok(AutomationRuntimeStep::Advanced));
    assert_eq!(variables.len(), 2);
    let failed = set_variable_step(
        &mut current,
        &mut variables,
        &"x".to_owned(),
        Err(AutomationEvaluationError::TypeMismatch),
        Some(9),
        AT + 2,
    );
    assert_eq!(failed, Err(AutomationRuntimeError::Evaluation(AutomationEvaluationError::TypeMismatch)));
    assert_eq!((current.node_id, current.revision), (None, 4));
    assert_eq!(variables.len(), 2);
}

#[test]
fn runtime_node_requires_a_current_node_present_in_the_plan() {
    let nodes = vec![
        AutomationPlanNode { id: 4, kind: AutomationPlanNodeKind::Complete },
        AutomationPlanNode { id: 9, kind: AutomationPlanNodeKind::Complete },
    ];
    assert_eq!(runtime_node(&nodes, Some(9)), Ok(1));
    assert_eq!(runtime_node(&nodes, Some(5)), Err(AutomationRuntimeError::InvalidPlan));
    assert_eq!(runtime_node(&nodes, None), Err(AutomationRuntimeError::InvalidPlan));
}

#[test]
fn pending_run_is_accepted_with_one_trigger_entry() {
    let identity = TraceIdentity { run_id: 1, correlation_id: 9, causation_event_id: None };
    let nodes = vec![AutomationPlanNode { id: 4, kind: AutomationPlanNodeKind::Complete }];
    let begun = begin_runtime_step(run(AutomationRunState::Pending), identity, 2, Some(2), Some(&nodes), 5, 100, AT - 10, AT, 60_000);
    match begun {
        Ok(RuntimeStepBegin::Accepted(commit)) => {
            assert_eq!(commit.expected_revision, 2);
            assert_eq!((commit.run.state, commit.run.revision, commit.run.updated_at), (AutomationRunState::Running, 3, AT));
            assert_eq!(commit.trace.len(), 1);
            assert_eq!((commit.trace[0].sequence, commit.trace[0].node_id, commit.trace[0].run_id), (5, None, 1));
            assert!(matches!(commit.trace[0].detail, TraceDetail::RunAccepted));
        }
        other => panic!("unexpected {other:?}"),
    }
    let running = begin_runtime_step(run(AutomationRunState::Running), identity, 2, Some(2), Some(&nodes), 5, 100, AT - 10, AT, 60_000);
    assert!(matches!(running, Ok(RuntimeStepBegin::Interpret(0))));
    let inactive = begin_runtime_step(run(AutomationRunState::Running), identity, 2, Some(3), None, 5, 100, AT - 10, AT, 60_000);
    assert!(matches!(inactive, Ok(RuntimeStepBegin::NoWork)));
    let exhausted = begin_runtime_step(run(AutomationRunState::Running), identity, 2, Some(2), Some(&nodes), 100, 100, AT - 10, AT, 60_000);
    assert!(matches!(exhausted, Err(AutomationRuntimeError::BudgetExceeded)));
}
