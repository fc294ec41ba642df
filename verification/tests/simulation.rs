use homemagic_application::automation_compiler::{
    AutomationApprovalRequirement, AutomationSafetyProfile, AutomationSchedule, CommandPayloadKind,
};
use homemagic_application::automation_evaluator::{
    AutomationComparison, AutomationValue, ResolvedAutomationCondition, ResolvedAutomationExpression,
};
use homemagic_application::automation_events::{
    AutomationSelfTriggerPolicy, ResolvedAutomationTarget, ResolvedAutomationTrigger,
};
use homemagic_application::automation_runtime::{
    AutomationPlanFailurePolicy, AutomationRetryPolicy, AutomationRunMode, CommandErrorCode, CommandState,
};
use homemagic_application::automation_simulator::{
    AutomationExecutionBudget, AutomationSimulationError, AutomationSimulationStatus, AutomationSimulator,
};
use homemagic_application::simulation::{
    sort_changes, SimulationCommandOutcome, SimulationObservationKey, SimulationStateChange,
};
use homemagic_application::simulation_run::{AutomationPlanNode, AutomationPlanNodeKind, TraceDetail};
use homemagic_application::simulator::{
    trigger_matches, AutomationExecutionPlan, AutomationSimulationFixture, AutomationSimulationResult,
    SimulationTriggerContext, SimulationTriggerKind,
};

/// 2026-07-11T12:01:00Z, one minute after the fixture document was created.
const STARTED_AT: i64 = 1_783_771_260_000;

fn target() -> ResolvedAutomationTarget {
    ResolvedAutomationTarget { device_id: 7, endpoint_id: "light".to_owned(), capability: "on_off.v1".to_owned() }
}

fn observation_key() -> SimulationObservationKey {
    SimulationObservationKey { target: target(), field: "on".to_owned() }
}

fn light_is_on() -> ResolvedAutomationCondition {
    ResolvedAutomationCondition::Compare {
        left: ResolvedAutomationExpression::Observation { targets: vec![target()], field: "on".to_owned() },
        operator: AutomationComparison::Equal,
        right: ResolvedAutomationExpression::Literal { value: AutomationValue::Boolean(true) },
    }
}

fn node(id: u32, kind: AutomationPlanNodeKind) -> AutomationPlanNode {
    AutomationPlanNode { id, kind }
}

/// The plan the compiler lowers the fixture document to: wait for the light,
/// switch it on with one retry, branch on it, then a parallel group and a race.
fn plan() -> AutomationExecutionPlan {
    let nodes = vec![
        node(0, AutomationPlanNodeKind::Complete),
        node(1, AutomationPlanNodeKind::Join { next: Some(0) }),
        node(2, AutomationPlanNodeKind::Delay { duration_ms: 1, next: Some(1) }),
        node(3, AutomationPlanNodeKind::Delay { duration_ms: 2, next: Some(1) }),
        node(4, AutomationPlanNodeKind::Race { branches: vec![2, 3], maximum_parallel: 2, join: Some(1) }),
        node(5, AutomationPlanNodeKind::Join { next: Some(4) }),
        node(6, AutomationPlanNodeKind::Delay { duration_ms: 2, next: Some(5) }),
        node(7, AutomationPlanNodeKind::Delay { duration_ms: 3, next: Some(5) }),
        node(8, AutomationPlanNodeKind::Parallel { branches: vec![6, 7], maximum_parallel: 2, join: Some(5) }),
        node(9, AutomationPlanNodeKind::Join { next: Some(8) }),
        node(
            10,
            AutomationPlanNodeKind::SetVariable {
                name: "branch".to_owned(),
                value: ResolvedAutomationExpression::Literal { value: AutomationValue::String("then".to_owned()) },
                next: Some(9),
            },
        ),
        node(11, AutomationPlanNodeKind::Delay { duration_ms: 1, next: Some(9) }),
        node(
            12,
            AutomationPlanNodeKind::Branch {
                condition: light_is_on(),
                then_node: Some(10),
                else_node: Some(11),
                join: Some(9),
            },
        ),
        node(
            13,
            AutomationPlanNodeKind::Command {
                targets: vec![target()],
                payload: CommandPayloadKind::OnOffSet(true),
                retry: AutomationRetryPolicy {
                    maximum_retries: 1,
                    backoff_ms: 2,
                    retryable_command_errors: vec![CommandErrorCode::TransportFailure],
                },
                on_failure: AutomationPlanFailurePolicy::StopRun,
                next: Some(12),
            },
        ),
        node(
            14,
            AutomationPlanNodeKind::Wait {
                condition: light_is_on(),
                timeout_ms: 20,
                on_timeout: AutomationPlanFailurePolicy::StopRun,
                next: Some(13),
            },
        ),
    ];
    AutomationExecutionPlan {
        automation_id: 4,
        registry_revision: 9,
        entry: 14,
        nodes,
        triggers: vec![ResolvedAutomationTrigger::Schedule {
            schedule: AutomationSchedule {
                cron: "0 18 * * *".to_owned(),
                timezone: "Europe/Berlin".to_owned(),
                occurrence_window_ms: 60_000,
            },
        }],
        condition: None,
        variables: vec![("branch".to_owned(), Some(AutomationValue::String("initial".to_owned())))],
        run_mode: AutomationRunMode::Single,
        self_trigger: AutomationSelfTriggerPolicy::SuppressSameVersion,
        automation_version: 1,
        budget: AutomationExecutionBudget { maximum_trace_steps: 1_000, maximum_run_duration_ms: 3_600_000 },
        safety_profiles: vec![AutomationSafetyProfile::Comfort],
        safety_requirements: Vec::new(),
        approval: AutomationApprovalRequirement::ActivationGrant,
    }
}

fn fixture() -> AutomationSimulationFixture {
    AutomationSimulationFixture {
        plan: plan(),
        run_id: 41,
        correlation_id: 42,
        causation_event_id: Some(43),
        trigger: SimulationTriggerContext {
            kind: SimulationTriggerKind::Schedule,
            occurred_at: STARTED_AT,
            accepted_at: STARTED_AT,
            window_ends_at: STARTED_AT + 60_000,
            explicit_catch_up: false,
            active_runs: 0,
            queued_triggers: 0,
            caused_by_version: None,
            same_correlation: false,
        },
        initial_state: vec![(observation_key(), AutomationValue::Boolean(false))],
        state_changes: vec![SimulationStateChange {
            at: STARTED_AT + 5,
            key: observation_key(),
            value: AutomationValue::Boolean(true),
        }],
        command_outcomes: vec![
            SimulationCommandOutcome { state: CommandState::Failed, error: Some(CommandErrorCode::TransportFailure) },
            SimulationCommandOutcome { state: CommandState::Confirmed, error: None },
        ],
    }
}

fn simulate(fixture: AutomationSimulationFixture) -> Result<AutomationSimulationResult, AutomationSimulationError> {
    AutomationSimulator::simulate(fixture, Vec::new())
}

fn status(fixture: AutomationSimulationFixture) -> AutomationSimulationStatus {
    simulate(fixture).expect("simulation").status
}

fn command_nodes(fixture: &mut AutomationSimulationFixture, outcome_policy: AutomationPlanFailurePolicy) {
    for node in fixture.plan.nodes.iter_mut() {
        if let AutomationPlanNodeKind::Command { retry, on_failure, .. } = &mut node.kind {
            retry.maximum_retries = 0;
            *on_failure = outcome_policy.clone();
        }
    }
}

fn assert_data_only<T: Default + Send + Sync>() {}

#[test]
fn identical_fixture_should_emit_byte_equivalent_trace() {
    let first = simulate(fixture()).expect("first simulation");
    let second = simulate(fixture()).expect("second simulation");

    assert_eq!(format!("{first:?}"), format!("{second:?}"));
    assert_eq!(format!("{:?}", first.trace), format!("{:?}", second.trace));
    assert_eq!(first.status, AutomationSimulationStatus::Completed);
    assert_eq!(first.command_intents.len(), 2);
    assert_eq!(first.command_intents[0].attempt, 0);
    assert_eq!(first.command_intents[1].attempt, 1);
    assert!(first.finished_at > first.trace[0].occurred_at);
}

#[test]
fn missed_schedule_should_skip_unless_catch_up_is_explicit() {
    let mut missed = fixture();
    missed.trigger.accepted_at = missed.trigger.window_ends_at + 1_000;
    let skipped = simulate(missed).expect("missed simulation");
    assert_eq!(skipped.status, AutomationSimulationStatus::MissedSkipped);
    assert!(skipped.command_intents.is_empty());

    let mut missed = fixture();
    missed.trigger.accepted_at = missed.trigger.window_ends_at + 1_000;
    missed.trigger.explicit_catch_up = true;
    let caught_up = simulate(missed).expect("catch-up simulation");
    assert_eq!(caught_up.status, AutomationSimulationStatus::Completed);
    assert!(!caught_up.command_intents.is_empty());
}

#[test]
fn every_run_mode_should_apply_its_declared_capacity_rule() {
    let mut single = fixture();
    single.trigger.active_runs = 1;
    assert_eq!(status(single), AutomationSimulationStatus::Suppressed);

    let mut restart = fixture();
    restart.trigger.active_runs = 1;
    restart.plan.run_mode = AutomationRunMode::Restart;
    assert_eq!(status(restart), AutomationSimulationStatus::Completed);

    let mut queued = fixture();
    queued.trigger.active_runs = 1;
    queued.plan.run_mode = AutomationRunMode::Queued { capacity: 2 };
    queued.trigger.queued_triggers = 2;
    assert_eq!(status(queued), AutomationSimulationStatus::Suppressed);

    let mut parallel = fixture();
    parallel.trigger.active_runs = 1;
    parallel.trigger.queued_triggers = 2;
    parallel.plan.run_mode = AutomationRunMode::Parallel { maximum_parallel: 1 };
    assert_eq!(status(parallel), AutomationSimulationStatus::Suppressed);
}

#[test]
fn every_synthetic_trigger_family_should_match_compiled_contracts() {
    let key = observation_key();

    let mut observation = fixture();
    observation.plan.triggers = vec![ResolvedAutomationTrigger::ObservationChanged {
        targets: vec![key.target.clone()],
        field: Some(key.field.clone()),
    }];
    observation.trigger.kind = SimulationTriggerKind::ObservationChanged { key: key.clone() };
    assert_eq!(status(observation), AutomationSimulationStatus::Completed);

    let mut device_event = fixture();
    device_event.plan.triggers = vec![ResolvedAutomationTrigger::DeviceEvent {
        targets: vec![key.target.clone()],
        event: "single_push".to_owned(),
    }];
    device_event.trigger.kind =
        SimulationTriggerKind::DeviceEvent { target: key.target.clone(), event: "single_push".to_owned() };
    assert_eq!(status(device_event), AutomationSimulationStatus::Completed);

    let command_trigger = || ResolvedAutomationTrigger::CommandOutcome {
        targets: Some(vec![target()]),
        states: vec![CommandState::Confirmed],
    };
    let mut confirmed = fixture();
    confirmed.plan.triggers = vec![command_trigger()];
    confirmed.trigger.kind = SimulationTriggerKind::CommandOutcome { target: target(), state: CommandState::Confirmed };
    assert_eq!(status(confirmed), AutomationSimulationStatus::Completed);

    let mut failed = fixture();
    failed.plan.triggers = vec![command_trigger()];
    failed.trigger.kind = SimulationTriggerKind::CommandOutcome { target: target(), state: CommandState::Failed };
    assert_eq!(status(failed), AutomationSimulationStatus::Suppressed);
}

#[test]
fn timeout_failure_policies_and_budgets_should_terminate_deterministically() {
    let mut timeout = fixture();
    timeout.state_changes.clear();
    let failed = simulate(timeout).expect("timeout simulation");
    assert_eq!(failed.status, AutomationSimulationStatus::Failed);
    assert!(failed.command_intents.is_empty());

    let policies = [
        (AutomationPlanFailurePolicy::StopRun, AutomationSimulationStatus::Failed),
        (AutomationPlanFailurePolicy::StopBranch, AutomationSimulationStatus::Failed),
        (AutomationPlanFailurePolicy::Continue, AutomationSimulationStatus::Completed),
        (AutomationPlanFailurePolicy::Fallback { entry: Some(0) }, AutomationSimulationStatus::Completed),
    ];
    for (policy, expected) in policies {
        let mut fixture = fixture();
        fixture.command_outcomes =
            vec![SimulationCommandOutcome { state: CommandState::Failed, error: Some(CommandErrorCode::PolicyDenied) }];
        command_nodes(&mut fixture, policy);
        assert_eq!(status(fixture), expected);
    }

    let mut bounded = fixture();
    bounded.plan.budget.maximum_trace_steps = 1;
    assert!(matches!(simulate(bounded), Err(AutomationSimulationError::BudgetExceeded)));
}

#[test]
fn timezone_schedule_should_skip_nonexistent_dst_local_time() {
    let schedule = AutomationSchedule {
        cron: "30 2 * * *".to_owned(),
        timezone: "Europe/Berlin".to_owned(),
        occurrence_window_ms: 60_000,
    };
    let from = 1_774_569_600_000;
    let through = 1_774_915_200_000;

    let occurrences = AutomationSimulator::schedule_occurrences(&schedule, from, through).expect("schedule");
    let local_days: Vec<chrono::NaiveDate> = occurrences
        .iter()
        .map(|instant| {
            chrono::DateTime::from_timestamp_millis(*instant)
                .expect("instant")
                .with_timezone(&chrono_tz::Europe::Berlin)
                .date_naive()
        })
        .collect();
    assert!(!local_days.contains(&chrono::NaiveDate::from_ymd_opt(2026, 3, 29).expect("date")));
    assert!(occurrences.windows(2).all(|pair| pair[0] < pair[1]));
}

#[test]
fn simulator_type_should_expose_no_dispatcher_construction() {
    assert_data_only::<AutomationSimulator>();
    let constructor: fn(
        AutomationSimulationFixture,
        Vec<homemagic_application::automation_evaluator::DecimalComparison>,
    ) -> Result<AutomationSimulationResult, AutomationSimulationError> = AutomationSimulator::simulate;
    std::hint::black_box(constructor);
}

#[test]
fn completed_simulation_traces_every_step_in_order() {
    let result = simulate(fixture()).expect("simulation");
    assert!(matches!(result.trace[0].detail, TraceDetail::Trigger { explicit_catch_up: false }));
    for (index, step) in result.trace.iter().enumerate() {
        assert_eq!(step.sequence, index as u64);
    }
    assert!(matches!(result.trace.last().expect("last").detail, TraceDetail::Outcome { .. }));
    assert_eq!(result.finished_at, STARTED_AT + 13);
    assert_eq!(result.command_intents[0].at, STARTED_AT + 5);
    assert_eq!(result.command_intents[1].at, STARTED_AT + 7);
    assert_eq!(result.variables.len(), 1);
    assert_eq!(result.variables[0].0, "branch");
    assert_eq!(result.variables[0].1, AutomationValue::String("then".to_owned()));
}

#[test]
fn unmatched_trigger_is_recorded_as_suppressed() {
    let mut unmatched = fixture();
    unmatched.trigger.kind = SimulationTriggerKind::DeviceEvent { target: target(), event: "double_push".to_owned() };
    let result = simulate(unmatched).expect("simulation");
    assert_eq!(result.status, AutomationSimulationStatus::Suppressed);
    assert_eq!(result.trace.len(), 1);
    assert_eq!(result.finished_at, STARTED_AT);
}

#[test]
fn plan_condition_gates_the_run() {
    let mut gated = fixture();
    gated.plan.condition = Some(light_is_on());
    let result = simulate(gated).expect("simulation");
    assert_eq!(result.status, AutomationSimulationStatus::Suppressed);
    assert!(matches!(result.trace[1].detail, TraceDetail::Condition { result: false }));
    assert!(result.command_intents.is_empty());
}

#[test]
fn self_triggered_runs_are_suppressed_by_version() {
    let mut own = fixture();
    own.trigger.caused_by_version = Some(1);
    assert_eq!(status(own), AutomationSimulationStatus::Suppressed);

    let mut other = fixture();
    other.trigger.caused_by_version = Some(2);
    assert_eq!(status(other), AutomationSimulationStatus::Completed);
}

#[test]
fn explicit_catch_up_trigger_needs_the_request() {
    let kind = SimulationTriggerKind::ExplicitCatchUp;
    assert!(trigger_matches(&kind, true, &Vec::new()));
    assert!(!trigger_matches(&kind, false, &plan().triggers));
    assert!(trigger_matches(&SimulationTriggerKind::Schedule, false, &plan().triggers));
}

#[test]
fn missing_node_is_reported() {
    let mut broken = fixture();
    broken.plan.entry = 99;
    assert!(matches!(simulate(broken), Err(AutomationSimulationError::MissingNode(99))));
}

#[test]
fn invalid_schedule_is_rejected() {
    let bad_zone = AutomationSchedule {
        cron: "30 2 * * *".to_owned(),
        timezone: "Mars/Olympus".to_owned(),
        occurrence_window_ms: 1,
    };
    assert!(matches!(
        AutomationSimulator::schedule_occurrences(&bad_zone, 0, 1),
        Err(AutomationSimulationError::InvalidSchedule)
    ));
    let bad_cron =
        AutomationSchedule { cron: "sometimes".to_owned(), timezone: "UTC".to_owned(), occurrence_window_ms: 1 };
    assert!(matches!(
        AutomationSimulator::schedule_occurrences(&bad_cron, 0, 1),
        Err(AutomationSimulationError::InvalidSchedule)
    ));
    let daily = AutomationSchedule { cron: "0 9 * * *".to_owned(), timezone: "UTC".to_owned(), occurrence_window_ms: 1 };
    let occurrences = AutomationSimulator::schedule_occurrences(&daily, 0, 2 * 86_400_000).expect("daily");
    assert_eq!(occurrences, vec![32_400_000, 86_400_000 + 32_400_000]);
}

#[test]
fn state_changes_are_sorted_by_instant() {
    let later = SimulationStateChange { at: 20, key: observation_key(), value: AutomationValue::Boolean(true) };
    let earlier = SimulationStateChange { at: 10, key: observation_key(), value: AutomationValue::Boolean(false) };
    let sorted = sort_changes(&vec![later, earlier]);
    assert_eq!(sorted[0].at, 10);
    assert_eq!(sorted[1].at, 20);
}

#[test]
fn trace_steps_are_numbered_by_position() {
    let result = simulate(fixture()).expect("simulation");
    assert!(!result.trace.is_empty());
    for (position, step) in result.trace.iter().enumerate() {
        assert_eq!(step.sequence, position as u64);
        assert_eq!((step.run_id, step.correlation_id, step.causation_event_id), (41, 42, Some(43)));
    }
}

#[test]
fn largest_step_budget_runs_normally() {
    let mut unbounded = fixture();
    unbounded.plan.budget.maximum_trace_steps = u32::MAX;
    let expected = simulate(fixture()).expect("simulation");
    let result = simulate(unbounded).expect("simulation with the largest budget");
    assert_eq!(result.status, expected.status);
    assert_eq!(result.trace.len(), expected.trace.len());
}

#[test]
fn repeated_local_time_yields_both_instants() {
    let schedule = AutomationSchedule {
        cron: "30 2 * * *".to_owned(),
        timezone: "Europe/Berlin".to_owned(),
        occurrence_window_ms: 60_000,
    };
    let occurrences =
        AutomationSimulator::schedule_occurrences(&schedule, 1_792_800_000_000, 1_793_016_000_000).expect("schedule");
    assert_eq!(occurrences, vec![1_792_801_800_000, 1_792_888_200_000, 1_792_891_800_000, 1_792_978_200_000]);
}
