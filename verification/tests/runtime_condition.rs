use homemagic_application::automation_evaluator::{
    AutomationEvaluationError, ResolvedAutomationCondition, SnapshotEvaluationContext,
};
use homemagic_application::automation_runtime::{
    AutomationConditionDuration, AutomationConditionDurationPhase, AutomationTimerState, RuntimeDurationRequest,
};
use homemagic_application::runtime_condition::{condition_eq, evaluate_runtime_condition, ConditionDigest};

const NOW: i64 = 1_783_857_600_000;

fn snapshot() -> SnapshotEvaluationContext {
    SnapshotEvaluationContext { now: NOW, observations: Vec::new(), decimal_orders: Vec::new() }
}

fn held_for(inner: bool) -> ResolvedAutomationCondition {
    ResolvedAutomationCondition::StateDuration {
        condition: Box::new(ResolvedAutomationCondition::Literal { value: inner }),
        duration_ms: 60_000,
    }
}

fn digests() -> Vec<ConditionDigest> {
    vec![
        ConditionDigest {
            condition: ResolvedAutomationCondition::Literal { value: true },
            duration_ms: 60_000,
            hash: "held-true".to_owned(),
        },
        ConditionDigest {
            condition: ResolvedAutomationCondition::Literal { value: false },
            duration_ms: 60_000,
            hash: "held-false".to_owned(),
        },
    ]
}

fn interval(hash: &str, timer_id: u64, phase: AutomationConditionDurationPhase) -> AutomationConditionDuration {
    AutomationConditionDuration {
        node_id: 3,
        condition_hash: hash.to_owned(),
        duration_ms: 60_000,
        ready_at: NOW + 60_000,
        timer_id,
        phase,
    }
}

#[test]
fn true_condition_without_interval_starts_one() {
    let outcome = evaluate_runtime_condition(&held_for(true), &Vec::new(), snapshot(), 7, 3, &Vec::new(), &Vec::new(), digests());
    assert_eq!(outcome.result, Err(AutomationEvaluationError::DurableDurationRequired));
    match outcome.request {
        Some(RuntimeDurationRequest::Start { node_id, condition_hash, duration_ms, ready_at }) => {
            assert_eq!((node_id, condition_hash.as_str(), duration_ms, ready_at), (3, "held-true", 60_000, NOW + 60_000));
        }
        other => panic!("unexpected {other:?}"),
    }
    assert!(outcome.reset.is_empty());
}

#[test]
fn mature_interval_holds_and_false_condition_resets_its_interval() {
    let durations = vec![
        interval("held-true", 11, AutomationConditionDurationPhase::Mature),
        interval("held-false", 12, AutomationConditionDurationPhase::Pending),
    ];
    let timers = vec![(11, AutomationTimerState::Consumed), (12, AutomationTimerState::Pending)];
    let holds = evaluate_runtime_condition(&held_for(true), &Vec::new(), snapshot(), 7, 3, &durations, &timers, digests());
    assert_eq!(holds.result, Ok(true));
    assert!(holds.request.is_none());
    assert_eq!(holds.durations.len(), 2);

    let reset = evaluate_runtime_condition(&held_for(false), &Vec::new(), snapshot(), 7, 3, &durations, &timers, digests());
    assert_eq!(reset.result, Ok(false));
    assert_eq!(reset.reset, vec!["held-false".to_owned()]);
    assert_eq!(reset.durations.len(), 1);
    assert_eq!(reset.durations[0].condition_hash, "held-true");
    assert_eq!(reset.reset_timers, vec![(12, AutomationTimerState::Cancelled)]);
    assert_eq!(reset.active_timers, vec![(11, AutomationTimerState::Consumed)]);
}

#[test]
fn unhashed_condition_fails_and_equality_is_structural() {
    let outcome = evaluate_runtime_condition(&held_for(true), &Vec::new(), snapshot(), 7, 3, &Vec::new(), &Vec::new(), Vec::new());
    assert_eq!(outcome.result, Err(AutomationEvaluationError::ConditionHash));
    assert!(condition_eq(&held_for(true), &held_for(true)));
    assert!(!condition_eq(&held_for(true), &held_for(false)));
}
