use homemagic_application::matter_administration::MatterOperationPhase;
use homemagic_application::matter_subscription::{
    MatterSubscriptionLossReason, MatterSubscriptionRecoveryPolicy, StoredMatterSubscriptionState,
};
use homemagic_application::matter_subscription_repair::{
    begin_gap, record_gap_read, record_subscribe_failure, record_subscribed, repair_phase_step, subscribe_gate,
    MatterRepairPhaseStep, MatterSubscriptionRepairError, MatterSubscriptionRepairOutcome,
    StoredMatterSubscriptionProgress, StoredMatterSubscriptionRecovery,
};

const AT: i64 = 1_783_857_600_000;

fn stored() -> StoredMatterSubscriptionProgress {
    StoredMatterSubscriptionProgress {
        state: StoredMatterSubscriptionState::Established,
        report_sequence: 7,
        stale_after: AT,
        recovery: StoredMatterSubscriptionRecovery {
            gap_reason: None,
            sleepy: true,
            gap_reads: 3,
            maximum_gap_reads: 9,
            subscribe_attempts: 4,
            maximum_subscribe_attempts: 9,
            retry_at: Some(AT - 5),
            last_gap_read_at: Some(AT - 100),
            sleepy_read_interval_millis: 1,
        },
        revision: 10,
        updated_at: AT - 1_000,
    }
}

#[test]
fn each_phase_maps_to_one_repair_step() {
    assert!(matches!(repair_phase_step(MatterOperationPhase::Requested), Ok(MatterRepairPhaseStep::BeginGap)));
    assert!(matches!(repair_phase_step(MatterOperationPhase::ReadingGap), Ok(MatterRepairPhaseStep::ReadGap)));
    assert!(matches!(repair_phase_step(MatterOperationPhase::Subscribing), Ok(MatterRepairPhaseStep::Subscribe)));
    assert!(matches!(
        repair_phase_step(MatterOperationPhase::RepairRequired),
        Ok(MatterRepairPhaseStep::Finished(MatterSubscriptionRepairOutcome::RepairRequired))
    ));
    assert!(matches!(repair_phase_step(MatterOperationPhase::Exporting), Err(MatterSubscriptionRepairError::InvalidPhase)));
}

#[test]
fn gap_restarts_bookkeeping_under_the_policy() {
    let policy = MatterSubscriptionRecoveryPolicy::default();
    let mut sub = stored();
    begin_gap(&mut sub, &policy, AT);
    assert_eq!(sub.state, StoredMatterSubscriptionState::RepairRequired);
    assert_eq!(sub.recovery.gap_reason, Some(MatterSubscriptionLossReason::ReportGap));
    assert_eq!((sub.recovery.gap_reads, sub.recovery.subscribe_attempts), (0, 0));
    assert_eq!(sub.recovery.maximum_subscribe_attempts, 5);
    assert_eq!(sub.recovery.sleepy_read_interval_millis, 60_000);
    assert_eq!(sub.recovery.retry_at, None);
    assert!(sub.recovery.sleepy);
    assert_eq!(sub.recovery.last_gap_read_at, Some(AT - 100));
    assert_eq!((sub.revision, sub.updated_at), (11, AT));

    record_gap_read(&mut sub, AT + 1);
    assert_eq!((sub.recovery.gap_reads, sub.recovery.subscribe_attempts), (1, 1));
    assert_eq!(sub.recovery.last_gap_read_at, Some(AT + 1));
    assert_eq!(sub.revision, 12);
}

#[test]
fn subscribe_waits_for_its_deadline() {
    let mut early = stored();
    early.recovery.retry_at = Some(AT + 5);
    let before = early;
    assert_eq!(subscribe_gate(&mut early, AT), Some(AT + 5));
    assert_eq!(early, before);

    let mut due = stored();
    assert_eq!(subscribe_gate(&mut due, AT), None);
    assert_eq!((due.recovery.subscribe_attempts, due.recovery.retry_at, due.revision), (5, None, 11));
}

#[test]
fn established_subscription_is_fresh_for_one_report_interval() {
    let policy = MatterSubscriptionRecoveryPolicy::default();
    let mut sub = stored();
    record_subscribed(&mut sub, &policy, 42, AT, AT + 3);
    assert_eq!(sub.state, StoredMatterSubscriptionState::Established);
    assert_eq!(sub.report_sequence, 42);
    assert_eq!(sub.stale_after, AT + 60_000);
    assert_eq!(sub.recovery.gap_reason, None);
    assert_eq!(sub.recovery.subscribe_attempts, 0);
    assert_eq!(sub.updated_at, AT + 3);
}

#[test]
fn failed_subscribe_waits_then_requires_repair() {
    let mut sub = stored();
    assert_eq!(
        record_subscribe_failure(&mut sub, Some(AT + 500), AT).unwrap(),
        MatterSubscriptionRepairOutcome::Waiting { retry_at: AT + 500 }
    );
    assert_eq!(sub.recovery.retry_at, Some(AT + 500));

    let mut unrepresentable = stored();
    let before = unrepresentable;
    assert!(matches!(
        record_subscribe_failure(&mut unrepresentable, None, AT),
        Err(MatterSubscriptionRepairError::InvalidRetryDeadline)
    ));
    assert_eq!(unrepresentable, before);

    let mut spent = stored();
    spent.recovery.subscribe_attempts = 9;
    assert_eq!(
        record_subscribe_failure(&mut spent, Some(AT + 500), AT).unwrap(),
        MatterSubscriptionRepairOutcome::RepairRequired
    );
    assert_eq!(spent.state, StoredMatterSubscriptionState::RepairRequired);
    assert_eq!(spent.recovery.retry_at, None);
}
