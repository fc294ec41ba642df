use homemagic_application::matter_controller::{MatterAttributePath, MatterAttributeSelection};
use homemagic_application::matter_subscription::{
    deterministic_jitter, MatterSubscriptionLossReason, MatterSubscriptionRecovery, MatterSubscriptionRecoveryAction,
    MatterSubscriptionRecoveryError, MatterSubscriptionRecoveryOutcome, MatterSubscriptionRecoveryPolicy,
    StoredMatterSubscriptionState,
};

fn selection() -> MatterAttributeSelection {
    MatterAttributeSelection::new(vec![MatterAttributePath { node_id: 42, endpoint: 1, cluster_id: 6, attribute_id: 0 }])
        .expect("selection")
}

fn policy() -> MatterSubscriptionRecoveryPolicy {
    MatterSubscriptionRecoveryPolicy::new(2, 1, 500, 30_000, 250, 60_000).expect("policy")
}

#[test]
fn recovery_marks_stale_reads_the_gap_then_resubscribes() {
    let mut recovery = MatterSubscriptionRecovery::from_stored(
        "sub-1".to_owned(),
        5,
        42,
        StoredMatterSubscriptionState::Established,
        selection(),
        1_000,
        60_000,
        false,
        policy(),
    );
    match recovery.next_action(0) {
        MatterSubscriptionRecoveryAction::MarkStale { reason } => {
            assert_eq!(reason, MatterSubscriptionLossReason::ControllerRestarted)
        }
        other => panic!("unexpected {other:?}"),
    }
    assert_eq!(
        recovery.record_outcome(MatterSubscriptionRecoveryOutcome::Resubscribed, 0),
        Err(MatterSubscriptionRecoveryError::UnexpectedOutcome)
    );
    recovery.record_outcome(MatterSubscriptionRecoveryOutcome::StalePersisted, 0).expect("stale persisted");
    match recovery.next_action(10) {
        MatterSubscriptionRecoveryAction::GapRead(read) => {
            assert_eq!((read.fabric_id, read.node_id), (5, 42));
            assert_eq!(read.selection.paths().len(), 1);
        }
        other => panic!("unexpected {other:?}"),
    }
    recovery.record_outcome(MatterSubscriptionRecoveryOutcome::GapReadCompleted, 10).expect("gap read");
    match recovery.next_action(20) {
        MatterSubscriptionRecoveryAction::Resubscribe(request) => {
            assert_eq!(request.subscription_id, "sub-1");
            assert_eq!((request.fabric_id, request.node_id), (5, 42));
        }
        other => panic!("unexpected {other:?}"),
    }
    recovery.record_outcome(MatterSubscriptionRecoveryOutcome::Resubscribed, 20).expect("resubscribed");
    assert!(matches!(recovery.next_action(30), MatterSubscriptionRecoveryAction::Complete));
    assert!(recovery.record_outcome(MatterSubscriptionRecoveryOutcome::StalePersisted, 30).is_err());
}

#[test]
fn failed_resubscribes_wait_with_capped_backoff_then_require_repair() {
    let mut recovery = MatterSubscriptionRecovery::after_loss(
        "sub-2".to_owned(),
        5,
        42,
        selection(),
        1_000,
        60_000,
        MatterSubscriptionLossReason::ReportGap,
        false,
        None,
        policy(),
    );
    recovery.record_outcome(MatterSubscriptionRecoveryOutcome::StalePersisted, 0).expect("stale");
    recovery.record_outcome(MatterSubscriptionRecoveryOutcome::GapReadFailed, 0).expect("gap read failed");
    recovery.record_outcome(MatterSubscriptionRecoveryOutcome::ResubscribeFailed, 1_000).expect("first failure");
    let retry_at = match recovery.next_action(1_000) {
        MatterSubscriptionRecoveryAction::WaitUntil(at) => at,
        other => panic!("unexpected {other:?}"),
    };
    assert!(retry_at > 1_000 && retry_at <= 1_000 + 30_000);
    assert!(matches!(recovery.next_action(retry_at), MatterSubscriptionRecoveryAction::Resubscribe(_)));
    recovery.record_outcome(MatterSubscriptionRecoveryOutcome::ResubscribeFailed, retry_at).expect("second failure");
    assert!(matches!(recovery.next_action(retry_at), MatterSubscriptionRecoveryAction::RepairRequired));
}

#[test]
fn jitter_is_deterministic_and_bounded() {
    let first = deterministic_jitter("sub-1", 1, 250);
    assert_eq!(first, deterministic_jitter("sub-1", 1, 250));
    assert!(first <= 250);
    assert_eq!(deterministic_jitter("sub-1", 1, 0), 0);
    assert!(MatterSubscriptionRecoveryPolicy::new(0, 1, 500, 30_000, 250, 60_000).is_err());
    assert!(MatterSubscriptionRecoveryPolicy::new(1, 1, 500, 400, 250, 60_000).is_err());
    let default_policy = MatterSubscriptionRecoveryPolicy::default();
    assert_eq!(default_policy.maximum_subscribe_attempts, 5);
    assert_eq!(default_policy.maximum_delay_millis, 30_000);
}

#[test]
fn resubscribe_outcomes_are_refused_when_no_request_can_be_built() {
    let mut recovery = MatterSubscriptionRecovery::after_loss(
        "sub-3".to_owned(),
        5,
        42,
        selection(),
        2_000,
        1_000,
        MatterSubscriptionLossReason::ReportGap,
        false,
        None,
        policy(),
    );
    recovery.record_outcome(MatterSubscriptionRecoveryOutcome::StalePersisted, 0).expect("stale");
    recovery.record_outcome(MatterSubscriptionRecoveryOutcome::GapReadCompleted, 0).expect("gap read");
    assert_eq!(
        recovery.record_outcome(MatterSubscriptionRecoveryOutcome::Resubscribed, 0),
        Err(MatterSubscriptionRecoveryError::UnexpectedOutcome)
    );
    assert!(matches!(recovery.next_action(0), MatterSubscriptionRecoveryAction::RepairRequired));
    assert_eq!(
        recovery.record_outcome(MatterSubscriptionRecoveryOutcome::ResubscribeFailed, 0),
        Err(MatterSubscriptionRecoveryError::UnexpectedOutcome)
    );
    assert!(matches!(recovery.next_action(10), MatterSubscriptionRecoveryAction::RepairRequired));
}
