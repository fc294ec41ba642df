use homemagic_application::application::{
    freshness_step, freshness_sweep, removal_step, AvailabilityState, DeviceFreshness, DeviceLifecycle, FreshnessReason, IntegrationRefresh, LifecycleTrigger,
};
use homemagic_application::automation_engine::{AutomationEngineError, AutomationRetentionResult};
use homemagic_application::digest::{canonical_request_hash, hex};
use homemagic_application::matter_controller::MatterFabricExport;
use homemagic_application::matter_diagnostics::{
    budget, controller_diagnostic, diagnostics_page_limit, subscription_freshness, MatterDiagnosticsError,
    MatterSubscriptionFreshness,
};
use homemagic_application::matter_administration::{
    MatterControllerErrorCode, MatterControllerFailure, MatterOperationPhase, MatterRetryability,
};
use homemagic_application::matter_fabric_workflow::{
    ensure_simulator, enter_workflow_phase, export_continuation, fabric_continuation, MatterFabricContinuation, MatterFabricLookup,
    MatterFabricWorkflowError, MatterSimulatorExport, MatterSimulatorRestoreInput, MatterWorkflowEvidence,
};
use homemagic_application::matter_node_workflow::MatterCommissioningInput;
use homemagic_application::matter_repository::{MatterRepairStatus, MatterRetentionResult, MatterUnlockConsumption};
use homemagic_application::matter_subscription::StoredMatterSubscriptionState;
use homemagic_application::policy::FreshnessState;
use homemagic_application::ports::{CanonicalRequestHash, Clock, SecretStoreError, SecretValue, SystemClock};

#[test]
fn freshness_moves_devices_between_online_degraded_and_offline() {
    let fresh = freshness_step(DeviceLifecycle::Stale, AvailabilityState::Degraded, FreshnessState::Fresh).expect("change");
    assert_eq!(fresh.lifecycle, DeviceLifecycle::Enrolled);
    assert_eq!(fresh.availability, AvailabilityState::Online);
    assert_eq!(fresh.reason, None);
    assert_eq!(fresh.lifecycle_change, Some((DeviceLifecycle::Stale, DeviceLifecycle::Enrolled, LifecycleTrigger::Rediscover)));
    let offline = freshness_step(DeviceLifecycle::Enrolled, AvailabilityState::Online, FreshnessState::Offline).expect("change");
    assert_eq!(offline.lifecycle, DeviceLifecycle::Stale);
    assert_eq!(offline.availability, AvailabilityState::Offline);
    assert_eq!(offline.reason, Some(FreshnessReason::FreshnessTimeout));
    assert_eq!(offline.availability_change, Some((AvailabilityState::Online, AvailabilityState::Offline)));
    assert_eq!(freshness_step(DeviceLifecycle::Enrolled, AvailabilityState::Online, FreshnessState::Fresh), None);
    assert_eq!(freshness_step(DeviceLifecycle::Enrolled, AvailabilityState::Sleeping, FreshnessState::Sleeping), None);
    assert_eq!(freshness_step(DeviceLifecycle::Candidate, AvailabilityState::Online, FreshnessState::Offline), None);
    let degraded = freshness_step(DeviceLifecycle::Stale, AvailabilityState::Online, FreshnessState::Stale).expect("change");
    assert_eq!(degraded.lifecycle_change, None);
    assert_eq!(degraded.reason, Some(FreshnessReason::Stale));
    let refresh = IntegrationRefresh { integration: "test".to_owned(), devices: 2, repairs: 0 };
    assert_eq!(refresh.devices, 2);
}

#[test]
fn diagnostics_budgets_saturate_and_freshness_needs_an_established_subscription() {
    let used = budget(3, 5);
    assert_eq!((used.used, used.maximum, used.remaining), (3, 5, 2));
    assert_eq!(budget(7, 5).remaining, 0);
    assert_eq!(subscription_freshness(StoredMatterSubscriptionState::Established, 100, 99), MatterSubscriptionFreshness::Fresh);
    assert_eq!(subscription_freshness(StoredMatterSubscriptionState::Established, 100, 100), MatterSubscriptionFreshness::Stale);
    assert_eq!(subscription_freshness(StoredMatterSubscriptionState::Stale, 100, 0), MatterSubscriptionFreshness::Stale);
    assert!(!controller_diagnostic(None).available);
    let live = controller_diagnostic(Some((3, 77)));
    assert_eq!((live.available, live.node_count, live.verified_at), (true, Some(3), Some(77)));
    assert_eq!(diagnostics_page_limit(0), Err(MatterDiagnosticsError::InvalidPageLimit));
    assert_eq!(diagnostics_page_limit(256), Ok(()));
    assert_eq!(MatterDiagnosticsError::InvalidPageLimit.message(), "Matter diagnostics page limit must be between 1 and 256");
}

#[test]
fn request_hashes_are_canonical_sha256_hex() {
    let hash = canonical_request_hash(b"abc");
    assert_eq!(hash.as_str(), "ba7816bf8f01cfea414140de5dae2223b00361a396177a9cb410ff61f20015ad");
    assert_eq!(hex(&[0x00, 0x0f, 0xa5]), "000fa5");
    assert!(CanonicalRequestHash::new("ba7816bf8f01cfea414140de5dae2223b00361a396177a9cb410ff61f20015ad".to_owned()).is_ok());
    assert!(CanonicalRequestHash::new("BA7816BF8F01CFEA414140DE5DAE2223B00361A396177A9CB410FF61F20015AD".to_owned()).is_err());
    assert!(CanonicalRequestHash::new("abc".to_owned()).is_err());
}

#[test]
fn simulator_artifacts_are_labelled_and_redacted() {
    let export = MatterSimulatorExport::new(MatterFabricExport::new(
        "homemagic.matter-fabric.simulator.v1",
        SecretValue::new(b"envelope".to_vec()),
        SecretValue::new(b"key".to_vec()),
    ));
    assert_eq!(export.evidence, MatterWorkflowEvidence::DeterministicSimulator);
    assert_eq!(export.format(), "homemagic.matter-fabric.simulator.v1");
    assert_eq!(export.envelope(), b"envelope");
    assert_eq!(export.recovery_key(), b"key");
    assert_eq!(export.debug_string().matches("[REDACTED]").count(), 2);
    let restore = MatterSimulatorRestoreInput::new(SecretValue::new(b"envelope".to_vec()), SecretValue::new(b"key".to_vec()));
    assert!(!restore.debug_string().contains("envelope\""));
    let request = restore.into_restore_request(4, 5);
    assert_eq!((request.operation_id(), request.expected_fabric_id()), (4, 5));
    assert_eq!(request.envelope(), b"envelope");
    let input = MatterCommissioningInput::new(SecretValue::new(b"MT:payload".to_vec()));
    assert_eq!(input.debug_string(), "MatterCommissioningInput { setup_payload: \"[REDACTED]\" }");
    let commissioning = input.into_controller_request(1, 2);
    assert_eq!(commissioning.setup_payload(), b"MT:payload");
}

#[test]
fn records_and_errors_render_stable_texts() {
    let error = SecretStoreError { backend: "file", operation: "read", code: "missing" };
    assert_eq!(error.message(), "secret backend `file` failed during `read` (missing)");
    assert_eq!(AutomationEngineError::Recovery("boom".to_owned()).message(), "automation engine recovery stage failed");
    assert_eq!(AutomationRetentionResult::default().runs, 0);
    assert_eq!(MatterRetentionResult::default().repairs_removed, 0);
    assert_ne!(MatterRepairStatus::Open, MatterRepairStatus::Resolved);
    assert_ne!(MatterUnlockConsumption::Consumed, MatterUnlockConsumption::Expired);
    assert!(SystemClock.now() > 1_700_000_000_000);
}

#[test]
fn workflow_runs_enter_their_working_phase() {
    assert!(matches!(
        enter_workflow_phase(MatterOperationPhase::Requested, MatterOperationPhase::CreatingFabric, None),
        Ok(true)
    ));
    assert!(matches!(
        enter_workflow_phase(MatterOperationPhase::CreatingFabric, MatterOperationPhase::CreatingFabric, None),
        Ok(false)
    ));
    assert!(matches!(
        enter_workflow_phase(MatterOperationPhase::LoadingFabric, MatterOperationPhase::Restoring, Some(MatterOperationPhase::LoadingFabric)),
        Ok(false)
    ));
    assert!(matches!(
        enter_workflow_phase(MatterOperationPhase::Exporting, MatterOperationPhase::CreatingFabric, None),
        Err(MatterFabricWorkflowError::InvalidOperationState)
    ));
}

#[test]
fn live_fabric_decides_create_and_restore_continuation() {
    let failure = MatterControllerFailure {
        code: MatterControllerErrorCode::Other,
        retryability: MatterRetryability::Safe,
        has_repair: false,
    };
    assert_eq!(fabric_continuation(false, MatterFabricLookup::Present), MatterFabricContinuation::AdoptLive);
    assert_eq!(fabric_continuation(true, MatterFabricLookup::Absent), MatterFabricContinuation::Invoke);
    match fabric_continuation(true, MatterFabricLookup::Present) {
        MatterFabricContinuation::Terminal(e) => {
            assert_eq!((e.code, e.retryability, e.has_repair), (MatterControllerErrorCode::FabricConflict, MatterRetryability::Never, false));
        }
        other => panic!("unexpected continuation {other:?}"),
    }
    match fabric_continuation(false, MatterFabricLookup::Absent) {
        MatterFabricContinuation::Terminal(e) => {
            assert_eq!((e.code, e.retryability, e.has_repair), (MatterControllerErrorCode::OutcomeIndeterminate, MatterRetryability::AfterRepair, true));
        }
        other => panic!("unexpected continuation {other:?}"),
    }
    assert_eq!(fabric_continuation(true, MatterFabricLookup::Failed(failure)), MatterFabricContinuation::Terminal(failure));
    assert_eq!(export_continuation(true), MatterFabricContinuation::Invoke);
    assert!(matches!(export_continuation(false), MatterFabricContinuation::Terminal(_)));
}

#[test]
fn freshness_sweep_reports_each_changed_device_in_order() {
    let devices = vec![
        DeviceFreshness {
            lifecycle: DeviceLifecycle::Enrolled,
            availability: AvailabilityState::Online,
            freshness: FreshnessState::Fresh,
        },
        DeviceFreshness {
            lifecycle: DeviceLifecycle::Enrolled,
            availability: AvailabilityState::Online,
            freshness: FreshnessState::Offline,
        },
        DeviceFreshness {
            lifecycle: DeviceLifecycle::Candidate,
            availability: AvailabilityState::Unknown,
            freshness: FreshnessState::Stale,
        },
        DeviceFreshness {
            lifecycle: DeviceLifecycle::Stale,
            availability: AvailabilityState::Degraded,
            freshness: FreshnessState::Fresh,
        },
    ];
    let changes = freshness_sweep(&devices);
    assert_eq!(changes.len(), 2);
    assert_eq!(changes[0].0, 1);
    assert_eq!(changes[0].1.lifecycle, DeviceLifecycle::Stale);
    assert_eq!(changes[0].1.availability, AvailabilityState::Offline);
    assert_eq!(changes[0].1.reason, Some(FreshnessReason::FreshnessTimeout));
    assert_eq!(changes[1].0, 3);
    assert_eq!(changes[1].1.lifecycle, DeviceLifecycle::Enrolled);
    assert_eq!(changes[1].1.availability, AvailabilityState::Online);
    assert_eq!(changes[1].1.lifecycle_change, Some((DeviceLifecycle::Stale, DeviceLifecycle::Enrolled, LifecycleTrigger::Rediscover)));
    assert!(freshness_sweep(&Vec::new()).is_empty());
}

#[test]
fn fabric_workflows_run_only_on_the_deterministic_simulator() {
    assert!(ensure_simulator("homemagic-deterministic-simulator").is_ok());
    assert!(matches!(ensure_simulator("matter-sdk"), Err(MatterFabricWorkflowError::SimulatorOnly)));
    assert!(matches!(ensure_simulator(""), Err(MatterFabricWorkflowError::SimulatorOnly)));
}

#[test]
fn removal_takes_a_device_offline_once() {
    let removal = removal_step(DeviceLifecycle::Enrolled, AvailabilityState::Online).expect("removal");
    assert_eq!(
        removal.lifecycle_change,
        (DeviceLifecycle::Enrolled, DeviceLifecycle::Removed, LifecycleTrigger::Remove)
    );
    assert_eq!(removal.availability_change, (AvailabilityState::Online, AvailabilityState::Offline));
    assert!(removal_step(DeviceLifecycle::Removed, AvailabilityState::Offline).is_none());
}

struct FixedClock(i64);

impl Clock for FixedClock {
    fn now(&self) -> i64 {
        self.0
    }
}

#[test]
fn clock_port_should_allow_deterministic_time() {
    let expected = SystemClock.now();
    let clock = FixedClock(expected);

    assert_eq!(clock.now(), expected);
}
