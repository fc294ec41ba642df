use homemagic_application::automation_compiler::CommandPayloadKind;
use homemagic_application::automation_runtime::{CommandErrorCode, CommandState};
use homemagic_application::command_service::{
    cancellation_check, recovery_action, CommandRecoveryAction, constraint_state, effective_payload, requested_descriptor, validate_target, CapabilityDescriptor, CapabilitySnapshot,
    CommandDevice, CommandServiceError, EndpointDescriptors, EndpointSnapshot, NoopCommandAuditSink,
};
use homemagic_application::matter_commands::{
    desired_value, dispatch_decision, is_replaceable, unlock_authorization_expiry, MatterCommandControlError,
    MatterDesiredCommandSlot, MatterDispatchDecision,
};
use homemagic_application::matter_controller::MatterLockState;
use homemagic_application::matter_projection::MatterStateValue;
use homemagic_application::policy::{ConstraintState, FreshnessState, RiskClass};

fn slot(command_id: u64, dispatched: bool) -> MatterDesiredCommandSlot {
    MatterDesiredCommandSlot {
        projection_id: 1,
        desired_revision: 4,
        command_id,
        dispatched_at: if dispatched { Some(10) } else { None },
        updated_at: 5,
    }
}

#[test]
fn replaceable_commands_have_desired_values() {
    assert!(is_replaceable(CommandPayloadKind::OnOffSet(true)));
    assert!(is_replaceable(CommandPayloadKind::Unlock));
    assert!(!is_replaceable(CommandPayloadKind::OnOffToggle));
    assert_eq!(desired_value(CommandPayloadKind::Lock), Some(MatterStateValue::Lock(MatterLockState::Locked)));
    assert_eq!(desired_value(CommandPayloadKind::OnOffSet(false)), Some(MatterStateValue::OnOff(false)));
    assert_eq!(desired_value(CommandPayloadKind::Level), None);
}

#[test]
fn dispatch_commits_only_the_slot_owner_and_holds_unlocks() {
    assert_eq!(dispatch_decision(false, None, 1, CommandPayloadKind::Level), Ok(MatterDispatchDecision::Unmanaged));
    assert_eq!(dispatch_decision(true, None, 1, CommandPayloadKind::Lock), Err(MatterCommandControlError::DesiredSlotMissing));
    assert_eq!(dispatch_decision(true, Some(slot(2, false)), 1, CommandPayloadKind::Lock), Ok(MatterDispatchDecision::Superseded));
    assert_eq!(
        dispatch_decision(true, Some(slot(1, false)), 1, CommandPayloadKind::Unlock),
        Ok(MatterDispatchDecision::AwaitingUnlockAuthorization)
    );
    assert_eq!(dispatch_decision(true, Some(slot(1, false)), 1, CommandPayloadKind::Lock), Ok(MatterDispatchDecision::Commit));
}

#[test]
fn unlock_authorizations_last_sixty_seconds_or_until_the_deadline() {
    assert_eq!(unlock_authorization_expiry(true, CommandPayloadKind::Unlock, 1_000, 1_000_000), Ok(61_000));
    assert_eq!(unlock_authorization_expiry(true, CommandPayloadKind::Unlock, 1_000, 5_000), Ok(5_000));
    assert_eq!(
        unlock_authorization_expiry(true, CommandPayloadKind::Unlock, 1_000, 1_000),
        Err(MatterCommandControlError::UnlockApprovalExpired)
    );
    assert_eq!(
        unlock_authorization_expiry(false, CommandPayloadKind::Unlock, 1_000, 5_000),
        Err(MatterCommandControlError::InvalidUnlockApproval)
    );
    assert_eq!(
        unlock_authorization_expiry(true, CommandPayloadKind::Lock, 1_000, 5_000),
        Err(MatterCommandControlError::InvalidUnlockApproval)
    );
    assert_eq!(MatterCommandControlError::UnlockApprovalRejected.message(), "unlock approval was rejected at dispatch boundary");
}

fn device() -> CommandDevice {
    CommandDevice {
        observed_at: Some(50),
        endpoints: vec![
            EndpointSnapshot { id: "switch:0".to_owned(), capabilities: vec![CapabilitySnapshot::OnOff { on: true }] },
            EndpointSnapshot { id: "cover:0".to_owned(), capabilities: vec![CapabilitySnapshot::Position { percent: None }] },
        ],
        capability_descriptors: vec![EndpointDescriptors {
            endpoint_id: "switch:0".to_owned(),
            descriptors: vec![CapabilityDescriptor { name: "on_off".to_owned(), version: 1, risk: RiskClass::Comfort }],
        }],
    }
}

#[test]
fn toggles_become_explicit_sets_only_against_fresh_state() {
    let device = device();
    assert_eq!(
        effective_payload(CommandPayloadKind::OnOffToggle, "switch:0", &device, FreshnessState::Fresh),
        CommandPayloadKind::OnOffSet(false)
    );
    assert_eq!(
        effective_payload(CommandPayloadKind::OnOffToggle, "switch:0", &device, FreshnessState::Stale),
        CommandPayloadKind::OnOffToggle
    );
    assert_eq!(
        effective_payload(CommandPayloadKind::OnOffToggle, "missing", &device, FreshnessState::Fresh),
        CommandPayloadKind::OnOffToggle
    );
    assert_eq!(constraint_state(CommandPayloadKind::PositionGoTo(40), "cover:0", &device), ConstraintState::Unavailable);
    assert_eq!(constraint_state(CommandPayloadKind::PositionMove, "cover:0", &device), ConstraintState::Available);
}

#[test]
fn targets_are_validated_in_order() {
    let device = device();
    let on_off = requested_descriptor(CommandPayloadKind::OnOffSet(true)).expect("descriptor");
    assert_eq!((on_off.name.as_str(), on_off.version, on_off.risk), ("on_off", 1, RiskClass::Comfort));
    assert!(matches!(requested_descriptor(CommandPayloadKind::Unlock), Err(CommandServiceError::InvalidDescriptor)));
    let position = requested_descriptor(CommandPayloadKind::PositionMove).expect("descriptor");
    assert_eq!(position.risk, RiskClass::Mechanical);
    assert_eq!(validate_target(Ok(()), &on_off, "switch:0", Some(50), CommandPayloadKind::OnOffSet(true), &device), Ok(()));
    assert_eq!(
        validate_target(Err(CommandErrorCode::DeadlineExceeded), &on_off, "switch:0", None, CommandPayloadKind::OnOffSet(true), &device),
        Err(CommandErrorCode::DeadlineExceeded)
    );
    assert_eq!(
        validate_target(Ok(()), &on_off, "cover:0", None, CommandPayloadKind::OnOffSet(true), &device),
        Err(CommandErrorCode::CapabilityMismatch)
    );
    assert_eq!(
        validate_target(Ok(()), &on_off, "switch:0", Some(49), CommandPayloadKind::OnOffSet(true), &device),
        Err(CommandErrorCode::StaleObservation)
    );
    assert_eq!(
        validate_target(Ok(()), &on_off, "switch:0", None, CommandPayloadKind::OnOffToggle, &device),
        Err(CommandErrorCode::StaleObservation)
    );
    assert!(NoopCommandAuditSink.publish(&"audit").is_ok());
}

#[test]
fn recovery_resumes_each_command_state() {
    assert_eq!(recovery_action(CommandState::Received, 10, 10), CommandRecoveryAction::TimeOut);
    assert_eq!(recovery_action(CommandState::Received, 11, 10), CommandRecoveryAction::Validate);
    assert_eq!(recovery_action(CommandState::Validated, 9, 10), CommandRecoveryAction::TimeOut);
    assert_eq!(recovery_action(CommandState::Validated, 11, 10), CommandRecoveryAction::Evaluate);
    assert_eq!(recovery_action(CommandState::Acknowledged, 0, 10), CommandRecoveryAction::Confirm);
    assert_eq!(recovery_action(CommandState::Confirmed, 0, 10), CommandRecoveryAction::Nothing);
    assert_eq!(cancellation_check(CommandState::Validated), Ok(()));
    assert_eq!(cancellation_check(CommandState::Dispatched), Err(CommandServiceError::NotCancellable));
}
