use homemagic_application::matter_administration::{
    admission_decision, authorize, authorize_installation_action, cancellation_check, failure_phase,
    is_matter_administration_action, owned_for_action, page_limit, target_fabric, validate_target,
    visible_to_owner, MatterAdministrationError, MatterControllerErrorCode, MatterControllerFailure,
    MatterOperationBinding, MatterOperationKind, MatterOperationPhase, MatterOperationTarget, MatterRetryability,
};
use homemagic_application::digest::canonical_request_hash;
use homemagic_application::policy::{Actor, ActorGrant, CommandAction, GrantScope, RiskClass};

fn actor() -> Actor {
    Actor { id: 1, installation_id: 10, name: "Admin".to_owned(), enabled: true, created_at: 0 }
}

fn grant(action: CommandAction, scope: GrantScope, risk: RiskClass) -> ActorGrant {
    ActorGrant { id: 2, actor_id: 1, actions: vec![action], scope, maximum_risk: risk, enabled: true }
}

fn installation_grant(action: CommandAction) -> ActorGrant {
    grant(action, GrantScope::Installation { installation_id: 10 }, RiskClass::Security)
}

#[test]
fn administration_needs_an_exact_installation_security_grant() {
    let actor = actor();
    let exact = vec![installation_grant(CommandAction::MatterCreateFabric)];
    assert_eq!(authorize(&actor, &exact, CommandAction::MatterCreateFabric), Ok(()));
    assert_eq!(authorize(&actor, &exact, CommandAction::MatterRemoveNode), Err(MatterAdministrationError::Denied));
    let low_risk = vec![grant(
        CommandAction::MatterCreateFabric,
        GrantScope::Installation { installation_id: 10 },
        RiskClass::Mechanical,
    )];
    assert_eq!(authorize(&actor, &low_risk, CommandAction::MatterCreateFabric), Err(MatterAdministrationError::Denied));
    let device_scoped = vec![grant(CommandAction::MatterCreateFabric, GrantScope::Device { device_id: 3 }, RiskClass::Security)];
    assert_eq!(authorize(&actor, &device_scoped, CommandAction::MatterCreateFabric), Err(MatterAdministrationError::Denied));
    let mut disabled = actor.clone();
    disabled.enabled = false;
    assert_eq!(authorize(&disabled, &exact, CommandAction::MatterCreateFabric), Err(MatterAdministrationError::Denied));
}

#[test]
fn installation_actions_are_only_administration_actions() {
    let actor = actor();
    let grants = vec![installation_grant(CommandAction::MatterRead), installation_grant(CommandAction::Execute)];
    assert_eq!(authorize_installation_action(&actor, &grants, CommandAction::MatterRead), Ok(10));
    assert_eq!(
        authorize_installation_action(&actor, &grants, CommandAction::Execute),
        Err(MatterAdministrationError::Denied)
    );
    assert!(is_matter_administration_action(CommandAction::MatterRepairSubscription));
    assert!(!is_matter_administration_action(CommandAction::ReadAudit));
}

#[test]
fn admission_checks_target_fabric_installation_and_grant_in_order() {
    let actor = actor();
    let grants = vec![installation_grant(CommandAction::MatterCommissionNode)];
    let fabric = MatterOperationTarget::Fabric { fabric_id: 5 };
    let node = MatterOperationTarget::Node { fabric_id: 5, node_id: 8 };
    assert_eq!(
        admission_decision(&actor, &grants, MatterOperationKind::CommissionNode, &fabric, Some(10)),
        Ok(CommandAction::MatterCommissionNode)
    );
    assert_eq!(
        admission_decision(&actor, &grants, MatterOperationKind::CommissionNode, &node, Some(10)),
        Err(MatterAdministrationError::InvalidTarget)
    );
    assert_eq!(
        admission_decision(&actor, &grants, MatterOperationKind::CommissionNode, &fabric, None),
        Err(MatterAdministrationError::FabricNotFound)
    );
    assert_eq!(
        admission_decision(&actor, &grants, MatterOperationKind::CommissionNode, &fabric, Some(11)),
        Err(MatterAdministrationError::InstallationMismatch)
    );
    assert_eq!(
        admission_decision(&actor, &grants, MatterOperationKind::RemoveNode, &node, Some(10)),
        Err(MatterAdministrationError::Denied)
    );
    assert_eq!(MatterOperationBinding::action_for_kind(MatterOperationKind::CancelCommissioning), CommandAction::MatterCancelOperation);
    assert_eq!(target_fabric(&node), 5);
    assert_eq!(
        validate_target(MatterOperationKind::CancelCommissioning, &MatterOperationTarget::Operation { fabric_id: 5, operation_id: 2 }),
        Ok(())
    );
}

#[test]
fn operations_are_private_to_their_actor_and_bounded() {
    let binding = MatterOperationBinding {
        operation_id: 3,
        actor_id: 1,
        installation_id: 10,
        action: CommandAction::MatterExportFabric,
        idempotency_key: "key".to_owned(),
        request_hash: canonical_request_hash(b"{}"),
        policy_version: 1,
    };
    assert_eq!(visible_to_owner(Some(("op", binding.clone())), 1), Some("op"));
    assert_eq!(visible_to_owner(Some(("op", binding.clone())), 2), None);
    assert_eq!(owned_for_action(Some(("op", binding.clone())), 1, CommandAction::MatterExportFabric), Ok("op"));
    assert_eq!(
        owned_for_action(Some(("op", binding)), 1, CommandAction::MatterRestoreFabric),
        Err(MatterAdministrationError::OperationNotFound)
    );
    assert_eq!(page_limit(0), Err(MatterAdministrationError::InvalidPageLimit));
    assert_eq!(page_limit(256), Ok(()));
    assert_eq!(page_limit(257), Err(MatterAdministrationError::InvalidPageLimit));
}

#[test]
fn only_requested_commissioning_can_be_cancelled_and_failures_route_to_repair() {
    assert_eq!(cancellation_check(1, 1, MatterOperationKind::CommissionNode, MatterOperationPhase::Requested), Ok(()));
    assert_eq!(
        cancellation_check(1, 2, MatterOperationKind::CommissionNode, MatterOperationPhase::Requested),
        Err(MatterAdministrationError::OperationNotFound)
    );
    assert_eq!(
        cancellation_check(1, 1, MatterOperationKind::CommissionNode, MatterOperationPhase::Completed),
        Err(MatterAdministrationError::NotCancellable)
    );
    let indeterminate = MatterControllerFailure {
        code: MatterControllerErrorCode::OutcomeIndeterminate,
        retryability: MatterRetryability::Safe,
        has_repair: false,
    };
    assert_eq!(failure_phase(indeterminate), MatterOperationPhase::RepairRequired);
    let plain = MatterControllerFailure {
        code: MatterControllerErrorCode::UnsupportedOperation,
        retryability: MatterRetryability::Never,
        has_repair: false,
    };
    assert_eq!(failure_phase(plain), MatterOperationPhase::Failed);
    assert_eq!(MatterAdministrationError::InvalidPageLimit.message(), "Matter operation page limit must be between 1 and 256");
}
