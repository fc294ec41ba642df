use homemagic_application::matter_controller::{
    MatterAttributePath, MatterAttributeSelection, MatterCommissioningRequest, MatterControllerCommand,
    MatterControllerContractError, MatterControllerItems, MatterFabricExport, MatterInvokeRequest,
    MatterRestoreRequest, MAX_MATTER_CONTROLLER_RESPONSE_ITEMS,
};
use homemagic_application::ports::SecretValue;

#[test]
fn fabric_export_debug_should_redact_envelope_and_key() {
    let export = MatterFabricExport::new(
        "homemagic.matter-fabric.v1",
        SecretValue::new(b"secret-envelope".to_vec()),
        SecretValue::new(b"secret-recovery-key".to_vec()),
    );

    let debug = export.debug_string();

    assert_eq!(debug.matches("[REDACTED]").count(), 2);
}

#[test]
fn controller_items_should_reject_oversized_response() {
    let items = vec![(); MAX_MATTER_CONTROLLER_RESPONSE_ITEMS + 1];

    let result = MatterControllerItems::new(items);

    assert_eq!(result, Err(MatterControllerContractError::TooManyResponseItems));
}

#[test]
fn attribute_selection_should_reject_duplicate_paths() {
    let path = MatterAttributePath { node_id: 42, endpoint: 1, cluster_id: 6, attribute_id: 0 };

    let result = MatterAttributeSelection::new(vec![path, path]);

    assert!(matches!(result, Err(MatterControllerContractError::DuplicateAttributePath)));
}

#[test]
fn commissioning_debug_should_redact_setup_payload() {
    let request = MatterCommissioningRequest::new(7, 9, SecretValue::new(b"MT:secret-setup-payload".to_vec()));

    let debug = request.debug_string();

    assert!(!debug.contains("secret-setup-payload"));
    assert_eq!(debug, "MatterCommissioningRequest { operation_id: 7, fabric_id: 9, setup_payload: \"[REDACTED]\" }");
}

#[test]
fn invoke_request_should_reject_out_of_range_percent() {
    let result = MatterInvokeRequest::new(3, 5, 42, 1, 1, MatterControllerCommand::SetLevelPercent(101));

    assert_eq!(result, Err(MatterControllerContractError::PercentOutOfRange));
}

#[test]
fn invoke_request_accepts_full_range_and_keeps_fields() {
    let request = MatterInvokeRequest::new(3, 5, 42, 1, 7, MatterControllerCommand::SetPositionPercent(100));
    let request = request.expect("one hundred percent is in range");
    assert_eq!(request.projection_id, 3);
    assert_eq!(request.fabric_id, 5);
    assert_eq!(request.node_id, 42);
    assert_eq!(request.endpoint, 1);
    assert_eq!(request.desired_revision, 7);
    assert_eq!(request.command, MatterControllerCommand::SetPositionPercent(100));
    assert_eq!(MatterControllerCommand::Stop.validate(), Ok(()));
}

#[test]
fn controller_items_accept_the_bound_exactly() {
    let items = MatterControllerItems::new(vec![1u8; MAX_MATTER_CONTROLLER_RESPONSE_ITEMS])
        .expect("the bound itself is accepted");
    assert_eq!(items.as_slice().len(), MAX_MATTER_CONTROLLER_RESPONSE_ITEMS);
    assert_eq!(items.into_vec().len(), MAX_MATTER_CONTROLLER_RESPONSE_ITEMS);
    assert!(MatterControllerItems::<u8>::empty().as_slice().is_empty());
}

#[test]
fn fabric_export_exposes_secrets_only_through_accessors() {
    let export = MatterFabricExport::new(
        "homemagic.matter-fabric.v1",
        SecretValue::new(b"secret-envelope".to_vec()),
        SecretValue::new(b"secret-recovery-key".to_vec()),
    );
    assert_eq!(export.envelope(), b"secret-envelope");
    assert_eq!(export.recovery_key(), b"secret-recovery-key");
    assert_eq!(export.format(), "homemagic.matter-fabric.v1");
    let debug = export.debug_string();
    assert!(!debug.contains("secret-envelope"));
    assert!(!debug.contains("secret-recovery-key"));
    assert!(debug.contains("\"homemagic.matter-fabric.v1\""));
}

#[test]
fn restore_request_debug_redacts_both_secrets() {
    let request = MatterRestoreRequest::new(
        11,
        12,
        SecretValue::new(b"envelope-bytes".to_vec()),
        SecretValue::new(b"key-bytes".to_vec()),
    );
    assert_eq!(request.operation_id(), 11);
    assert_eq!(request.expected_fabric_id(), 12);
    assert_eq!(request.envelope(), b"envelope-bytes");
    assert_eq!(request.recovery_key(), b"key-bytes");
    assert_eq!(
        request.debug_string(),
        "MatterRestoreRequest { operation_id: 11, expected_fabric_id: 12, envelope: \"[REDACTED]\", recovery_key: \"[REDACTED]\" }"
    );
}

#[test]
fn secret_value_debug_never_shows_bytes() {
    let secret = SecretValue::new(b"hunter2".to_vec());
    assert_eq!(secret.expose(), b"hunter2");
    assert_eq!(secret.debug_string(), "SecretValue([REDACTED])");
}
