use homemagic_application::automation_compiler::{
    AutomationDeviceReference, AutomationTargetReference, AutomationValidationCode,
};
use homemagic_application::target_resolution::{
    resolve_target, text_less, SnapshotDevice, SnapshotEndpoint, TargetResolutionError,
};

fn endpoint(id: &str, schemas: &[&str]) -> SnapshotEndpoint {
    SnapshotEndpoint {
        endpoint_id: id.to_owned(),
        schemas: schemas.iter().map(|s| (*s).to_owned()).collect(),
        position_known: false,
    }
}

fn device(id: u64, name: &str, aliases: &[&str], spaces: &[u64], enrolled: bool, endpoints: Vec<SnapshotEndpoint>) -> SnapshotDevice {
    SnapshotDevice {
        device_id: id,
        name: name.to_owned(),
        aliases: aliases.iter().map(|s| (*s).to_owned()).collect(),
        spaces: spaces.to_vec(),
        enrolled,
        endpoints,
    }
}

fn target(device: AutomationDeviceReference, endpoint_id: Option<&str>, capability: &str) -> AutomationTargetReference {
    AutomationTargetReference {
        device,
        endpoint_id: endpoint_id.map(str::to_owned),
        capability: capability.to_owned(),
    }
}

fn snapshot() -> Vec<SnapshotDevice> {
    vec![
        device(7, "Porch", &["front"], &[1], true, vec![endpoint("1", &["on_off.v1"]), endpoint("2", &["level.v1"])]),
        device(3, "Hall", &["front"], &[1], true, vec![endpoint("b", &["on_off.v1"])]),
        device(5, "Desk", &[], &[2], true, vec![endpoint("1", &["on_off.v1"]), endpoint("2", &["on_off.v1"])]),
        device(9, "Attic", &[], &[3], false, vec![endpoint("1", &["on_off.v1"])]),
    ]
}

#[test]
fn space_selection_is_sorted_by_device_then_endpoint() {
    let resolved = resolve_target(&snapshot(), &target(AutomationDeviceReference::Space { space_id: 1 }, None, "on_off.v1")).unwrap();
    let keys: Vec<(u64, String)> = resolved.iter().map(|t| (t.device_id, t.endpoint_id.clone())).collect();
    assert_eq!(keys, vec![(3, "b".to_owned()), (7, "1".to_owned())]);
    assert!(resolved.iter().all(|t| t.capability == "on_off.v1"));
}

#[test]
fn exact_endpoint_resolves_one_target() {
    let resolved = resolve_target(
        &snapshot(),
        &target(AutomationDeviceReference::Device { device_id: 5 }, Some("2"), "on_off.v1"),
    )
    .unwrap();
    assert_eq!(resolved.len(), 1);
    assert_eq!((resolved[0].device_id, resolved[0].endpoint_id.as_str()), (5, "2"));
}

#[test]
fn unknown_device_is_missing() {
    let error = resolve_target(&snapshot(), &target(AutomationDeviceReference::Device { device_id: 4 }, None, "on_off.v1"))
        .unwrap_err();
    assert_eq!(error, TargetResolutionError::ReferenceMissing);
    assert_eq!(error.code(), AutomationValidationCode::ReferenceMissing);
}

#[test]
fn shared_alias_is_ambiguous_but_name_is_not() {
    let shared = resolve_target(
        &snapshot(),
        &target(AutomationDeviceReference::Alias { alias: "front".to_owned() }, None, "on_off.v1"),
    );
    assert_eq!(shared.unwrap_err(), TargetResolutionError::AliasAmbiguous);
    let named = resolve_target(
        &snapshot(),
        &target(AutomationDeviceReference::Alias { alias: "Hall".to_owned() }, None, "on_off.v1"),
    )
    .unwrap();
    assert_eq!(named[0].device_id, 3);
}

#[test]
fn removed_device_is_stale() {
    let error = resolve_target(&snapshot(), &target(AutomationDeviceReference::Space { space_id: 3 }, None, "on_off.v1"))
        .unwrap_err();
    assert_eq!(error, TargetResolutionError::ReferenceStale);
    assert_eq!(error.code(), AutomationValidationCode::ReferenceStale);
}

#[test]
fn missing_capability_is_incompatible() {
    let error = resolve_target(&snapshot(), &target(AutomationDeviceReference::Device { device_id: 3 }, None, "level.v1"))
        .unwrap_err();
    assert_eq!(error, TargetResolutionError::CapabilityIncompatible);
}

#[test]
fn capability_on_two_endpoints_needs_an_endpoint_id() {
    let error = resolve_target(&snapshot(), &target(AutomationDeviceReference::Space { space_id: 2 }, None, "on_off.v1"))
        .unwrap_err();
    assert_eq!(error, TargetResolutionError::EndpointAmbiguous { device_id: 5 });
    assert_eq!(error.code(), AutomationValidationCode::ReferenceAmbiguous);
}

#[test]
fn text_order_follows_code_points() {
    assert!(text_less("a", "b"));
    assert!(text_less("a", "ab"));
    assert!(!text_less("ab", "a"));
    assert!(!text_less("same", "same"));
    assert!(text_less("Z", "a"));
    assert!(text_less("z", "é"));
}
