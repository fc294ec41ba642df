use homemagic_application::matter_controller::MatterAttributePath;
use homemagic_application::matter_projection::{
    normalize_matter_report, project_matter_node, MatterAttributeReport, MatterAttributeValue, MatterClusterDescriptor,
    MatterEndpointDescriptor, MatterNodeDescriptor, MatterProjectionRule, MatterReportCausation, MatterReportDecision,
    MatterReportRejection, MatterStateValue, ObservationSourceKind, MATTER_DOOR_LOCK_CLUSTER_ID,
    MATTER_ON_OFF_CLUSTER_ID, ON_OFF_LIGHT_DEVICE_TYPE,
};

fn light() -> MatterNodeDescriptor {
    MatterNodeDescriptor {
        fabric_id: 5,
        node_id: 42,
        descriptor_revision: 3,
        endpoints: vec![MatterEndpointDescriptor {
            number: 1,
            device_types: vec![ON_OFF_LIGHT_DEVICE_TYPE],
            server_clusters: vec![
                MatterClusterDescriptor {
                    id: MATTER_ON_OFF_CLUSTER_ID,
                    revision: 4,
                    feature_map: 0,
                    attributes: vec![0],
                    accepted_commands: vec![0, 1],
                },
                MatterClusterDescriptor { id: 0x0300, revision: 1, feature_map: 0, attributes: vec![], accepted_commands: vec![] },
            ],
            client_clusters: vec![],
        }],
    }
}

#[test]
fn on_off_endpoints_project_to_one_capability_and_other_clusters_to_diagnostics() {
    let projection = project_matter_node(9, 11, &light());
    assert_eq!(projection.device_id, 11);
    assert_eq!(projection.capabilities.len(), 1);
    let capability = &projection.capabilities[0];
    assert_eq!(capability.rule, MatterProjectionRule::OnOffV1);
    assert_eq!(capability.capability_schema, "on_off.v1");
    assert_eq!(capability.endpoint, 1);
    assert_eq!(capability.projection_revision, 3);
    assert_eq!(projection.diagnostics.len(), 1);
    assert_eq!(projection.diagnostics[0].cluster_id, 0x0300);
    assert_eq!(MatterProjectionRule::AccessControlV1.capability_schema(), Some("access_control.v1"));
    assert_eq!(MatterProjectionRule::LevelV1LaterFixture.capability_schema(), None);
    assert_eq!(MatterProjectionRule::PositionV1LaterFixture.key(), "position");
    assert_ne!(MATTER_DOOR_LOCK_CLUSTER_ID, MATTER_ON_OFF_CLUSTER_ID);
}

fn report(sequence: u64, on: bool) -> MatterAttributeReport {
    MatterAttributeReport {
        path: MatterAttributePath { node_id: 42, endpoint: 1, cluster_id: MATTER_ON_OFF_CLUSTER_ID, attribute_id: 0 },
        value: MatterAttributeValue::Boolean(on),
        data_version: Some(7),
        report_sequence: sequence,
        observed_at: 100,
    }
}

fn causation() -> MatterReportCausation {
    MatterReportCausation { common: None, desired_revision: None }
}

#[test]
fn reports_apply_once_in_sequence_order() {
    let projection = project_matter_node(9, 11, &light());
    let capability = &projection.capabilities[0];
    let first = normalize_matter_report(capability, &report(4, true), 200, None, ObservationSourceKind::Notification, causation());
    let reported = match first {
        MatterReportDecision::Applied { reported, observation, .. } => {
            assert_eq!(observation.device_id, 11);
            assert_eq!(observation.capability_schema, "on_off.v1");
            reported
        }
        other => panic!("unexpected {other:?}"),
    };
    assert_eq!(reported.value, MatterStateValue::OnOff(true));
    assert_eq!(reported.report_sequence, 4);
    let replay = normalize_matter_report(capability, &report(4, true), 300, Some(&reported), ObservationSourceKind::Notification, causation());
    assert!(matches!(replay, MatterReportDecision::Duplicate));
    let conflicting = normalize_matter_report(capability, &report(4, false), 300, Some(&reported), ObservationSourceKind::Notification, causation());
    assert!(matches!(conflicting, MatterReportDecision::Rejected(MatterReportRejection::ConflictingDuplicate)));
    let stale = normalize_matter_report(capability, &report(3, true), 300, Some(&reported), ObservationSourceKind::Notification, causation());
    assert!(matches!(stale, MatterReportDecision::Rejected(MatterReportRejection::StaleSequence)));
    let early = normalize_matter_report(capability, &report(5, true), 50, Some(&reported), ObservationSourceKind::Notification, causation());
    assert!(matches!(early, MatterReportDecision::Rejected(MatterReportRejection::InvalidTime)));
    let mut foreign = report(5, true);
    foreign.path.attribute_id = 9;
    let mismatch = normalize_matter_report(capability, &foreign, 300, Some(&reported), ObservationSourceKind::Notification, causation());
    assert!(matches!(mismatch, MatterReportDecision::Rejected(MatterReportRejection::TargetMismatch)));
}
