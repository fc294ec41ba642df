use homemagic_application::automation_compiler::CommandPayloadKind;
use homemagic_application::matter_commands::{plan_desired_registration, DesiredRegistrationPlan, MatterDesiredCommandSlot};
use homemagic_application::matter_projection::{
    advance_matter_projected_state, initial_stored_matter_projection, mark_matter_projection_stale, project_matter_node,
    projection_validity, MatterClusterDescriptor, MatterConvergence, MatterDesiredState, MatterEndpointDescriptor,
    MatterNodeDescriptor, MatterProjectedState, MatterProjectionValidity, MatterReportCausation, MatterReportedState,
    MatterStateFreshness, MatterStateUncertainty, MatterStateValue, MATTER_ON_OFF_CLUSTER_ID, ON_OFF_LIGHT_DEVICE_TYPE,
};
use homemagic_application::matter_controller::MatterAttributePath;
use homemagic_application::matter_projection::{MatterAttributeReport, MatterAttributeValue};
use homemagic_application::matter_subscription_repair::{apply_gap_read, MatterSubscriptionRepairError};

fn light(revision: u16) -> MatterNodeDescriptor {
    MatterNodeDescriptor {
        fabric_id: 5,
        node_id: 42,
        descriptor_revision: 3,
        endpoints: vec![MatterEndpointDescriptor {
            number: 1,
            device_types: vec![ON_OFF_LIGHT_DEVICE_TYPE],
            server_clusters: vec![MatterClusterDescriptor {
                id: MATTER_ON_OFF_CLUSTER_ID,
                revision,
                feature_map: 0,
                attributes: vec![0],
                accepted_commands: vec![0, 1],
            }],
            client_clusters: vec![],
        }],
    }
}

fn state(desired: Option<MatterDesiredState>, convergence: MatterConvergence) -> MatterProjectedState {
    let projection = project_matter_node(9, 11, &light(4));
    MatterProjectedState {
        projection_id: projection.capabilities[0].projection_id,
        desired,
        reported: None,
        confirmed_revision: None,
        freshness: MatterStateFreshness::Fresh,
        convergence,
        uncertainty: None,
    }
}

fn reported(on: bool) -> MatterReportedState {
    MatterReportedState { value: MatterStateValue::OnOff(on), data_version: Some(1), report_sequence: 2, observed_at: 10, received_at: 11 }
}

#[test]
fn projections_are_found_by_report_path() {
    let projection = project_matter_node(9, 11, &light(4));
    let path = MatterAttributePath { node_id: 42, endpoint: 1, cluster_id: MATTER_ON_OFF_CLUSTER_ID, attribute_id: 0 };
    assert!(projection.projection_for(path).is_some());
    let other = MatterAttributePath { attribute_id: 1, ..path };
    assert!(projection.projection_for(other).is_none());
}

#[test]
fn rediscovery_keeps_or_invalidates_cached_projection() {
    let cached = project_matter_node(9, 11, &light(4));
    let same = project_matter_node(9, 11, &light(4));
    let changed = project_matter_node(9, 11, &light(5));
    assert_eq!(projection_validity(&cached.capabilities[0], &same), MatterProjectionValidity::Current);
    assert_eq!(projection_validity(&cached.capabilities[0], &changed), MatterProjectionValidity::Invalidated);
}

#[test]
fn first_projection_row_has_unknown_freshness() {
    let projection = project_matter_node(9, 11, &light(4));
    let row = initial_stored_matter_projection(9, 5, &projection.capabilities[0], 77);
    assert_eq!(row.revision, 1);
    assert_eq!(row.updated_at, 77);
    assert_eq!((row.installation_id, row.fabric_id, row.node_id, row.device_id), (9, 5, 42, 11));
    assert_eq!(row.state.freshness, MatterStateFreshness::Unknown);
    assert_eq!(row.state.convergence, MatterConvergence::NoDesiredState);
    assert_eq!(row.state.desired, None);
}

#[test]
fn loss_marks_state_stale_and_confirmed_desire_pending() {
    let desired = Some(MatterDesiredState { value: MatterStateValue::OnOff(true), revision: 3 });
    let stale = mark_matter_projection_stale(&state(desired, MatterConvergence::Confirmed), MatterStateUncertainty::ReportGap);
    assert_eq!(stale.freshness, MatterStateFreshness::Stale);
    assert_eq!(stale.convergence, MatterConvergence::Pending);
    assert_eq!(stale.uncertainty, Some(MatterStateUncertainty::ReportGap));
    let diverged = mark_matter_projection_stale(&state(desired, MatterConvergence::Diverged), MatterStateUncertainty::ReadFailed);
    assert_eq!(diverged.convergence, MatterConvergence::Diverged);
}

#[test]
fn reports_confirm_only_the_causing_desired_revision() {
    let desired = Some(MatterDesiredState { value: MatterStateValue::OnOff(true), revision: 3 });
    let current = state(desired, MatterConvergence::Pending);
    let confirmed = advance_matter_projected_state(&current, reported(true), &MatterReportCausation { common: None, desired_revision: Some(3) });
    assert_eq!(confirmed.convergence, MatterConvergence::Confirmed);
    assert_eq!(confirmed.confirmed_revision, Some(3));
    assert_eq!(confirmed.freshness, MatterStateFreshness::Fresh);
    let uncaused = advance_matter_projected_state(&current, reported(true), &MatterReportCausation { common: None, desired_revision: None });
    assert_eq!(uncaused.convergence, MatterConvergence::Pending);
    let diverged = advance_matter_projected_state(&current, reported(false), &MatterReportCausation { common: None, desired_revision: Some(3) });
    assert_eq!(diverged.convergence, MatterConvergence::Diverged);
    assert_eq!(diverged.reported, Some(reported(false)));
}

#[test]
fn desired_registration_takes_the_next_revision() {
    let current = state(None, MatterConvergence::NoDesiredState);
    let slot = MatterDesiredCommandSlot { projection_id: 1, desired_revision: 4, command_id: 70, dispatched_at: None, updated_at: 5 };
    assert_eq!(
        plan_desired_registration(Some(slot), 70, CommandPayloadKind::OnOffSet(true), &current, 2),
        Ok(DesiredRegistrationPlan::AlreadyOwner { desired_revision: 4 })
    );
    match plan_desired_registration(Some(slot), 71, CommandPayloadKind::OnOffSet(true), &current, 2) {
        Ok(DesiredRegistrationPlan::Replace { desired_revision, state, .. }) => {
            assert_eq!(desired_revision, 5);
            assert_eq!(state.convergence, MatterConvergence::Pending);
            assert_eq!(state.desired, Some(MatterDesiredState { value: MatterStateValue::OnOff(true), revision: 5 }));
        }
        other => panic!("unexpected {other:?}"),
    }
}

#[test]
fn gap_read_refreshes_reported_rows_and_marks_unread_rows_stale() {
    let projection = project_matter_node(9, 11, &light(4));
    let rule = projection.capabilities[0].clone();
    let row = initial_stored_matter_projection(9, 5, &rule, 77);
    let rows = vec![row];
    let rules = vec![rule.clone()];
    let reports = vec![MatterAttributeReport {
        path: rule.report_path,
        value: MatterAttributeValue::Boolean(true),
        data_version: Some(1),
        report_sequence: 3,
        observed_at: 90,
    }];
    let updates = apply_gap_read(&rows, &rules, Some(&reports), 100).expect("gap read");
    assert_eq!(updates.len(), 1);
    assert_eq!(updates[0].expected_revision, 1);
    assert_eq!(updates[0].projection.revision, 2);
    assert_eq!(updates[0].projection.updated_at, 100);
    let state = updates[0].projection.state;
    assert_eq!(state.freshness, MatterStateFreshness::Fresh);
    assert_eq!(state.reported.map(|r| (r.value, r.report_sequence, r.received_at)), Some((MatterStateValue::OnOff(true), 3, 100)));

    let failed = apply_gap_read(&rows, &rules, None, 100).expect("failed read");
    assert_eq!(failed[0].projection.state.freshness, MatterStateFreshness::Stale);
    assert_eq!(failed[0].projection.state.uncertainty, Some(MatterStateUncertainty::ReadFailed));

    let unknown = apply_gap_read(&rows, &Vec::new(), Some(&reports), 100);
    assert!(matches!(unknown, Err(MatterSubscriptionRepairError::InvalidProjection)));
}
