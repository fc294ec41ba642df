use homemagic_application::automation_compiler::{
    AutomationDeviceReference, AutomationSchedule, AutomationTargetReference, AutomationValueType,
};
use homemagic_application::automation_events::ResolvedAutomationTrigger;
use homemagic_application::automation_runtime::CommandState;
use homemagic_application::condition_compiler::{findings_of, CompileIssue, ConditionScope};
use homemagic_application::target_resolution::{SnapshotDevice, SnapshotEndpoint, TargetResolutionError};
use homemagic_application::trigger_compiler::{compile_trigger, compile_triggers, AutomationTrigger};

fn scope() -> ConditionScope {
    ConditionScope {
        variables: vec![("mode".to_owned(), AutomationValueType::String)],
        devices: vec![
            SnapshotDevice {
                device_id: 3,
                name: "Button".to_owned(),
                aliases: vec!["lamp".to_owned()],
                spaces: vec![],
                enrolled: true,
                endpoints: vec![SnapshotEndpoint { endpoint_id: "input:0".to_owned(), schemas: vec!["on_off.v1".to_owned()], position_known: false }],
            },
            SnapshotDevice {
                device_id: 4,
                name: "Other".to_owned(),
                aliases: vec!["lamp".to_owned()],
                spaces: vec![],
                enrolled: true,
                endpoints: vec![],
            },
        ],
        maximum_nesting_depth: 4,
        maximum_timer_ms: 3_600_000,
    }
}

fn device(id: u64) -> AutomationTargetReference {
    AutomationTargetReference {
        device: AutomationDeviceReference::Device { device_id: id },
        endpoint_id: None,
        capability: "on_off.v1".to_owned(),
    }
}

#[test]
fn invalid_schedule_and_window_are_reported_under_the_trigger() {
    let triggers = vec![AutomationTrigger::Schedule {
        schedule: AutomationSchedule { cron: "not cron".to_owned(), timezone: "Mars/Olympus".to_owned(), occurrence_window_ms: 0 },
    }];
    let mut issues = Vec::new();
    let compiled = compile_triggers(&triggers, &scope(), &mut issues);
    assert_eq!(compiled.len(), 1);
    assert_eq!(
        issues,
        vec![
            (CompileIssue::ScheduleInvalid, "/triggers/0/schedule".to_owned()),
            (CompileIssue::OccurrenceWindowOutOfRange, "/triggers/0/schedule/occurrence_window_ms".to_owned()),
        ]
    );
    assert_eq!(findings_of(&issues)[0].reason, "five-field cron expression or IANA timezone is invalid");
}

#[test]
fn valid_schedule_compiles_cleanly() {
    let trigger = AutomationTrigger::Schedule {
        schedule: AutomationSchedule { cron: "30 7 * * 1-5".to_owned(), timezone: "Europe/Berlin".to_owned(), occurrence_window_ms: 60_000 },
    };
    let mut issues = Vec::new();
    match compile_trigger(&trigger, &scope(), "/triggers/0", &mut issues) {
        Some(ResolvedAutomationTrigger::Schedule { schedule }) => assert_eq!(schedule.cron, "30 7 * * 1-5"),
        other => panic!("unexpected trigger {other:?}"),
    }
    assert!(issues.is_empty());
}

#[test]
fn unresolved_triggers_are_dropped_and_reported_by_index() {
    let triggers = vec![
        AutomationTrigger::DeviceEvent { target: device(9), event: "  ".to_owned() },
        AutomationTrigger::ObservationChanged { target: device(3), field: Some("on".to_owned()) },
        AutomationTrigger::ObservationChanged {
            target: AutomationTargetReference {
                device: AutomationDeviceReference::Alias { alias: "lamp".to_owned() },
                endpoint_id: None,
                capability: "on_off.v1".to_owned(),
            },
            field: Some("volume".to_owned()),
        },
    ];
    let mut issues = Vec::new();
    let compiled = compile_triggers(&triggers, &scope(), &mut issues);
    assert_eq!(compiled.len(), 1);
    assert!(matches!(&compiled[0], ResolvedAutomationTrigger::ObservationChanged { targets, .. } if targets[0].device_id == 3));
    assert_eq!(
        issues,
        vec![
            (CompileIssue::EventNameMissing, "/triggers/0/event".to_owned()),
            (CompileIssue::Target(TargetResolutionError::ReferenceMissing), "/triggers/0/target/device".to_owned()),
            (CompileIssue::Target(TargetResolutionError::AliasAmbiguous), "/triggers/2/target/device".to_owned()),
            (CompileIssue::FieldUndefined, "/triggers/2/field".to_owned()),
        ]
    );
}

#[test]
fn command_outcome_needs_states_and_a_resolvable_target() {
    let mut issues = Vec::new();
    let any_target = AutomationTrigger::CommandOutcome { target: None, states: vec![] };
    match compile_trigger(&any_target, &scope(), "/triggers/1", &mut issues) {
        Some(ResolvedAutomationTrigger::CommandOutcome { targets: None, states }) => assert!(states.is_empty()),
        other => panic!("unexpected trigger {other:?}"),
    }
    assert_eq!(issues, vec![(CompileIssue::StatesMissing, "/triggers/1/states".to_owned())]);

    let mut issues = Vec::new();
    let missing = AutomationTrigger::CommandOutcome { target: Some(device(5)), states: vec![CommandState::Confirmed] };
    assert!(compile_trigger(&missing, &scope(), "/triggers/1", &mut issues).is_none());
    assert_eq!(issues.len(), 1);
}
