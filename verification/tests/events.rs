use homemagic_application::automation_events::{
    check_cursor_retained, event_page_size, record_event, self_suppressed, trigger_matches, AutomationCause,
    AutomationEventProcessorError, AutomationEventProcessorTick, AutomationSelfTriggerPolicy, DomainEvent,
    DomainEventKind, ResolvedAutomationTarget, ResolvedAutomationTrigger,
};
use homemagic_application::automation_compiler::AutomationSchedule;
use homemagic_application::automation_runtime::CommandState;

fn event(kind: DomainEventKind) -> DomainEvent {
    DomainEvent { device_id: Some(77), automation: None, kind }
}

fn target() -> ResolvedAutomationTarget {
    ResolvedAutomationTarget { device_id: 77, endpoint_id: "switch:0".to_owned(), capability: "on_off.v1".to_owned() }
}

#[test]
fn every_normalized_event_trigger_should_match_its_exact_contract() {
    let observation = event(DomainEventKind::ObservationChanged {
        endpoint_id: "switch:0".to_owned(),
        capability: "on_off.v1".to_owned(),
        changed_fields: vec!["on".to_owned()],
    });
    assert!(trigger_matches(
        &ResolvedAutomationTrigger::ObservationChanged { targets: vec![target()], field: Some("on".to_owned()) },
        &observation,
    ));
    assert!(!trigger_matches(
        &ResolvedAutomationTrigger::ObservationChanged { targets: vec![target()], field: Some("brightness".to_owned()) },
        &observation,
    ));

    let device = event(DomainEventKind::DeviceEvent { endpoint_id: "switch:0".to_owned(), event: "double_push".to_owned() });
    assert!(trigger_matches(
        &ResolvedAutomationTrigger::DeviceEvent { targets: vec![target()], event: "double_push".to_owned() },
        &device,
    ));

    let command = event(DomainEventKind::CommandTransitioned {
        to: CommandState::Confirmed,
        endpoint_id: Some("switch:0".to_owned()),
        capability: Some("on_off.v1".to_owned()),
    });
    assert!(trigger_matches(
        &ResolvedAutomationTrigger::CommandOutcome { targets: Some(vec![target()]), states: vec![CommandState::Confirmed] },
        &command,
    ));
    assert!(!trigger_matches(
        &ResolvedAutomationTrigger::CommandOutcome { targets: Some(vec![target()]), states: vec![CommandState::Failed] },
        &command,
    ));
}

#[test]
fn triggers_require_the_exact_device_endpoint_and_family() {
    let mut other_device = event(DomainEventKind::DeviceEvent {
        endpoint_id: "switch:0".to_owned(),
        event: "double_push".to_owned(),
    });
    other_device.device_id = Some(78);
    let trigger = ResolvedAutomationTrigger::DeviceEvent { targets: vec![target()], event: "double_push".to_owned() };
    assert!(!trigger_matches(&trigger, &other_device));
    assert!(!trigger_matches(&ResolvedAutomationTrigger::Schedule { schedule: AutomationSchedule { cron: "0 7 * * *".to_owned(), timezone: "UTC".to_owned(), occurrence_window_ms: 60_000 } }, &event(DomainEventKind::Other)));
    let untargeted = event(DomainEventKind::CommandTransitioned { to: CommandState::Failed, endpoint_id: None, capability: None });
    assert!(trigger_matches(
        &ResolvedAutomationTrigger::CommandOutcome { targets: None, states: vec![CommandState::Failed] },
        &untargeted,
    ));
    assert!(!trigger_matches(
        &ResolvedAutomationTrigger::CommandOutcome { targets: Some(vec![target()]), states: vec![CommandState::Failed] },
        &untargeted,
    ));
    let any_field = ResolvedAutomationTrigger::ObservationChanged { targets: vec![target()], field: None };
    let changed = event(DomainEventKind::ObservationChanged {
        endpoint_id: "switch:0".to_owned(),
        capability: "on_off.v1".to_owned(),
        changed_fields: Vec::new(),
    });
    assert!(trigger_matches(&any_field, &changed));
}

#[test]
fn self_triggers_follow_the_policy() {
    let mut caused = event(DomainEventKind::Other);
    caused.automation = Some(AutomationCause { automation_id: 5, version: 2 });
    assert!(self_suppressed(5, 2, AutomationSelfTriggerPolicy::SuppressSameVersion, &caused));
    assert!(!self_suppressed(5, 3, AutomationSelfTriggerPolicy::SuppressSameVersion, &caused));
    assert!(self_suppressed(5, 3, AutomationSelfTriggerPolicy::SuppressSameCorrelation, &caused));
    assert!(!self_suppressed(5, 2, AutomationSelfTriggerPolicy::Allow, &caused));
    assert!(!self_suppressed(6, 2, AutomationSelfTriggerPolicy::SuppressSameCorrelation, &caused));
    assert!(!self_suppressed(5, 2, AutomationSelfTriggerPolicy::SuppressSameVersion, &event(DomainEventKind::Other)));
}

#[test]
fn cursor_gaps_and_pages_are_bounded() {
    assert_eq!(check_cursor_retained(10, Some(11)), Ok(()));
    assert_eq!(
        check_cursor_retained(10, Some(12)),
        Err(AutomationEventProcessorError::CursorExpired { requested: 10, earliest: 12 })
    );
    assert_eq!(check_cursor_retained(u64::MAX, Some(u64::MAX)), Ok(()));
    assert_eq!(check_cursor_retained(0, None), Ok(()));
    assert_eq!(event_page_size(0), 1);
    assert_eq!(event_page_size(5000), 1000);
    assert_eq!(event_page_size(7), 7);
    let mut tick = AutomationEventProcessorTick::default();
    record_event(&mut tick, 4, 2, 1);
    record_event(&mut tick, 9, 0, 0);
    assert_eq!(tick, AutomationEventProcessorTick { events: 2, occurrences: 2, suppressed: 1, cursor: 9 });
}
