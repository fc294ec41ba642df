//! Durable normalized-event subscription rules for active automation versions:
//! which events an event trigger matches, self-trigger suppression, and the
//! cursor checks of one bounded pass.

use vstd::prelude::*;

use crate::automation_compiler::AutomationSchedule;
use crate::automation_runtime::CommandState;
use crate::ports::str_eq;

verus! {

/// Largest event page one pass reads.
pub const MAX_EVENT_PAGE: usize = 1000;

/// Largest number of active automation versions one pass considers.
pub const MAX_ACTIVE_AUTOMATIONS: usize = 1000;

/// Failure of one bounded durable automation-event pass.
#[derive(Clone, Debug, PartialEq, Eq)]
pub enum AutomationEventProcessorError {
    /// A durable repository operation failed.
    Repository {
        /// Stable operation name without data-bearing context.
        operation: &'static str,
        /// Adapter-specific failure text.
        source: String,
    },
    /// The consumer cursor fell behind retained event history.
    CursorExpired { requested: u64, earliest: u64 },
}

/// Summary of one bounded event-consumer pass.
#[derive(Clone, Copy, Debug, Default, PartialEq, Eq, Structural)]
pub struct AutomationEventProcessorTick {
    /// Durable events completely examined.
    pub events: u64,
    /// Matching occurrences inserted or confirmed idempotently.
    pub occurrences: u64,
    /// Matching occurrences suppressed by self-trigger policy.
    pub suppressed: u64,
    /// Highest completely handled event cursor.
    pub cursor: u64,
}

/// A repository failure during the named operation.
pub fn repository_error(operation: &'static str, source: String) -> (e: AutomationEventProcessorError)
    ensures
        e == (AutomationEventProcessorError::Repository { operation, source }),
{
    AutomationEventProcessorError::Repository { operation, source }
}

/// Whether events after `checkpoint` were already dropped from retention.
pub open spec fn cursor_expired(checkpoint: u64, earliest: Option<u64>) -> bool {
    earliest matches Some(e) && (if checkpoint == u64::MAX { u64::MAX } else { (checkpoint + 1) as u64 }) < e
}

/// Fails when the checkpoint fell behind the earliest retained event.
pub fn check_cursor_retained(checkpoint: u64, earliest: Option<u64>) -> (r: Result<(), AutomationEventProcessorError>)
    ensures
        r is Ok <==> !cursor_expired(checkpoint, earliest),
        r matches Err(e) ==> earliest matches Some(first) && e == (AutomationEventProcessorError::CursorExpired {
            requested: checkpoint,
            earliest: first,
        }),
{
    match earliest {
        Some(first) => if checkpoint.saturating_add(1) < first {
            Err(AutomationEventProcessorError::CursorExpired { requested: checkpoint, earliest: first })
        } else {
            Ok(())
        },
        None => Ok(()),
    }
}

/// The number of events one pass reads: the request clamped to `1..=MAX_EVENT_PAGE`.
pub fn event_page_size(limit: usize) -> (n: usize)
    ensures
        n == (if limit < 1 {
            1
        } else if limit > MAX_EVENT_PAGE {
            MAX_EVENT_PAGE
        } else {
            limit
        }),
{
    if limit < 1 {
        1
    } else if limit > MAX_EVENT_PAGE {
        MAX_EVENT_PAGE
    } else {
        limit
    }
}

/// Records one examined event and the occurrences it produced.
pub fn record_event(tick: &mut AutomationEventProcessorTick, cursor: u64, occurrences: u64, suppressed: u64)
    ensures
        final(tick).events == (if old(tick).events == u64::MAX { u64::MAX } else { (old(tick).events + 1) as u64 }),
        final(tick).occurrences == (if old(tick).occurrences + occurrences > u64::MAX {
            u64::MAX
        } else {
            (old(tick).occurrences + occurrences) as u64
        }),
        final(tick).suppressed == (if old(tick).suppressed + suppressed > u64::MAX {
            u64::MAX
        } else {
            (old(tick).suppressed + suppressed) as u64
        }),
        final(tick).cursor == cursor,
{
    tick.events = tick.events.saturating_add(1);
    tick.occurrences = tick.occurrences.saturating_add(occurrences);
    tick.suppressed = tick.suppressed.saturating_add(suppressed);
    tick.cursor = cursor;
}

/// One exact resolved automation target.
#[derive(Clone, Debug)]
pub struct ResolvedAutomationTarget {
    pub device_id: u64,
    pub endpoint_id: String,
    /// Versioned capability schema such as `on_off.v1`.
    pub capability: String,
}

/// A compiled event trigger.
#[derive(Clone, Debug)]
pub enum ResolvedAutomationTrigger {
    /// An observation of one of `targets` changed, optionally in `field`.
    ObservationChanged { targets: Vec<ResolvedAutomationTarget>, field: Option<String> },
    /// A device on one of the target endpoints emitted `event`.
    DeviceEvent { targets: Vec<ResolvedAutomationTarget>, event: String },
    /// A command reached one of `states`, optionally only on `targets`.
    CommandOutcome { targets: Option<Vec<ResolvedAutomationTarget>>, states: Vec<CommandState> },
    /// Schedules are materialized by the scheduler and match no event.
    Schedule { schedule: AutomationSchedule },
}

/// The payload of a normalized domain event, as far as triggers read it.
#[derive(Clone, Debug)]
pub enum DomainEventKind {
    ObservationChanged { endpoint_id: String, capability: String, changed_fields: Vec<String> },
    DeviceEvent { endpoint_id: String, event: String },
    CommandTransitioned { to: CommandState, endpoint_id: Option<String>, capability: Option<String> },
    /// Lifecycle, metadata and other events that no trigger matches.
    Other,
}

/// The automation whose run caused an event.
#[derive(Clone, Copy, Debug, PartialEq, Eq, Structural)]
pub struct AutomationCause {
    pub automation_id: u64,
    pub version: u32,
}

/// A normalized domain event.
#[derive(Clone, Debug)]
pub struct DomainEvent {
    pub device_id: Option<u64>,
    pub automation: Option<AutomationCause>,
    pub kind: DomainEventKind,
}

/// Whether the event's device, endpoint and capability are exactly the target's.
pub open spec fn exact_target(
    target: ResolvedAutomationTarget,
    device: Option<u64>,
    endpoint_id: Seq<char>,
    capability: Seq<char>,
) -> bool {
    &&& device == Some(target.device_id)
    &&& target.endpoint_id@ == endpoint_id
    &&& target.capability@ == capability
}

/// Whether the event's device and endpoint are the target's.
pub open spec fn same_endpoint(target: ResolvedAutomationTarget, device: Option<u64>, endpoint_id: Seq<char>) -> bool {
    device == Some(target.device_id) && target.endpoint_id@ == endpoint_id
}

/// Whether `fields` contains `field` as a text.
pub open spec fn contains_text(fields: Seq<String>, field: Seq<char>) -> bool {
    exists|i: int| 0 <= i < fields.len() && #[trigger] fields[i]@ == field
}

/// Whether one compiled trigger matches one normalized event.
pub open spec fn trigger_matches_spec(trigger: ResolvedAutomationTrigger, event: DomainEvent) -> bool {
    match (trigger, event.kind) {
        (
            ResolvedAutomationTrigger::ObservationChanged { targets, field },
            DomainEventKind::ObservationChanged { endpoint_id, capability, changed_fields },
        ) => exists|i: int|
            0 <= i < targets.len() && #[trigger] exact_target(
                targets@[i],
                event.device_id,
                endpoint_id@,
                capability@,
            ) && match field {
                Some(f) => contains_text(changed_fields@, f@),
                None => true,
            },
        (
            ResolvedAutomationTrigger::DeviceEvent { targets, event: expected },
            DomainEventKind::DeviceEvent { endpoint_id, event: actual },
        ) => expected@ == actual@ && exists|i: int|
            0 <= i < targets.len() && #[trigger] same_endpoint(targets@[i], event.device_id, endpoint_id@),
        (
            ResolvedAutomationTrigger::CommandOutcome { targets, states },
            DomainEventKind::CommandTransitioned { to, endpoint_id, capability },
        ) => states@.contains(to) && match targets {
            None => true,
            Some(ts) => match (endpoint_id, capability) {
                (Some(e), Some(c)) => exists|i: int|
                    0 <= i < ts.len() && #[trigger] exact_target(ts@[i], event.device_id, e@, c@),
                _ => false,
            },
        },
        _ => false,
    }
}

/// A device-event trigger fires on a device event exactly when the event has
/// the trigger's name and comes from the device and endpoint of one of the
/// trigger's targets; an event of another name never fires it.
pub proof fn lemma_device_event_trigger(trigger: ResolvedAutomationTrigger, event: DomainEvent)
    ensures
        match (trigger, event.kind) {
            (
                ResolvedAutomationTrigger::DeviceEvent { targets, event: expected },
                DomainEventKind::DeviceEvent { endpoint_id, event: actual },
            ) => {
                &&& trigger_matches_spec(trigger, event) <==> (expected@ == actual@ && exists|i: int|
                    0 <= i < targets@.len() && event.device_id == Some(#[trigger] targets@[i].device_id)
                        && targets@[i].endpoint_id@ == endpoint_id@)
                &&& expected@ != actual@ ==> !trigger_matches_spec(trigger, event)
            },
            _ => true,
        },
{
    match (trigger, event.kind) {
        (
            ResolvedAutomationTrigger::DeviceEvent { targets, event: expected },
            DomainEventKind::DeviceEvent { endpoint_id, event: actual },
        ) => {
            if trigger_matches_spec(trigger, event) {
                let i = choose|i: int|
                    0 <= i < targets.len() && #[trigger] same_endpoint(targets@[i], event.device_id, endpoint_id@);
                assert(event.device_id == Some(targets@[i].device_id) && targets@[i].endpoint_id@ == endpoint_id@);
            }
            if expected@ == actual@ && exists|i: int|
                0 <= i < targets@.len() && event.device_id == Some(#[trigger] targets@[i].device_id)
                    && targets@[i].endpoint_id@ == endpoint_id@ {
                let i = choose|i: int|
                    0 <= i < targets@.len() && event.device_id == Some(#[trigger] targets@[i].device_id)
                        && targets@[i].endpoint_id@ == endpoint_id@;
                assert(same_endpoint(targets@[i], event.device_id, endpoint_id@));
            }
        },
        _ => {},
    }
}

/// An observation trigger that watches one field fires only when that field
/// is among the changed ones, and only for an event on the exact device,
/// endpoint and capability of one of its targets; one that watches no field
/// fires on any change of such a target.
pub proof fn lemma_observation_trigger(trigger: ResolvedAutomationTrigger, event: DomainEvent)
    ensures
        match (trigger, event.kind) {
            (
                ResolvedAutomationTrigger::ObservationChanged { targets, field },
                DomainEventKind::ObservationChanged { endpoint_id, capability, changed_fields },
            ) => {
                let on_target = exists|i: int|
                    0 <= i < targets@.len() && event.device_id == Some(#[trigger] targets@[i].device_id)
                        && targets@[i].endpoint_id@ == endpoint_id@ && targets@[i].capability@ == capability@;
                match field {
                    Some(f) => trigger_matches_spec(trigger, event) <==> (on_target && exists|j: int|
                        0 <= j < changed_fields@.len() && #[trigger] changed_fields@[j]@ == f@),
                    None => trigger_matches_spec(trigger, event) <==> on_target,
                }
            },
            _ => true,
        },
{
    match (trigger, event.kind) {
        (
            ResolvedAutomationTrigger::ObservationChanged { targets, field },
            DomainEventKind::ObservationChanged { endpoint_id, capability, changed_fields },
        ) => {
            let on_target = exists|i: int|
                0 <= i < targets@.len() && event.device_id == Some(#[trigger] targets@[i].device_id)
                    && targets@[i].endpoint_id@ == endpoint_id@ && targets@[i].capability@ == capability@;
            let listed = exists|i: int|
                0 <= i < targets.len() && #[trigger] exact_target(targets@[i], event.device_id, endpoint_id@, capability@);
            if listed {
                let i = choose|i: int|
                    0 <= i < targets.len() && #[trigger] exact_target(targets@[i], event.device_id, endpoint_id@, capability@);
                assert(event.device_id == Some(targets@[i].device_id));
            }
            if on_target {
                let i = choose|i: int|
                    0 <= i < targets@.len() && event.device_id == Some(#[trigger] targets@[i].device_id)
                        && targets@[i].endpoint_id@ == endpoint_id@ && targets@[i].capability@ == capability@;
                assert(exact_target(targets@[i], event.device_id, endpoint_id@, capability@));
            }
            assert(listed <==> on_target);
        },
        _ => {},
    }
}

/// A command-outcome trigger fires only on a transition into one of its
/// states; with targets, only for the exact device, endpoint and capability
/// of one of them.
pub proof fn lemma_command_outcome_trigger(trigger: ResolvedAutomationTrigger, event: DomainEvent)
    ensures
        match (trigger, event.kind) {
            (
                ResolvedAutomationTrigger::CommandOutcome { targets, states },
                DomainEventKind::CommandTransitioned { to, endpoint_id, capability },
            ) => {
                &&& trigger_matches_spec(trigger, event) ==> exists|k: int| 0 <= k < states@.len() && #[trigger] states@[k] == to
                &&& targets is None ==> (trigger_matches_spec(trigger, event) <==> states@.contains(to))
                &&& targets is Some && (endpoint_id is None || capability is None) ==> !trigger_matches_spec(trigger, event)
                &&& targets matches Some(ts) ==> (endpoint_id matches Some(e) ==> (capability matches Some(c) ==> (
                    trigger_matches_spec(trigger, event) <==> (states@.contains(to) && exists|i: int|
                        0 <= i < ts@.len() && event.device_id == Some(#[trigger] ts@[i].device_id) && ts@[i].endpoint_id@
                            == e@ && ts@[i].capability@ == c@))))
            },
            _ => true,
        },
{
    match (trigger, event.kind) {
        (
            ResolvedAutomationTrigger::CommandOutcome { targets, states },
            DomainEventKind::CommandTransitioned { to, endpoint_id, capability },
        ) => {
            if trigger_matches_spec(trigger, event) {
                let k = choose|k: int| 0 <= k < states@.len() && states@[k] == to;
                assert(states@[k] == to);
            }
            if let (Some(ts), Some(e), Some(c)) = (targets, endpoint_id, capability) {
                if exists|i: int| 0 <= i < ts.len() && #[trigger] exact_target(ts@[i], event.device_id, e@, c@) {
                    let i = choose|i: int| 0 <= i < ts.len() && #[trigger] exact_target(ts@[i], event.device_id, e@, c@);
                    assert(event.device_id == Some(ts@[i].device_id));
                }
                if exists|i: int|
                    0 <= i < ts@.len() && event.device_id == Some(#[trigger] ts@[i].device_id) && ts@[i].endpoint_id@ == e@
                        && ts@[i].capability@ == c@ {
                    let i = choose|i: int|
                        0 <= i < ts@.len() && event.device_id == Some(#[trigger] ts@[i].device_id) && ts@[i].endpoint_id@
                            == e@ && ts@[i].capability@ == c@;
                    assert(exact_target(ts@[i], event.device_id, e@, c@));
                }
            }
        },
        _ => {},
    }
}

/// A trigger never fires on an event of another kind, and schedules fire on
/// no event at all.
pub proof fn lemma_trigger_kinds(trigger: ResolvedAutomationTrigger, event: DomainEvent)
    ensures
        trigger is Schedule ==> !trigger_matches_spec(trigger, event),
        event.kind is Other ==> !trigger_matches_spec(trigger, event),
        trigger is ObservationChanged && !(event.kind is ObservationChanged) ==> !trigger_matches_spec(trigger, event),
        trigger is DeviceEvent && !(event.kind is DeviceEvent) ==> !trigger_matches_spec(trigger, event),
        trigger is CommandOutcome && !(event.kind is CommandTransitioned) ==> !trigger_matches_spec(trigger, event),
{
}

pub(crate) fn contains_field(fields: &Vec<String>, field: &str) -> (b: bool)
    ensures
        b == contains_text(fields@, field@),
{
    let mut i: usize = 0;
    while i < fields.len()
        invariant
            i <= fields@.len(),
            forall|j: int| 0 <= j < i ==> #[trigger] fields@[j]@ != field@,
        decreases fields@.len() - i,
    {
        if str_eq(fields[i].as_str(), field) {
            return true;
        }
        i = i + 1;
    }
    false
}

pub(crate) fn contains_state(states: &Vec<CommandState>, state: CommandState) -> (b: bool)
    ensures
        b == states@.contains(state),
{
    let mut i: usize = 0;
    while i < states.len()
        invariant
            i <= states@.len(),
            forall|j: int| 0 <= j < i ==> states@[j] != state,
        decreases states@.len() - i,
    {
        if states[i] == state {
            return true;
        }
        i = i + 1;
    }
    false
}

fn is_exact_target(target: &ResolvedAutomationTarget, device: Option<u64>, endpoint_id: &str, capability: &str) -> (b:
    bool)
    ensures
        b == exact_target(*target, device, endpoint_id@, capability@),
{
    device == Some(target.device_id) && str_eq(target.endpoint_id.as_str(), endpoint_id) && str_eq(
        target.capability.as_str(),
        capability,
    )
}

pub(crate) fn any_exact_target(targets: &Vec<ResolvedAutomationTarget>, device: Option<u64>, endpoint_id: &str, capability: &str) -> (b:
    bool)
    ensures
        b == exists|i: int|
            0 <= i < targets@.len() && #[trigger] exact_target(targets@[i], device, endpoint_id@, capability@),
{
    let mut i: usize = 0;
    while i < targets.len()
        invariant
            i <= targets@.len(),
            forall|j: int| 0 <= j < i ==> !#[trigger] exact_target(targets@[j], device, endpoint_id@, capability@),
        decreases targets@.len() - i,
    {
        if is_exact_target(&targets[i], device, endpoint_id, capability) {
            return true;
        }
        i = i + 1;
    }
    false
}

fn any_same_endpoint(targets: &Vec<ResolvedAutomationTarget>, device: Option<u64>, endpoint_id: &str) -> (b: bool)
    ensures
        b == exists|i: int| 0 <= i < targets@.len() && #[trigger] same_endpoint(targets@[i], device, endpoint_id@),
{
    let mut i: usize = 0;
    while i < targets.len()
        invariant
            i <= targets@.len(),
            forall|j: int| 0 <= j < i ==> !#[trigger] same_endpoint(targets@[j], device, endpoint_id@),
        decreases targets@.len() - i,
    {
        if device == Some(targets[i].device_id) && str_eq(targets[i].endpoint_id.as_str(), endpoint_id) {
            assert(same_endpoint(targets@[i as int], device, endpoint_id@));
            return true;
        }
        i = i + 1;
    }
    false
}

/// Whether one compiled trigger matches one normalized event: the event family
/// agrees and the event's target is exactly one of the trigger's targets.
pub fn trigger_matches(trigger: &ResolvedAutomationTrigger, event: &DomainEvent) -> (b: bool)
    ensures
        b == trigger_matches_spec(*trigger, *event),
{
    match (trigger, &event.kind) {
        (
            ResolvedAutomationTrigger::ObservationChanged { targets, field },
            DomainEventKind::ObservationChanged { endpoint_id, capability, changed_fields },
        ) => {
            let field_ok = match field {
                Some(f) => contains_field(changed_fields, f.as_str()),
                None => true,
            };
            field_ok && any_exact_target(targets, event.device_id, endpoint_id.as_str(), capability.as_str())
        },
        (
            ResolvedAutomationTrigger::DeviceEvent { targets, event: expected },
            DomainEventKind::DeviceEvent { endpoint_id, event: actual },
        ) => str_eq(expected.as_str(), actual.as_str()) && any_same_endpoint(
            targets,
            event.device_id,
            endpoint_id.as_str(),
        ),
        (
            ResolvedAutomationTrigger::CommandOutcome { targets, states },
            DomainEventKind::CommandTransitioned { to, endpoint_id, capability },
        ) => {
            if !contains_state(states, *to) {
                return false;
            }
            match targets {
                None => true,
                Some(ts) => match (endpoint_id, capability) {
                    (Some(e), Some(c)) => any_exact_target(ts, event.device_id, e.as_str(), c.as_str()),
                    _ => false,
                },
            }
        },
        _ => false,
    }
}

/// How an automation treats events caused by its own runs.
#[derive(Clone, Copy, Debug, PartialEq, Eq, Structural)]
pub enum AutomationSelfTriggerPolicy {
    SuppressSameVersion,
    SuppressSameCorrelation,
    Allow,
}

/// Whether an occurrence from `event` is suppressed for the automation
/// `automation_id` at `version` under its self-trigger policy.
pub open spec fn self_suppressed_spec(
    automation_id: u64,
    version: u32,
    policy: AutomationSelfTriggerPolicy,
    cause: Option<AutomationCause>,
) -> bool {
    match cause {
        None => false,
        Some(c) => c.automation_id == automation_id && match policy {
            AutomationSelfTriggerPolicy::SuppressSameVersion => c.version == version,
            AutomationSelfTriggerPolicy::SuppressSameCorrelation => true,
            AutomationSelfTriggerPolicy::Allow => false,
        },
    }
}

/// Self-trigger suppression of one event for one automation version.
pub fn self_suppressed(
    automation_id: u64,
    version: u32,
    policy: AutomationSelfTriggerPolicy,
    event: &DomainEvent,
) -> (b: bool)
    ensures
        b == self_suppressed_spec(automation_id, version, policy, event.automation),
{
    match event.automation {
        None => false,
        Some(cause) => {
            if cause.automation_id != automation_id {
                return false;
            }
            match policy {
                AutomationSelfTriggerPolicy::SuppressSameVersion => cause.version == version,
                AutomationSelfTriggerPolicy::SuppressSameCorrelation => true,
                AutomationSelfTriggerPolicy::Allow => false,
            }
        },
    }
}

/// Events of other automations, and events caused by no automation, are never
/// suppressed.
pub proof fn lemma_only_own_events_suppressed(
    automation_id: u64,
    version: u32,
    policy: AutomationSelfTriggerPolicy,
    cause: Option<AutomationCause>,
)
    requires
        self_suppressed_spec(automation_id, version, policy, cause),
    ensures
        cause matches Some(c) && c.automation_id == automation_id,
        policy != AutomationSelfTriggerPolicy::Allow,
{
}

} // verus!
