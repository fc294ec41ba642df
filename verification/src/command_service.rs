//! Target validation rules of the single governed command path.

use vstd::prelude::*;

use crate::automation_compiler::CommandPayloadKind;
use crate::automation_runtime::{CommandErrorCode, CommandState};
use crate::policy::{ConstraintState, FreshnessState, RiskClass};
use crate::ports::str_eq;

verus! {

/// Failure of the command orchestrator.
#[derive(Clone, Debug, PartialEq, Eq)]
pub enum CommandServiceError {
    DeviceNotFound,
    CommandNotFound,
    ActorNotFound,
    ActorMismatch,
    NotCancellable,
    /// The actor reused an idempotency key; the existing command is named.
    IdempotencyConflict(u64),
    /// Durable repository operation failed; the text says why.
    Repository(String),
    AuditPublication(String),
    Confirmation(String),
    CanonicalSerialization(String),
    InvalidDescriptor,
    InvalidTransition,
}

/// Audit sink used where no live fan-out is configured.
#[derive(Clone, Copy, Debug, Default)]
pub struct NoopCommandAuditSink;

impl NoopCommandAuditSink {
    /// Publishes nothing and always succeeds.
    pub fn publish<A>(&self, audit: &A) -> (r: Result<(), String>)
        ensures
            r is Ok,
    {
        Ok(())
    }
}

/// Normalized capability state of one endpoint.
#[derive(Clone, Copy, Debug, PartialEq, Eq, Structural)]
pub enum CapabilitySnapshot {
    OnOff { on: bool },
    Level { level: u8 },
    /// Position in percent; `None` while the cover is uncalibrated.
    Position { percent: Option<u8> },
    Other,
}

/// One normalized endpoint of a device snapshot.
#[derive(Clone, Debug)]
pub struct EndpointSnapshot {
    pub id: String,
    pub capabilities: Vec<CapabilitySnapshot>,
}

/// A versioned capability descriptor with its risk.
#[derive(Clone, Debug)]
pub struct CapabilityDescriptor {
    pub name: String,
    pub version: u16,
    pub risk: RiskClass,
}

/// Descriptors advertised by one endpoint.
#[derive(Clone, Debug)]
pub struct EndpointDescriptors {
    pub endpoint_id: String,
    pub descriptors: Vec<CapabilityDescriptor>,
}

/// The parts of a durable device record the command path reads.
#[derive(Clone, Debug)]
pub struct CommandDevice {
    /// Time of the observation the snapshot reflects.
    pub observed_at: Option<i64>,
    pub endpoints: Vec<EndpointSnapshot>,
    pub capability_descriptors: Vec<EndpointDescriptors>,
}

/// Whether some endpoint with this id reports a calibrated position.
pub open spec fn position_calibrated(endpoints: Seq<EndpointSnapshot>, endpoint_id: Seq<char>) -> bool {
    exists|i: int, j: int|
        0 <= i < endpoints.len() && endpoints[i].id@ == endpoint_id && 0 <= j < endpoints[i].capabilities.len()
            && #[trigger] endpoints[i].capabilities@[j] matches CapabilitySnapshot::Position { percent: Some(_) }
}

/// Absolute position commands need a calibrated position; everything else is
/// unconstrained.
pub open spec fn constraint_of(payload: CommandPayloadKind, endpoints: Seq<EndpointSnapshot>, endpoint_id: Seq<char>) -> ConstraintState {
    if !(payload is PositionGoTo) || position_calibrated(endpoints, endpoint_id) {
        ConstraintState::Available
    } else {
        ConstraintState::Unavailable
    }
}

fn calibrated_in(capabilities: &Vec<CapabilitySnapshot>) -> (b: bool)
    ensures
        b == exists|j: int|
            0 <= j < capabilities@.len() && #[trigger] capabilities@[j] matches CapabilitySnapshot::Position {
                percent: Some(_),
            },
{
    let mut j: usize = 0;
    while j < capabilities.len()
        invariant
            j <= capabilities@.len(),
            forall|k: int|
                0 <= k < j ==> !(#[trigger] capabilities@[k] matches CapabilitySnapshot::Position { percent: Some(_) }),
        decreases capabilities@.len() - j,
    {
        if let CapabilitySnapshot::Position { percent: Some(_) } = capabilities[j] {
            return true;
        }
        j = j + 1;
    }
    false
}

/// Whether the command's safety constraint can be checked on the endpoint.
pub fn constraint_state(payload: CommandPayloadKind, endpoint_id: &str, device: &CommandDevice) -> (c: ConstraintState)
    ensures
        c == constraint_of(payload, device.endpoints@, endpoint_id@),
{
    if !matches!(payload, CommandPayloadKind::PositionGoTo(_)) {
        return ConstraintState::Available;
    }
    let mut i: usize = 0;
    while i < device.endpoints.len()
        invariant
            i <= device.endpoints@.len(),
            payload is PositionGoTo,
            forall|a: int, b: int|
                0 <= a < i && device.endpoints@[a].id@ == endpoint_id@ && 0 <= b < device.endpoints@[a].capabilities.len()
                    ==> !(#[trigger] device.endpoints@[a].capabilities@[b] matches CapabilitySnapshot::Position {
                    percent: Some(_),
                }),
        decreases device.endpoints@.len() - i,
    {
        if str_eq(device.endpoints[i].id.as_str(), endpoint_id) && calibrated_in(&device.endpoints[i].capabilities) {
            return ConstraintState::Available;
        }
        i = i + 1;
    }
    ConstraintState::Unavailable
}

/// The first on/off state reported by the first endpoint with this id.
pub open spec fn first_on_off(caps: Seq<CapabilitySnapshot>) -> Option<bool>
    decreases caps.len(),
{
    if caps.len() == 0 {
        None
    } else {
        match caps[0] {
            CapabilitySnapshot::OnOff { on } => Some(on),
            _ => first_on_off(caps.drop_first()),
        }
    }
}

/// The capabilities of the first endpoint with this id.
pub open spec fn endpoint_capabilities(endpoints: Seq<EndpointSnapshot>, endpoint_id: Seq<char>) -> Option<
    Seq<CapabilitySnapshot>,
>
    decreases endpoints.len(),
{
    if endpoints.len() == 0 {
        None
    } else if endpoints[0].id@ == endpoint_id {
        Some(endpoints[0].capabilities@)
    } else {
        endpoint_capabilities(endpoints.drop_first(), endpoint_id)
    }
}

/// A toggle against fresh state becomes an explicit set to the opposite of the
/// reported state; every other command is kept.
pub open spec fn effective_payload_of(
    payload: CommandPayloadKind,
    endpoints: Seq<EndpointSnapshot>,
    endpoint_id: Seq<char>,
    freshness: FreshnessState,
) -> CommandPayloadKind {
    if payload != CommandPayloadKind::OnOffToggle || freshness != FreshnessState::Fresh {
        payload
    } else {
        match endpoint_capabilities(endpoints, endpoint_id) {
            Some(caps) => match first_on_off(caps) {
                Some(on) => CommandPayloadKind::OnOffSet(!on),
                None => payload,
            },
            None => payload,
        }
    }
}

fn first_on_off_in(caps: &Vec<CapabilitySnapshot>) -> (r: Option<bool>)
    ensures
        r == first_on_off(caps@),
{
    let mut j: usize = 0;
    assert(caps@.skip(0) =~= caps@);
    while j < caps.len()
        invariant
            j <= caps@.len(),
            first_on_off(caps@) == first_on_off(caps@.skip(j as int)),
        decreases caps@.len() - j,
    {
        assert(caps@.skip(j as int).drop_first() =~= caps@.skip(j + 1));
        if let CapabilitySnapshot::OnOff { on } = caps[j] {
            return Some(on);
        }
        j = j + 1;
    }
    None
}

/// The payload actually dispatched for a command at the given freshness.
pub fn effective_payload(
    payload: CommandPayloadKind,
    endpoint_id: &str,
    device: &CommandDevice,
    freshness: FreshnessState,
) -> (p: CommandPayloadKind)
    ensures
        p == effective_payload_of(payload, device.endpoints@, endpoint_id@, freshness),
{
    if payload != CommandPayloadKind::OnOffToggle || freshness != FreshnessState::Fresh {
        return payload;
    }
    let mut i: usize = 0;
    assert(device.endpoints@.skip(0) =~= device.endpoints@);
    while i < device.endpoints.len()
        invariant
            i <= device.endpoints@.len(),
            payload == CommandPayloadKind::OnOffToggle,
            freshness == FreshnessState::Fresh,
            endpoint_capabilities(device.endpoints@, endpoint_id@) == endpoint_capabilities(
                device.endpoints@.skip(i as int),
                endpoint_id@,
            ),
        decreases device.endpoints@.len() - i,
    {
        assert(device.endpoints@.skip(i as int).drop_first() =~= device.endpoints@.skip(i + 1));
        assert(device.endpoints@.skip(i as int)[0] == device.endpoints@[i as int]);
        if str_eq(device.endpoints[i].id.as_str(), endpoint_id) {
            return match first_on_off_in(&device.endpoints[i].capabilities) {
                Some(on) => CommandPayloadKind::OnOffSet(!on),
                None => payload,
            };
        }
        i = i + 1;
    }
    payload
}

/// The capability name and risk each payload family requires, at version 1.
pub open spec fn requested_capability(payload: CommandPayloadKind) -> Option<(Seq<char>, RiskClass)> {
    match payload {
        CommandPayloadKind::OnOffSet(_) | CommandPayloadKind::OnOffToggle => Some(("on_off"@, RiskClass::Comfort)),
        CommandPayloadKind::Level => Some(("level"@, RiskClass::Comfort)),
        CommandPayloadKind::PositionGoTo(_) | CommandPayloadKind::PositionMove => Some(
            ("position"@, RiskClass::Mechanical),
        ),
        _ => None,
    }
}

/// The version-1 descriptor a payload requires; payload families outside the
/// command path's descriptor table are an invalid descriptor.
pub fn requested_descriptor(payload: CommandPayloadKind) -> (r: Result<CapabilityDescriptor, CommandServiceError>)
    ensures
        match requested_capability(payload) {
            Some((name, risk)) => r matches Ok(d) && d.name@ == name && d.version == 1 && d.risk == risk,
            None => r == Err::<CapabilityDescriptor, CommandServiceError>(CommandServiceError::InvalidDescriptor),
        },
{
    let (name, risk) = match payload {
        CommandPayloadKind::OnOffSet(_) | CommandPayloadKind::OnOffToggle => ("on_off", RiskClass::Comfort),
        CommandPayloadKind::Level => ("level", RiskClass::Comfort),
        CommandPayloadKind::PositionGoTo(_) | CommandPayloadKind::PositionMove => ("position", RiskClass::Mechanical),
        _ => return Err(CommandServiceError::InvalidDescriptor),
    };
    Ok(CapabilityDescriptor { name: String::from_str(name), version: 1, risk })
}

/// Whether the endpoint advertises the descriptor (same name, version and risk).
pub open spec fn descriptor_advertised(
    descriptors: Seq<EndpointDescriptors>,
    endpoint_id: Seq<char>,
    wanted: CapabilityDescriptor,
) -> bool {
    exists|i: int, j: int|
        0 <= i < descriptors.len() && descriptors[i].endpoint_id@ == endpoint_id && 0 <= j
            < descriptors[i].descriptors.len() && #[trigger] same_descriptor(descriptors[i].descriptors@[j], wanted)
}

/// Descriptor equality by name, version and risk.
pub open spec fn same_descriptor(a: CapabilityDescriptor, b: CapabilityDescriptor) -> bool {
    a.name@ == b.name@ && a.version == b.version && a.risk == b.risk
}

fn advertises(list: &Vec<CapabilityDescriptor>, wanted: &CapabilityDescriptor) -> (b: bool)
    ensures
        b == exists|c: int| 0 <= c < list@.len() && #[trigger] same_descriptor(list@[c], *wanted),
{
    let mut j: usize = 0;
    while j < list.len()
        invariant
            j <= list@.len(),
            forall|c: int| 0 <= c < j ==> !#[trigger] same_descriptor(list@[c], *wanted),
        decreases list@.len() - j,
    {
        if str_eq(list[j].name.as_str(), wanted.name.as_str()) && list[j].version == wanted.version && list[j].risk
            == wanted.risk {
            assert(same_descriptor(list@[j as int], *wanted));
            return true;
        }
        j = j + 1;
    }
    false
}

fn advertised(descriptors: &Vec<EndpointDescriptors>, endpoint_id: &str, wanted: &CapabilityDescriptor) -> (b: bool)
    ensures
        b == descriptor_advertised(descriptors@, endpoint_id@, *wanted),
{
    let mut i: usize = 0;
    while i < descriptors.len()
        invariant
            i <= descriptors@.len(),
            forall|a: int, c: int|
                0 <= a < i && descriptors@[a].endpoint_id@ == endpoint_id@ && 0 <= c < descriptors@[a].descriptors.len()
                    ==> !#[trigger] same_descriptor(descriptors@[a].descriptors@[c], *wanted),
        decreases descriptors@.len() - i,
    {
        if str_eq(descriptors[i].endpoint_id.as_str(), endpoint_id) && advertises(&descriptors[i].descriptors, wanted) {
            let ghost c = choose|c: int|
                0 <= c < descriptors@[i as int].descriptors@.len() && #[trigger] same_descriptor(
                    descriptors@[i as int].descriptors@[c],
                    *wanted,
                );
            assert(same_descriptor(descriptors@[i as int].descriptors@[c], *wanted));
            return true;
        }
        i = i + 1;
    }
    false
}

/// The first reason a validated envelope cannot be dispatched to the device.
pub open spec fn target_failure(
    envelope_check: Result<(), CommandErrorCode>,
    capability: CapabilityDescriptor,
    endpoint_id: Seq<char>,
    expected_observed_at: Option<i64>,
    payload: CommandPayloadKind,
    device: CommandDevice,
) -> Option<CommandErrorCode> {
    if envelope_check is Err {
        Some(envelope_check->Err_0)
    } else if !descriptor_advertised(device.capability_descriptors@, endpoint_id, capability) {
        Some(CommandErrorCode::CapabilityMismatch)
    } else if expected_observed_at is Some && expected_observed_at != device.observed_at {
        Some(CommandErrorCode::StaleObservation)
    } else if payload == CommandPayloadKind::OnOffToggle {
        Some(CommandErrorCode::StaleObservation)
    } else if constraint_of(payload, device.endpoints@, endpoint_id) == ConstraintState::Unavailable {
        Some(CommandErrorCode::UnsupportedConstraint)
    } else {
        None
    }
}

/// Validates a command envelope against the durable device, given the
/// envelope's own validation result.
pub fn validate_target(
    envelope_check: Result<(), CommandErrorCode>,
    capability: &CapabilityDescriptor,
    endpoint_id: &str,
    expected_observed_at: Option<i64>,
    payload: CommandPayloadKind,
    device: &CommandDevice,
) -> (r: Result<(), CommandErrorCode>)
    ensures
        match target_failure(envelope_check, *capability, endpoint_id@, expected_observed_at, payload, *device) {
            Some(code) => r == Err::<(), CommandErrorCode>(code),
            None => r is Ok,
        },
{
    envelope_check?;
    if !advertised(&device.capability_descriptors, endpoint_id, capability) {
        return Err(CommandErrorCode::CapabilityMismatch);
    }
    if let Some(expected) = expected_observed_at {
        if Some(expected) != device.observed_at {
            return Err(CommandErrorCode::StaleObservation);
        }
    }
    if payload == CommandPayloadKind::OnOffToggle {
        return Err(CommandErrorCode::StaleObservation);
    }
    if constraint_state(payload, endpoint_id, device) == ConstraintState::Unavailable {
        return Err(CommandErrorCode::UnsupportedConstraint);
    }
    Ok(())
}

/// What startup recovery does with one persisted command.
#[derive(Clone, Copy, Debug, PartialEq, Eq, Structural)]
pub enum CommandRecoveryAction {
    /// The deadline passed before dispatch: the command times out.
    TimeOut,
    /// A received command continues with target validation.
    Validate,
    /// A validated command is evaluated by policy again, then dispatched or rejected.
    Evaluate,
    /// A dispatched or acknowledged command awaits confirmation.
    Confirm,
    /// The command is terminal.
    Nothing,
}

/// Decides how startup recovery resumes a persisted command.
pub fn recovery_action(state: CommandState, deadline: i64, now: i64) -> (a: CommandRecoveryAction)
    ensures
        a == match state {
            CommandState::Received => if deadline <= now {
                CommandRecoveryAction::TimeOut
            } else {
                CommandRecoveryAction::Validate
            },
            CommandState::Validated => if deadline <= now {
                CommandRecoveryAction::TimeOut
            } else {
                CommandRecoveryAction::Evaluate
            },
            CommandState::Dispatched | CommandState::Acknowledged => CommandRecoveryAction::Confirm,
            _ => CommandRecoveryAction::Nothing,
        },
{
    match state {
        CommandState::Received => if deadline <= now {
            CommandRecoveryAction::TimeOut
        } else {
            CommandRecoveryAction::Validate
        },
        CommandState::Validated => if deadline <= now {
            CommandRecoveryAction::TimeOut
        } else {
            CommandRecoveryAction::Evaluate
        },
        CommandState::Dispatched | CommandState::Acknowledged => CommandRecoveryAction::Confirm,
        _ => CommandRecoveryAction::Nothing,
    }
}

/// Only commands not yet dispatched can be cancelled.
pub fn cancellation_check(state: CommandState) -> (r: Result<(), CommandServiceError>)
    ensures
        r is Ok <==> (state == CommandState::Received || state == CommandState::Validated),
        r matches Err(e) ==> e == CommandServiceError::NotCancellable,
{
    match state {
        CommandState::Received | CommandState::Validated => Ok(()),
        _ => Err(CommandServiceError::NotCancellable),
    }
}

} // verus!
