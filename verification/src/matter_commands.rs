//! Shared command-path coordination rules for replaceable Matter desired state:
//! which commands own a desired slot, what supersedes what, and when an unlock
//! may be dispatched.

use vstd::prelude::*;

use crate::automation_compiler::CommandPayloadKind;
use crate::matter_controller::MatterLockState;
use crate::matter_projection::{advance_matter_desired_state, MatterConvergence, MatterDesiredState, MatterProjectedState, MatterStateValue};

verus! {

/// Number of optimistic desired-state registration attempts.
pub const DESIRED_REGISTRATION_ATTEMPTS: usize = 4;

/// Lifetime of one unlock authorization, in milliseconds.
pub const UNLOCK_AUTHORIZATION_MILLIS: i64 = 60000;

/// Invalid durable Matter command coordination state.
#[derive(Clone, Copy, Debug, PartialEq, Eq, Structural)]
pub enum MatterCommandControlError {
    RevisionExhausted,
    PriorCommandMissing,
    PriorCommandNotCancellable,
    DesiredSlotMissing,
    InvalidDispatchTransition,
    RegistrationFailed,
    UnsupportedDesiredState,
    InvalidUnlockApproval,
    UnlockApprovalExpired,
    UnlockApprovalRejected,
}

impl MatterCommandControlError {
    /// The error's display text.
    pub fn message(&self) -> (s: &'static str)
        ensures
            s@ == (match *self {
                MatterCommandControlError::RevisionExhausted => "Matter desired-state revision exhausted"@,
                MatterCommandControlError::PriorCommandMissing => "Matter desired slot references a missing command"@,
                MatterCommandControlError::PriorCommandNotCancellable => "prior Matter command cannot be superseded"@,
                MatterCommandControlError::DesiredSlotMissing => "Matter desired slot is missing"@,
                MatterCommandControlError::InvalidDispatchTransition => "Matter command cannot enter dispatched state"@,
                MatterCommandControlError::RegistrationFailed => "Matter desired-state registration did not commit"@,
                MatterCommandControlError::UnsupportedDesiredState => "Matter command has no replaceable desired-state value"@,
                MatterCommandControlError::InvalidUnlockApproval => "unlock approval is invalid"@,
                MatterCommandControlError::UnlockApprovalExpired => "unlock approval already expired"@,
                MatterCommandControlError::UnlockApprovalRejected => "unlock approval was rejected at dispatch boundary"@,
            }),
    {
        match self {
            MatterCommandControlError::RevisionExhausted => "Matter desired-state revision exhausted",
            MatterCommandControlError::PriorCommandMissing => "Matter desired slot references a missing command",
            MatterCommandControlError::PriorCommandNotCancellable => "prior Matter command cannot be superseded",
            MatterCommandControlError::DesiredSlotMissing => "Matter desired slot is missing",
            MatterCommandControlError::InvalidDispatchTransition => "Matter command cannot enter dispatched state",
            MatterCommandControlError::RegistrationFailed => "Matter desired-state registration did not commit",
            MatterCommandControlError::UnsupportedDesiredState => "Matter command has no replaceable desired-state value",
            MatterCommandControlError::InvalidUnlockApproval => "unlock approval is invalid",
            MatterCommandControlError::UnlockApprovalExpired => "unlock approval already expired",
            MatterCommandControlError::UnlockApprovalRejected => "unlock approval was rejected at dispatch boundary",
        }
    }
}

/// On/off set, lock and unlock commands replace earlier desired state.
pub open spec fn replaceable(payload: CommandPayloadKind) -> bool {
    payload is OnOffSet || payload == CommandPayloadKind::Lock || payload == CommandPayloadKind::Unlock
}

/// Whether the payload is replaceable desired state.
pub fn is_replaceable(payload: CommandPayloadKind) -> (b: bool)
    ensures
        b == replaceable(payload),
{
    match payload {
        CommandPayloadKind::OnOffSet(_) | CommandPayloadKind::Lock | CommandPayloadKind::Unlock => true,
        _ => false,
    }
}

/// The desired state value a replaceable payload asks for.
pub open spec fn desired_value_of(payload: CommandPayloadKind) -> Option<MatterStateValue> {
    match payload {
        CommandPayloadKind::OnOffSet(on) => Some(MatterStateValue::OnOff(on)),
        CommandPayloadKind::Lock => Some(MatterStateValue::Lock(MatterLockState::Locked)),
        CommandPayloadKind::Unlock => Some(MatterStateValue::Lock(MatterLockState::Unlocked)),
        _ => None,
    }
}

/// The desired state value of a payload, when it has one.
pub fn desired_value(payload: CommandPayloadKind) -> (v: Option<MatterStateValue>)
    ensures
        v == desired_value_of(payload),
        v is Some <==> replaceable(payload),
{
    match payload {
        CommandPayloadKind::OnOffSet(on) => Some(MatterStateValue::OnOff(on)),
        CommandPayloadKind::Lock => Some(MatterStateValue::Lock(MatterLockState::Locked)),
        CommandPayloadKind::Unlock => Some(MatterStateValue::Lock(MatterLockState::Unlocked)),
        _ => None,
    }
}

/// The durable slot naming the command that owns a projection's desired state.
#[derive(Clone, Copy, Debug, PartialEq, Eq, Structural)]
pub struct MatterDesiredCommandSlot {
    pub projection_id: u64,
    pub desired_revision: u64,
    pub command_id: u64,
    /// Dispatch time, once the owning command crossed the dispatch boundary.
    pub dispatched_at: Option<i64>,
    pub updated_at: i64,
}

/// What registering a command as desired state commits.
#[derive(Clone, Copy, Debug, PartialEq, Eq, Structural)]
pub enum DesiredRegistrationPlan {
    /// The command already owns the slot at this revision.
    AlreadyOwner { desired_revision: u64 },
    /// The command takes the slot at a new revision, possibly cancelling the
    /// undispatched prior owner.
    Replace {
        desired_revision: u64,
        state: MatterProjectedState,
        projection_revision: u64,
        superseded_command: Option<u64>,
    },
}

/// The registration committed for `command_id` over the current slot.
pub open spec fn registration_result(
    current: Option<MatterDesiredCommandSlot>,
    command_id: u64,
    payload: CommandPayloadKind,
    state: MatterProjectedState,
    projection_revision: u64,
) -> Result<DesiredRegistrationPlan, MatterCommandControlError> {
    match current {
        Some(slot) if slot.command_id == command_id => Ok(
            DesiredRegistrationPlan::AlreadyOwner { desired_revision: slot.desired_revision },
        ),
        _ => {
            let revision: int = match current {
                Some(slot) => slot.desired_revision + 1,
                None => 1,
            };
            if revision > u64::MAX {
                Err(MatterCommandControlError::RevisionExhausted)
            } else {
                match desired_value_of(payload) {
                    None => Err(MatterCommandControlError::UnsupportedDesiredState),
                    Some(value) => if projection_revision == u64::MAX {
                        Err(MatterCommandControlError::RevisionExhausted)
                    } else {
                        Ok(
                            DesiredRegistrationPlan::Replace {
                                desired_revision: revision as u64,
                                state: MatterProjectedState {
                                    desired: Some(MatterDesiredState { value, revision: revision as u64 }),
                                    convergence: MatterConvergence::Pending,
                                    ..state
                                },
                                projection_revision: (projection_revision + 1) as u64,
                                superseded_command: match current {
                                    Some(slot) => if slot.dispatched_at is None {
                                        Some(slot.command_id)
                                    } else {
                                        None
                                    },
                                    None => None,
                                },
                            },
                        )
                    },
                }
            }
        },
    }
}

/// Plans the registration of a validated replaceable command as desired state.
pub fn plan_desired_registration(
    current: Option<MatterDesiredCommandSlot>,
    command_id: u64,
    payload: CommandPayloadKind,
    state: &MatterProjectedState,
    projection_revision: u64,
) -> (r: Result<DesiredRegistrationPlan, MatterCommandControlError>)
    ensures
        r == registration_result(current, command_id, payload, *state, projection_revision),
{
    if let Some(slot) = current {
        if slot.command_id == command_id {
            return Ok(DesiredRegistrationPlan::AlreadyOwner { desired_revision: slot.desired_revision });
        }
    }
    let desired_revision = match current {
        Some(slot) => match slot.desired_revision.checked_add(1) {
            Some(r) => r,
            None => return Err(MatterCommandControlError::RevisionExhausted),
        },
        None => 1,
    };
    let value = match desired_value(payload) {
        Some(v) => v,
        None => return Err(MatterCommandControlError::UnsupportedDesiredState),
    };
    let next_state = advance_matter_desired_state(state, MatterDesiredState { value, revision: desired_revision });
    let next_revision = match projection_revision.checked_add(1) {
        Some(r) => r,
        None => return Err(MatterCommandControlError::RevisionExhausted),
    };
    let superseded_command = match current {
        Some(slot) => if slot.dispatched_at.is_none() {
            Some(slot.command_id)
        } else {
            None
        },
        None => None,
    };
    Ok(
        DesiredRegistrationPlan::Replace {
            desired_revision,
            state: next_state,
            projection_revision: next_revision,
            superseded_command,
        },
    )
}

/// A new registration strictly raises the desired revision, records it in the
/// projection, and supersedes only a prior owner that was never dispatched.
pub proof fn lemma_registration_advances(
    current: Option<MatterDesiredCommandSlot>,
    command_id: u64,
    payload: CommandPayloadKind,
    state: MatterProjectedState,
    projection_revision: u64,
)
    requires
        registration_result(current, command_id, payload, state, projection_revision) matches Ok(
            DesiredRegistrationPlan::Replace { .. },
        ),
    ensures
        registration_result(current, command_id, payload, state, projection_revision) matches Ok(
            DesiredRegistrationPlan::Replace { desired_revision, state: next, projection_revision: next_revision, superseded_command },
        ) && (current matches Some(slot) ==> desired_revision > slot.desired_revision) && next.desired == Some(
            MatterDesiredState { value: desired_value_of(payload)->0, revision: desired_revision },
        ) && next_revision > projection_revision && (superseded_command matches Some(id) ==> current matches Some(slot)
            && slot.command_id == id && slot.command_id != command_id && slot.dispatched_at is None),
{
}

/// The atomic decision at the durable dispatch boundary.
#[derive(Clone, Copy, Debug, PartialEq, Eq, Structural)]
pub enum MatterDispatchDecision {
    /// Target is not owned by Matter convergence.
    Unmanaged,
    /// Commit the dispatched transition together with the slot marker.
    Commit,
    /// A newer desired revision cancelled this command before dispatch.
    Superseded,
    /// Exact unlock authorization must be supplied through the interactive path.
    AwaitingUnlockAuthorization,
}

/// Decides dispatch of a command whose target projection is `managed`, given
/// the projection's slot.
pub fn dispatch_decision(
    managed: bool,
    slot: Option<MatterDesiredCommandSlot>,
    command_id: u64,
    payload: CommandPayloadKind,
) -> (r: Result<MatterDispatchDecision, MatterCommandControlError>)
    ensures
        r == (if !managed {
            Ok(MatterDispatchDecision::Unmanaged)
        } else {
            match slot {
                None => Err(MatterCommandControlError::DesiredSlotMissing),
                Some(s) => if s.command_id != command_id {
                    Ok(MatterDispatchDecision::Superseded)
                } else if payload == CommandPayloadKind::Unlock {
                    Ok(MatterDispatchDecision::AwaitingUnlockAuthorization)
                } else {
                    Ok(MatterDispatchDecision::Commit)
                },
            }
        }),
{
    if !managed {
        return Ok(MatterDispatchDecision::Unmanaged);
    }
    let s = match slot {
        Some(s) => s,
        None => return Err(MatterCommandControlError::DesiredSlotMissing),
    };
    if s.command_id != command_id {
        return Ok(MatterDispatchDecision::Superseded);
    }
    if payload == CommandPayloadKind::Unlock {
        return Ok(MatterDispatchDecision::AwaitingUnlockAuthorization);
    }
    Ok(MatterDispatchDecision::Commit)
}

/// Checks an unlock approval and computes the authorization's expiry: sixty
/// seconds, cut short by the command deadline.
pub fn unlock_authorization_expiry(
    approval_allowed: bool,
    payload: CommandPayloadKind,
    now: i64,
    deadline: i64,
) -> (r: Result<i64, MatterCommandControlError>)
    requires
        now <= i64::MAX - UNLOCK_AUTHORIZATION_MILLIS,
    ensures
        ({
            let expires: int = if now + UNLOCK_AUTHORIZATION_MILLIS <= deadline {
                now + UNLOCK_AUTHORIZATION_MILLIS
            } else {
                deadline as int
            };
            r == if !approval_allowed || payload != CommandPayloadKind::Unlock {
                Err(MatterCommandControlError::InvalidUnlockApproval)
            } else if expires <= now {
                Err(MatterCommandControlError::UnlockApprovalExpired)
            } else {
                Ok(expires as i64)
            }
        }),
{
    if !approval_allowed || payload != CommandPayloadKind::Unlock {
        return Err(MatterCommandControlError::InvalidUnlockApproval);
    }
    let window_end = now + UNLOCK_AUTHORIZATION_MILLIS;
    let expires = if window_end <= deadline { window_end } else { deadline };
    if expires <= now {
        return Err(MatterCommandControlError::UnlockApprovalExpired);
    }
    Ok(expires)
}

} // verus!
