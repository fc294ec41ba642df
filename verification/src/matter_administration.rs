//! Authenticated durable admission rules for Matter administration operations.
//!
//! Every administration action needs an enabled actor holding an enabled,
//! installation-wide grant for exactly that action whose risk ceiling covers
//! security-sensitive work.

use vstd::prelude::*;

use crate::policy::{risk_permits, Actor, ActorGrant, CommandAction, GrantScope, RiskClass};

verus! {

/// Administration policy revision stamped on every admitted operation.
pub const MATTER_ADMINISTRATION_POLICY_VERSION: u16 = 1;

/// Largest page of operations one list request may ask for.
pub const MAX_OPERATION_PAGE: usize = 256;

/// Durable Matter administration operation family.
#[derive(Clone, Copy, Debug, PartialEq, Eq, Structural, Hash)]
pub enum MatterOperationKind {
    CreateFabric,
    CommissionNode,
    CancelCommissioning,
    RemoveNode,
    ExportFabric,
    RestoreFabric,
    RepairSubscription,
}

/// Stable resource targeted by one operation.
#[derive(Clone, Copy, Debug, PartialEq, Eq, Structural, Hash)]
pub enum MatterOperationTarget {
    Fabric { fabric_id: u64 },
    Operation { fabric_id: u64, operation_id: u64 },
    Node { fabric_id: u64, node_id: u64 },
}

/// Lifecycle phase of one durable operation.
#[derive(Clone, Copy, Debug, PartialEq, Eq, Structural, Hash)]
pub enum MatterOperationPhase {
    Requested,
    CreatingFabric,
    LoadingFabric,
    Exporting,
    Restoring,
    ReadingGap,
    Subscribing,
    Completed,
    Failed,
    Cancelled,
    RepairRequired,
}

/// When a failed controller request may be retried.
#[derive(Clone, Copy, Debug, PartialEq, Eq, Structural, Hash)]
pub enum MatterRetryability {
    Safe,
    AfterRepair,
    Never,
}

/// Stable controller failure code.
#[derive(Clone, Copy, Debug, PartialEq, Eq, Structural, Hash)]
pub enum MatterControllerErrorCode {
    FabricConflict,
    OutcomeIndeterminate,
    SubscriptionLost,
    UnsupportedOperation,
    /// Any other controller failure.
    Other,
}

/// The parts of a structured controller failure that decide its handling.
#[derive(Clone, Copy, Debug, PartialEq, Eq, Structural, Hash)]
pub struct MatterControllerFailure {
    pub code: MatterControllerErrorCode,
    pub retryability: MatterRetryability,
    /// Whether the controller attached a repair hint.
    pub has_repair: bool,
}

/// Failure at the authenticated Matter administration boundary.
#[derive(Clone, Debug, PartialEq, Eq)]
pub enum MatterAdministrationError {
    ActorNotFound,
    FabricNotFound,
    InvalidTarget,
    InstallationMismatch,
    Denied,
    OperationNotFound,
    NotCancellable,
    InvalidTransition,
    InvalidPageLimit,
    /// Canonical encoding of the request failed; the text says why.
    CanonicalSerialization(String),
    CanonicalHash,
    /// Durable repository operation failed; the text says why.
    Repository(String),
}

impl MatterAdministrationError {
    /// The error's display text.
    pub fn message(&self) -> (s: &'static str)
        ensures
            s@ == administration_error_text(*self),
    {
        match self {
            MatterAdministrationError::ActorNotFound => "authenticated actor not found",
            MatterAdministrationError::FabricNotFound => "Matter fabric not found",
            MatterAdministrationError::InvalidTarget => "Matter operation target is invalid for its kind",
            MatterAdministrationError::InstallationMismatch => "Matter target belongs to another installation",
            MatterAdministrationError::Denied => "Matter administration action denied",
            MatterAdministrationError::OperationNotFound => "Matter operation not found",
            MatterAdministrationError::NotCancellable => "Matter operation is not cancellable",
            MatterAdministrationError::InvalidTransition => "Matter operation transition is invalid",
            MatterAdministrationError::InvalidPageLimit => "Matter operation page limit must be between 1 and 256",
            MatterAdministrationError::CanonicalSerialization(_) => "Matter administration request serialization failed",
            MatterAdministrationError::CanonicalHash => "Matter administration request digest failed",
            MatterAdministrationError::Repository(_) => "Matter administration repository operation failed",
        }
    }
}

/// Display text of each administration error.
pub open spec fn administration_error_text(e: MatterAdministrationError) -> Seq<char> {
    match e {
        MatterAdministrationError::ActorNotFound => "authenticated actor not found"@,
        MatterAdministrationError::FabricNotFound => "Matter fabric not found"@,
        MatterAdministrationError::InvalidTarget => "Matter operation target is invalid for its kind"@,
        MatterAdministrationError::InstallationMismatch => "Matter target belongs to another installation"@,
        MatterAdministrationError::Denied => "Matter administration action denied"@,
        MatterAdministrationError::OperationNotFound => "Matter operation not found"@,
        MatterAdministrationError::NotCancellable => "Matter operation is not cancellable"@,
        MatterAdministrationError::InvalidTransition => "Matter operation transition is invalid"@,
        MatterAdministrationError::InvalidPageLimit => "Matter operation page limit must be between 1 and 256"@,
        MatterAdministrationError::CanonicalSerialization(_) => "Matter administration request serialization failed"@,
        MatterAdministrationError::CanonicalHash => "Matter administration request digest failed"@,
        MatterAdministrationError::Repository(_) => "Matter administration repository operation failed"@,
    }
}

/// The exact grant action each operation kind requires.
pub open spec fn kind_action(kind: MatterOperationKind) -> CommandAction {
    match kind {
        MatterOperationKind::CreateFabric => CommandAction::MatterCreateFabric,
        MatterOperationKind::CommissionNode => CommandAction::MatterCommissionNode,
        MatterOperationKind::CancelCommissioning => CommandAction::MatterCancelOperation,
        MatterOperationKind::RemoveNode => CommandAction::MatterRemoveNode,
        MatterOperationKind::ExportFabric => CommandAction::MatterExportFabric,
        MatterOperationKind::RestoreFabric => CommandAction::MatterRestoreFabric,
        MatterOperationKind::RepairSubscription => CommandAction::MatterRepairSubscription,
    }
}

/// Durable actor, policy and canonical-request binding of one operation.
#[derive(Clone, Debug, PartialEq, Eq)]
pub struct MatterOperationBinding {
    pub operation_id: u64,
    pub actor_id: u64,
    pub installation_id: u64,
    pub action: CommandAction,
    pub idempotency_key: String,
    pub request_hash: crate::ports::CanonicalRequestHash,
    pub policy_version: u16,
}

impl MatterOperationBinding {
    /// Returns the exact grant action required by one operation kind.
    pub fn action_for_kind(kind: MatterOperationKind) -> (a: CommandAction)
        ensures
            a == kind_action(kind),
    {
        match kind {
            MatterOperationKind::CreateFabric => CommandAction::MatterCreateFabric,
            MatterOperationKind::CommissionNode => CommandAction::MatterCommissionNode,
            MatterOperationKind::CancelCommissioning => CommandAction::MatterCancelOperation,
            MatterOperationKind::RemoveNode => CommandAction::MatterRemoveNode,
            MatterOperationKind::ExportFabric => CommandAction::MatterExportFabric,
            MatterOperationKind::RestoreFabric => CommandAction::MatterRestoreFabric,
            MatterOperationKind::RepairSubscription => CommandAction::MatterRepairSubscription,
        }
    }
}

/// The administration actions: reading and the seven operation families.
pub open spec fn administration_action(action: CommandAction) -> bool {
    !(action == CommandAction::Execute || action == CommandAction::ReadAudit)
}

/// Whether `action` is one of the Matter administration actions.
pub fn is_matter_administration_action(action: CommandAction) -> (b: bool)
    ensures
        b == administration_action(action),
{
    match action {
        CommandAction::MatterRead
        | CommandAction::MatterCreateFabric
        | CommandAction::MatterCommissionNode
        | CommandAction::MatterCancelOperation
        | CommandAction::MatterRemoveNode
        | CommandAction::MatterExportFabric
        | CommandAction::MatterRestoreFabric
        | CommandAction::MatterRepairSubscription => true,
        _ => false,
    }
}

/// The fabric every target lives in.
pub open spec fn fabric_of(target: MatterOperationTarget) -> u64 {
    match target {
        MatterOperationTarget::Fabric { fabric_id } => fabric_id,
        MatterOperationTarget::Operation { fabric_id, .. } => fabric_id,
        MatterOperationTarget::Node { fabric_id, .. } => fabric_id,
    }
}

/// The fabric every target lives in.
pub fn target_fabric(target: &MatterOperationTarget) -> (f: u64)
    ensures
        f == fabric_of(*target),
{
    match target {
        MatterOperationTarget::Fabric { fabric_id } => *fabric_id,
        MatterOperationTarget::Operation { fabric_id, .. } => *fabric_id,
        MatterOperationTarget::Node { fabric_id, .. } => *fabric_id,
    }
}

/// Fabric-level kinds target a fabric, cancellation an operation, and node
/// kinds a node.
pub open spec fn target_matches_kind(kind: MatterOperationKind, target: MatterOperationTarget) -> bool {
    match kind {
        MatterOperationKind::CreateFabric
        | MatterOperationKind::CommissionNode
        | MatterOperationKind::ExportFabric
        | MatterOperationKind::RestoreFabric => target is Fabric,
        MatterOperationKind::CancelCommissioning => target is Operation,
        MatterOperationKind::RemoveNode | MatterOperationKind::RepairSubscription => target is Node,
    }
}

/// Checks that the target family agrees with the operation kind.
pub fn validate_target(kind: MatterOperationKind, target: &MatterOperationTarget) -> (r: Result<
    (),
    MatterAdministrationError,
>)
    ensures
        r is Ok <==> target_matches_kind(kind, *target),
        r matches Err(e) ==> e == MatterAdministrationError::InvalidTarget,
{
    let valid = match kind {
        MatterOperationKind::CreateFabric
        | MatterOperationKind::CommissionNode
        | MatterOperationKind::ExportFabric
        | MatterOperationKind::RestoreFabric => matches!(target, MatterOperationTarget::Fabric { .. }),
        MatterOperationKind::CancelCommissioning => matches!(target, MatterOperationTarget::Operation { .. }),
        MatterOperationKind::RemoveNode | MatterOperationKind::RepairSubscription => matches!(
            target,
            MatterOperationTarget::Node { .. }
        ),
    };
    if valid {
        Ok(())
    } else {
        Err(MatterAdministrationError::InvalidTarget)
    }
}

/// Whether one grant authorizes `actor` to perform `action` across its installation.
pub open spec fn grant_authorizes(grant: ActorGrant, actor: Actor, action: CommandAction) -> bool {
    &&& grant.enabled
    &&& grant.actor_id == actor.id
    &&& grant.actions@.contains(action)
    &&& risk_permits(grant.maximum_risk, RiskClass::Security)
    &&& grant.scope matches GrantScope::Installation { installation_id } && installation_id
        == actor.installation_id
}

/// Whether an enabled actor holds some grant authorizing `action`.
pub open spec fn administration_allowed(actor: Actor, grants: Seq<ActorGrant>, action: CommandAction) -> bool {
    &&& actor.enabled
    &&& exists|i: int| 0 <= i < grants.len() && #[trigger] grant_authorizes(grants[i], actor, action)
}

fn contains_action(actions: &Vec<CommandAction>, action: CommandAction) -> (b: bool)
    ensures
        b == actions@.contains(action),
{
    let mut i: usize = 0;
    while i < actions.len()
        invariant
            i <= actions@.len(),
            forall|j: int| 0 <= j < i ==> actions@[j] != action,
        decreases actions@.len() - i,
    {
        if actions[i] == action {
            return true;
        }
        i = i + 1;
    }
    false
}

fn grant_allows(grant: &ActorGrant, actor: &Actor, action: CommandAction) -> (b: bool)
    ensures
        b == grant_authorizes(*grant, *actor, action),
{
    let installation_scoped = match &grant.scope {
        GrantScope::Installation { installation_id } => *installation_id == actor.installation_id,
        _ => false,
    };
    grant.enabled && grant.actor_id == actor.id && contains_action(&grant.actions, action)
        && grant.maximum_risk.permits(RiskClass::Security) && installation_scoped
}

/// Requires an enabled actor with an exact installation grant for `action`.
pub fn authorize(actor: &Actor, grants: &Vec<ActorGrant>, action: CommandAction) -> (r: Result<
    (),
    MatterAdministrationError,
>)
    ensures
        r is Ok <==> administration_allowed(*actor, grants@, action),
        r matches Err(e) ==> e == MatterAdministrationError::Denied,
{
    if !actor.enabled {
        return Err(MatterAdministrationError::Denied);
    }
    let mut i: usize = 0;
    while i < grants.len()
        invariant
            i <= grants@.len(),
            actor.enabled,
            forall|j: int| 0 <= j < i ==> !#[trigger] grant_authorizes(grants@[j], *actor, action),
        decreases grants@.len() - i,
    {
        if grant_allows(&grants[i], actor, action) {
            assert(grant_authorizes(grants@[i as int], *actor, action));
            return Ok(());
        }
        i = i + 1;
    }
    Err(MatterAdministrationError::Denied)
}

/// Revalidates an installation-scoped administration action; the installation
/// is the one it is authorized in.
pub fn authorize_installation_action(actor: &Actor, grants: &Vec<ActorGrant>, action: CommandAction) -> (r: Result<
    u64,
    MatterAdministrationError,
>)
    ensures
        match r {
            Ok(installation) => administration_action(action) && administration_allowed(*actor, grants@, action)
                && installation == actor.installation_id,
            Err(e) => e == MatterAdministrationError::Denied && !(administration_action(action)
                && administration_allowed(*actor, grants@, action)),
        },
{
    if !is_matter_administration_action(action) {
        return Err(MatterAdministrationError::Denied);
    }
    authorize(actor, grants, action)?;
    Ok(actor.installation_id)
}

/// The first failing admission check, in the order the service checks them, or
/// the action an admitted operation is bound to.
pub open spec fn admission_result(
    actor: Actor,
    grants: Seq<ActorGrant>,
    kind: MatterOperationKind,
    target: MatterOperationTarget,
    fabric_installation: Option<u64>,
) -> Result<CommandAction, MatterAdministrationError> {
    if !target_matches_kind(kind, target) {
        Err(MatterAdministrationError::InvalidTarget)
    } else {
        match fabric_installation {
            None => Err(MatterAdministrationError::FabricNotFound),
            Some(installation) => if actor.installation_id != installation {
                Err(MatterAdministrationError::InstallationMismatch)
            } else if !administration_allowed(actor, grants, kind_action(kind)) {
                Err(MatterAdministrationError::Denied)
            } else {
                Ok(kind_action(kind))
            },
        }
    }
}

/// Decides admission of one operation for the stored actor, given the
/// installation of the target fabric (`None` when the fabric does not exist).
pub fn admission_decision(
    actor: &Actor,
    grants: &Vec<ActorGrant>,
    kind: MatterOperationKind,
    target: &MatterOperationTarget,
    fabric_installation: Option<u64>,
) -> (r: Result<CommandAction, MatterAdministrationError>)
    ensures
        r == admission_result(*actor, grants@, kind, *target, fabric_installation),
{
    validate_target(kind, target)?;
    let action = MatterOperationBinding::action_for_kind(kind);
    let installation = match fabric_installation {
        Some(installation) => installation,
        None => return Err(MatterAdministrationError::FabricNotFound),
    };
    if actor.installation_id != installation {
        return Err(MatterAdministrationError::InstallationMismatch);
    }
    authorize(actor, grants, action)?;
    Ok(action)
}

/// An admitted operation is bound to the exact action of its kind, and only an
/// enabled actor with an installation-wide grant for that action in the target
/// fabric's installation is admitted.
pub proof fn lemma_admission_requires_exact_grant(
    actor: Actor,
    grants: Seq<ActorGrant>,
    kind: MatterOperationKind,
    target: MatterOperationTarget,
    fabric_installation: Option<u64>,
)
    requires
        admission_result(actor, grants, kind, target, fabric_installation) is Ok,
    ensures
        admission_result(actor, grants, kind, target, fabric_installation) == Ok::<
            CommandAction,
            MatterAdministrationError,
        >(kind_action(kind)),
        actor.enabled,
        fabric_installation == Some(actor.installation_id),
        exists|i: int|
            0 <= i < grants.len() && #[trigger] grant_authorizes(grants[i], actor, kind_action(kind)),
{
}

/// Checks a requested page size.
pub fn page_limit(limit: usize) -> (r: Result<(), MatterAdministrationError>)
    ensures
        r is Ok <==> 1 <= limit <= MAX_OPERATION_PAGE,
        r matches Err(e) ==> e == MatterAdministrationError::InvalidPageLimit,
{
    if limit == 0 || limit > MAX_OPERATION_PAGE {
        Err(MatterAdministrationError::InvalidPageLimit)
    } else {
        Ok(())
    }
}

/// An operation is visible to the actor that admitted it and to nobody else.
pub fn visible_to_owner<T>(operation: Option<(T, MatterOperationBinding)>, actor_id: u64) -> (r: Option<T>)
    ensures
        match operation {
            Some((op, binding)) => if binding.actor_id == actor_id {
                r == Some(op)
            } else {
                r is None
            },
            None => r is None,
        },
{
    match operation {
        Some((op, binding)) => if binding.actor_id == actor_id {
            Some(op)
        } else {
            None
        },
        None => None,
    }
}

/// An owned operation admitted for exactly `action`; foreign or differently
/// bound operations are indistinguishable from missing ones.
pub fn owned_for_action<T>(operation: Option<(T, MatterOperationBinding)>, actor_id: u64, action: CommandAction) -> (r:
    Result<T, MatterAdministrationError>)
    ensures
        match operation {
            Some((op, binding)) => if binding.actor_id == actor_id && binding.action == action {
                r == Ok::<T, MatterAdministrationError>(op)
            } else {
                r == Err::<T, MatterAdministrationError>(MatterAdministrationError::OperationNotFound)
            },
            None => r == Err::<T, MatterAdministrationError>(MatterAdministrationError::OperationNotFound),
        },
{
    match operation {
        Some((op, binding)) => if binding.actor_id == actor_id && binding.action == action {
            Ok(op)
        } else {
            Err(MatterAdministrationError::OperationNotFound)
        },
        None => Err(MatterAdministrationError::OperationNotFound),
    }
}

/// Only an owned commissioning operation that has not started can be cancelled.
pub fn cancellation_check(
    owner_id: u64,
    actor_id: u64,
    kind: MatterOperationKind,
    phase: MatterOperationPhase,
) -> (r: Result<(), MatterAdministrationError>)
    ensures
        r == (if owner_id != actor_id {
            Err::<(), MatterAdministrationError>(MatterAdministrationError::OperationNotFound)
        } else if kind != MatterOperationKind::CommissionNode || phase != MatterOperationPhase::Requested {
            Err(MatterAdministrationError::NotCancellable)
        } else {
            Ok(())
        }),
{
    if owner_id != actor_id {
        return Err(MatterAdministrationError::OperationNotFound);
    }
    if kind != MatterOperationKind::CommissionNode || phase != MatterOperationPhase::Requested {
        return Err(MatterAdministrationError::NotCancellable);
    }
    Ok(())
}

/// Whether a controller failure leaves the operation needing repair.
pub open spec fn needs_repair(error: MatterControllerFailure) -> bool {
    error.retryability == MatterRetryability::AfterRepair || error.has_repair || error.code
        == MatterControllerErrorCode::OutcomeIndeterminate
}

/// The phase a controller failure moves an operation to: repair-required when
/// the outcome needs repair, otherwise failed.
pub fn failure_phase(error: MatterControllerFailure) -> (p: MatterOperationPhase)
    ensures
        p == (if needs_repair(error) {
            MatterOperationPhase::RepairRequired
        } else {
            MatterOperationPhase::Failed
        }),
{
    if error.retryability == MatterRetryability::AfterRepair || error.has_repair || error.code
        == MatterControllerErrorCode::OutcomeIndeterminate {
        MatterOperationPhase::RepairRequired
    } else {
        MatterOperationPhase::Failed
    }
}

} // verus!
