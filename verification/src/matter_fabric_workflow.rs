//! Simulator-labelled Matter fabric workflow values.

use vstd::prelude::*;

use crate::matter_administration::{
    MatterAdministrationError, MatterControllerErrorCode, MatterControllerFailure, MatterOperationPhase,
    MatterRetryability,
};
use crate::matter_controller::MatterFabricExport;
use crate::ports::{str_eq, SecretStoreError, SecretValue};

verus! {

/// Evidence class attached to every simulator-only fabric result.
#[derive(Clone, Copy, Debug, PartialEq, Eq, Structural, Hash)]
pub enum MatterWorkflowEvidence {
    /// Deterministic application-semantics evidence, not protocol interoperability.
    DeterministicSimulator,
}

/// Explicitly simulator-labelled sensitive export delivery.
#[derive(Clone)]
pub struct MatterSimulatorExport {
    export: MatterFabricExport,
    /// Evidence class that must accompany any report using this artifact.
    pub evidence: MatterWorkflowEvidence,
}

impl MatterSimulatorExport {
    /// Labels a simulator export.
    pub fn new(export: MatterFabricExport) -> (s: Self)
        ensures
            s.format_text() == export.format_text(),
            s.envelope_bytes() == export.envelope_bytes(),
            s.recovery_key_bytes() == export.recovery_key_bytes(),
            s.evidence_class() == MatterWorkflowEvidence::DeterministicSimulator,
    {
        MatterSimulatorExport { export, evidence: MatterWorkflowEvidence::DeterministicSimulator }
    }

    pub closed spec fn format_text(&self) -> &'static str {
        self.export.format_text()
    }

    pub closed spec fn evidence_class(&self) -> MatterWorkflowEvidence {
        self.evidence
    }

    pub closed spec fn envelope_bytes(&self) -> Seq<u8> {
        self.export.envelope_bytes()
    }

    pub closed spec fn recovery_key_bytes(&self) -> Seq<u8> {
        self.export.recovery_key_bytes()
    }

    /// Returns the simulator-only envelope format.
    pub fn format(&self) -> (f: &'static str)
        ensures
            f == self.format_text(),
    {
        self.export.format()
    }

    /// Exposes the simulator envelope only to explicit sensitive delivery.
    pub fn envelope(&self) -> (b: &[u8])
        ensures
            b@ == self.envelope_bytes(),
    {
        self.export.envelope()
    }

    /// Exposes the one-time simulator recovery key only to sensitive delivery.
    pub fn recovery_key(&self) -> (b: &[u8])
        ensures
            b@ == self.recovery_key_bytes(),
    {
        self.export.recovery_key()
    }

    /// Debug rendering: format and evidence are shown, the secrets are redacted.
    pub fn debug_string(&self) -> (s: String)
        ensures
            s@ == "MatterSimulatorExport { format: "@ + crate::matter_controller::debug_quoted_text(
                self.format_text()@,
            ) + ", envelope: \"[REDACTED]\", recovery_key: \"[REDACTED]\", evidence: DeterministicSimulator }"@,
    {
        let mut s = String::from_str("MatterSimulatorExport { format: ");
        let quoted = crate::matter_controller::debug_quoted(self.export.format());
        s.append(quoted.as_str());
        s.append(", envelope: \"[REDACTED]\", recovery_key: \"[REDACTED]\", evidence: DeterministicSimulator }");
        s
    }
}

/// Sensitive simulator restore input that cannot be serialized or persisted.
#[derive(Clone)]
pub struct MatterSimulatorRestoreInput {
    envelope: SecretValue,
    recovery_key: SecretValue,
}

impl MatterSimulatorRestoreInput {
    /// Wraps simulator-only export bytes for one explicit restore attempt.
    pub fn new(envelope: SecretValue, recovery_key: SecretValue) -> (r: Self)
        ensures
            r.envelope_bytes() == envelope@,
            r.recovery_key_bytes() == recovery_key@,
    {
        MatterSimulatorRestoreInput { envelope, recovery_key }
    }

    pub closed spec fn envelope_bytes(&self) -> Seq<u8> {
        self.envelope@
    }

    pub closed spec fn recovery_key_bytes(&self) -> Seq<u8> {
        self.recovery_key@
    }

    /// Consumes the input into the restore request for one operation.
    pub fn into_restore_request(self, operation_id: u64, expected_fabric_id: u64) -> (r:
        crate::matter_controller::MatterRestoreRequest)
        ensures
            r.operation() == operation_id,
            r.expected_fabric() == expected_fabric_id,
            r.envelope_bytes() == self.envelope_bytes(),
            r.recovery_key_bytes() == self.recovery_key_bytes(),
    {
        crate::matter_controller::MatterRestoreRequest::new(
            operation_id,
            expected_fabric_id,
            self.envelope,
            self.recovery_key,
        )
    }

    /// Debug rendering: the simulator format is shown, the secrets are redacted.
    pub fn debug_string(&self) -> (s: String)
        ensures
            s@ == "MatterSimulatorRestoreInput { format: SimulatorV1, envelope: \"[REDACTED]\", recovery_key: \"[REDACTED]\" }"@,
    {
        String::from_str(
            "MatterSimulatorRestoreInput { format: SimulatorV1, envelope: \"[REDACTED]\", recovery_key: \"[REDACTED]\" }",
        )
    }
}

/// Stable fabric workflow failures.
#[derive(Clone, Debug)]
pub enum MatterFabricWorkflowError {
    /// Authenticated administration admission or ownership failed.
    Administration(MatterAdministrationError),
    /// Durable Matter state failed; the text says why.
    Repository(String),
    /// Secret provisioning failed without exposing values.
    SecretStore(SecretStoreError),
    /// Controller status read failed with a structured, secret-safe error.
    Controller(MatterControllerFailure),
    /// Target durable fabric metadata is absent.
    FabricNotFound,
    /// Operation phase does not match the requested workflow continuation.
    InvalidOperationState,
    /// Fabric optimistic revision space was exhausted.
    RevisionExhausted,
    /// Workflow was invoked with a controller other than the deterministic simulator.
    SimulatorOnly,
    /// Simulator returned a production or otherwise unexpected export family.
    UnexpectedExportFormat,
    /// Durable stage did not belong to the actor installation's stable fabric.
    InvalidFabricStage,
}

/// Admits a fabric workflow only on the deterministic simulator controller,
/// identified by the implementation name it reports.
pub fn ensure_simulator(implementation: &str) -> (r: Result<(), MatterFabricWorkflowError>)
    ensures
        r is Ok <==> implementation@ == "homemagic-deterministic-simulator"@,
        r matches Err(e) ==> e == MatterFabricWorkflowError::SimulatorOnly,
{
    if str_eq(implementation, "homemagic-deterministic-simulator") {
        Ok(())
    } else {
        Err(MatterFabricWorkflowError::SimulatorOnly)
    }
}

/// Enters a workflow run: a requested operation starts now and moves to
/// `working`; any other operation resumes and must already be in `working` or,
/// where given, in `resumable`. The result says whether the run starts now.
pub fn enter_workflow_phase(
    phase: MatterOperationPhase,
    working: MatterOperationPhase,
    resumable: Option<MatterOperationPhase>,
) -> (r: Result<bool, MatterFabricWorkflowError>)
    ensures
        phase == MatterOperationPhase::Requested ==> r matches Ok(true),
        phase != MatterOperationPhase::Requested ==> (r matches Ok(false) <==> (phase == working || resumable == Some(
            phase,
        ))),
        phase != MatterOperationPhase::Requested ==> (r is Err ==> r matches Err(
            MatterFabricWorkflowError::InvalidOperationState,
        )),
{
    if phase == MatterOperationPhase::Requested {
        return Ok(true);
    }
    let resumes = match resumable {
        Some(p) => p == phase,
        None => false,
    };
    if phase == working || resumes {
        Ok(false)
    } else {
        Err(MatterFabricWorkflowError::InvalidOperationState)
    }
}

/// What the controller's live view of the operation's fabric showed.
#[derive(Clone, Copy, Debug, PartialEq, Eq, Structural)]
pub enum MatterFabricLookup {
    Present,
    Absent,
    Failed(MatterControllerFailure),
}

/// How a create or restore run continues after reading the live fabric.
#[derive(Clone, Copy, Debug, PartialEq, Eq, Structural)]
pub enum MatterFabricContinuation {
    /// A resumed run adopts the live fabric and activates it.
    AdoptLive,
    /// A run starting now asks the controller to create or restore the fabric.
    Invoke,
    /// The operation ends with this controller failure.
    Terminal(MatterControllerFailure),
}

/// The failure of a run that starts while the fabric already exists.
pub open spec fn fabric_conflict() -> MatterControllerFailure {
    MatterControllerFailure {
        code: MatterControllerErrorCode::FabricConflict,
        retryability: MatterRetryability::Never,
        has_repair: false,
    }
}

/// The failure of a resumed run whose fabric is gone: its outcome cannot be
/// known, so partial cleanup must be reviewed.
pub open spec fn indeterminate_outcome() -> MatterControllerFailure {
    MatterControllerFailure {
        code: MatterControllerErrorCode::OutcomeIndeterminate,
        retryability: MatterRetryability::AfterRepair,
        has_repair: true,
    }
}

/// Decides how a create or restore run continues: a fabric must not exist when
/// the run starts and must exist when it resumes.
pub fn fabric_continuation(starting_now: bool, lookup: MatterFabricLookup) -> (c: MatterFabricContinuation)
    ensures
        c == match lookup {
            MatterFabricLookup::Present => if starting_now {
                MatterFabricContinuation::Terminal(fabric_conflict())
            } else {
                MatterFabricContinuation::AdoptLive
            },
            MatterFabricLookup::Absent => if starting_now {
                MatterFabricContinuation::Invoke
            } else {
                MatterFabricContinuation::Terminal(indeterminate_outcome())
            },
            MatterFabricLookup::Failed(e) => MatterFabricContinuation::Terminal(e),
        },
{
    match lookup {
        MatterFabricLookup::Present => if starting_now {
            MatterFabricContinuation::Terminal(
                MatterControllerFailure {
                    code: MatterControllerErrorCode::FabricConflict,
                    retryability: MatterRetryability::Never,
                    has_repair: false,
                },
            )
        } else {
            MatterFabricContinuation::AdoptLive
        },
        MatterFabricLookup::Absent => if starting_now {
            MatterFabricContinuation::Invoke
        } else {
            MatterFabricContinuation::Terminal(
                MatterControllerFailure {
                    code: MatterControllerErrorCode::OutcomeIndeterminate,
                    retryability: MatterRetryability::AfterRepair,
                    has_repair: true,
                },
            )
        },
        MatterFabricLookup::Failed(e) => MatterFabricContinuation::Terminal(e),
    }
}

/// An export only runs when it starts now; a resumed export cannot know
/// whether the controller already produced the secret artifact.
pub fn export_continuation(starting_now: bool) -> (c: MatterFabricContinuation)
    ensures
        c == (if starting_now {
            MatterFabricContinuation::Invoke
        } else {
            MatterFabricContinuation::Terminal(indeterminate_outcome())
        }),
{
    if starting_now {
        MatterFabricContinuation::Invoke
    } else {
        MatterFabricContinuation::Terminal(
            MatterControllerFailure {
                code: MatterControllerErrorCode::OutcomeIndeterminate,
                retryability: MatterRetryability::AfterRepair,
                has_repair: true,
            },
        )
    }
}

} // verus!
