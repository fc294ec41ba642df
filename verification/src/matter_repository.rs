//! Durable Matter repository records shared by the workflows.

use vstd::prelude::*;

verus! {

/// Status of a durable Matter repair record.
#[derive(Clone, Copy, Debug, PartialEq, Eq, Structural, Hash)]
pub enum MatterRepairStatus {
    /// Repair has not started.
    Open,
    /// Repair work is in progress.
    InProgress,
    /// Operator or bounded reconciliation resolved the condition.
    Resolved,
}

/// Rows removed by one Matter retention pass.
#[derive(Clone, Copy, Debug, Default, PartialEq, Eq, Structural)]
pub struct MatterRetentionResult {
    pub operations_removed: usize,
    pub repairs_removed: usize,
    pub authorizations_removed: usize,
}

/// Result of atomically consuming an unlock authorization.
#[derive(Clone, Copy, Debug, PartialEq, Eq, Structural, Hash)]
pub enum MatterUnlockConsumption {
    /// Authorization was valid and is now consumed.
    Consumed,
    /// Authorization does not exist.
    NotFound,
    /// Authorization was already consumed.
    AlreadyConsumed,
    /// Authorization expired before the requested consumption time.
    Expired,
    /// Supplied command or projection binding did not match.
    BindingMismatch,
}

} // verus!
