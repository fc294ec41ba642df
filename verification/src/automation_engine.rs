//! Failures of one automation engine pass.

use vstd::prelude::*;

use crate::automation_events::AutomationEventProcessorError;
use crate::automation_scheduler::AutomationSchedulerError;

verus! {

/// Failure before independent run stepping can proceed.
#[derive(Clone, Debug, PartialEq, Eq)]
pub enum AutomationEngineError {
    /// Durable normalized-event processing failed.
    Events(AutomationEventProcessorError),
    /// Schedule materialization or admission failed.
    Scheduler(AutomationSchedulerError),
    /// Pending run recovery failed; the text says why.
    Recovery(String),
    /// Durable run transitions committed but subscriber wake-up failed.
    EventWakeup(String),
}

impl AutomationEngineError {
    /// The error's display text.
    pub fn message(&self) -> (s: &'static str)
        ensures
            s@ == (match self {
                AutomationEngineError::Events(_) => "automation engine event stage failed"@,
                AutomationEngineError::Scheduler(_) => "automation engine scheduler stage failed"@,
                AutomationEngineError::Recovery(_) => "automation engine recovery stage failed"@,
                AutomationEngineError::EventWakeup(_) => "automation engine event wake-up failed"@,
            }),
    {
        match self {
            AutomationEngineError::Events(_) => "automation engine event stage failed",
            AutomationEngineError::Scheduler(_) => "automation engine scheduler stage failed",
            AutomationEngineError::Recovery(_) => "automation engine recovery stage failed",
            AutomationEngineError::EventWakeup(_) => "automation engine event wake-up failed",
        }
    }
}

/// Rows removed by one reference-protected automation retention pass.
#[derive(Clone, Copy, Debug, Default, PartialEq, Eq, Structural)]
pub struct AutomationRetentionResult {
    pub drafts: u64,
    pub trace_steps: u64,
    pub timers: u64,
    pub runs: u64,
    pub occurrences: u64,
    pub approvals: u64,
    pub versions: u64,
}

} // verus!
