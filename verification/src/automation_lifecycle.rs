//! Decisions of the authenticated automation lifecycle: ownership, version
//! readiness after simulation, approval, activation, run cancellation and
//! trace paging. Loading and storing stay with the caller.

use vstd::prelude::*;

use crate::automation_compiler::AutomationApprovalRequirement;
use crate::automation_runtime::{AutomationRun, AutomationRunState, AutomationTimerState};
use crate::automation_simulator::AutomationSimulationStatus;

verus! {

/// Lifecycle state of one immutable automation version.
#[derive(Clone, Copy, Debug, PartialEq, Eq, Structural)]
pub enum AutomationVersionState {
    Validated,
    Simulated,
    AwaitingApproval,
    Ready,
    Rejected,
}

/// Stable lifecycle failure.
#[derive(Clone, Copy, Debug, PartialEq, Eq, Structural)]
pub enum AutomationLifecycleError {
    /// The authenticated actor does not own the authored automation.
    NotAuthorized,
    /// The requested draft, version or run does not exist.
    NotFound,
    /// The requested transition is invalid in the current state.
    InvalidState,
}

/// A decision recorded for a version awaiting approval.
#[derive(Clone, Copy, Debug, PartialEq, Eq, Structural)]
pub enum AutomationApprovalState {
    Approved,
    Rejected,
}

/// One version transition: the state the version must still be in, and the
/// state it moves to.
#[derive(Clone, Copy, Debug, PartialEq, Eq, Structural)]
pub struct VersionTransition {
    pub expected: AutomationVersionState,
    pub next: AutomationVersionState,
}

/// Only the author of a document may act on it.
pub fn ensure_owner(actor_id: u64, author_id: u64) -> (r: Result<(), AutomationLifecycleError>)
    ensures
        r == (if actor_id == author_id {
            Ok::<(), AutomationLifecycleError>(())
        } else {
            Err(AutomationLifecycleError::NotAuthorized)
        }),
{
    if actor_id == author_id {
        Ok(())
    } else {
        Err(AutomationLifecycleError::NotAuthorized)
    }
}

/// The number of records one listing returns: the requested limit within `1..=100`.
pub fn listing_limit(limit: usize) -> (n: usize)
    ensures
        n == (if limit < 1 {
            1
        } else if limit > 100 {
            100
        } else {
            limit
        }),
{
    if limit < 1 {
        1
    } else if limit > 100 {
        100
    } else {
        limit
    }
}

/// The state a successfully simulated version becomes ready in: an activation
/// grant suffices, or explicit user approval is awaited.
pub open spec fn ready_state(approval: AutomationApprovalRequirement) -> AutomationVersionState {
    match approval {
        AutomationApprovalRequirement::ActivationGrant => AutomationVersionState::Ready,
        AutomationApprovalRequirement::ExplicitUserApproval => AutomationVersionState::AwaitingApproval,
    }
}

/// The transitions that record a simulation of a validated version: it becomes
/// simulated, and a completed simulation then makes it ready or awaiting
/// approval. Only validated versions are simulated.
pub fn simulation_transitions(
    state: AutomationVersionState,
    status: AutomationSimulationStatus,
    approval: AutomationApprovalRequirement,
) -> (r: Result<Vec<VersionTransition>, AutomationLifecycleError>)
    ensures
        state != AutomationVersionState::Validated ==> r == Err::<Vec<VersionTransition>, AutomationLifecycleError>(
            AutomationLifecycleError::InvalidState,
        ),
        state == AutomationVersionState::Validated ==> (r matches Ok(ts) && ts@ == if status
            == AutomationSimulationStatus::Completed {
            seq![
                VersionTransition { expected: AutomationVersionState::Validated, next: AutomationVersionState::Simulated },
                VersionTransition { expected: AutomationVersionState::Simulated, next: ready_state(approval) },
            ]
        } else {
            seq![VersionTransition { expected: AutomationVersionState::Validated, next: AutomationVersionState::Simulated }]
        }),
{
    if state != AutomationVersionState::Validated {
        return Err(AutomationLifecycleError::InvalidState);
    }
    let mut transitions: Vec<VersionTransition> = Vec::new();
    transitions.push(
        VersionTransition { expected: AutomationVersionState::Validated, next: AutomationVersionState::Simulated },
    );
    if status == AutomationSimulationStatus::Completed {
        let next = match approval {
            AutomationApprovalRequirement::ActivationGrant => AutomationVersionState::Ready,
            AutomationApprovalRequirement::ExplicitUserApproval => AutomationVersionState::AwaitingApproval,
        };
        transitions.push(VersionTransition { expected: AutomationVersionState::Simulated, next });
    }
    Ok(transitions)
}

/// Approves or rejects a version awaiting approval: the recorded decision and
/// the version's next state.
pub fn approval_decision(state: AutomationVersionState, approved: bool) -> (r: Result<
    (AutomationApprovalState, AutomationVersionState),
    AutomationLifecycleError,
>)
    ensures
        r == (if state != AutomationVersionState::AwaitingApproval {
            Err(AutomationLifecycleError::InvalidState)
        } else if approved {
            Ok((AutomationApprovalState::Approved, AutomationVersionState::Ready))
        } else {
            Ok((AutomationApprovalState::Rejected, AutomationVersionState::Rejected))
        }),
{
    if state != AutomationVersionState::AwaitingApproval {
        Err(AutomationLifecycleError::InvalidState)
    } else if approved {
        Ok((AutomationApprovalState::Approved, AutomationVersionState::Ready))
    } else {
        Ok((AutomationApprovalState::Rejected, AutomationVersionState::Rejected))
    }
}

/// Only a ready version is activated or rolled back to.
pub fn activation_check(state: AutomationVersionState) -> (r: Result<(), AutomationLifecycleError>)
    ensures
        r == (if state == AutomationVersionState::Ready {
            Ok::<(), AutomationLifecycleError>(())
        } else {
            Err(AutomationLifecycleError::InvalidState)
        }),
{
    if state == AutomationVersionState::Ready {
        Ok(())
    } else {
        Err(AutomationLifecycleError::InvalidState)
    }
}

/// One durable timer of a run.
#[derive(Clone, Copy, Debug, PartialEq, Eq, Structural)]
pub struct AutomationTimer {
    pub id: u64,
    pub run_id: u64,
    pub node_id: u32,
    /// Instant the timer becomes ready, in milliseconds since the Unix epoch.
    pub ready_at: i64,
    pub state: AutomationTimerState,
}

/// Whether cancelling run `run_id` cancels the timer: it belongs to the run
/// and has not fired or been consumed.
pub open spec fn cancels(run_id: u64, t: AutomationTimer) -> bool {
    t.run_id == run_id && (t.state == AutomationTimerState::Pending || t.state == AutomationTimerState::Ready)
}

/// The timers a cancellation of run `run_id` cancels, in order, each cancelled.
pub open spec fn cancelled_timers(run_id: u64, timers: Seq<AutomationTimer>) -> Seq<AutomationTimer>
    decreases timers.len(),
{
    if timers.len() == 0 {
        Seq::empty()
    } else {
        let t = timers.last();
        cancelled_timers(run_id, timers.drop_last()) + if cancels(run_id, t) {
            seq![AutomationTimer { state: AutomationTimerState::Cancelled, ..t }]
        } else {
            Seq::empty()
        }
    }
}

/// Cancels a non-terminal run at `now`: it becomes cancelled at its next
/// revision, and its pending and ready timers are cancelled with it.
pub fn cancel_run(run: &mut AutomationRun, timers: &Vec<AutomationTimer>, now: i64) -> (r: Result<
    Vec<AutomationTimer>,
    AutomationLifecycleError,
>)
    ensures
        old(run).state == AutomationRunState::Completed || old(run).state == AutomationRunState::Failed || old(run).state
            == AutomationRunState::Cancelled ==> r == Err::<Vec<AutomationTimer>, AutomationLifecycleError>(
            AutomationLifecycleError::InvalidState,
        ) && final(run).state == old(run).state && final(run).revision == old(run).revision,
        !(old(run).state == AutomationRunState::Completed || old(run).state == AutomationRunState::Failed
            || old(run).state == AutomationRunState::Cancelled) ==> (r matches Ok(cancelled) && cancelled@
            == cancelled_timers(old(run).id, timers@) && final(run).state == AutomationRunState::Cancelled
            && final(run).revision == (if old(run).revision == u64::MAX {
            u64::MAX
        } else {
            (old(run).revision + 1) as u64
        }) && final(run).updated_at == now),
        final(run).id == old(run).id,
        final(run).node_id == old(run).node_id,
        final(run).continuations@ == old(run).continuations@,
{
    if run.state.is_terminal() {
        return Err(AutomationLifecycleError::InvalidState);
    }
    let mut cancelled: Vec<AutomationTimer> = Vec::new();
    let mut i: usize = 0;
    while i < timers.len()
        invariant
            i <= timers@.len(),
            cancelled@ == cancelled_timers(run.id, timers@.take(i as int)),
        decreases timers@.len() - i,
    {
        proof {
            assert(timers@.take(i + 1).drop_last() =~= timers@.take(i as int));
        }
        let t = timers[i];
        if t.run_id == run.id && (t.state == AutomationTimerState::Pending || t.state == AutomationTimerState::Ready) {
            cancelled.push(AutomationTimer { state: AutomationTimerState::Cancelled, ..t });
        }
        assert(cancelled@ =~= cancelled_timers(run.id, timers@.take(i + 1)));
        i = i + 1;
    }
    proof {
        assert(timers@.take(timers@.len() as int) =~= timers@);
    }
    run.state = AutomationRunState::Cancelled;
    run.revision = run.revision.saturating_add(1);
    run.updated_at = now;
    Ok(cancelled)
}

/// Where reading a run's trace page by page stands.
#[derive(Clone, Copy, Debug, PartialEq, Eq, Structural)]
pub enum TracePaging {
    /// The sequence number the next trace step gets.
    Next(u64),
    /// Read the page after this sequence number.
    After(u64),
}

/// Reads one trace page: an empty page ends the trace after the cursor, a
/// short page ends it after its last step, and a full page asks for the next.
pub fn trace_page(after: Option<u64>, last: Option<u64>, page_len: usize, page_size: usize) -> (p: TracePaging)
    ensures
        p == match last {
            None => TracePaging::Next(
                match after {
                    None => 0,
                    Some(s) => if s == u64::MAX {
                        u64::MAX
                    } else {
                        (s + 1) as u64
                    },
                },
            ),
            Some(l) => if page_len < page_size {
                TracePaging::Next(
                    if l == u64::MAX {
                        u64::MAX
                    } else {
                        (l + 1) as u64
                    },
                )
            } else {
                TracePaging::After(l)
            },
        },
{
    match last {
        None => TracePaging::Next(
            match after {
                None => 0,
                Some(s) => s.saturating_add(1),
            },
        ),
        Some(l) => if page_len < page_size {
            TracePaging::Next(l.saturating_add(1))
        } else {
            TracePaging::After(l)
        },
    }
}

} // verus!
