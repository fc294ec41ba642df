//! Durable scheduler rules: timer readiness, occurrence admission under each
//! run mode, and the summary of one bounded pass.

use vstd::prelude::*;

use crate::automation_runtime::{run_mode_accepts, AutomationRunMode, AutomationRunState, AutomationTimerState};
use crate::time::{add_millis, utc_add_millis, utc_sum_in_range};

verus! {

/// Durable scheduler failure.
#[derive(Clone, Debug, PartialEq, Eq)]
pub enum AutomationSchedulerError {
    /// Durable repository operation failed; the text says why.
    Repository(String),
    /// Active schedule contract was invalid despite validation.
    InvalidSchedule,
}

impl AutomationSchedulerError {
    /// The error's display text.
    pub fn message(&self) -> (s: &'static str)
        ensures
            s@ == (match self {
                AutomationSchedulerError::Repository(_) => "automation scheduler repository operation failed"@,
                AutomationSchedulerError::InvalidSchedule => "automation scheduler encountered an invalid active schedule"@,
            }),
    {
        match self {
            AutomationSchedulerError::Repository(_) => "automation scheduler repository operation failed",
            AutomationSchedulerError::InvalidSchedule => "automation scheduler encountered an invalid active schedule",
        }
    }
}

/// Summary of one bounded scheduler pass.
#[derive(Clone, Copy, Debug, Default, PartialEq, Eq, Structural)]
pub struct AutomationSchedulerTick {
    pub scheduled: u64,
    pub accepted: u64,
    pub missed_skipped: u64,
    pub suppressed: u64,
    pub runs: u64,
    pub timers_ready: u64,
}

/// Admission state of one trigger occurrence.
#[derive(Clone, Copy, Debug, PartialEq, Eq, Structural)]
pub enum AutomationOccurrenceState {
    Scheduled,
    Accepted,
    MissedSkipped,
    Suppressed,
}

/// A pending timer becomes ready once its instant has come.
pub fn ready_timer(state: AutomationTimerState, ready_at: i64, now: i64) -> (r: AutomationTimerState)
    ensures
        r == (if state == AutomationTimerState::Pending && ready_at <= now {
            AutomationTimerState::Ready
        } else {
            state
        }),
{
    if state == AutomationTimerState::Pending && ready_at <= now {
        AutomationTimerState::Ready
    } else {
        state
    }
}

/// One durable run as the scheduler counts it.
#[derive(Clone, Copy, Debug, PartialEq, Eq, Structural)]
pub struct ScheduledRunSummary {
    pub automation_id: u64,
    pub version: u32,
    pub state: AutomationRunState,
}

/// Whether a run belongs to the automation version and is still open.
pub open spec fn open_run_of(run: ScheduledRunSummary, automation_id: u64, version: u32) -> bool {
    run.automation_id == automation_id && run.version == version && !(run.state == AutomationRunState::Completed
        || run.state == AutomationRunState::Failed || run.state == AutomationRunState::Cancelled)
}

/// Number of open runs of one automation version among the first `n` runs.
pub open spec fn open_run_count(runs: Seq<ScheduledRunSummary>, automation_id: u64, version: u32, n: int) -> nat
    decreases n,
{
    if n <= 0 {
        0
    } else {
        open_run_count(runs, automation_id, version, n - 1) + if open_run_of(runs[n - 1], automation_id, version) {
            1nat
        } else {
            0nat
        }
    }
}

proof fn lemma_open_run_count_prefix(
    runs: Seq<ScheduledRunSummary>,
    run: ScheduledRunSummary,
    automation_id: u64,
    version: u32,
    n: int,
)
    requires
        0 <= n <= runs.len(),
    ensures
        open_run_count(runs.push(run), automation_id, version, n) == open_run_count(runs, automation_id, version, n),
    decreases n,
{
    if n > 0 {
        lemma_open_run_count_prefix(runs, run, automation_id, version, n - 1);
        assert(runs.push(run)[n - 1] == runs[n - 1]);
    }
}

/// Appending a run changes the open-run count of an automation version only
/// when the run belongs to that automation and that version and has not
/// finished: a run of another automation, of another version, or that
/// completed, failed or was cancelled leaves the count unchanged, while a
/// pending, running or waiting run of the version adds exactly one. The count
/// of no runs is zero and never exceeds the number of runs.
pub proof fn lemma_open_run_count_laws(
    runs: Seq<ScheduledRunSummary>,
    run: ScheduledRunSummary,
    automation_id: u64,
    version: u32,
)
    ensures
        open_run_count(Seq::empty(), automation_id, version, 0) == 0,
        open_run_count(runs, automation_id, version, runs.len() as int) <= runs.len(),
        run.automation_id != automation_id ==> open_run_count(runs.push(run), automation_id, version, (runs.len() + 1) as int)
            == open_run_count(runs, automation_id, version, runs.len() as int),
        run.version != version ==> open_run_count(runs.push(run), automation_id, version, (runs.len() + 1) as int)
            == open_run_count(runs, automation_id, version, runs.len() as int),
        run.state == AutomationRunState::Completed || run.state == AutomationRunState::Failed || run.state
            == AutomationRunState::Cancelled ==> open_run_count(runs.push(run), automation_id, version, (runs.len() + 1) as int)
            == open_run_count(runs, automation_id, version, runs.len() as int),
        run.automation_id == automation_id && run.version == version && (run.state == AutomationRunState::Pending
            || run.state == AutomationRunState::Running || run.state == AutomationRunState::Waiting) ==> open_run_count(
            runs.push(run),
            automation_id,
            version,
            (runs.len() + 1) as int,
        ) == open_run_count(runs, automation_id, version, runs.len() as int) + 1,
{
    lemma_open_run_count_prefix(runs, run, automation_id, version, runs.len() as int);
    assert(runs.push(run)[runs.len() as int] == run);
    lemma_open_run_count_bounded(runs, automation_id, version, runs.len() as int);
}

proof fn lemma_open_run_count_bounded(runs: Seq<ScheduledRunSummary>, automation_id: u64, version: u32, n: int)
    requires
        0 <= n,
    ensures
        open_run_count(runs, automation_id, version, n) <= n,
    decreases n,
{
    if n > 0 {
        lemma_open_run_count_bounded(runs, automation_id, version, n - 1);
    }
}

/// Counts the open runs of one automation version.
pub fn count_open_runs(runs: &Vec<ScheduledRunSummary>, automation_id: u64, version: u32) -> (n: usize)
    ensures
        n == open_run_count(runs@, automation_id, version, runs@.len() as int),
{
    let mut count: usize = 0;
    let mut i: usize = 0;
    while i < runs.len()
        invariant
            i <= runs@.len(),
            count == open_run_count(runs@, automation_id, version, i as int),
            count <= i,
        decreases runs@.len() - i,
    {
        let run = runs[i];
        if run.automation_id == automation_id && run.version == version && !run.state.is_terminal() {
            count = count + 1;
        }
        i = i + 1;
    }
    count
}

/// What one recovery pass does with one occurrence of an active version.
#[derive(Clone, Copy, Debug, PartialEq, Eq, Structural)]
pub enum OccurrenceStep {
    /// Nothing to do yet (or already decided).
    Wait,
    /// The admission window passed; record it as missed.
    MissedSkipped,
    /// The run mode refused another run; record it as suppressed.
    Suppressed,
    /// Admitted now; record acceptance and create its run.
    Accept,
    /// Admitted earlier; make sure its run exists.
    CreateRun,
}

/// The scheduler's decision for one occurrence at `now`, with `open_runs` open
/// runs of the same automation version.
pub open spec fn occurrence_step_spec(
    state: AutomationOccurrenceState,
    occurred_at: i64,
    window_ends_at: i64,
    now: i64,
    mode: AutomationRunMode,
    open_runs: usize,
) -> OccurrenceStep {
    match state {
        AutomationOccurrenceState::Scheduled => if now > window_ends_at {
            OccurrenceStep::MissedSkipped
        } else if occurred_at > now {
            OccurrenceStep::Wait
        } else if !(match mode {
            AutomationRunMode::Single => open_runs == 0,
            AutomationRunMode::Restart => true,
            AutomationRunMode::Queued { capacity } => open_runs < capacity,
            AutomationRunMode::Parallel { maximum_parallel } => open_runs < maximum_parallel,
        }) {
            OccurrenceStep::Suppressed
        } else {
            OccurrenceStep::Accept
        },
        AutomationOccurrenceState::Accepted => OccurrenceStep::CreateRun,
        _ => OccurrenceStep::Wait,
    }
}

/// A scheduled occurrence is missed once its window has passed and waits
/// while it is not yet due; otherwise it is admitted unless its run mode is
/// full: a single-run automation only with no open run, a restarting one
/// always, a queued or parallel one below its bound. Admission only gets
/// harder with more open runs, and an already accepted occurrence has its run
/// created.
pub proof fn lemma_occurrence_admission(
    occurred_at: i64,
    window_ends_at: i64,
    now: i64,
    mode: AutomationRunMode,
    fewer: usize,
    more: usize,
)
    requires
        fewer <= more,
    ensures
        now > window_ends_at ==> occurrence_step_spec(
            AutomationOccurrenceState::Scheduled,
            occurred_at,
            window_ends_at,
            now,
            mode,
            more,
        ) == OccurrenceStep::MissedSkipped,
        now <= window_ends_at && occurred_at > now ==> occurrence_step_spec(
            AutomationOccurrenceState::Scheduled,
            occurred_at,
            window_ends_at,
            now,
            mode,
            more,
        ) == OccurrenceStep::Wait,
        occurrence_step_spec(AutomationOccurrenceState::Scheduled, occurred_at, window_ends_at, now, mode, more)
            == OccurrenceStep::Accept ==> occurrence_step_spec(
            AutomationOccurrenceState::Scheduled,
            occurred_at,
            window_ends_at,
            now,
            mode,
            fewer,
        ) == OccurrenceStep::Accept,
        occurred_at <= now <= window_ends_at && mode == AutomationRunMode::Single ==> (occurrence_step_spec(
            AutomationOccurrenceState::Scheduled,
            occurred_at,
            window_ends_at,
            now,
            mode,
            more,
        ) == OccurrenceStep::Accept <==> more == 0),
        occurred_at <= now <= window_ends_at && mode == AutomationRunMode::Restart ==> occurrence_step_spec(
            AutomationOccurrenceState::Scheduled,
            occurred_at,
            window_ends_at,
            now,
            mode,
            more,
        ) == OccurrenceStep::Accept,
        occurrence_step_spec(AutomationOccurrenceState::Accepted, occurred_at, window_ends_at, now, mode, more)
            == OccurrenceStep::CreateRun,
{
}

/// Decides the next step for one occurrence.
pub fn occurrence_step(
    state: AutomationOccurrenceState,
    occurred_at: i64,
    window_ends_at: i64,
    now: i64,
    mode: AutomationRunMode,
    open_runs: usize,
) -> (s: OccurrenceStep)
    ensures
        s == occurrence_step_spec(state, occurred_at, window_ends_at, now, mode, open_runs),
{
    match state {
        AutomationOccurrenceState::Scheduled => {
            if now > window_ends_at {
                OccurrenceStep::MissedSkipped
            } else if occurred_at > now {
                OccurrenceStep::Wait
            } else if !run_mode_accepts(mode, open_runs) {
                OccurrenceStep::Suppressed
            } else {
                OccurrenceStep::Accept
            }
        },
        AutomationOccurrenceState::Accepted => OccurrenceStep::CreateRun,
        _ => OccurrenceStep::Wait,
    }
}

/// An occurrence is never accepted after its window closed nor before it
/// occurred, and a single-mode automation never gets a second open run.
pub proof fn lemma_acceptance_inside_window(
    state: AutomationOccurrenceState,
    occurred_at: i64,
    window_ends_at: i64,
    now: i64,
    mode: AutomationRunMode,
    open_runs: usize,
)
    requires
        occurrence_step_spec(state, occurred_at, window_ends_at, now, mode, open_runs) == OccurrenceStep::Accept,
    ensures
        state == AutomationOccurrenceState::Scheduled,
        occurred_at <= now <= window_ends_at,
        mode == AutomationRunMode::Single ==> open_runs == 0,
{
}

/// End of an occurrence's admission window; `None` when chrono cannot
/// represent it.
pub fn occurrence_window_end(occurred_at: i64, window_ms: u64) -> (r: Option<i64>)
    ensures
        r == utc_add_millis(occurred_at, window_ms),
        utc_sum_in_range(occurred_at as int, window_ms as int) ==> r == Some((occurred_at + window_ms) as i64),
{
    add_millis(occurred_at, window_ms)
}

/// Counts one more unit, saturating at the largest count.
pub fn bump(count: u64) -> (r: u64)
    ensures
        r == (if count == u64::MAX { u64::MAX } else { (count + 1) as u64 }),
{
    count.saturating_add(1)
}

} // verus!
