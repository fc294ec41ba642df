//! Restart-safe interpretation rules for one automation run step.

use vstd::prelude::*;

use crate::automation_evaluator::{AutomationEvaluationError, AutomationValue};
use crate::simulation_run::{
    assign_variable, assigned, find_node, node_index, AutomationPlanNode, SimulationTraceStep, TraceDetail, TraceIdentity,
    TraceStatus,
};
use crate::automation_events::{contains_field, contains_text};
use crate::ports::str_eq;
use crate::time::{add_millis, utc_add_millis, utc_sum_in_range};

verus! {

/// Result of one bounded durable interpreter step.
#[derive(Clone, Copy, Debug, PartialEq, Eq, Structural)]
pub enum AutomationRuntimeStep {
    /// One node or lifecycle checkpoint was committed.
    Advanced,
    /// The run is waiting for a durable timer.
    Waiting,
    /// The run reached a terminal state.
    Completed,
    /// The run was already terminal or no longer belongs to an active version.
    NoWork,
}

/// Failure isolated to one automation run step.
#[derive(Clone, Copy, Debug, PartialEq, Eq)]
pub enum AutomationRuntimeError {
    /// The run references missing immutable version or plan content.
    InvalidPlan,
    /// Shared typed evaluation failed.
    Evaluation(AutomationEvaluationError),
    /// Runtime duration arithmetic exceeded supported bounds.
    DurationOverflow,
    /// The compiler-owned trace or duration budget was exhausted.
    BudgetExceeded,
    /// Runtime command dependencies were not configured.
    CommandPathUnavailable,
    /// Actor security state required by the command service was unavailable.
    CommandActorUnavailable,
    /// A deterministic internal command idempotency key was invalid.
    InvalidIdempotencyKey,
}

/// Lifecycle of one automation run.
#[derive(Clone, Copy, Debug, PartialEq, Eq, Structural)]
pub enum AutomationRunState {
    Pending,
    Running,
    Waiting,
    Completed,
    Failed,
    Cancelled,
}

impl AutomationRunState {
    /// Completed, failed, and cancelled runs do no further work.
    pub fn is_terminal(self) -> (b: bool)
        ensures
            b == (self == AutomationRunState::Completed || self == AutomationRunState::Failed || self
                == AutomationRunState::Cancelled),
    {
        match self {
            AutomationRunState::Completed | AutomationRunState::Failed | AutomationRunState::Cancelled => true,
            _ => false,
        }
    }
}

/// Durable timer state.
#[derive(Clone, Copy, Debug, PartialEq, Eq, Structural)]
pub enum AutomationTimerState {
    Pending,
    Ready,
    Consumed,
    Cancelled,
}

/// Cancels a timer that has not fired or been consumed yet.
pub fn cancel_timer(state: AutomationTimerState) -> (r: AutomationTimerState)
    ensures
        r == (if state == AutomationTimerState::Pending || state == AutomationTimerState::Ready {
            AutomationTimerState::Cancelled
        } else {
            state
        }),
{
    match state {
        AutomationTimerState::Pending | AutomationTimerState::Ready => AutomationTimerState::Cancelled,
        _ => state,
    }
}

/// How one interpreter step begins with a loaded run.
#[derive(Clone, Copy, Debug, PartialEq, Eq, Structural)]
pub enum AutomationStepStart {
    /// The run is terminal or no longer belongs to the active version.
    NoWork,
    /// A pending run is accepted: it moves to running without interpreting a node.
    Accept,
    /// The run's current node is interpreted.
    Interpret,
}

/// Whether a run has used up its trace or duration budget; durations beyond the
/// signed millisecond range count as that range.
pub open spec fn run_budget_exhausted(trace_steps: int, maximum_trace_steps: u32, elapsed_ms: int, maximum_run_duration_ms: u64) -> bool {
    trace_steps >= maximum_trace_steps || elapsed_ms > (if maximum_run_duration_ms > i64::MAX as u64 {
        i64::MAX as int
    } else {
        maximum_run_duration_ms as int
    })
}

/// Decides how a step begins. `active_version` is the automation's active
/// version, `None` when the automation or its active version is gone;
/// `version_loaded` says whether the run's immutable version was found;
/// `trace_steps` counts the run's trace entries.
pub fn step_start(
    state: AutomationRunState,
    run_version: u32,
    active_version: Option<u32>,
    version_loaded: bool,
    trace_steps: usize,
    maximum_trace_steps: u32,
    created_at: i64,
    now: i64,
    maximum_run_duration_ms: u64,
) -> (r: Result<AutomationStepStart, AutomationRuntimeError>)
    ensures
        r == (if state == AutomationRunState::Completed || state == AutomationRunState::Failed || state
            == AutomationRunState::Cancelled || active_version != Some(run_version) {
            Ok(AutomationStepStart::NoWork)
        } else if !version_loaded {
            Err(AutomationRuntimeError::InvalidPlan)
        } else if run_budget_exhausted(trace_steps as int, maximum_trace_steps, now - created_at, maximum_run_duration_ms) {
            Err(AutomationRuntimeError::BudgetExceeded)
        } else if state == AutomationRunState::Pending {
            Ok(AutomationStepStart::Accept)
        } else {
            Ok(AutomationStepStart::Interpret)
        }),
{
    if state.is_terminal() {
        return Ok(AutomationStepStart::NoWork);
    }
    match active_version {
        Some(v) if v == run_version => {},
        _ => return Ok(AutomationStepStart::NoWork),
    }
    if !version_loaded {
        return Err(AutomationRuntimeError::InvalidPlan);
    }
    let limit: i128 = if maximum_run_duration_ms > i64::MAX as u64 {
        i64::MAX as i128
    } else {
        maximum_run_duration_ms as i128
    };
    let elapsed: i128 = now as i128 - created_at as i128;
    if trace_steps >= maximum_trace_steps as usize || elapsed > limit {
        return Err(AutomationRuntimeError::BudgetExceeded);
    }
    if state == AutomationRunState::Pending {
        Ok(AutomationStepStart::Accept)
    } else {
        Ok(AutomationStepStart::Interpret)
    }
}

/// The writes of one runtime step, committed together: the run at its next
/// revision, the revision it replaces, and the step's trace entries.
#[derive(Debug)]
pub struct RuntimeStepCommit {
    pub run: AutomationRun,
    pub expected_revision: u64,
    pub trace: Vec<SimulationTraceStep>,
}

/// One trace entry of a run at `sequence`, stamped with the run's identities.
pub open spec fn runtime_trace_step(
    identity: TraceIdentity,
    sequence: u64,
    node_id: Option<u32>,
    detail: TraceDetail,
    now: i64,
) -> SimulationTraceStep {
    SimulationTraceStep {
        run_id: identity.run_id,
        sequence,
        node_id,
        detail,
        occurred_at: now,
        correlation_id: identity.correlation_id,
        causation_event_id: identity.causation_event_id,
    }
}

fn trace_step(identity: TraceIdentity, sequence: u64, node_id: Option<u32>, detail: TraceDetail, now: i64) -> (s: SimulationTraceStep)
    ensures
        s == runtime_trace_step(identity, sequence, node_id, detail, now),
{
    SimulationTraceStep {
        run_id: identity.run_id,
        sequence,
        node_id,
        detail,
        occurred_at: now,
        correlation_id: identity.correlation_id,
        causation_event_id: identity.causation_event_id,
    }
}

/// Whether a run has no work: it is terminal or its version is not active.
pub open spec fn run_is_idle(state: AutomationRunState, run_version: u32, active_version: Option<u32>) -> bool {
    state == AutomationRunState::Completed || state == AutomationRunState::Failed || state
        == AutomationRunState::Cancelled || active_version != Some(run_version)
}

/// A running or waiting run's step locates its current node in the plan.
pub open spec fn interpret_begin(nodes: Seq<AutomationPlanNode>, node_id: Option<u32>) -> Result<
    RuntimeStepBegin,
    AutomationRuntimeError,
> {
    match node_id {
        None => Err(AutomationRuntimeError::InvalidPlan),
        Some(id) => match node_index(nodes, id) {
            Some(i) => Ok(RuntimeStepBegin::Interpret(i as usize)),
            None => Err(AutomationRuntimeError::InvalidPlan),
        },
    }
}

/// How one runtime step begins once its run, version and trace are loaded.
#[derive(Debug)]
pub enum RuntimeStepBegin {
    /// The run is terminal or no longer belongs to the active version.
    NoWork,
    /// A pending run is accepted; these writes commit it.
    Accepted(RuntimeStepCommit),
    /// The run's current node, by its position in the plan, is interpreted.
    Interpret(usize),
}

/// Begins one runtime step. Terminal runs and runs of an inactive version have
/// no work; a missing version is an invalid plan; an exhausted trace or
/// duration budget fails the step. A pending run is accepted: it runs at its
/// next revision, replacing its current one, with one trigger entry at the
/// trace's end and no timers. Otherwise its current node is located in the plan.
pub fn begin_runtime_step(
    run: AutomationRun,
    identity: TraceIdentity,
    run_version: u32,
    active_version: Option<u32>,
    nodes: Option<&Vec<AutomationPlanNode>>,
    trace_steps: usize,
    maximum_trace_steps: u32,
    created_at: i64,
    now: i64,
    maximum_run_duration_ms: u64,
) -> (r: Result<RuntimeStepBegin, AutomationRuntimeError>)
    ensures
        run_is_idle(run.state, run_version, active_version) ==> r matches Ok(RuntimeStepBegin::NoWork),
        !run_is_idle(run.state, run_version, active_version) && nodes is None ==> r == Err::<
            RuntimeStepBegin,
            AutomationRuntimeError,
        >(AutomationRuntimeError::InvalidPlan),
        !run_is_idle(run.state, run_version, active_version) && nodes is Some && run_budget_exhausted(
            trace_steps as int,
            maximum_trace_steps,
            now - created_at,
            maximum_run_duration_ms,
        ) ==> r == Err::<RuntimeStepBegin, AutomationRuntimeError>(AutomationRuntimeError::BudgetExceeded),
        !run_is_idle(run.state, run_version, active_version) && nodes is Some && !run_budget_exhausted(
            trace_steps as int,
            maximum_trace_steps,
            now - created_at,
            maximum_run_duration_ms,
        ) && run.state == AutomationRunState::Pending ==> (r matches Ok(RuntimeStepBegin::Accepted(c)) && {
            &&& c.expected_revision == run.revision
            &&& c.run.state == AutomationRunState::Running
            &&& c.run.revision == (if run.revision == u64::MAX { u64::MAX } else { (run.revision + 1) as u64 })
            &&& c.run.updated_at == now
            &&& c.run.id == run.id
            &&& c.run.node_id == run.node_id
            &&& c.run.continuations@ == run.continuations@
            &&& c.trace@ == seq![runtime_trace_step(identity, trace_steps as u64, None, TraceDetail::RunAccepted, now)]
        }),
        !run_is_idle(run.state, run_version, active_version) && nodes is Some && !run_budget_exhausted(
            trace_steps as int,
            maximum_trace_steps,
            now - created_at,
            maximum_run_duration_ms,
        ) && run.state != AutomationRunState::Pending ==> r == interpret_begin(nodes->0@, run.node_id),
{
    let start = step_start(
        run.state,
        run_version,
        active_version,
        nodes.is_some(),
        trace_steps,
        maximum_trace_steps,
        created_at,
        now,
        maximum_run_duration_ms,
    );
    let plan = match nodes {
        Some(plan) => plan,
        None => {
            return match start {
                Ok(AutomationStepStart::NoWork) => Ok(RuntimeStepBegin::NoWork),
                _ => Err(AutomationRuntimeError::InvalidPlan),
            };
        },
    };
    match start {
        Err(e) => Err(e),
        Ok(AutomationStepStart::NoWork) => Ok(RuntimeStepBegin::NoWork),
        Ok(AutomationStepStart::Accept) => {
            let expected_revision = run.revision;
            let mut next = run;
            accept_run(&mut next, now);
            let step = trace_step(identity, trace_steps as u64, None, TraceDetail::RunAccepted, now);
            let mut trace: Vec<SimulationTraceStep> = Vec::new();
            trace.push(step);
            Ok(RuntimeStepBegin::Accepted(RuntimeStepCommit { run: next, expected_revision, trace }))
        },
        Ok(AutomationStepStart::Interpret) => match runtime_node(plan, run.node_id) {
            Ok(i) => Ok(RuntimeStepBegin::Interpret(i)),
            Err(e) => Err(e),
        },
    }
}

/// Accepts a pending run: it starts running at the next revision.
pub fn accept_run(run: &mut AutomationRun, now: i64)
    ensures
        final(run).state == AutomationRunState::Running,
        final(run).revision == (if old(run).revision == u64::MAX { u64::MAX } else { (old(run).revision + 1) as u64 }),
        final(run).updated_at == now,
        final(run).id == old(run).id,
        final(run).node_id == old(run).node_id,
        final(run).continuations@ == old(run).continuations@,
{
    run.state = AutomationRunState::Running;
    run.revision = run.revision.saturating_add(1);
    run.updated_at = now;
}

/// Interprets a complete node: the run is completed and has no next node.
pub fn complete_run(run: &mut AutomationRun, now: i64) -> (s: AutomationRuntimeStep)
    ensures
        s == AutomationRuntimeStep::Completed,
        final(run).state == AutomationRunState::Completed,
        final(run).node_id is None,
        final(run).revision == (if old(run).revision == u64::MAX { u64::MAX } else { (old(run).revision + 1) as u64 }),
        final(run).updated_at == now,
        final(run).id == old(run).id,
        final(run).continuations@ == old(run).continuations@,
{
    checkpoint(run, now);
    run.state = AutomationRunState::Completed;
    run.node_id = None;
    AutomationRuntimeStep::Completed
}

/// The node a branch continues with: the selected arm, or the join when that
/// arm is empty.
pub fn branch_successor(selected: bool, then_node: Option<u32>, else_node: Option<u32>, join: Option<u32>) -> (r: Option<u32>)
    ensures
        r == (if selected {
            if then_node is Some { then_node } else { join }
        } else {
            if else_node is Some { else_node } else { join }
        }),
{
    let arm = if selected { then_node } else { else_node };
    match arm {
        Some(n) => Some(n),
        None => join,
    }
}

/// Interprets a resolved branch: the run keeps running at the branch successor.
pub fn take_branch(
    run: &mut AutomationRun,
    selected: bool,
    then_node: Option<u32>,
    else_node: Option<u32>,
    join: Option<u32>,
    now: i64,
) -> (s: AutomationRuntimeStep)
    ensures
        s == AutomationRuntimeStep::Advanced,
        final(run).state == AutomationRunState::Running,
        final(run).node_id == (if selected {
            if then_node is Some { then_node } else { join }
        } else {
            if else_node is Some { else_node } else { join }
        }),
        final(run).revision == (if old(run).revision == u64::MAX { u64::MAX } else { (old(run).revision + 1) as u64 }),
        final(run).updated_at == now,
        final(run).id == old(run).id,
        final(run).continuations@ == old(run).continuations@,
{
    checkpoint(run, now);
    run.state = AutomationRunState::Running;
    run.node_id = branch_successor(selected, then_node, else_node, join);
    AutomationRuntimeStep::Advanced
}

/// Kind of a branch group.
#[derive(Clone, Copy, Debug, PartialEq, Eq, Structural)]
pub enum AutomationRunContinuationKind {
    Parallel,
    Race,
}

/// One open branch group of a run.
#[derive(Clone, Debug)]
pub struct AutomationRunContinuation {
    pub group_node_id: u32,
    pub kind: AutomationRunContinuationKind,
    pub join_node_id: u32,
    pub remaining_branches: Vec<u32>,
    pub current_branch_failed: bool,
    pub maximum_parallel: u16,
}

/// Interpreter position of one run.
#[derive(Clone, Debug)]
pub struct AutomationRun {
    pub id: u64,
    pub state: AutomationRunState,
    /// Plan node to interpret next; `None` once terminal.
    pub node_id: Option<u32>,
    /// Open branch groups, innermost last.
    pub continuations: Vec<AutomationRunContinuation>,
    /// Optimistic durable revision.
    pub revision: u64,
    /// Last durable change in milliseconds since the Unix epoch.
    pub updated_at: i64,
}

/// Starts the next durable revision of a run.
pub fn checkpoint(run: &mut AutomationRun, now: i64)
    ensures
        final(run).revision == (if old(run).revision == u64::MAX { u64::MAX } else { (old(run).revision + 1) as u64 }),
        final(run).updated_at == now,
        final(run).id == old(run).id,
        final(run).state == old(run).state,
        final(run).node_id == old(run).node_id,
        final(run).continuations@ == old(run).continuations@,
{
    run.revision = run.revision.saturating_add(1);
    run.updated_at = now;
}

/// Locates the plan node a run interprets next; `InvalidPlan` when the run has
/// no current node or the plan has no node with its id.
pub fn runtime_node(nodes: &Vec<AutomationPlanNode>, node_id: Option<u32>) -> (r: Result<usize, AutomationRuntimeError>)
    ensures
        match node_id {
            None => r == Err::<usize, AutomationRuntimeError>(AutomationRuntimeError::InvalidPlan),
            Some(id) => match node_index(nodes@, id) {
                Some(i) => r == Ok::<usize, AutomationRuntimeError>(i as usize),
                None => r == Err::<usize, AutomationRuntimeError>(AutomationRuntimeError::InvalidPlan),
            },
        },
        r matches Ok(i) ==> i < nodes@.len(),
{
    let id = match node_id {
        Some(id) => id,
        None => return Err(AutomationRuntimeError::InvalidPlan),
    };
    match find_node(nodes, id) {
        Some(i) => Ok(i),
        None => Err(AutomationRuntimeError::InvalidPlan),
    }
}

/// Applies a variable-assignment node: a failed evaluation fails the step and
/// changes nothing; otherwise the value is bound to `name` (replacing an earlier
/// binding), the run checkpoints and moves on to `next`.
pub fn set_variable_step(
    run: &mut AutomationRun,
    variables: &mut Vec<(String, AutomationValue)>,
    name: &String,
    value: Result<AutomationValue, AutomationEvaluationError>,
    next: Option<u32>,
    now: i64,
) -> (r: Result<AutomationRuntimeStep, AutomationRuntimeError>)
    ensures
        match value {
            Err(e) => {
                &&& r == Err::<AutomationRuntimeStep, AutomationRuntimeError>(AutomationRuntimeError::Evaluation(e))
                &&& *final(run) == *old(run)
                &&& final(variables)@ == old(variables)@
            },
            Ok(v) => {
                &&& r == Ok::<AutomationRuntimeStep, AutomationRuntimeError>(AutomationRuntimeStep::Advanced)
                &&& final(variables)@ == assigned(old(variables)@, *name, v)
                &&& final(run).node_id == next
                &&& final(run).revision == (if old(run).revision == u64::MAX { u64::MAX } else { (old(run).revision + 1) as u64 })
                &&& final(run).updated_at == now
                &&& final(run).id == old(run).id
                &&& final(run).state == old(run).state
                &&& final(run).continuations@ == old(run).continuations@
            },
        },
{
    let v = match value {
        Ok(v) => v,
        Err(e) => return Err(AutomationRuntimeError::Evaluation(e)),
    };
    checkpoint(run, now);
    assign_variable(variables, name, v);
    run.node_id = next;
    Ok(AutomationRuntimeStep::Advanced)
}

/// Compiled failure policy of a command or wait node.
#[derive(Clone, Copy, Debug, PartialEq, Eq, Structural)]
pub enum AutomationPlanFailurePolicy {
    StopRun,
    StopBranch,
    Continue,
    Fallback { entry: Option<u32> },
}

/// Applies a failure policy: continue with the following node, enter a fallback,
/// fail only the current branch of an open group, or fail the run.
pub fn apply_failure(run: &mut AutomationRun, policy: AutomationPlanFailurePolicy, following: Option<u32>) -> (s: AutomationRuntimeStep)
    ensures
        final(run).id == old(run).id,
        final(run).revision == old(run).revision,
        final(run).updated_at == old(run).updated_at,
        match policy {
            AutomationPlanFailurePolicy::Continue => {
                &&& final(run).state == AutomationRunState::Running
                &&& final(run).node_id == following
                &&& final(run).continuations@ == old(run).continuations@
                &&& s == AutomationRuntimeStep::Advanced
            },
            AutomationPlanFailurePolicy::Fallback { entry } => {
                &&& final(run).state == AutomationRunState::Running
                &&& final(run).node_id == (if entry is Some { entry } else { following })
                &&& final(run).continuations@ == old(run).continuations@
                &&& s == AutomationRuntimeStep::Advanced
            },
            AutomationPlanFailurePolicy::StopBranch if old(run).continuations@.len() > 0 => {
                let last = old(run).continuations@.len() - 1;
                &&& final(run).state == AutomationRunState::Running
                &&& final(run).node_id == Some(old(run).continuations@[last].join_node_id)
                &&& final(run).continuations@.len() == old(run).continuations@.len()
                &&& forall|i: int| 0 <= i < last ==> #[trigger] final(run).continuations@[i] == old(run).continuations@[i]
                &&& final(run).continuations@[last].current_branch_failed
                &&& final(run).continuations@[last].join_node_id == old(run).continuations@[last].join_node_id
                &&& final(run).continuations@[last].kind == old(run).continuations@[last].kind
                &&& final(run).continuations@[last].group_node_id == old(run).continuations@[last].group_node_id
                &&& final(run).continuations@[last].remaining_branches@ == old(run).continuations@[last].remaining_branches@
                &&& s == AutomationRuntimeStep::Advanced
            },
            _ => {
                &&& final(run).state == AutomationRunState::Failed
                &&& final(run).node_id is None
                &&& final(run).continuations@ == old(run).continuations@
                &&& s == AutomationRuntimeStep::Completed
            },
        },
{
    match policy {
        AutomationPlanFailurePolicy::Continue => {
            run.state = AutomationRunState::Running;
            run.node_id = following;
            AutomationRuntimeStep::Advanced
        },
        AutomationPlanFailurePolicy::Fallback { entry } => {
            run.state = AutomationRunState::Running;
            run.node_id = if entry.is_some() { entry } else { following };
            AutomationRuntimeStep::Advanced
        },
        AutomationPlanFailurePolicy::StopBranch if run.continuations.len() > 0 => {
            let last = run.continuations.len() - 1;
            let mut frame = run.continuations.pop().unwrap();
            let join = frame.join_node_id;
            frame.current_branch_failed = true;
            run.continuations.push(frame);
            run.state = AutomationRunState::Running;
            run.node_id = Some(join);
            AutomationRuntimeStep::Advanced
        },
        _ => {
            run.state = AutomationRunState::Failed;
            run.node_id = None;
            AutomationRuntimeStep::Completed
        },
    }
}

/// What one step of a wait node does.
#[derive(Clone, Copy, Debug, PartialEq, Eq, Structural)]
pub enum AutomationWaitAction {
    /// A running run starts waiting; its timeout timer becomes ready at `ready_at`.
    StartTimeout { ready_at: i64 },
    /// Nothing changes durably; the run keeps waiting.
    KeepWaiting,
    /// The condition holds: the run continues with the following node.
    Satisfied,
    /// The condition is still false and its duration bookkeeping changed.
    Refresh,
    /// The timeout fired before the condition held: the timeout policy applies.
    TimedOut,
}

/// Decides one wait step. `condition` is the evaluated condition, `None` while
/// it waits on a durable state duration; `timeout_timer` is the state of the
/// node's timeout timer, `None` when it is gone; `bookkeeping_changed` says
/// whether evaluation reset timers or changed the run's duration records.
pub fn wait_action(
    state: AutomationRunState,
    now: i64,
    timeout_ms: u64,
    condition: Option<bool>,
    timeout_timer: Option<AutomationTimerState>,
    bookkeeping_changed: bool,
) -> (r: Result<AutomationWaitAction, AutomationRuntimeError>)
    ensures
        state == AutomationRunState::Running ==> r == match utc_add_millis(now, timeout_ms) {
            Some(t) => Ok(AutomationWaitAction::StartTimeout { ready_at: t }),
            None => Err(AutomationRuntimeError::DurationOverflow),
        },
        state == AutomationRunState::Running ==> (r matches Ok(AutomationWaitAction::StartTimeout { ready_at }) ==> ready_at
            == now + timeout_ms),
        state == AutomationRunState::Running && utc_sum_in_range(now as int, timeout_ms as int) ==> r == Ok::<
            AutomationWaitAction,
            AutomationRuntimeError,
        >(AutomationWaitAction::StartTimeout { ready_at: (now + timeout_ms) as i64 }),
        state != AutomationRunState::Running ==> r == match condition {
            None => Ok(AutomationWaitAction::KeepWaiting),
            Some(holds) => match timeout_timer {
                None => Err(AutomationRuntimeError::InvalidPlan),
                Some(timer) => Ok(
                    if holds {
                        AutomationWaitAction::Satisfied
                    } else if timer != AutomationTimerState::Ready {
                        if bookkeeping_changed {
                            AutomationWaitAction::Refresh
                        } else {
                            AutomationWaitAction::KeepWaiting
                        }
                    } else {
                        AutomationWaitAction::TimedOut
                    },
                ),
            },
        },
{
    if state == AutomationRunState::Running {
        return match add_millis(now, timeout_ms) {
            Some(t) => Ok(AutomationWaitAction::StartTimeout { ready_at: t }),
            None => Err(AutomationRuntimeError::DurationOverflow),
        };
    }
    let holds = match condition {
        None => return Ok(AutomationWaitAction::KeepWaiting),
        Some(h) => h,
    };
    let timer = match timeout_timer {
        None => return Err(AutomationRuntimeError::InvalidPlan),
        Some(t) => t,
    };
    if holds {
        Ok(AutomationWaitAction::Satisfied)
    } else if timer != AutomationTimerState::Ready {
        if bookkeeping_changed {
            Ok(AutomationWaitAction::Refresh)
        } else {
            Ok(AutomationWaitAction::KeepWaiting)
        }
    } else {
        Ok(AutomationWaitAction::TimedOut)
    }
}

/// What one step of a delay node does.
#[derive(Clone, Copy, Debug, PartialEq, Eq, Structural)]
pub enum AutomationDelayAction {
    /// A running run starts waiting; its delay timer becomes ready at `ready_at`.
    StartDelay { ready_at: i64 },
    /// The delay timer has not fired; nothing changes.
    KeepWaiting,
    /// The delay timer fired: it is consumed and the run continues.
    Ready,
}

/// Decides one delay step; `timer` is the state of the node's delay timer,
/// `None` when it is gone.
pub fn delay_action(state: AutomationRunState, now: i64, duration_ms: u64, timer: Option<AutomationTimerState>) -> (r: Result<
    AutomationDelayAction,
    AutomationRuntimeError,
>)
    ensures
        state == AutomationRunState::Running ==> r == match utc_add_millis(now, duration_ms) {
            Some(t) => Ok(AutomationDelayAction::StartDelay { ready_at: t }),
            None => Err(AutomationRuntimeError::DurationOverflow),
        },
        state == AutomationRunState::Running ==> (r matches Ok(AutomationDelayAction::StartDelay { ready_at }) ==> ready_at
            == now + duration_ms),
        state == AutomationRunState::Running && utc_sum_in_range(now as int, duration_ms as int) ==> r == Ok::<
            AutomationDelayAction,
            AutomationRuntimeError,
        >(AutomationDelayAction::StartDelay { ready_at: (now + duration_ms) as i64 }),
        state != AutomationRunState::Running ==> r == match timer {
            None => Err(AutomationRuntimeError::InvalidPlan),
            Some(AutomationTimerState::Ready) => Ok(AutomationDelayAction::Ready),
            Some(_) => Ok(AutomationDelayAction::KeepWaiting),
        },
{
    if state == AutomationRunState::Running {
        return match add_millis(now, duration_ms) {
            Some(t) => Ok(AutomationDelayAction::StartDelay { ready_at: t }),
            None => Err(AutomationRuntimeError::DurationOverflow),
        };
    }
    match timer {
        None => Err(AutomationRuntimeError::InvalidPlan),
        Some(AutomationTimerState::Ready) => Ok(AutomationDelayAction::Ready),
        Some(_) => Ok(AutomationDelayAction::KeepWaiting),
    }
}

/// A running run starts waiting at a wait or delay node.
pub fn start_waiting(run: &mut AutomationRun, now: i64) -> (s: AutomationRuntimeStep)
    ensures
        s == AutomationRuntimeStep::Waiting,
        final(run).state == AutomationRunState::Waiting,
        final(run).node_id == old(run).node_id,
        final(run).revision == (if old(run).revision == u64::MAX { u64::MAX } else { (old(run).revision + 1) as u64 }),
        final(run).updated_at == now,
        final(run).id == old(run).id,
        final(run).continuations@ == old(run).continuations@,
{
    checkpoint(run, now);
    run.state = AutomationRunState::Waiting;
    AutomationRuntimeStep::Waiting
}

/// A satisfied wait or a ready delay continues with the following node.
pub fn resume_running(run: &mut AutomationRun, following: Option<u32>, now: i64) -> (s: AutomationRuntimeStep)
    ensures
        s == AutomationRuntimeStep::Advanced,
        final(run).state == AutomationRunState::Running,
        final(run).node_id == following,
        final(run).revision == (if old(run).revision == u64::MAX { u64::MAX } else { (old(run).revision + 1) as u64 }),
        final(run).updated_at == now,
        final(run).id == old(run).id,
        final(run).continuations@ == old(run).continuations@,
{
    checkpoint(run, now);
    run.state = AutomationRunState::Running;
    run.node_id = following;
    AutomationRuntimeStep::Advanced
}

/// A timed-out wait checkpoints the run and applies its timeout policy.
pub fn time_out_wait(
    run: &mut AutomationRun,
    policy: AutomationPlanFailurePolicy,
    following: Option<u32>,
    now: i64,
) -> (s: AutomationRuntimeStep)
    ensures
        final(run).revision == (if old(run).revision == u64::MAX { u64::MAX } else { (old(run).revision + 1) as u64 }),
        final(run).updated_at == now,
        final(run).id == old(run).id,
        match policy {
            AutomationPlanFailurePolicy::Continue => final(run).state == AutomationRunState::Running
                && final(run).node_id == following && s == AutomationRuntimeStep::Advanced,
            AutomationPlanFailurePolicy::Fallback { entry } => final(run).state == AutomationRunState::Running
                && final(run).node_id == (if entry is Some { entry } else { following }) && s
                == AutomationRuntimeStep::Advanced,
            AutomationPlanFailurePolicy::StopBranch if old(run).continuations@.len() > 0 => final(run).state
                == AutomationRunState::Running && final(run).node_id == Some(
                old(run).continuations@[old(run).continuations@.len() - 1].join_node_id,
            ) && s == AutomationRuntimeStep::Advanced,
            _ => final(run).state == AutomationRunState::Failed && final(run).node_id is None && s
                == AutomationRuntimeStep::Completed,
        },
{
    checkpoint(run, now);
    apply_failure(run, policy, following)
}

/// Progress of one continuously true condition.
#[derive(Clone, Copy, Debug, PartialEq, Eq, Structural)]
pub enum AutomationConditionDurationPhase {
    /// The interval runs; its timer has not fired yet.
    Pending,
    /// The condition stayed true for the whole interval.
    Mature,
}

/// Durable record of one continuously true condition of a run.
#[derive(Clone, Debug)]
pub struct AutomationConditionDuration {
    pub node_id: u32,
    /// Canonical hash of the inner condition and its duration.
    pub condition_hash: String,
    pub duration_ms: u64,
    pub ready_at: i64,
    pub timer_id: u64,
    pub phase: AutomationConditionDurationPhase,
}

/// Durable work a continuous-duration evaluation asks the runtime to commit.
#[derive(Clone, Debug)]
pub enum RuntimeDurationRequest {
    /// Record a new pending interval whose timer becomes ready at `ready_at`.
    Start { node_id: u32, condition_hash: String, duration_ms: u64, ready_at: i64 },
    /// The interval still runs.
    Pending,
    /// The interval's timer fired: the interval matures and its timer is consumed.
    Mature { condition_hash: String, timer_id: u64 },
}

/// Outcome of evaluating one continuous-duration condition against durable state.
#[derive(Debug)]
pub struct StateDurationStep {
    pub result: Result<bool, AutomationEvaluationError>,
    /// Whether the condition's recorded interval is reset.
    pub invalidated: bool,
    pub request: Option<RuntimeDurationRequest>,
}

/// The first duration record with this condition hash.
pub open spec fn find_duration(durations: Seq<AutomationConditionDuration>, hash: Seq<char>) -> Option<
    AutomationConditionDuration,
>
    decreases durations.len(),
{
    if durations.len() == 0 {
        None
    } else if durations[0].condition_hash@ == hash {
        Some(durations[0])
    } else {
        find_duration(durations.drop_first(), hash)
    }
}

/// The state of the first loaded timer with this id.
pub open spec fn find_timer(timers: Seq<(u64, AutomationTimerState)>, id: u64) -> Option<AutomationTimerState>
    decreases timers.len(),
{
    if timers.len() == 0 {
        None
    } else if timers[0].0 == id {
        Some(timers[0].1)
    } else {
        find_timer(timers.drop_first(), id)
    }
}

fn duration_index(durations: &Vec<AutomationConditionDuration>, hash: &str) -> (r: Option<usize>)
    ensures
        match r {
            Some(i) => i < durations@.len() && find_duration(durations@, hash@) == Some(durations@[i as int]),
            None => find_duration(durations@, hash@) is None,
        },
{
    let mut i: usize = 0;
    assert(durations@.skip(0) =~= durations@);
    while i < durations.len()
        invariant
            i <= durations@.len(),
            find_duration(durations@, hash@) == find_duration(durations@.skip(i as int), hash@),
        decreases durations@.len() - i,
    {
        assert(durations@.skip(i as int)[0] == durations@[i as int]);
        if str_eq(durations[i].condition_hash.as_str(), hash) {
            return Some(i);
        }
        assert(durations@.skip(i as int).drop_first() =~= durations@.skip(i + 1));
        i = i + 1;
    }
    None
}

fn timer_state(timers: &Vec<(u64, AutomationTimerState)>, id: u64) -> (r: Option<AutomationTimerState>)
    ensures
        r == find_timer(timers@, id),
{
    let mut i: usize = 0;
    assert(timers@.skip(0) =~= timers@);
    while i < timers.len()
        invariant
            i <= timers@.len(),
            find_timer(timers@, id) == find_timer(timers@.skip(i as int), id),
        decreases timers@.len() - i,
    {
        assert(timers@.skip(i as int)[0] == timers@[i as int]);
        if timers[i].0 == id {
            return Some(timers[i].1);
        }
        assert(timers@.skip(i as int).drop_first() =~= timers@.skip(i + 1));
        i = i + 1;
    }
    None
}

/// Evaluates a continuous-duration condition of node `node_id` once its inner
/// condition evaluated to `inner`: a false inner condition resets the interval;
/// a mature interval holds; a pending one waits for its timer, or matures once
/// that timer is ready; without a record a new interval starts now.
pub fn state_duration_step(
    node_id: u32,
    condition_hash: &String,
    inner: bool,
    duration_ms: u64,
    durations: &Vec<AutomationConditionDuration>,
    timers: &Vec<(u64, AutomationTimerState)>,
    now: i64,
) -> (r: StateDurationStep)
    ensures
        !inner ==> (r.result matches Ok(false) && r.invalidated && r.request is None),
        inner ==> !r.invalidated,
        inner ==> match find_duration(durations@, condition_hash@) {
            Some(d) => match d.phase {
                AutomationConditionDurationPhase::Mature => r.result matches Ok(true) && r.request is None,
                AutomationConditionDurationPhase::Pending => match find_timer(timers@, d.timer_id) {
                    Some(AutomationTimerState::Pending) => r.result matches Err(
                        AutomationEvaluationError::DurableDurationRequired,
                    ) && r.request matches Some(RuntimeDurationRequest::Pending),
                    Some(AutomationTimerState::Ready) => r.result matches Err(
                        AutomationEvaluationError::DurableDurationRequired,
                    ) && r.request matches Some(RuntimeDurationRequest::Mature { condition_hash: h, timer_id })
                        && h@ == condition_hash@ && timer_id == d.timer_id,
                    _ => r.result matches Err(AutomationEvaluationError::DurationTimerMissing) && r.request is None,
                },
            },
            None => match utc_add_millis(now, duration_ms) {
                Some(t) => r.result matches Err(AutomationEvaluationError::DurableDurationRequired)
                    && r.request matches Some(RuntimeDurationRequest::Start { node_id: n, condition_hash: h, duration_ms: m, ready_at })
                    && n == node_id && h@ == condition_hash@ && m == duration_ms && ready_at == t,
                None => r.result matches Err(AutomationEvaluationError::DurationOverflow) && r.request is None,
            },
        },
        inner && find_duration(durations@, condition_hash@) is None && utc_sum_in_range(now as int, duration_ms as int)
            ==> (r.request matches Some(RuntimeDurationRequest::Start { ready_at, .. }) && ready_at == now + duration_ms),
{
    if !inner {
        return StateDurationStep { result: Ok(false), invalidated: true, request: None };
    }
    match duration_index(durations, condition_hash.as_str()) {
        Some(i) => {
            let d = &durations[i];
            match d.phase {
                AutomationConditionDurationPhase::Mature => StateDurationStep {
                    result: Ok(true),
                    invalidated: false,
                    request: None,
                },
                AutomationConditionDurationPhase::Pending => match timer_state(timers, d.timer_id) {
                    Some(AutomationTimerState::Pending) => StateDurationStep {
                        result: Err(AutomationEvaluationError::DurableDurationRequired),
                        invalidated: false,
                        request: Some(RuntimeDurationRequest::Pending),
                    },
                    Some(AutomationTimerState::Ready) => StateDurationStep {
                        result: Err(AutomationEvaluationError::DurableDurationRequired),
                        invalidated: false,
                        request: Some(
                            RuntimeDurationRequest::Mature { condition_hash: condition_hash.clone(), timer_id: d.timer_id },
                        ),
                    },
                    _ => StateDurationStep {
                        result: Err(AutomationEvaluationError::DurationTimerMissing),
                        invalidated: false,
                        request: None,
                    },
                },
            }
        },
        None => match add_millis(now, duration_ms) {
            Some(t) => StateDurationStep {
                result: Err(AutomationEvaluationError::DurableDurationRequired),
                invalidated: false,
                request: Some(
                    RuntimeDurationRequest::Start {
                        node_id,
                        condition_hash: condition_hash.clone(),
                        duration_ms,
                        ready_at: t,
                    },
                ),
            },
            None => StateDurationStep {
                result: Err(AutomationEvaluationError::DurationOverflow),
                invalidated: false,
                request: None,
            },
        },
    }
}

/// The record with its interval matured.
pub open spec fn matured(d: AutomationConditionDuration) -> AutomationConditionDuration {
    AutomationConditionDuration { phase: AutomationConditionDurationPhase::Mature, ..d }
}

/// Durable trace event of a wait on a continuous duration.
#[derive(Clone, Copy, Debug, PartialEq, Eq, Structural)]
pub enum DurationWaitEvent {
    Started,
    Reset,
    Matured,
}

/// Applies a continuous-duration request to the run's duration records after
/// `resets` timers were reset. A request to keep waiting with nothing reset
/// commits nothing (`Ok(None)`); a new interval is recorded with the timer
/// `start_timer_id`; a matured interval's first record turns mature.
pub fn apply_duration_request(
    durations: &mut Vec<AutomationConditionDuration>,
    request: &Option<RuntimeDurationRequest>,
    resets: usize,
    start_timer_id: u64,
) -> (r: Result<Option<DurationWaitEvent>, AutomationRuntimeError>)
    ensures
        match *request {
            None => r == Err::<Option<DurationWaitEvent>, AutomationRuntimeError>(AutomationRuntimeError::InvalidPlan)
                && final(durations)@ == old(durations)@,
            Some(RuntimeDurationRequest::Pending) => final(durations)@ == old(durations)@ && r == Ok::<
                Option<DurationWaitEvent>,
                AutomationRuntimeError,
            >(if resets == 0 { None } else { Some(DurationWaitEvent::Reset) }),
            Some(RuntimeDurationRequest::Start { node_id, condition_hash, duration_ms, ready_at }) => {
                &&& r == Ok::<Option<DurationWaitEvent>, AutomationRuntimeError>(Some(DurationWaitEvent::Started))
                &&& final(durations)@.len() == old(durations)@.len() + 1
                &&& final(durations)@.drop_last() == old(durations)@
                &&& final(durations)@.last().node_id == node_id
                &&& final(durations)@.last().condition_hash@ == condition_hash@
                &&& final(durations)@.last().duration_ms == duration_ms
                &&& final(durations)@.last().ready_at == ready_at
                &&& final(durations)@.last().timer_id == start_timer_id
                &&& final(durations)@.last().phase == AutomationConditionDurationPhase::Pending
            },
            Some(RuntimeDurationRequest::Mature { condition_hash, .. }) => match find_duration(
                old(durations)@,
                condition_hash@,
            ) {
                None => r == Err::<Option<DurationWaitEvent>, AutomationRuntimeError>(AutomationRuntimeError::InvalidPlan)
                    && final(durations)@ == old(durations)@,
                Some(_) => {
                    &&& r == Ok::<Option<DurationWaitEvent>, AutomationRuntimeError>(Some(DurationWaitEvent::Matured))
                    &&& final(durations)@.len() == old(durations)@.len()
                    &&& exists|i: int|
                        0 <= i < old(durations)@.len() && find_duration(old(durations)@, condition_hash@) == Some(
                            #[trigger] old(durations)@[i],
                        ) && final(durations)@ == old(durations)@.update(i, matured(old(durations)@[i]))
                },
            },
        },
{
    match request {
        None => Err(AutomationRuntimeError::InvalidPlan),
        Some(RuntimeDurationRequest::Pending) => {
            if resets == 0 {
                Ok(None)
            } else {
                Ok(Some(DurationWaitEvent::Reset))
            }
        },
        Some(RuntimeDurationRequest::Start { node_id, condition_hash, duration_ms, ready_at }) => {
            durations.push(
                AutomationConditionDuration {
                    node_id: *node_id,
                    condition_hash: condition_hash.clone(),
                    duration_ms: *duration_ms,
                    ready_at: *ready_at,
                    timer_id: start_timer_id,
                    phase: AutomationConditionDurationPhase::Pending,
                },
            );
            Ok(Some(DurationWaitEvent::Started))
        },
        Some(RuntimeDurationRequest::Mature { condition_hash, .. }) => {
            match duration_index(durations, condition_hash.as_str()) {
                None => Err(AutomationRuntimeError::InvalidPlan),
                Some(i) => {
                    let ghost before = durations@;
                    let old_record = &durations[i];
                    let record = AutomationConditionDuration {
                        node_id: old_record.node_id,
                        condition_hash: old_record.condition_hash.clone(),
                        duration_ms: old_record.duration_ms,
                        ready_at: old_record.ready_at,
                        timer_id: old_record.timer_id,
                        phase: AutomationConditionDurationPhase::Mature,
                    };
                    durations.set(i, record);
                    assert(durations@ == before.update(i as int, matured(before[i as int])));
                    Ok(Some(DurationWaitEvent::Matured))
                },
            }
        },
    }
}

/// A copy of one duration record.
pub fn copy_duration(d: &AutomationConditionDuration) -> (r: AutomationConditionDuration)
    ensures
        r == *d,
{
    AutomationConditionDuration {
        node_id: d.node_id,
        condition_hash: d.condition_hash.clone(),
        duration_ms: d.duration_ms,
        ready_at: d.ready_at,
        timer_id: d.timer_id,
        phase: d.phase,
    }
}

/// The duration records whose condition hash was not reset, in order.
pub fn retain_valid_durations(durations: &Vec<AutomationConditionDuration>, reset: &Vec<String>) -> (kept: Vec<
    AutomationConditionDuration,
>)
    ensures
        kept@ == durations@.filter(|d: AutomationConditionDuration| !contains_text(reset@, d.condition_hash@)),
{
    let mut kept: Vec<AutomationConditionDuration> = Vec::new();
    let mut i: usize = 0;
    while i < durations.len()
        invariant
            i <= durations@.len(),
            kept@ == durations@.take(i as int).filter(
                |d: AutomationConditionDuration| !contains_text(reset@, d.condition_hash@),
            ),
        decreases durations@.len() - i,
    {
        proof {
            reveal(Seq::filter);
            assert(durations@.take(i + 1).drop_last() =~= durations@.take(i as int));
            assert(durations@.take(i + 1).last() == durations@[i as int]);
        }
        if !contains_field(reset, durations[i].condition_hash.as_str()) {
            kept.push(copy_duration(&durations[i]));
        }
        i = i + 1;
    }
    assert(durations@.take(durations@.len() as int) =~= durations@);
    kept
}

/// The duration records of other nodes than `node_id`, in order.
pub fn forget_node_durations(durations: &Vec<AutomationConditionDuration>, node_id: u32) -> (kept: Vec<
    AutomationConditionDuration,
>)
    ensures
        kept@ == durations@.filter(|d: AutomationConditionDuration| d.node_id != node_id),
{
    let mut kept: Vec<AutomationConditionDuration> = Vec::new();
    let mut i: usize = 0;
    while i < durations.len()
        invariant
            i <= durations@.len(),
            kept@ == durations@.take(i as int).filter(|d: AutomationConditionDuration| d.node_id != node_id),
        decreases durations@.len() - i,
    {
        proof {
            reveal(Seq::filter);
            assert(durations@.take(i + 1).drop_last() =~= durations@.take(i as int));
            assert(durations@.take(i + 1).last() == durations@[i as int]);
        }
        if durations[i].node_id != node_id {
            kept.push(copy_duration(&durations[i]));
        }
        i = i + 1;
    }
    assert(durations@.take(durations@.len() as int) =~= durations@);
    kept
}

/// Trace event of a join step.
#[derive(Clone, Copy, Debug, PartialEq, Eq, Structural)]
pub enum AutomationJoinEvent {
    Join,
    RaceWon,
    NextBranch,
    RaceFailed,
    GroupCompleted,
}

/// Enters a branch group: the first branch runs now, the rest wait in a new
/// innermost continuation that rejoins at `join`.
pub fn enter_group(
    run: &mut AutomationRun,
    node_id: u32,
    branches: &Vec<u32>,
    maximum_parallel: u16,
    join: Option<u32>,
    kind: AutomationRunContinuationKind,
) -> (r: Result<(), AutomationRuntimeError>)
    ensures
        r is Ok <==> branches@.len() > 0 && join is Some,
        r matches Err(e) ==> e == AutomationRuntimeError::InvalidPlan && final(run).node_id == old(run).node_id
            && final(run).continuations@ == old(run).continuations@,
        final(run).id == old(run).id,
        final(run).state == old(run).state,
        final(run).revision == old(run).revision,
        r is Ok ==> {
            let n = old(run).continuations@.len();
            &&& final(run).node_id == Some(branches@[0])
            &&& final(run).continuations@.len() == n + 1
            &&& forall|i: int| 0 <= i < n ==> #[trigger] final(run).continuations@[i] == old(run).continuations@[i]
            &&& final(run).continuations@[n as int].group_node_id == node_id
            &&& final(run).continuations@[n as int].kind == kind
            &&& Some(final(run).continuations@[n as int].join_node_id) == join
            &&& final(run).continuations@[n as int].remaining_branches@ == branches@.drop_first()
            &&& !final(run).continuations@[n as int].current_branch_failed
            &&& final(run).continuations@[n as int].maximum_parallel == maximum_parallel
        },
{
    if branches.len() == 0 {
        return Err(AutomationRuntimeError::InvalidPlan);
    }
    let join_node_id = match join {
        Some(j) => j,
        None => return Err(AutomationRuntimeError::InvalidPlan),
    };
    let mut remaining: Vec<u32> = Vec::new();
    let mut i: usize = 1;
    while i < branches.len()
        invariant
            1 <= i <= branches@.len(),
            remaining@ == branches@.subrange(1, i as int),
        decreases branches@.len() - i,
    {
        remaining.push(branches[i]);
        i = i + 1;
    }
    assert(remaining@ =~= branches@.drop_first());
    run.node_id = Some(branches[0]);
    run.continuations.push(
        AutomationRunContinuation {
            group_node_id: node_id,
            kind,
            join_node_id,
            remaining_branches: remaining,
            current_branch_failed: false,
            maximum_parallel,
        },
    );
    Ok(())
}

/// Interprets one join node: a successful race branch wins, another waiting
/// branch starts, a race whose every branch failed fails the run, and a finished
/// group continues with the following node.
pub fn join_step(run: &mut AutomationRun, node_id: u32, following: Option<u32>) -> (r: (AutomationRuntimeStep, AutomationJoinEvent))
    ensures
        final(run).id == old(run).id,
        final(run).revision == old(run).revision,
        final(run).updated_at == old(run).updated_at,
        ({
            let n = old(run).continuations@.len();
            if n > 0 && old(run).continuations@[n - 1].join_node_id == node_id {
                let frame = old(run).continuations@[n - 1];
                let success = !frame.current_branch_failed;
                if frame.kind == AutomationRunContinuationKind::Race && success {
                    &&& final(run).continuations@ == old(run).continuations@.drop_last()
                    &&& final(run).node_id == following
                    &&& final(run).state == old(run).state
                    &&& r == (AutomationRuntimeStep::Advanced, AutomationJoinEvent::RaceWon)
                } else if frame.remaining_branches@.len() > 0 {
                    &&& final(run).continuations@.len() == n
                    &&& forall|i: int| 0 <= i < n - 1 ==> #[trigger] final(run).continuations@[i] == old(run).continuations@[i]
                    &&& final(run).continuations@[n - 1].remaining_branches@ == frame.remaining_branches@.drop_first()
                    &&& !final(run).continuations@[n - 1].current_branch_failed
                    &&& final(run).continuations@[n - 1].join_node_id == frame.join_node_id
                    &&& final(run).continuations@[n - 1].kind == frame.kind
                    &&& final(run).node_id == Some(frame.remaining_branches@[0])
                    &&& final(run).state == old(run).state
                    &&& r == (AutomationRuntimeStep::Advanced, AutomationJoinEvent::NextBranch)
                } else if frame.kind == AutomationRunContinuationKind::Race {
                    &&& final(run).continuations@ == old(run).continuations@.drop_last()
                    &&& final(run).state == AutomationRunState::Failed
                    &&& final(run).node_id is None
                    &&& r == (AutomationRuntimeStep::Completed, AutomationJoinEvent::RaceFailed)
                } else {
                    &&& final(run).continuations@ == old(run).continuations@.drop_last()
                    &&& final(run).node_id == following
                    &&& final(run).state == old(run).state
                    &&& r == (AutomationRuntimeStep::Advanced, AutomationJoinEvent::GroupCompleted)
                }
            } else {
                &&& final(run).continuations@ == old(run).continuations@
                &&& final(run).node_id == following
                &&& final(run).state == old(run).state
                &&& r == (AutomationRuntimeStep::Advanced, AutomationJoinEvent::Join)
            }
        }),
{
    let n = run.continuations.len();
    if n > 0 && run.continuations[n - 1].join_node_id == node_id {
        let mut frame = run.continuations.pop().unwrap();
        let success = !frame.current_branch_failed;
        if frame.kind == AutomationRunContinuationKind::Race && success {
            run.node_id = following;
            return (AutomationRuntimeStep::Advanced, AutomationJoinEvent::RaceWon);
        }
        if frame.remaining_branches.len() > 0 {
            let branch = frame.remaining_branches.remove(0);
            frame.current_branch_failed = false;
            run.continuations.push(frame);
            run.node_id = Some(branch);
            return (AutomationRuntimeStep::Advanced, AutomationJoinEvent::NextBranch);
        }
        if frame.kind == AutomationRunContinuationKind::Race {
            run.state = AutomationRunState::Failed;
            run.node_id = None;
            return (AutomationRuntimeStep::Completed, AutomationJoinEvent::RaceFailed);
        }
        run.node_id = following;
        (AutomationRuntimeStep::Advanced, AutomationJoinEvent::GroupCompleted)
    } else {
        run.node_id = following;
        (AutomationRuntimeStep::Advanced, AutomationJoinEvent::Join)
    }
}

/// Lifecycle state of one governed command.
#[derive(Clone, Copy, Debug, PartialEq, Eq, Structural)]
pub enum CommandState {
    Received,
    Validated,
    Dispatched,
    Acknowledged,
    Confirmed,
    Failed,
    Rejected,
    TimedOut,
    Cancelled,
}

impl CommandState {
    /// Whether the command reached a final state.
    pub fn is_terminal(self) -> (b: bool)
        ensures
            b == command_state_terminal(self),
    {
        match self {
            CommandState::Confirmed | CommandState::Failed | CommandState::Rejected | CommandState::TimedOut
            | CommandState::Cancelled => true,
            _ => false,
        }
    }
}

/// Confirmed, failed, rejected, timed-out, and cancelled commands are final.
pub open spec fn command_state_terminal(s: CommandState) -> bool {
    s == CommandState::Confirmed || s == CommandState::Failed || s == CommandState::Rejected || s
        == CommandState::TimedOut || s == CommandState::Cancelled
}

/// Stable command failure code.
#[derive(Clone, Copy, Debug, PartialEq, Eq, Structural)]
pub enum CommandErrorCode {
    CapabilityMismatch,
    DeadlineExceeded,
    PolicyDenied,
    StaleObservation,
    SupersededBeforeDispatch,
    TransportFailure,
    UnsupportedConstraint,
}

/// Outcome of one attempted command of a command node.
#[derive(Clone, Copy, Debug, PartialEq, Eq, Structural)]
pub struct AutomationCommandOutcome {
    pub command_id: u64,
    pub state: CommandState,
    pub failure: Option<CommandErrorCode>,
    /// Last command change in milliseconds since the Unix epoch.
    pub updated_at: i64,
}

/// Declared bounded retry policy of a command node.
#[derive(Clone, Debug)]
pub struct AutomationRetryPolicy {
    pub maximum_retries: u16,
    pub backoff_ms: u64,
    pub retryable_command_errors: Vec<CommandErrorCode>,
}

/// Targets, commands, and time of the next retry attempt.
#[derive(Clone, Debug, PartialEq, Eq)]
pub struct CommandRetryPlan {
    pub target_indices: Vec<u16>,
    pub command_ids: Vec<u64>,
    pub ready_at: i64,
}

/// Scan of the first `n` outcomes: whether a non-retryable failure blocks the
/// retry, the failed targets and commands to retry, and the latest failure time.
pub open spec fn retry_scan(
    indices: Seq<u16>,
    outcomes: Seq<AutomationCommandOutcome>,
    retryable: Seq<CommandErrorCode>,
    n: nat,
) -> (bool, Seq<u16>, Seq<u64>, Option<i64>)
    decreases n,
{
    if n == 0 {
        (false, Seq::empty(), Seq::empty(), None)
    } else {
        let (blocked, targets, ids, latest) = retry_scan(indices, outcomes, retryable, (n - 1) as nat);
        let c = outcomes[n - 1];
        if c.state == CommandState::Confirmed {
            (blocked, targets, ids, latest)
        } else if c.failure is None || !retryable.contains(c.failure->0) {
            (true, targets, ids, latest)
        } else {
            (
                blocked,
                targets.push(indices[n - 1]),
                ids.push(c.command_id),
                Some(
                    match latest {
                        Some(l) => if l >= c.updated_at { l } else { c.updated_at },
                        None => c.updated_at,
                    },
                ),
            )
        }
    }
}

fn contains_code(codes: &Vec<CommandErrorCode>, code: CommandErrorCode) -> (b: bool)
    ensures
        b == codes@.contains(code),
{
    let mut i: usize = 0;
    while i < codes.len()
        invariant
            i <= codes@.len(),
            forall|j: int| 0 <= j < i ==> codes@[j] != code,
        decreases codes@.len() - i,
    {
        if codes[i] == code {
            return true;
        }
        i = i + 1;
    }
    false
}

/// Plans a bounded retry of exactly the failed targets of one command node.
///
/// No retry is planned once `attempt` reaches the declared bound, when the
/// outcomes do not line up with the targets, when any unconfirmed command lacks a
/// retryable failure, or when every command was confirmed. A planned retry is
/// ready `backoff_ms` after the latest failure.
pub fn retry_plan(
    attempt: u16,
    target_indices: &Vec<u16>,
    commands: &Vec<AutomationCommandOutcome>,
    policy: &AutomationRetryPolicy,
) -> (r: Result<Option<CommandRetryPlan>, AutomationRuntimeError>)
    ensures
        ({
            if attempt >= policy.maximum_retries || target_indices@.len() != commands@.len() {
                r matches Ok(None)
            } else {
                let (blocked, targets, ids, latest) = retry_scan(
                    target_indices@,
                    commands@,
                    policy.retryable_command_errors@,
                    commands@.len(),
                );
                if blocked {
                    r matches Ok(None)
                } else {
                    match latest {
                        None => r matches Ok(None),
                        Some(l) => match utc_add_millis(l, policy.backoff_ms) {
                            None => r == Err::<Option<CommandRetryPlan>, AutomationRuntimeError>(AutomationRuntimeError::DurationOverflow),
                            Some(t) => r matches Ok(Some(p)) && p.target_indices@ == targets && p.command_ids@ == ids
                                && p.ready_at == t,
                        },
                    }
                }
            }
        }),
        ({
            let (blocked, targets, ids, latest) = retry_scan(
                target_indices@,
                commands@,
                policy.retryable_command_errors@,
                commands@.len(),
            );
            attempt < policy.maximum_retries && target_indices@.len() == commands@.len() && !blocked ==> (latest matches Some(
                l,
            ) ==> (utc_sum_in_range(l as int, policy.backoff_ms as int) ==> (r matches Ok(Some(p)) && p.ready_at == l
                + policy.backoff_ms)))
        }),
{
    if attempt >= policy.maximum_retries || target_indices.len() != commands.len() {
        return Ok(None);
    }
    let mut retry_targets: Vec<u16> = Vec::new();
    let mut retry_commands: Vec<u64> = Vec::new();
    let mut latest: Option<i64> = None;
    let mut i: usize = 0;
    while i < commands.len()
        invariant
            i <= commands@.len(),
            target_indices@.len() == commands@.len(),
            retry_scan(target_indices@, commands@, policy.retryable_command_errors@, i as nat) == (
                false,
                retry_targets@,
                retry_commands@,
                latest,
            ),
        decreases commands@.len() - i,
    {
        let command = commands[i];
        if command.state != CommandState::Confirmed {
            let code = match command.failure {
                Some(code) => code,
                None => {
                    proof {
                        lemma_retry_scan_blocked_stays(target_indices@, commands@, policy.retryable_command_errors@, (i + 1) as nat);
                    }
                    return Ok(None);
                },
            };
            if !contains_code(&policy.retryable_command_errors, code) {
                proof {
                    lemma_retry_scan_blocked_stays(target_indices@, commands@, policy.retryable_command_errors@, (i + 1) as nat);
                }
                return Ok(None);
            }
            retry_targets.push(target_indices[i]);
            retry_commands.push(command.command_id);
            latest = Some(
                match latest {
                    Some(l) => if l >= command.updated_at { l } else { command.updated_at },
                    None => command.updated_at,
                },
            );
        }
        i = i + 1;
    }
    let latest = match latest {
        Some(l) => l,
        None => return Ok(None),
    };
    let ready_at = match add_millis(latest, policy.backoff_ms) {
        Some(t) => t,
        None => return Err(AutomationRuntimeError::DurationOverflow),
    };
    Ok(Some(CommandRetryPlan { target_indices: retry_targets, command_ids: retry_commands, ready_at }))
}

proof fn lemma_retry_scan_blocked_stays(
    indices: Seq<u16>,
    outcomes: Seq<AutomationCommandOutcome>,
    retryable: Seq<CommandErrorCode>,
    n: nat,
)
    requires
        n <= outcomes.len(),
        retry_scan(indices, outcomes, retryable, n).0,
    ensures
        retry_scan(indices, outcomes, retryable, outcomes.len()).0,
    decreases outcomes.len() - n,
{
    if n < outcomes.len() {
        lemma_retry_scan_blocked_stays(indices, outcomes, retryable, n + 1);
    }
}

/// Whether outcome `m` is an unconfirmed command `id` whose failure is retryable.
pub open spec fn retryable_failure_at(
    outcomes: Seq<AutomationCommandOutcome>,
    retryable: Seq<CommandErrorCode>,
    m: int,
    id: u64,
) -> bool {
    &&& 0 <= m < outcomes.len()
    &&& outcomes[m].command_id == id
    &&& outcomes[m].state != CommandState::Confirmed
    &&& outcomes[m].failure is Some
    &&& retryable.contains(outcomes[m].failure->0)
}

/// Whether `id` names an unconfirmed command among the first `n` outcomes whose
/// failure is retryable.
pub open spec fn is_retryable_failure(
    outcomes: Seq<AutomationCommandOutcome>,
    retryable: Seq<CommandErrorCode>,
    n: nat,
    id: u64,
) -> bool {
    exists|m: int| 0 <= m < n && #[trigger] retryable_failure_at(outcomes, retryable, m, id)
}

/// Every planned retry target is a failed, retryable command: confirmed
/// commands are never dispatched again.
pub proof fn lemma_retry_excludes_confirmed(
    indices: Seq<u16>,
    outcomes: Seq<AutomationCommandOutcome>,
    retryable: Seq<CommandErrorCode>,
    n: nat,
)
    requires
        n <= outcomes.len(),
        n <= indices.len(),
    ensures
        retry_scan(indices, outcomes, retryable, n).1.len() == retry_scan(indices, outcomes, retryable, n).2.len(),
        retry_scan(indices, outcomes, retryable, n).2.len() <= n,
        forall|k: int| 0 <= k < retry_scan(indices, outcomes, retryable, n).2.len() ==>
            #[trigger] is_retryable_failure(outcomes, retryable, n, retry_scan(indices, outcomes, retryable, n).2[k]),
    decreases n,
{
    if n > 0 {
        let p = (n - 1) as nat;
        lemma_retry_excludes_confirmed(indices, outcomes, retryable, p);
        let ids = retry_scan(indices, outcomes, retryable, p).2;
        let i2 = retry_scan(indices, outcomes, retryable, n).2;
        let c = outcomes[n - 1];
        if c.state == CommandState::Confirmed || c.failure is None || !retryable.contains(c.failure->0) {
            assert(i2 == ids);
        } else {
            assert(i2 == ids.push(c.command_id));
            assert(retryable_failure_at(outcomes, retryable, n - 1, c.command_id));
        }
        assert forall|k: int| 0 <= k < i2.len() implies #[trigger] is_retryable_failure(outcomes, retryable, n, i2[k]) by {
            if k < ids.len() {
                assert(i2[k] == ids[k]);
                assert(is_retryable_failure(outcomes, retryable, p, ids[k]));
                let m = choose|m: int| 0 <= m < p && #[trigger] retryable_failure_at(outcomes, retryable, m, ids[k]);
                assert(retryable_failure_at(outcomes, retryable, m, i2[k]));
            } else {
                assert(retryable_failure_at(outcomes, retryable, n - 1, i2[k]));
            }
        }
    }
}

/// How overlapping runs of one automation are admitted.
#[derive(Clone, Copy, Debug, PartialEq, Eq, Structural)]
pub enum AutomationRunMode {
    Single,
    Restart,
    Queued { capacity: u16 },
    Parallel { maximum_parallel: u16 },
}

/// Whether a new run is admitted while `active` runs are open.
pub fn run_mode_accepts(mode: AutomationRunMode, active: usize) -> (b: bool)
    ensures
        b == match mode {
            AutomationRunMode::Single => active == 0,
            AutomationRunMode::Restart => true,
            AutomationRunMode::Queued { capacity } => active < capacity,
            AutomationRunMode::Parallel { maximum_parallel } => active < maximum_parallel,
        },
{
    match mode {
        AutomationRunMode::Single => active == 0,
        AutomationRunMode::Restart => true,
        AutomationRunMode::Queued { capacity } => active < capacity as usize,
        AutomationRunMode::Parallel { maximum_parallel } => active < maximum_parallel as usize,
    }
}

} // verus!
