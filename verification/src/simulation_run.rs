//! Deterministic interpretation of a normalized automation plan against a
//! simulation fixture: virtual time, declared command outcomes, and a trace.

use vstd::prelude::*;

use crate::automation_compiler::{AutomationApprovalRequirement, CommandPayloadKind};
use crate::automation_evaluator::{
    copy_value, evaluate_automation_expression, AutomationValue, ResolvedAutomationCondition,
    ResolvedAutomationExpression,
};
use crate::automation_events::ResolvedAutomationTarget;
use crate::automation_runtime::{AutomationPlanFailurePolicy, AutomationRetryPolicy, CommandState};
use crate::automation_simulator::{
    consume_budget, failure_route, failure_route_of, map_evaluation_error, simulation_error_of, step_within_budget,
    AutomationExecutionBudget, AutomationSimulationError, FailureRoute, Flow,
};
use crate::ports::str_eq;
use crate::automation_runtime::CommandErrorCode;
use crate::simulation::{
    advance_ports, advanced, copy_target, due_change, lemma_expression_on_model, model_expression, next_outcome_of,
    simulate_condition, simulated_condition, PortsModel, SimulationCommandOutcome, VirtualSimulationPorts,
};
use crate::time::{add_millis, utc_add_millis};

verus! {

/// The work of one node of a normalized plan.
#[derive(Debug)]
pub enum AutomationPlanNodeKind {
    Complete,
    Delay { duration_ms: u64, next: Option<u32> },
    Command {
        targets: Vec<ResolvedAutomationTarget>,
        payload: CommandPayloadKind,
        retry: AutomationRetryPolicy,
        on_failure: AutomationPlanFailurePolicy,
        next: Option<u32>,
    },
    Wait {
        condition: ResolvedAutomationCondition,
        timeout_ms: u64,
        on_timeout: AutomationPlanFailurePolicy,
        next: Option<u32>,
    },
    SetVariable { name: String, value: ResolvedAutomationExpression, next: Option<u32> },
    Branch {
        condition: ResolvedAutomationCondition,
        then_node: Option<u32>,
        else_node: Option<u32>,
        join: Option<u32>,
    },
    Parallel { branches: Vec<u32>, maximum_parallel: u16, join: Option<u32> },
    Race { branches: Vec<u32>, maximum_parallel: u16, join: Option<u32> },
    Join { next: Option<u32> },
}

/// One node of a normalized plan.
#[derive(Debug)]
pub struct AutomationPlanNode {
    pub id: u32,
    pub kind: AutomationPlanNodeKind,
}

/// Status recorded in an outcome trace step.
#[derive(Clone, Copy, Debug, PartialEq, Eq, Structural)]
pub enum TraceStatus {
    Completed,
    Failed,
}

/// Why a trigger was recorded as suppressed.
#[derive(Clone, Copy, Debug, PartialEq, Eq, Structural)]
pub enum SuppressionReason {
    TriggerNotMatched,
    MissedSkipped,
    TriggerSuppressed,
}

/// What one trace step records.
#[derive(Clone, Debug)]
pub enum TraceDetail {
    /// The trigger was accepted, with or without explicit catch-up.
    Trigger { explicit_catch_up: bool },
    /// A pending durable run was accepted.
    RunAccepted,
    Suppression { reason: SuppressionReason },
    /// A condition's result.
    Condition { result: bool },
    /// A delay's timer became ready.
    DelayReady { duration_ms: u64 },
    /// A wait's timeout fired.
    WaitTimeout,
    /// A command attempt and its declared state.
    Command { attempt: u16, state: CommandState },
    Variable { name: String, value: AutomationValue },
    /// A branch and whether its `then` arm was taken.
    Branch { then: bool },
    Outcome { status: TraceStatus },
}

/// One step of the shared runtime and simulation trace.
#[derive(Clone, Debug)]
pub struct SimulationTraceStep {
    /// Run the step belongs to.
    pub run_id: u64,
    /// Position of the step in the trace.
    pub sequence: u64,
    pub node_id: Option<u32>,
    pub detail: TraceDetail,
    /// Virtual instant of the step.
    pub occurred_at: i64,
    /// Correlation chain of the run.
    pub correlation_id: u64,
    /// Event that directly caused the run, if any.
    pub causation_event_id: Option<u64>,
}

/// Identities every trace step of a run carries.
#[derive(Clone, Copy, Debug, PartialEq, Eq, Structural)]
pub struct TraceIdentity {
    pub run_id: u64,
    pub correlation_id: u64,
    pub causation_event_id: Option<u64>,
}

/// One command attempt emitted without any physical dispatcher.
#[derive(Clone, Debug)]
pub struct SimulatedCommandIntent {
    pub node_id: u32,
    pub targets: Vec<ResolvedAutomationTarget>,
    pub payload: CommandPayloadKind,
    /// Zero-based attempt number.
    pub attempt: u16,
    /// Virtual attempt instant.
    pub at: i64,
    pub outcome: SimulationCommandOutcome,
    pub approval: AutomationApprovalRequirement,
}

/// A command attempt as mathematical values.
pub struct IntentModel {
    pub node_id: u32,
    pub targets: Seq<ResolvedAutomationTarget>,
    pub payload: CommandPayloadKind,
    pub attempt: u16,
    pub at: i64,
    pub outcome: SimulationCommandOutcome,
    pub approval: AutomationApprovalRequirement,
}

/// A command attempt as mathematical values.
pub open spec fn intent_model(i: SimulatedCommandIntent) -> IntentModel {
    IntentModel {
        node_id: i.node_id,
        targets: i.targets@,
        payload: i.payload,
        attempt: i.attempt,
        at: i.at,
        outcome: i.outcome,
        approval: i.approval,
    }
}

/// The immutable inputs of one interpretation.
#[derive(Debug)]
pub struct SimulationPlan {
    pub nodes: Vec<AutomationPlanNode>,
    pub budget: AutomationExecutionBudget,
    pub approval: AutomationApprovalRequirement,
    /// Instant at which the trigger was accepted; run durations count from it.
    pub accepted_at: i64,
}

/// The mutable state of one interpretation.
#[derive(Debug)]
pub struct SimulationRun {
    pub ports: VirtualSimulationPorts,
    pub trace: Vec<SimulationTraceStep>,
    pub intents: Vec<SimulatedCommandIntent>,
    /// Variable bindings, one per name.
    pub variables: Vec<(String, AutomationValue)>,
    /// Identities stamped on each trace step.
    pub identity: TraceIdentity,
    /// Interpreter steps taken.
    pub steps: u64,
}

/// The interpretation state as mathematical values.
pub struct RunModel {
    pub ports: PortsModel,
    pub trace: Seq<SimulationTraceStep>,
    pub intents: Seq<IntentModel>,
    pub variables: Seq<(String, AutomationValue)>,
    pub identity: TraceIdentity,
    pub steps: u64,
}

impl SimulationRun {
    /// The state as mathematical values.
    pub open spec fn model(&self) -> RunModel {
        RunModel {
            ports: self.ports.model(),
            trace: self.trace@,
            intents: self.intents@.map_values(|i: SimulatedCommandIntent| intent_model(i)),
            variables: self.variables@,
            identity: self.identity,
            steps: self.steps,
        }
    }

    /// Whether the ports' cursors stay inside their sequences and the trace
    /// steps are numbered by their position.
    pub open spec fn wf(&self) -> bool {
        &&& self.ports.wf()
        &&& trace_numbered(self.trace@)
        &&& trace_identified(self.trace@, self.identity)
    }
}

/// Each trace step carries the run's identities.
pub open spec fn trace_identified(trace: Seq<SimulationTraceStep>, identity: TraceIdentity) -> bool {
    forall|i: int|
        0 <= i < trace.len() ==> {
            &&& #[trigger] trace[i].run_id == identity.run_id
            &&& trace[i].correlation_id == identity.correlation_id
            &&& trace[i].causation_event_id == identity.causation_event_id
        }
}

/// Each trace step carries its position in the trace as its sequence number.
pub open spec fn trace_numbered(trace: Seq<SimulationTraceStep>) -> bool {
    forall|i: int| 0 <= i < trace.len() ==> #[trigger] trace[i].sequence == i
}

/// The position of the first node with this id.
pub open spec fn node_index(nodes: Seq<AutomationPlanNode>, id: u32) -> Option<int>
    decreases nodes.len(),
{
    if nodes.len() == 0 {
        None
    } else if nodes.last().id == id {
        match node_index(nodes.drop_last(), id) {
            Some(i) => Some(i),
            None => Some(nodes.len() - 1),
        }
    } else {
        node_index(nodes.drop_last(), id)
    }
}

pub(crate) proof fn lemma_node_index(nodes: Seq<AutomationPlanNode>, id: u32)
    ensures
        node_index(nodes, id) matches Some(i) ==> 0 <= i < nodes.len() && nodes[i].id == id && forall|j: int|
            0 <= j < i ==> #[trigger] nodes[j].id != id,
        node_index(nodes, id) is None ==> forall|j: int| 0 <= j < nodes.len() ==> #[trigger] nodes[j].id != id,
    decreases nodes.len(),
{
    if nodes.len() > 0 {
        lemma_node_index(nodes.drop_last(), id);
        assert forall|j: int| 0 <= j < nodes.len() - 1 implies nodes.drop_last()[j] == nodes[j] by {}
    }
}

/// Finds the first node with this id.
pub fn find_node(nodes: &Vec<AutomationPlanNode>, id: u32) -> (r: Option<usize>)
    ensures
        r matches Some(i) ==> i < nodes@.len(),
        match r {
            Some(i) => node_index(nodes@, id) == Some(i as int),
            None => node_index(nodes@, id) is None,
        },
{
    proof {
        lemma_node_index(nodes@, id);
    }
    let mut i: usize = 0;
    while i < nodes.len()
        invariant
            i <= nodes@.len(),
            forall|j: int| 0 <= j < i ==> #[trigger] nodes@[j].id != id,
        decreases nodes@.len() - i,
    {
        if nodes[i].id == id {
            proof {
                lemma_node_index(nodes@, id);
                match node_index(nodes@, id) {
                    Some(k) => {
                        if k < i {
                            assert(nodes@[k].id != id);
                        } else if k > i {
                            assert(nodes@[i as int].id == id);
                        }
                    },
                    None => {
                        assert(nodes@[i as int].id == id);
                    },
                }
            }
            return Some(i);
        }
        i = i + 1;
    }
    proof {
        lemma_node_index(nodes@, id);
        if let Some(k) = node_index(nodes@, id) {
            assert(nodes@[k].id != id);
        }
    }
    None
}

/// The position of the first binding of the name.
pub open spec fn variable_index(vars: Seq<(String, AutomationValue)>, name: Seq<char>) -> Option<int>
    decreases vars.len(),
{
    if vars.len() == 0 {
        None
    } else {
        match variable_index(vars.drop_last(), name) {
            Some(i) => Some(i),
            None => if vars.last().0@ == name {
                Some(vars.len() - 1)
            } else {
                None
            },
        }
    }
}

/// The bindings with the name bound to the value: its binding is replaced, or
/// a new binding is added.
pub open spec fn assigned(vars: Seq<(String, AutomationValue)>, name: String, value: AutomationValue) -> Seq<
    (String, AutomationValue),
> {
    match variable_index(vars, name@) {
        Some(i) => vars.update(i, (vars[i].0, value)),
        None => vars.push((name, value)),
    }
}

proof fn lemma_variable_index(vars: Seq<(String, AutomationValue)>, name: Seq<char>)
    ensures
        variable_index(vars, name) matches Some(i) ==> 0 <= i < vars.len() && vars[i].0@ == name && forall|j: int|
            0 <= j < i ==> #[trigger] vars[j].0@ != name,
        variable_index(vars, name) is None ==> forall|j: int| 0 <= j < vars.len() ==> #[trigger] vars[j].0@ != name,
    decreases vars.len(),
{
    if vars.len() > 0 {
        let init = vars.drop_last();
        lemma_variable_index(init, name);
        assert forall|j: int| 0 <= j < vars.len() - 1 implies init[j] == vars[j] by {}
        assert(vars.last() == vars[vars.len() - 1]);
        match variable_index(init, name) {
            Some(i) => {
                assert(variable_index(vars, name) == Some(i));
                assert(vars[i] == init[i]);
            },
            None => {
                assert forall|j: int| 0 <= j < vars.len() - 1 implies #[trigger] vars[j].0@ != name by {
                    assert(init[j] == vars[j]);
                }
            },
        }
    }
}

pub(crate) fn assign_variable(vars: &mut Vec<(String, AutomationValue)>, name: &String, value: AutomationValue)
    ensures
        final(vars)@ == assigned(old(vars)@, *name, value),
{
    proof {
        lemma_variable_index(old(vars)@, name@);
    }
    let mut i: usize = 0;
    while i < vars.len()
        invariant
            vars@ == old(vars)@,
            i <= vars@.len(),
            forall|j: int| 0 <= j < i ==> #[trigger] vars@[j].0@ != name@,
        decreases vars@.len() - i,
    {
        if str_eq(vars[i].0.as_str(), name.as_str()) {
            proof {
                lemma_variable_index(vars@, name@);
                match variable_index(vars@, name@) {
                    Some(k) => {
                        if k < i {
                            assert(vars@[k].0@ != name@);
                        } else if k > i {
                            assert(vars@[i as int].0@ == name@);
                        }
                    },
                    None => {
                        assert(vars@[i as int].0@ == name@);
                    },
                }
            }
            let key = vars[i].0.clone();
            vars.set(i, (key, value));
            return;
        }
        i = i + 1;
    }
    proof {
        lemma_variable_index(vars@, name@);
        if let Some(k) = variable_index(vars@, name@) {
            assert(vars@[k].0@ != name@);
        }
    }
    vars.push((name.clone(), value));
}

/// The trace after recording one step at the ports' instant, or `None` once
/// the trace holds the budget's number of steps.
pub open spec fn traced(
    budget: AutomationExecutionBudget,
    m: RunModel,
    node_id: Option<u32>,
    detail: TraceDetail,
) -> Option<RunModel> {
    if m.trace.len() >= budget.maximum_trace_steps {
        None
    } else {
        Some(
            RunModel {
                trace: m.trace.push(
                    SimulationTraceStep {
                        run_id: m.identity.run_id,
                        sequence: m.trace.len() as u64,
                        node_id,
                        detail,
                        occurred_at: m.ports.now,
                        correlation_id: m.identity.correlation_id,
                        causation_event_id: m.identity.causation_event_id,
                    },
                ),
                ..m
            },
        )
    }
}

/// Records one trace step.
pub fn record_trace(
    plan: &SimulationPlan,
    run: &mut SimulationRun,
    node_id: Option<u32>,
    detail: TraceDetail,
) -> (r: Result<(), AutomationSimulationError>)
    ensures
        match traced(plan.budget, old(run).model(), node_id, detail) {
            Some(m) => r is Ok && final(run).model() == m,
            None => r == Err::<(), AutomationSimulationError>(AutomationSimulationError::BudgetExceeded)
                && final(run).model() == old(run).model(),
        },
        final(run).wf() == old(run).wf(),
        final(run).identity == old(run).identity,
{
    if run.trace.len() >= plan.budget.maximum_trace_steps as usize {
        return Err(AutomationSimulationError::BudgetExceeded);
    }
    let sequence = run.trace.len() as u64;
    let now = run.ports.now;
    let ghost before = run.model();
    let identity = run.identity;
    run.trace.push(
        SimulationTraceStep {
            run_id: identity.run_id,
            sequence,
            node_id,
            detail,
            occurred_at: now,
            correlation_id: identity.correlation_id,
            causation_event_id: identity.causation_event_id,
        },
    );
    assert(run.model().intents == before.intents);
    proof {
        let step = SimulationTraceStep {
            run_id: identity.run_id,
            sequence,
            node_id,
            detail,
            occurred_at: now,
            correlation_id: identity.correlation_id,
            causation_event_id: identity.causation_event_id,
        };
        assert(run.trace@ == before.trace.push(step));
        if trace_numbered(before.trace) {
            assert forall|i: int| 0 <= i < run.trace@.len() implies #[trigger] run.trace@[i].sequence == i by {
                if i < before.trace.len() {
                    assert(run.trace@[i] == before.trace[i]);
                }
            }
        }
        if trace_numbered(run.trace@) {
            assert forall|i: int| 0 <= i < before.trace.len() implies #[trigger] before.trace[i].sequence == i by {
                assert(run.trace@[i] == before.trace[i]);
            }
        }
        if trace_identified(before.trace, run.identity) {
            assert forall|i: int| 0 <= i < run.trace@.len() implies {
                &&& #[trigger] run.trace@[i].run_id == run.identity.run_id
                &&& run.trace@[i].correlation_id == run.identity.correlation_id
                &&& run.trace@[i].causation_event_id == run.identity.causation_event_id
            } by {
                if i < before.trace.len() {
                    assert(run.trace@[i] == before.trace[i]);
                }
            }
        }
        if trace_identified(run.trace@, run.identity) {
            assert forall|i: int| 0 <= i < before.trace.len() implies {
                &&& #[trigger] before.trace[i].run_id == run.identity.run_id
                &&& before.trace[i].correlation_id == run.identity.correlation_id
                &&& before.trace[i].causation_event_id == run.identity.causation_event_id
            } by {
                assert(run.trace@[i] == before.trace[i]);
                assert(run.trace@[i].run_id == run.identity.run_id);
            }
        }
    }
    Ok(())
}

/// The state after taking one interpreter step, or `None` when that step would
/// leave the budget.
pub open spec fn stepped(plan_budget: AutomationExecutionBudget, accepted_at: i64, m: RunModel) -> Option<RunModel> {
    if step_within_budget(plan_budget, m.steps, m.trace.len() as usize, m.ports.now - accepted_at) {
        Some(RunModel { steps: (m.steps + 1) as u64, ..m })
    } else {
        None
    }
}

/// Takes one interpreter step of the budget.
fn take_step(plan: &SimulationPlan, run: &mut SimulationRun) -> (r: Result<(), AutomationSimulationError>)
    requires
        old(run).steps <= u32::MAX,
    ensures
        match stepped(plan.budget, plan.accepted_at, old(run).model()) {
            Some(m) => r is Ok && final(run).model() == m,
            None => r == Err::<(), AutomationSimulationError>(AutomationSimulationError::BudgetExceeded),
        },
        final(run).wf() == old(run).wf(),
        final(run).identity == old(run).identity,
        final(run).steps >= old(run).steps,
{
    let ghost before = run.model();
    let r = consume_budget(plan.budget, &mut run.steps, run.trace.len(), plan.accepted_at, run.ports.now);
    assert(run.model().intents == before.intents);
    r
}

fn copy_targets(targets: &Vec<ResolvedAutomationTarget>) -> (r: Vec<ResolvedAutomationTarget>)
    ensures
        r@ == targets@,
{
    let mut r: Vec<ResolvedAutomationTarget> = Vec::new();
    let mut i: usize = 0;
    while i < targets.len()
        invariant
            i <= targets@.len(),
            r@ == targets@.take(i as int),
        decreases targets@.len() - i,
    {
        r.push(copy_target(&targets[i]));
        assert(targets@.take(i + 1) =~= targets@.take(i as int).push(targets@[i as int]));
        i = i + 1;
    }
    assert(targets@.take(targets@.len() as int) =~= targets@);
    r
}

/// How a command, wait or group node leaves interpretation: it proceeds with
/// the following node, or interpretation finished with this flow.
#[derive(Clone, Copy, Debug, PartialEq, Eq, Structural)]
pub enum NodeExit {
    Proceed,
    Finished(Flow),
}

/// Steps left in the budget.
pub open spec fn fuel_of(plan: SimulationPlan, m: RunModel) -> nat {
    if m.steps <= plan.budget.maximum_trace_steps {
        (plan.budget.maximum_trace_steps - m.steps) as nat
    } else {
        0
    }
}

/// The smaller of the fuel and the steps left in the budget.
pub open spec fn clamped(plan: SimulationPlan, m: RunModel, fuel: nat) -> nat {
    if fuel_of(plan, m) < fuel {
        fuel_of(plan, m)
    } else {
        fuel
    }
}

/// The state with other ports.
pub open spec fn with_ports(m: RunModel, ports: PortsModel) -> RunModel {
    RunModel { ports, ..m }
}

/// Interpretation from `current` until a node equal to `stop`, the end of the
/// path, or a node that finishes it.
pub open spec fn run_from(
    plan: SimulationPlan,
    m: RunModel,
    current: Option<u32>,
    stop: Option<u32>,
    fuel: nat,
) -> (Result<Flow, AutomationSimulationError>, RunModel)
    decreases fuel, 0nat, 0nat,
{
    match current {
        None => (Ok(Flow::Completed), m),
        Some(id) => if stop == Some(id) {
            (Ok(Flow::Completed), m)
        } else {
            match stepped(plan.budget, plan.accepted_at, m) {
                None => (Err(AutomationSimulationError::BudgetExceeded), m),
                Some(m1) => if fuel == 0 {
                    (Err(AutomationSimulationError::BudgetExceeded), m1)
                } else {
                    match node_index(plan.nodes@, id) {
                        None => (Err(AutomationSimulationError::MissingNode(id)), m1),
                        Some(k) => run_node(plan, m1, id, k, stop, (fuel - 1) as nat),
                    }
                },
            }
        },
    }
}

/// Continues after a command, wait or group node.
pub open spec fn after_exit(
    plan: SimulationPlan,
    exit: (Result<NodeExit, AutomationSimulationError>, RunModel),
    next: Option<u32>,
    stop: Option<u32>,
    fuel: nat,
) -> (Result<Flow, AutomationSimulationError>, RunModel)
    decreases fuel, 1nat, 1nat,
{
    match exit.0 {
        Ok(NodeExit::Proceed) => run_from(plan, exit.1, next, stop, clamped(plan, exit.1, fuel)),
        Ok(NodeExit::Finished(f)) => (Ok(f), exit.1),
        Err(e) => (Err(e), exit.1),
    }
}

/// Interprets node `k`, whose id is `id`, after its step was taken.
pub open spec fn run_node(
    plan: SimulationPlan,
    m: RunModel,
    id: u32,
    k: int,
    stop: Option<u32>,
    fuel: nat,
) -> (Result<Flow, AutomationSimulationError>, RunModel)
    decreases fuel, 2nat, 0nat,
{
    let budget = plan.budget;
    match plan.nodes@[k].kind {
        AutomationPlanNodeKind::Complete => match traced(
            budget,
            m,
            Some(id),
            TraceDetail::Outcome { status: TraceStatus::Completed },
        ) {
            None => (Err(AutomationSimulationError::BudgetExceeded), m),
            Some(m2) => (Ok(Flow::Completed), m2),
        },
        AutomationPlanNodeKind::Delay { duration_ms, next } => match utc_add_millis(m.ports.now, duration_ms) {
            None => (Err(AutomationSimulationError::BudgetExceeded), m),
            Some(t) => {
                let m2 = with_ports(m, advanced(m.ports, t));
                match traced(budget, m2, Some(id), TraceDetail::DelayReady { duration_ms }) {
                    None => (Err(AutomationSimulationError::BudgetExceeded), m2),
                    Some(m3) => run_from(plan, m3, next, stop, fuel),
                }
            },
        },
        AutomationPlanNodeKind::Command { next, .. } => after_exit(plan, run_command(plan, m, id, k, 0, fuel), next, stop, fuel),
        AutomationPlanNodeKind::Wait { condition, timeout_ms, next, .. } => match utc_add_millis(m.ports.now, timeout_ms) {
            None => (Err(AutomationSimulationError::BudgetExceeded), m),
            Some(deadline) => {
                let (r, p2) = simulated_condition(condition, m.variables, m.ports);
                match r {
                    Err(e) => (Err(simulation_error_of(e)), with_ports(m, p2)),
                    Ok(satisfied) => after_exit(
                        plan,
                        run_wait(
                            plan,
                            with_ports(m, p2),
                            id,
                            k,
                            deadline,
                            satisfied,
                            (p2.changes.len() - p2.next_change) as nat,
                            fuel,
                        ),
                        next,
                        stop,
                        fuel,
                    ),
                }
            },
        },
        AutomationPlanNodeKind::SetVariable { name, value, next } => match model_expression(value, m.variables, m.ports) {
            Err(e) => (Err(simulation_error_of(e)), m),
            Ok(v) => {
                let m2 = RunModel { variables: assigned(m.variables, name, v), ..m };
                match traced(budget, m2, Some(id), TraceDetail::Variable { name, value: v }) {
                    None => (Err(AutomationSimulationError::BudgetExceeded), m2),
                    Some(m3) => run_from(plan, m3, next, stop, fuel),
                }
            },
        },
        AutomationPlanNodeKind::Branch { condition, then_node, else_node, join } => {
            let (r, p2) = simulated_condition(condition, m.variables, m.ports);
            match r {
                Err(e) => (Err(simulation_error_of(e)), with_ports(m, p2)),
                Ok(selected) => {
                    let m2 = with_ports(m, p2);
                    let arm = if selected { then_node } else { else_node };
                    match traced(budget, m2, Some(id), TraceDetail::Branch { then: selected }) {
                        None => (Err(AutomationSimulationError::BudgetExceeded), m2),
                        Some(m3) => run_from(plan, m3, if arm is Some { arm } else { join }, stop, fuel),
                    }
                },
            }
        },
        AutomationPlanNodeKind::Parallel { branches, join, .. } => after_exit(
            plan,
            run_group(plan, m, branches@, 0, join, false, fuel),
            join,
            stop,
            fuel,
        ),
        AutomationPlanNodeKind::Race { branches, join, .. } => after_exit(
            plan,
            run_group(plan, m, branches@, 0, join, true, fuel),
            join,
            stop,
            fuel,
        ),
        AutomationPlanNodeKind::Join { next } => run_from(plan, m, next, stop, fuel),
    }
}

/// Follows a failure policy: stop, or interpret from the continuation node
/// until the end of its path.
pub open spec fn follow_failure(
    plan: SimulationPlan,
    m: RunModel,
    policy: AutomationPlanFailurePolicy,
    next: Option<u32>,
    fuel: nat,
) -> (Result<NodeExit, AutomationSimulationError>, RunModel)
    decreases fuel, 0nat, 1nat,
{
    match failure_route_of(policy, next) {
        FailureRoute::Stop(f) => (Ok(NodeExit::Finished(f)), m),
        FailureRoute::ContinueAt(n) => {
            let (r, m2) = run_from(plan, m, Some(n), None, fuel);
            match r {
                Ok(f) => (Ok(NodeExit::Finished(f)), m2),
                Err(e) => (Err(e), m2),
            }
        },
    }
}

/// The state after one command attempt of node `id` gets its declared outcome
/// and emits its intent.
pub open spec fn attempted(plan: SimulationPlan, m: RunModel, id: u32, k: int, attempt: u16) -> RunModel {
    match plan.nodes@[k].kind {
        AutomationPlanNodeKind::Command { targets, payload, .. } => {
            let outcome = next_outcome_of(m.ports.outcomes, m.ports.next_outcome);
            let next_outcome = if m.ports.next_outcome < m.ports.outcomes.len() {
                m.ports.next_outcome + 1
            } else {
                m.ports.next_outcome
            };
            RunModel {
                ports: PortsModel { next_outcome, ..m.ports },
                intents: m.intents.push(
                    IntentModel {
                        node_id: id,
                        targets: targets@,
                        payload,
                        attempt,
                        at: m.ports.now,
                        outcome,
                        approval: plan.approval,
                    },
                ),
                ..m
            }
        },
        _ => m,
    }
}

/// Whether a failed attempt is retried: attempts remain and its error is one
/// the retry policy names.
pub open spec fn retryable(retry: AutomationRetryPolicy, attempt: u16, outcome: SimulationCommandOutcome) -> bool {
    attempt < retry.maximum_retries && match outcome.error {
        Some(e) => retry.retryable_command_errors@.contains(e),
        None => false,
    }
}

/// Attempts command node `k` from attempt `attempt` on: confirmed attempts
/// proceed; retryable failures retry after the backoff while attempts remain;
/// other failures follow the node's failure policy.
pub open spec fn run_command(
    plan: SimulationPlan,
    m: RunModel,
    id: u32,
    k: int,
    attempt: u16,
    fuel: nat,
) -> (Result<NodeExit, AutomationSimulationError>, RunModel)
    decreases fuel, 1nat, (match plan.nodes@[k].kind {
        AutomationPlanNodeKind::Command { retry, .. } => retry.maximum_retries - attempt,
        _ => 0int,
    }),
{
    match plan.nodes@[k].kind {
        AutomationPlanNodeKind::Command { retry, on_failure, next, .. } => {
            let outcome = next_outcome_of(m.ports.outcomes, m.ports.next_outcome);
            let m1 = attempted(plan, m, id, k, attempt);
            match traced(plan.budget, m1, Some(id), TraceDetail::Command { attempt, state: outcome.state }) {
                None => (Err(AutomationSimulationError::BudgetExceeded), m1),
                Some(m2) => if outcome.state == CommandState::Confirmed {
                    (Ok(NodeExit::Proceed), m2)
                } else if retryable(retry, attempt, outcome) {
                    match utc_add_millis(m2.ports.now, retry.backoff_ms) {
                        None => (Err(AutomationSimulationError::BudgetExceeded), m2),
                        Some(t) => run_command(
                            plan,
                            with_ports(m2, advanced(m2.ports, t)),
                            id,
                            k,
                            (attempt + 1) as u16,
                            fuel,
                        ),
                    }
                } else {
                    follow_failure(plan, m2, on_failure, next, fuel)
                },
            }
        },
        _ => (Ok(NodeExit::Proceed), m),
    }
}

/// Waits at node `k` until its condition holds or its deadline passes: each
/// state change due by the deadline (at most `polls` of them) re-evaluates the
/// condition; a timeout follows the node's timeout policy.
pub open spec fn run_wait(
    plan: SimulationPlan,
    m: RunModel,
    id: u32,
    k: int,
    deadline: i64,
    satisfied: bool,
    polls: nat,
    fuel: nat,
) -> (Result<NodeExit, AutomationSimulationError>, RunModel)
    decreases fuel, 1nat, polls,
{
    match plan.nodes@[k].kind {
        AutomationPlanNodeKind::Wait { condition, on_timeout, next, .. } => if satisfied {
            match traced(plan.budget, m, Some(id), TraceDetail::Condition { result: true }) {
                None => (Err(AutomationSimulationError::BudgetExceeded), m),
                Some(m2) => (Ok(NodeExit::Proceed), m2),
            }
        } else {
            match due_change(m.ports, deadline) {
                Some(at) if polls > 0 => {
                    let (r, p2) = simulated_condition(condition, m.variables, advanced(m.ports, at));
                    match r {
                        Err(e) => (Err(simulation_error_of(e)), with_ports(m, p2)),
                        Ok(s2) => run_wait(plan, with_ports(m, p2), id, k, deadline, s2, (polls - 1) as nat, fuel),
                    }
                },
                _ => {
                    let m2 = with_ports(m, advanced(m.ports, deadline));
                    match traced(plan.budget, m2, Some(id), TraceDetail::WaitTimeout) {
                        None => (Err(AutomationSimulationError::BudgetExceeded), m2),
                        Some(m3) => follow_failure(plan, m3, on_timeout, next, fuel),
                    }
                },
            }
        },
        _ => (Ok(NodeExit::Proceed), m),
    }
}

/// Runs the branches of a group from position `idx` on, each until the join: a
/// stopped run stops the group; a race is won by its first completed branch
/// and stops the run when no branch completes.
pub open spec fn run_group(
    plan: SimulationPlan,
    m: RunModel,
    branches: Seq<u32>,
    idx: int,
    join: Option<u32>,
    race: bool,
    fuel: nat,
) -> (Result<NodeExit, AutomationSimulationError>, RunModel)
    decreases fuel, 1nat, branches.len() - idx,
{
    if idx < 0 || idx >= branches.len() {
        if race {
            (Ok(NodeExit::Finished(Flow::StopRun)), m)
        } else {
            (Ok(NodeExit::Proceed), m)
        }
    } else {
        let (r, m2) = run_from(plan, m, Some(branches[idx]), join, fuel);
        match r {
            Err(e) => (Err(e), m2),
            Ok(Flow::StopRun) => (Ok(NodeExit::Finished(Flow::StopRun)), m2),
            Ok(Flow::Completed) if race => (Ok(NodeExit::Proceed), m2),
            Ok(_) => run_group(plan, m2, branches, idx + 1, join, race, clamped(plan, m2, fuel)),
        }
    }
}

/// Evaluates a condition against the run's variables over virtual time.
pub(crate) fn evaluate_in_run(run: &mut SimulationRun, condition: &ResolvedAutomationCondition) -> (r: Result<bool, AutomationSimulationError>)
    requires
        old(run).wf(),
    ensures
        final(run).wf(),
        final(run).identity == old(run).identity,
        ({
            let (v, p) = simulated_condition(*condition, old(run).model().variables, old(run).model().ports);
            &&& r == match v {
                Ok(b) => Ok::<bool, AutomationSimulationError>(b),
                Err(e) => Err(simulation_error_of(e)),
            }
            &&& final(run).model() == with_ports(old(run).model(), p)
        }),
        final(run).steps == old(run).steps,
        final(run).ports.next_change >= old(run).ports.next_change,
        final(run).ports.changes@ == old(run).ports.changes@,
{
    let ghost before = run.model();
    let r = simulate_condition(condition, &run.variables, &mut run.ports);
    assert(run.model().intents == before.intents);
    match r {
        Ok(b) => Ok(b),
        Err(e) => Err(map_evaluation_error(e)),
    }
}

fn names_error(codes: &Vec<CommandErrorCode>, code: CommandErrorCode) -> (b: bool)
    ensures
        b == codes@.contains(code),
{
    let mut i: usize = 0;
    while i < codes.len()
        invariant
            i <= codes@.len(),
            forall|j: int| 0 <= j < i ==> codes@[j] != code,
        decreases codes@.len() - i,
    {
        if codes[i] == code {
            assert(codes@[i as int] == code);
            return true;
        }
        i = i + 1;
    }
    false
}

/// Follows a failure policy during interpretation.
fn follow_failure_policy(
    plan: &SimulationPlan,
    run: &mut SimulationRun,
    policy: AutomationPlanFailurePolicy,
    next: Option<u32>,
) -> (r: Result<NodeExit, AutomationSimulationError>)
    requires
        old(run).wf(),
        old(run).steps <= plan.budget.maximum_trace_steps,
    ensures
        r == follow_failure(*plan, old(run).model(), policy, next, fuel_of(*plan, old(run).model())).0,
        r is Ok ==> final(run).model() == follow_failure(*plan, old(run).model(), policy, next, fuel_of(*plan, old(run).model())).1,
        r is Ok ==> final(run).steps <= plan.budget.maximum_trace_steps,
        final(run).wf(),
        final(run).identity == old(run).identity,
        old(run).steps <= final(run).steps,
    decreases fuel_of(*plan, old(run).model()), 0nat, 1nat,
{
    match failure_route(policy, next) {
        FailureRoute::Stop(f) => Ok(NodeExit::Finished(f)),
        FailureRoute::ContinueAt(n) => match execute_from(plan, run, Some(n), None) {
            Ok(f) => Ok(NodeExit::Finished(f)),
            Err(e) => Err(e),
        },
    }
}

/// Attempts command node `k` until it is confirmed, its retries are spent, or
/// its failure policy finishes interpretation.
fn execute_command(plan: &SimulationPlan, run: &mut SimulationRun, id: u32, k: usize) -> (r: Result<
    NodeExit,
    AutomationSimulationError,
>)
    requires
        old(run).wf(),
        old(run).steps <= plan.budget.maximum_trace_steps,
        k < plan.nodes@.len(),
    ensures
        r == run_command(*plan, old(run).model(), id, k as int, 0, fuel_of(*plan, old(run).model())).0,
        r is Ok ==> final(run).model() == run_command(*plan, old(run).model(), id, k as int, 0, fuel_of(*plan, old(run).model())).1,
        r is Ok ==> final(run).steps <= plan.budget.maximum_trace_steps,
        final(run).wf(),
        final(run).identity == old(run).identity,
        old(run).steps <= final(run).steps,
    decreases fuel_of(*plan, old(run).model()), 1nat, 0nat,
{
    let node = &plan.nodes[k];
    match &node.kind {
        AutomationPlanNodeKind::Command { targets, payload, retry, on_failure, next } => {
            let ghost f = fuel_of(*plan, run.model());
            let ghost goal = run_command(*plan, run.model(), id, k as int, 0, f);
            let mut attempt: u16 = 0;
            loop
                invariant
                    run.wf(),
                    run.identity == old(run).identity,
                    run.steps == old(run).steps,
                    old(run).steps <= plan.budget.maximum_trace_steps,
                    k < plan.nodes@.len(),
                    plan.nodes@[k as int] == *node,
                    node.kind == (AutomationPlanNodeKind::Command {
                        targets: *targets,
                        payload: *payload,
                        retry: *retry,
                        on_failure: *on_failure,
                        next: *next,
                    }),
                    attempt <= retry.maximum_retries,
                    f == fuel_of(*plan, run.model()),
                    goal == run_command(*plan, run.model(), id, k as int, attempt, f),
                    goal == run_command(*plan, old(run).model(), id, k as int, 0, fuel_of(*plan, old(run).model())),
                decreases retry.maximum_retries - attempt,
            {
                let ghost m = run.model();
                let outcome = run.ports.command_outcome();
                let intent = SimulatedCommandIntent {
                    node_id: id,
                    targets: copy_targets(targets),
                    payload: *payload,
                    attempt,
                    at: run.ports.now,
                    outcome,
                    approval: plan.approval,
                };
                run.intents.push(intent);
                proof {
                    assert(run.model().intents =~= m.intents.push(intent_model(intent)));
                    assert(run.model() == attempted(*plan, m, id, k as int, attempt));
                }
                match record_trace(plan, run, Some(id), TraceDetail::Command { attempt, state: outcome.state }) {
                    Ok(()) => {},
                    Err(e) => {
                        return Err(e);
                    },
                }
                if outcome.state == CommandState::Confirmed {
                    return Ok(NodeExit::Proceed);
                }
                let named = match outcome.error {
                    Some(e) => names_error(&retry.retryable_command_errors, e),
                    None => false,
                };
                if attempt < retry.maximum_retries && named {
                    let t = match add_millis(run.ports.now, retry.backoff_ms) {
                        Some(t) => t,
                        None => {
                            return Err(AutomationSimulationError::BudgetExceeded);
                        },
                    };
                    let ghost m2 = run.model();
                    advance_ports(&mut run.ports, t);
                    assert(run.model() == with_ports(m2, advanced(m2.ports, t)));
                    attempt = attempt + 1;
                } else {
                    return follow_failure_policy(plan, run, *on_failure, *next);
                }
            }
        },
        _ => Ok(NodeExit::Proceed),
    }
}

/// Waits at node `k` until its condition holds or its deadline passes.
fn execute_wait(
    plan: &SimulationPlan,
    run: &mut SimulationRun,
    id: u32,
    k: usize,
    deadline: i64,
    initially_satisfied: bool,
) -> (r: Result<NodeExit, AutomationSimulationError>)
    requires
        old(run).wf(),
        old(run).steps <= plan.budget.maximum_trace_steps,
        k < plan.nodes@.len(),
    ensures
        r == run_wait(
            *plan,
            old(run).model(),
            id,
            k as int,
            deadline,
            initially_satisfied,
            (old(run).ports.changes@.len() - old(run).ports.next_change) as nat,
            fuel_of(*plan, old(run).model()),
        ).0,
        r is Ok ==> final(run).model() == run_wait(
            *plan,
            old(run).model(),
            id,
            k as int,
            deadline,
            initially_satisfied,
            (old(run).ports.changes@.len() - old(run).ports.next_change) as nat,
            fuel_of(*plan, old(run).model()),
        ).1,
        r is Ok ==> final(run).steps <= plan.budget.maximum_trace_steps,
        final(run).wf(),
        final(run).identity == old(run).identity,
        old(run).steps <= final(run).steps,
    decreases fuel_of(*plan, old(run).model()), 1nat, 0nat,
{
    let node = &plan.nodes[k];
    match &node.kind {
        AutomationPlanNodeKind::Wait { condition, timeout_ms, on_timeout, next } => {
            let ghost f = fuel_of(*plan, run.model());
            let ghost mut polls: nat = (run.ports.changes@.len() - run.ports.next_change) as nat;
            let ghost goal = run_wait(*plan, run.model(), id, k as int, deadline, initially_satisfied, polls, f);
            let mut satisfied = initially_satisfied;
            loop
                invariant
                    run.wf(),
                    run.identity == old(run).identity,
                    run.steps == old(run).steps,
                    old(run).steps <= plan.budget.maximum_trace_steps,
                    k < plan.nodes@.len(),
                    plan.nodes@[k as int] == *node,
                    node.kind == (AutomationPlanNodeKind::Wait {
                        condition: *condition,
                        timeout_ms: *timeout_ms,
                        on_timeout: *on_timeout,
                        next: *next,
                    }),
                    f == fuel_of(*plan, run.model()),
                    polls >= run.ports.changes@.len() - run.ports.next_change,
                    goal == run_wait(*plan, run.model(), id, k as int, deadline, satisfied, polls, f),
                    goal == run_wait(
                        *plan,
                        old(run).model(),
                        id,
                        k as int,
                        deadline,
                        initially_satisfied,
                        (old(run).ports.changes@.len() - old(run).ports.next_change) as nat,
                        fuel_of(*plan, old(run).model()),
                    ),
                decreases run.ports.changes@.len() - run.ports.next_change,
            {
                if satisfied {
                    return match record_trace(plan, run, Some(id), TraceDetail::Condition { result: true }) {
                        Ok(()) => Ok(NodeExit::Proceed),
                        Err(e) => Err(e),
                    };
                }
                match run.ports.next_change_through(deadline) {
                    Some(at) => {
                        let ghost m = run.model();
                        advance_ports(&mut run.ports, at);
                        assert(run.model() == with_ports(m, advanced(m.ports, at)));
                        satisfied = match evaluate_in_run(run, condition) {
                            Ok(b) => b,
                            Err(e) => {
                                return Err(e);
                            },
                        };
                        proof {
                            polls = (polls - 1) as nat;
                        }
                    },
                    None => {
                        let ghost m = run.model();
                        advance_ports(&mut run.ports, deadline);
                        assert(run.model() == with_ports(m, advanced(m.ports, deadline)));
                        match record_trace(plan, run, Some(id), TraceDetail::WaitTimeout) {
                            Ok(()) => {},
                            Err(e) => {
                                return Err(e);
                            },
                        }
                        return follow_failure_policy(plan, run, *on_timeout, *next);
                    },
                }
            }
        },
        _ => Ok(NodeExit::Proceed),
    }
}

/// Runs the branches of a group, each until the join.
fn execute_group(
    plan: &SimulationPlan,
    run: &mut SimulationRun,
    branches: &Vec<u32>,
    join: Option<u32>,
    race: bool,
) -> (r: Result<NodeExit, AutomationSimulationError>)
    requires
        old(run).wf(),
        old(run).steps <= plan.budget.maximum_trace_steps,
    ensures
        r == run_group(*plan, old(run).model(), branches@, 0, join, race, fuel_of(*plan, old(run).model())).0,
        r is Ok ==> final(run).model() == run_group(*plan, old(run).model(), branches@, 0, join, race, fuel_of(*plan, old(run).model())).1,
        r is Ok ==> final(run).steps <= plan.budget.maximum_trace_steps,
        final(run).wf(),
        final(run).identity == old(run).identity,
        old(run).steps <= final(run).steps,
    decreases fuel_of(*plan, old(run).model()), 1nat, 0nat,
{
    let ghost goal = run_group(*plan, run.model(), branches@, 0, join, race, fuel_of(*plan, run.model()));
    let mut idx: usize = 0;
    loop
        invariant
            run.wf(),
            run.identity == old(run).identity,
            old(run).steps <= run.steps <= plan.budget.maximum_trace_steps,
            idx <= branches@.len(),
            goal == run_group(*plan, run.model(), branches@, idx as int, join, race, fuel_of(*plan, run.model())),
            goal == run_group(*plan, old(run).model(), branches@, 0, join, race, fuel_of(*plan, old(run).model())),
        decreases branches@.len() - idx,
    {
        if idx >= branches.len() {
            return if race {
                Ok(NodeExit::Finished(Flow::StopRun))
            } else {
                Ok(NodeExit::Proceed)
            };
        }
        let r = execute_from(plan, run, Some(branches[idx]), join);
        match r {
            Err(e) => {
                return Err(e);
            },
            Ok(Flow::StopRun) => {
                return Ok(NodeExit::Finished(Flow::StopRun));
            },
            Ok(Flow::Completed) => {
                if race {
                    return Ok(NodeExit::Proceed);
                }
            },
            Ok(Flow::StopBranch) => {},
        }
        idx = idx + 1;
    }
}

/// Interprets the plan from `start` until `stop`, the end of the path, or a
/// node that finishes interpretation.
#[verifier::rlimit(60)]
pub fn execute_from(plan: &SimulationPlan, run: &mut SimulationRun, start: Option<u32>, stop: Option<u32>) -> (r: Result<
    Flow,
    AutomationSimulationError,
>)
    requires
        old(run).wf(),
        old(run).steps <= plan.budget.maximum_trace_steps,
    ensures
        r == run_from(*plan, old(run).model(), start, stop, fuel_of(*plan, old(run).model())).0,
        r is Ok ==> final(run).model() == run_from(*plan, old(run).model(), start, stop, fuel_of(*plan, old(run).model())).1,
        r is Ok ==> final(run).steps <= plan.budget.maximum_trace_steps,
        final(run).wf(),
        final(run).identity == old(run).identity,
        old(run).steps <= final(run).steps,
    decreases fuel_of(*plan, old(run).model()), 0nat, 0nat,
{
    let ghost goal = run_from(*plan, run.model(), start, stop, fuel_of(*plan, run.model()));
    let mut current = start;
    loop
        invariant
            run.wf(),
            run.identity == old(run).identity,
            old(run).steps <= run.steps <= plan.budget.maximum_trace_steps,
            current != start ==> old(run).steps < run.steps,
            run.steps == old(run).steps ==> current == start,
            goal == run_from(*plan, run.model(), current, stop, fuel_of(*plan, run.model())),
            goal == run_from(*plan, old(run).model(), start, stop, fuel_of(*plan, old(run).model())),
        decreases fuel_of(*plan, run.model()),
    {
        let id = match current {
            None => {
                return Ok(Flow::Completed);
            },
            Some(id) => id,
        };
        match stop {
            Some(s) => if s == id {
                return Ok(Flow::Completed);
            },
            None => {},
        }
        let ghost m0 = run.model();
        match take_step(plan, run) {
            Ok(()) => {},
            Err(e) => {
                return Err(e);
            },
        }
        let ghost m1 = run.model();
        let ghost f = fuel_of(*plan, m1);
        assert(fuel_of(*plan, m0) == f + 1);
        let k = match find_node(&plan.nodes, id) {
            Some(k) => k,
            None => {
                return Err(AutomationSimulationError::MissingNode(id));
            },
        };
        assert(goal == run_node(*plan, m1, id, k as int, stop, f));
        let node = &plan.nodes[k];
        match &node.kind {
            AutomationPlanNodeKind::Complete => {
                return match record_trace(plan, run, Some(id), TraceDetail::Outcome { status: TraceStatus::Completed }) {
                    Ok(()) => Ok(Flow::Completed),
                    Err(e) => Err(e),
                };
            },
            AutomationPlanNodeKind::Delay { duration_ms, next } => {
                let t = match add_millis(run.ports.now, *duration_ms) {
                    Some(t) => t,
                    None => {
                        return Err(AutomationSimulationError::BudgetExceeded);
                    },
                };
                advance_ports(&mut run.ports, t);
                assert(run.model() == with_ports(m1, advanced(m1.ports, t)));
                match record_trace(plan, run, Some(id), TraceDetail::DelayReady { duration_ms: *duration_ms }) {
                    Ok(()) => {},
                    Err(e) => {
                        return Err(e);
                    },
                }
                current = *next;
            },
            AutomationPlanNodeKind::Command { next, .. } => {
                let exit = execute_command(plan, run, id, k);
                match exit {
                    Err(e) => {
                        return Err(e);
                    },
                    Ok(NodeExit::Finished(fl)) => {
                        return Ok(fl);
                    },
                    Ok(NodeExit::Proceed) => {
                        current = *next;
                    },
                }
            },
            AutomationPlanNodeKind::Wait { condition, timeout_ms, next, .. } => {
                let deadline = match add_millis(run.ports.now, *timeout_ms) {
                    Some(d) => d,
                    None => {
                        return Err(AutomationSimulationError::BudgetExceeded);
                    },
                };
                let satisfied = match evaluate_in_run(run, condition) {
                    Ok(b) => b,
                    Err(e) => {
                        return Err(e);
                    },
                };
                let exit = execute_wait(plan, run, id, k, deadline, satisfied);
                match exit {
                    Err(e) => {
                        return Err(e);
                    },
                    Ok(NodeExit::Finished(fl)) => {
                        return Ok(fl);
                    },
                    Ok(NodeExit::Proceed) => {
                        current = *next;
                    },
                }
            },
            AutomationPlanNodeKind::SetVariable { name, value, next } => {
                proof {
                    lemma_expression_on_model(*value, run.variables@, run.ports);
                }
                let v = match evaluate_automation_expression(value, &run.variables, &run.ports) {
                    Ok(v) => v,
                    Err(e) => {
                        return Err(map_evaluation_error(e));
                    },
                };
                let ghost before_assign = run.model();
                assign_variable(&mut run.variables, name, copy_value(&v));
                assert(run.model().intents == before_assign.intents);
                match record_trace(plan, run, Some(id), TraceDetail::Variable { name: name.clone(), value: v }) {
                    Ok(()) => {},
                    Err(e) => {
                        return Err(e);
                    },
                }
                current = *next;
            },
            AutomationPlanNodeKind::Branch { condition, then_node, else_node, join } => {
                let selected = match evaluate_in_run(run, condition) {
                    Ok(b) => b,
                    Err(e) => {
                        return Err(e);
                    },
                };
                match record_trace(plan, run, Some(id), TraceDetail::Branch { then: selected }) {
                    Ok(()) => {},
                    Err(e) => {
                        return Err(e);
                    },
                }
                let arm = if selected {
                    *then_node
                } else {
                    *else_node
                };
                current = if arm.is_some() {
                    arm
                } else {
                    *join
                };
            },
            AutomationPlanNodeKind::Parallel { branches, join, .. } => {
                let exit = execute_group(plan, run, branches, *join, false);
                match exit {
                    Err(e) => {
                        return Err(e);
                    },
                    Ok(NodeExit::Finished(fl)) => {
                        return Ok(fl);
                    },
                    Ok(NodeExit::Proceed) => {
                        current = *join;
                    },
                }
            },
            AutomationPlanNodeKind::Race { branches, join, .. } => {
                let exit = execute_group(plan, run, branches, *join, true);
                match exit {
                    Err(e) => {
                        return Err(e);
                    },
                    Ok(NodeExit::Finished(fl)) => {
                        return Ok(fl);
                    },
                    Ok(NodeExit::Proceed) => {
                        current = *join;
                    },
                }
            },
            AutomationPlanNodeKind::Join { next } => {
                current = *next;
            },
        }
    }
}

} // verus!
