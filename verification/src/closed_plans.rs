//! Closed plans, whose nodes continue only with earlier nodes, never make
//! interpretation meet a missing node.

use vstd::prelude::*;

use crate::action_compiler::{below, kind_refs_below, policy_below};
use crate::automation_runtime::{AutomationPlanFailurePolicy, CommandState};
use crate::automation_simulator::{failure_route_of, AutomationSimulationError, FailureRoute, Flow};
use crate::simulation::{advanced, due_change, model_expression, next_outcome_of, simulated_condition};
use crate::simulation_run::{
    after_exit, assigned, attempted, clamped, lemma_node_index, node_index, retryable, run_command, run_from,
    run_group, run_node, run_wait, stepped, traced, with_ports, follow_failure, AutomationPlanNode,
    AutomationPlanNodeKind, NodeExit, RunModel, SimulationPlan, TraceDetail,
};
use crate::time::utc_add_millis;
use crate::automation_evaluator::DecimalComparison;
use crate::plan_compiler::plan_is_closed;
use crate::simulator::{
    initial_run, interpreted, interpreted_plan, simulation_of, trigger_facts, AutomationSimulationFixture,
};
use crate::automation_simulator::{simulation_error_of, trigger_decision};

verus! {

/// Whether each node's id is its position and each node continues only with
/// nodes before it, as compiled plans are.
pub open spec fn closed_nodes(nodes: Seq<AutomationPlanNode>) -> bool {
    forall|i: int| 0 <= i < nodes.len() ==> #[trigger] nodes[i].id == i && kind_refs_below(nodes[i].kind, i)
}

/// Whether a result is not the failure of a missing node.
pub open spec fn no_missing_node<T>(r: Result<T, AutomationSimulationError>) -> bool {
    !(r matches Err(AutomationSimulationError::MissingNode(_)))
}

proof fn lemma_closed_index(nodes: Seq<AutomationPlanNode>, id: u32)
    requires
        closed_nodes(nodes),
        id < nodes.len(),
    ensures
        node_index(nodes, id) == Some(id as int),
{
    lemma_node_index(nodes, id);
    assert(nodes[id as int].id == id);
    match node_index(nodes, id) {
        Some(i) => {
            assert(nodes[i].id == i);
        },
        None => {},
    }
}

/// Interpreting a closed plan from one of its nodes never meets a missing node.
pub proof fn lemma_closed_plan_has_no_missing_node(
    plan: SimulationPlan,
    m: RunModel,
    current: Option<u32>,
    stop: Option<u32>,
    fuel: nat,
)
    requires
        closed_nodes(plan.nodes@),
        below(current, plan.nodes@.len() as int),
    ensures
        no_missing_node(run_from(plan, m, current, stop, fuel).0),
    decreases fuel, 0nat, 0nat,
{
    match current {
        None => {},
        Some(id) => if stop == Some(id) {
        } else {
            match stepped(plan.budget, plan.accepted_at, m) {
                None => {},
                Some(m1) => if fuel == 0 {
                } else {
                    lemma_closed_index(plan.nodes@, id);
                    lemma_node_no_missing(plan, m1, id, id as int, stop, (fuel - 1) as nat);
                },
            }
        },
    }
}

proof fn lemma_after_exit_no_missing(
    plan: SimulationPlan,
    exit: (Result<NodeExit, AutomationSimulationError>, RunModel),
    next: Option<u32>,
    stop: Option<u32>,
    fuel: nat,
)
    requires
        closed_nodes(plan.nodes@),
        below(next, plan.nodes@.len() as int),
        no_missing_node(exit.0),
    ensures
        no_missing_node(after_exit(plan, exit, next, stop, fuel).0),
    decreases fuel, 1nat, 1nat,
{
    match exit.0 {
        Ok(NodeExit::Proceed) => {
            lemma_closed_plan_has_no_missing_node(plan, exit.1, next, stop, clamped(plan, exit.1, fuel));
        },
        _ => {},
    }
}

proof fn lemma_failure_no_missing(
    plan: SimulationPlan,
    m: RunModel,
    policy: AutomationPlanFailurePolicy,
    next: Option<u32>,
    fuel: nat,
)
    requires
        closed_nodes(plan.nodes@),
        below(next, plan.nodes@.len() as int),
        policy_below(policy, plan.nodes@.len() as int),
    ensures
        no_missing_node(follow_failure(plan, m, policy, next, fuel).0),
    decreases fuel, 0nat, 1nat,
{
    match failure_route_of(policy, next) {
        FailureRoute::Stop(_) => {},
        FailureRoute::ContinueAt(n) => {
            lemma_closed_plan_has_no_missing_node(plan, m, Some(n), None, fuel);
        },
    }
}

proof fn lemma_command_no_missing(plan: SimulationPlan, m: RunModel, id: u32, k: int, attempt: u16, fuel: nat)
    requires
        closed_nodes(plan.nodes@),
        0 <= k < plan.nodes@.len(),
    ensures
        no_missing_node(run_command(plan, m, id, k, attempt, fuel).0),
    decreases fuel, 1nat, (match plan.nodes@[k].kind {
        AutomationPlanNodeKind::Command { retry, .. } => retry.maximum_retries - attempt,
        _ => 0int,
    }),
{
    assert(plan.nodes@[k].id == k && kind_refs_below(plan.nodes@[k].kind, k));
    match plan.nodes@[k].kind {
        AutomationPlanNodeKind::Command { retry, on_failure, next, .. } => {
            let outcome = next_outcome_of(m.ports.outcomes, m.ports.next_outcome);
            let m1 = attempted(plan, m, id, k, attempt);
            match traced(plan.budget, m1, Some(id), TraceDetail::Command { attempt, state: outcome.state }) {
                None => {},
                Some(m2) => if outcome.state == CommandState::Confirmed {
                } else if retryable(retry, attempt, outcome) {
                    match utc_add_millis(m2.ports.now, retry.backoff_ms) {
                        None => {},
                        Some(t) => {
                            lemma_command_no_missing(
                                plan,
                                with_ports(m2, advanced(m2.ports, t)),
                                id,
                                k,
                                (attempt + 1) as u16,
                                fuel,
                            );
                        },
                    }
                } else {
                    lemma_failure_no_missing(plan, m2, on_failure, next, fuel);
                },
            }
        },
        _ => {},
    }
}

proof fn lemma_wait_no_missing(
    plan: SimulationPlan,
    m: RunModel,
    id: u32,
    k: int,
    deadline: i64,
    satisfied: bool,
    polls: nat,
    fuel: nat,
)
    requires
        closed_nodes(plan.nodes@),
        0 <= k < plan.nodes@.len(),
    ensures
        no_missing_node(run_wait(plan, m, id, k, deadline, satisfied, polls, fuel).0),
    decreases fuel, 1nat, polls,
{
    assert(plan.nodes@[k].id == k && kind_refs_below(plan.nodes@[k].kind, k));
    match plan.nodes@[k].kind {
        AutomationPlanNodeKind::Wait { condition, on_timeout, next, .. } => if satisfied {
        } else {
            match due_change(m.ports, deadline) {
                Some(at) if polls > 0 => {
                    let (r, p2) = simulated_condition(condition, m.variables, advanced(m.ports, at));
                    match r {
                        Err(_) => {},
                        Ok(s2) => {
                            lemma_wait_no_missing(plan, with_ports(m, p2), id, k, deadline, s2, (polls - 1) as nat, fuel);
                        },
                    }
                },
                _ => {
                    let m2 = with_ports(m, advanced(m.ports, deadline));
                    match traced(plan.budget, m2, Some(id), TraceDetail::WaitTimeout) {
                        None => {},
                        Some(m3) => {
                            lemma_failure_no_missing(plan, m3, on_timeout, next, fuel);
                        },
                    }
                },
            }
        },
        _ => {},
    }
}

proof fn lemma_group_no_missing(
    plan: SimulationPlan,
    m: RunModel,
    branches: Seq<u32>,
    idx: int,
    join: Option<u32>,
    race: bool,
    fuel: nat,
)
    requires
        closed_nodes(plan.nodes@),
        below(join, plan.nodes@.len() as int),
        forall|b: int| 0 <= b < branches.len() ==> #[trigger] branches[b] < plan.nodes@.len(),
    ensures
        no_missing_node(run_group(plan, m, branches, idx, join, race, fuel).0),
    decreases fuel, 1nat, branches.len() - idx,
{
    if idx < 0 || idx >= branches.len() {
    } else {
        let (r, m2) = run_from(plan, m, Some(branches[idx]), join, fuel);
        lemma_closed_plan_has_no_missing_node(plan, m, Some(branches[idx]), join, fuel);
        match r {
            Err(_) => {},
            Ok(Flow::StopRun) => {},
            Ok(Flow::Completed) if race => {},
            Ok(_) => {
                lemma_group_no_missing(plan, m2, branches, idx + 1, join, race, clamped(plan, m2, fuel));
            },
        }
    }
}

proof fn lemma_node_no_missing(plan: SimulationPlan, m: RunModel, id: u32, k: int, stop: Option<u32>, fuel: nat)
    requires
        closed_nodes(plan.nodes@),
        0 <= k < plan.nodes@.len(),
    ensures
        no_missing_node(run_node(plan, m, id, k, stop, fuel).0),
    decreases fuel, 2nat, 0nat,
{
    let len = plan.nodes@.len() as int;
    assert(plan.nodes@[k].id == k && kind_refs_below(plan.nodes@[k].kind, k));
    let budget = plan.budget;
    match plan.nodes@[k].kind {
        AutomationPlanNodeKind::Complete => {},
        AutomationPlanNodeKind::Delay { duration_ms, next } => match utc_add_millis(m.ports.now, duration_ms) {
            None => {},
            Some(t) => {
                let m2 = with_ports(m, advanced(m.ports, t));
                match traced(budget, m2, Some(id), TraceDetail::DelayReady { duration_ms }) {
                    None => {},
                    Some(m3) => {
                        lemma_closed_plan_has_no_missing_node(plan, m3, next, stop, fuel);
                    },
                }
            },
        },
        AutomationPlanNodeKind::Command { next, .. } => {
            lemma_command_no_missing(plan, m, id, k, 0, fuel);
            lemma_after_exit_no_missing(plan, run_command(plan, m, id, k, 0, fuel), next, stop, fuel);
        },
        AutomationPlanNodeKind::Wait { condition, timeout_ms, next, .. } => match utc_add_millis(m.ports.now, timeout_ms) {
            None => {},
            Some(deadline) => {
                let (r, p2) = simulated_condition(condition, m.variables, m.ports);
                match r {
                    Err(_) => {},
                    Ok(satisfied) => {
                        let polls = (p2.changes.len() - p2.next_change) as nat;
                        lemma_wait_no_missing(plan, with_ports(m, p2), id, k, deadline, satisfied, polls, fuel);
                        lemma_after_exit_no_missing(
                            plan,
                            run_wait(plan, with_ports(m, p2), id, k, deadline, satisfied, polls, fuel),
                            next,
                            stop,
                            fuel,
                        );
                    },
                }
            },
        },
        AutomationPlanNodeKind::SetVariable { name, value, next } => match model_expression(value, m.variables, m.ports) {
            Err(_) => {},
            Ok(v) => {
                let m2 = RunModel { variables: assigned(m.variables, name, v), ..m };
                match traced(budget, m2, Some(id), TraceDetail::Variable { name, value: v }) {
                    None => {},
                    Some(m3) => {
                        lemma_closed_plan_has_no_missing_node(plan, m3, next, stop, fuel);
                    },
                }
            },
        },
        AutomationPlanNodeKind::Branch { condition, then_node, else_node, join } => {
            let (r, p2) = simulated_condition(condition, m.variables, m.ports);
            match r {
                Err(_) => {},
                Ok(selected) => {
                    let m2 = with_ports(m, p2);
                    let arm = if selected { then_node } else { else_node };
                    match traced(budget, m2, Some(id), TraceDetail::Branch { then: selected }) {
                        None => {},
                        Some(m3) => {
                            lemma_closed_plan_has_no_missing_node(plan, m3, if arm is Some { arm } else { join }, stop, fuel);
                        },
                    }
                },
            }
        },
        AutomationPlanNodeKind::Parallel { branches, join, .. } => {
            assert forall|b: int| 0 <= b < branches@.len() implies #[trigger] branches@[b] < len by {
                assert(branches@[b] < k);
            }
            lemma_group_no_missing(plan, m, branches@, 0, join, false, fuel);
            lemma_after_exit_no_missing(plan, run_group(plan, m, branches@, 0, join, false, fuel), join, stop, fuel);
        },
        AutomationPlanNodeKind::Race { branches, join, .. } => {
            assert forall|b: int| 0 <= b < branches@.len() implies #[trigger] branches@[b] < len by {
                assert(branches@[b] < k);
            }
            lemma_group_no_missing(plan, m, branches@, 0, join, true, fuel);
            lemma_after_exit_no_missing(plan, run_group(plan, m, branches@, 0, join, true, fuel), join, stop, fuel);
        },
        AutomationPlanNodeKind::Join { next } => {
            lemma_closed_plan_has_no_missing_node(plan, m, next, stop, fuel);
        },
    }
}


/// A simulation of a closed plan, such as a compiled one, never fails for a
/// missing node.
pub proof fn lemma_closed_simulation_has_no_missing_node(
    fixture: AutomationSimulationFixture,
    decimal_orders: Seq<DecimalComparison>,
)
    requires
        plan_is_closed(fixture.plan),
    ensures
        no_missing_node(simulation_of(fixture, decimal_orders)),
{
    let plan = interpreted_plan(fixture);
    assert(closed_nodes(plan.nodes@));
    let m0 = initial_run(fixture, decimal_orders);
    assert forall|m: RunModel| #[trigger] no_missing_node(interpreted(fixture, m)) by {
        lemma_closed_plan_has_no_missing_node(plan, m, Some(fixture.plan.entry), None, crate::simulation_run::fuel_of(plan, m));
    }
    match trigger_decision(fixture.plan.run_mode, fixture.plan.self_trigger, fixture.plan.automation_version, trigger_facts(fixture)) {
        Some(_) => {},
        None => match traced(
            fixture.plan.budget,
            m0,
            None,
            TraceDetail::Trigger { explicit_catch_up: fixture.trigger.explicit_catch_up },
        ) {
            None => {},
            Some(m1) => match fixture.plan.condition {
                None => {
                    assert(no_missing_node(interpreted(fixture, m1)));
                },
                Some(c) => {
                    let (v, p) = simulated_condition(c, m1.variables, m1.ports);
                    match v {
                        Err(e) => {
                            assert(!(simulation_error_of(e) is MissingNode));
                        },
                        Ok(accepted) => match traced(
                            fixture.plan.budget,
                            with_ports(m1, p),
                            None,
                            TraceDetail::Condition { result: accepted },
                        ) {
                            None => {},
                            Some(m2) => {
                                assert(no_missing_node(interpreted(fixture, m2)));
                            },
                        },
                    }
                },
            },
        },
    }
}

} // verus!
