//! The side-effect-free simulator: one immutable fixture is accepted or
//! suppressed by its synthetic trigger, then interpreted over virtual time.

use vstd::prelude::*;

use crate::automation_compiler::{
    cron_expression_parses, cron_parses, known_timezone, timezone_is_known, AutomationApprovalRequirement,
    AutomationSafetyProfile, AutomationSafetyRequirement, AutomationSchedule,
};
use crate::automation_evaluator::{copy_value, AutomationValue, DecimalComparison, ResolvedAutomationCondition};
use crate::automation_events::{
    any_exact_target, contains_state, exact_target, AutomationSelfTriggerPolicy, ResolvedAutomationTarget,
    ResolvedAutomationTrigger,
};
use crate::automation_runtime::{AutomationRunMode, CommandState};
use crate::automation_simulator::{
    accept_trigger, rejection_status, simulation_error_of, trigger_decision, AutomationExecutionBudget,
    AutomationSimulationError, AutomationSimulationStatus, AutomationSimulator, Flow, SimulationTriggerFacts,
    TriggerRejection,
};
use crate::ports::str_eq;
use crate::simulation::{
    sorted_changes, simulated_condition, PortsModel, SimulationCommandOutcome, SimulationObservationKey,
    SimulationStateChange, VirtualSimulationPorts,
};
use crate::time::UTC_MAX_MILLIS;
use crate::simulation_run::{
    assign_variable, assigned, evaluate_in_run, execute_from, fuel_of, intent_model, record_trace, run_from,
    trace_identified, trace_numbered, traced, with_ports, TraceIdentity, AutomationPlanNode, RunModel, SimulatedCommandIntent, SimulationPlan, SimulationRun,
    SimulationTraceStep, SuppressionReason, TraceDetail, TraceStatus,
};

verus! {

/// A synthetic trigger.
#[derive(Debug)]
pub enum SimulationTriggerKind {
    /// A compiled schedule produced an occurrence.
    Schedule,
    /// One normalized observation field changed.
    ObservationChanged { key: SimulationObservationKey },
    /// One normalized transient device event occurred.
    DeviceEvent { target: ResolvedAutomationTarget, event: String },
    /// One governed command reached a selected outcome.
    CommandOutcome { target: ResolvedAutomationTarget, state: CommandState },
    /// The user explicitly requested a new run for a missed occurrence.
    ExplicitCatchUp,
}

/// A synthetic trigger and the run-mode context it arrives in.
#[derive(Debug)]
pub struct SimulationTriggerContext {
    pub kind: SimulationTriggerKind,
    /// Expected or source occurrence instant.
    pub occurred_at: i64,
    /// Instant at which the simulation accepts the occurrence.
    pub accepted_at: i64,
    /// End of the normal acceptance window.
    pub window_ends_at: i64,
    /// Explicit user-requested catch-up creates a new run when true.
    pub explicit_catch_up: bool,
    /// Active runs of this exact version before this trigger.
    pub active_runs: u16,
    /// Already queued triggers before this trigger.
    pub queued_triggers: u32,
    /// Version that caused the trigger, when automation-generated.
    pub caused_by_version: Option<u32>,
    /// Whether the trigger belongs to the current correlation chain.
    pub same_correlation: bool,
}

/// A normalized execution plan.
#[derive(Debug)]
pub struct AutomationExecutionPlan {
    pub automation_id: u64,
    /// Event cursor of the registry snapshot the plan was compiled against.
    pub registry_revision: u64,
    pub entry: u32,
    pub nodes: Vec<AutomationPlanNode>,
    pub triggers: Vec<ResolvedAutomationTrigger>,
    pub condition: Option<ResolvedAutomationCondition>,
    /// Declared variables with their initial values, one per name.
    pub variables: Vec<(String, Option<AutomationValue>)>,
    pub run_mode: AutomationRunMode,
    pub self_trigger: AutomationSelfTriggerPolicy,
    pub automation_version: u32,
    pub budget: AutomationExecutionBudget,
    /// Safety profiles of the plan's commands.
    pub safety_profiles: Vec<AutomationSafetyProfile>,
    pub safety_requirements: Vec<AutomationSafetyRequirement>,
    pub approval: AutomationApprovalRequirement,
}

/// The complete immutable input to one simulation.
#[derive(Debug)]
pub struct AutomationSimulationFixture {
    pub plan: AutomationExecutionPlan,
    /// Stable run ID stamped on every trace step.
    pub run_id: u64,
    /// Stable correlation chain.
    pub correlation_id: u64,
    /// Optional direct causation event.
    pub causation_event_id: Option<u64>,
    pub trigger: SimulationTriggerContext,
    /// Initial typed observations, one per key.
    pub initial_state: Vec<(SimulationObservationKey, AutomationValue)>,
    /// Synthetic future state changes.
    pub state_changes: Vec<SimulationStateChange>,
    /// Declared command attempt outcomes in order; confirmation is the default.
    pub command_outcomes: Vec<SimulationCommandOutcome>,
}

/// The result of one simulation.
#[derive(Debug)]
pub struct AutomationSimulationResult {
    pub status: AutomationSimulationStatus,
    /// Ordered trace shared with the runtime.
    pub trace: Vec<SimulationTraceStep>,
    /// Ordered side-effect-free command intents.
    pub command_intents: Vec<SimulatedCommandIntent>,
    /// Final typed variables, one per name.
    pub variables: Vec<(String, AutomationValue)>,
    /// Final virtual instant.
    pub finished_at: i64,
}

/// Whether `targets` lists `target` exactly.
pub open spec fn lists_target(targets: Seq<ResolvedAutomationTarget>, target: ResolvedAutomationTarget) -> bool {
    exists|i: int|
        0 <= i < targets.len() && #[trigger] exact_target(
            targets[i],
            Some(target.device_id),
            target.endpoint_id@,
            target.capability@,
        )
}

/// Whether a synthetic trigger is one that a compiled trigger reacts to.
pub open spec fn kind_matches_trigger(kind: SimulationTriggerKind, trigger: ResolvedAutomationTrigger) -> bool {
    match kind {
        SimulationTriggerKind::Schedule => trigger is Schedule,
        SimulationTriggerKind::ObservationChanged { key } => match trigger {
            ResolvedAutomationTrigger::ObservationChanged { targets, field } => lists_target(targets@, key.target)
                && match field {
                Some(f) => f@ == key.field@,
                None => true,
            },
            _ => false,
        },
        SimulationTriggerKind::DeviceEvent { target, event } => match trigger {
            ResolvedAutomationTrigger::DeviceEvent { targets, event: expected } => lists_target(targets@, target)
                && expected@ == event@,
            _ => false,
        },
        SimulationTriggerKind::CommandOutcome { target, state } => match trigger {
            ResolvedAutomationTrigger::CommandOutcome { targets, states } => states@.contains(state) && match targets {
                Some(ts) => lists_target(ts@, target),
                None => true,
            },
            _ => false,
        },
        SimulationTriggerKind::ExplicitCatchUp => false,
    }
}

/// Whether the synthetic trigger matches the plan: an explicit catch-up when
/// one was requested, any other trigger when a compiled trigger reacts to it.
pub open spec fn synthetic_trigger_matches(
    kind: SimulationTriggerKind,
    explicit_catch_up: bool,
    triggers: Seq<ResolvedAutomationTrigger>,
) -> bool {
    match kind {
        SimulationTriggerKind::ExplicitCatchUp => explicit_catch_up,
        _ => exists|i: int| 0 <= i < triggers.len() && #[trigger] kind_matches_trigger(kind, triggers[i]),
    }
}

/// Whether `targets` lists a target with exactly the device, endpoint and
/// capability of `target`.
pub open spec fn names_target(targets: Seq<ResolvedAutomationTarget>, target: ResolvedAutomationTarget) -> bool {
    exists|j: int|
        0 <= j < targets.len() && (#[trigger] targets[j]).device_id == target.device_id && targets[j].endpoint_id@
            == target.endpoint_id@ && targets[j].capability@ == target.capability@
}

proof fn lemma_names_target(targets: Seq<ResolvedAutomationTarget>, target: ResolvedAutomationTarget)
    ensures
        names_target(targets, target) <==> lists_target(targets, target),
{
    if names_target(targets, target) {
        let j = choose|j: int|
            0 <= j < targets.len() && (#[trigger] targets[j]).device_id == target.device_id && targets[j].endpoint_id@
                == target.endpoint_id@ && targets[j].capability@ == target.capability@;
        assert(exact_target(targets[j], Some(target.device_id), target.endpoint_id@, target.capability@));
    }
    if lists_target(targets, target) {
        let j = choose|j: int|
            0 <= j < targets.len() && #[trigger] exact_target(
                targets[j],
                Some(target.device_id),
                target.endpoint_id@,
                target.capability@,
            );
        assert(targets[j].device_id == target.device_id);
    }
}

/// How one compiled trigger reacts to a synthetic one: an observation change
/// of a target it lists exactly, in the field it watches (or any field when it
/// watches none); a device event of a target it lists, with its event name; a
/// command outcome in one of its states, on a target it lists when it lists
/// any; a schedule occurrence when it is a schedule. Kinds never cross.
pub proof fn lemma_simulated_trigger_reaction(kind: SimulationTriggerKind, trigger: ResolvedAutomationTrigger)
    ensures
        match (kind, trigger) {
            (
                SimulationTriggerKind::ObservationChanged { key },
                ResolvedAutomationTrigger::ObservationChanged { targets, field },
            ) => kind_matches_trigger(kind, trigger) <==> (names_target(targets@, key.target) && match field {
                Some(watched) => watched@ == key.field@,
                None => true,
            }),
            (
                SimulationTriggerKind::DeviceEvent { target, event },
                ResolvedAutomationTrigger::DeviceEvent { targets, event: expected },
            ) => kind_matches_trigger(kind, trigger) <==> (names_target(targets@, target) && expected@ == event@),
            (
                SimulationTriggerKind::CommandOutcome { target, state },
                ResolvedAutomationTrigger::CommandOutcome { targets, states },
            ) => kind_matches_trigger(kind, trigger) <==> ((exists|k: int| 0 <= k < states.len() && #[trigger] states@[k] == state)
                && match targets {
                Some(ts) => names_target(ts@, target),
                None => true,
            }),
            (SimulationTriggerKind::Schedule, _) => kind_matches_trigger(kind, trigger) <==> trigger is Schedule,
            (SimulationTriggerKind::ExplicitCatchUp, _) => !kind_matches_trigger(kind, trigger),
            (SimulationTriggerKind::ObservationChanged { .. }, _) => !kind_matches_trigger(kind, trigger),
            (SimulationTriggerKind::DeviceEvent { .. }, _) => !kind_matches_trigger(kind, trigger),
            (SimulationTriggerKind::CommandOutcome { .. }, _) => !kind_matches_trigger(kind, trigger),
        },
{
    match (kind, trigger) {
        (
            SimulationTriggerKind::ObservationChanged { key },
            ResolvedAutomationTrigger::ObservationChanged { targets, field },
        ) => lemma_names_target(targets@, key.target),
        (
            SimulationTriggerKind::DeviceEvent { target, event },
            ResolvedAutomationTrigger::DeviceEvent { targets, event: expected },
        ) => lemma_names_target(targets@, target),
        (
            SimulationTriggerKind::CommandOutcome { target, state },
            ResolvedAutomationTrigger::CommandOutcome { targets, states },
        ) => {
            if let Some(ts) = targets {
                lemma_names_target(ts@, target);
            }
        },
        _ => {},
    }
}

/// A simulated observation change starts a run only through a compiled
/// observation trigger that watches no field or watches exactly the changed
/// one: when every observation trigger watches some other field, nothing
/// matches.
pub proof fn lemma_simulated_observation_field(
    key: SimulationObservationKey,
    explicit_catch_up: bool,
    triggers: Seq<ResolvedAutomationTrigger>,
)
    ensures
        (forall|i: int|
            0 <= i < triggers.len() ==> !(#[trigger] triggers[i] is ObservationChanged) || (triggers[i]->field matches Some(
                f,
            ) && f@ != key.field@)) ==> !synthetic_trigger_matches(
            SimulationTriggerKind::ObservationChanged { key },
            explicit_catch_up,
            triggers,
        ),
{
    let kind = SimulationTriggerKind::ObservationChanged { key };
    if synthetic_trigger_matches(kind, explicit_catch_up, triggers) {
        let i = choose|i: int| 0 <= i < triggers.len() && #[trigger] kind_matches_trigger(kind, triggers[i]);
        assert(triggers[i] is ObservationChanged);
    }
}

/// A compiled observation trigger that lists the changed target exactly and
/// watches no field, or the changed field, starts a simulated run.
pub proof fn lemma_simulated_observation_match(
    key: SimulationObservationKey,
    explicit_catch_up: bool,
    triggers: Seq<ResolvedAutomationTrigger>,
    i: int,
    targets: Vec<ResolvedAutomationTarget>,
    field: Option<String>,
    j: int,
)
    requires
        0 <= i < triggers.len(),
        triggers[i] == (ResolvedAutomationTrigger::ObservationChanged { targets, field }),
        0 <= j < targets@.len(),
        targets@[j].device_id == key.target.device_id,
        targets@[j].endpoint_id@ == key.target.endpoint_id@,
        targets@[j].capability@ == key.target.capability@,
        field is None || field->0@ == key.field@,
    ensures
        synthetic_trigger_matches(SimulationTriggerKind::ObservationChanged { key }, explicit_catch_up, triggers),
{
    assert(exact_target(targets@[j], Some(key.target.device_id), key.target.endpoint_id@, key.target.capability@));
    assert(kind_matches_trigger(SimulationTriggerKind::ObservationChanged { key }, triggers[i]));
}

/// A simulated device event starts a run only through a compiled device-event
/// trigger of the same event name.
pub proof fn lemma_simulated_device_event_name(
    target: ResolvedAutomationTarget,
    event: String,
    explicit_catch_up: bool,
    triggers: Seq<ResolvedAutomationTrigger>,
)
    ensures
        (forall|i: int| 0 <= i < triggers.len() ==> !(#[trigger] triggers[i] is DeviceEvent) || triggers[i]->event@ != event@)
            ==> !synthetic_trigger_matches(SimulationTriggerKind::DeviceEvent { target, event }, explicit_catch_up, triggers),
{
    let kind = SimulationTriggerKind::DeviceEvent { target, event };
    if synthetic_trigger_matches(kind, explicit_catch_up, triggers) {
        let i = choose|i: int| 0 <= i < triggers.len() && #[trigger] kind_matches_trigger(kind, triggers[i]);
        assert(triggers[i] is DeviceEvent);
    }
}

/// A simulated command outcome starts a run only through a compiled
/// command-outcome trigger that lists the outcome's state; a schedule
/// occurrence only through a compiled schedule; an explicit catch-up exactly
/// when one was requested.
pub proof fn lemma_simulated_trigger_kinds(
    kind: SimulationTriggerKind,
    explicit_catch_up: bool,
    triggers: Seq<ResolvedAutomationTrigger>,
)
    ensures
        kind is ExplicitCatchUp ==> (synthetic_trigger_matches(kind, explicit_catch_up, triggers) == explicit_catch_up),
        kind is Schedule && (forall|i: int| 0 <= i < triggers.len() ==> !(#[trigger] triggers[i] is Schedule))
            ==> !synthetic_trigger_matches(kind, explicit_catch_up, triggers),
        kind matches SimulationTriggerKind::CommandOutcome { target, state } ==> ((forall|i: int|
            0 <= i < triggers.len() ==> !(#[trigger] triggers[i] is CommandOutcome) || !triggers[i]->states@.contains(
                state,
            )) ==> !synthetic_trigger_matches(kind, explicit_catch_up, triggers)),
{
    if !(kind is ExplicitCatchUp) && synthetic_trigger_matches(kind, explicit_catch_up, triggers) {
        let i = choose|i: int| 0 <= i < triggers.len() && #[trigger] kind_matches_trigger(kind, triggers[i]);
        assert(kind_matches_trigger(kind, triggers[i]));
    }
}

fn target_listed(targets: &Vec<ResolvedAutomationTarget>, target: &ResolvedAutomationTarget) -> (b: bool)
    ensures
        b == lists_target(targets@, *target),
{
    any_exact_target(targets, Some(target.device_id), target.endpoint_id.as_str(), target.capability.as_str())
}

fn kind_matches(kind: &SimulationTriggerKind, trigger: &ResolvedAutomationTrigger) -> (b: bool)
    ensures
        b == kind_matches_trigger(*kind, *trigger),
{
    match kind {
        SimulationTriggerKind::Schedule => match trigger {
            ResolvedAutomationTrigger::Schedule { .. } => true,
            _ => false,
        },
        SimulationTriggerKind::ObservationChanged { key } => match trigger {
            ResolvedAutomationTrigger::ObservationChanged { targets, field } => target_listed(targets, &key.target)
                && match field {
                Some(f) => str_eq(f.as_str(), key.field.as_str()),
                None => true,
            },
            _ => false,
        },
        SimulationTriggerKind::DeviceEvent { target, event } => match trigger {
            ResolvedAutomationTrigger::DeviceEvent { targets, event: expected } => target_listed(targets, target)
                && str_eq(expected.as_str(), event.as_str()),
            _ => false,
        },
        SimulationTriggerKind::CommandOutcome { target, state } => match trigger {
            ResolvedAutomationTrigger::CommandOutcome { targets, states } => {
                let listed = match targets {
                    Some(ts) => target_listed(ts, target),
                    None => true,
                };
                listed && contains_state(states, *state)
            },
            _ => false,
        },
        SimulationTriggerKind::ExplicitCatchUp => false,
    }
}

/// Whether the synthetic trigger matches one of the plan's compiled triggers.
pub fn trigger_matches(
    kind: &SimulationTriggerKind,
    explicit_catch_up: bool,
    triggers: &Vec<ResolvedAutomationTrigger>,
) -> (b: bool)
    ensures
        b == synthetic_trigger_matches(*kind, explicit_catch_up, triggers@),
{
    if let SimulationTriggerKind::ExplicitCatchUp = kind {
        return explicit_catch_up;
    }
    let mut i: usize = 0;
    while i < triggers.len()
        invariant
            i <= triggers@.len(),
            !(kind is ExplicitCatchUp),
            forall|j: int| 0 <= j < i ==> !#[trigger] kind_matches_trigger(*kind, triggers@[j]),
        decreases triggers@.len() - i,
    {
        if kind_matches(kind, &triggers[i]) {
            return true;
        }
        i = i + 1;
    }
    false
}

/// The variables bound by their declared initial values, in declaration order.
pub open spec fn initial_bindings(definitions: Seq<(String, Option<AutomationValue>)>) -> Seq<(String, AutomationValue)>
    decreases definitions.len(),
{
    if definitions.len() == 0 {
        Seq::empty()
    } else {
        let earlier = initial_bindings(definitions.drop_last());
        match definitions.last().1 {
            Some(v) => assigned(earlier, definitions.last().0, v),
            None => earlier,
        }
    }
}

fn initial_variables(definitions: &Vec<(String, Option<AutomationValue>)>) -> (vars: Vec<(String, AutomationValue)>)
    ensures
        vars@ == initial_bindings(definitions@),
{
    let mut vars: Vec<(String, AutomationValue)> = Vec::new();
    let mut i: usize = 0;
    while i < definitions.len()
        invariant
            i <= definitions@.len(),
            vars@ == initial_bindings(definitions@.take(i as int)),
        decreases definitions@.len() - i,
    {
        proof {
            assert(definitions@.take(i + 1).drop_last() =~= definitions@.take(i as int));
        }
        let (name, initial) = &definitions[i];
        match initial {
            Some(v) => assign_variable(&mut vars, name, copy_value(v)),
            None => {},
        }
        i = i + 1;
    }
    proof {
        assert(definitions@.take(definitions@.len() as int) =~= definitions@);
    }
    vars
}

/// The ports at the trigger's acceptance instant.
pub open spec fn initial_ports(fixture: AutomationSimulationFixture, decimal_orders: Seq<DecimalComparison>) -> PortsModel {
    PortsModel {
        now: fixture.trigger.accepted_at,
        state: fixture.initial_state@,
        changes: sorted_changes(fixture.state_changes@),
        next_change: 0,
        outcomes: fixture.command_outcomes@,
        next_outcome: 0,
        decimal_orders,
    }
}

/// The state before the trigger is considered.
pub open spec fn initial_run(fixture: AutomationSimulationFixture, decimal_orders: Seq<DecimalComparison>) -> RunModel {
    RunModel {
        ports: initial_ports(fixture, decimal_orders),
        trace: Seq::empty(),
        intents: Seq::empty(),
        variables: initial_bindings(fixture.plan.variables@),
        identity: TraceIdentity {
            run_id: fixture.run_id,
            correlation_id: fixture.correlation_id,
            causation_event_id: fixture.causation_event_id,
        },
        steps: 0,
    }
}

/// The interpreter's view of the fixture's plan.
pub open spec fn interpreted_plan(fixture: AutomationSimulationFixture) -> SimulationPlan {
    SimulationPlan {
        nodes: fixture.plan.nodes,
        budget: fixture.plan.budget,
        approval: fixture.plan.approval,
        accepted_at: fixture.trigger.accepted_at,
    }
}

/// The facts of the fixture's trigger that decide acceptance.
pub open spec fn trigger_facts(fixture: AutomationSimulationFixture) -> SimulationTriggerFacts {
    let t = fixture.trigger;
    SimulationTriggerFacts {
        matches: synthetic_trigger_matches(t.kind, t.explicit_catch_up, fixture.plan.triggers@),
        accepted_at: t.accepted_at,
        window_ends_at: t.window_ends_at,
        explicit_catch_up: t.explicit_catch_up,
        active_runs: t.active_runs,
        queued_triggers: t.queued_triggers,
        caused_by_version: t.caused_by_version,
        same_correlation: t.same_correlation,
    }
}

/// The reason recorded for a rejected trigger.
pub open spec fn suppression_reason_of(rejection: TriggerRejection) -> SuppressionReason {
    match rejection {
        TriggerRejection::NotMatched => SuppressionReason::TriggerNotMatched,
        TriggerRejection::MissedSkipped => SuppressionReason::MissedSkipped,
        TriggerRejection::Suppressed => SuppressionReason::TriggerSuppressed,
    }
}

/// The status a rejected trigger ends the simulation with.
pub open spec fn rejected_status(rejection: TriggerRejection) -> AutomationSimulationStatus {
    if rejection == TriggerRejection::MissedSkipped {
        AutomationSimulationStatus::MissedSkipped
    } else {
        AutomationSimulationStatus::Suppressed
    }
}

/// Interpretation from the plan's entry: a completed flow completes the
/// simulation; a stopped one fails it and records the failure.
pub open spec fn interpreted(fixture: AutomationSimulationFixture, m: RunModel) -> Result<
    (AutomationSimulationStatus, RunModel),
    AutomationSimulationError,
> {
    let plan = interpreted_plan(fixture);
    let (r, m1) = run_from(plan, m, Some(fixture.plan.entry), None, fuel_of(plan, m));
    match r {
        Err(e) => Err(e),
        Ok(Flow::Completed) => Ok((AutomationSimulationStatus::Completed, m1)),
        Ok(_) => match traced(plan.budget, m1, None, TraceDetail::Outcome { status: TraceStatus::Failed }) {
            None => Err(AutomationSimulationError::BudgetExceeded),
            Some(m2) => Ok((AutomationSimulationStatus::Failed, m2)),
        },
    }
}

/// One simulation: a rejected trigger is recorded and ends it; an accepted one
/// is recorded, the plan's condition gates the run, and the plan is
/// interpreted from its entry.
pub open spec fn simulation_of(fixture: AutomationSimulationFixture, decimal_orders: Seq<DecimalComparison>) -> Result<
    (AutomationSimulationStatus, RunModel),
    AutomationSimulationError,
> {
    let plan = fixture.plan;
    let m0 = initial_run(fixture, decimal_orders);
    match trigger_decision(plan.run_mode, plan.self_trigger, plan.automation_version, trigger_facts(fixture)) {
        Some(rejection) => match traced(
            plan.budget,
            m0,
            None,
            TraceDetail::Suppression { reason: suppression_reason_of(rejection) },
        ) {
            None => Err(AutomationSimulationError::BudgetExceeded),
            Some(m1) => Ok((rejected_status(rejection), m1)),
        },
        None => match traced(
            plan.budget,
            m0,
            None,
            TraceDetail::Trigger { explicit_catch_up: fixture.trigger.explicit_catch_up },
        ) {
            None => Err(AutomationSimulationError::BudgetExceeded),
            Some(m1) => match plan.condition {
                None => interpreted(fixture, m1),
                Some(c) => {
                    let (v, p) = simulated_condition(c, m1.variables, m1.ports);
                    match v {
                        Err(e) => Err(simulation_error_of(e)),
                        Ok(accepted) => match traced(
                            plan.budget,
                            with_ports(m1, p),
                            None,
                            TraceDetail::Condition { result: accepted },
                        ) {
                            None => Err(AutomationSimulationError::BudgetExceeded),
                            Some(m2) => if accepted {
                                interpreted(fixture, m2)
                            } else {
                                Ok((AutomationSimulationStatus::Suppressed, m2))
                            },
                        },
                    }
                },
            },
        },
    }
}

/// Whether a result reports this status and final state.
pub open spec fn reports(result: AutomationSimulationResult, status: AutomationSimulationStatus, m: RunModel) -> bool {
    &&& result.status == status
    &&& result.trace@ == m.trace
    &&& result.command_intents@.map_values(|i: SimulatedCommandIntent| intent_model(i)) == m.intents
    &&& result.variables@ == m.variables
    &&& result.finished_at == m.ports.now
}

fn suppression_reason(rejection: TriggerRejection) -> (reason: SuppressionReason)
    ensures
        reason == suppression_reason_of(rejection),
{
    match rejection {
        TriggerRejection::NotMatched => SuppressionReason::TriggerNotMatched,
        TriggerRejection::MissedSkipped => SuppressionReason::MissedSkipped,
        TriggerRejection::Suppressed => SuppressionReason::TriggerSuppressed,
    }
}

fn finish(status: AutomationSimulationStatus, run: SimulationRun) -> (result: AutomationSimulationResult)
    ensures
        reports(result, status, run.model()),
{
    AutomationSimulationResult {
        status,
        trace: run.trace,
        command_intents: run.intents,
        variables: run.variables,
        finished_at: run.ports.now,
    }
}

/// Interprets the plan from its entry and closes the simulation.
fn interpret(plan: &SimulationPlan, run: SimulationRun, entry: u32) -> (r: Result<
    AutomationSimulationResult,
    AutomationSimulationError,
>)
    requires
        run.wf(),
        run.steps == 0,
    ensures
        ({
            let (flow, m1) = run_from(*plan, run.model(), Some(entry), None, fuel_of(*plan, run.model()));
            match flow {
                Err(e) => r == Err::<AutomationSimulationResult, AutomationSimulationError>(e),
                Ok(Flow::Completed) => r matches Ok(result) && reports(result, AutomationSimulationStatus::Completed, m1),
                Ok(_) => match traced(plan.budget, m1, None, TraceDetail::Outcome { status: TraceStatus::Failed }) {
                    None => r == Err::<AutomationSimulationResult, AutomationSimulationError>(
                        AutomationSimulationError::BudgetExceeded,
                    ),
                    Some(m2) => r matches Ok(result) && reports(result, AutomationSimulationStatus::Failed, m2),
                },
            }
        }),
        r matches Ok(result) ==> trace_numbered(result.trace@),
        r matches Ok(result) ==> trace_identified(result.trace@, run.identity),
{
    let mut run = run;
    let flow = execute_from(plan, &mut run, Some(entry), None);
    match flow {
        Err(e) => Err(e),
        Ok(Flow::Completed) => Ok(finish(AutomationSimulationStatus::Completed, run)),
        Ok(_) => match record_trace(plan, &mut run, None, TraceDetail::Outcome { status: TraceStatus::Failed }) {
            Ok(()) => Ok(finish(AutomationSimulationStatus::Failed, run)),
            Err(e) => Err(e),
        },
    }
}

impl AutomationSimulator {
    /// Executes one immutable fixture with virtual time. Decimal literals are
    /// ordered by `decimal_orders`, which the host supplies.
    pub fn simulate(fixture: AutomationSimulationFixture, decimal_orders: Vec<DecimalComparison>) -> (r: Result<
        AutomationSimulationResult,
        AutomationSimulationError,
    >)
        ensures
            match simulation_of(fixture, decimal_orders@) {
                Ok((status, m)) => r matches Ok(result) && reports(result, status, m),
                Err(e) => r == Err::<AutomationSimulationResult, AutomationSimulationError>(e),
            },
            r matches Ok(result) ==> trace_numbered(result.trace@),
            r matches Ok(result) ==> trace_identified(
                result.trace@,
                TraceIdentity {
                    run_id: fixture.run_id,
                    correlation_id: fixture.correlation_id,
                    causation_event_id: fixture.causation_event_id,
                },
            ),
    {
        let ghost whole = fixture;
        let ghost orders = decimal_orders@;
        let AutomationSimulationFixture {
            plan,
            run_id,
            correlation_id,
            causation_event_id,
            trigger,
            initial_state,
            state_changes,
            command_outcomes,
        } = fixture;
        let AutomationExecutionPlan {
            automation_id: _,
            registry_revision: _,
            entry,
            nodes,
            triggers,
            condition,
            variables,
            run_mode,
            self_trigger,
            automation_version,
            budget,
            safety_profiles: _,
            safety_requirements: _,
            approval,
        } = plan;
        let matches = trigger_matches(&trigger.kind, trigger.explicit_catch_up, &triggers);
        let facts = SimulationTriggerFacts {
            matches,
            accepted_at: trigger.accepted_at,
            window_ends_at: trigger.window_ends_at,
            explicit_catch_up: trigger.explicit_catch_up,
            active_runs: trigger.active_runs,
            queued_triggers: trigger.queued_triggers,
            caused_by_version: trigger.caused_by_version,
            same_correlation: trigger.same_correlation,
        };
        assert(facts == trigger_facts(whole));
        let ports = VirtualSimulationPorts::new(
            trigger.accepted_at,
            &initial_state,
            &state_changes,
            &command_outcomes,
            decimal_orders,
        );
        let vars = initial_variables(&variables);
        let identity = TraceIdentity { run_id, correlation_id, causation_event_id };
        let mut run = SimulationRun { ports, trace: Vec::new(), intents: Vec::new(), variables: vars, identity, steps: 0 };
        let sim = SimulationPlan { nodes, budget, approval, accepted_at: trigger.accepted_at };
        proof {
            assert(run.model().intents =~= Seq::<crate::simulation_run::IntentModel>::empty());
            assert(run.model() == initial_run(whole, orders));
            assert(sim == interpreted_plan(whole));
        }
        match accept_trigger(run_mode, self_trigger, automation_version, facts) {
            Some(rejection) => {
                let reason = suppression_reason(rejection);
                return match record_trace(&sim, &mut run, None, TraceDetail::Suppression { reason }) {
                    Ok(()) => Ok(finish(rejection_status(rejection), run)),
                    Err(e) => Err(e),
                };
            },
            None => {},
        }
        match record_trace(&sim, &mut run, None, TraceDetail::Trigger { explicit_catch_up: trigger.explicit_catch_up }) {
            Ok(()) => {},
            Err(e) => {
                return Err(e);
            },
        }
        match &condition {
            Some(c) => {
                let accepted = match evaluate_in_run(&mut run, c) {
                    Ok(b) => b,
                    Err(e) => {
                        return Err(e);
                    },
                };
                match record_trace(&sim, &mut run, None, TraceDetail::Condition { result: accepted }) {
                    Ok(()) => {},
                    Err(e) => {
                        return Err(e);
                    },
                }
                if !accepted {
                    return Ok(finish(AutomationSimulationStatus::Suppressed, run));
                }
            },
            None => {},
        }
        interpret(&sim, run, entry)
    }
}

/// Latest instant, in milliseconds, a schedule may be enumerated from: cron
/// adds one second to its start instant, which chrono must still represent.
pub const CRON_START_LIMIT_MS: i64 = UTC_MAX_MILLIS - 1000;

/// The UTC instant, in milliseconds, of the first item that
/// `cron::Schedule::after` yields for `expression` in the IANA zone `timezone`
/// from the instant `after`: the schedule's next local time after `after` plus
/// one second, resolved in the zone (the earlier instant of a repeated local
/// time); `None` when there is none.
pub uninterp spec fn cron_next_instant(expression: Seq<char>, timezone: Seq<char>, after: i64) -> Option<i64>;

/// The UTC instant, in milliseconds, of the second item that
/// `cron::Schedule::after` yields for `expression` in `timezone` from `after`:
/// the later instant of the first item's local time where that time repeats,
/// otherwise the schedule's next time after the first item.
pub uninterp spec fn cron_second_instant(expression: Seq<char>, timezone: Seq<char>, after: i64) -> Option<i64>;

/// Calls `cron::Schedule::after(..).next()` from `after`, taken in
/// `chrono_tz::Tz`, and returns the occurrence as UTC milliseconds; the result
/// is the named one (`None` also where chrono cannot represent `after`).
///
/// Nothing orders the result after `after`: at a repeated local hour cron
/// resolves its candidate to the earlier of the two instants, which can precede
/// an `after` taken in the hour's second pass.
#[verifier::external_body]
fn cron_next_after(expression: &str, timezone: &str, after: i64) -> (r: Option<i64>)
    requires
        cron_parses(expression@),
        known_timezone(timezone@),
        after <= CRON_START_LIMIT_MS,
    ensures
        r == cron_next_instant(expression@, timezone@, after),
{
    let zone = match timezone.parse::<chrono_tz::Tz>() {
        Ok(zone) => zone,
        Err(_) => return None,
    };
    let schedule = match expression.parse::<cron::Schedule>() {
        Ok(schedule) => schedule,
        Err(_) => return None,
    };
    let start = chrono::DateTime::from_timestamp_millis(after)?;
    schedule.after(&start.with_timezone(&zone)).next().map(|at| at.timestamp_millis())
}

/// Calls `cron::Schedule::after(..).nth(1)` from `after` in `chrono_tz::Tz`
/// and returns that occurrence as UTC milliseconds; the result is the named
/// one. The iterator adds a second only to `after` and to the first occurrence,
/// whose year cron keeps within 1970 to 2100.
#[verifier::external_body]
fn cron_second_after(expression: &str, timezone: &str, after: i64) -> (r: Option<i64>)
    requires
        cron_parses(expression@),
        known_timezone(timezone@),
        after <= CRON_START_LIMIT_MS,
    ensures
        r == cron_second_instant(expression@, timezone@, after),
{
    let zone = match timezone.parse::<chrono_tz::Tz>() {
        Ok(zone) => zone,
        Err(_) => return None,
    };
    let schedule = match expression.parse::<cron::Schedule>() {
        Ok(schedule) => schedule,
        Err(_) => return None,
    };
    let start = chrono::DateTime::from_timestamp_millis(after)?;
    schedule.after(&start.with_timezone(&zone)).nth(1).map(|at| at.timestamp_millis())
}

/// The occurrences of the schedule's iteration from `after` up to the first one
/// later than `through`. The first occurrence is the schedule's next instant.
/// Where the second item of an iteration from `after` is not the next instant
/// after the first, the first was the earlier instant of a repeated local time
/// and the second its later instant: both are listed and the iteration goes on
/// from the later one; otherwise it goes on from the first. It ends where the
/// instant it would go on from is not later than before, or lies past the
/// start limit.
pub open spec fn cron_occurrences(expression: Seq<char>, timezone: Seq<char>, after: i64, through: i64) -> Seq<i64>
    decreases through - after,
{
    match cron_next_instant(expression, timezone, after) {
        None => Seq::empty(),
        Some(first) => if first > through {
            Seq::empty()
        } else if first > CRON_START_LIMIT_MS {
            seq![first]
        } else {
            let second = cron_second_instant(expression, timezone, after);
            if second != cron_next_instant(expression, timezone, first) {
                match second {
                    None => seq![first],
                    Some(later) => if later > through {
                        seq![first]
                    } else if after < later && later <= CRON_START_LIMIT_MS {
                        seq![first, later] + cron_occurrences(expression, timezone, later, through)
                    } else {
                        seq![first, later]
                    },
                }
            } else if after < first {
                seq![first] + cron_occurrences(expression, timezone, first, through)
            } else {
                seq![first]
            }
        },
    }
}

/// No listed occurrence is later than `through`.
pub proof fn lemma_cron_occurrences_bounded(expression: Seq<char>, timezone: Seq<char>, after: i64, through: i64)
    ensures
        forall|i: int| 0 <= i < cron_occurrences(expression, timezone, after, through).len()
            ==> #[trigger] cron_occurrences(expression, timezone, after, through)[i] <= through,
    decreases through - after,
{
    let all = cron_occurrences(expression, timezone, after, through);
    match cron_next_instant(expression, timezone, after) {
        None => {},
        Some(first) => if first <= through && first <= CRON_START_LIMIT_MS {
            let second = cron_second_instant(expression, timezone, after);
            if second != cron_next_instant(expression, timezone, first) {
                match second {
                    None => {},
                    Some(later) => if later <= through && after < later && later <= CRON_START_LIMIT_MS {
                        lemma_cron_occurrences_bounded(expression, timezone, later, through);
                        let rest = cron_occurrences(expression, timezone, later, through);
                        assert forall|i: int| 0 <= i < all.len() implies #[trigger] all[i] <= through by {
                            if i >= 2 {
                                assert(all[i] == rest[i - 2]);
                            }
                        }
                    },
                }
            } else if after < first {
                lemma_cron_occurrences_bounded(expression, timezone, first, through);
                let rest = cron_occurrences(expression, timezone, first, through);
                assert forall|i: int| 0 <= i < all.len() implies #[trigger] all[i] <= through by {
                    if i >= 1 {
                        assert(all[i] == rest[i - 1]);
                    }
                }
            }
        },
    }
}

impl AutomationSimulator {
    /// Enumerates the UTC occurrences of a five-field cron schedule in its IANA
    /// time zone after `from`, up to the first one later than `through`.
    /// `chrono_tz` resolves local times: a skipped one is passed over and a
    /// repeated one yields both of its instants, earlier first.
    pub fn schedule_occurrences(schedule: &AutomationSchedule, from: i64, through: i64) -> (r: Result<
        Vec<i64>,
        AutomationSimulationError,
    >)
        requires
            from <= CRON_START_LIMIT_MS,
        ensures
            if known_timezone(schedule.timezone@) && cron_parses("0 "@ + schedule.cron@) {
                r matches Ok(instants) && instants@ == cron_occurrences(
                    "0 "@ + schedule.cron@,
                    schedule.timezone@,
                    from,
                    through,
                )
            } else {
                r == Err::<Vec<i64>, AutomationSimulationError>(AutomationSimulationError::InvalidSchedule)
            },
            r matches Ok(instants) ==> forall|i: int| 0 <= i < instants.len() ==> #[trigger] instants@[i] <= through,
    {
        if !timezone_is_known(schedule.timezone.as_str()) {
            return Err(AutomationSimulationError::InvalidSchedule);
        }
        let mut expression = "0 ".to_owned();
        expression.append(schedule.cron.as_str());
        if !cron_expression_parses(expression.as_str()) {
            return Err(AutomationSimulationError::InvalidSchedule);
        }
        let ghost e = expression@;
        let ghost z = schedule.timezone@;
        let mut occurrences: Vec<i64> = Vec::new();
        let mut current = from;
        loop
            invariant_except_break
                occurrences@ + cron_occurrences(e, z, current, through) == cron_occurrences(e, z, from, through),
            invariant
                e == expression@,
                z == schedule.timezone@,
                cron_parses(e),
                known_timezone(z),
                current <= CRON_START_LIMIT_MS,
            ensures
                occurrences@ == cron_occurrences(e, z, from, through),
            decreases through - current,
        {
            let ghost before = occurrences@;
            let ghost rest = cron_occurrences(e, z, current, through);
            let first = match cron_next_after(expression.as_str(), schedule.timezone.as_str(), current) {
                None => {
                    assert(rest =~= Seq::<i64>::empty());
                    assert(occurrences@ =~= before + rest);
                    break;
                },
                Some(first) => first,
            };
            if first > through {
                assert(rest =~= Seq::<i64>::empty());
                assert(occurrences@ =~= before + rest);
                break;
            }
            occurrences.push(first);
            if first > CRON_START_LIMIT_MS {
                assert(occurrences@ =~= before + rest);
                break;
            }
            let second = cron_second_after(expression.as_str(), schedule.timezone.as_str(), current);
            let following = cron_next_after(expression.as_str(), schedule.timezone.as_str(), first);
            let repeated = match (second, following) {
                (Some(s), Some(f)) => s != f,
                (None, None) => false,
                _ => true,
            };
            if repeated {
                match second {
                    None => {
                        assert(occurrences@ =~= before + rest);
                        break;
                    },
                    Some(later) => {
                        if later > through {
                            assert(occurrences@ =~= before + rest);
                            break;
                        }
                        occurrences.push(later);
                        if current < later && later <= CRON_START_LIMIT_MS {
                            assert(before + rest =~= occurrences@ + cron_occurrences(e, z, later, through));
                            current = later;
                        } else {
                            assert(occurrences@ =~= before + rest);
                            break;
                        }
                    },
                }
            } else if current < first {
                assert(before + rest =~= occurrences@ + cron_occurrences(e, z, first, through));
                current = first;
            } else {
                assert(occurrences@ =~= before + rest);
                break;
            }
        }
        proof {
            lemma_cron_occurrences_bounded(e, z, from, through);
        }
        Ok(occurrences)
    }
}

} // verus!
