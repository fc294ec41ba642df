//! Virtual time, synthetic state and declared command outcomes of one
//! deterministic automation simulation.

use vstd::prelude::*;

use crate::automation_evaluator::{
    compare_values, comparison_result, copy_value, evaluate_automation_expression, evaluate_time_window,
    expression_value, int_order, listed_decimal_order, lookup_variable, order_satisfies, text_order,
    time_window_result, value_order, AutomationComparison, AutomationEvaluationContext, AutomationEvaluationError,
    AutomationOrder, AutomationValue, DecimalComparison, ResolvedAutomationCondition, ResolvedAutomationExpression,
};
use crate::time::{add_millis, utc_add_millis};
use crate::automation_events::ResolvedAutomationTarget;
use crate::automation_runtime::{CommandErrorCode, CommandState};
use crate::ports::str_eq;
use crate::target_resolution::{lemma_text_before_asymmetric, text_before, text_less};

verus! {

/// Stable normalized observation lookup key used by simulation fixtures.
#[derive(Clone, Debug)]
pub struct SimulationObservationKey {
    pub target: ResolvedAutomationTarget,
    /// Capability-schema field.
    pub field: String,
}

/// The texts that identify an observation key.
pub open spec fn key_view(k: SimulationObservationKey) -> (u64, Seq<char>, Seq<char>, Seq<char>) {
    (k.target.device_id, k.target.endpoint_id@, k.target.capability@, k.field@)
}

/// One synthetic state change applied at a virtual instant.
#[derive(Clone, Debug)]
pub struct SimulationStateChange {
    pub at: i64,
    pub key: SimulationObservationKey,
    pub value: AutomationValue,
}

/// Declared result returned for one simulated command attempt.
#[derive(Clone, Copy, Debug, PartialEq, Eq, Structural)]
pub struct SimulationCommandOutcome {
    pub state: CommandState,
    pub error: Option<CommandErrorCode>,
}

/// A copy of a target.
pub fn copy_target(t: &ResolvedAutomationTarget) -> (r: ResolvedAutomationTarget)
    ensures
        r == *t,
{
    ResolvedAutomationTarget { device_id: t.device_id, endpoint_id: t.endpoint_id.clone(), capability: t.capability.clone() }
}

/// A copy of an observation key.
pub fn copy_key(k: &SimulationObservationKey) -> (r: SimulationObservationKey)
    ensures
        r == *k,
{
    SimulationObservationKey { target: copy_target(&k.target), field: k.field.clone() }
}

/// A copy of a state change.
pub fn copy_change(c: &SimulationStateChange) -> (r: SimulationStateChange)
    ensures
        r == *c,
{
    SimulationStateChange { at: c.at, key: copy_key(&c.key), value: copy_value(&c.value) }
}

/// Whether key `a` sorts strictly before key `b`: by device, endpoint,
/// capability and field.
pub open spec fn key_before(a: (u64, Seq<char>, Seq<char>, Seq<char>), b: (u64, Seq<char>, Seq<char>, Seq<char>)) -> bool {
    a.0 < b.0 || (a.0 == b.0 && (text_before(a.1, b.1) || (a.1 == b.1 && (text_before(a.2, b.2) || (a.2 == b.2
        && text_before(a.3, b.3))))))
}

/// Whether change `a` sorts strictly before change `b`: by instant, then key.
pub open spec fn change_before(a: SimulationStateChange, b: SimulationStateChange) -> bool {
    a.at < b.at || (a.at == b.at && key_before(key_view(a.key), key_view(b.key)))
}

fn change_less(a: &SimulationStateChange, b: &SimulationStateChange) -> (r: bool)
    ensures
        r == change_before(*a, *b),
{
    if a.at != b.at {
        return a.at < b.at;
    }
    let (x, y) = (&a.key, &b.key);
    if x.target.device_id != y.target.device_id {
        return x.target.device_id < y.target.device_id;
    }
    if !str_eq(x.target.endpoint_id.as_str(), y.target.endpoint_id.as_str()) {
        return text_less(x.target.endpoint_id.as_str(), y.target.endpoint_id.as_str());
    }
    proof {
        lemma_text_before_asymmetric(x.target.endpoint_id@, x.target.endpoint_id@);
        lemma_text_before_asymmetric(x.target.capability@, x.target.capability@);
    }
    if !str_eq(x.target.capability.as_str(), y.target.capability.as_str()) {
        return text_less(x.target.capability.as_str(), y.target.capability.as_str());
    }
    text_less(x.field.as_str(), y.field.as_str())
}

/// Where a stable insertion places `x` in `s`: before the first element from
/// position `i` on that `x` sorts strictly before.
pub open spec fn insertion_point(s: Seq<SimulationStateChange>, x: SimulationStateChange, i: int) -> int
    decreases s.len() - i,
{
    if i >= s.len() || i < 0 {
        s.len() as int
    } else if change_before(x, s[i]) {
        i
    } else {
        insertion_point(s, x, i + 1)
    }
}

/// The changes stably sorted by instant and key: each change is inserted after
/// every earlier change that does not sort after it.
pub open spec fn sorted_changes(s: Seq<SimulationStateChange>) -> Seq<SimulationStateChange>
    decreases s.len(),
{
    if s.len() == 0 {
        Seq::empty()
    } else {
        let rest = sorted_changes(s.drop_last());
        rest.insert(insertion_point(rest, s.last(), 0), s.last())
    }
}

proof fn lemma_sorted_len(s: Seq<SimulationStateChange>)
    ensures
        sorted_changes(s).len() == s.len(),
    decreases s.len(),
{
    if s.len() > 0 {
        lemma_sorted_len(s.drop_last());
        lemma_insertion_point_range(sorted_changes(s.drop_last()), s.last(), 0);
    }
}

proof fn lemma_insertion_point_range(s: Seq<SimulationStateChange>, x: SimulationStateChange, i: int)
    requires
        0 <= i,
    ensures
        i <= s.len() ==> i <= insertion_point(s, x, i) <= s.len(),
        0 <= insertion_point(s, x, i) <= s.len(),
    decreases s.len() - i,
{
    if i < s.len() && !change_before(x, s[i]) {
        lemma_insertion_point_range(s, x, i + 1);
    }
}

/// Stably sorts state changes by instant and key.
pub fn sort_changes(changes: &Vec<SimulationStateChange>) -> (sorted: Vec<SimulationStateChange>)
    ensures
        sorted@ == sorted_changes(changes@),
{
    let mut sorted: Vec<SimulationStateChange> = Vec::new();
    let mut i: usize = 0;
    assert(changes@.take(0) =~= Seq::<SimulationStateChange>::empty());
    while i < changes.len()
        invariant
            i <= changes@.len(),
            sorted@ == sorted_changes(changes@.take(i as int)),
        decreases changes@.len() - i,
    {
        proof {
            assert(changes@.take(i + 1).drop_last() =~= changes@.take(i as int));
            assert(changes@.take(i + 1).last() == changes@[i as int]);
            lemma_sorted_len(changes@.take(i as int));
        }
        let x = copy_change(&changes[i]);
        let mut p: usize = 0;
        while p < sorted.len() && !change_less(&x, &sorted[p])
            invariant
                p <= sorted@.len(),
                insertion_point(sorted@, x, 0) == insertion_point(sorted@, x, p as int),
            decreases sorted@.len() - p,
        {
            p = p + 1;
        }
        proof {
            if p < sorted@.len() {
                assert(change_before(x, sorted@[p as int]));
            }
        }
        sorted.insert(p, x);
        i = i + 1;
    }
    assert(changes@.take(changes@.len() as int) =~= changes@);
    sorted
}

/// Virtual clock, observation state, pending state changes and declared command
/// outcomes of one simulation.
#[derive(Debug)]
pub struct VirtualSimulationPorts {
    pub now: i64,
    /// Observation bindings; a later binding of a key replaces earlier ones.
    pub state: Vec<(SimulationObservationKey, AutomationValue)>,
    /// Changes sorted by instant and key; those before `next_change` are applied.
    pub changes: Vec<SimulationStateChange>,
    pub next_change: usize,
    /// Declared outcomes; those before `next_outcome` are used.
    pub outcomes: Vec<SimulationCommandOutcome>,
    pub next_outcome: usize,
    /// Host order of decimal texts.
    pub decimal_orders: Vec<DecimalComparison>,
}

/// The value the last binding of the key holds.
pub open spec fn bound_value(state: Seq<(SimulationObservationKey, AutomationValue)>, key: (u64, Seq<char>, Seq<char>, Seq<char>)) -> Option<
    AutomationValue,
>
    decreases state.len(),
{
    if state.len() == 0 {
        None
    } else if key_view(state.last().0) == key {
        Some(state.last().1)
    } else {
        bound_value(state.drop_last(), key)
    }
}

/// The position after the changes from `i` on that are due at `at`.
pub open spec fn due_through(changes: Seq<SimulationStateChange>, i: int, at: i64) -> int
    decreases changes.len() - i,
{
    if 0 <= i < changes.len() && changes[i].at <= at {
        due_through(changes, i + 1, at)
    } else {
        i
    }
}

/// The bindings the changes from `from` up to `to` make.
pub open spec fn change_bindings(changes: Seq<SimulationStateChange>, from: int, to: int) -> Seq<
    (SimulationObservationKey, AutomationValue),
> {
    changes.subrange(from, to).map_values(|c: SimulationStateChange| (c.key, c.value))
}

/// The outcome the next command attempt gets: the next declared one, or a
/// confirmation once the declared outcomes are used up.
pub open spec fn next_outcome_of(outcomes: Seq<SimulationCommandOutcome>, next: int) -> SimulationCommandOutcome {
    if 0 <= next < outcomes.len() {
        outcomes[next]
    } else {
        SimulationCommandOutcome { state: CommandState::Confirmed, error: None }
    }
}

impl VirtualSimulationPorts {
    /// Whether the cursors stay inside their sequences.
    pub open spec fn wf(&self) -> bool {
        self.next_change <= self.changes@.len() && self.next_outcome <= self.outcomes@.len()
    }

    /// Ports at the trigger's acceptance instant over the initial state, the
    /// sorted state changes and the declared outcomes.
    pub fn new(
        accepted_at: i64,
        initial_state: &Vec<(SimulationObservationKey, AutomationValue)>,
        state_changes: &Vec<SimulationStateChange>,
        command_outcomes: &Vec<SimulationCommandOutcome>,
        decimal_orders: Vec<DecimalComparison>,
    ) -> (p: Self)
        ensures
            p.wf(),
            p.now == accepted_at,
            p.state@ == initial_state@,
            p.changes@ == sorted_changes(state_changes@),
            p.next_change == 0,
            p.outcomes@ == command_outcomes@,
            p.next_outcome == 0,
            p.decimal_orders@ == decimal_orders@,
    {
        let mut state: Vec<(SimulationObservationKey, AutomationValue)> = Vec::new();
        let mut i: usize = 0;
        while i < initial_state.len()
            invariant
                i <= initial_state@.len(),
                state@ == initial_state@.take(i as int),
            decreases initial_state@.len() - i,
        {
            let binding = (copy_key(&initial_state[i].0), copy_value(&initial_state[i].1));
            state.push(binding);
            assert(initial_state@.take(i + 1) =~= initial_state@.take(i as int).push(initial_state@[i as int]));
            i = i + 1;
        }
        assert(initial_state@.take(initial_state@.len() as int) =~= initial_state@);
        let mut outcomes: Vec<SimulationCommandOutcome> = Vec::new();
        let mut j: usize = 0;
        while j < command_outcomes.len()
            invariant
                j <= command_outcomes@.len(),
                outcomes@ == command_outcomes@.take(j as int),
            decreases command_outcomes@.len() - j,
        {
            outcomes.push(command_outcomes[j]);
            assert(command_outcomes@.take(j + 1) =~= command_outcomes@.take(j as int).push(command_outcomes@[j as int]));
            j = j + 1;
        }
        assert(command_outcomes@.take(command_outcomes@.len() as int) =~= command_outcomes@);
        VirtualSimulationPorts {
            now: accepted_at,
            state,
            changes: sort_changes(state_changes),
            next_change: 0,
            outcomes,
            next_outcome: 0,
            decimal_orders,
        }
    }

    /// Applies every pending change due at `at` and moves the clock forward to
    /// `at`, never backward.
    pub fn advance_to(&mut self, at: i64)
        requires
            old(self).wf(),
        ensures
            final(self).wf(),
            final(self).next_change == due_through(old(self).changes@, old(self).next_change as int, at),
            final(self).state@ == old(self).state@ + change_bindings(
                old(self).changes@,
                old(self).next_change as int,
                final(self).next_change as int,
            ),
            final(self).now == (if old(self).now >= at { old(self).now } else { at }),
            final(self).changes@ == old(self).changes@,
            final(self).outcomes@ == old(self).outcomes@,
            final(self).next_outcome == old(self).next_outcome,
            final(self).decimal_orders@ == old(self).decimal_orders@,
    {
        let ghost start = self.next_change as int;
        let ghost initial = self.state@;
        while self.next_change < self.changes.len() && self.changes[self.next_change].at <= at
            invariant
                self.wf(),
                0 <= start <= self.next_change,
                self.changes@ == old(self).changes@,
                self.outcomes@ == old(self).outcomes@,
                self.next_outcome == old(self).next_outcome,
                self.decimal_orders@ == old(self).decimal_orders@,
                self.now == old(self).now,
                due_through(self.changes@, start, at) == due_through(self.changes@, self.next_change as int, at),
                self.state@ == initial + change_bindings(self.changes@, start, self.next_change as int),
            decreases self.changes@.len() - self.next_change,
        {
            let ghost n = self.next_change as int;
            let c = &self.changes[self.next_change];
            let binding = (copy_key(&c.key), copy_value(&c.value));
            self.state.push(binding);
            proof {
                let cs = self.changes@;
                assert(cs.subrange(start, n + 1) =~= cs.subrange(start, n).push(cs[n]));
                assert(change_bindings(cs, start, n + 1) =~= change_bindings(cs, start, n).push((cs[n].key, cs[n].value)));
            }
            self.next_change = self.next_change + 1;
        }
        if at > self.now {
            self.now = at;
        }
    }

    /// The instant of the next pending change, when it is due by `deadline`.
    pub fn next_change_through(&self, deadline: i64) -> (r: Option<i64>)
        requires
            self.wf(),
        ensures
            r == (if self.next_change < self.changes@.len() && self.changes@[self.next_change as int].at <= deadline {
                Some(self.changes@[self.next_change as int].at)
            } else {
                None
            }),
    {
        if self.next_change < self.changes.len() && self.changes[self.next_change].at <= deadline {
            Some(self.changes[self.next_change].at)
        } else {
            None
        }
    }

    /// The outcome of the next command attempt.
    pub fn command_outcome(&mut self) -> (r: SimulationCommandOutcome)
        requires
            old(self).wf(),
        ensures
            final(self).wf(),
            r == next_outcome_of(old(self).outcomes@, old(self).next_outcome as int),
            final(self).next_outcome == (if old(self).next_outcome < old(self).outcomes@.len() {
                old(self).next_outcome + 1
            } else {
                old(self).next_outcome as int
            }),
            final(self).now == old(self).now,
            final(self).state@ == old(self).state@,
            final(self).changes@ == old(self).changes@,
            final(self).next_change == old(self).next_change,
            final(self).outcomes@ == old(self).outcomes@,
            final(self).decimal_orders@ == old(self).decimal_orders@,
    {
        if self.next_outcome < self.outcomes.len() {
            let r = self.outcomes[self.next_outcome];
            self.next_outcome = self.next_outcome + 1;
            r
        } else {
            SimulationCommandOutcome { state: CommandState::Confirmed, error: None }
        }
    }
}

impl AutomationEvaluationContext for VirtualSimulationPorts {
    open spec fn spec_now(&self) -> i64 {
        self.now
    }

    open spec fn spec_observation(&self, target: ResolvedAutomationTarget, field: Seq<char>) -> Option<AutomationValue> {
        bound_value(self.state@, (target.device_id, target.endpoint_id@, target.capability@, field))
    }

    open spec fn spec_decimal_order(&self, left: Seq<char>, right: Seq<char>) -> Option<AutomationOrder> {
        listed_decimal_order(self.decimal_orders@, left, right)
    }

    fn now(&self) -> (t: i64) {
        self.now
    }

    fn observation(&self, target: &ResolvedAutomationTarget, field: &str) -> (r: Option<AutomationValue>) {
        let ghost key = (target.device_id, target.endpoint_id@, target.capability@, field@);
        let mut i: usize = self.state.len();
        assert(self.state@.take(i as int) =~= self.state@);
        while i > 0
            invariant
                i <= self.state@.len(),
                key == (target.device_id, target.endpoint_id@, target.capability@, field@),
                bound_value(self.state@, key) == bound_value(self.state@.take(i as int), key),
            decreases i,
        {
            let entry = &self.state[i - 1];
            let k = &entry.0;
            assert(self.state@.take(i as int).last() == self.state@[i - 1]);
            assert(self.state@.take(i as int).drop_last() =~= self.state@.take(i - 1));
            if k.target.device_id == target.device_id && str_eq(k.target.endpoint_id.as_str(), target.endpoint_id.as_str())
                && str_eq(k.target.capability.as_str(), target.capability.as_str()) && str_eq(k.field.as_str(), field) {
                return Some(copy_value(&entry.1));
            }
            i = i - 1;
        }
        None
    }

    fn decimal_order(&self, left: &str, right: &str) -> (r: Option<AutomationOrder>) {
        let mut i: usize = 0;
        assert(self.decimal_orders@.skip(0) =~= self.decimal_orders@);
        while i < self.decimal_orders.len()
            invariant
                i <= self.decimal_orders@.len(),
                listed_decimal_order(self.decimal_orders@, left@, right@) == listed_decimal_order(
                    self.decimal_orders@.skip(i as int),
                    left@,
                    right@,
                ),
            decreases self.decimal_orders@.len() - i,
        {
            assert(self.decimal_orders@.skip(i as int).drop_first() =~= self.decimal_orders@.skip(i + 1));
            assert(self.decimal_orders@.skip(i as int)[0] == self.decimal_orders@[i as int]);
            let d = &self.decimal_orders[i];
            if str_eq(d.left.as_str(), left) && str_eq(d.right.as_str(), right) {
                return d.order;
            }
            i = i + 1;
        }
        None
    }

    /// The simulator evaluates continuous durations over virtual time before a
    /// condition reaches the shared evaluator, so none arrives here.
    fn state_duration(
        &mut self,
        condition: &ResolvedAutomationCondition,
        duration_ms: u64,
        variables: &Vec<(String, AutomationValue)>,
    ) -> (r: Result<bool, AutomationEvaluationError>)
        ensures
            r == Err::<bool, AutomationEvaluationError>(AutomationEvaluationError::DurableDurationRequired),
            *final(self) == *old(self),
    {
        Err(AutomationEvaluationError::DurableDurationRequired)
    }
}

/// The simulation ports as mathematical values.
pub struct PortsModel {
    pub now: i64,
    pub state: Seq<(SimulationObservationKey, AutomationValue)>,
    pub changes: Seq<SimulationStateChange>,
    pub next_change: int,
    pub outcomes: Seq<SimulationCommandOutcome>,
    pub next_outcome: int,
    pub decimal_orders: Seq<DecimalComparison>,
}

impl VirtualSimulationPorts {
    /// The ports as mathematical values.
    pub open spec fn model(&self) -> PortsModel {
        PortsModel {
            now: self.now,
            state: self.state@,
            changes: self.changes@,
            next_change: self.next_change as int,
            outcomes: self.outcomes@,
            next_outcome: self.next_outcome as int,
            decimal_orders: self.decimal_orders@,
        }
    }
}

/// The ports after applying every change due at `at` and moving the clock
/// forward to `at`.
pub open spec fn advanced(m: PortsModel, at: i64) -> PortsModel {
    let next = due_through(m.changes, m.next_change, at);
    PortsModel {
        now: if m.now >= at { m.now } else { at },
        state: m.state + change_bindings(m.changes, m.next_change, next),
        next_change: next,
        ..m
    }
}

/// The instant of the next pending change, when it is due by `deadline`.
pub open spec fn due_change(m: PortsModel, deadline: i64) -> Option<i64> {
    if 0 <= m.next_change < m.changes.len() && m.changes[m.next_change].at <= deadline {
        Some(m.changes[m.next_change].at)
    } else {
        None
    }
}

/// The value of an expression over the ports' observations.
pub open spec fn model_expression(
    e: ResolvedAutomationExpression,
    vars: Seq<(String, AutomationValue)>,
    m: PortsModel,
) -> Result<AutomationValue, AutomationEvaluationError> {
    match e {
        ResolvedAutomationExpression::Literal { value } => Ok(value),
        ResolvedAutomationExpression::Variable { name } => match lookup_variable(vars, name@) {
            Some(v) => Ok(v),
            None => Err(AutomationEvaluationError::MissingValue("variable")),
        },
        ResolvedAutomationExpression::Observation { targets, field } => if targets@.len() == 0 {
            Err(AutomationEvaluationError::MissingValue("observation target"))
        } else {
            let t = targets@[0];
            match bound_value(m.state, (t.device_id, t.endpoint_id@, t.capability@, field@)) {
                Some(v) => Ok(v),
                None => Err(AutomationEvaluationError::MissingValue("observation")),
            }
        },
    }
}

/// A comparison of two values under the ports' decimal orders.
pub open spec fn model_comparison(
    m: PortsModel,
    left: AutomationValue,
    operator: AutomationComparison,
    right: AutomationValue,
) -> Result<bool, AutomationEvaluationError> {
    let order = match (left, right) {
        (AutomationValue::Decimal(l), AutomationValue::Decimal(r)) => listed_decimal_order(m.decimal_orders, l@, r@),
        (AutomationValue::Null, AutomationValue::Null) => Some(AutomationOrder::Equal),
        (AutomationValue::Boolean(l), AutomationValue::Boolean(r)) => Some(
            int_order(if l { 1int } else { 0int }, if r { 1int } else { 0int }),
        ),
        (AutomationValue::Integer(l), AutomationValue::Integer(r)) => Some(int_order(l as int, r as int)),
        (AutomationValue::String(l), AutomationValue::String(r)) => Some(text_order(l@, r@)),
        (AutomationValue::Timestamp(l), AutomationValue::Timestamp(r)) => Some(int_order(l as int, r as int)),
        (AutomationValue::DurationMillis(l), AutomationValue::DurationMillis(r)) => Some(int_order(l as int, r as int)),
        _ => None,
    };
    match order {
        Some(o) => Ok(order_satisfies(o, operator)),
        None => Err(AutomationEvaluationError::TypeMismatch),
    }
}

/// The value of a condition over virtual time and the ports after evaluating
/// it: a continuous duration holds when its condition holds now, after each
/// state change due before its deadline, and at the deadline, to which the
/// clock then advances.
pub open spec fn simulated_condition(
    c: ResolvedAutomationCondition,
    vars: Seq<(String, AutomationValue)>,
    m: PortsModel,
) -> (Result<bool, AutomationEvaluationError>, PortsModel)
    decreases c, 0nat,
{
    match c {
        ResolvedAutomationCondition::Literal { value } => (Ok(value), m),
        ResolvedAutomationCondition::Compare { left, operator, right } => match model_expression(left, vars, m) {
            Err(e) => (Err(e), m),
            Ok(l) => match model_expression(right, vars, m) {
                Err(e) => (Err(e), m),
                Ok(r) => (model_comparison(m, l, operator, r), m),
            },
        },
        ResolvedAutomationCondition::All { conditions } => simulated_all(conditions@, vars, m),
        ResolvedAutomationCondition::Any { conditions } => simulated_any(conditions@, vars, m),
        ResolvedAutomationCondition::Not { condition } => {
            let (r, m1) = simulated_condition(*condition, vars, m);
            (
                match r {
                    Ok(b) => Ok(!b),
                    Err(e) => Err(e),
                },
                m1,
            )
        },
        ResolvedAutomationCondition::TimeWindow { timezone, start, end } => (
            time_window_result(m.now, timezone@, start@, end@),
            m,
        ),
        ResolvedAutomationCondition::StateDuration { condition, duration_ms } => {
            let (r, m1) = simulated_condition(*condition, vars, m);
            match r {
                Ok(true) => match utc_add_millis(m1.now, duration_ms) {
                    Some(deadline) => held_until(
                        *condition,
                        vars,
                        deadline,
                        m1,
                        (m1.changes.len() - m1.next_change) as nat,
                    ),
                    None => (Err(AutomationEvaluationError::TypeMismatch), m1),
                },
                other => (other, m1),
            }
        },
    }
}

/// Conjunction over virtual time: the first failure or false value decides.
pub open spec fn simulated_all(
    cs: Seq<ResolvedAutomationCondition>,
    vars: Seq<(String, AutomationValue)>,
    m: PortsModel,
) -> (Result<bool, AutomationEvaluationError>, PortsModel)
    decreases cs, 0nat,
{
    if cs.len() == 0 {
        (Ok(true), m)
    } else {
        let (r, m1) = simulated_condition(cs[0], vars, m);
        match r {
            Ok(true) => simulated_all(cs.drop_first(), vars, m1),
            other => (other, m1),
        }
    }
}

/// Disjunction over virtual time: the first failure or true value decides.
pub open spec fn simulated_any(
    cs: Seq<ResolvedAutomationCondition>,
    vars: Seq<(String, AutomationValue)>,
    m: PortsModel,
) -> (Result<bool, AutomationEvaluationError>, PortsModel)
    decreases cs, 0nat,
{
    if cs.len() == 0 {
        (Ok(false), m)
    } else {
        let (r, m1) = simulated_condition(cs[0], vars, m);
        match r {
            Ok(false) => simulated_any(cs.drop_first(), vars, m1),
            other => (other, m1),
        }
    }
}

/// Whether the condition keeps holding at each state change due by the
/// deadline (at most `fuel` of them), then at the deadline itself.
pub open spec fn held_until(
    c: ResolvedAutomationCondition,
    vars: Seq<(String, AutomationValue)>,
    deadline: i64,
    m: PortsModel,
    fuel: nat,
) -> (Result<bool, AutomationEvaluationError>, PortsModel)
    decreases c, fuel + 1,
{
    match due_change(m, deadline) {
        Some(at) if fuel > 0 => {
            let (r, m1) = simulated_condition(c, vars, advanced(m, at));
            match r {
                Ok(true) => held_until(c, vars, deadline, m1, (fuel - 1) as nat),
                other => (other, m1),
            }
        },
        _ => simulated_condition(c, vars, advanced(m, deadline)),
    }
}

proof fn lemma_due_through_bounds(changes: Seq<SimulationStateChange>, i: int, at: i64)
    requires
        0 <= i <= changes.len(),
    ensures
        i <= due_through(changes, i, at) <= changes.len(),
        i < changes.len() && changes[i].at <= at ==> due_through(changes, i, at) > i,
    decreases changes.len() - i,
{
    if i < changes.len() && changes[i].at <= at {
        lemma_due_through_bounds(changes, i + 1, at);
    }
}

pub(crate) proof fn lemma_expression_on_model(e: ResolvedAutomationExpression, vars: Seq<(String, AutomationValue)>, p: VirtualSimulationPorts)
    ensures
        expression_value(e, vars, p) == model_expression(e, vars, p.model()),
{
}

proof fn lemma_comparison_on_model(p: VirtualSimulationPorts, l: AutomationValue, operator: AutomationComparison, r: AutomationValue)
    ensures
        comparison_result(p, l, operator, r) == model_comparison(p.model(), l, operator, r),
{
}

/// Moves the ports to `at` and states the move over the model.
pub(crate) fn advance_ports(ports: &mut VirtualSimulationPorts, at: i64)
    requires
        old(ports).wf(),
    ensures
        final(ports).wf(),
        final(ports).model() == advanced(old(ports).model(), at),
        final(ports).next_change >= old(ports).next_change,
        final(ports).changes@ == old(ports).changes@,
        old(ports).next_change < old(ports).changes@.len() && old(ports).changes@[old(ports).next_change as int].at
            <= at ==> final(ports).next_change > old(ports).next_change,
{
    ports.advance_to(at);
    proof {
        lemma_due_through_bounds(old(ports).changes@, old(ports).next_change as int, at);
    }
}

/// Evaluates a condition in the simulation, over virtual time: continuous
/// durations advance the ports through the state changes due before their
/// deadline.
pub fn simulate_condition(
    c: &ResolvedAutomationCondition,
    vars: &Vec<(String, AutomationValue)>,
    ports: &mut VirtualSimulationPorts,
) -> (r: Result<bool, AutomationEvaluationError>)
    requires
        old(ports).wf(),
    ensures
        final(ports).wf(),
        (r, final(ports).model()) == simulated_condition(*c, vars@, old(ports).model()),
        final(ports).next_change >= old(ports).next_change,
        final(ports).changes@ == old(ports).changes@,
    decreases c,
{
    match c {
        ResolvedAutomationCondition::Literal { value } => Ok(*value),
        ResolvedAutomationCondition::Compare { left, operator, right } => {
            proof {
                lemma_expression_on_model(*left, vars@, *ports);
                lemma_expression_on_model(*right, vars@, *ports);
            }
            let l = match evaluate_automation_expression(left, vars, &*ports) {
                Ok(v) => v,
                Err(e) => return Err(e),
            };
            let r = match evaluate_automation_expression(right, vars, &*ports) {
                Ok(v) => v,
                Err(e) => return Err(e),
            };
            proof {
                lemma_comparison_on_model(*ports, l, *operator, r);
            }
            compare_values(&*ports, &l, *operator, &r)
        },
        ResolvedAutomationCondition::All { conditions } => {
            let ghost m0 = ports.model();
            let mut i: usize = 0;
            assert(conditions@.skip(0) =~= conditions@);
            while i < conditions.len()
                invariant
                    ports.wf(),
                    i <= conditions@.len(),
                    *c == (ResolvedAutomationCondition::All { conditions: *conditions }),
                    simulated_all(conditions@, vars@, m0) == simulated_all(conditions@.skip(i as int), vars@, ports.model()),
                    ports.next_change >= old(ports).next_change,
                    ports.changes@ == old(ports).changes@,
                    m0 == old(ports).model(),
                decreases conditions@.len() - i,
            {
                assert(conditions@.skip(i as int).drop_first() =~= conditions@.skip(i + 1));
                assert(conditions@.skip(i as int)[0] == conditions@[i as int]);
                proof {
                    match c {
                        ResolvedAutomationCondition::All { conditions: cc } => {
                            assert(decreases_to!(*c => *cc));
                            assert(decreases_to!(*cc => cc@));
                            assert(decreases_to!(cc@ => cc@[i as int]));
                        },
                        ResolvedAutomationCondition::Any { conditions: cc } => {
                            assert(decreases_to!(*c => *cc));
                            assert(decreases_to!(*cc => cc@));
                            assert(decreases_to!(cc@ => cc@[i as int]));
                        },
                        _ => {},
                    }
                    assert(decreases_to!(*c => conditions@[i as int]));
                }
                let r = simulate_condition(&conditions[i], vars, ports);
                match r {
                    Ok(true) => {},
                    _ => {
                        return r;
                    },
                }
                i = i + 1;
            }
            Ok(true)
        },
        ResolvedAutomationCondition::Any { conditions } => {
            let ghost m0 = ports.model();
            let mut i: usize = 0;
            assert(conditions@.skip(0) =~= conditions@);
            while i < conditions.len()
                invariant
                    ports.wf(),
                    i <= conditions@.len(),
                    *c == (ResolvedAutomationCondition::Any { conditions: *conditions }),
                    simulated_any(conditions@, vars@, m0) == simulated_any(conditions@.skip(i as int), vars@, ports.model()),
                    ports.next_change >= old(ports).next_change,
                    ports.changes@ == old(ports).changes@,
                    m0 == old(ports).model(),
                decreases conditions@.len() - i,
            {
                assert(conditions@.skip(i as int).drop_first() =~= conditions@.skip(i + 1));
                assert(conditions@.skip(i as int)[0] == conditions@[i as int]);
                proof {
                    match c {
                        ResolvedAutomationCondition::All { conditions: cc } => {
                            assert(decreases_to!(*c => *cc));
                            assert(decreases_to!(*cc => cc@));
                            assert(decreases_to!(cc@ => cc@[i as int]));
                        },
                        ResolvedAutomationCondition::Any { conditions: cc } => {
                            assert(decreases_to!(*c => *cc));
                            assert(decreases_to!(*cc => cc@));
                            assert(decreases_to!(cc@ => cc@[i as int]));
                        },
                        _ => {},
                    }
                    assert(decreases_to!(*c => conditions@[i as int]));
                }
                let r = simulate_condition(&conditions[i], vars, ports);
                match r {
                    Ok(false) => {},
                    _ => {
                        return r;
                    },
                }
                i = i + 1;
            }
            Ok(false)
        },
        ResolvedAutomationCondition::Not { condition } => {
            let r = simulate_condition(condition, vars, ports);
            match r {
                Ok(b) => Ok(!b),
                Err(e) => Err(e),
            }
        },
        ResolvedAutomationCondition::TimeWindow { timezone, start, end } => evaluate_time_window(
            ports.now,
            timezone.as_str(),
            start.as_str(),
            end.as_str(),
        ),
        ResolvedAutomationCondition::StateDuration { condition, duration_ms } => {
            let first = simulate_condition(condition, vars, ports);
            match first {
                Ok(true) => {},
                _ => {
                    return first;
                },
            }
            let deadline = match add_millis(ports.now, *duration_ms) {
                Some(d) => d,
                None => {
                    return Err(AutomationEvaluationError::TypeMismatch);
                },
            };
            let ghost m1 = ports.model();
            let ghost mut fuel: nat = (ports.changes@.len() - ports.next_change) as nat;
            let ghost goal = held_until(**condition, vars@, deadline, m1, fuel);
            assert(simulated_condition(*c, vars@, old(ports).model()) == goal);
            loop
                invariant
                    ports.wf(),
                    *c == (ResolvedAutomationCondition::StateDuration { condition: *condition, duration_ms: *duration_ms }),
                    goal == held_until(**condition, vars@, deadline, ports.model(), fuel),
                    fuel >= ports.changes@.len() - ports.next_change,
                    ports.next_change >= old(ports).next_change,
                    ports.changes@ == old(ports).changes@,
                    goal == simulated_condition(*c, vars@, old(ports).model()),
                decreases ports.changes@.len() - ports.next_change,
            {
                match ports.next_change_through(deadline) {
                    Some(at) => {
                        let ghost before = ports.next_change;
                        advance_ports(ports, at);
                        proof {
                            lemma_due_through_bounds(ports.changes@, before as int, at);
                        }
                        let r = simulate_condition(condition, vars, ports);
                        match r {
                            Ok(true) => {
                                proof {
                                    fuel = (fuel - 1) as nat;
                                }
                            },
                            _ => {
                                return r;
                            },
                        }
                    },
                    None => {
                        advance_ports(ports, deadline);
                        return simulate_condition(condition, vars, ports);
                    },
                }
            }
        },
    }
}

} // verus!
