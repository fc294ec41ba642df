//! Runtime evaluation of compiled conditions against a run's durable
//! continuous-duration state.

use vstd::prelude::*;

use crate::automation_evaluator::{
    all_duration_free, all_value, any_value, condition_value, duration_free, evaluate_automation_condition, same_target, AutomationEvaluationContext,
    AutomationEvaluationError, AutomationOrder, AutomationValue, ResolvedAutomationCondition,
    ResolvedAutomationExpression, SnapshotEvaluationContext,
};
use crate::automation_events::{contains_field, contains_text, ResolvedAutomationTarget};
use crate::automation_runtime::{
    cancel_timer, copy_duration, find_duration, find_timer, retain_valid_durations, state_duration_step, AutomationConditionDuration,
    AutomationConditionDurationPhase, AutomationTimerState, RuntimeDurationRequest,
};
use crate::ports::str_eq;
use crate::time::utc_add_millis;

verus! {

/// Whether two values are the same value.
pub open spec fn same_value(a: AutomationValue, b: AutomationValue) -> bool {
    match (a, b) {
        (AutomationValue::Null, AutomationValue::Null) => true,
        (AutomationValue::Boolean(x), AutomationValue::Boolean(y)) => x == y,
        (AutomationValue::Integer(x), AutomationValue::Integer(y)) => x == y,
        (AutomationValue::Decimal(x), AutomationValue::Decimal(y)) => x@ == y@,
        (AutomationValue::String(x), AutomationValue::String(y)) => x@ == y@,
        (AutomationValue::Timestamp(x), AutomationValue::Timestamp(y)) => x == y,
        (AutomationValue::DurationMillis(x), AutomationValue::DurationMillis(y)) => x == y,
        _ => false,
    }
}

/// Whether two target lists are the same, element by element.
pub open spec fn same_targets(a: Seq<ResolvedAutomationTarget>, b: Seq<ResolvedAutomationTarget>) -> bool {
    a.len() == b.len() && forall|i: int| 0 <= i < a.len() ==> same_target(#[trigger] a[i], b[i])
}

/// Whether two expressions are the same expression.
pub open spec fn same_expression(a: ResolvedAutomationExpression, b: ResolvedAutomationExpression) -> bool {
    match (a, b) {
        (ResolvedAutomationExpression::Literal { value: x }, ResolvedAutomationExpression::Literal { value: y }) => same_value(x, y),
        (ResolvedAutomationExpression::Variable { name: x }, ResolvedAutomationExpression::Variable { name: y }) => x@ == y@,
        (
            ResolvedAutomationExpression::Observation { targets: t, field: f },
            ResolvedAutomationExpression::Observation { targets: u, field: g },
        ) => same_targets(t@, u@) && f@ == g@,
        _ => false,
    }
}

/// Whether two conditions are the same condition.
pub open spec fn same_condition(a: ResolvedAutomationCondition, b: ResolvedAutomationCondition) -> bool
    decreases a,
{
    match (a, b) {
        (ResolvedAutomationCondition::Literal { value: x }, ResolvedAutomationCondition::Literal { value: y }) => x == y,
        (
            ResolvedAutomationCondition::Compare { left: l1, operator: o1, right: r1 },
            ResolvedAutomationCondition::Compare { left: l2, operator: o2, right: r2 },
        ) => same_expression(l1, l2) && o1 == o2 && same_expression(r1, r2),
        (ResolvedAutomationCondition::All { conditions: x }, ResolvedAutomationCondition::All { conditions: y }) => same_conditions(x@, y@),
        (ResolvedAutomationCondition::Any { conditions: x }, ResolvedAutomationCondition::Any { conditions: y }) => same_conditions(x@, y@),
        (ResolvedAutomationCondition::Not { condition: x }, ResolvedAutomationCondition::Not { condition: y }) => same_condition(*x, *y),
        (
            ResolvedAutomationCondition::TimeWindow { timezone: z1, start: s1, end: e1 },
            ResolvedAutomationCondition::TimeWindow { timezone: z2, start: s2, end: e2 },
        ) => z1@ == z2@ && s1@ == s2@ && e1@ == e2@,
        (
            ResolvedAutomationCondition::StateDuration { condition: x, duration_ms: m },
            ResolvedAutomationCondition::StateDuration { condition: y, duration_ms: n },
        ) => same_condition(*x, *y) && m == n,
        _ => false,
    }
}

/// Whether two condition lists are the same, element by element.
pub open spec fn same_conditions(a: Seq<ResolvedAutomationCondition>, b: Seq<ResolvedAutomationCondition>) -> bool
    decreases a,
{
    if a.len() == 0 {
        b.len() == 0
    } else {
        b.len() != 0 && same_condition(a[0], b[0]) && same_conditions(a.drop_first(), b.drop_first())
    }
}

fn value_eq(a: &AutomationValue, b: &AutomationValue) -> (r: bool)
    ensures
        r == same_value(*a, *b),
{
    match (a, b) {
        (AutomationValue::Null, AutomationValue::Null) => true,
        (AutomationValue::Boolean(x), AutomationValue::Boolean(y)) => *x == *y,
        (AutomationValue::Integer(x), AutomationValue::Integer(y)) => *x == *y,
        (AutomationValue::Decimal(x), AutomationValue::Decimal(y)) => str_eq(x.as_str(), y.as_str()),
        (AutomationValue::String(x), AutomationValue::String(y)) => str_eq(x.as_str(), y.as_str()),
        (AutomationValue::Timestamp(x), AutomationValue::Timestamp(y)) => *x == *y,
        (AutomationValue::DurationMillis(x), AutomationValue::DurationMillis(y)) => *x == *y,
        _ => false,
    }
}

fn targets_eq(a: &Vec<ResolvedAutomationTarget>, b: &Vec<ResolvedAutomationTarget>) -> (r: bool)
    ensures
        r == same_targets(a@, b@),
{
    if a.len() != b.len() {
        return false;
    }
    let mut i: usize = 0;
    while i < a.len()
        invariant
            i <= a@.len(),
            a@.len() == b@.len(),
            forall|j: int| 0 <= j < i ==> same_target(#[trigger] a@[j], b@[j]),
        decreases a@.len() - i,
    {
        let x = &a[i];
        let y = &b[i];
        if !(x.device_id == y.device_id && str_eq(x.endpoint_id.as_str(), y.endpoint_id.as_str()) && str_eq(
            x.capability.as_str(),
            y.capability.as_str(),
        )) {
            return false;
        }
        i = i + 1;
    }
    true
}

fn expression_eq(a: &ResolvedAutomationExpression, b: &ResolvedAutomationExpression) -> (r: bool)
    ensures
        r == same_expression(*a, *b),
{
    match (a, b) {
        (ResolvedAutomationExpression::Literal { value: x }, ResolvedAutomationExpression::Literal { value: y }) => value_eq(x, y),
        (ResolvedAutomationExpression::Variable { name: x }, ResolvedAutomationExpression::Variable { name: y }) => str_eq(
            x.as_str(),
            y.as_str(),
        ),
        (
            ResolvedAutomationExpression::Observation { targets: t, field: f },
            ResolvedAutomationExpression::Observation { targets: u, field: g },
        ) => targets_eq(t, u) && str_eq(f.as_str(), g.as_str()),
        _ => false,
    }
}

/// Whether two conditions are the same condition.
pub fn condition_eq(a: &ResolvedAutomationCondition, b: &ResolvedAutomationCondition) -> (r: bool)
    ensures
        r == same_condition(*a, *b),
    decreases *a,
{
    match (a, b) {
        (ResolvedAutomationCondition::Literal { value: x }, ResolvedAutomationCondition::Literal { value: y }) => *x == *y,
        (
            ResolvedAutomationCondition::Compare { left: l1, operator: o1, right: r1 },
            ResolvedAutomationCondition::Compare { left: l2, operator: o2, right: r2 },
        ) => expression_eq(l1, l2) && *o1 == *o2 && expression_eq(r1, r2),
        (ResolvedAutomationCondition::All { conditions: x }, ResolvedAutomationCondition::All { conditions: y }) => {
            conditions_eq(a, x, y)
        },
        (ResolvedAutomationCondition::Any { conditions: x }, ResolvedAutomationCondition::Any { conditions: y }) => {
            conditions_eq(a, x, y)
        },
        (ResolvedAutomationCondition::Not { condition: x }, ResolvedAutomationCondition::Not { condition: y }) => {
            condition_eq(x, y)
        },
        (
            ResolvedAutomationCondition::TimeWindow { timezone: z1, start: s1, end: e1 },
            ResolvedAutomationCondition::TimeWindow { timezone: z2, start: s2, end: e2 },
        ) => str_eq(z1.as_str(), z2.as_str()) && str_eq(s1.as_str(), s2.as_str()) && str_eq(e1.as_str(), e2.as_str()),
        (
            ResolvedAutomationCondition::StateDuration { condition: x, duration_ms: m },
            ResolvedAutomationCondition::StateDuration { condition: y, duration_ms: n },
        ) => condition_eq(x, y) && *m == *n,
        _ => false,
    }
}

/// Whether `x` is the condition list of a conjunction or disjunction `parent`.
pub open spec fn conditions_of(parent: ResolvedAutomationCondition, x: Vec<ResolvedAutomationCondition>) -> bool {
    match parent {
        ResolvedAutomationCondition::All { conditions } => conditions == x,
        ResolvedAutomationCondition::Any { conditions } => conditions == x,
        _ => false,
    }
}

/// Compares the condition lists of `parent`, element by element.
fn conditions_eq(
    parent: &ResolvedAutomationCondition,
    x: &Vec<ResolvedAutomationCondition>,
    y: &Vec<ResolvedAutomationCondition>,
) -> (r: bool)
    requires
        conditions_of(*parent, *x),
    ensures
        r == same_conditions(x@, y@),
    decreases *parent, 0nat,
{
    let mut i: usize = 0;
    assert(x@.skip(0) =~= x@);
    assert(y@.skip(0) =~= y@);
    while i < x.len()
        invariant
            i <= x@.len(),
            same_conditions(x@, y@) == same_conditions(x@.skip(i as int), y@.skip(i as int)) || i > y@.len(),
            i <= y@.len(),
            conditions_of(*parent, *x),
        decreases x@.len() - i,
    {
        if i >= y.len() {
            assert(x@.skip(i as int).len() != 0 && y@.skip(i as int).len() == 0);
            return false;
        }
        assert(x@.skip(i as int)[0] == x@[i as int]);
        assert(y@.skip(i as int)[0] == y@[i as int]);
        assert(x@.skip(i as int).drop_first() =~= x@.skip(i + 1));
        assert(y@.skip(i as int).drop_first() =~= y@.skip(i + 1));
        proof {
            assert(decreases_to!(*parent => x@[i as int]));
        }
        if !condition_eq(&x[i], &y[i]) {
            return false;
        }
        i = i + 1;
    }
    assert(x@.skip(i as int).len() == 0);
    i == y.len()
}

/// The durable hash the host computed for a state-duration condition: the
/// inner condition, its duration, and their canonical hash.
#[derive(Debug)]
pub struct ConditionDigest {
    pub condition: ResolvedAutomationCondition,
    pub duration_ms: u64,
    pub hash: String,
}

/// The hash of the first digest listed for this condition and duration.
pub open spec fn listed_digest(digests: Seq<ConditionDigest>, condition: ResolvedAutomationCondition, duration_ms: u64) -> Option<
    String,
>
    decreases digests.len(),
{
    if digests.len() == 0 {
        None
    } else if same_condition(digests[0].condition, condition) && digests[0].duration_ms == duration_ms {
        Some(digests[0].hash)
    } else {
        listed_digest(digests.drop_first(), condition, duration_ms)
    }
}

fn find_digest(digests: &Vec<ConditionDigest>, condition: &ResolvedAutomationCondition, duration_ms: u64) -> (r: Option<
    usize,
>)
    ensures
        match r {
            Some(i) => i < digests@.len() && listed_digest(digests@, *condition, duration_ms) == Some(digests@[i as int].hash),
            None => listed_digest(digests@, *condition, duration_ms) is None,
        },
{
    let mut i: usize = 0;
    assert(digests@.skip(0) =~= digests@);
    while i < digests.len()
        invariant
            i <= digests@.len(),
            listed_digest(digests@, *condition, duration_ms) == listed_digest(digests@.skip(i as int), *condition, duration_ms),
        decreases digests@.len() - i,
    {
        assert(digests@.skip(i as int).drop_first() =~= digests@.skip(i + 1));
        assert(digests@.skip(i as int)[0] == digests@[i as int]);
        if condition_eq(&digests[i].condition, condition) && digests[i].duration_ms == duration_ms {
            return Some(i);
        }
        i = i + 1;
    }
    None
}

/// A durable duration request as mathematical values.
pub enum DurationRequestModel {
    Start { node_id: u32, hash: Seq<char>, duration_ms: u64, ready_at: i64 },
    Pending,
    Mature { hash: Seq<char>, timer_id: u64 },
}

/// The model of a durable duration request.
pub open spec fn request_model(q: RuntimeDurationRequest) -> DurationRequestModel {
    match q {
        RuntimeDurationRequest::Start { node_id, condition_hash, duration_ms, ready_at } => DurationRequestModel::Start {
            node_id,
            hash: condition_hash@,
            duration_ms,
            ready_at,
        },
        RuntimeDurationRequest::Pending => DurationRequestModel::Pending,
        RuntimeDurationRequest::Mature { condition_hash, timer_id } => DurationRequestModel::Mature {
            hash: condition_hash@,
            timer_id,
        },
    }
}

/// The result of a state duration whose inner condition evaluated to `inner`:
/// a false inner condition is false (and resets its interval); a mature
/// interval is true; otherwise the host must wait durably, unless the pending
/// interval's timer is gone or the deadline cannot be represented.
pub open spec fn duration_result(
    inner: bool,
    hash: Seq<char>,
    duration_ms: u64,
    durations: Seq<AutomationConditionDuration>,
    timers: Seq<(u64, AutomationTimerState)>,
    now: i64,
) -> Result<bool, AutomationEvaluationError> {
    if !inner {
        Ok(false)
    } else {
        match find_duration(durations, hash) {
            Some(d) => match d.phase {
                AutomationConditionDurationPhase::Mature => Ok(true),
                AutomationConditionDurationPhase::Pending => match find_timer(timers, d.timer_id) {
                    Some(AutomationTimerState::Pending) | Some(AutomationTimerState::Ready) => Err(
                        AutomationEvaluationError::DurableDurationRequired,
                    ),
                    _ => Err(AutomationEvaluationError::DurationTimerMissing),
                },
            },
            None => match utc_add_millis(now, duration_ms) {
                Some(_) => Err(AutomationEvaluationError::DurableDurationRequired),
                None => Err(AutomationEvaluationError::DurationOverflow),
            },
        }
    }
}

/// The durable work such a state duration asks for: a new interval ready after
/// the duration, a still-running interval, or a matured one; none otherwise.
pub open spec fn duration_request(
    inner: bool,
    node_id: u32,
    hash: Seq<char>,
    duration_ms: u64,
    durations: Seq<AutomationConditionDuration>,
    timers: Seq<(u64, AutomationTimerState)>,
    now: i64,
) -> Option<DurationRequestModel> {
    if !inner {
        None
    } else {
        match find_duration(durations, hash) {
            Some(d) => match d.phase {
                AutomationConditionDurationPhase::Mature => None,
                AutomationConditionDurationPhase::Pending => match find_timer(timers, d.timer_id) {
                    Some(AutomationTimerState::Pending) => Some(DurationRequestModel::Pending),
                    Some(AutomationTimerState::Ready) => Some(DurationRequestModel::Mature { hash, timer_id: d.timer_id }),
                    _ => None,
                },
            },
            None => match utc_add_millis(now, duration_ms) {
                Some(t) => Some(DurationRequestModel::Start { node_id, hash, duration_ms, ready_at: t }),
                None => None,
            },
        }
    }
}

/// Evaluation context of a running automation: the snapshot it reads, the run
/// and node it evaluates for, the run's recorded intervals and the states of
/// their timers, and the condition hashes the host computed. Evaluation
/// leaves behind the durable work it asks for and the hashes of the intervals
/// it reset.
#[derive(Debug)]
pub struct RuntimeEvaluationContext {
    pub snapshot: SnapshotEvaluationContext,
    pub run_id: Option<u64>,
    pub node_id: Option<u32>,
    pub durations: Vec<AutomationConditionDuration>,
    pub timers: Vec<(u64, AutomationTimerState)>,
    pub digests: Vec<ConditionDigest>,
    pub request: Option<RuntimeDurationRequest>,
    pub invalid_durations: Vec<String>,
}

/// Whether `b` keeps `a`'s run, node, intervals, timers and hashes.
pub open spec fn same_records(a: RuntimeEvaluationContext, b: RuntimeEvaluationContext) -> bool {
    &&& a.run_id == b.run_id
    &&& a.node_id == b.node_id
    &&& a.durations@ == b.durations@
    &&& a.timers@ == b.timers@
    &&& a.digests@ == b.digests@
}

impl AutomationEvaluationContext for RuntimeEvaluationContext {
    open spec fn spec_now(&self) -> i64 {
        self.snapshot.spec_now()
    }

    open spec fn spec_observation(&self, target: ResolvedAutomationTarget, field: Seq<char>) -> Option<AutomationValue> {
        self.snapshot.spec_observation(target, field)
    }

    open spec fn spec_decimal_order(&self, left: Seq<char>, right: Seq<char>) -> Option<AutomationOrder> {
        self.snapshot.spec_decimal_order(left, right)
    }

    fn now(&self) -> (t: i64) {
        self.snapshot.now()
    }

    fn observation(&self, target: &ResolvedAutomationTarget, field: &str) -> (r: Option<AutomationValue>) {
        self.snapshot.observation(target, field)
    }

    fn decimal_order(&self, left: &str, right: &str) -> (r: Option<AutomationOrder>) {
        self.snapshot.decimal_order(left, right)
    }

    /// A state duration needs a run and a node, and the host's hash of the
    /// condition and duration. Its inner condition is evaluated statelessly over
    /// the snapshot; a false one resets the interval, and a true one is decided
    /// by the run's recorded interval and its timer.
    fn state_duration(
        &mut self,
        condition: &ResolvedAutomationCondition,
        duration_ms: u64,
        variables: &Vec<(String, AutomationValue)>,
    ) -> (r: Result<bool, AutomationEvaluationError>)
        ensures
            same_records(*old(self), *final(self)),
            duration_free(*condition) ==> final(self).snapshot == old(self).snapshot,
            old(self).run_id is None || old(self).node_id is None ==> r == Err::<bool, AutomationEvaluationError>(
                AutomationEvaluationError::DurableDurationRequired,
            ) && *final(self) == *old(self),
            old(self).run_id is Some && old(self).node_id is Some && listed_digest(old(self).digests@, *condition, duration_ms)
                is None ==> r == Err::<bool, AutomationEvaluationError>(AutomationEvaluationError::ConditionHash)
                && *final(self) == *old(self),
            old(self).run_id is Some ==> (old(self).node_id matches Some(n) ==> (listed_digest(
                old(self).digests@,
                *condition,
                duration_ms,
            ) matches Some(h) ==> (duration_free(*condition) ==> match condition_value(*condition, variables@, old(self).snapshot) {
                Err(e) => r == Err::<bool, AutomationEvaluationError>(e) && *final(self) == *old(self),
                Ok(inner) => {
                    &&& r == duration_result(inner, h@, duration_ms, old(self).durations@, old(self).timers@, old(self).snapshot.now)
                    &&& match duration_request(inner, n, h@, duration_ms, old(self).durations@, old(self).timers@, old(self).snapshot.now) {
                        None => final(self).request == old(self).request,
                        Some(m) => final(self).request matches Some(q) && request_model(q) == m,
                    }
                    &&& final(self).invalid_durations@ == (if inner { old(self).invalid_durations@ } else { old(self).invalid_durations@.push(h) })
                },
            }))),
    {
        let node_id = match self.node_id {
            Some(n) => n,
            None => return Err(AutomationEvaluationError::DurableDurationRequired),
        };
        if self.run_id.is_none() {
            return Err(AutomationEvaluationError::DurableDurationRequired);
        }
        let k = match find_digest(&self.digests, condition, duration_ms) {
            Some(k) => k,
            None => return Err(AutomationEvaluationError::ConditionHash),
        };
        let inner = match evaluate_automation_condition(condition, variables, &mut self.snapshot) {
            Ok(b) => b,
            Err(e) => return Err(e),
        };
        let step = state_duration_step(node_id, &self.digests[k].hash, inner, duration_ms, &self.durations, &self.timers, self.snapshot.now);
        if step.invalidated {
            let h = self.digests[k].hash.clone();
            self.invalid_durations.push(h);
        }
        match step.request {
            Some(q) => {
                self.request = Some(q);
            },
            None => {},
        }
        step.result
    }
}

/// Whether a reset interval of `durations` uses the timer `id`.
pub open spec fn timer_reset(durations: Seq<AutomationConditionDuration>, reset: Seq<String>, id: u64) -> bool
    decreases durations.len(),
{
    if durations.len() == 0 {
        false
    } else {
        (durations[0].timer_id == id && contains_text(reset, durations[0].condition_hash@)) || timer_reset(
            durations.drop_first(),
            reset,
            id,
        )
    }
}

fn is_timer_reset(durations: &Vec<AutomationConditionDuration>, reset: &Vec<String>, id: u64) -> (b: bool)
    ensures
        b == timer_reset(durations@, reset@, id),
{
    let mut i: usize = 0;
    assert(durations@.skip(0) =~= durations@);
    while i < durations.len()
        invariant
            i <= durations@.len(),
            timer_reset(durations@, reset@, id) == timer_reset(durations@.skip(i as int), reset@, id),
        decreases durations@.len() - i,
    {
        assert(durations@.skip(i as int).drop_first() =~= durations@.skip(i + 1));
        assert(durations@.skip(i as int)[0] == durations@[i as int]);
        if durations[i].timer_id == id && contains_field(reset, durations[i].condition_hash.as_str()) {
            return true;
        }
        i = i + 1;
    }
    false
}

/// The timers of reset intervals, cancelled, in order.
pub open spec fn reset_timers(
    timers: Seq<(u64, AutomationTimerState)>,
    durations: Seq<AutomationConditionDuration>,
    reset: Seq<String>,
) -> Seq<(u64, AutomationTimerState)>
    decreases timers.len(),
{
    if timers.len() == 0 {
        Seq::empty()
    } else {
        let earlier = reset_timers(timers.drop_last(), durations, reset);
        let t = timers.last();
        if timer_reset(durations, reset, t.0) {
            earlier.push(
                (
                    t.0,
                    if t.1 == AutomationTimerState::Pending || t.1 == AutomationTimerState::Ready {
                        AutomationTimerState::Cancelled
                    } else {
                        t.1
                    },
                ),
            )
        } else {
            earlier
        }
    }
}

/// The timers of intervals that stay, in order.
pub open spec fn active_timers(
    timers: Seq<(u64, AutomationTimerState)>,
    durations: Seq<AutomationConditionDuration>,
    reset: Seq<String>,
) -> Seq<(u64, AutomationTimerState)>
    decreases timers.len(),
{
    if timers.len() == 0 {
        Seq::empty()
    } else {
        let earlier = active_timers(timers.drop_last(), durations, reset);
        if timer_reset(durations, reset, timers.last().0) {
            earlier
        } else {
            earlier.push(timers.last())
        }
    }
}

/// What a runtime condition evaluation leaves behind.
#[derive(Debug)]
pub struct RuntimeConditionOutcome {
    pub result: Result<bool, AutomationEvaluationError>,
    /// The run's intervals without the reset ones.
    pub durations: Vec<AutomationConditionDuration>,
    /// Hashes of the intervals the evaluation reset.
    pub reset: Vec<String>,
    /// Timers of reset intervals, cancelled.
    pub reset_timers: Vec<(u64, AutomationTimerState)>,
    /// Timers of the intervals that stay.
    pub active_timers: Vec<(u64, AutomationTimerState)>,
    /// Durable work the evaluation asks for.
    pub request: Option<RuntimeDurationRequest>,
}

/// Over a condition without state durations, the runtime context evaluates as
/// its snapshot does.
pub proof fn lemma_runtime_condition_value(
    c: ResolvedAutomationCondition,
    vars: Seq<(String, AutomationValue)>,
    context: RuntimeEvaluationContext,
)
    requires
        duration_free(c),
    ensures
        condition_value(c, vars, context) == condition_value(c, vars, context.snapshot),
    decreases c,
{
    match c {
        ResolvedAutomationCondition::All { conditions } => lemma_runtime_conditions_value(conditions@, vars, context),
        ResolvedAutomationCondition::Any { conditions } => lemma_runtime_conditions_value(conditions@, vars, context),
        ResolvedAutomationCondition::Not { condition } => lemma_runtime_condition_value(*condition, vars, context),
        _ => {},
    }
}

proof fn lemma_runtime_conditions_value(
    cs: Seq<ResolvedAutomationCondition>,
    vars: Seq<(String, AutomationValue)>,
    context: RuntimeEvaluationContext,
)
    requires
        all_duration_free(cs),
    ensures
        all_value(cs, vars, context) == all_value(cs, vars, context.snapshot),
        any_value(cs, vars, context) == any_value(cs, vars, context.snapshot),
    decreases cs,
{
    if cs.len() > 0 {
        lemma_runtime_condition_value(cs[0], vars, context);
        lemma_runtime_conditions_value(cs.drop_first(), vars, context);
    }
}

fn copy_durations(durations: &Vec<AutomationConditionDuration>) -> (r: Vec<AutomationConditionDuration>)
    ensures
        r@ == durations@,
{
    let mut r: Vec<AutomationConditionDuration> = Vec::new();
    let mut i: usize = 0;
    while i < durations.len()
        invariant
            i <= durations@.len(),
            r@ == durations@.take(i as int),
        decreases durations@.len() - i,
    {
        r.push(copy_duration(&durations[i]));
        assert(durations@.take(i + 1) =~= durations@.take(i as int).push(durations@[i as int]));
        i = i + 1;
    }
    assert(durations@.take(durations@.len() as int) =~= durations@);
    r
}

fn copy_timers(timers: &Vec<(u64, AutomationTimerState)>) -> (r: Vec<(u64, AutomationTimerState)>)
    ensures
        r@ == timers@,
{
    let mut r: Vec<(u64, AutomationTimerState)> = Vec::new();
    let mut i: usize = 0;
    while i < timers.len()
        invariant
            i <= timers@.len(),
            r@ == timers@.take(i as int),
        decreases timers@.len() - i,
    {
        r.push(timers[i]);
        assert(timers@.take(i + 1) =~= timers@.take(i as int).push(timers@[i as int]));
        i = i + 1;
    }
    assert(timers@.take(timers@.len() as int) =~= timers@);
    r
}

/// Evaluates a run node's condition in its runtime context: the snapshot, the
/// run and node, the run's recorded intervals with their timers' states, and
/// the host's condition hashes. The intervals the evaluation reset are then
/// dropped and their timers cancelled; the other timers stay active. A
/// condition without state durations evaluates as over the snapshot alone and
/// resets nothing.
pub fn evaluate_runtime_condition(
    condition: &ResolvedAutomationCondition,
    variables: &Vec<(String, AutomationValue)>,
    snapshot: SnapshotEvaluationContext,
    run_id: u64,
    node_id: u32,
    durations: &Vec<AutomationConditionDuration>,
    timers: &Vec<(u64, AutomationTimerState)>,
    digests: Vec<ConditionDigest>,
) -> (r: RuntimeConditionOutcome)
    ensures
        r.durations@ == durations@.filter(|d: AutomationConditionDuration| !contains_text(r.reset@, d.condition_hash@)),
        r.reset_timers@ == reset_timers(timers@, durations@, r.reset@),
        r.active_timers@ == active_timers(timers@, durations@, r.reset@),
        duration_free(*condition) ==> {
            &&& r.result == condition_value(*condition, variables@, snapshot)
            &&& r.reset@.len() == 0
            &&& r.request is None
        },
{
    let mut context = RuntimeEvaluationContext {
        snapshot,
        run_id: Some(run_id),
        node_id: Some(node_id),
        durations: copy_durations(durations),
        timers: copy_timers(timers),
        digests,
        request: None,
        invalid_durations: Vec::new(),
    };
    let ghost start = context;
    proof {
        if duration_free(*condition) {
            lemma_runtime_condition_value(*condition, variables@, start);
        }
    }
    let result = evaluate_automation_condition(condition, variables, &mut context);
    let reset = context.invalid_durations;
    let request = context.request;
    let kept = retain_valid_durations(durations, &reset);
    let mut cancelled: Vec<(u64, AutomationTimerState)> = Vec::new();
    let mut active: Vec<(u64, AutomationTimerState)> = Vec::new();
    let mut i: usize = 0;
    while i < timers.len()
        invariant
            i <= timers@.len(),
            cancelled@ == reset_timers(timers@.take(i as int), durations@, reset@),
            active@ == active_timers(timers@.take(i as int), durations@, reset@),
        decreases timers@.len() - i,
    {
        assert(timers@.take(i + 1).drop_last() =~= timers@.take(i as int));
        assert(timers@.take(i + 1).last() == timers@[i as int]);
        let t = timers[i];
        if is_timer_reset(durations, &reset, t.0) {
            cancelled.push((t.0, cancel_timer(t.1)));
        } else {
            active.push(t);
        }
        i = i + 1;
    }
    assert(timers@.take(timers@.len() as int) =~= timers@);
    RuntimeConditionOutcome { result, durations: kept, reset, reset_timers: cancelled, active_timers: active, request }
}

} // verus!
