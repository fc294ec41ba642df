//! Shared deterministic expression and condition evaluation with
//! short-circuit semantics, used by simulation and runtime alike.

use chrono::Timelike;
use vstd::prelude::*;

use crate::automation_compiler::{local_time_of_day, local_time_value};
use crate::automation_events::ResolvedAutomationTarget;
use crate::ports::str_eq;

verus! {

/// A typed automation value.
#[derive(Clone, Debug, PartialEq, Eq)]
pub enum AutomationValue {
    Null,
    Boolean(bool),
    Integer(i64),
    /// Canonical decimal text.
    Decimal(String),
    String(String),
    /// Instant in milliseconds since the Unix epoch.
    Timestamp(i64),
    DurationMillis(u64),
}

/// Order of two comparable values.
#[derive(Clone, Copy, Debug, PartialEq, Eq, Structural)]
pub enum AutomationOrder {
    Less,
    Equal,
    Greater,
}

/// Comparison operator of a compiled condition.
#[derive(Clone, Copy, Debug, PartialEq, Eq, Structural)]
pub enum AutomationComparison {
    Equal,
    NotEqual,
    LessThan,
    LessThanOrEqual,
    GreaterThan,
    GreaterThanOrEqual,
}

/// Deterministic evaluation failure shared by simulation and runtime.
#[derive(Clone, Copy, Debug, PartialEq, Eq)]
pub enum AutomationEvaluationError {
    /// A compiled expression referenced unavailable immutable input.
    MissingValue(&'static str),
    /// Operands did not share a comparable compiled type.
    TypeMismatch,
    /// A compiled timezone or local-time value was invalid.
    InvalidTimeWindow,
    /// The host must represent continuous duration as durable waiting state.
    DurableDurationRequired,
    /// A durable condition contract could not be canonically hashed.
    ConditionHash,
    /// A duration could not be represented by the runtime clock.
    DurationOverflow,
    /// Persisted continuous-condition state referenced no matching timer.
    DurationTimerMissing,
}

/// A compiled expression.
#[derive(Clone, Debug)]
pub enum ResolvedAutomationExpression {
    Literal { value: AutomationValue },
    Variable { name: String },
    Observation { targets: Vec<ResolvedAutomationTarget>, field: String },
}

/// A compiled condition.
#[derive(Debug)]
pub enum ResolvedAutomationCondition {
    Literal { value: bool },
    Compare {
        left: ResolvedAutomationExpression,
        operator: AutomationComparison,
        right: ResolvedAutomationExpression,
    },
    All { conditions: Vec<ResolvedAutomationCondition> },
    Any { conditions: Vec<ResolvedAutomationCondition> },
    Not { condition: Box<ResolvedAutomationCondition> },
    TimeWindow { timezone: String, start: String, end: String },
    StateDuration { condition: Box<ResolvedAutomationCondition>, duration_ms: u64 },
}

/// Immutable values and host-owned time semantics used by evaluation.
///
/// The host decides the order of decimal values (they are compared as the
/// host's floating-point numbers) and the meaning of continuous durations.
pub trait AutomationEvaluationContext {
    /// The current real or virtual instant.
    spec fn spec_now(&self) -> i64;

    /// The typed observation of `field` on `target` in the snapshot.
    spec fn spec_observation(&self, target: ResolvedAutomationTarget, field: Seq<char>) -> Option<AutomationValue>;

    /// The order of two decimal texts, when both are comparable numbers.
    spec fn spec_decimal_order(&self, left: Seq<char>, right: Seq<char>) -> Option<AutomationOrder>;

    /// Current real or virtual evaluation instant.
    fn now(&self) -> (t: i64)
        ensures
            t == self.spec_now(),
    ;

    /// Reads one typed normalized observation from an immutable snapshot.
    fn observation(&self, target: &ResolvedAutomationTarget, field: &str) -> (r: Option<AutomationValue>)
        ensures
            r == self.spec_observation(*target, field@),
    ;

    /// Orders two decimal texts.
    fn decimal_order(&self, left: &str, right: &str) -> (r: Option<AutomationOrder>)
        ensures
            r == self.spec_decimal_order(left@, right@),
    ;

    /// Evaluates a continuously true condition using host-owned time semantics.
    fn state_duration(
        &mut self,
        condition: &ResolvedAutomationCondition,
        duration_ms: u64,
        variables: &Vec<(String, AutomationValue)>,
    ) -> Result<bool, AutomationEvaluationError>;
}

/// The value bound to `name`: its first binding.
pub open spec fn lookup_variable(vars: Seq<(String, AutomationValue)>, name: Seq<char>) -> Option<AutomationValue>
    decreases vars.len(),
{
    if vars.len() == 0 {
        None
    } else if vars[0].0@ == name {
        Some(vars[0].1)
    } else {
        lookup_variable(vars.drop_first(), name)
    }
}

/// A copy of one value.
pub fn copy_value(value: &AutomationValue) -> (r: AutomationValue)
    ensures
        r == *value,
{
    match value {
        AutomationValue::Null => AutomationValue::Null,
        AutomationValue::Boolean(b) => AutomationValue::Boolean(*b),
        AutomationValue::Integer(i) => AutomationValue::Integer(*i),
        AutomationValue::Decimal(d) => AutomationValue::Decimal(d.clone()),
        AutomationValue::String(t) => AutomationValue::String(t.clone()),
        AutomationValue::Timestamp(t) => AutomationValue::Timestamp(*t),
        AutomationValue::DurationMillis(d) => AutomationValue::DurationMillis(*d),
    }
}

/// Looks up a variable binding.
pub fn variable_value(vars: &Vec<(String, AutomationValue)>, name: &str) -> (r: Option<AutomationValue>)
    ensures
        r == lookup_variable(vars@, name@),
{
    let mut i: usize = 0;
    assert(vars@.skip(0) =~= vars@);
    while i < vars.len()
        invariant
            i <= vars@.len(),
            lookup_variable(vars@, name@) == lookup_variable(vars@.skip(i as int), name@),
        decreases vars@.len() - i,
    {
        assert(vars@.skip(i as int).drop_first() =~= vars@.skip(i + 1));
        if str_eq(vars[i].0.as_str(), name) {
            return Some(copy_value(&vars[i].1));
        }
        i = i + 1;
    }
    None
}

/// The value of one compiled expression.
pub open spec fn expression_value<C: AutomationEvaluationContext>(
    expression: ResolvedAutomationExpression,
    vars: Seq<(String, AutomationValue)>,
    context: C,
) -> Result<AutomationValue, AutomationEvaluationError> {
    match expression {
        ResolvedAutomationExpression::Literal { value } => Ok(value),
        ResolvedAutomationExpression::Variable { name } => match lookup_variable(vars, name@) {
            Some(v) => Ok(v),
            None => Err(AutomationEvaluationError::MissingValue("variable")),
        },
        ResolvedAutomationExpression::Observation { targets, field } => if targets@.len() == 0 {
            Err(AutomationEvaluationError::MissingValue("observation target"))
        } else {
            match context.spec_observation(targets@[0], field@) {
                Some(v) => Ok(v),
                None => Err(AutomationEvaluationError::MissingValue("observation")),
            }
        },
    }
}

/// Evaluates one compiled expression against immutable inputs.
pub fn evaluate_automation_expression<C: AutomationEvaluationContext>(
    expression: &ResolvedAutomationExpression,
    variables: &Vec<(String, AutomationValue)>,
    context: &C,
) -> (r: Result<AutomationValue, AutomationEvaluationError>)
    ensures
        r == expression_value(*expression, variables@, *context),
{
    match expression {
        ResolvedAutomationExpression::Literal { value } => Ok(copy_value(value)),
        ResolvedAutomationExpression::Variable { name } => match variable_value(variables, name.as_str()) {
            Some(v) => Ok(v),
            None => Err(AutomationEvaluationError::MissingValue("variable")),
        },
        ResolvedAutomationExpression::Observation { targets, field } => {
            if targets.len() == 0 {
                return Err(AutomationEvaluationError::MissingValue("observation target"));
            }
            match context.observation(&targets[0], field.as_str()) {
                Some(v) => Ok(v),
                None => Err(AutomationEvaluationError::MissingValue("observation")),
            }
        },
    }
}

/// Order of two integers.
pub open spec fn int_order(a: int, b: int) -> AutomationOrder {
    if a < b {
        AutomationOrder::Less
    } else if a == b {
        AutomationOrder::Equal
    } else {
        AutomationOrder::Greater
    }
}

/// Lexicographic order of two texts by code point, as Rust orders strings.
pub open spec fn text_order(a: Seq<char>, b: Seq<char>) -> AutomationOrder
    decreases a.len(),
{
    if a.len() == 0 {
        if b.len() == 0 {
            AutomationOrder::Equal
        } else {
            AutomationOrder::Less
        }
    } else if b.len() == 0 {
        AutomationOrder::Greater
    } else if a[0] != b[0] {
        int_order(a[0] as int, b[0] as int)
    } else {
        text_order(a.drop_first(), b.drop_first())
    }
}

/// The order of two values of the same comparable type.
pub open spec fn value_order<C: AutomationEvaluationContext>(
    context: C,
    left: AutomationValue,
    right: AutomationValue,
) -> Option<AutomationOrder> {
    match (left, right) {
        (AutomationValue::Null, AutomationValue::Null) => Some(AutomationOrder::Equal),
        (AutomationValue::Boolean(l), AutomationValue::Boolean(r)) => Some(
            int_order(if l { 1int } else { 0int }, if r { 1int } else { 0int }),
        ),
        (AutomationValue::Integer(l), AutomationValue::Integer(r)) => Some(int_order(l as int, r as int)),
        (AutomationValue::Decimal(l), AutomationValue::Decimal(r)) => context.spec_decimal_order(l@, r@),
        (AutomationValue::String(l), AutomationValue::String(r)) => Some(text_order(l@, r@)),
        (AutomationValue::Timestamp(l), AutomationValue::Timestamp(r)) => Some(int_order(l as int, r as int)),
        (AutomationValue::DurationMillis(l), AutomationValue::DurationMillis(r)) => Some(
            int_order(l as int, r as int),
        ),
        _ => None,
    }
}

/// Whether an order satisfies a comparison operator.
pub open spec fn order_satisfies(order: AutomationOrder, operator: AutomationComparison) -> bool {
    match operator {
        AutomationComparison::Equal => order == AutomationOrder::Equal,
        AutomationComparison::NotEqual => order != AutomationOrder::Equal,
        AutomationComparison::LessThan => order == AutomationOrder::Less,
        AutomationComparison::LessThanOrEqual => order != AutomationOrder::Greater,
        AutomationComparison::GreaterThan => order == AutomationOrder::Greater,
        AutomationComparison::GreaterThanOrEqual => order != AutomationOrder::Less,
    }
}

/// The comparison of two values; incomparable values are a type mismatch.
pub open spec fn comparison_result<C: AutomationEvaluationContext>(
    context: C,
    left: AutomationValue,
    operator: AutomationComparison,
    right: AutomationValue,
) -> Result<bool, AutomationEvaluationError> {
    match value_order(context, left, right) {
        Some(order) => Ok(order_satisfies(order, operator)),
        None => Err(AutomationEvaluationError::TypeMismatch),
    }
}

/// The inclusive comparisons are the disjunctions of the strict ones with
/// equality, inequality is the negation of equality, and of less, equal and
/// greater exactly one holds: for every pair of values that compare at all,
/// and whatever the operator, the pair either compares or mismatches.
pub proof fn lemma_comparison_operators<C: AutomationEvaluationContext>(
    context: C,
    left: AutomationValue,
    right: AutomationValue,
)
    ensures
        ({
            let eq = comparison_result(context, left, AutomationComparison::Equal, right);
            let ne = comparison_result(context, left, AutomationComparison::NotEqual, right);
            let lt = comparison_result(context, left, AutomationComparison::LessThan, right);
            let le = comparison_result(context, left, AutomationComparison::LessThanOrEqual, right);
            let gt = comparison_result(context, left, AutomationComparison::GreaterThan, right);
            let ge = comparison_result(context, left, AutomationComparison::GreaterThanOrEqual, right);
            &&& eq is Ok <==> ne is Ok
            &&& eq is Ok <==> lt is Ok
            &&& eq is Ok <==> le is Ok
            &&& eq is Ok <==> gt is Ok
            &&& eq is Ok <==> ge is Ok
            &&& eq is Err ==> eq == Err::<bool, AutomationEvaluationError>(AutomationEvaluationError::TypeMismatch)
            &&& eq is Ok ==> {
                &&& ge == Ok::<bool, AutomationEvaluationError>(gt == Ok::<bool, AutomationEvaluationError>(true) || eq == Ok::<
                    bool,
                    AutomationEvaluationError,
                >(true))
                &&& le == Ok::<bool, AutomationEvaluationError>(lt == Ok::<bool, AutomationEvaluationError>(true) || eq == Ok::<
                    bool,
                    AutomationEvaluationError,
                >(true))
                &&& ne == Ok::<bool, AutomationEvaluationError>(eq != Ok::<bool, AutomationEvaluationError>(true))
                &&& (lt == Ok::<bool, AutomationEvaluationError>(true)) as int + (eq == Ok::<bool, AutomationEvaluationError>(true)) as int
                    + (gt == Ok::<bool, AutomationEvaluationError>(true)) as int == 1
            }
        }),
{
}

/// Integers, instants and durations compare as numbers.
pub proof fn lemma_numeric_comparisons<C: AutomationEvaluationContext>(context: C, a: i64, b: i64, d: u64, e: u64)
    ensures
        comparison_result(context, AutomationValue::Integer(a), AutomationComparison::Equal, AutomationValue::Integer(b))
            == Ok::<bool, AutomationEvaluationError>(a == b),
        comparison_result(context, AutomationValue::Integer(a), AutomationComparison::NotEqual, AutomationValue::Integer(b))
            == Ok::<bool, AutomationEvaluationError>(a != b),
        comparison_result(context, AutomationValue::Integer(a), AutomationComparison::LessThan, AutomationValue::Integer(b))
            == Ok::<bool, AutomationEvaluationError>(a < b),
        comparison_result(
            context,
            AutomationValue::Integer(a),
            AutomationComparison::LessThanOrEqual,
            AutomationValue::Integer(b),
        ) == Ok::<bool, AutomationEvaluationError>(a <= b),
        comparison_result(context, AutomationValue::Integer(a), AutomationComparison::GreaterThan, AutomationValue::Integer(b))
            == Ok::<bool, AutomationEvaluationError>(a > b),
        comparison_result(
            context,
            AutomationValue::Integer(a),
            AutomationComparison::GreaterThanOrEqual,
            AutomationValue::Integer(b),
        ) == Ok::<bool, AutomationEvaluationError>(a >= b),
        comparison_result(
            context,
            AutomationValue::Timestamp(a),
            AutomationComparison::GreaterThanOrEqual,
            AutomationValue::Timestamp(b),
        ) == Ok::<bool, AutomationEvaluationError>(a >= b),
        comparison_result(
            context,
            AutomationValue::Timestamp(a),
            AutomationComparison::LessThanOrEqual,
            AutomationValue::Timestamp(b),
        ) == Ok::<bool, AutomationEvaluationError>(a <= b),
        comparison_result(
            context,
            AutomationValue::DurationMillis(d),
            AutomationComparison::GreaterThanOrEqual,
            AutomationValue::DurationMillis(e),
        ) == Ok::<bool, AutomationEvaluationError>(d >= e),
        comparison_result(
            context,
            AutomationValue::DurationMillis(d),
            AutomationComparison::LessThanOrEqual,
            AutomationValue::DurationMillis(e),
        ) == Ok::<bool, AutomationEvaluationError>(d <= e),
        comparison_result(
            context,
            AutomationValue::Boolean(false),
            AutomationComparison::LessThan,
            AutomationValue::Boolean(true),
        ) == Ok::<bool, AutomationEvaluationError>(true),
{
}

proof fn lemma_text_order_reflexive(a: Seq<char>)
    ensures
        text_order(a, a) == AutomationOrder::Equal,
    decreases a.len(),
{
    if a.len() > 0 {
        lemma_text_order_reflexive(a.drop_first());
    }
}

/// Every value other than a decimal (whose order the host decides) equals
/// itself: equality and both inclusive comparisons hold, the strict ones and
/// inequality do not.
pub proof fn lemma_comparison_reflexive<C: AutomationEvaluationContext>(context: C, value: AutomationValue)
    requires
        !(value is Decimal),
    ensures
        comparison_result(context, value, AutomationComparison::Equal, value) == Ok::<bool, AutomationEvaluationError>(true),
        comparison_result(context, value, AutomationComparison::GreaterThanOrEqual, value) == Ok::<
            bool,
            AutomationEvaluationError,
        >(true),
        comparison_result(context, value, AutomationComparison::LessThanOrEqual, value) == Ok::<
            bool,
            AutomationEvaluationError,
        >(true),
        comparison_result(context, value, AutomationComparison::GreaterThan, value) == Ok::<bool, AutomationEvaluationError>(
            false,
        ),
        comparison_result(context, value, AutomationComparison::LessThan, value) == Ok::<bool, AutomationEvaluationError>(
            false,
        ),
        comparison_result(context, value, AutomationComparison::NotEqual, value) == Ok::<bool, AutomationEvaluationError>(
            false,
        ),
{
    if let AutomationValue::String(t) = value {
        lemma_text_order_reflexive(t@);
    }
}

/// Decimals compare as the host orders them: incomparable decimals are a type
/// mismatch, and otherwise each operator follows the host's order.
pub proof fn lemma_decimal_comparisons<C: AutomationEvaluationContext>(context: C, l: String, r: String)
    ensures
        ({
            let left = AutomationValue::Decimal(l);
            let right = AutomationValue::Decimal(r);
            match context.spec_decimal_order(l@, r@) {
                None => comparison_result(context, left, AutomationComparison::Equal, right) == Err::<
                    bool,
                    AutomationEvaluationError,
                >(AutomationEvaluationError::TypeMismatch),
                Some(order) => {
                    &&& comparison_result(context, left, AutomationComparison::LessThan, right) == Ok::<
                        bool,
                        AutomationEvaluationError,
                    >(order == AutomationOrder::Less)
                    &&& comparison_result(context, left, AutomationComparison::Equal, right) == Ok::<
                        bool,
                        AutomationEvaluationError,
                    >(order == AutomationOrder::Equal)
                    &&& comparison_result(context, left, AutomationComparison::GreaterThan, right) == Ok::<
                        bool,
                        AutomationEvaluationError,
                    >(order == AutomationOrder::Greater)
                },
            }
        }),
{
}

/// Values of different types never compare: the comparison is a type mismatch.
pub proof fn lemma_mixed_comparisons<C: AutomationEvaluationContext>(
    context: C,
    operator: AutomationComparison,
    i: i64,
    b: bool,
    t: String,
    d: String,
    m: u64,
)
    ensures
        comparison_result(context, AutomationValue::Integer(i), operator, AutomationValue::Timestamp(i)) == Err::<
            bool,
            AutomationEvaluationError,
        >(AutomationEvaluationError::TypeMismatch),
        comparison_result(context, AutomationValue::Integer(i), operator, AutomationValue::Decimal(d)) == Err::<
            bool,
            AutomationEvaluationError,
        >(AutomationEvaluationError::TypeMismatch),
        comparison_result(context, AutomationValue::String(t), operator, AutomationValue::Integer(i)) == Err::<
            bool,
            AutomationEvaluationError,
        >(AutomationEvaluationError::TypeMismatch),
        comparison_result(context, AutomationValue::Boolean(b), operator, AutomationValue::Null) == Err::<
            bool,
            AutomationEvaluationError,
        >(AutomationEvaluationError::TypeMismatch),
        comparison_result(context, AutomationValue::DurationMillis(m), operator, AutomationValue::Integer(i)) == Err::<
            bool,
            AutomationEvaluationError,
        >(AutomationEvaluationError::TypeMismatch),
{
}

proof fn lemma_text_order_antisymmetric(a: Seq<char>, b: Seq<char>)
    ensures
        text_order(a, b) == AutomationOrder::Less <==> text_order(b, a) == AutomationOrder::Greater,
        text_order(a, b) == AutomationOrder::Equal <==> text_order(b, a) == AutomationOrder::Equal,
    decreases a.len(),
{
    if a.len() > 0 && b.len() > 0 && a[0] == b[0] {
        lemma_text_order_antisymmetric(a.drop_first(), b.drop_first());
    }
}

/// Swapping the operands of a comparison of values other than decimals swaps
/// less and greater and keeps equality.
pub proof fn lemma_comparison_antisymmetric<C: AutomationEvaluationContext>(
    context: C,
    left: AutomationValue,
    right: AutomationValue,
)
    requires
        !(left is Decimal),
        !(right is Decimal),
    ensures
        comparison_result(context, left, AutomationComparison::LessThan, right) == comparison_result(
            context,
            right,
            AutomationComparison::GreaterThan,
            left,
        ),
        comparison_result(context, left, AutomationComparison::LessThanOrEqual, right) == comparison_result(
            context,
            right,
            AutomationComparison::GreaterThanOrEqual,
            left,
        ),
        comparison_result(context, left, AutomationComparison::Equal, right) == comparison_result(
            context,
            right,
            AutomationComparison::Equal,
            left,
        ),
{
    if let (AutomationValue::String(a), AutomationValue::String(b)) = (left, right) {
        lemma_text_order_antisymmetric(a@, b@);
    }
}

fn compare_ints(a: i128, b: i128) -> (o: AutomationOrder)
    ensures
        o == int_order(a as int, b as int),
{
    if a < b {
        AutomationOrder::Less
    } else if a == b {
        AutomationOrder::Equal
    } else {
        AutomationOrder::Greater
    }
}

fn compare_texts(a: &str, b: &str) -> (o: AutomationOrder)
    ensures
        o == text_order(a@, b@),
{
    let n = a.unicode_len();
    let m = b.unicode_len();
    let mut i: usize = 0;
    assert(a@.skip(0) =~= a@);
    assert(b@.skip(0) =~= b@);
    while i < n && i < m
        invariant
            n == a@.len(),
            m == b@.len(),
            i <= n,
            i <= m,
            text_order(a@, b@) == text_order(a@.skip(i as int), b@.skip(i as int)),
        decreases n - i,
    {
        let x = a.get_char(i);
        let y = b.get_char(i);
        if x != y {
            return compare_ints(x as u32 as i128, y as u32 as i128);
        }
        assert(a@.skip(i as int).drop_first() =~= a@.skip(i + 1));
        assert(b@.skip(i as int).drop_first() =~= b@.skip(i + 1));
        i = i + 1;
    }
    if i == n && i == m {
        AutomationOrder::Equal
    } else if i == n {
        AutomationOrder::Less
    } else {
        AutomationOrder::Greater
    }
}

/// Compares two values under one operator.
pub fn compare_values<C: AutomationEvaluationContext>(
    context: &C,
    left: &AutomationValue,
    operator: AutomationComparison,
    right: &AutomationValue,
) -> (r: Result<bool, AutomationEvaluationError>)
    ensures
        r == comparison_result(*context, *left, operator, *right),
{
    let order = match (left, right) {
        (AutomationValue::Null, AutomationValue::Null) => AutomationOrder::Equal,
        (AutomationValue::Boolean(l), AutomationValue::Boolean(r)) => compare_ints(
            if *l { 1 } else { 0 },
            if *r { 1 } else { 0 },
        ),
        (AutomationValue::Integer(l), AutomationValue::Integer(r)) => compare_ints(*l as i128, *r as i128),
        (AutomationValue::Decimal(l), AutomationValue::Decimal(r)) => match context.decimal_order(
            l.as_str(),
            r.as_str(),
        ) {
            Some(o) => o,
            None => return Err(AutomationEvaluationError::TypeMismatch),
        },
        (AutomationValue::String(l), AutomationValue::String(r)) => compare_texts(l.as_str(), r.as_str()),
        (AutomationValue::Timestamp(l), AutomationValue::Timestamp(r)) => compare_ints(*l as i128, *r as i128),
        (AutomationValue::DurationMillis(l), AutomationValue::DurationMillis(r)) => compare_ints(
            *l as i128,
            *r as i128,
        ),
        _ => return Err(AutomationEvaluationError::TypeMismatch),
    };
    Ok(match operator {
        AutomationComparison::Equal => order == AutomationOrder::Equal,
        AutomationComparison::NotEqual => order != AutomationOrder::Equal,
        AutomationComparison::LessThan => order == AutomationOrder::Less,
        AutomationComparison::LessThanOrEqual => order != AutomationOrder::Greater,
        AutomationComparison::GreaterThan => order == AutomationOrder::Greater,
        AutomationComparison::GreaterThanOrEqual => order != AutomationOrder::Less,
    })
}

/// The local time of day at instant `now` (milliseconds since the Unix epoch)
/// in the IANA time zone `timezone`, as seconds from midnight and nanoseconds;
/// `None` when `chrono_tz` does not know the zone or `chrono` cannot represent
/// the instant.
pub uninterp spec fn zoned_time_of_day(now: i64, timezone: Seq<char>) -> Option<(u32, u32)>;

/// Converts `now` to local time with `chrono_tz::Tz::from_str(timezone)` and
/// `DateTime::with_timezone`, and reads its time of day.
#[verifier::external_body]
fn local_time_at(now: i64, timezone: &str) -> (r: Option<(u32, u32)>)
    ensures
        r == zoned_time_of_day(now, timezone@),
{
    let zone = timezone.parse::<chrono_tz::Tz>().ok()?;
    let local = chrono::DateTime::from_timestamp_millis(now)?.with_timezone(&zone).time();
    Some((local.num_seconds_from_midnight(), local.nanosecond()))
}

/// Whether time of day `a` is not earlier than `b`.
pub open spec fn time_at_or_after(a: (u32, u32), b: (u32, u32)) -> bool {
    a.0 > b.0 || (a.0 == b.0 && a.1 >= b.1)
}

/// Whether the local time lies in the daily window `[start, end)`; a window
/// whose start is after its end wraps past midnight.
pub open spec fn in_daily_window(local: (u32, u32), start: (u32, u32), end: (u32, u32)) -> bool {
    if time_at_or_after(end, start) {
        time_at_or_after(local, start) && !time_at_or_after(local, end)
    } else {
        time_at_or_after(local, start) || !time_at_or_after(local, end)
    }
}

/// The outcome of a time-window condition at `now`.
pub open spec fn time_window_result(now: i64, timezone: Seq<char>, start: Seq<char>, end: Seq<char>) -> Result<
    bool,
    AutomationEvaluationError,
> {
    match (zoned_time_of_day(now, timezone), local_time_value(start), local_time_value(end)) {
        (Some(local), Some(s), Some(e)) => Ok(in_daily_window(local, s, e)),
        _ => Err(AutomationEvaluationError::InvalidTimeWindow),
    }
}

fn at_or_after(a: (u32, u32), b: (u32, u32)) -> (r: bool)
    ensures
        r == time_at_or_after(a, b),
{
    a.0 > b.0 || (a.0 == b.0 && a.1 >= b.1)
}

/// Evaluates a daily time window at `now`.
pub fn evaluate_time_window(now: i64, timezone: &str, start: &str, end: &str) -> (r: Result<
    bool,
    AutomationEvaluationError,
>)
    ensures
        r == time_window_result(now, timezone@, start@, end@),
{
    let local = local_time_at(now, timezone);
    let s = local_time_of_day(start);
    let e = local_time_of_day(end);
    match (local, s, e) {
        (Some(local), Some(s), Some(e)) => Ok(
            if at_or_after(e, s) {
                at_or_after(local, s) && !at_or_after(local, e)
            } else {
                at_or_after(local, s) || !at_or_after(local, e)
            },
        ),
        _ => Err(AutomationEvaluationError::InvalidTimeWindow),
    }
}

/// Whether no part of the condition is a state duration, whose value the host decides.
pub open spec fn duration_free(c: ResolvedAutomationCondition) -> bool
    decreases c,
{
    match c {
        ResolvedAutomationCondition::All { conditions } => all_duration_free(conditions@),
        ResolvedAutomationCondition::Any { conditions } => all_duration_free(conditions@),
        ResolvedAutomationCondition::Not { condition } => duration_free(*condition),
        ResolvedAutomationCondition::StateDuration { .. } => false,
        _ => true,
    }
}

/// Whether every condition of the sequence is duration-free.
pub open spec fn all_duration_free(cs: Seq<ResolvedAutomationCondition>) -> bool
    decreases cs,
{
    if cs.len() == 0 {
        true
    } else {
        duration_free(cs[0]) && all_duration_free(cs.drop_first())
    }
}

/// The value of a condition under short-circuit semantics.
///
/// A state duration's value is decided by the host, so it is left open here;
/// every other form is determined by the variables and the context.
pub open spec fn condition_value<C: AutomationEvaluationContext>(
    c: ResolvedAutomationCondition,
    vars: Seq<(String, AutomationValue)>,
    context: C,
) -> Result<bool, AutomationEvaluationError>
    decreases c,
{
    match c {
        ResolvedAutomationCondition::Literal { value } => Ok(value),
        ResolvedAutomationCondition::Compare { left, operator, right } => match expression_value(left, vars, context) {
            Err(e) => Err(e),
            Ok(l) => match expression_value(right, vars, context) {
                Err(e) => Err(e),
                Ok(r) => comparison_result(context, l, operator, r),
            },
        },
        ResolvedAutomationCondition::All { conditions } => all_value(conditions@, vars, context),
        ResolvedAutomationCondition::Any { conditions } => any_value(conditions@, vars, context),
        ResolvedAutomationCondition::Not { condition } => match condition_value(*condition, vars, context) {
            Ok(b) => Ok(!b),
            Err(e) => Err(e),
        },
        ResolvedAutomationCondition::TimeWindow { timezone, start, end } => time_window_result(
            context.spec_now(),
            timezone@,
            start@,
            end@,
        ),
        ResolvedAutomationCondition::StateDuration { .. } => arbitrary(),
    }
}

/// Conjunction: the first failure or false value decides.
pub open spec fn all_value<C: AutomationEvaluationContext>(
    cs: Seq<ResolvedAutomationCondition>,
    vars: Seq<(String, AutomationValue)>,
    context: C,
) -> Result<bool, AutomationEvaluationError>
    decreases cs,
{
    if cs.len() == 0 {
        Ok(true)
    } else {
        match condition_value(cs[0], vars, context) {
            Err(e) => Err(e),
            Ok(false) => Ok(false),
            Ok(true) => all_value(cs.drop_first(), vars, context),
        }
    }
}

/// Disjunction: the first failure or true value decides.
pub open spec fn any_value<C: AutomationEvaluationContext>(
    cs: Seq<ResolvedAutomationCondition>,
    vars: Seq<(String, AutomationValue)>,
    context: C,
) -> Result<bool, AutomationEvaluationError>
    decreases cs,
{
    if cs.len() == 0 {
        Ok(false)
    } else {
        match condition_value(cs[0], vars, context) {
            Err(e) => Err(e),
            Ok(true) => Ok(true),
            Ok(false) => any_value(cs.drop_first(), vars, context),
        }
    }
}

/// Evaluates one compiled condition with short-circuit semantics.
///
/// A duration-free condition has exactly the value `condition_value` gives and
/// leaves the context untouched; state durations are delegated to the host.
pub fn evaluate_automation_condition<C: AutomationEvaluationContext>(
    condition: &ResolvedAutomationCondition,
    variables: &Vec<(String, AutomationValue)>,
    context: &mut C,
) -> (r: Result<bool, AutomationEvaluationError>)
    ensures
        duration_free(*condition) ==> r == condition_value(*condition, variables@, *old(context)) && *final(context)
            == *old(context),
    decreases *condition,
{
    match condition {
        ResolvedAutomationCondition::Literal { value } => Ok(*value),
        ResolvedAutomationCondition::Compare { left, operator, right } => {
            let l = evaluate_automation_expression(left, variables, context)?;
            let r = evaluate_automation_expression(right, variables, context)?;
            compare_values(context, &l, *operator, &r)
        },
        ResolvedAutomationCondition::All { conditions } => {
            let mut i: usize = 0;
            assert(conditions@.skip(0) =~= conditions@);
            while i < conditions.len()
                invariant
                    i <= conditions@.len(),
                    *condition == (ResolvedAutomationCondition::All { conditions: *conditions }),
                    duration_free(*condition) ==> all_duration_free(conditions@.skip(i as int)),
                    duration_free(*condition) ==> *context == *old(context),
                    duration_free(*condition) ==> all_value(conditions@, variables@, *old(context)) == all_value(
                        conditions@.skip(i as int),
                        variables@,
                        *old(context),
                    ),
                decreases conditions@.len() - i,
            {
                assert(conditions@.skip(i as int).drop_first() =~= conditions@.skip(i + 1));
                assert(conditions@.skip(i as int)[0] == conditions@[i as int]);
                proof {
                    assert(decreases_to!(*condition => conditions@[i as int]));
                }
                let value = evaluate_automation_condition(&conditions[i], variables, context);
                match value {
                    Err(e) => {
                        proof {
                            if duration_free(*condition) {
                                assert(duration_free(conditions@[i as int]));
                                assert(condition_value(conditions@[i as int], variables@, *old(context)) == Err::<bool, AutomationEvaluationError>(e));
                            }
                        }
                        return Err(e);
                    },
                    Ok(b) => {
                        if b == false {
                            return Ok(false);
                        }
                    },
                }
                i = i + 1;
            }
            Ok(true)
        },
        ResolvedAutomationCondition::Any { conditions } => {
            let mut i: usize = 0;
            assert(conditions@.skip(0) =~= conditions@);
            while i < conditions.len()
                invariant
                    i <= conditions@.len(),
                    *condition == (ResolvedAutomationCondition::Any { conditions: *conditions }),
                    duration_free(*condition) ==> all_duration_free(conditions@.skip(i as int)),
                    duration_free(*condition) ==> *context == *old(context),
                    duration_free(*condition) ==> any_value(conditions@, variables@, *old(context)) == any_value(
                        conditions@.skip(i as int),
                        variables@,
                        *old(context),
                    ),
                decreases conditions@.len() - i,
            {
                assert(conditions@.skip(i as int).drop_first() =~= conditions@.skip(i + 1));
                assert(conditions@.skip(i as int)[0] == conditions@[i as int]);
                proof {
                    assert(decreases_to!(*condition => conditions@[i as int]));
                }
                let value = evaluate_automation_condition(&conditions[i], variables, context);
                match value {
                    Err(e) => {
                        proof {
                            if duration_free(*condition) {
                                assert(duration_free(conditions@[i as int]));
                                assert(condition_value(conditions@[i as int], variables@, *old(context)) == Err::<bool, AutomationEvaluationError>(e));
                            }
                        }
                        return Err(e);
                    },
                    Ok(b) => {
                        if b == true {
                            return Ok(true);
                        }
                    },
                }
                i = i + 1;
            }
            Ok(false)
        },
        ResolvedAutomationCondition::Not { condition: inner } => {
            let value = evaluate_automation_condition(inner, variables, context)?;
            Ok(!value)
        },
        ResolvedAutomationCondition::TimeWindow { timezone, start, end } => evaluate_time_window(
            context.now(),
            timezone.as_str(),
            start.as_str(),
            end.as_str(),
        ),
        ResolvedAutomationCondition::StateDuration { condition: inner, duration_ms } => context.state_duration(
            inner,
            *duration_ms,
            variables,
        ),
    }
}

/// Negation is involutive on duration-free conditions: `Not(Not(c))` has the
/// value of `c`.
pub proof fn lemma_double_negation<C: AutomationEvaluationContext>(
    c: ResolvedAutomationCondition,
    vars: Seq<(String, AutomationValue)>,
    context: C,
)
    ensures
        condition_value(
            ResolvedAutomationCondition::Not {
                condition: Box::new(ResolvedAutomationCondition::Not { condition: Box::new(c) }),
            },
            vars,
            context,
        ) == condition_value(c, vars, context),
{
    let inner = ResolvedAutomationCondition::Not { condition: Box::new(c) };
    assert(condition_value(inner, vars, context) == match condition_value(c, vars, context) {
        Ok(b) => Ok(!b),
        Err(e) => Err(e),
    });
}

/// A conjunction fails or is false as soon as one member is, and is true only
/// when every member is true.
pub proof fn lemma_all_true_iff<C: AutomationEvaluationContext>(
    cs: Seq<ResolvedAutomationCondition>,
    vars: Seq<(String, AutomationValue)>,
    context: C,
)
    ensures
        all_value(cs, vars, context) == Ok::<bool, AutomationEvaluationError>(true) <==> forall|i: int|
            0 <= i < cs.len() ==> #[trigger] condition_value(cs[i], vars, context) == Ok::<
                bool,
                AutomationEvaluationError,
            >(true),
    decreases cs.len(),
{
    if cs.len() > 0 {
        lemma_all_true_iff(cs.drop_first(), vars, context);
        assert forall|i: int| 1 <= i < cs.len() implies cs.drop_first()[i - 1] == cs[i] by {}
        if all_value(cs, vars, context) == Ok::<bool, AutomationEvaluationError>(true) {
            assert forall|i: int| 0 <= i < cs.len() implies #[trigger] condition_value(cs[i], vars, context) == Ok::<
                bool,
                AutomationEvaluationError,
            >(true) by {
                if i > 0 {
                    assert(cs.drop_first()[i - 1] == cs[i]);
                }
            }
        }
        if forall|i: int|
            0 <= i < cs.len() ==> #[trigger] condition_value(cs[i], vars, context) == Ok::<
                bool,
                AutomationEvaluationError,
            >(true) {
            assert(condition_value(cs[0], vars, context) == Ok::<bool, AutomationEvaluationError>(true));
            assert forall|i: int| 0 <= i < cs.drop_first().len() implies #[trigger] condition_value(
                cs.drop_first()[i],
                vars,
                context,
            ) == Ok::<bool, AutomationEvaluationError>(true) by {
                assert(cs.drop_first()[i] == cs[i + 1]);
            }
        }
    }
}

/// One observed capability of the snapshot with its typed field values.
#[derive(Clone, Debug)]
pub struct SnapshotObservation {
    pub target: ResolvedAutomationTarget,
    pub values: Vec<(String, AutomationValue)>,
}

/// One decimal comparison the host computed in its number semantics.
#[derive(Clone, Debug)]
pub struct DecimalComparison {
    pub left: String,
    pub right: String,
    /// `None` when the host cannot order the two texts.
    pub order: Option<AutomationOrder>,
}

/// Stateless evaluation context over an immutable snapshot: a fixed instant,
/// the snapshot's observations, and decimal orders supplied by the host.
///
/// It holds no durable duration state, so every state duration asks the host
/// to wait durably.
#[derive(Clone, Debug)]
pub struct SnapshotEvaluationContext {
    pub now: i64,
    pub observations: Vec<SnapshotObservation>,
    pub decimal_orders: Vec<DecimalComparison>,
}

/// Whether an observation belongs to exactly this target.
pub open spec fn same_target(a: ResolvedAutomationTarget, b: ResolvedAutomationTarget) -> bool {
    a.device_id == b.device_id && a.endpoint_id@ == b.endpoint_id@ && a.capability@ == b.capability@
}

/// The field values of the first observation of the target.
pub open spec fn snapshot_values(observations: Seq<SnapshotObservation>, target: ResolvedAutomationTarget) -> Option<
    Seq<(String, AutomationValue)>,
>
    decreases observations.len(),
{
    if observations.len() == 0 {
        None
    } else if same_target(observations[0].target, target) {
        Some(observations[0].values@)
    } else {
        snapshot_values(observations.drop_first(), target)
    }
}

/// The host order of the first matching decimal comparison.
pub open spec fn listed_decimal_order(orders: Seq<DecimalComparison>, left: Seq<char>, right: Seq<char>) -> Option<
    AutomationOrder,
>
    decreases orders.len(),
{
    if orders.len() == 0 {
        None
    } else if orders[0].left@ == left && orders[0].right@ == right {
        orders[0].order
    } else {
        listed_decimal_order(orders.drop_first(), left, right)
    }
}

impl AutomationEvaluationContext for SnapshotEvaluationContext {
    open spec fn spec_now(&self) -> i64 {
        self.now
    }

    open spec fn spec_observation(&self, target: ResolvedAutomationTarget, field: Seq<char>) -> Option<AutomationValue> {
        match snapshot_values(self.observations@, target) {
            Some(values) => lookup_variable(values, field),
            None => None,
        }
    }

    open spec fn spec_decimal_order(&self, left: Seq<char>, right: Seq<char>) -> Option<AutomationOrder> {
        listed_decimal_order(self.decimal_orders@, left, right)
    }

    fn now(&self) -> (t: i64) {
        self.now
    }

    fn observation(&self, target: &ResolvedAutomationTarget, field: &str) -> (r: Option<AutomationValue>) {
        let mut i: usize = 0;
        assert(self.observations@.skip(0) =~= self.observations@);
        while i < self.observations.len()
            invariant
                i <= self.observations@.len(),
                snapshot_values(self.observations@, *target) == snapshot_values(self.observations@.skip(i as int), *target),
            decreases self.observations@.len() - i,
        {
            assert(self.observations@.skip(i as int).drop_first() =~= self.observations@.skip(i + 1));
            assert(self.observations@.skip(i as int)[0] == self.observations@[i as int]);
            let o = &self.observations[i];
            if o.target.device_id == target.device_id && str_eq(o.target.endpoint_id.as_str(), target.endpoint_id.as_str())
                && str_eq(o.target.capability.as_str(), target.capability.as_str()) {
                return variable_value(&o.values, field);
            }
            i = i + 1;
        }
        None
    }

    fn decimal_order(&self, left: &str, right: &str) -> (r: Option<AutomationOrder>) {
        let mut i: usize = 0;
        assert(self.decimal_orders@.skip(0) =~= self.decimal_orders@);
        while i < self.decimal_orders.len()
            invariant
                i <= self.decimal_orders@.len(),
                listed_decimal_order(self.decimal_orders@, left@, right@) == listed_decimal_order(
                    self.decimal_orders@.skip(i as int),
                    left@,
                    right@,
                ),
            decreases self.decimal_orders@.len() - i,
        {
            assert(self.decimal_orders@.skip(i as int).drop_first() =~= self.decimal_orders@.skip(i + 1));
            assert(self.decimal_orders@.skip(i as int)[0] == self.decimal_orders@[i as int]);
            let d = &self.decimal_orders[i];
            if str_eq(d.left.as_str(), left) && str_eq(d.right.as_str(), right) {
                return d.order;
            }
            i = i + 1;
        }
        None
    }

    fn state_duration(
        &mut self,
        condition: &ResolvedAutomationCondition,
        duration_ms: u64,
        variables: &Vec<(String, AutomationValue)>,
    ) -> (r: Result<bool, AutomationEvaluationError>)
        ensures
            r == Err::<bool, AutomationEvaluationError>(AutomationEvaluationError::DurableDurationRequired),
            *final(self) == *old(self),
    {
        Err(AutomationEvaluationError::DurableDurationRequired)
    }
}

} // verus!
