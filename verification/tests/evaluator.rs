use homemagic_application::automation_evaluator::{
    compare_values, evaluate_automation_condition, evaluate_automation_expression, evaluate_time_window,
    variable_value, AutomationComparison, AutomationEvaluationContext, AutomationEvaluationError, AutomationOrder,
    AutomationValue, DecimalComparison, ResolvedAutomationCondition, ResolvedAutomationExpression,
    SnapshotEvaluationContext, SnapshotObservation,
};
use homemagic_application::automation_events::ResolvedAutomationTarget;

/// 2026-07-12T12:00:00Z in milliseconds since the Unix epoch.
const NOON: i64 = 1_783_857_600_000;

fn context() -> SnapshotEvaluationContext {
    SnapshotEvaluationContext {
        now: NOON,
        observations: vec![SnapshotObservation {
            target: target(),
            values: vec![("power".to_owned(), AutomationValue::Integer(40))],
        }],
        decimal_orders: vec![DecimalComparison {
            left: "12.5".to_owned(),
            right: "3".to_owned(),
            order: Some(AutomationOrder::Greater),
        }],
    }
}

fn target() -> ResolvedAutomationTarget {
    ResolvedAutomationTarget { device_id: 1, endpoint_id: "meter:0".to_owned(), capability: "energy.v1".to_owned() }
}

fn literal(value: AutomationValue) -> ResolvedAutomationExpression {
    ResolvedAutomationExpression::Literal { value }
}

fn compare(left: ResolvedAutomationExpression, operator: AutomationComparison, right: ResolvedAutomationExpression) -> ResolvedAutomationCondition {
    ResolvedAutomationCondition::Compare { left, operator, right }
}

#[test]
fn comparisons_order_each_type_and_reject_mixed_types() {
    let ctx = context();
    let int = |v| AutomationValue::Integer(v);
    assert_eq!(compare_values(&ctx, &int(1), AutomationComparison::LessThan, &int(2)), Ok(true));
    assert_eq!(compare_values(&ctx, &int(2), AutomationComparison::LessThanOrEqual, &int(2)), Ok(true));
    assert_eq!(compare_values(&ctx, &int(3), AutomationComparison::GreaterThanOrEqual, &int(4)), Ok(false));
    let text = |v: &str| AutomationValue::String(v.to_owned());
    assert_eq!(compare_values(&ctx, &text("abc"), AutomationComparison::LessThan, &text("abd")), Ok(true));
    assert_eq!(compare_values(&ctx, &text("ab"), AutomationComparison::LessThan, &text("abc")), Ok(true));
    assert_eq!(compare_values(&ctx, &text("b"), AutomationComparison::GreaterThan, &text("abc")), Ok(true));
    let dec = |v: &str| AutomationValue::Decimal(v.to_owned());
    assert_eq!(compare_values(&ctx, &dec("12.5"), AutomationComparison::GreaterThan, &dec("3")), Ok(true));
    assert_eq!(
        compare_values(&ctx, &dec("3"), AutomationComparison::LessThan, &dec("12.5")),
        Err(AutomationEvaluationError::TypeMismatch)
    );
    assert_eq!(
        compare_values(&ctx, &AutomationValue::Boolean(false), AutomationComparison::LessThan, &AutomationValue::Boolean(true)),
        Ok(true)
    );
    assert_eq!(compare_values(&ctx, &AutomationValue::Null, AutomationComparison::Equal, &AutomationValue::Null), Ok(true));
    assert_eq!(
        compare_values(&ctx, &int(1), AutomationComparison::Equal, &text("1")),
        Err(AutomationEvaluationError::TypeMismatch)
    );
}

#[test]
fn expressions_read_variables_and_observations() {
    let ctx = context();
    let vars = vec![("mode".to_owned(), AutomationValue::String("away".to_owned()))];
    assert_eq!(variable_value(&vars, "mode"), Some(AutomationValue::String("away".to_owned())));
    assert_eq!(
        evaluate_automation_expression(&ResolvedAutomationExpression::Variable { name: "missing".to_owned() }, &vars, &ctx),
        Err(AutomationEvaluationError::MissingValue("variable"))
    );
    let power = ResolvedAutomationExpression::Observation { targets: vec![target()], field: "power".to_owned() };
    assert_eq!(evaluate_automation_expression(&power, &vars, &ctx), Ok(AutomationValue::Integer(40)));
    let nothing = ResolvedAutomationExpression::Observation { targets: Vec::new(), field: "power".to_owned() };
    assert_eq!(
        evaluate_automation_expression(&nothing, &vars, &ctx),
        Err(AutomationEvaluationError::MissingValue("observation target"))
    );
}

#[test]
fn conditions_short_circuit_left_to_right() {
    let mut ctx = context();
    let vars = Vec::new();
    let over = compare(
        ResolvedAutomationExpression::Observation { targets: vec![target()], field: "power".to_owned() },
        AutomationComparison::GreaterThan,
        literal(AutomationValue::Integer(30)),
    );
    assert_eq!(evaluate_automation_condition(&over, &vars, &mut ctx), Ok(true));
    let waiting = ResolvedAutomationCondition::StateDuration {
        condition: Box::new(ResolvedAutomationCondition::Literal { value: true }),
        duration_ms: 1_000,
    };
    let all = ResolvedAutomationCondition::All {
        conditions: vec![ResolvedAutomationCondition::Literal { value: false }, waiting],
    };
    assert_eq!(evaluate_automation_condition(&all, &vars, &mut ctx), Ok(false));
    let any = ResolvedAutomationCondition::Any {
        conditions: vec![
            ResolvedAutomationCondition::Literal { value: false },
            ResolvedAutomationCondition::Not { condition: Box::new(ResolvedAutomationCondition::Literal { value: false }) },
        ],
    };
    assert_eq!(evaluate_automation_condition(&any, &vars, &mut ctx), Ok(true));
    let missing_first = ResolvedAutomationCondition::All {
        conditions: vec![
            compare(
                ResolvedAutomationExpression::Variable { name: "x".to_owned() },
                AutomationComparison::Equal,
                literal(AutomationValue::Null),
            ),
            ResolvedAutomationCondition::Literal { value: false },
        ],
    };
    assert_eq!(
        evaluate_automation_condition(&missing_first, &vars, &mut ctx),
        Err(AutomationEvaluationError::MissingValue("variable"))
    );
    assert_eq!(evaluate_automation_condition(&ResolvedAutomationCondition::All { conditions: Vec::new() }, &vars, &mut ctx), Ok(true));
    assert_eq!(evaluate_automation_condition(&ResolvedAutomationCondition::Any { conditions: Vec::new() }, &vars, &mut ctx), Ok(false));
}

#[test]
fn state_durations_are_delegated_to_the_host() {
    let mut ctx = context();
    let waiting = ResolvedAutomationCondition::StateDuration {
        condition: Box::new(ResolvedAutomationCondition::Literal { value: true }),
        duration_ms: 1_000,
    };
    assert_eq!(
        evaluate_automation_condition(&waiting, &Vec::new(), &mut ctx),
        Err(AutomationEvaluationError::DurableDurationRequired)
    );
    assert_eq!(ctx.now(), NOON);
}

#[test]
fn daily_windows_use_the_zone_and_wrap_past_midnight() {
    assert_eq!(evaluate_time_window(NOON, "UTC", "11:00:00", "13:00:00"), Ok(true));
    assert_eq!(evaluate_time_window(NOON, "UTC", "12:00:00", "13:00:00"), Ok(true));
    assert_eq!(evaluate_time_window(NOON, "UTC", "11:00:00", "12:00:00"), Ok(false));
    assert_eq!(evaluate_time_window(NOON, "Europe/Berlin", "13:30:00", "14:30:00"), Ok(true));
    assert_eq!(evaluate_time_window(NOON, "UTC", "22:00:00", "06:00:00"), Ok(false));
    assert_eq!(evaluate_time_window(NOON, "UTC", "10:00:00", "09:00:00"), Ok(true));
    assert_eq!(evaluate_time_window(NOON, "Mars/Olympus", "10:00:00", "11:00:00"), Err(AutomationEvaluationError::InvalidTimeWindow));
    assert_eq!(evaluate_time_window(NOON, "UTC", "10:00", "11:00:00"), Err(AutomationEvaluationError::InvalidTimeWindow));
    let mut ctx = context();
    let window = ResolvedAutomationCondition::TimeWindow {
        timezone: "UTC".to_owned(),
        start: "11:59:59".to_owned(),
        end: "12:00:01".to_owned(),
    };
    assert_eq!(evaluate_automation_condition(&window, &Vec::new(), &mut ctx), Ok(true));
}
