use homemagic_application::automation_compiler::{
    AutomationDeviceReference, AutomationTargetReference, AutomationValidationCode, AutomationValueType,
};
use homemagic_application::automation_evaluator::{
    AutomationComparison, AutomationValue, ResolvedAutomationCondition, ResolvedAutomationExpression,
};
use homemagic_application::condition_compiler::{
    compile_condition, findings_of, AutomationCondition, AutomationExpression, CompileIssue, ConditionScope,
};
use homemagic_application::target_resolution::{SnapshotDevice, SnapshotEndpoint, TargetResolutionError};

fn scope() -> ConditionScope {
    ConditionScope {
        variables: vec![("active".to_owned(), AutomationValueType::Boolean), ("count".to_owned(), AutomationValueType::Integer)],
        devices: vec![SnapshotDevice {
            device_id: 7,
            name: "Lamp".to_owned(),
            aliases: vec![],
            spaces: vec![1],
            enrolled: true,
            endpoints: vec![SnapshotEndpoint { endpoint_id: "switch:0".to_owned(), schemas: vec!["on_off.v1".to_owned()], position_known: false }],
        }],
        maximum_nesting_depth: 3,
        maximum_timer_ms: 86_400_000,
    }
}

fn variable(name: &str) -> AutomationExpression {
    AutomationExpression::Variable { name: name.to_owned() }
}

fn literal(value: AutomationValue) -> AutomationExpression {
    AutomationExpression::Literal { value }
}

fn compare(left: AutomationExpression, operator: AutomationComparison, right: AutomationExpression) -> AutomationCondition {
    AutomationCondition::Compare { left, operator, right }
}

fn issues_of(condition: &AutomationCondition) -> (Option<ResolvedAutomationCondition>, Vec<(CompileIssue, String)>) {
    let mut issues = Vec::new();
    let compiled = compile_condition(condition, &scope(), "/condition", 1, &mut issues);
    (compiled, issues)
}

#[test]
fn matching_comparison_compiles_without_findings() {
    let (compiled, issues) = issues_of(&compare(variable("active"), AutomationComparison::Equal, literal(AutomationValue::Boolean(true))));
    assert!(issues.is_empty());
    match compiled {
        Some(ResolvedAutomationCondition::Compare { left: ResolvedAutomationExpression::Variable { name }, operator, .. }) => {
            assert_eq!(name, "active");
            assert_eq!(operator, AutomationComparison::Equal);
        }
        other => panic!("unexpected compilation {other:?}"),
    }
}

#[test]
fn mismatched_and_unordered_operands_are_type_findings() {
    let (compiled, issues) =
        issues_of(&compare(variable("active"), AutomationComparison::LessThan, literal(AutomationValue::Integer(3))));
    assert!(compiled.is_some());
    assert_eq!(
        issues,
        vec![
            (CompileIssue::OperandTypesDiffer, "/condition".to_owned()),
            (CompileIssue::OperatorUndefined, "/condition".to_owned()),
        ]
    );
    let findings = findings_of(&issues);
    assert!(findings.iter().all(|f| f.code == AutomationValidationCode::TypeMismatch));
    assert_eq!(findings[1].reason, "selected operator is not defined for this value type");
}

#[test]
fn undeclared_variable_fails_the_comparison() {
    let (compiled, issues) = issues_of(&compare(variable("missing"), AutomationComparison::Equal, variable("count")));
    assert!(compiled.is_none());
    assert_eq!(issues, vec![(CompileIssue::VariableUndeclared, "/condition/left".to_owned())]);
}

#[test]
fn literal_values_are_checked_at_their_pointer() {
    let (_, issues) = issues_of(&compare(
        literal(AutomationValue::Decimal("1.0".to_owned())),
        AutomationComparison::Equal,
        literal(AutomationValue::DurationMillis(0)),
    ));
    assert_eq!(
        issues,
        vec![
            (CompileIssue::DecimalNotCanonical, "/condition/left/value".to_owned()),
            (CompileIssue::DurationOutOfRange, "/condition/right/value".to_owned()),
            (CompileIssue::OperandTypesDiffer, "/condition".to_owned()),
        ]
    );
    assert_eq!(findings_of(&issues)[0].code, AutomationValidationCode::InvalidDecimal);
}

#[test]
fn observation_reports_field_then_target_findings() {
    let target = AutomationTargetReference {
        device: AutomationDeviceReference::Device { device_id: 8 },
        endpoint_id: None,
        capability: "on_off.v1".to_owned(),
    };
    let observation = AutomationExpression::Observation { target, field: "brightness".to_owned() };
    let (compiled, issues) = issues_of(&compare(observation, AutomationComparison::Equal, literal(AutomationValue::Boolean(true))));
    assert!(compiled.is_none());
    assert_eq!(
        issues,
        vec![
            (CompileIssue::FieldUndefined, "/condition/left/field".to_owned()),
            (CompileIssue::Target(TargetResolutionError::ReferenceMissing), "/condition/left/target/device".to_owned()),
        ]
    );
    let findings = findings_of(&issues);
    assert_eq!(findings[1].code, AutomationValidationCode::ReferenceMissing);
    assert_eq!(findings[1].path, "/condition/left/target/device");
}

#[test]
fn resolved_observation_carries_its_targets() {
    let target = AutomationTargetReference {
        device: AutomationDeviceReference::Space { space_id: 1 },
        endpoint_id: None,
        capability: "on_off.v1".to_owned(),
    };
    let observation = AutomationExpression::Observation { target, field: "on".to_owned() };
    let (compiled, issues) = issues_of(&compare(observation, AutomationComparison::Equal, literal(AutomationValue::Boolean(true))));
    assert!(issues.is_empty());
    match compiled {
        Some(ResolvedAutomationCondition::Compare { left: ResolvedAutomationExpression::Observation { targets, field }, .. }) => {
            assert_eq!(field, "on");
            assert_eq!(targets.len(), 1);
            assert_eq!((targets[0].device_id, targets[0].endpoint_id.as_str()), (7, "switch:0"));
        }
        other => panic!("unexpected compilation {other:?}"),
    }
}

#[test]
fn lists_report_members_by_index_and_empty_lists() {
    let list = AutomationCondition::Any {
        conditions: vec![
            AutomationCondition::Literal { value: true },
            compare(variable("nope"), AutomationComparison::Equal, variable("active")),
        ],
    };
    let (compiled, issues) = issues_of(&list);
    assert!(compiled.is_none());
    assert_eq!(issues, vec![(CompileIssue::VariableUndeclared, "/condition/conditions/1/left".to_owned())]);

    let (empty, issues) = issues_of(&AutomationCondition::All { conditions: vec![] });
    assert!(matches!(empty, Some(ResolvedAutomationCondition::All { .. })));
    assert_eq!(issues, vec![(CompileIssue::ConditionListEmpty, "/condition/conditions".to_owned())]);
}

#[test]
fn nesting_beyond_the_budget_is_a_bound_finding() {
    let nested = AutomationCondition::Not {
        condition: Box::new(AutomationCondition::Not {
            condition: Box::new(AutomationCondition::Not { condition: Box::new(AutomationCondition::Literal { value: true }) }),
        }),
    };
    let (compiled, issues) = issues_of(&nested);
    assert!(compiled.is_none());
    assert_eq!(issues, vec![(CompileIssue::NestingTooDeep, "/condition/condition/condition/condition".to_owned())]);
    assert_eq!(findings_of(&issues)[0].code, AutomationValidationCode::ResourceBoundExceeded);
}

#[test]
fn time_windows_and_durations_are_validated() {
    let window = AutomationCondition::TimeWindow {
        timezone: "Mars/Olympus".to_owned(),
        start: "07:00:00".to_owned(),
        end: "08:00:00".to_owned(),
    };
    let (compiled, issues) = issues_of(&window);
    assert!(compiled.is_some());
    assert_eq!(issues, vec![(CompileIssue::TimeWindowInvalid, "/condition".to_owned())]);

    let duration = AutomationCondition::StateDuration {
        condition: Box::new(compare(variable("active"), AutomationComparison::Equal, literal(AutomationValue::Boolean(true)))),
        duration_ms: 0,
    };
    let (compiled, issues) = issues_of(&duration);
    assert!(compiled.is_some());
    assert_eq!(issues, vec![(CompileIssue::DurationOutOfRange, "/condition/duration_ms".to_owned())]);
}

#[test]
fn ambiguous_endpoint_finding_names_the_device() {
    let mut scope = scope();
    scope.devices[0].endpoints.push(SnapshotEndpoint { endpoint_id: "switch:1".to_owned(), schemas: vec!["on_off.v1".to_owned()], position_known: false });
    let target = AutomationTargetReference {
        device: AutomationDeviceReference::Device { device_id: 7 },
        endpoint_id: None,
        capability: "on_off.v1".to_owned(),
    };
    let condition = compare(
        AutomationExpression::Observation { target, field: "on".to_owned() },
        AutomationComparison::Equal,
        literal(AutomationValue::Boolean(true)),
    );
    let mut issues = Vec::new();
    assert!(compile_condition(&condition, &scope, "/condition", 1, &mut issues).is_none());
    let findings = findings_of(&issues);
    assert_eq!(findings.len(), 1);
    assert_eq!(findings[0].path, "/condition/left/target/endpoint_id");
    assert_eq!(findings[0].reference.as_deref(), Some("7"));
    assert_eq!(findings[0].remediation.as_deref(), Some("Specify an exact endpoint_id"));
}
