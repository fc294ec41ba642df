use homemagic_application::action_compiler::{AutomationAction, AutomationFailurePolicy};
use homemagic_application::automation_compiler::{
    AutomationApprovalRequirement, AutomationCompilationError, AutomationCompiler, AutomationDeviceReference,
    AutomationSafetyProfile, AutomationSafetyRequirement, AutomationSchedule, AutomationTargetReference,
    AutomationValidationCode, AutomationValueType, CommandPayloadKind,
};
use homemagic_application::automation_evaluator::{AutomationComparison, AutomationValue};
use homemagic_application::automation_events::AutomationSelfTriggerPolicy;
use homemagic_application::automation_runtime::{AutomationPlanFailurePolicy, AutomationRetryPolicy, AutomationRunMode};
use homemagic_application::condition_compiler::{AutomationCondition, AutomationExpression};
use homemagic_application::plan_compiler::{
    AutomationDocument, AutomationEngineLimits, AutomationProvenance, AutomationResourceBudget,
    AutomationVariableDefinition,
};
use homemagic_application::simulation_run::AutomationPlanNodeKind;
use homemagic_application::simulator::AutomationExecutionPlan;
use homemagic_application::target_resolution::{SnapshotDevice, SnapshotEndpoint};
use homemagic_application::trigger_compiler::AutomationTrigger;

const LAMP: u64 = 41;

fn limits() -> AutomationEngineLimits {
    AutomationEngineLimits {
        budget: AutomationResourceBudget {
            maximum_nodes: 256,
            maximum_nesting_depth: 8,
            maximum_parallel_width: 8,
            maximum_queue_length: 64,
            maximum_trace_steps: 1_024,
            maximum_run_duration_ms: 86_400_000,
        },
        maximum_document_bytes: 65_536,
        maximum_retries: 5,
        maximum_timer_ms: 86_400_000,
    }
}

fn lamp(id: u64, enrolled: bool) -> SnapshotDevice {
    SnapshotDevice {
        device_id: id,
        name: "Living room lamp".to_owned(),
        aliases: vec!["lamp".to_owned()],
        spaces: Vec::new(),
        enrolled,
        endpoints: vec![
            SnapshotEndpoint { endpoint_id: "light".to_owned(), schemas: vec!["on_off.v1".to_owned()], position_known: false },
            SnapshotEndpoint { endpoint_id: "cover".to_owned(), schemas: vec!["position.v1".to_owned()], position_known: true },
        ],
    }
}

fn fixture() -> (Vec<SnapshotDevice>, AutomationTargetReference) {
    (
        vec![lamp(LAMP, true)],
        AutomationTargetReference {
            device: AutomationDeviceReference::Device { device_id: LAMP },
            endpoint_id: Some("light".to_owned()),
            capability: "on_off.v1".to_owned(),
        },
    )
}

fn retry() -> AutomationRetryPolicy {
    AutomationRetryPolicy { maximum_retries: 0, backoff_ms: 0, retryable_command_errors: Vec::new() }
}

fn command(target: AutomationTargetReference, on: bool) -> AutomationAction {
    AutomationAction::Command {
        target,
        payload: CommandPayloadKind::OnOffSet(on),
        retry: retry(),
        on_failure: AutomationFailurePolicy::StopRun,
    }
}

fn document(target: AutomationTargetReference) -> AutomationDocument {
    AutomationDocument {
        id: 11,
        version: 1,
        name: "Last desired state".to_owned(),
        provenance: AutomationProvenance {
            author_id: 5,
            source_request: "Keep the light in the final requested state".to_owned(),
            rationale: "Avoid visible flicker".to_owned(),
        },
        variables: Vec::new(),
        triggers: vec![AutomationTrigger::ObservationChanged { target: target.clone(), field: Some("on".to_owned()) }],
        condition: None,
        actions: vec![command(target, true)],
        run_mode: AutomationRunMode::Single,
        self_trigger: AutomationSelfTriggerPolicy::SuppressSameVersion,
        budget: AutomationResourceBudget {
            maximum_nodes: 64,
            maximum_nesting_depth: 4,
            maximum_parallel_width: 4,
            maximum_queue_length: 16,
            maximum_trace_steps: 256,
            maximum_run_duration_ms: 3_600_000,
        },
    }
}

fn compile(document: &AutomationDocument, devices: Vec<SnapshotDevice>) -> Result<AutomationExecutionPlan, AutomationCompilationError> {
    let scope = AutomationCompiler::scope(document, devices, &limits());
    AutomationCompiler::compile(document, &scope, &limits(), 1_000, Some(17))
}

fn has_finding(error: &AutomationCompilationError, code: AutomationValidationCode, path: &str) -> bool {
    error.findings.iter().any(|finding| finding.code == code && finding.path == path)
}

#[test]
fn compilation_is_deterministic_and_reduces_to_last_desired_state() {
    let (snapshot, target) = fixture();
    let mut document = document(target.clone());
    document.actions = vec![command(target.clone(), false), command(target.clone(), true), command(target, false)];

    let first = compile(&document, snapshot.clone()).expect("valid plan");
    let second = compile(&document, snapshot).expect("valid plan");

    assert_eq!(format!("{first:?}"), format!("{second:?}"));
    let commands: Vec<(CommandPayloadKind, usize)> = first
        .nodes
        .iter()
        .filter_map(|node| match &node.kind {
            AutomationPlanNodeKind::Command { payload, targets, .. } => Some((*payload, targets.len())),
            _ => None,
        })
        .collect();
    assert_eq!(commands.len(), 1);
    assert_eq!(commands[0].0, CommandPayloadKind::OnOffSet(false));
    assert_eq!(commands[0].1, 1);
}

#[test]
fn delay_is_a_reduction_boundary() {
    let (snapshot, target) = fixture();
    let mut document = document(target.clone());
    document.actions = vec![
        command(target.clone(), true),
        command(target.clone(), false),
        AutomationAction::Delay { duration_ms: 10 },
        command(target, true),
    ];

    let plan = compile(&document, snapshot).expect("valid plan");
    let commands = plan.nodes.iter().filter(|node| matches!(node.kind, AutomationPlanNodeKind::Command { .. })).count();
    assert_eq!(commands, 2);
}

#[test]
fn missing_reference_reports_exact_json_pointer() {
    let (snapshot, mut target) = fixture();
    target.device = AutomationDeviceReference::Device { device_id: 999 };
    let error = compile(&document(target), snapshot).expect_err("missing target must fail");

    assert!(has_finding(&error, AutomationValidationCode::ReferenceMissing, "/actions/0/target/device"));
}

#[test]
fn ambiguous_alias_reports_exact_json_pointer() {
    let (mut snapshot, mut target) = fixture();
    snapshot.push(lamp(42, true));
    target.device = AutomationDeviceReference::Alias { alias: "lamp".to_owned() };

    let error = compile(&document(target), snapshot).expect_err("ambiguous target must fail");
    assert!(has_finding(&error, AutomationValidationCode::ReferenceAmbiguous, "/actions/0/target/device"));
}

#[test]
fn invalid_schedule_and_timezone_are_rejected() {
    let (snapshot, target) = fixture();
    let mut document = document(target);
    document.triggers = vec![AutomationTrigger::Schedule {
        schedule: AutomationSchedule {
            cron: "not cron".to_owned(),
            timezone: "Mars/Olympus".to_owned(),
            occurrence_window_ms: 1_000,
        },
    }];

    let error = compile(&document, snapshot).expect_err("invalid schedule must fail");
    assert!(has_finding(&error, AutomationValidationCode::InvalidSchedule, "/triggers/0/schedule"));
}

#[test]
fn stale_incompatible_and_typed_inputs_are_rejected() {
    let (_, target) = fixture();
    let stale = compile(&document(target.clone()), vec![lamp(LAMP, false)]).expect_err("stale device must fail");
    assert!(has_finding(&stale, AutomationValidationCode::ReferenceStale, "/actions/0/target/device"));

    let (snapshot, mut incompatible_target) = fixture();
    incompatible_target.capability = "energy.v1".to_owned();
    let incompatible = compile(&document(incompatible_target), snapshot).expect_err("incompatible capability must fail");
    assert!(incompatible.findings.iter().any(|finding| {
        finding.code == AutomationValidationCode::CapabilityIncompatible && finding.path.starts_with("/actions/0")
    }));

    let (snapshot, target) = fixture();
    let mut typed = document(target);
    typed.variables.push((
        "mode".to_owned(),
        AutomationVariableDefinition { value_type: AutomationValueType::String, initial: Some(AutomationValue::Integer(1)) },
    ));
    let typed = compile(&typed, snapshot).expect_err("mismatched initial value must fail");
    assert!(has_finding(&typed, AutomationValidationCode::TypeMismatch, "/variables/mode/initial"));
}

#[test]
fn position_command_derives_motion_safety_constraints() {
    let (snapshot, mut target) = fixture();
    target.endpoint_id = Some("cover".to_owned());
    target.capability = "position.v1".to_owned();
    let mut document = document(target.clone());
    document.triggers =
        vec![AutomationTrigger::ObservationChanged { target: target.clone(), field: Some("percent".to_owned()) }];
    document.actions = vec![AutomationAction::Command {
        target,
        payload: CommandPayloadKind::PositionGoTo(42),
        retry: retry(),
        on_failure: AutomationFailurePolicy::StopRun,
    }];

    let plan = compile(&document, snapshot).expect("valid plan");
    assert_eq!(plan.safety_profiles, vec![AutomationSafetyProfile::ComfortMotion]);
    assert!(plan.safety_requirements.contains(&AutomationSafetyRequirement::FreshState));
    assert!(plan.safety_requirements.contains(&AutomationSafetyRequirement::StopSupport));
    assert!(plan.safety_requirements.contains(&AutomationSafetyRequirement::Calibration));
    assert!(plan.safety_requirements.contains(&AutomationSafetyRequirement::Position));
    assert_eq!(plan.approval, AutomationApprovalRequirement::ActivationGrant);
}

#[test]
fn uncalibrated_position_command_is_rejected() {
    let (mut snapshot, mut target) = fixture();
    snapshot[0].endpoints[1].position_known = false;
    target.endpoint_id = Some("cover".to_owned());
    target.capability = "position.v1".to_owned();
    let mut document = document(target.clone());
    document.actions = vec![AutomationAction::Command {
        target,
        payload: CommandPayloadKind::PositionGoTo(42),
        retry: retry(),
        on_failure: AutomationFailurePolicy::StopRun,
    }];
    let error = compile(&document, snapshot).expect_err("uncalibrated cover must fail");
    assert!(has_finding(&error, AutomationValidationCode::SafetyConstraintUnavailable, "/actions/0/payload"));
}

#[test]
fn plan_nodes_refer_to_earlier_nodes() {
    let (snapshot, target) = fixture();
    let mut document = document(target.clone());
    let light_on = AutomationCondition::Compare {
        left: AutomationExpression::Observation { target: target.clone(), field: "on".to_owned() },
        operator: AutomationComparison::Equal,
        right: AutomationExpression::Literal { value: AutomationValue::Boolean(true) },
    };
    document.actions = vec![
        AutomationAction::Wait {
            condition: AutomationCondition::Compare {
                left: AutomationExpression::Observation { target: target.clone(), field: "on".to_owned() },
                operator: AutomationComparison::Equal,
                right: AutomationExpression::Literal { value: AutomationValue::Boolean(true) },
            },
            timeout_ms: 20,
            on_timeout: AutomationFailurePolicy::StopRun,
        },
        command(target.clone(), true),
        AutomationAction::If {
            condition: light_on,
            then_actions: vec![AutomationAction::Delay { duration_ms: 1 }],
            else_actions: vec![AutomationAction::Delay { duration_ms: 2 }],
        },
        AutomationAction::Race {
            branches: vec![vec![AutomationAction::Delay { duration_ms: 1 }], vec![AutomationAction::Delay { duration_ms: 2 }]],
            maximum_parallel: 2,
        },
    ];
    let plan = compile(&document, snapshot).expect("valid plan");
    assert_eq!(plan.nodes.len(), 11);
    assert_eq!(plan.entry, 10);
    assert_eq!(plan.registry_revision, 17);
    assert!(matches!(plan.nodes[0].kind, AutomationPlanNodeKind::Complete));
    for (index, node) in plan.nodes.iter().enumerate() {
        assert_eq!(node.id as usize, index);
        let refs: Vec<Option<u32>> = match &node.kind {
            AutomationPlanNodeKind::Delay { next, .. } | AutomationPlanNodeKind::Join { next } => vec![*next],
            AutomationPlanNodeKind::Command { next, on_failure, .. } => {
                let fallback = match on_failure {
                    AutomationPlanFailurePolicy::Fallback { entry } => *entry,
                    _ => None,
                };
                vec![*next, fallback]
            },
            AutomationPlanNodeKind::Wait { next, .. } => vec![*next],
            AutomationPlanNodeKind::Branch { then_node, else_node, join, .. } => vec![*then_node, *else_node, *join],
            AutomationPlanNodeKind::Race { branches, join, .. } | AutomationPlanNodeKind::Parallel { branches, join, .. } => {
                let mut refs: Vec<Option<u32>> = branches.iter().map(|b| Some(*b)).collect();
                refs.push(*join);
                refs
            },
            _ => Vec::new(),
        };
        for reference in refs.into_iter().flatten() {
            assert!((reference as usize) < index);
        }
    }
}

#[test]
fn structural_findings_are_reported_in_order() {
    let (snapshot, target) = fixture();
    let mut document = document(target);
    document.name = "  ".to_owned();
    document.triggers.clear();
    document.actions.clear();
    document.run_mode = AutomationRunMode::Queued { capacity: 0 };
    let error = compile(&document, snapshot).expect_err("empty document must fail");
    let paths: Vec<&str> = error.findings.iter().map(|finding| finding.path.as_str()).collect();
    assert_eq!(paths, vec!["/name", "/triggers", "/actions", "/run_mode/capacity"]);
    assert_eq!(error.findings[0].reason, "automation name must not be empty");
}

#[test]
fn oversized_documents_and_node_budgets_are_bounds() {
    let (snapshot, target) = fixture();
    let document = document(target.clone());
    let scope = AutomationCompiler::scope(&document, snapshot.clone(), &limits());
    let error = AutomationCompiler::compile(&document, &scope, &limits(), 70_000, None).expect_err("too large");
    assert!(has_finding(&error, AutomationValidationCode::DocumentTooLarge, ""));

    let mut small = document;
    small.budget.maximum_nodes = 1;
    let error = compile(&small, snapshot).expect_err("two nodes exceed a budget of one");
    assert!(has_finding(&error, AutomationValidationCode::ResourceBoundExceeded, "/budget/maximum_nodes"));
}
