//! Validation and compilation of one authored automation document against a
//! registry snapshot into a normalized plan, with every finding in discovery
//! order and no partial plan.

use vstd::prelude::*;

use crate::action_compiler::{
    compile_actions, kind_refs_below, lemma_lowering_refers_backwards, lemma_realized_refs, lower_actions, note,
    push_node, realized, refers_backwards, ActionLowering, ActionScope, AutomationAction, LoweringModel,
    PlannedNode, node_id_for,
};
use crate::authentication::decimal_chars;
use crate::automation_compiler::{
    approval_for, budget_field, canonical_decimal, canonical_decimal_text, pointer_escaped, pointer_segment,
    profile_needs_approval, timer_in_range, AutomationApprovalRequirement, AutomationCompilationError,
    AutomationCompiler, AutomationResourceBudgetError, AutomationSafetyRequirement, AutomationValueType,
};
use crate::automation_evaluator::{copy_value, AutomationValue, ResolvedAutomationCondition};
use crate::automation_events::AutomationSelfTriggerPolicy;
use crate::automation_runtime::AutomationRunMode;
use crate::automation_simulator::AutomationExecutionBudget;
use crate::condition_compiler::{
    compile_condition, condition_compiles, condition_compiles_to, condition_issues, findings_of, finding_for,
    issue_view, joined, record, reports, value_issues, value_type, value_type_of, AutomationCondition, CompileIssue,
    ConditionScope,
};
use crate::simulation_run::{AutomationPlanNode, AutomationPlanNodeKind};
use crate::simulator::AutomationExecutionPlan;
use crate::target_resolution::SnapshotDevice;
use crate::trigger_compiler::{
    blank, compile_triggers, is_blank, trigger_list_issues, triggers_compile_to, AutomationTrigger,
};

verus! {

/// Declared resource bounds of a document.
#[derive(Clone, Copy, Debug, PartialEq, Eq, Structural)]
pub struct AutomationResourceBudget {
    pub maximum_nodes: u32,
    pub maximum_nesting_depth: u16,
    pub maximum_parallel_width: u16,
    pub maximum_queue_length: u16,
    pub maximum_trace_steps: u32,
    pub maximum_run_duration_ms: u64,
}

/// The engine's hard limits.
#[derive(Clone, Copy, Debug, PartialEq, Eq, Structural)]
pub struct AutomationEngineLimits {
    /// Largest budget a document may declare, field by field.
    pub budget: AutomationResourceBudget,
    /// Largest serialized document.
    pub maximum_document_bytes: usize,
    pub maximum_retries: u16,
    /// Longest timer in milliseconds.
    pub maximum_timer_ms: u64,
}

/// A declared variable.
#[derive(Debug)]
pub struct AutomationVariableDefinition {
    pub value_type: AutomationValueType,
    pub initial: Option<AutomationValue>,
}

/// Who asked for an automation, and why.
#[derive(Debug)]
pub struct AutomationProvenance {
    pub author_id: u64,
    pub source_request: String,
    pub rationale: String,
}

/// One authored automation document.
#[derive(Debug)]
pub struct AutomationDocument {
    pub id: u64,
    pub version: u32,
    pub name: String,
    pub provenance: AutomationProvenance,
    /// Declared variables, one per name.
    pub variables: Vec<(String, AutomationVariableDefinition)>,
    pub triggers: Vec<AutomationTrigger>,
    pub condition: Option<AutomationCondition>,
    pub actions: Vec<AutomationAction>,
    pub run_mode: AutomationRunMode,
    pub self_trigger: AutomationSelfTriggerPolicy,
    pub budget: AutomationResourceBudget,
}

/// The first declared bound, in field order, that is zero or above the
/// engine's limit.
pub open spec fn budget_error(b: AutomationResourceBudget, l: AutomationResourceBudget) -> Option<
    AutomationResourceBudgetError,
> {
    if b.maximum_nodes == 0 || b.maximum_nodes > l.maximum_nodes {
        Some(AutomationResourceBudgetError::MaximumNodes)
    } else if b.maximum_nesting_depth == 0 || b.maximum_nesting_depth > l.maximum_nesting_depth {
        Some(AutomationResourceBudgetError::MaximumNestingDepth)
    } else if b.maximum_parallel_width == 0 || b.maximum_parallel_width > l.maximum_parallel_width {
        Some(AutomationResourceBudgetError::MaximumParallelWidth)
    } else if b.maximum_queue_length == 0 || b.maximum_queue_length > l.maximum_queue_length {
        Some(AutomationResourceBudgetError::MaximumQueueLength)
    } else if b.maximum_trace_steps == 0 || b.maximum_trace_steps > l.maximum_trace_steps {
        Some(AutomationResourceBudgetError::MaximumTraceSteps)
    } else if b.maximum_run_duration_ms == 0 || b.maximum_run_duration_ms > l.maximum_run_duration_ms {
        Some(AutomationResourceBudgetError::MaximumRunDuration)
    } else {
        None
    }
}

/// The JSON field name of a budget bound.
pub open spec fn budget_field_text(e: AutomationResourceBudgetError) -> Seq<char> {
    match e {
        AutomationResourceBudgetError::MaximumNodes => "maximum_nodes"@,
        AutomationResourceBudgetError::MaximumNestingDepth => "maximum_nesting_depth"@,
        AutomationResourceBudgetError::MaximumParallelWidth => "maximum_parallel_width"@,
        AutomationResourceBudgetError::MaximumQueueLength => "maximum_queue_length"@,
        AutomationResourceBudgetError::MaximumTraceSteps => "maximum_trace_steps"@,
        AutomationResourceBudgetError::MaximumRunDuration => "maximum_run_duration_ms"@,
    }
}

/// One issue at `path` when `found`.
pub open spec fn issue_if(found: bool, issue: CompileIssue, path: Seq<char>) -> Seq<(CompileIssue, Seq<char>)> {
    if found {
        seq![(issue, path)]
    } else {
        Seq::empty()
    }
}

/// Issues of one declared variable.
pub open spec fn variable_issues(name: String, definition: AutomationVariableDefinition, scope: ConditionScope) -> Seq<
    (CompileIssue, Seq<char>),
> {
    let path = "/variables/"@ + pointer_escaped(name@);
    issue_if(blank(name@), CompileIssue::VariableNameMissing, path) + match definition.initial {
        Some(v) => value_issues(v, scope, path + "/initial"@) + issue_if(
            value_type_of(v) != definition.value_type,
            CompileIssue::InitialValueMismatch,
            path + "/initial"@,
        ),
        None => Seq::empty(),
    }
}

/// Issues of the declared variables, in declaration order.
pub open spec fn variables_issues(vars: Seq<(String, AutomationVariableDefinition)>, scope: ConditionScope) -> Seq<
    (CompileIssue, Seq<char>),
>
    decreases vars.len(),
{
    if vars.len() == 0 {
        Seq::empty()
    } else {
        variables_issues(vars.drop_last(), scope) + variable_issues(vars.last().0, vars.last().1, scope)
    }
}

/// Issues of the run mode's capacity against the declared budget.
pub open spec fn run_mode_issues(mode: AutomationRunMode, budget: AutomationResourceBudget) -> Seq<
    (CompileIssue, Seq<char>),
> {
    match mode {
        AutomationRunMode::Queued { capacity } => issue_if(
            capacity == 0 || capacity > budget.maximum_queue_length,
            CompileIssue::QueueCapacityExceeded,
            "/run_mode/capacity"@,
        ),
        AutomationRunMode::Parallel { maximum_parallel } => issue_if(
            maximum_parallel == 0 || maximum_parallel > budget.maximum_parallel_width,
            CompileIssue::RunParallelismExceeded,
            "/run_mode/maximum_parallel"@,
        ),
        _ => Seq::empty(),
    }
}

/// Issues of the document's required parts: its size, its name and
/// provenance, and its triggers and actions.
pub open spec fn presence_issues(doc: AutomationDocument, limits: AutomationEngineLimits, document_bytes: usize) -> Seq<
    (CompileIssue, Seq<char>),
> {
    issue_if(document_bytes > limits.maximum_document_bytes, CompileIssue::DocumentTooLarge, Seq::empty())
        + issue_if(blank(doc.name@), CompileIssue::NameMissing, "/name"@)
        + issue_if(
        blank(doc.provenance.source_request@),
        CompileIssue::SourceRequestMissing,
        "/provenance/source_request"@,
    ) + issue_if(blank(doc.provenance.rationale@), CompileIssue::RationaleMissing, "/provenance/rationale"@)
        + issue_if(doc.triggers@.len() == 0, CompileIssue::TriggersMissing, "/triggers"@)
        + issue_if(doc.actions@.len() == 0, CompileIssue::ActionsMissing, "/actions"@)
}

/// Issues of the document's bounds: its budget against the engine's limits
/// and its run mode against its budget.
pub open spec fn bound_issues(doc: AutomationDocument, limits: AutomationEngineLimits) -> Seq<(CompileIssue, Seq<char>)> {
    let budget = match budget_error(doc.budget, limits.budget) {
        Some(e) => seq![(CompileIssue::BudgetInvalid, "/budget/"@ + budget_field_text(e))],
        None => Seq::empty(),
    };
    budget + run_mode_issues(doc.run_mode, doc.budget)
}

/// Issues of the document's structure, in discovery order: its required
/// parts, its bounds, and its variables.
pub open spec fn structure_issues(
    doc: AutomationDocument,
    limits: AutomationEngineLimits,
    document_bytes: usize,
    scope: ConditionScope,
) -> Seq<(CompileIssue, Seq<char>)> {
    presence_issues(doc, limits, document_bytes) + bound_issues(doc, limits) + variables_issues(doc.variables@, scope)
}

/// Whether the scope is the one the document is compiled in: its variables'
/// types, the snapshot's devices, the document's nesting and width budget, and
/// the engine's timer and retry limits.
pub open spec fn scope_for(
    doc: AutomationDocument,
    devices: Seq<SnapshotDevice>,
    limits: AutomationEngineLimits,
    scope: ActionScope,
) -> bool {
    &&& scope.conditions.variables@.len() == doc.variables@.len()
    &&& forall|i: int|
        #![trigger scope.conditions.variables@[i]]
        0 <= i < doc.variables@.len() ==> scope.conditions.variables@[i].0@ == doc.variables@[i].0@
            && scope.conditions.variables@[i].1 == doc.variables@[i].1.value_type
    &&& scope.conditions.devices@ == devices
    &&& scope.conditions.maximum_nesting_depth == doc.budget.maximum_nesting_depth
    &&& scope.conditions.maximum_timer_ms == limits.maximum_timer_ms
    &&& scope.maximum_retries == limits.maximum_retries
    &&& scope.maximum_parallel_width == doc.budget.maximum_parallel_width
}

/// Issues of the document before its actions: structure, triggers, condition.
pub open spec fn issues_before_actions(
    doc: AutomationDocument,
    limits: AutomationEngineLimits,
    document_bytes: usize,
    scope: ActionScope,
) -> Seq<(CompileIssue, Seq<char>)> {
    structure_issues(doc, limits, document_bytes, scope.conditions) + trigger_list_issues(doc.triggers@, scope.conditions)
        + match doc.condition {
        Some(c) => condition_issues(c, scope.conditions, "/condition"@, 1),
        None => Seq::empty(),
    }
}

/// The actions lowered after the final `Complete` node, which is node 0.
pub open spec fn lowered_document(
    doc: AutomationDocument,
    limits: AutomationEngineLimits,
    document_bytes: usize,
    scope: ActionScope,
) -> (Option<u32>, LoweringModel) {
    let m0 = LoweringModel {
        planned: seq![PlannedNode::Complete],
        issues: issues_before_actions(doc, limits, document_bytes, scope),
        profiles: Seq::empty(),
        requirements: Seq::empty(),
    };
    lower_actions(doc.actions@, Some(0), "/actions"@, 1, scope, m0)
}

/// Every issue of a compilation, in discovery order; the node budget is
/// checked last.
pub open spec fn compilation_issues(
    doc: AutomationDocument,
    limits: AutomationEngineLimits,
    document_bytes: usize,
    scope: ActionScope,
) -> Seq<(CompileIssue, Seq<char>)> {
    let m = lowered_document(doc, limits, document_bytes, scope).1;
    m.issues + issue_if(m.planned.len() > doc.budget.maximum_nodes, CompileIssue::NodeBudgetExceeded, "/budget/maximum_nodes"@)
}

/// Whether the findings report the issues, one by one.
pub open spec fn reports_all(findings: Seq<crate::automation_compiler::AutomationValidationError>, issues: Seq<(CompileIssue, Seq<char>)>) -> bool {
    &&& findings.len() == issues.len()
    &&& forall|k: int| 0 <= k < issues.len() ==> reports(#[trigger] findings[k], issues[k].0, issues[k].1)
}

/// Whether the plan's variables are the declared ones with their initial values.
pub open spec fn declares(plan_vars: Seq<(String, Option<AutomationValue>)>, doc_vars: Seq<(String, AutomationVariableDefinition)>) -> bool {
    &&& plan_vars.len() == doc_vars.len()
    &&& forall|i: int|
        0 <= i < doc_vars.len() ==> #[trigger] plan_vars[i].0@ == doc_vars[i].0@ && plan_vars[i].1 == doc_vars[i].1.initial
}

/// Whether the plan is closed: its entry is one of its nodes, each node's id is
/// its position, and each node continues only with nodes before it, so
/// interpretation never meets an unknown node and never revisits one.
pub open spec fn plan_is_closed(plan: AutomationExecutionPlan) -> bool {
    &&& plan.entry < plan.nodes@.len()
    &&& forall|i: int|
        0 <= i < plan.nodes@.len() ==> #[trigger] plan.nodes@[i].id == i && kind_refs_below(plan.nodes@[i].kind, i)
}

proof fn lemma_plan_closed(
    doc: AutomationDocument,
    limits: AutomationEngineLimits,
    document_bytes: usize,
    scope: ActionScope,
    nodes: Seq<AutomationPlanNode>,
    entry: u32,
)
    requires
        lowered_document(doc, limits, document_bytes, scope).0 == Some(entry),
        nodes.len() == lowered_document(doc, limits, document_bytes, scope).1.planned.len(),
        forall|i: int|
            0 <= i < nodes.len() ==> #[trigger] realized(
                nodes[i],
                node_id_for(i as nat),
                lowered_document(doc, limits, document_bytes, scope).1.planned[i],
                scope,
            ),
        nodes.len() < u32::MAX,
    ensures
        entry < nodes.len(),
        forall|i: int| 0 <= i < nodes.len() ==> #[trigger] nodes[i].id == i && kind_refs_below(nodes[i].kind, i),
{
    let m0 = LoweringModel {
        planned: seq![PlannedNode::Complete],
        issues: issues_before_actions(doc, limits, document_bytes, scope),
        profiles: Seq::empty(),
        requirements: Seq::empty(),
    };
    let lowered = lowered_document(doc, limits, document_bytes, scope).1;
    assert(refers_backwards(m0.planned)) by {
        assert forall|i: int| 0 <= i < m0.planned.len() implies #[trigger] crate::action_compiler::refs_below(
            m0.planned[i],
            i,
        ) by {
            assert(m0.planned[i] == PlannedNode::Complete);
        }
    }
    lemma_lowering_refers_backwards(doc.actions@, Some(0), "/actions"@, 1, scope, m0);
    assert forall|i: int| 0 <= i < nodes.len() implies #[trigger] nodes[i].id == i && kind_refs_below(nodes[i].kind, i) by {
        assert(realized(nodes[i], node_id_for(i as nat), lowered.planned[i], scope));
        assert(crate::action_compiler::refs_below(lowered.planned[i], i));
        lemma_realized_refs(nodes[i], node_id_for(i as nat), lowered.planned[i], scope, i);
    }
}

/// Whether `plan` is the compiled plan of the document: its nodes realize the
/// lowered ones, its triggers and condition are the compiled ones, and it
/// carries the document's identity, variables, modes and budget, the profiles
/// and requirements of its commands, and the approval they call for.
pub open spec fn compiled_plan(
    plan: AutomationExecutionPlan,
    doc: AutomationDocument,
    registry_revision: u64,
    limits: AutomationEngineLimits,
    document_bytes: usize,
    scope: ActionScope,
) -> bool {
    let (entry, m) = lowered_document(doc, limits, document_bytes, scope);
    let explicit = exists|i: int| 0 <= i < m.profiles.len() && profile_needs_approval(#[trigger] m.profiles[i]);
    &&& entry == Some(plan.entry)
    &&& plan.nodes@.len() == m.planned.len()
    &&& forall|i: int|
        0 <= i < m.planned.len() ==> #[trigger] realized(plan.nodes@[i], node_id_for(i as nat), m.planned[i], scope)
    &&& triggers_compile_to(doc.triggers@, plan.triggers@, scope.conditions)
    &&& match doc.condition {
        None => plan.condition is None,
        Some(c) => if condition_compiles(c, scope.conditions, 1) {
            plan.condition matches Some(r) && condition_compiles_to(c, r, scope.conditions)
        } else {
            plan.condition is None
        },
    }
    &&& declares(plan.variables@, doc.variables@)
    &&& plan.automation_id == doc.id
    &&& plan.automation_version == doc.version
    &&& plan.registry_revision == registry_revision
    &&& plan.run_mode == doc.run_mode
    &&& plan.self_trigger == doc.self_trigger
    &&& plan.budget == (AutomationExecutionBudget {
        maximum_trace_steps: doc.budget.maximum_trace_steps,
        maximum_run_duration_ms: doc.budget.maximum_run_duration_ms,
    })
    &&& plan.safety_profiles@ == m.profiles
    &&& plan.safety_requirements@ == (if explicit {
        m.requirements.push(AutomationSafetyRequirement::ExplicitApproval)
    } else {
        m.requirements
    })
    &&& plan.approval == (if explicit {
        AutomationApprovalRequirement::ExplicitUserApproval
    } else {
        AutomationApprovalRequirement::ActivationGrant
    })
}

fn budget_check(b: AutomationResourceBudget, l: AutomationResourceBudget) -> (r: Option<AutomationResourceBudgetError>)
    ensures
        r == budget_error(b, l),
{
    if b.maximum_nodes == 0 || b.maximum_nodes > l.maximum_nodes {
        Some(AutomationResourceBudgetError::MaximumNodes)
    } else if b.maximum_nesting_depth == 0 || b.maximum_nesting_depth > l.maximum_nesting_depth {
        Some(AutomationResourceBudgetError::MaximumNestingDepth)
    } else if b.maximum_parallel_width == 0 || b.maximum_parallel_width > l.maximum_parallel_width {
        Some(AutomationResourceBudgetError::MaximumParallelWidth)
    } else if b.maximum_queue_length == 0 || b.maximum_queue_length > l.maximum_queue_length {
        Some(AutomationResourceBudgetError::MaximumQueueLength)
    } else if b.maximum_trace_steps == 0 || b.maximum_trace_steps > l.maximum_trace_steps {
        Some(AutomationResourceBudgetError::MaximumTraceSteps)
    } else if b.maximum_run_duration_ms == 0 || b.maximum_run_duration_ms > l.maximum_run_duration_ms {
        Some(AutomationResourceBudgetError::MaximumRunDuration)
    } else {
        None
    }
}

/// Records the issues of one declared variable.
fn check_variable(
    name: &String,
    definition: &AutomationVariableDefinition,
    scope: &ConditionScope,
    issues: &mut Vec<(CompileIssue, String)>,
)
    ensures
        issue_view(final(issues)@) == issue_view(old(issues)@) + variable_issues(*name, *definition, *scope),
{
    let ghost before = issue_view(issues@);
    let path = joined("/variables/", pointer_segment(name.as_str()).as_str());
    if is_blank(name.as_str()) {
        record(issues, CompileIssue::VariableNameMissing, joined("/variables/", pointer_segment(name.as_str()).as_str()));
    }
    let ghost after_name = issue_view(issues@);
    match &definition.initial {
        Some(v) => {
            let at = joined(path.as_str(), "/initial");
            match v {
                AutomationValue::Decimal(d) => {
                    if !canonical_decimal(d.as_str()) {
                        record(issues, CompileIssue::DecimalNotCanonical, joined(path.as_str(), "/initial"));
                    }
                },
                AutomationValue::DurationMillis(ms) => {
                    if !timer_in_range(*ms, scope.maximum_timer_ms) {
                        record(issues, CompileIssue::DurationOutOfRange, joined(path.as_str(), "/initial"));
                    }
                },
                _ => {},
            }
            assert(issue_view(issues@) =~= after_name + value_issues(*v, *scope, at@));
            if value_type(v) != definition.value_type {
                record(issues, CompileIssue::InitialValueMismatch, at);
            }
        },
        None => {},
    }
    assert(issue_view(issues@) =~= before + variable_issues(*name, *definition, *scope));
}

/// Records one issue at `path` when `found`.
fn record_if(issues: &mut Vec<(CompileIssue, String)>, found: bool, issue: CompileIssue, path: &str)
    ensures
        issue_view(final(issues)@) == issue_view(old(issues)@) + issue_if(found, issue, path@),
{
    let ghost before = issue_view(issues@);
    if found {
        record(issues, issue, String::from_str(path));
    }
    assert(issue_view(issues@) =~= before + issue_if(found, issue, path@));
}

/// Records the issues of the document's required parts.
#[verifier::rlimit(40)]
fn check_presence(
    doc: &AutomationDocument,
    limits: &AutomationEngineLimits,
    document_bytes: usize,
    issues: &mut Vec<(CompileIssue, String)>,
)
    ensures
        issue_view(final(issues)@) == issue_view(old(issues)@) + presence_issues(*doc, *limits, document_bytes),
{
    let ghost before = issue_view(issues@);
    record_if(issues, document_bytes > limits.maximum_document_bytes, CompileIssue::DocumentTooLarge, "");
    let ghost s1 = issue_view(issues@);
    record_if(issues, is_blank(doc.name.as_str()), CompileIssue::NameMissing, "/name");
    let ghost s2 = issue_view(issues@);
    record_if(
        issues,
        is_blank(doc.provenance.source_request.as_str()),
        CompileIssue::SourceRequestMissing,
        "/provenance/source_request",
    );
    let ghost s3 = issue_view(issues@);
    record_if(issues, is_blank(doc.provenance.rationale.as_str()), CompileIssue::RationaleMissing, "/provenance/rationale");
    let ghost s4 = issue_view(issues@);
    record_if(issues, doc.triggers.len() == 0, CompileIssue::TriggersMissing, "/triggers");
    let ghost s5 = issue_view(issues@);
    record_if(issues, doc.actions.len() == 0, CompileIssue::ActionsMissing, "/actions");
    proof {
        let a = issue_if(document_bytes > limits.maximum_document_bytes, CompileIssue::DocumentTooLarge, ""@);
        let b = issue_if(blank(doc.name@), CompileIssue::NameMissing, "/name"@);
        let c = issue_if(blank(doc.provenance.source_request@), CompileIssue::SourceRequestMissing, "/provenance/source_request"@);
        let d = issue_if(blank(doc.provenance.rationale@), CompileIssue::RationaleMissing, "/provenance/rationale"@);
        let e = issue_if(doc.triggers@.len() == 0, CompileIssue::TriggersMissing, "/triggers"@);
        let f = issue_if(doc.actions@.len() == 0, CompileIssue::ActionsMissing, "/actions"@);
        assert(""@ =~= Seq::<char>::empty()) by {
            reveal_strlit("");
        }
        assert(presence_issues(*doc, *limits, document_bytes) == a + b + c + d + e + f);
        assert(issue_view(issues@) =~= before + (a + b + c + d + e + f));
    }
}

/// Records the issues of the document's bounds.
fn check_bounds(doc: &AutomationDocument, limits: &AutomationEngineLimits, issues: &mut Vec<(CompileIssue, String)>)
    ensures
        issue_view(final(issues)@) == issue_view(old(issues)@) + bound_issues(*doc, *limits),
{
    let ghost before = issue_view(issues@);
    match budget_check(doc.budget, limits.budget) {
        Some(e) => {
            record(issues, CompileIssue::BudgetInvalid, joined("/budget/", budget_field(e)));
        },
        None => {},
    }
    let ghost s1 = issue_view(issues@);
    match doc.run_mode {
        AutomationRunMode::Queued { capacity } => {
            if capacity == 0 || capacity > doc.budget.maximum_queue_length {
                record(issues, CompileIssue::QueueCapacityExceeded, String::from_str("/run_mode/capacity"));
            }
        },
        AutomationRunMode::Parallel { maximum_parallel } => {
            if maximum_parallel == 0 || maximum_parallel > doc.budget.maximum_parallel_width {
                record(issues, CompileIssue::RunParallelismExceeded, String::from_str("/run_mode/maximum_parallel"));
            }
        },
        _ => {},
    }
    proof {
        assert(issue_view(issues@) =~= s1 + run_mode_issues(doc.run_mode, doc.budget));
        assert(issue_view(issues@) =~= before + bound_issues(*doc, *limits));
    }
}

/// Records the issues of the document's structure.
fn validate_structure(
    doc: &AutomationDocument,
    limits: &AutomationEngineLimits,
    document_bytes: usize,
    scope: &ConditionScope,
    issues: &mut Vec<(CompileIssue, String)>,
)
    ensures
        issue_view(final(issues)@) == issue_view(old(issues)@) + structure_issues(*doc, *limits, document_bytes, *scope),
{
    let ghost before = issue_view(issues@);
    check_presence(doc, limits, document_bytes, issues);
    check_bounds(doc, limits, issues);
    let ghost base = issue_view(issues@);
    let mut i: usize = 0;
    while i < doc.variables.len()
        invariant
            i <= doc.variables@.len(),
            issue_view(issues@) == base + variables_issues(doc.variables@.take(i as int), *scope),
        decreases doc.variables@.len() - i,
    {
        proof {
            assert(doc.variables@.take(i + 1).drop_last() =~= doc.variables@.take(i as int));
            assert(doc.variables@.take(i + 1).last() == doc.variables@[i as int]);
        }
        let (name, definition) = &doc.variables[i];
        check_variable(name, definition, scope, issues);
        assert(issue_view(issues@) =~= base + variables_issues(doc.variables@.take(i + 1), *scope));
        i = i + 1;
    }
    proof {
        assert(doc.variables@.take(doc.variables@.len() as int) =~= doc.variables@);
        assert(issue_view(issues@) =~= before + structure_issues(*doc, *limits, document_bytes, *scope));
    }
}

fn plan_variables(vars: &Vec<(String, AutomationVariableDefinition)>) -> (r: Vec<(String, Option<AutomationValue>)>)
    ensures
        declares(r@, vars@),
{
    let mut r: Vec<(String, Option<AutomationValue>)> = Vec::new();
    let mut i: usize = 0;
    while i < vars.len()
        invariant
            i <= vars@.len(),
            r@.len() == i,
            forall|k: int| 0 <= k < i ==> #[trigger] r@[k].0@ == vars@[k].0@ && r@[k].1 == vars@[k].1.initial,
        decreases vars@.len() - i,
    {
        let initial = match &vars[i].1.initial {
            Some(v) => Some(copy_value(v)),
            None => None,
        };
        let ghost before = r@;
        r.push((vars[i].0.clone(), initial));
        assert(r@[i as int].0@ == vars@[i as int].0@ && r@[i as int].1 == vars@[i as int].1.initial);
        assert(forall|k: int| 0 <= k < i ==> r@[k] == before[k]);
        i = i + 1;
    }
    r
}

impl AutomationCompiler {
    /// The scope a document is compiled in: its variables' types, the
    /// snapshot's devices, its nesting and width budget, and the engine's
    /// timer and retry limits.
    pub fn scope(document: &AutomationDocument, devices: Vec<SnapshotDevice>, limits: &AutomationEngineLimits) -> (scope:
        ActionScope)
        ensures
            scope_for(*document, devices@, *limits, scope),
    {
        let mut variables: Vec<(String, AutomationValueType)> = Vec::new();
        let mut i: usize = 0;
        while i < document.variables.len()
            invariant
                i <= document.variables@.len(),
                variables@.len() == i,
                forall|k: int|
                    #![trigger variables@[k]]
                    0 <= k < i ==> variables@[k].0@ == document.variables@[k].0@ && variables@[k].1
                        == document.variables@[k].1.value_type,
            decreases document.variables@.len() - i,
        {
            let ghost before = variables@;
            variables.push((document.variables[i].0.clone(), document.variables[i].1.value_type));
            assert(variables@[i as int].0@ == document.variables@[i as int].0@);
            assert(variables@[i as int].1 == document.variables@[i as int].1.value_type);
            assert(forall|k: int| 0 <= k < i ==> variables@[k] == before[k]);
            i = i + 1;
        }
        ActionScope {
            conditions: ConditionScope {
                variables,
                devices,
                maximum_nesting_depth: document.budget.maximum_nesting_depth,
                maximum_timer_ms: limits.maximum_timer_ms,
            },
            maximum_retries: limits.maximum_retries,
            maximum_parallel_width: document.budget.maximum_parallel_width,
        }
    }

    /// Validates and compiles a document in its scope. Every independently
    /// discoverable finding is returned, in discovery order, and no partial
    /// plan; `document_bytes` is the size of the serialized document and the
    /// plan records `event_cursor` (or 0) as its registry revision.
    pub fn compile(
        document: &AutomationDocument,
        scope: &ActionScope,
        limits: &AutomationEngineLimits,
        document_bytes: usize,
        event_cursor: Option<u64>,
    ) -> (r: Result<AutomationExecutionPlan, AutomationCompilationError>)
        requires
            scope_for(*document, scope.conditions.devices@, *limits, *scope),
        ensures
            ({
                let issues = compilation_issues(*document, *limits, document_bytes, *scope);
                let registry_revision = match event_cursor {
                    Some(c) => c,
                    None => 0,
                };
                if issues.len() > 0 {
                    r matches Err(e) && reports_all(e.findings@, issues)
                } else if lowered_document(*document, *limits, document_bytes, *scope).0 is None {
                    r matches Err(e) && reports_all(e.findings@, seq![(CompileIssue::EntryMissing, "/actions"@)])
                } else {
                    r matches Ok(plan) && compiled_plan(plan, *document, registry_revision, *limits, document_bytes, *scope)
                }
            }),
            r matches Ok(plan) ==> (plan.nodes@.len() < u32::MAX ==> plan_is_closed(plan)),
    {
        let mut issues: Vec<(CompileIssue, String)> = Vec::new();
        validate_structure(document, limits, document_bytes, &scope.conditions, &mut issues);
        let triggers = compile_triggers(&document.triggers, &scope.conditions, &mut issues);
        let condition = match &document.condition {
            Some(c) => compile_condition(c, &scope.conditions, "/condition", 1, &mut issues),
            None => None,
        };
        let mut st = ActionLowering {
            nodes: Vec::new(),
            issues,
            profiles: Vec::new(),
            requirements: Vec::new(),
            planned: Ghost(Seq::empty()),
        };
        assert(issue_view(st.issues@) =~= issues_before_actions(*document, *limits, document_bytes, *scope));
        let complete = push_node(&mut st, AutomationPlanNodeKind::Complete, Ghost(PlannedNode::Complete), scope);
        assert(st.model() =~= (LoweringModel {
            planned: seq![PlannedNode::Complete],
            issues: issues_before_actions(*document, *limits, document_bytes, *scope),
            profiles: Seq::empty(),
            requirements: Seq::empty(),
        }));
        let entry = compile_actions(&document.actions, Some(complete), "/actions", 1, scope, &mut st);
        let ghost lowered = st.model();
        assert((entry, lowered) == lowered_document(*document, *limits, document_bytes, *scope));
        if st.nodes.len() > document.budget.maximum_nodes as usize {
            note(&mut st, CompileIssue::NodeBudgetExceeded, String::from_str("/budget/maximum_nodes"));
        }
        assert(issue_view(st.issues@) =~= compilation_issues(*document, *limits, document_bytes, *scope));
        if st.issues.len() > 0 {
            return Err(AutomationCompilationError { findings: findings_of(&st.issues) });
        }
        let entry = match entry {
            Some(e) => e,
            None => {
                let mut findings = Vec::new();
                findings.push(finding_for(CompileIssue::EntryMissing, "/actions"));
                return Err(AutomationCompilationError { findings });
            },
        };
        let approval = approval_for(&st.profiles);
        let ActionLowering { nodes, issues: _, profiles, requirements, planned: _ } = st;
        let mut requirements = requirements;
        match approval {
            AutomationApprovalRequirement::ExplicitUserApproval => {
                requirements.push(AutomationSafetyRequirement::ExplicitApproval);
            },
            _ => {},
        }
        let registry_revision = match event_cursor {
            Some(c) => c,
            None => 0,
        };
        let variables = plan_variables(&document.variables);
        let ghost explicit = exists|i: int| 0 <= i < lowered.profiles.len() && profile_needs_approval(#[trigger] lowered.profiles[i]);
        assert(profiles@ == lowered.profiles);
        assert(requirements@ == (if explicit {
            lowered.requirements.push(AutomationSafetyRequirement::ExplicitApproval)
        } else {
            lowered.requirements
        }));
        assert(nodes@.len() == lowered.planned.len());
        proof {
            if nodes@.len() < u32::MAX {
                lemma_plan_closed(*document, *limits, document_bytes, *scope, nodes@, entry);
            }
        }
        Ok(
            AutomationExecutionPlan {
                automation_id: document.id,
                registry_revision,
                entry,
                nodes,
                triggers,
                condition,
                variables,
                run_mode: document.run_mode,
                self_trigger: document.self_trigger,
                automation_version: document.version,
                budget: AutomationExecutionBudget {
                    maximum_trace_steps: document.budget.maximum_trace_steps,
                    maximum_run_duration_ms: document.budget.maximum_run_duration_ms,
                },
                safety_profiles: profiles,
                safety_requirements: requirements,
                approval,
            },
        )
    }
}

} // verus!
