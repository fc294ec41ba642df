//! Compilation of authored automation conditions and expressions into their
//! resolved form, with every path-addressed finding in discovery order.

use vstd::prelude::*;

use crate::authentication::{decimal_chars, push_decimal};
use crate::automation_compiler::{
    canonical_decimal, canonical_decimal_text, known_timezone, local_time_parses, observation_field_type,
    observation_field_type_spec, time_window_is_valid, timer_in_range, AutomationTargetReference,
    AutomationValidationCode, AutomationValidationError, AutomationValueType,
};
use crate::automation_evaluator::{
    copy_value, AutomationComparison, AutomationValue, ResolvedAutomationCondition, ResolvedAutomationExpression,
};
use crate::ports::str_eq;
use crate::target_resolution::{
    failure_pointer_suffix, resolution_error, resolve_target, resolves_to, SnapshotDevice, TargetResolutionError,
};

verus! {

/// An authored expression.
#[derive(Clone, Debug)]
pub enum AutomationExpression {
    Literal { value: AutomationValue },
    /// A declared variable.
    Variable { name: String },
    /// A field of the observed capability on the targets.
    Observation { target: AutomationTargetReference, field: String },
}

/// An authored condition.
#[derive(Debug)]
pub enum AutomationCondition {
    Literal { value: bool },
    Compare { left: AutomationExpression, operator: AutomationComparison, right: AutomationExpression },
    All { conditions: Vec<AutomationCondition> },
    Any { conditions: Vec<AutomationCondition> },
    Not { condition: Box<AutomationCondition> },
    TimeWindow { timezone: String, start: String, end: String },
    StateDuration { condition: Box<AutomationCondition>, duration_ms: u64 },
}

/// What conditions are compiled against: the declared variable types, the
/// device snapshot, and the document's bounds.
#[derive(Debug)]
pub struct ConditionScope {
    pub variables: Vec<(String, AutomationValueType)>,
    pub devices: Vec<SnapshotDevice>,
    pub maximum_nesting_depth: u16,
    /// Longest supported timer in milliseconds.
    pub maximum_timer_ms: u64,
}

/// One problem found while compiling a condition.
#[derive(Clone, Copy, Debug, PartialEq, Eq, Structural)]
pub enum CompileIssue {
    NestingTooDeep,
    OperandTypesDiffer,
    OperatorUndefined,
    ConditionListEmpty,
    TimeWindowInvalid,
    DurationOutOfRange,
    DecimalNotCanonical,
    VariableUndeclared,
    FieldUndefined,
    Target(TargetResolutionError),
    EventNameMissing,
    StatesMissing,
    ScheduleInvalid,
    OccurrenceWindowOutOfRange,
    ActionNestingTooDeep,
    PayloadSchemaMismatch,
    RetriesExceeded,
    BackoffTooLong,
    AssignedVariableUndeclared,
    AssignedTypeMismatch,
    LiteralBranch,
    BranchesMissing,
    ParallelWidthExceeded,
    BranchEmpty,
    FallbackEmpty,
    CalibrationUnavailable,
    DocumentTooLarge,
    NameMissing,
    SourceRequestMissing,
    RationaleMissing,
    TriggersMissing,
    ActionsMissing,
    BudgetInvalid,
    QueueCapacityExceeded,
    RunParallelismExceeded,
    VariableNameMissing,
    InitialValueMismatch,
    NodeBudgetExceeded,
    EntryMissing,
}

/// The finding code of an issue.
pub open spec fn issue_code(issue: CompileIssue) -> AutomationValidationCode {
    match issue {
        CompileIssue::NestingTooDeep => AutomationValidationCode::ResourceBoundExceeded,
        CompileIssue::OperandTypesDiffer => AutomationValidationCode::TypeMismatch,
        CompileIssue::OperatorUndefined => AutomationValidationCode::TypeMismatch,
        CompileIssue::ConditionListEmpty => AutomationValidationCode::RequiredValueMissing,
        CompileIssue::TimeWindowInvalid => AutomationValidationCode::InvalidSchedule,
        CompileIssue::DurationOutOfRange => AutomationValidationCode::ResourceBoundExceeded,
        CompileIssue::DecimalNotCanonical => AutomationValidationCode::InvalidDecimal,
        CompileIssue::VariableUndeclared => AutomationValidationCode::TypeMismatch,
        CompileIssue::FieldUndefined => AutomationValidationCode::CapabilityIncompatible,
        CompileIssue::EventNameMissing | CompileIssue::StatesMissing => AutomationValidationCode::RequiredValueMissing,
        CompileIssue::ScheduleInvalid => AutomationValidationCode::InvalidSchedule,
        CompileIssue::OccurrenceWindowOutOfRange => AutomationValidationCode::ResourceBoundExceeded,
        CompileIssue::ActionNestingTooDeep | CompileIssue::RetriesExceeded | CompileIssue::BackoffTooLong
        | CompileIssue::ParallelWidthExceeded => AutomationValidationCode::ResourceBoundExceeded,
        CompileIssue::PayloadSchemaMismatch => AutomationValidationCode::CapabilityIncompatible,
        CompileIssue::AssignedVariableUndeclared | CompileIssue::AssignedTypeMismatch => AutomationValidationCode::TypeMismatch,
        CompileIssue::LiteralBranch => AutomationValidationCode::ImpossibleBranch,
        CompileIssue::BranchesMissing | CompileIssue::BranchEmpty | CompileIssue::FallbackEmpty => AutomationValidationCode::RequiredValueMissing,
        CompileIssue::CalibrationUnavailable => AutomationValidationCode::SafetyConstraintUnavailable,
        CompileIssue::DocumentTooLarge => AutomationValidationCode::DocumentTooLarge,
        CompileIssue::NameMissing | CompileIssue::SourceRequestMissing | CompileIssue::RationaleMissing
        | CompileIssue::TriggersMissing | CompileIssue::ActionsMissing | CompileIssue::VariableNameMissing
        | CompileIssue::EntryMissing => AutomationValidationCode::RequiredValueMissing,
        CompileIssue::BudgetInvalid | CompileIssue::QueueCapacityExceeded | CompileIssue::RunParallelismExceeded
        | CompileIssue::NodeBudgetExceeded => AutomationValidationCode::ResourceBoundExceeded,
        CompileIssue::InitialValueMismatch => AutomationValidationCode::TypeMismatch,
        CompileIssue::Target(e) => match e {
            TargetResolutionError::ReferenceMissing => AutomationValidationCode::ReferenceMissing,
            TargetResolutionError::AliasAmbiguous => AutomationValidationCode::ReferenceAmbiguous,
            TargetResolutionError::ReferenceStale => AutomationValidationCode::ReferenceStale,
            TargetResolutionError::CapabilityIncompatible => AutomationValidationCode::CapabilityIncompatible,
            TargetResolutionError::EndpointAmbiguous { .. } => AutomationValidationCode::ReferenceAmbiguous,
        },
    }
}

/// The human-readable reason of an issue.
pub open spec fn issue_reason(issue: CompileIssue) -> Seq<char> {
    match issue {
        CompileIssue::NestingTooDeep => "condition nesting exceeds the declared depth budget"@,
        CompileIssue::OperandTypesDiffer => "comparison operand types do not match"@,
        CompileIssue::OperatorUndefined => "selected operator is not defined for this value type"@,
        CompileIssue::ConditionListEmpty => "condition list must not be empty"@,
        CompileIssue::TimeWindowInvalid => "time window or timezone is invalid"@,
        CompileIssue::DurationOutOfRange => "duration is outside the supported timer range"@,
        CompileIssue::DecimalNotCanonical => "decimal is not canonical plain base-10 text"@,
        CompileIssue::VariableUndeclared => "referenced variable is not declared"@,
        CompileIssue::FieldUndefined => "field is not defined by the capability schema"@,
        CompileIssue::EventNameMissing => "event name must not be empty"@,
        CompileIssue::StatesMissing => "at least one state is required"@,
        CompileIssue::ScheduleInvalid => "five-field cron expression or IANA timezone is invalid"@,
        CompileIssue::OccurrenceWindowOutOfRange => "occurrence window is outside the supported timer range"@,
        CompileIssue::ActionNestingTooDeep => "action nesting exceeds the declared depth budget"@,
        CompileIssue::PayloadSchemaMismatch => "command payload schema does not match the target capability"@,
        CompileIssue::RetriesExceeded => "retry count exceeds the engine limit"@,
        CompileIssue::BackoffTooLong => "retry delay exceeds the engine timer limit"@,
        CompileIssue::AssignedVariableUndeclared => "assigned variable is not declared"@,
        CompileIssue::AssignedTypeMismatch => "assigned expression does not match the variable type"@,
        CompileIssue::LiteralBranch => "literal condition makes one branch unreachable"@,
        CompileIssue::BranchesMissing => "at least one branch is required"@,
        CompileIssue::ParallelWidthExceeded => "parallel width exceeds the branch count or declared budget"@,
        CompileIssue::BranchEmpty => "parallel branch must not be empty"@,
        CompileIssue::FallbackEmpty => "fallback actions must not be empty"@,
        CompileIssue::CalibrationUnavailable => "absolute position command requires a calibrated current position"@,
        CompileIssue::DocumentTooLarge => "serialized automation document exceeds the hard byte limit"@,
        CompileIssue::NameMissing => "automation name must not be empty"@,
        CompileIssue::SourceRequestMissing => "source request must not be empty"@,
        CompileIssue::RationaleMissing => "rationale must not be empty"@,
        CompileIssue::TriggersMissing => "at least one trigger is required"@,
        CompileIssue::ActionsMissing => "at least one action is required"@,
        CompileIssue::BudgetInvalid => "declared budget is zero or exceeds the engine limit"@,
        CompileIssue::QueueCapacityExceeded => "queue capacity exceeds its declared budget"@,
        CompileIssue::RunParallelismExceeded => "parallel run capacity exceeds its declared budget"@,
        CompileIssue::VariableNameMissing => "variable name must not be empty"@,
        CompileIssue::InitialValueMismatch => "initial value does not match the declared variable type"@,
        CompileIssue::NodeBudgetExceeded => "compiled plan exceeds the declared node budget"@,
        CompileIssue::EntryMissing => "automation has no compilable entry action"@,
        CompileIssue::Target(e) => match e {
            TargetResolutionError::ReferenceMissing => "device selector did not resolve"@,
            TargetResolutionError::AliasAmbiguous => "device alias resolves to more than one device"@,
            TargetResolutionError::ReferenceStale => "device selector includes a stale or removed device"@,
            TargetResolutionError::CapabilityIncompatible => "target endpoint does not expose the requested capability schema"@,
            TargetResolutionError::EndpointAmbiguous { .. } => "capability exists on multiple endpoints"@,
        },
    }
}

/// The suggested remediation of an issue, if any.
pub open spec fn issue_remediation(issue: CompileIssue) -> Option<Seq<char>> {
    match issue {
        CompileIssue::NestingTooDeep | CompileIssue::ConditionListEmpty | CompileIssue::DurationOutOfRange
        | CompileIssue::EventNameMissing | CompileIssue::StatesMissing | CompileIssue::OccurrenceWindowOutOfRange
        | CompileIssue::ActionNestingTooDeep | CompileIssue::RetriesExceeded | CompileIssue::BackoffTooLong
        | CompileIssue::BranchesMissing | CompileIssue::ParallelWidthExceeded | CompileIssue::BranchEmpty
        | CompileIssue::FallbackEmpty | CompileIssue::NameMissing | CompileIssue::SourceRequestMissing
        | CompileIssue::RationaleMissing | CompileIssue::TriggersMissing | CompileIssue::ActionsMissing
        | CompileIssue::QueueCapacityExceeded | CompileIssue::RunParallelismExceeded
        | CompileIssue::VariableNameMissing => None,
        CompileIssue::DocumentTooLarge => Some("Reduce document size"@),
        CompileIssue::BudgetInvalid => Some("Choose a positive value within the documented engine bound"@),
        CompileIssue::InitialValueMismatch => Some("Use matching declared scalar types"@),
        CompileIssue::NodeBudgetExceeded => Some("Increase maximum_nodes or simplify the automation"@),
        CompileIssue::EntryMissing => Some("Provide at least one valid action"@),
        CompileIssue::PayloadSchemaMismatch => Some("Choose a compatible capability, endpoint, field, or payload"@),
        CompileIssue::AssignedVariableUndeclared | CompileIssue::AssignedTypeMismatch => Some(
            "Use matching declared scalar types"@,
        ),
        CompileIssue::LiteralBranch => Some("Remove the unreachable branch or use a dynamic condition"@),
        CompileIssue::CalibrationUnavailable => Some("Calibrate the cover and refresh its position before validation"@),
        CompileIssue::ScheduleInvalid => Some("Use five-field cron syntax and an IANA timezone name"@),
        CompileIssue::OperandTypesDiffer | CompileIssue::OperatorUndefined | CompileIssue::VariableUndeclared => Some(
            "Use matching declared scalar types"@,
        ),
        CompileIssue::TimeWindowInvalid => Some("Use five-field cron syntax and an IANA timezone name"@),
        CompileIssue::DecimalNotCanonical => Some("Use forms such as 0, -2, or 12.5 without exponent or trailing zeros"@),
        CompileIssue::FieldUndefined => Some("Choose a compatible capability, endpoint, field, or payload"@),
        CompileIssue::Target(e) => match e {
            TargetResolutionError::ReferenceMissing => Some("Use an enrolled device ID, unique alias, or populated space"@),
            TargetResolutionError::AliasAmbiguous => Some("Use a unique alias or exact device ID"@),
            TargetResolutionError::ReferenceStale => Some("Restore device health or select an enrolled device"@),
            TargetResolutionError::CapabilityIncompatible => Some("Choose a compatible capability, endpoint, field, or payload"@),
            TargetResolutionError::EndpointAmbiguous { .. } => Some("Specify an exact endpoint_id"@),
        },
    }
}

/// The reference an issue names: the device with an ambiguous endpoint.
pub open spec fn issue_reference(issue: CompileIssue) -> Option<Seq<char>> {
    match issue {
        CompileIssue::Target(TargetResolutionError::EndpointAmbiguous { device_id }) => Some(decimal_chars(device_id as nat)),
        _ => None,
    }
}

/// Whether `f` reports `issue` at the JSON pointer `path`.
pub open spec fn reports(f: AutomationValidationError, issue: CompileIssue, path: Seq<char>) -> bool {
    &&& f.code == issue_code(issue)
    &&& f.path@ == path
    &&& f.reason@ == issue_reason(issue)
    &&& match (f.remediation, issue_remediation(issue)) {
        (None, None) => true,
        (Some(a), Some(b)) => a@ == b,
        _ => false,
    }
    &&& match (f.reference, issue_reference(issue)) {
        (None, None) => true,
        (Some(a), Some(b)) => a@ == b,
        _ => false,
    }
}

fn some_text(s: &str) -> (r: Option<String>)
    ensures
        r matches Some(t) && t@ == s@,
{
    Some(String::from_str(s))
}

/// The finding that reports `issue` at `path`.
pub fn finding_for(issue: CompileIssue, path: &str) -> (f: AutomationValidationError)
    ensures
        reports(f, issue, path@),
{
    let matching = "Use matching declared scalar types";
    let compatible = "Choose a compatible capability, endpoint, field, or payload";
    let (reason, remediation): (&str, Option<String>) = match issue {
        CompileIssue::NestingTooDeep => ("condition nesting exceeds the declared depth budget", None),
        CompileIssue::OperandTypesDiffer => ("comparison operand types do not match", some_text(matching)),
        CompileIssue::OperatorUndefined => ("selected operator is not defined for this value type", some_text(matching)),
        CompileIssue::ConditionListEmpty => ("condition list must not be empty", None),
        CompileIssue::TimeWindowInvalid => (
            "time window or timezone is invalid",
            some_text("Use five-field cron syntax and an IANA timezone name"),
        ),
        CompileIssue::DurationOutOfRange => ("duration is outside the supported timer range", None),
        CompileIssue::DecimalNotCanonical => (
            "decimal is not canonical plain base-10 text",
            some_text("Use forms such as 0, -2, or 12.5 without exponent or trailing zeros"),
        ),
        CompileIssue::VariableUndeclared => ("referenced variable is not declared", some_text(matching)),
        CompileIssue::FieldUndefined => ("field is not defined by the capability schema", some_text(compatible)),
        CompileIssue::EventNameMissing => ("event name must not be empty", None),
        CompileIssue::StatesMissing => ("at least one state is required", None),
        CompileIssue::ScheduleInvalid => (
            "five-field cron expression or IANA timezone is invalid",
            some_text("Use five-field cron syntax and an IANA timezone name"),
        ),
        CompileIssue::OccurrenceWindowOutOfRange => ("occurrence window is outside the supported timer range", None),
        CompileIssue::ActionNestingTooDeep => ("action nesting exceeds the declared depth budget", None),
        CompileIssue::PayloadSchemaMismatch => (
            "command payload schema does not match the target capability",
            some_text(compatible),
        ),
        CompileIssue::RetriesExceeded => ("retry count exceeds the engine limit", None),
        CompileIssue::BackoffTooLong => ("retry delay exceeds the engine timer limit", None),
        CompileIssue::AssignedVariableUndeclared => ("assigned variable is not declared", some_text(matching)),
        CompileIssue::AssignedTypeMismatch => ("assigned expression does not match the variable type", some_text(matching)),
        CompileIssue::LiteralBranch => (
            "literal condition makes one branch unreachable",
            some_text("Remove the unreachable branch or use a dynamic condition"),
        ),
        CompileIssue::BranchesMissing => ("at least one branch is required", None),
        CompileIssue::ParallelWidthExceeded => ("parallel width exceeds the branch count or declared budget", None),
        CompileIssue::BranchEmpty => ("parallel branch must not be empty", None),
        CompileIssue::FallbackEmpty => ("fallback actions must not be empty", None),
        CompileIssue::CalibrationUnavailable => (
            "absolute position command requires a calibrated current position",
            some_text("Calibrate the cover and refresh its position before validation"),
        ),
        CompileIssue::DocumentTooLarge => (
            "serialized automation document exceeds the hard byte limit",
            some_text("Reduce document size"),
        ),
        CompileIssue::NameMissing => ("automation name must not be empty", None),
        CompileIssue::SourceRequestMissing => ("source request must not be empty", None),
        CompileIssue::RationaleMissing => ("rationale must not be empty", None),
        CompileIssue::TriggersMissing => ("at least one trigger is required", None),
        CompileIssue::ActionsMissing => ("at least one action is required", None),
        CompileIssue::BudgetInvalid => (
            "declared budget is zero or exceeds the engine limit",
            some_text("Choose a positive value within the documented engine bound"),
        ),
        CompileIssue::QueueCapacityExceeded => ("queue capacity exceeds its declared budget", None),
        CompileIssue::RunParallelismExceeded => ("parallel run capacity exceeds its declared budget", None),
        CompileIssue::VariableNameMissing => ("variable name must not be empty", None),
        CompileIssue::InitialValueMismatch => (
            "initial value does not match the declared variable type",
            some_text(matching),
        ),
        CompileIssue::NodeBudgetExceeded => (
            "compiled plan exceeds the declared node budget",
            some_text("Increase maximum_nodes or simplify the automation"),
        ),
        CompileIssue::EntryMissing => (
            "automation has no compilable entry action",
            some_text("Provide at least one valid action"),
        ),
        CompileIssue::Target(e) => match e {
            TargetResolutionError::ReferenceMissing => (
                "device selector did not resolve",
                some_text("Use an enrolled device ID, unique alias, or populated space"),
            ),
            TargetResolutionError::AliasAmbiguous => (
                "device alias resolves to more than one device",
                some_text("Use a unique alias or exact device ID"),
            ),
            TargetResolutionError::ReferenceStale => (
                "device selector includes a stale or removed device",
                some_text("Restore device health or select an enrolled device"),
            ),
            TargetResolutionError::CapabilityIncompatible => (
                "target endpoint does not expose the requested capability schema",
                some_text(compatible),
            ),
            TargetResolutionError::EndpointAmbiguous { .. } => (
                "capability exists on multiple endpoints",
                some_text("Specify an exact endpoint_id"),
            ),
        },
    };
    let reference = match issue {
        CompileIssue::Target(TargetResolutionError::EndpointAmbiguous { device_id }) => {
            let mut text = String::new();
            push_decimal(&mut text, device_id);
            assert(text@ =~= decimal_chars(device_id as nat));
            Some(text)
        },
        _ => None,
    };
    AutomationValidationError {
        code: match issue {
            CompileIssue::NestingTooDeep => AutomationValidationCode::ResourceBoundExceeded,
            CompileIssue::OperandTypesDiffer => AutomationValidationCode::TypeMismatch,
            CompileIssue::OperatorUndefined => AutomationValidationCode::TypeMismatch,
            CompileIssue::ConditionListEmpty => AutomationValidationCode::RequiredValueMissing,
            CompileIssue::TimeWindowInvalid => AutomationValidationCode::InvalidSchedule,
            CompileIssue::DurationOutOfRange => AutomationValidationCode::ResourceBoundExceeded,
            CompileIssue::DecimalNotCanonical => AutomationValidationCode::InvalidDecimal,
            CompileIssue::VariableUndeclared => AutomationValidationCode::TypeMismatch,
            CompileIssue::FieldUndefined => AutomationValidationCode::CapabilityIncompatible,
            CompileIssue::EventNameMissing | CompileIssue::StatesMissing => AutomationValidationCode::RequiredValueMissing,
            CompileIssue::ScheduleInvalid => AutomationValidationCode::InvalidSchedule,
            CompileIssue::OccurrenceWindowOutOfRange => AutomationValidationCode::ResourceBoundExceeded,
            CompileIssue::ActionNestingTooDeep | CompileIssue::RetriesExceeded | CompileIssue::BackoffTooLong
            | CompileIssue::ParallelWidthExceeded => AutomationValidationCode::ResourceBoundExceeded,
            CompileIssue::PayloadSchemaMismatch => AutomationValidationCode::CapabilityIncompatible,
            CompileIssue::AssignedVariableUndeclared | CompileIssue::AssignedTypeMismatch => AutomationValidationCode::TypeMismatch,
            CompileIssue::LiteralBranch => AutomationValidationCode::ImpossibleBranch,
            CompileIssue::BranchesMissing | CompileIssue::BranchEmpty | CompileIssue::FallbackEmpty => AutomationValidationCode::RequiredValueMissing,
            CompileIssue::CalibrationUnavailable => AutomationValidationCode::SafetyConstraintUnavailable,
            CompileIssue::DocumentTooLarge => AutomationValidationCode::DocumentTooLarge,
            CompileIssue::NameMissing | CompileIssue::SourceRequestMissing | CompileIssue::RationaleMissing
            | CompileIssue::TriggersMissing | CompileIssue::ActionsMissing | CompileIssue::VariableNameMissing
            | CompileIssue::EntryMissing => AutomationValidationCode::RequiredValueMissing,
            CompileIssue::BudgetInvalid | CompileIssue::QueueCapacityExceeded | CompileIssue::RunParallelismExceeded
            | CompileIssue::NodeBudgetExceeded => AutomationValidationCode::ResourceBoundExceeded,
            CompileIssue::InitialValueMismatch => AutomationValidationCode::TypeMismatch,
            CompileIssue::Target(e) => e.code(),
        },
        path: String::from_str(path),
        reason: String::from_str(reason),
        remediation,
        reference,
    }
}

/// Issues with their JSON pointers, as texts.
pub open spec fn issue_view(s: Seq<(CompileIssue, String)>) -> Seq<(CompileIssue, Seq<char>)> {
    s.map_values(|p: (CompileIssue, String)| (p.0, p.1@))
}

pub(crate) fn record(issues: &mut Vec<(CompileIssue, String)>, issue: CompileIssue, path: String)
    ensures
        issue_view(final(issues)@) == issue_view(old(issues)@).push((issue, path@)),
{
    let ghost before = issues@;
    issues.push((issue, path));
    assert(issue_view(issues@) =~= issue_view(before).push((issue, path@)));
}

pub(crate) fn joined(path: &str, suffix: &str) -> (s: String)
    ensures
        s@ == path@ + suffix@,
{
    let mut s = String::from_str(path);
    s.append(suffix);
    s
}

/// The scalar type of a value.
pub open spec fn value_type_of(v: AutomationValue) -> AutomationValueType {
    match v {
        AutomationValue::Null => AutomationValueType::Null,
        AutomationValue::Boolean(_) => AutomationValueType::Boolean,
        AutomationValue::Integer(_) => AutomationValueType::Integer,
        AutomationValue::Decimal(_) => AutomationValueType::Decimal,
        AutomationValue::String(_) => AutomationValueType::String,
        AutomationValue::Timestamp(_) => AutomationValueType::Timestamp,
        AutomationValue::DurationMillis(_) => AutomationValueType::DurationMillis,
    }
}

/// The scalar type of a value.
pub fn value_type(v: &AutomationValue) -> (t: AutomationValueType)
    ensures
        t == value_type_of(*v),
{
    match v {
        AutomationValue::Null => AutomationValueType::Null,
        AutomationValue::Boolean(_) => AutomationValueType::Boolean,
        AutomationValue::Integer(_) => AutomationValueType::Integer,
        AutomationValue::Decimal(_) => AutomationValueType::Decimal,
        AutomationValue::String(_) => AutomationValueType::String,
        AutomationValue::Timestamp(_) => AutomationValueType::Timestamp,
        AutomationValue::DurationMillis(_) => AutomationValueType::DurationMillis,
    }
}

/// The declared type of a variable: its first declaration.
pub open spec fn variable_type(vars: Seq<(String, AutomationValueType)>, name: Seq<char>) -> Option<AutomationValueType>
    decreases vars.len(),
{
    if vars.len() == 0 {
        None
    } else if vars[0].0@ == name {
        Some(vars[0].1)
    } else {
        variable_type(vars.drop_first(), name)
    }
}

pub(crate) fn declared_type(vars: &Vec<(String, AutomationValueType)>, name: &str) -> (r: Option<AutomationValueType>)
    ensures
        r == variable_type(vars@, name@),
{
    let mut i: usize = 0;
    assert(vars@.skip(0) =~= vars@);
    while i < vars.len()
        invariant
            i <= vars@.len(),
            variable_type(vars@, name@) == variable_type(vars@.skip(i as int), name@),
        decreases vars@.len() - i,
    {
        assert(vars@.skip(i as int)[0] == vars@[i as int]);
        if str_eq(vars[i].0.as_str(), name) {
            return Some(vars[i].1);
        }
        assert(vars@.skip(i as int).drop_first() =~= vars@.skip(i + 1));
        i = i + 1;
    }
    None
}

/// Issues of a literal value: a decimal must be canonical and a duration must
/// be a supported timer.
pub open spec fn value_issues(v: AutomationValue, scope: ConditionScope, path: Seq<char>) -> Seq<(CompileIssue, Seq<char>)> {
    match v {
        AutomationValue::Decimal(d) => if canonical_decimal_text(d@) {
            Seq::empty()
        } else {
            seq![(CompileIssue::DecimalNotCanonical, path)]
        },
        AutomationValue::DurationMillis(ms) => if ms != 0 && ms <= scope.maximum_timer_ms {
            Seq::empty()
        } else {
            seq![(CompileIssue::DurationOutOfRange, path)]
        },
        _ => Seq::empty(),
    }
}

/// Issues of an expression, in discovery order.
pub open spec fn expression_issues(e: AutomationExpression, scope: ConditionScope, path: Seq<char>) -> Seq<
    (CompileIssue, Seq<char>),
> {
    match e {
        AutomationExpression::Literal { value } => value_issues(value, scope, path + "/value"@),
        AutomationExpression::Variable { name } => if variable_type(scope.variables@, name@) is Some {
            Seq::empty()
        } else {
            seq![(CompileIssue::VariableUndeclared, path)]
        },
        AutomationExpression::Observation { target, field } => {
            let field_issues = if observation_field_type_spec(target.capability@, field@) is Some {
                Seq::empty()
            } else {
                seq![(CompileIssue::FieldUndefined, path + "/field"@)]
            };
            let target_issues = match resolution_error(scope.devices@, target) {
                Some(err) => seq![(CompileIssue::Target(err), path + "/target"@ + failure_pointer_suffix(err))],
                None => Seq::empty(),
            };
            field_issues + target_issues
        },
    }
}

/// The type of a compilable expression; `None` when it does not compile.
pub open spec fn expression_type(e: AutomationExpression, scope: ConditionScope) -> Option<AutomationValueType> {
    match e {
        AutomationExpression::Literal { value } => Some(value_type_of(value)),
        AutomationExpression::Variable { name } => variable_type(scope.variables@, name@),
        AutomationExpression::Observation { target, field } => if resolution_error(scope.devices@, target) is None {
            observation_field_type_spec(target.capability@, field@)
        } else {
            None
        },
    }
}

/// Whether `r` is the compiled form of `e`.
pub open spec fn expression_compiles_to(e: AutomationExpression, r: ResolvedAutomationExpression, scope: ConditionScope) -> bool {
    match (e, r) {
        (AutomationExpression::Literal { value }, ResolvedAutomationExpression::Literal { value: v }) => v == value,
        (AutomationExpression::Variable { name }, ResolvedAutomationExpression::Variable { name: n }) => n@ == name@,
        (
            AutomationExpression::Observation { target, field },
            ResolvedAutomationExpression::Observation { targets, field: f },
        ) => f@ == field@ && resolves_to(scope.devices@, target, targets@),
        _ => false,
    }
}

/// Compiles one expression, recording its issues; the result carries the
/// expression's type.
pub fn compile_expression(
    e: &AutomationExpression,
    scope: &ConditionScope,
    path: &str,
    issues: &mut Vec<(CompileIssue, String)>,
) -> (r: Option<(ResolvedAutomationExpression, AutomationValueType)>)
    ensures
        issue_view(final(issues)@) == issue_view(old(issues)@) + expression_issues(*e, *scope, path@),
        match r {
            Some((x, t)) => expression_type(*e, *scope) == Some(t) && expression_compiles_to(*e, x, *scope),
            None => expression_type(*e, *scope) is None,
        },
{
    let ghost before = issue_view(issues@);
    match e {
        AutomationExpression::Literal { value } => {
            let at = joined(path, "/value");
            match value {
                AutomationValue::Decimal(d) => {
                    if !canonical_decimal(d.as_str()) {
                        record(issues, CompileIssue::DecimalNotCanonical, at);
                    }
                },
                AutomationValue::DurationMillis(ms) => {
                    if !timer_in_range(*ms, scope.maximum_timer_ms) {
                        record(issues, CompileIssue::DurationOutOfRange, at);
                    }
                },
                _ => {},
            }
            assert(issue_view(issues@) =~= before + expression_issues(*e, *scope, path@));
            Some((ResolvedAutomationExpression::Literal { value: copy_value(value) }, value_type(value)))
        },
        AutomationExpression::Variable { name } => match declared_type(&scope.variables, name.as_str()) {
            Some(t) => {
                assert(issue_view(issues@) =~= before + expression_issues(*e, *scope, path@));
                Some((ResolvedAutomationExpression::Variable { name: name.clone() }, t))
            },
            None => {
                record(issues, CompileIssue::VariableUndeclared, String::from_str(path));
                assert(issue_view(issues@) =~= before + expression_issues(*e, *scope, path@));
                None
            },
        },
        AutomationExpression::Observation { target, field } => {
            let field_type = observation_field_type(target.capability.as_str(), field.as_str());
            if field_type.is_none() {
                record(issues, CompileIssue::FieldUndefined, joined(path, "/field"));
            }
            let resolved = resolve_target(&scope.devices, target);
            match &resolved {
                Err(err) => {
                    let mut at = joined(path, "/target");
                    at.append(err.pointer_suffix());
                    record(issues, CompileIssue::Target(*err), at);
                },
                Ok(_) => {},
            }
            assert(issue_view(issues@) =~= before + expression_issues(*e, *scope, path@));
            match (resolved, field_type) {
                (Ok(targets), Some(t)) => Some(
                    (ResolvedAutomationExpression::Observation { targets, field: field.clone() }, t),
                ),
                _ => None,
            }
        },
    }
}

/// Whether the operator is defined for operands of type `t`: only equality
/// applies to null and boolean values.
pub open spec fn operator_defined(operator: AutomationComparison, t: AutomationValueType) -> bool {
    operator == AutomationComparison::Equal || operator == AutomationComparison::NotEqual || !(t
        == AutomationValueType::Null || t == AutomationValueType::Boolean)
}

/// Issues of a comparison whose operands have the given types.
pub open spec fn comparison_issues(
    left: Option<AutomationValueType>,
    right: Option<AutomationValueType>,
    operator: AutomationComparison,
    path: Seq<char>,
) -> Seq<(CompileIssue, Seq<char>)> {
    match (left, right) {
        (Some(l), Some(r)) => (if l != r {
            seq![(CompileIssue::OperandTypesDiffer, path)]
        } else {
            Seq::empty()
        }) + (if !operator_defined(operator, l) {
            seq![(CompileIssue::OperatorUndefined, path)]
        } else {
            Seq::empty()
        }),
        _ => Seq::empty(),
    }
}

/// Issues of a condition compiled at nesting `depth`, in discovery order.
pub open spec fn condition_issues(c: AutomationCondition, scope: ConditionScope, path: Seq<char>, depth: int) -> Seq<
    (CompileIssue, Seq<char>),
>
    decreases c,
{
    if depth > scope.maximum_nesting_depth {
        seq![(CompileIssue::NestingTooDeep, path)]
    } else {
        match c {
            AutomationCondition::Literal { .. } => Seq::empty(),
            AutomationCondition::Compare { left, operator, right } => expression_issues(left, scope, path + "/left"@)
                + expression_issues(right, scope, path + "/right"@) + comparison_issues(
                expression_type(left, scope),
                expression_type(right, scope),
                operator,
                path,
            ),
            AutomationCondition::All { conditions } => (if conditions@.len() == 0 {
                seq![(CompileIssue::ConditionListEmpty, path + "/conditions"@)]
            } else {
                Seq::empty()
            }) + member_issues(conditions@, scope, path, depth, 0),
            AutomationCondition::Any { conditions } => (if conditions@.len() == 0 {
                seq![(CompileIssue::ConditionListEmpty, path + "/conditions"@)]
            } else {
                Seq::empty()
            }) + member_issues(conditions@, scope, path, depth, 0),
            AutomationCondition::Not { condition } => condition_issues(*condition, scope, path + "/condition"@, depth + 1),
            AutomationCondition::TimeWindow { timezone, start, end } => if known_timezone(timezone@) && local_time_parses(
                start@,
            ) && local_time_parses(end@) {
                Seq::empty()
            } else {
                seq![(CompileIssue::TimeWindowInvalid, path)]
            },
            AutomationCondition::StateDuration { condition, duration_ms } => (if duration_ms != 0 && duration_ms
                <= scope.maximum_timer_ms {
                Seq::empty()
            } else {
                seq![(CompileIssue::DurationOutOfRange, path + "/duration_ms"@)]
            }) + condition_issues(*condition, scope, path + "/condition"@, depth + 1),
        }
    }
}

/// Issues of the members of a condition list from position `index` on.
pub open spec fn member_issues(cs: Seq<AutomationCondition>, scope: ConditionScope, path: Seq<char>, depth: int, index: nat) -> Seq<
    (CompileIssue, Seq<char>),
>
    decreases cs,
{
    if cs.len() == 0 {
        Seq::empty()
    } else {
        condition_issues(cs[0], scope, path + "/conditions/"@ + decimal_chars(index), depth + 1) + member_issues(
            cs.drop_first(),
            scope,
            path,
            depth,
            index + 1,
        )
    }
}

/// Whether a condition at nesting `depth` compiles.
pub open spec fn condition_compiles(c: AutomationCondition, scope: ConditionScope, depth: int) -> bool
    decreases c,
{
    if depth > scope.maximum_nesting_depth {
        false
    } else {
        match c {
            AutomationCondition::Literal { .. } => true,
            AutomationCondition::Compare { left, right, .. } => expression_type(left, scope) is Some && expression_type(
                right,
                scope,
            ) is Some,
            AutomationCondition::All { conditions } => members_compile(conditions@, scope, depth + 1),
            AutomationCondition::Any { conditions } => members_compile(conditions@, scope, depth + 1),
            AutomationCondition::Not { condition } => condition_compiles(*condition, scope, depth + 1),
            AutomationCondition::TimeWindow { .. } => true,
            AutomationCondition::StateDuration { condition, .. } => condition_compiles(*condition, scope, depth + 1),
        }
    }
}

/// Whether every condition of the list compiles at nesting `depth`.
pub open spec fn members_compile(cs: Seq<AutomationCondition>, scope: ConditionScope, depth: int) -> bool
    decreases cs,
{
    cs.len() == 0 || (condition_compiles(cs[0], scope, depth) && members_compile(cs.drop_first(), scope, depth))
}

/// Whether `r` is the compiled form of `c`.
pub open spec fn condition_compiles_to(c: AutomationCondition, r: ResolvedAutomationCondition, scope: ConditionScope) -> bool
    decreases c,
{
    match (c, r) {
        (AutomationCondition::Literal { value }, ResolvedAutomationCondition::Literal { value: v }) => v == value,
        (
            AutomationCondition::Compare { left, operator, right },
            ResolvedAutomationCondition::Compare { left: l, operator: o, right: x },
        ) => o == operator && expression_compiles_to(left, l, scope) && expression_compiles_to(right, x, scope),
        (AutomationCondition::All { conditions }, ResolvedAutomationCondition::All { conditions: rs }) => members_compile_to(
            conditions@,
            rs@,
            scope,
        ),
        (AutomationCondition::Any { conditions }, ResolvedAutomationCondition::Any { conditions: rs }) => members_compile_to(
            conditions@,
            rs@,
            scope,
        ),
        (AutomationCondition::Not { condition }, ResolvedAutomationCondition::Not { condition: x }) => condition_compiles_to(
            *condition,
            *x,
            scope,
        ),
        (
            AutomationCondition::TimeWindow { timezone, start, end },
            ResolvedAutomationCondition::TimeWindow { timezone: z, start: a, end: b },
        ) => z@ == timezone@ && a@ == start@ && b@ == end@,
        (
            AutomationCondition::StateDuration { condition, duration_ms },
            ResolvedAutomationCondition::StateDuration { condition: x, duration_ms: m },
        ) => m == duration_ms && condition_compiles_to(*condition, *x, scope),
        _ => false,
    }
}

/// Whether `rs` are the compiled forms of `cs`, position by position.
pub open spec fn members_compile_to(cs: Seq<AutomationCondition>, rs: Seq<ResolvedAutomationCondition>, scope: ConditionScope) -> bool
    decreases cs,
{
    if cs.len() == 0 {
        rs.len() == 0
    } else {
        rs.len() > 0 && condition_compiles_to(cs[0], rs[0], scope) && members_compile_to(cs.drop_first(), rs.drop_first(), scope)
    }
}

proof fn lemma_members_compile_to(cs: Seq<AutomationCondition>, rs: Seq<ResolvedAutomationCondition>, scope: ConditionScope)
    requires
        cs.len() == rs.len(),
        forall|j: int| 0 <= j < cs.len() ==> #[trigger] condition_compiles_to(cs[j], rs[j], scope),
    ensures
        members_compile_to(cs, rs, scope),
    decreases cs.len(),
{
    if cs.len() > 0 {
        assert(condition_compiles_to(cs[0], rs[0], scope));
        assert forall|j: int| 0 <= j < cs.drop_first().len() implies #[trigger] condition_compiles_to(
            cs.drop_first()[j],
            rs.drop_first()[j],
            scope,
        ) by {
            assert(condition_compiles_to(cs[j + 1], rs[j + 1], scope));
        }
        lemma_members_compile_to(cs.drop_first(), rs.drop_first(), scope);
    }
}

/// Compiles one condition at nesting `depth`, recording every issue in
/// discovery order; the condition compiles only within the nesting budget and
/// when every comparison operand and list member compiles.
pub fn compile_condition(
    c: &AutomationCondition,
    scope: &ConditionScope,
    path: &str,
    depth: u32,
    issues: &mut Vec<(CompileIssue, String)>,
) -> (r: Option<ResolvedAutomationCondition>)
    ensures
        issue_view(final(issues)@) == issue_view(old(issues)@) + condition_issues(*c, *scope, path@, depth as int),
        r is Some <==> condition_compiles(*c, *scope, depth as int),
        r matches Some(x) ==> condition_compiles_to(*c, x, *scope),
    decreases c,
{
    let ghost before = issue_view(issues@);
    if depth > scope.maximum_nesting_depth as u32 {
        record(issues, CompileIssue::NestingTooDeep, String::from_str(path));
        return None;
    }
    match c {
        AutomationCondition::Literal { value } => {
            assert(issue_view(issues@) =~= before + condition_issues(*c, *scope, path@, depth as int));
            Some(ResolvedAutomationCondition::Literal { value: *value })
        },
        AutomationCondition::Compare { left, operator, right } => {
            let left_path = joined(path, "/left");
            let l = compile_expression(left, scope, left_path.as_str(), issues);
            let right_path = joined(path, "/right");
            let x = compile_expression(right, scope, right_path.as_str(), issues);
            let ghost after_operands = issue_view(issues@);
            match (l, x) {
                (Some((l, lt)), Some((x, rt))) => {
                    if lt != rt {
                        record(issues, CompileIssue::OperandTypesDiffer, String::from_str(path));
                    }
                    let equality = match operator {
                        AutomationComparison::Equal | AutomationComparison::NotEqual => true,
                        _ => false,
                    };
                    let plain = match lt {
                        AutomationValueType::Null | AutomationValueType::Boolean => true,
                        _ => false,
                    };
                    if !equality && plain {
                        record(issues, CompileIssue::OperatorUndefined, String::from_str(path));
                    }
                    assert(issue_view(issues@) =~= before + condition_issues(*c, *scope, path@, depth as int));
                    Some(ResolvedAutomationCondition::Compare { left: l, operator: *operator, right: x })
                },
                _ => {
                    assert(issue_view(issues@) =~= before + condition_issues(*c, *scope, path@, depth as int));
                    None
                },
            }
        },
        AutomationCondition::All { conditions } => {
            let members = compile_members(c, conditions, scope, path, depth, issues);
            match members {
                Some(rs) => Some(ResolvedAutomationCondition::All { conditions: rs }),
                None => None,
            }
        },
        AutomationCondition::Any { conditions } => {
            let members = compile_members(c, conditions, scope, path, depth, issues);
            match members {
                Some(rs) => Some(ResolvedAutomationCondition::Any { conditions: rs }),
                None => None,
            }
        },
        AutomationCondition::Not { condition } => {
            let inner_path = joined(path, "/condition");
            let inner = compile_condition(condition, scope, inner_path.as_str(), depth + 1, issues);
            match inner {
                Some(x) => Some(ResolvedAutomationCondition::Not { condition: Box::new(x) }),
                None => None,
            }
        },
        AutomationCondition::TimeWindow { timezone, start, end } => {
            if !time_window_is_valid(timezone.as_str(), start.as_str(), end.as_str()) {
                record(issues, CompileIssue::TimeWindowInvalid, String::from_str(path));
            }
            assert(issue_view(issues@) =~= before + condition_issues(*c, *scope, path@, depth as int));
            Some(ResolvedAutomationCondition::TimeWindow { timezone: timezone.clone(), start: start.clone(), end: end.clone() })
        },
        AutomationCondition::StateDuration { condition, duration_ms } => {
            if !timer_in_range(*duration_ms, scope.maximum_timer_ms) {
                record(issues, CompileIssue::DurationOutOfRange, joined(path, "/duration_ms"));
            }
            let ghost after_timer = issue_view(issues@);
            let inner_path = joined(path, "/condition");
            let inner = compile_condition(condition, scope, inner_path.as_str(), depth + 1, issues);
            assert(issue_view(issues@) =~= before + condition_issues(*c, *scope, path@, depth as int));
            match inner {
                Some(x) => Some(ResolvedAutomationCondition::StateDuration { condition: Box::new(x), duration_ms: *duration_ms }),
                None => None,
            }
        },
    }
}

/// Compiles the members of the list condition `c`, recording their issues;
/// `Some` only when every member compiles.
fn compile_members(
    c: &AutomationCondition,
    conditions: &Vec<AutomationCondition>,
    scope: &ConditionScope,
    path: &str,
    depth: u32,
    issues: &mut Vec<(CompileIssue, String)>,
) -> (r: Option<Vec<ResolvedAutomationCondition>>)
    requires
        depth <= scope.maximum_nesting_depth,
        *c == (AutomationCondition::All { conditions: *conditions }) || *c == (AutomationCondition::Any {
            conditions: *conditions,
        }),
    ensures
        issue_view(final(issues)@) == issue_view(old(issues)@) + condition_issues(*c, *scope, path@, depth as int),
        r is Some <==> members_compile(conditions@, *scope, depth + 1),
        r matches Some(rs) ==> members_compile_to(conditions@, rs@, *scope),
    decreases c, 0nat,
{
    let ghost before = issue_view(issues@);
    let ghost cs = conditions@;
    if conditions.len() == 0 {
        record(issues, CompileIssue::ConditionListEmpty, joined(path, "/conditions"));
    }
    let ghost base = issue_view(issues@);
    let mut compiled: Vec<ResolvedAutomationCondition> = Vec::new();
    let mut ok = true;
    let mut i: usize = 0;
    assert(cs.skip(0) =~= cs);
    while i < conditions.len()
        invariant
            cs == conditions@,
            depth <= scope.maximum_nesting_depth,
            *c == (AutomationCondition::All { conditions: *conditions }) || *c == (AutomationCondition::Any {
                conditions: *conditions,
            }),
            i <= cs.len(),
            issue_view(issues@) + member_issues(cs.skip(i as int), *scope, path@, depth as int, i as nat) == base
                + member_issues(cs, *scope, path@, depth as int, 0),
            members_compile(cs, *scope, depth + 1) == (ok && members_compile(cs.skip(i as int), *scope, depth + 1)),
            ok ==> compiled@.len() == i,
            ok ==> forall|j: int| 0 <= j < i ==> #[trigger] condition_compiles_to(cs[j], compiled@[j], *scope),
        decreases cs.len() - i,
    {
        let ghost rest = cs.skip(i as int);
        assert(rest[0] == cs[i as int]);
        assert(rest.drop_first() =~= cs.skip(i + 1));
        let mut member_path = joined(path, "/conditions/");
        push_decimal(&mut member_path, i as u64);
        proof {
            match c {
                AutomationCondition::All { conditions: cc } => {
                    assert(decreases_to!(*c => *cc));
                    assert(decreases_to!(*cc => cc@));
                    assert(decreases_to!(cc@ => cc@[i as int]));
                },
                AutomationCondition::Any { conditions: cc } => {
                    assert(decreases_to!(*c => *cc));
                    assert(decreases_to!(*cc => cc@));
                    assert(decreases_to!(cc@ => cc@[i as int]));
                },
                _ => {},
            }
            assert(decreases_to!(*c => conditions@[i as int]));
        }
        let ghost prior = issue_view(issues@);
        let member = compile_condition(&conditions[i], scope, member_path.as_str(), depth + 1, issues);
        proof {
            assert(member_issues(rest, *scope, path@, depth as int, i as nat) == condition_issues(
                cs[i as int],
                *scope,
                member_path@,
                depth + 1,
            ) + member_issues(cs.skip(i + 1), *scope, path@, depth as int, (i + 1) as nat));
            assert(issue_view(issues@) + member_issues(cs.skip(i + 1), *scope, path@, depth as int, (i + 1) as nat)
                =~= prior + member_issues(rest, *scope, path@, depth as int, i as nat));
        }
        match member {
            Some(x) => {
                if ok {
                    compiled.push(x);
                }
            },
            None => {
                ok = false;
            },
        }
        i = i + 1;
    }
    proof {
        assert(cs.skip(cs.len() as int) =~= Seq::<AutomationCondition>::empty());
        assert(issue_view(issues@) =~= before + condition_issues(*c, *scope, path@, depth as int));
    }
    if ok {
        proof {
            lemma_members_compile_to(cs, compiled@, *scope);
        }
        Some(compiled)
    } else {
        None
    }
}

/// The findings that report the recorded issues, in order.
pub fn findings_of(issues: &Vec<(CompileIssue, String)>) -> (findings: Vec<AutomationValidationError>)
    ensures
        findings@.len() == issues@.len(),
        forall|k: int| 0 <= k < issues@.len() ==> reports(#[trigger] findings@[k], issues@[k].0, issues@[k].1@),
{
    let mut findings: Vec<AutomationValidationError> = Vec::new();
    let mut i: usize = 0;
    while i < issues.len()
        invariant
            i <= issues@.len(),
            findings@.len() == i,
            forall|k: int| 0 <= k < i ==> reports(#[trigger] findings@[k], issues@[k].0, issues@[k].1@),
        decreases issues@.len() - i,
    {
        findings.push(finding_for(issues[i].0, issues[i].1.as_str()));
        i = i + 1;
    }
    findings
}

/// Whether every issue is reported at `path` or below it.
pub open spec fn issues_within(issues: Seq<(CompileIssue, Seq<char>)>, path: Seq<char>) -> bool {
    forall|k: int| 0 <= k < issues.len() ==> path.is_prefix_of(#[trigger] issues[k].1)
}

proof fn lemma_within_concat(a: Seq<(CompileIssue, Seq<char>)>, b: Seq<(CompileIssue, Seq<char>)>, path: Seq<char>)
    requires
        issues_within(a, path),
        issues_within(b, path),
    ensures
        issues_within(a + b, path),
{
    assert forall|k: int| 0 <= k < (a + b).len() implies path.is_prefix_of(#[trigger] (a + b)[k].1) by {
        if k < a.len() {
            assert((a + b)[k] == a[k]);
        } else {
            assert((a + b)[k] == b[k - a.len()]);
        }
    }
}

proof fn lemma_within_widen(a: Seq<(CompileIssue, Seq<char>)>, path: Seq<char>, suffix: Seq<char>)
    requires
        issues_within(a, path + suffix),
    ensures
        issues_within(a, path),
{
    assert forall|k: int| 0 <= k < a.len() implies path.is_prefix_of(#[trigger] a[k].1) by {
        let q = a[k].1;
        assert((path + suffix).is_prefix_of(q));
        assert(q.take(path.len() as int) =~= (path + suffix).take(path.len() as int));
        assert((path + suffix).take(path.len() as int) =~= path);
    }
}

proof fn lemma_single_within(issue: CompileIssue, path: Seq<char>, suffix: Seq<char>)
    ensures
        issues_within(seq![(issue, path + suffix)], path),
{
    assert((path + suffix).take(path.len() as int) =~= path);
    assert(path.is_prefix_of(seq![(issue, path + suffix)][0].1));
}

proof fn lemma_expression_issues_within(e: AutomationExpression, scope: ConditionScope, path: Seq<char>)
    ensures
        issues_within(expression_issues(e, scope, path), path),
{
    lemma_single_within(CompileIssue::VariableUndeclared, path, Seq::empty());
    assert(path + Seq::<char>::empty() =~= path);
    match e {
        AutomationExpression::Literal { value } => {
            lemma_single_within(CompileIssue::DecimalNotCanonical, path, "/value"@);
            lemma_single_within(CompileIssue::DurationOutOfRange, path, "/value"@);
        },
        AutomationExpression::Variable { .. } => {},
        AutomationExpression::Observation { target, field } => {
            lemma_single_within(CompileIssue::FieldUndefined, path, "/field"@);
            match resolution_error(scope.devices@, target) {
                Some(err) => {
                    assert(path + "/target"@ + failure_pointer_suffix(err) =~= path + ("/target"@ + failure_pointer_suffix(err)));
                    lemma_single_within(CompileIssue::Target(err), path, "/target"@ + failure_pointer_suffix(err));
                },
                None => {},
            }
            let field_issues = if observation_field_type_spec(target.capability@, field@) is Some {
                Seq::<(CompileIssue, Seq<char>)>::empty()
            } else {
                seq![(CompileIssue::FieldUndefined, path + "/field"@)]
            };
            let target_issues = match resolution_error(scope.devices@, target) {
                Some(err) => seq![(CompileIssue::Target(err), path + "/target"@ + failure_pointer_suffix(err))],
                None => Seq::empty(),
            };
            lemma_within_concat(field_issues, target_issues, path);
        },
    }
}

/// Every issue of a condition is reported at the condition's JSON pointer or
/// below it.
pub proof fn lemma_condition_issues_within(c: AutomationCondition, scope: ConditionScope, path: Seq<char>, depth: int)
    ensures
        issues_within(condition_issues(c, scope, path, depth), path),
    decreases c,
{
    assert(path + Seq::<char>::empty() =~= path);
    lemma_single_within(CompileIssue::NestingTooDeep, path, Seq::empty());
    if depth <= scope.maximum_nesting_depth {
        match c {
            AutomationCondition::Literal { .. } => {},
            AutomationCondition::Compare { left, operator, right } => {
                lemma_expression_issues_within(left, scope, path + "/left"@);
                lemma_within_widen(expression_issues(left, scope, path + "/left"@), path, "/left"@);
                lemma_expression_issues_within(right, scope, path + "/right"@);
                lemma_within_widen(expression_issues(right, scope, path + "/right"@), path, "/right"@);
                lemma_single_within(CompileIssue::OperandTypesDiffer, path, Seq::empty());
                lemma_single_within(CompileIssue::OperatorUndefined, path, Seq::empty());
                let types = comparison_issues(expression_type(left, scope), expression_type(right, scope), operator, path);
                match (expression_type(left, scope), expression_type(right, scope)) {
                    (Some(l), Some(r)) => {
                        let a = if l != r {
                            seq![(CompileIssue::OperandTypesDiffer, path)]
                        } else {
                            Seq::<(CompileIssue, Seq<char>)>::empty()
                        };
                        let b = if !operator_defined(operator, l) {
                            seq![(CompileIssue::OperatorUndefined, path)]
                        } else {
                            Seq::<(CompileIssue, Seq<char>)>::empty()
                        };
                        lemma_within_concat(a, b, path);
                    },
                    _ => {},
                }
                lemma_within_concat(
                    expression_issues(left, scope, path + "/left"@),
                    expression_issues(right, scope, path + "/right"@),
                    path,
                );
                lemma_within_concat(
                    expression_issues(left, scope, path + "/left"@) + expression_issues(right, scope, path + "/right"@),
                    types,
                    path,
                );
            },
            AutomationCondition::All { conditions } => {
                lemma_member_issues_within(conditions@, scope, path, depth, 0);
                lemma_single_within(CompileIssue::ConditionListEmpty, path, "/conditions"@);
                let empty = if conditions@.len() == 0 {
                    seq![(CompileIssue::ConditionListEmpty, path + "/conditions"@)]
                } else {
                    Seq::<(CompileIssue, Seq<char>)>::empty()
                };
                lemma_within_concat(empty, member_issues(conditions@, scope, path, depth, 0), path);
            },
            AutomationCondition::Any { conditions } => {
                lemma_member_issues_within(conditions@, scope, path, depth, 0);
                lemma_single_within(CompileIssue::ConditionListEmpty, path, "/conditions"@);
                let empty = if conditions@.len() == 0 {
                    seq![(CompileIssue::ConditionListEmpty, path + "/conditions"@)]
                } else {
                    Seq::<(CompileIssue, Seq<char>)>::empty()
                };
                lemma_within_concat(empty, member_issues(conditions@, scope, path, depth, 0), path);
            },
            AutomationCondition::Not { condition } => {
                lemma_condition_issues_within(*condition, scope, path + "/condition"@, depth + 1);
                lemma_within_widen(condition_issues(*condition, scope, path + "/condition"@, depth + 1), path, "/condition"@);
            },
            AutomationCondition::TimeWindow { .. } => {
                lemma_single_within(CompileIssue::TimeWindowInvalid, path, Seq::empty());
            },
            AutomationCondition::StateDuration { condition, duration_ms } => {
                lemma_condition_issues_within(*condition, scope, path + "/condition"@, depth + 1);
                lemma_within_widen(condition_issues(*condition, scope, path + "/condition"@, depth + 1), path, "/condition"@);
                lemma_single_within(CompileIssue::DurationOutOfRange, path, "/duration_ms"@);
                let timer = if duration_ms != 0 && duration_ms <= scope.maximum_timer_ms {
                    Seq::<(CompileIssue, Seq<char>)>::empty()
                } else {
                    seq![(CompileIssue::DurationOutOfRange, path + "/duration_ms"@)]
                };
                lemma_within_concat(timer, condition_issues(*condition, scope, path + "/condition"@, depth + 1), path);
            },
        }
    }
}

proof fn lemma_member_issues_within(cs: Seq<AutomationCondition>, scope: ConditionScope, path: Seq<char>, depth: int, index: nat)
    ensures
        issues_within(member_issues(cs, scope, path, depth, index), path),
    decreases cs,
{
    if cs.len() > 0 {
        let member_path = path + "/conditions/"@ + decimal_chars(index);
        assert(member_path =~= path + ("/conditions/"@ + decimal_chars(index)));
        lemma_condition_issues_within(cs[0], scope, member_path, depth + 1);
        lemma_within_widen(condition_issues(cs[0], scope, member_path, depth + 1), path, "/conditions/"@ + decimal_chars(index));
        lemma_member_issues_within(cs.drop_first(), scope, path, depth, index + 1);
        lemma_within_concat(
            condition_issues(cs[0], scope, member_path, depth + 1),
            member_issues(cs.drop_first(), scope, path, depth, index + 1),
            path,
        );
    }
}

} // verus!
