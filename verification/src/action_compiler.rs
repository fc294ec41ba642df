//! Lowering of authored actions into the nodes of a normalized plan: each list
//! is reduced to its last desired state per target, then compiled from its last
//! action to its first so that every node only refers to nodes made before it.

use vstd::prelude::*;

use crate::authentication::{decimal_chars, push_decimal};
use crate::automation_compiler::{
    action_survives, classify_command, safety_profile_of, safety_requirements_of, targets_equal,
    AutomationSafetyProfile, AutomationSafetyRequirement, AutomationTargetReference, CommandPayloadKind,
};
use crate::automation_runtime::{AutomationPlanFailurePolicy, AutomationRetryPolicy, CommandErrorCode};
use crate::condition_compiler::{
    compile_condition, compile_expression, declared_type, condition_compiles, condition_compiles_to, condition_issues,
    expression_compiles_to, expression_issues, expression_type, issue_view, joined, record, variable_type,
    AutomationCondition, AutomationExpression, CompileIssue, ConditionScope,
};
use crate::ports::str_eq;
use crate::simulation_run::{AutomationPlanNode, AutomationPlanNodeKind};
use crate::target_resolution::{device_selected, resolution_error, resolves_to, selects, SnapshotDevice};
use crate::trigger_compiler::{target_issues, trigger_target};

verus! {

/// What a step does when it fails or times out.
#[derive(Debug)]
pub enum AutomationFailurePolicy {
    StopRun,
    StopBranch,
    Continue,
    /// Run these actions, then continue after the failed action.
    Fallback { actions: Vec<AutomationAction> },
}

/// One authored action.
#[derive(Debug)]
pub enum AutomationAction {
    Command {
        target: AutomationTargetReference,
        payload: CommandPayloadKind,
        retry: AutomationRetryPolicy,
        on_failure: AutomationFailurePolicy,
    },
    Delay { duration_ms: u64 },
    Wait { condition: AutomationCondition, timeout_ms: u64, on_timeout: AutomationFailurePolicy },
    SetVariable { name: String, value: AutomationExpression },
    Sequence { actions: Vec<AutomationAction> },
    If { condition: AutomationCondition, then_actions: Vec<AutomationAction>, else_actions: Vec<AutomationAction> },
    Parallel { branches: Vec<Vec<AutomationAction>>, maximum_parallel: u16 },
    Race { branches: Vec<Vec<AutomationAction>>, maximum_parallel: u16 },
}

/// What actions are compiled against: the condition scope and the engine's and
/// document's bounds on retries and parallel width.
#[derive(Debug)]
pub struct ActionScope {
    pub conditions: ConditionScope,
    /// The engine's largest retry count.
    pub maximum_retries: u16,
    /// The document's largest parallel width.
    pub maximum_parallel_width: u16,
}

/// A node of the plan before its references are resolved: the authored parts
/// it is compiled from, and the ids of the nodes it continues with.
pub enum PlannedNode {
    Complete,
    Delay { duration_ms: u64, next: Option<u32> },
    Command {
        target: AutomationTargetReference,
        payload: CommandPayloadKind,
        retry: AutomationRetryPolicy,
        on_failure: AutomationPlanFailurePolicy,
        next: Option<u32>,
    },
    Wait { condition: AutomationCondition, timeout_ms: u64, on_timeout: AutomationPlanFailurePolicy, next: Option<u32> },
    SetVariable { name: String, value: AutomationExpression, next: Option<u32> },
    Branch { condition: AutomationCondition, then_node: Option<u32>, else_node: Option<u32>, join: Option<u32> },
    Parallel { branches: Seq<u32>, maximum_parallel: u16, join: Option<u32> },
    Race { branches: Seq<u32>, maximum_parallel: u16, join: Option<u32> },
    Join { next: Option<u32> },
}

/// Everything lowering has produced so far.
pub struct LoweringModel {
    pub planned: Seq<PlannedNode>,
    pub issues: Seq<(CompileIssue, Seq<char>)>,
    /// Safety profiles of the compiled commands, in compilation order.
    pub profiles: Seq<AutomationSafetyProfile>,
    pub requirements: Seq<AutomationSafetyRequirement>,
}

/// The id of the node made after `count` nodes.
pub open spec fn node_id_for(count: nat) -> u32 {
    if count < u32::MAX {
        count as u32
    } else {
        u32::MAX
    }
}

/// The id the next planned node gets.
pub open spec fn next_id(m: LoweringModel) -> u32 {
    node_id_for(m.planned.len())
}

/// The model with one more planned node.
pub open spec fn planned(m: LoweringModel, p: PlannedNode) -> LoweringModel {
    LoweringModel { planned: m.planned.push(p), ..m }
}

/// The model with one more issue when `found`.
pub open spec fn noted_if(m: LoweringModel, found: bool, issue: CompileIssue, path: Seq<char>) -> LoweringModel {
    if found {
        LoweringModel { issues: m.issues.push((issue, path)), ..m }
    } else {
        m
    }
}

/// The model with more issues.
pub open spec fn with_issues(m: LoweringModel, issues: Seq<(CompileIssue, Seq<char>)>) -> LoweringModel {
    LoweringModel { issues: m.issues + issues, ..m }
}

/// The capability schema a payload addresses.
pub open spec fn payload_schema(payload: CommandPayloadKind) -> Seq<char> {
    match payload {
        CommandPayloadKind::OnOffSet(_) | CommandPayloadKind::OnOffToggle => "on_off.v1"@,
        CommandPayloadKind::Level => "level.v1"@,
        CommandPayloadKind::PositionGoTo(_) | CommandPayloadKind::PositionMove => "position.v1"@,
        CommandPayloadKind::Lock | CommandPayloadKind::Unlock => "access_control.v1"@,
    }
}

/// Whether a timer duration is outside `1..=maximum`.
pub open spec fn timer_out_of_range(duration_ms: u64, maximum_ms: u64) -> bool {
    duration_ms == 0 || duration_ms > maximum_ms
}

/// Whether a selected device reports a current position on the target's
/// endpoint; a target without an endpoint id has no known position.
pub open spec fn position_calibrated(devices: Seq<SnapshotDevice>, target: AutomationTargetReference) -> bool {
    match target.endpoint_id {
        None => false,
        Some(endpoint) => exists|i: int, j: int|
            0 <= i < devices.len() && selects(target.device, devices[i]) && 0 <= j < devices[i].endpoints.len()
                && #[trigger] devices[i].endpoints@[j].endpoint_id@ == endpoint@ && devices[i].endpoints@[j].position_known,
    }
}

/// The model after classifying a command: its profile and requirements are
/// recorded, and an absolute position command needs a calibrated position.
pub open spec fn classified(
    m: LoweringModel,
    target: AutomationTargetReference,
    payload: CommandPayloadKind,
    path: Seq<char>,
    scope: ActionScope,
) -> LoweringModel {
    let profile = safety_profile_of(target.capability@, payload);
    let m1 = LoweringModel {
        profiles: m.profiles.push(profile),
        requirements: m.requirements + safety_requirements_of(target.capability@, payload),
        ..m
    };
    noted_if(
        m1,
        profile == AutomationSafetyProfile::ComfortMotion && payload is PositionGoTo && !position_calibrated(
            scope.conditions.devices@,
            target,
        ),
        CompileIssue::CalibrationUnavailable,
        path + "/payload"@,
    )
}

/// The target each command addresses; other actions bound reduction segments.
pub open spec fn command_target(a: AutomationAction) -> Option<AutomationTargetReference> {
    match a {
        AutomationAction::Command { target, .. } => Some(target),
        _ => None,
    }
}

/// The command targets of a list of actions.
pub open spec fn command_targets(actions: Seq<AutomationAction>) -> Seq<Option<AutomationTargetReference>> {
    actions.map_values(|a: AutomationAction| command_target(a))
}

/// How many of the first `i` actions survive reduction.
pub open spec fn survivors_before(actions: Seq<AutomationAction>, i: int) -> nat
    decreases i,
{
    if i <= 0 {
        0
    } else {
        survivors_before(actions, i - 1) + if action_survives(command_targets(actions), i - 1) {
            1nat
        } else {
            0nat
        }
    }
}

/// Lowers an action list at nesting `depth`, continuing with `next`: over the
/// depth budget nothing is lowered; otherwise the surviving actions are lowered.
pub open spec fn lower_actions(
    actions: Seq<AutomationAction>,
    next: Option<u32>,
    path: Seq<char>,
    depth: int,
    scope: ActionScope,
    m: LoweringModel,
) -> (Option<u32>, LoweringModel)
    decreases actions, actions.len() + 1,
{
    if depth > scope.conditions.maximum_nesting_depth {
        (next, noted_if(m, true, CompileIssue::ActionNestingTooDeep, path))
    } else {
        lower_list(actions, actions.len() as int, next, path, depth, scope, m)
    }
}

/// Lowers the first `count` actions from the last to the first, each
/// continuing with the node the one after it was lowered to; an action's path
/// is its position among the surviving actions.
pub open spec fn lower_list(
    actions: Seq<AutomationAction>,
    count: int,
    next: Option<u32>,
    path: Seq<char>,
    depth: int,
    scope: ActionScope,
    m: LoweringModel,
) -> (Option<u32>, LoweringModel)
    decreases actions, count,
{
    if count <= 0 || count > actions.len() {
        (next, m)
    } else if action_survives(command_targets(actions), count - 1) {
        let (n1, m1) = lower_action(
            actions[count - 1],
            next,
            path + "/"@ + decimal_chars(survivors_before(actions, count - 1)),
            depth,
            scope,
            m,
        );
        lower_list(actions, count - 1, n1, path, depth, scope, m1)
    } else {
        lower_list(actions, count - 1, next, path, depth, scope, m)
    }
}

/// Lowers a failure policy; a fallback's actions continue with `next`.
pub open spec fn lower_failure(
    policy: AutomationFailurePolicy,
    next: Option<u32>,
    path: Seq<char>,
    depth: int,
    scope: ActionScope,
    m: LoweringModel,
) -> (AutomationPlanFailurePolicy, LoweringModel)
    decreases policy, 0int,
{
    match policy {
        AutomationFailurePolicy::StopRun => (AutomationPlanFailurePolicy::StopRun, m),
        AutomationFailurePolicy::StopBranch => (AutomationPlanFailurePolicy::StopBranch, m),
        AutomationFailurePolicy::Continue => (AutomationPlanFailurePolicy::Continue, m),
        AutomationFailurePolicy::Fallback { actions } => {
            let m1 = noted_if(m, actions@.len() == 0, CompileIssue::FallbackEmpty, path + "/actions"@);
            let (entry, m2) = lower_actions(actions@, next, path + "/actions"@, depth, scope, m1);
            (AutomationPlanFailurePolicy::Fallback { entry }, m2)
        },
    }
}

/// Lowers one action continuing with `next`; `None` when it could not be
/// compiled.
pub open spec fn lower_action(
    a: AutomationAction,
    next: Option<u32>,
    path: Seq<char>,
    depth: int,
    scope: ActionScope,
    m: LoweringModel,
) -> (Option<u32>, LoweringModel)
    decreases a, 0int,
{
    let cs = scope.conditions;
    match a {
        AutomationAction::Command { target, payload, retry, on_failure } => {
            let m1 = noted_if(
                m,
                payload_schema(payload) != target.capability@,
                CompileIssue::PayloadSchemaMismatch,
                path + "/payload"@,
            );
            let m2 = noted_if(
                m1,
                retry.maximum_retries > scope.maximum_retries,
                CompileIssue::RetriesExceeded,
                path + "/retry/maximum_retries"@,
            );
            let m3 = noted_if(
                m2,
                retry.backoff_ms > cs.maximum_timer_ms,
                CompileIssue::BackoffTooLong,
                path + "/retry/backoff_ms"@,
            );
            let m4 = with_issues(m3, target_issues(cs, target, path + "/target"@));
            let (failure, m5) = lower_failure(on_failure, next, path + "/on_failure"@, depth + 1, scope, m4);
            if resolution_error(cs.devices@, target) is None {
                let m6 = classified(m5, target, payload, path, scope);
                (
                    Some(next_id(m6)),
                    planned(m6, PlannedNode::Command { target, payload, retry, on_failure: failure, next }),
                )
            } else {
                (None, m5)
            }
        },
        AutomationAction::Delay { duration_ms } => {
            let m1 = noted_if(
                m,
                timer_out_of_range(duration_ms, cs.maximum_timer_ms),
                CompileIssue::DurationOutOfRange,
                path + "/duration_ms"@,
            );
            (Some(next_id(m1)), planned(m1, PlannedNode::Delay { duration_ms, next }))
        },
        AutomationAction::Wait { condition, timeout_ms, on_timeout } => {
            let m1 = noted_if(
                m,
                timer_out_of_range(timeout_ms, cs.maximum_timer_ms),
                CompileIssue::DurationOutOfRange,
                path + "/timeout_ms"@,
            );
            let m2 = with_issues(m1, condition_issues(condition, cs, path + "/condition"@, depth + 1));
            let (policy, m3) = lower_failure(on_timeout, next, path + "/on_timeout"@, depth + 1, scope, m2);
            if condition_compiles(condition, cs, depth + 1) {
                (
                    Some(next_id(m3)),
                    planned(m3, PlannedNode::Wait { condition, timeout_ms, on_timeout: policy, next }),
                )
            } else {
                (None, m3)
            }
        },
        AutomationAction::SetVariable { name, value } => {
            let m1 = with_issues(m, expression_issues(value, cs, path + "/value"@));
            match variable_type(cs.variables@, name@) {
                None => (None, noted_if(m1, true, CompileIssue::AssignedVariableUndeclared, path + "/name"@)),
                Some(declared) => match expression_type(value, cs) {
                    Some(t) => {
                        let m2 = noted_if(m1, declared != t, CompileIssue::AssignedTypeMismatch, path + "/value"@);
                        (Some(next_id(m2)), planned(m2, PlannedNode::SetVariable { name, value, next }))
                    },
                    None => (None, m1),
                },
            }
        },
        AutomationAction::Sequence { actions } => lower_actions(actions@, next, path + "/actions"@, depth + 1, scope, m),
        AutomationAction::If { condition, then_actions, else_actions } => {
            let m1 = noted_if(m, condition is Literal, CompileIssue::LiteralBranch, path + "/condition"@);
            let join = next_id(m1);
            let m2 = planned(m1, PlannedNode::Join { next });
            let (then_node, m3) = lower_actions(then_actions@, Some(join), path + "/then_actions"@, depth + 1, scope, m2);
            let (else_node, m4) = lower_actions(else_actions@, Some(join), path + "/else_actions"@, depth + 1, scope, m3);
            let m5 = with_issues(m4, condition_issues(condition, cs, path + "/condition"@, depth + 1));
            if condition_compiles(condition, cs, depth + 1) {
                (
                    Some(next_id(m5)),
                    planned(m5, PlannedNode::Branch { condition, then_node, else_node, join: Some(join) }),
                )
            } else {
                (None, m5)
            }
        },
        AutomationAction::Parallel { branches, maximum_parallel } => lower_group(
            branches@,
            maximum_parallel,
            next,
            path,
            depth,
            false,
            scope,
            m,
        ),
        AutomationAction::Race { branches, maximum_parallel } => lower_group(
            branches@,
            maximum_parallel,
            next,
            path,
            depth,
            true,
            scope,
            m,
        ),
    }
}

/// Whether a group's declared width is unusable: wider than the document
/// allows, zero, or wider than its branches.
pub open spec fn width_exceeded(branch_count: nat, maximum_parallel: u16, allowed: u16) -> bool {
    branch_count > allowed || maximum_parallel == 0 || maximum_parallel > branch_count || maximum_parallel > allowed
}

/// Lowers a parallel group or a race: a join continuing with `next`, each
/// branch continuing with the join, and the group node.
pub open spec fn lower_group(
    branches: Seq<Vec<AutomationAction>>,
    maximum_parallel: u16,
    next: Option<u32>,
    path: Seq<char>,
    depth: int,
    race: bool,
    scope: ActionScope,
    m: LoweringModel,
) -> (Option<u32>, LoweringModel)
    decreases branches, branches.len() + 1,
{
    let m1 = noted_if(m, branches.len() == 0, CompileIssue::BranchesMissing, path + "/branches"@);
    let m2 = noted_if(
        m1,
        width_exceeded(branches.len(), maximum_parallel, scope.maximum_parallel_width),
        CompileIssue::ParallelWidthExceeded,
        path + "/maximum_parallel"@,
    );
    let join = next_id(m2);
    let m3 = planned(m2, PlannedNode::Join { next });
    let (entries, m4) = lower_branches(branches, 0, join, path, depth, scope, m3);
    let node = if race {
        PlannedNode::Race { branches: entries, maximum_parallel, join: Some(join) }
    } else {
        PlannedNode::Parallel { branches: entries, maximum_parallel, join: Some(join) }
    };
    (Some(next_id(m4)), planned(m4, node))
}

/// Lowers the branches from position `idx` on, each continuing with `join`;
/// the entries of the branches that compiled, in order.
pub open spec fn lower_branches(
    branches: Seq<Vec<AutomationAction>>,
    idx: int,
    join: u32,
    path: Seq<char>,
    depth: int,
    scope: ActionScope,
    m: LoweringModel,
) -> (Seq<u32>, LoweringModel)
    decreases branches, branches.len() - idx,
{
    if idx < 0 || idx >= branches.len() {
        (Seq::empty(), m)
    } else {
        let at = path + "/branches/"@ + decimal_chars(idx as nat);
        let m1 = noted_if(m, branches[idx]@.len() == 0, CompileIssue::BranchEmpty, at);
        let (entry, m2) = lower_actions(branches[idx]@, Some(join), at, depth + 1, scope, m1);
        let (rest, m3) = lower_branches(branches, idx + 1, join, path, depth, scope, m2);
        (
            match entry {
                Some(e) => seq![e] + rest,
                None => rest,
            },
            m3,
        )
    }
}

/// Retry policies with the same bounds and retryable errors.
pub open spec fn same_retry(a: AutomationRetryPolicy, b: AutomationRetryPolicy) -> bool {
    &&& a.maximum_retries == b.maximum_retries
    &&& a.backoff_ms == b.backoff_ms
    &&& a.retryable_command_errors@ == b.retryable_command_errors@
}

/// Whether `node` is the node `id` compiled from `p`: its authored parts
/// compiled to its resolved ones and its references are the planned ones.
pub open spec fn realized(node: AutomationPlanNode, id: u32, p: PlannedNode, scope: ActionScope) -> bool {
    &&& node.id == id
    &&& match p {
        PlannedNode::Complete => node.kind is Complete,
        PlannedNode::Delay { duration_ms, next } => match node.kind {
            AutomationPlanNodeKind::Delay { duration_ms: d, next: n } => d == duration_ms && n == next,
            _ => false,
        },
        PlannedNode::Command { target, payload, retry, on_failure, next } => match node.kind {
            AutomationPlanNodeKind::Command { targets, payload: q, retry: r, on_failure: f, next: n } => resolves_to(
                scope.conditions.devices@,
                target,
                targets@,
            ) && q == payload && same_retry(r, retry) && f == on_failure && n == next,
            _ => false,
        },
        PlannedNode::Wait { condition, timeout_ms, on_timeout, next } => match node.kind {
            AutomationPlanNodeKind::Wait { condition: c, timeout_ms: t, on_timeout: o, next: n } => condition_compiles_to(
                condition,
                c,
                scope.conditions,
            ) && t == timeout_ms && o == on_timeout && n == next,
            _ => false,
        },
        PlannedNode::SetVariable { name, value, next } => match node.kind {
            AutomationPlanNodeKind::SetVariable { name: x, value: v, next: n } => x@ == name@ && expression_compiles_to(
                value,
                v,
                scope.conditions,
            ) && n == next,
            _ => false,
        },
        PlannedNode::Branch { condition, then_node, else_node, join } => match node.kind {
            AutomationPlanNodeKind::Branch { condition: c, then_node: t, else_node: e, join: j } => condition_compiles_to(
                condition,
                c,
                scope.conditions,
            ) && t == then_node && e == else_node && j == join,
            _ => false,
        },
        PlannedNode::Parallel { branches, maximum_parallel, join } => match node.kind {
            AutomationPlanNodeKind::Parallel { branches: b, maximum_parallel: w, join: j } => b@ == branches && w
                == maximum_parallel && j == join,
            _ => false,
        },
        PlannedNode::Race { branches, maximum_parallel, join } => match node.kind {
            AutomationPlanNodeKind::Race { branches: b, maximum_parallel: w, join: j } => b@ == branches && w
                == maximum_parallel && j == join,
            _ => false,
        },
        PlannedNode::Join { next } => match node.kind {
            AutomationPlanNodeKind::Join { next: n } => n == next,
            _ => false,
        },
    }
}

/// The state of one lowering: the nodes made so far with the plan they
/// realize, and the issues, profiles and requirements recorded.
pub struct ActionLowering {
    pub nodes: Vec<AutomationPlanNode>,
    pub issues: Vec<(CompileIssue, String)>,
    pub profiles: Vec<AutomationSafetyProfile>,
    pub requirements: Vec<AutomationSafetyRequirement>,
    pub planned: Ghost<Seq<PlannedNode>>,
}

impl ActionLowering {
    /// The lowering state as mathematical values.
    pub open spec fn model(&self) -> LoweringModel {
        LoweringModel {
            planned: self.planned@,
            issues: issue_view(self.issues@),
            profiles: self.profiles@,
            requirements: self.requirements@,
        }
    }

    /// Whether node `i` is the `i`-th planned node, for every node.
    pub open spec fn realizes(&self, scope: ActionScope) -> bool {
        &&& self.nodes@.len() == self.planned@.len()
        &&& forall|i: int|
            0 <= i < self.nodes@.len() ==> #[trigger] realized(
                self.nodes@[i],
                node_id_for(i as nat),
                self.planned@[i],
                scope,
            )
    }

    /// A lowering that has produced nothing yet.
    pub fn new() -> (st: Self)
        ensures
            st.model() == (LoweringModel {
                planned: Seq::empty(),
                issues: Seq::empty(),
                profiles: Seq::empty(),
                requirements: Seq::empty(),
            }),
            st.nodes@.len() == 0,
    {
        let st = ActionLowering {
            nodes: Vec::new(),
            issues: Vec::new(),
            profiles: Vec::new(),
            requirements: Vec::new(),
            planned: Ghost(Seq::empty()),
        };
        assert(issue_view(st.issues@) =~= Seq::<(CompileIssue, Seq<char>)>::empty());
        st
    }
}

/// Records one issue.
pub(crate) fn note(st: &mut ActionLowering, issue: CompileIssue, path: String)
    ensures
        final(st).model() == noted_if(old(st).model(), true, issue, path@),
        final(st).nodes@ == old(st).nodes@,
{
    record(&mut st.issues, issue, path);
}

/// Makes the next node.
pub(crate) fn push_node(st: &mut ActionLowering, kind: AutomationPlanNodeKind, Ghost(p): Ghost<PlannedNode>, scope: &ActionScope) -> (id: u32)
    requires
        old(st).realizes(*scope),
        realized(
            AutomationPlanNode { id: node_id_for(old(st).nodes@.len()), kind },
            node_id_for(old(st).nodes@.len()),
            p,
            *scope,
        ),
    ensures
        id == next_id(old(st).model()),
        final(st).model() == planned(old(st).model(), p),
        final(st).realizes(*scope),
{
    let len = st.nodes.len();
    let id: u32 = if len < 0xffff_ffffusize {
        len as u32
    } else {
        0xffff_ffffu32
    };
    st.nodes.push(AutomationPlanNode { id, kind });
    proof {
        st.planned@ = st.planned@.push(p);
    }
    id
}

fn payload_schema_text(payload: CommandPayloadKind) -> (s: &'static str)
    ensures
        s@ == payload_schema(payload),
{
    match payload {
        CommandPayloadKind::OnOffSet(_) | CommandPayloadKind::OnOffToggle => "on_off.v1",
        CommandPayloadKind::Level => "level.v1",
        CommandPayloadKind::PositionGoTo(_) | CommandPayloadKind::PositionMove => "position.v1",
        CommandPayloadKind::Lock | CommandPayloadKind::Unlock => "access_control.v1",
    }
}

fn copy_retry(retry: &AutomationRetryPolicy) -> (r: AutomationRetryPolicy)
    ensures
        same_retry(r, *retry),
{
    let mut errors: Vec<CommandErrorCode> = Vec::new();
    let mut i: usize = 0;
    while i < retry.retryable_command_errors.len()
        invariant
            i <= retry.retryable_command_errors@.len(),
            errors@ == retry.retryable_command_errors@.take(i as int),
        decreases retry.retryable_command_errors@.len() - i,
    {
        errors.push(retry.retryable_command_errors[i]);
        assert(retry.retryable_command_errors@.take(i + 1) =~= retry.retryable_command_errors@.take(i as int).push(
            retry.retryable_command_errors@[i as int],
        ));
        i = i + 1;
    }
    assert(retry.retryable_command_errors@.take(retry.retryable_command_errors@.len() as int)
        =~= retry.retryable_command_errors@);
    AutomationRetryPolicy {
        maximum_retries: retry.maximum_retries,
        backoff_ms: retry.backoff_ms,
        retryable_command_errors: errors,
    }
}

fn position_is_calibrated(devices: &Vec<SnapshotDevice>, target: &AutomationTargetReference) -> (b: bool)
    ensures
        b == position_calibrated(devices@, *target),
{
    let endpoint = match &target.endpoint_id {
        None => {
            return false;
        },
        Some(e) => e,
    };
    let mut i: usize = 0;
    while i < devices.len()
        invariant
            i <= devices@.len(),
            target.endpoint_id == Some(*endpoint),
            forall|p: int, q: int|
                0 <= p < i && selects(target.device, devices@[p]) && 0 <= q < devices@[p].endpoints.len()
                    ==> !(#[trigger] devices@[p].endpoints@[q].endpoint_id@ == endpoint@
                    && devices@[p].endpoints@[q].position_known),
        decreases devices@.len() - i,
    {
        if device_selected(&target.device, &devices[i]) {
            let endpoints = &devices[i].endpoints;
            let mut j: usize = 0;
            while j < endpoints.len()
                invariant
                    i < devices@.len(),
                    *endpoints == devices@[i as int].endpoints,
                    selects(target.device, devices@[i as int]),
                    target.endpoint_id == Some(*endpoint),
                    forall|p: int, q: int|
                        0 <= p < i && selects(target.device, devices@[p]) && 0 <= q < devices@[p].endpoints.len()
                            ==> !(#[trigger] devices@[p].endpoints@[q].endpoint_id@ == endpoint@
                            && devices@[p].endpoints@[q].position_known),
                    j <= endpoints@.len(),
                    forall|q: int|
                        0 <= q < j ==> !(#[trigger] endpoints@[q].endpoint_id@ == endpoint@ && endpoints@[q].position_known),
                decreases endpoints@.len() - j,
            {
                if endpoints[j].position_known && str_eq(endpoints[j].endpoint_id.as_str(), endpoint.as_str()) {
                    assert(devices@[i as int].endpoints@[j as int].endpoint_id@ == endpoint@);
                    assert(selects(target.device, devices@[i as int]));
                    assert(devices@[i as int].endpoints@[j as int].position_known);
                    assert(position_calibrated(devices@, *target));
                    return true;
                }
                j = j + 1;
            }
        }
        i = i + 1;
    }
    false
}

/// Records the profile and requirements of one command, and the missing
/// calibration of an absolute position command.
fn classify(st: &mut ActionLowering, target: &AutomationTargetReference, payload: CommandPayloadKind, path: &str, scope: &ActionScope)
    ensures
        final(st).model() == classified(old(st).model(), *target, payload, path@, *scope),
        final(st).nodes@ == old(st).nodes@,
{
    let (profile, mut requirements) = classify_command(target.capability.as_str(), payload);
    st.profiles.push(profile);
    st.requirements.append(&mut requirements);
    let goto = match payload {
        CommandPayloadKind::PositionGoTo(_) => true,
        _ => false,
    };
    if profile == AutomationSafetyProfile::ComfortMotion && goto && !position_is_calibrated(
        &scope.conditions.devices,
        target,
    ) {
        note(st, CompileIssue::CalibrationUnavailable, joined(path, "/payload"));
    }
}

/// Whether action `i` survives reduction.
fn survives_at(actions: &Vec<AutomationAction>, i: usize) -> (b: bool)
    requires
        i < actions@.len(),
    ensures
        b == action_survives(command_targets(actions@), i as int),
{
    let ghost keys = command_targets(actions@);
    assert(keys.len() == actions@.len());
    let target = match &actions[i] {
        AutomationAction::Command { target, .. } => target,
        _ => {
            assert(keys[i as int] is None);
            return true;
        },
    };
    assert(keys[i as int] == Some(*target));
    let n = actions.len();
    let mut j: usize = i + 1;
    while j < n
        invariant
            n == actions@.len(),
            keys == command_targets(actions@),
            keys.len() == n,
            keys[i as int] == Some(*target),
            i < j <= n,
            forall|m: int| i < m < j ==> #[trigger] keys[m] is Some,
            forall|q: int| i < q < j ==> !same_target_key(keys[q], *target),
        decreases n - j,
    {
        match &actions[j] {
            AutomationAction::Command { target: later, .. } => {
                assert(keys[j as int] == Some(*later));
                if targets_equal(later, target) {
                    assert(same_target_key(keys[j as int], *target));
                    assert(forall|m: int| i < m <= j ==> #[trigger] keys[m] is Some);
                    return false;
                }
            },
            _ => {
                assert(keys[j as int] is None);
                assert forall|q: int| i < q < keys.len() && (forall|m: int| i < m <= q ==> #[trigger] keys[m] is Some) implies
                    !crate::automation_compiler::same_target(keys[q]->0, *target) by {
                    if q >= j {
                        assert(keys[j as int] is Some);
                    } else {
                        assert(!same_target_key(keys[q], *target));
                    }
                }
                return true;
            },
        }
        j = j + 1;
    }
    assert forall|q: int| i < q < keys.len() && (forall|m: int| i < m <= q ==> #[trigger] keys[m] is Some) implies
        !crate::automation_compiler::same_target(keys[q]->0, *target) by {
        assert(!same_target_key(keys[q], *target));
    }
    true
}

/// Whether a command target is `t`.
pub open spec fn same_target_key(key: Option<AutomationTargetReference>, t: AutomationTargetReference) -> bool {
    match key {
        Some(k) => crate::automation_compiler::same_target(k, t),
        None => false,
    }
}

/// The survival of every action and how many survive.
fn survival(actions: &Vec<AutomationAction>) -> (r: (Vec<bool>, usize))
    ensures
        r.0@.len() == actions@.len(),
        forall|k: int| 0 <= k < actions@.len() ==> #[trigger] r.0@[k] == action_survives(command_targets(actions@), k),
        r.1 == survivors_before(actions@, actions@.len() as int),
{
    let mut flags: Vec<bool> = Vec::new();
    let mut count: usize = 0;
    let mut i: usize = 0;
    while i < actions.len()
        invariant
            i <= actions@.len(),
            flags@.len() == i,
            forall|k: int| 0 <= k < i ==> #[trigger] flags@[k] == action_survives(command_targets(actions@), k),
            count == survivors_before(actions@, i as int),
            count <= i,
        decreases actions@.len() - i,
    {
        let b = survives_at(actions, i);
        flags.push(b);
        if b {
            count = count + 1;
        }
        i = i + 1;
    }
    (flags, count)
}

/// Compiles an action list at nesting `depth`, continuing with `next`; the
/// entry of the list, if it compiled.
pub(crate) fn compile_actions(
    actions: &Vec<AutomationAction>,
    next: Option<u32>,
    path: &str,
    depth: u32,
    scope: &ActionScope,
    st: &mut ActionLowering,
) -> (r: Option<u32>)
    requires
        old(st).realizes(*scope),
        depth <= 0x1_0000,
    ensures
        final(st).realizes(*scope),
        (r, final(st).model()) == lower_actions(actions@, next, path@, depth as int, *scope, old(st).model()),
    decreases actions@, actions@.len() + 1,
{
    if depth > scope.conditions.maximum_nesting_depth as u32 {
        note(st, CompileIssue::ActionNestingTooDeep, String::from_str(path));
        return next;
    }
    let (flags, count) = survival(actions);
    let ghost goal = lower_list(actions@, actions@.len() as int, next, path@, depth as int, *scope, st.model());
    let mut remaining: usize = count;
    let mut following = next;
    let mut i: usize = actions.len();
    while i > 0
        invariant
            i <= actions@.len(),
            flags@.len() == actions@.len(),
            forall|k: int| 0 <= k < actions@.len() ==> #[trigger] flags@[k] == action_survives(command_targets(actions@), k),
            remaining == survivors_before(actions@, i as int),
            depth <= scope.conditions.maximum_nesting_depth,
            st.realizes(*scope),
            lower_list(actions@, i as int, following, path@, depth as int, *scope, st.model()) == goal,
        decreases i,
    {
        i = i - 1;
        if flags[i] {
            remaining = remaining - 1;
            let mut at = joined(path, "/");
            push_decimal(&mut at, remaining as u64);
            proof {
                assert(decreases_to!(actions@ => actions@[i as int]));
            }
            following = compile_action(&actions[i], following, at.as_str(), depth, scope, st);
        }
    }
    following
}

/// Compiles a failure policy; a fallback continues with `next`.
fn compile_failure(
    policy: &AutomationFailurePolicy,
    next: Option<u32>,
    path: &str,
    depth: u32,
    scope: &ActionScope,
    st: &mut ActionLowering,
) -> (r: AutomationPlanFailurePolicy)
    requires
        old(st).realizes(*scope),
        depth <= 0x1_0000,
    ensures
        final(st).realizes(*scope),
        (r, final(st).model()) == lower_failure(*policy, next, path@, depth as int, *scope, old(st).model()),
    decreases *policy, 0int,
{
    match policy {
        AutomationFailurePolicy::StopRun => AutomationPlanFailurePolicy::StopRun,
        AutomationFailurePolicy::StopBranch => AutomationPlanFailurePolicy::StopBranch,
        AutomationFailurePolicy::Continue => AutomationPlanFailurePolicy::Continue,
        AutomationFailurePolicy::Fallback { actions } => {
            let at = joined(path, "/actions");
            if actions.len() == 0 {
                note(st, CompileIssue::FallbackEmpty, joined(path, "/actions"));
            }
            proof {
                assert(decreases_to!(*policy => *actions));
                assert(decreases_to!(*actions => actions@));
            }
            let entry = compile_actions(actions, next, at.as_str(), depth, scope, st);
            AutomationPlanFailurePolicy::Fallback { entry }
        },
    }
}

/// Compiles one action continuing with `next`.
fn compile_action(
    a: &AutomationAction,
    next: Option<u32>,
    path: &str,
    depth: u32,
    scope: &ActionScope,
    st: &mut ActionLowering,
) -> (r: Option<u32>)
    requires
        old(st).realizes(*scope),
        depth <= scope.conditions.maximum_nesting_depth,
    ensures
        final(st).realizes(*scope),
        (r, final(st).model()) == lower_action(*a, next, path@, depth as int, *scope, old(st).model()),
    decreases *a, 0int,
{
    match a {
        AutomationAction::Command { target, payload, retry, on_failure } => {
            if !str_eq(payload_schema_text(*payload), target.capability.as_str()) {
                note(st, CompileIssue::PayloadSchemaMismatch, joined(path, "/payload"));
            }
            if retry.maximum_retries > scope.maximum_retries {
                note(st, CompileIssue::RetriesExceeded, joined(path, "/retry/maximum_retries"));
            }
            if retry.backoff_ms > scope.conditions.maximum_timer_ms {
                note(st, CompileIssue::BackoffTooLong, joined(path, "/retry/backoff_ms"));
            }
            let at = joined(path, "/target");
            let ghost before = st.model();
            let targets = trigger_target(&scope.conditions, target, at.as_str(), &mut st.issues);
            assert(st.model() == with_issues(before, target_issues(scope.conditions, *target, at@)));
            let failure_path = joined(path, "/on_failure");
            proof {
                assert(decreases_to!(*a => *on_failure));
            }
            let failure = compile_failure(on_failure, next, failure_path.as_str(), depth + 1, scope, st);
            match targets {
                Some(ts) => {
                    classify(st, target, *payload, path, scope);
                    let id = push_node(
                        st,
                        AutomationPlanNodeKind::Command {
                            targets: ts,
                            payload: *payload,
                            retry: copy_retry(retry),
                            on_failure: failure,
                            next,
                        },
                        Ghost(PlannedNode::Command { target: *target, payload: *payload, retry: *retry, on_failure: failure, next }),
                        scope,
                    );
                    Some(id)
                },
                None => None,
            }
        },
        AutomationAction::Delay { duration_ms } => {
            if *duration_ms == 0 || *duration_ms > scope.conditions.maximum_timer_ms {
                note(st, CompileIssue::DurationOutOfRange, joined(path, "/duration_ms"));
            }
            let id = push_node(
                st,
                AutomationPlanNodeKind::Delay { duration_ms: *duration_ms, next },
                Ghost(PlannedNode::Delay { duration_ms: *duration_ms, next }),
                scope,
            );
            Some(id)
        },
        AutomationAction::Wait { condition, timeout_ms, on_timeout } => {
            if *timeout_ms == 0 || *timeout_ms > scope.conditions.maximum_timer_ms {
                note(st, CompileIssue::DurationOutOfRange, joined(path, "/timeout_ms"));
            }
            let at = joined(path, "/condition");
            let ghost before = st.model();
            let compiled = compile_condition(condition, &scope.conditions, at.as_str(), depth + 1, &mut st.issues);
            assert(st.model() == with_issues(before, condition_issues(*condition, scope.conditions, at@, depth + 1)));
            let timeout_path = joined(path, "/on_timeout");
            proof {
                assert(decreases_to!(*a => *on_timeout));
            }
            let policy = compile_failure(on_timeout, next, timeout_path.as_str(), depth + 1, scope, st);
            match compiled {
                Some(c) => {
                    let id = push_node(
                        st,
                        AutomationPlanNodeKind::Wait { condition: c, timeout_ms: *timeout_ms, on_timeout: policy, next },
                        Ghost(PlannedNode::Wait { condition: *condition, timeout_ms: *timeout_ms, on_timeout: policy, next }),
                        scope,
                    );
                    Some(id)
                },
                None => None,
            }
        },
        AutomationAction::SetVariable { name, value } => {
            let at = joined(path, "/value");
            let ghost before = st.model();
            let compiled = compile_expression(value, &scope.conditions, at.as_str(), &mut st.issues);
            assert(st.model() == with_issues(before, expression_issues(*value, scope.conditions, at@)));
            match declared_type(&scope.conditions.variables, name.as_str()) {
                None => {
                    note(st, CompileIssue::AssignedVariableUndeclared, joined(path, "/name"));
                    None
                },
                Some(declared) => match compiled {
                    Some((x, t)) => {
                        if declared != t {
                            note(st, CompileIssue::AssignedTypeMismatch, joined(path, "/value"));
                        }
                        let id = push_node(
                            st,
                            AutomationPlanNodeKind::SetVariable { name: name.clone(), value: x, next },
                            Ghost(PlannedNode::SetVariable { name: *name, value: *value, next }),
                            scope,
                        );
                        Some(id)
                    },
                    None => None,
                },
            }
        },
        AutomationAction::Sequence { actions } => {
            let at = joined(path, "/actions");
            proof {
                assert(decreases_to!(*a => *actions));
                assert(decreases_to!(*actions => actions@));
            }
            compile_actions(actions, next, at.as_str(), depth + 1, scope, st)
        },
        AutomationAction::If { condition, then_actions, else_actions } => {
            let literal = match condition {
                AutomationCondition::Literal { .. } => true,
                _ => false,
            };
            if literal {
                note(st, CompileIssue::LiteralBranch, joined(path, "/condition"));
            }
            let join = push_node(st, AutomationPlanNodeKind::Join { next }, Ghost(PlannedNode::Join { next }), scope);
            let then_path = joined(path, "/then_actions");
            proof {
                assert(decreases_to!(*a => *then_actions));
                assert(decreases_to!(*then_actions => then_actions@));
                assert(decreases_to!(*a => *else_actions));
                assert(decreases_to!(*else_actions => else_actions@));
            }
            let then_node = compile_actions(then_actions, Some(join), then_path.as_str(), depth + 1, scope, st);
            let else_path = joined(path, "/else_actions");
            let else_node = compile_actions(else_actions, Some(join), else_path.as_str(), depth + 1, scope, st);
            let at = joined(path, "/condition");
            let ghost before = st.model();
            let compiled = compile_condition(condition, &scope.conditions, at.as_str(), depth + 1, &mut st.issues);
            assert(st.model() == with_issues(before, condition_issues(*condition, scope.conditions, at@, depth + 1)));
            match compiled {
                Some(c) => {
                    let id = push_node(
                        st,
                        AutomationPlanNodeKind::Branch { condition: c, then_node, else_node, join: Some(join) },
                        Ghost(PlannedNode::Branch { condition: *condition, then_node, else_node, join: Some(join) }),
                        scope,
                    );
                    Some(id)
                },
                None => None,
            }
        },
        AutomationAction::Parallel { branches, maximum_parallel } => {
            proof {
                assert(decreases_to!(*a => *branches));
                assert(decreases_to!(*branches => branches@));
            }
            compile_group(branches, *maximum_parallel, next, path, depth, false, scope, st)
        },
        AutomationAction::Race { branches, maximum_parallel } => {
            proof {
                assert(decreases_to!(*a => *branches));
                assert(decreases_to!(*branches => branches@));
            }
            compile_group(branches, *maximum_parallel, next, path, depth, true, scope, st)
        },
    }
}

/// Compiles a parallel group or a race.
fn compile_group(
    branches: &Vec<Vec<AutomationAction>>,
    maximum_parallel: u16,
    next: Option<u32>,
    path: &str,
    depth: u32,
    race: bool,
    scope: &ActionScope,
    st: &mut ActionLowering,
) -> (r: Option<u32>)
    requires
        old(st).realizes(*scope),
        depth <= scope.conditions.maximum_nesting_depth,
    ensures
        final(st).realizes(*scope),
        (r, final(st).model()) == lower_group(
            branches@,
            maximum_parallel,
            next,
            path@,
            depth as int,
            race,
            *scope,
            old(st).model(),
        ),
    decreases branches@, branches@.len() + 1,
{
    let n = branches.len();
    if n == 0 {
        note(st, CompileIssue::BranchesMissing, joined(path, "/branches"));
    }
    let allowed = scope.maximum_parallel_width;
    if n > allowed as usize || maximum_parallel == 0 || maximum_parallel as usize > n || maximum_parallel > allowed {
        note(st, CompileIssue::ParallelWidthExceeded, joined(path, "/maximum_parallel"));
    }
    let join = push_node(st, AutomationPlanNodeKind::Join { next }, Ghost(PlannedNode::Join { next }), scope);
    let ghost goal = lower_branches(branches@, 0, join, path@, depth as int, *scope, st.model());
    let mut entries: Vec<u32> = Vec::new();
    let mut idx: usize = 0;
    while idx < n
        invariant
            n == branches@.len(),
            idx <= n,
            depth <= scope.conditions.maximum_nesting_depth,
            st.realizes(*scope),
            entries@ + lower_branches(branches@, idx as int, join, path@, depth as int, *scope, st.model()).0 == goal.0,
            lower_branches(branches@, idx as int, join, path@, depth as int, *scope, st.model()).1 == goal.1,
        decreases n - idx,
    {
        let mut at = joined(path, "/branches/");
        push_decimal(&mut at, idx as u64);
        if branches[idx].len() == 0 {
            let mut empty_at = joined(path, "/branches/");
            push_decimal(&mut empty_at, idx as u64);
            note(st, CompileIssue::BranchEmpty, empty_at);
        }
        proof {
            assert(decreases_to!(branches@ => branches@[idx as int]));
            assert(decreases_to!(branches@[idx as int] => branches@[idx as int]@));
        }
        let ghost prior = entries@;
        let entry = compile_actions(&branches[idx], Some(join), at.as_str(), depth + 1, scope, st);
        match entry {
            Some(e) => {
                entries.push(e);
            },
            None => {},
        }
        proof {
            assert(entries@ + lower_branches(branches@, idx + 1, join, path@, depth as int, *scope, st.model()).0 =~= goal.0);
        }
        idx = idx + 1;
    }
    let id = if race {
        push_node(
            st,
            AutomationPlanNodeKind::Race { branches: entries, maximum_parallel, join: Some(join) },
            Ghost(PlannedNode::Race { branches: goal.0, maximum_parallel, join: Some(join) }),
            scope,
        )
    } else {
        push_node(
            st,
            AutomationPlanNodeKind::Parallel { branches: entries, maximum_parallel, join: Some(join) },
            Ghost(PlannedNode::Parallel { branches: goal.0, maximum_parallel, join: Some(join) }),
            scope,
        )
    };
    Some(id)
}

/// Whether an optional reference names a node below `bound`.
pub open spec fn below(r: Option<u32>, bound: int) -> bool {
    match r {
        Some(x) => x < bound,
        None => true,
    }
}

/// Whether a failure policy's fallback names a node below `bound`.
pub open spec fn policy_below(p: AutomationPlanFailurePolicy, bound: int) -> bool {
    match p {
        AutomationPlanFailurePolicy::Fallback { entry } => below(entry, bound),
        _ => true,
    }
}

/// Whether every node a planned node continues with is below `bound`.
pub open spec fn refs_below(p: PlannedNode, bound: int) -> bool {
    match p {
        PlannedNode::Complete => true,
        PlannedNode::Delay { next, .. } | PlannedNode::SetVariable { next, .. } | PlannedNode::Join { next } => below(
            next,
            bound,
        ),
        PlannedNode::Command { on_failure, next, .. } => below(next, bound) && policy_below(on_failure, bound),
        PlannedNode::Wait { on_timeout, next, .. } => below(next, bound) && policy_below(on_timeout, bound),
        PlannedNode::Branch { then_node, else_node, join, .. } => below(then_node, bound) && below(else_node, bound)
            && below(join, bound),
        PlannedNode::Parallel { branches, join, .. } => below(join, bound) && forall|k: int|
            0 <= k < branches.len() ==> #[trigger] branches[k] < bound,
        PlannedNode::Race { branches, join, .. } => below(join, bound) && forall|k: int|
            0 <= k < branches.len() ==> #[trigger] branches[k] < bound,
    }
}

/// Whether every planned node refers only to nodes planned before it.
pub open spec fn refers_backwards(planned: Seq<PlannedNode>) -> bool {
    forall|i: int| 0 <= i < planned.len() ==> #[trigger] refs_below(planned[i], i)
}

/// Whether `m2` extends `m1`: every node planned in `m1` stays.
pub open spec fn extends(m1: LoweringModel, m2: LoweringModel) -> bool {
    &&& m1.planned.len() <= m2.planned.len()
    &&& forall|i: int| 0 <= i < m1.planned.len() ==> #[trigger] m2.planned[i] == m1.planned[i]
}

/// Lowering only appends nodes; while the plan has fewer than `u32::MAX` nodes
/// each new node refers only to nodes planned before it, and the entry lowering
/// returns is a planned node or `next`.
pub proof fn lemma_lowering_refers_backwards(
    actions: Seq<AutomationAction>,
    next: Option<u32>,
    path: Seq<char>,
    depth: int,
    scope: ActionScope,
    m: LoweringModel,
)
    ensures
        ({
            let (entry, m2) = lower_actions(actions, next, path, depth, scope, m);
            &&& extends(m, m2)
            &&& refers_backwards(m.planned) && below(next, m.planned.len() as int) && m2.planned.len() < u32::MAX
                ==> refers_backwards(m2.planned) && below(entry, m2.planned.len() as int)
        }),
    decreases actions, actions.len() + 1,
{
    if depth <= scope.conditions.maximum_nesting_depth {
        lemma_list_backwards(actions, actions.len() as int, next, path, depth, scope, m);
    }
}

proof fn lemma_list_backwards(
    actions: Seq<AutomationAction>,
    count: int,
    next: Option<u32>,
    path: Seq<char>,
    depth: int,
    scope: ActionScope,
    m: LoweringModel,
)
    ensures
        ({
            let (entry, m2) = lower_list(actions, count, next, path, depth, scope, m);
            &&& extends(m, m2)
            &&& refers_backwards(m.planned) && below(next, m.planned.len() as int) && m2.planned.len() < u32::MAX
                ==> refers_backwards(m2.planned) && below(entry, m2.planned.len() as int)
        }),
    decreases actions, count,
{
    if count <= 0 || count > actions.len() {
    } else if action_survives(command_targets(actions), count - 1) {
        let at = path + "/"@ + decimal_chars(survivors_before(actions, count - 1));
        let (n1, m1) = lower_action(actions[count - 1], next, at, depth, scope, m);
        lemma_action_backwards(actions[count - 1], next, at, depth, scope, m);
        lemma_list_backwards(actions, count - 1, n1, path, depth, scope, m1);
    } else {
        lemma_list_backwards(actions, count - 1, next, path, depth, scope, m);
    }
}

proof fn lemma_failure_backwards(
    policy: AutomationFailurePolicy,
    next: Option<u32>,
    path: Seq<char>,
    depth: int,
    scope: ActionScope,
    m: LoweringModel,
)
    ensures
        ({
            let (p, m2) = lower_failure(policy, next, path, depth, scope, m);
            &&& extends(m, m2)
            &&& refers_backwards(m.planned) && below(next, m.planned.len() as int) && m2.planned.len() < u32::MAX
                ==> refers_backwards(m2.planned) && policy_below(p, m2.planned.len() as int)
        }),
    decreases policy, 0int,
{
    match policy {
        AutomationFailurePolicy::Fallback { actions } => {
            let m1 = noted_if(m, actions@.len() == 0, CompileIssue::FallbackEmpty, path + "/actions"@);
            lemma_lowering_refers_backwards(actions@, next, path + "/actions"@, depth, scope, m1);
        },
        _ => {},
    }
}

proof fn lemma_push_backwards(m: LoweringModel, p: PlannedNode)
    requires
        refers_backwards(m.planned),
        refs_below(p, m.planned.len() as int),
    ensures
        refers_backwards(planned(m, p).planned),
        extends(m, planned(m, p)),
{
    let q = planned(m, p).planned;
    assert forall|i: int| 0 <= i < q.len() implies #[trigger] refs_below(q[i], i) by {
        if i < m.planned.len() {
            assert(q[i] == m.planned[i]);
        }
    }
}

proof fn lemma_extends_trans(a: LoweringModel, b: LoweringModel, c: LoweringModel)
    requires
        extends(a, b),
        extends(b, c),
    ensures
        extends(a, c),
{
}

#[verifier::spinoff_prover]
#[verifier::rlimit(80)]
proof fn lemma_action_backwards(
    a: AutomationAction,
    next: Option<u32>,
    path: Seq<char>,
    depth: int,
    scope: ActionScope,
    m: LoweringModel,
)
    ensures
        ({
            let (entry, m2) = lower_action(a, next, path, depth, scope, m);
            &&& extends(m, m2)
            &&& refers_backwards(m.planned) && below(next, m.planned.len() as int) && m2.planned.len() < u32::MAX
                ==> refers_backwards(m2.planned) && below(entry, m2.planned.len() as int)
        }),
    decreases a, 0int,
{
    let cs = scope.conditions;
    match a {
        AutomationAction::Command { target, payload, retry, on_failure } => {
            let m1 = noted_if(m, payload_schema(payload) != target.capability@, CompileIssue::PayloadSchemaMismatch, path + "/payload"@);
            let m2 = noted_if(m1, retry.maximum_retries > scope.maximum_retries, CompileIssue::RetriesExceeded, path + "/retry/maximum_retries"@);
            let m3 = noted_if(m2, retry.backoff_ms > cs.maximum_timer_ms, CompileIssue::BackoffTooLong, path + "/retry/backoff_ms"@);
            let m4 = with_issues(m3, target_issues(cs, target, path + "/target"@));
            assert(m4.planned == m.planned);
            let (failure, m5) = lower_failure(on_failure, next, path + "/on_failure"@, depth + 1, scope, m4);
            lemma_failure_backwards(on_failure, next, path + "/on_failure"@, depth + 1, scope, m4);
            if resolution_error(cs.devices@, target) is None {
                let m6 = classified(m5, target, payload, path, scope);
                assert(m6.planned == m5.planned);
                let node = PlannedNode::Command { target, payload, retry, on_failure: failure, next };
                if refers_backwards(m.planned) && below(next, m.planned.len() as int) && m6.planned.len() + 1 < u32::MAX {
                    lemma_push_backwards(m6, node);
                } else {
                    assert(extends(m6, planned(m6, node)));
                }
                lemma_extends_trans(m, m6, planned(m6, node));
            }
        },
        AutomationAction::Delay { duration_ms } => {
            let m1 = noted_if(m, timer_out_of_range(duration_ms, cs.maximum_timer_ms), CompileIssue::DurationOutOfRange, path + "/duration_ms"@);
            let node = PlannedNode::Delay { duration_ms, next };
            if refers_backwards(m.planned) && below(next, m.planned.len() as int) {
                lemma_push_backwards(m1, node);
            }
            assert(extends(m1, planned(m1, node)));
        },
        AutomationAction::Wait { condition, timeout_ms, on_timeout } => {
            let m1 = noted_if(m, timer_out_of_range(timeout_ms, cs.maximum_timer_ms), CompileIssue::DurationOutOfRange, path + "/timeout_ms"@);
            let m2 = with_issues(m1, condition_issues(condition, cs, path + "/condition"@, depth + 1));
            let (policy, m3) = lower_failure(on_timeout, next, path + "/on_timeout"@, depth + 1, scope, m2);
            lemma_failure_backwards(on_timeout, next, path + "/on_timeout"@, depth + 1, scope, m2);
            if condition_compiles(condition, cs, depth + 1) {
                let node = PlannedNode::Wait { condition, timeout_ms, on_timeout: policy, next };
                if refers_backwards(m.planned) && below(next, m.planned.len() as int) && m3.planned.len() + 1 < u32::MAX {
                    lemma_push_backwards(m3, node);
                } else {
                    assert(extends(m3, planned(m3, node)));
                }
                lemma_extends_trans(m, m3, planned(m3, node));
            }
        },
        AutomationAction::SetVariable { name, value } => {
            let m1 = with_issues(m, expression_issues(value, cs, path + "/value"@));
            match variable_type(cs.variables@, name@) {
                None => {},
                Some(declared) => match expression_type(value, cs) {
                    Some(t) => {
                        let m2 = noted_if(m1, declared != t, CompileIssue::AssignedTypeMismatch, path + "/value"@);
                        let node = PlannedNode::SetVariable { name, value, next };
                        if refers_backwards(m.planned) && below(next, m.planned.len() as int) {
                            lemma_push_backwards(m2, node);
                        }
                        assert(extends(m2, planned(m2, node)));
                    },
                    None => {},
                },
            }
        },
        AutomationAction::Sequence { actions } => {
            lemma_lowering_refers_backwards(actions@, next, path + "/actions"@, depth + 1, scope, m);
        },
        AutomationAction::If { condition, then_actions, else_actions } => {
            let m1 = noted_if(m, condition is Literal, CompileIssue::LiteralBranch, path + "/condition"@);
            let join = next_id(m1);
            let jn = PlannedNode::Join { next };
            let m2 = planned(m1, jn);
            let ok = refers_backwards(m.planned) && below(next, m.planned.len() as int);
            if ok {
                lemma_push_backwards(m1, jn);
            }
            assert(extends(m1, m2));
            let (then_node, m3) = lower_actions(then_actions@, Some(join), path + "/then_actions"@, depth + 1, scope, m2);
            lemma_lowering_refers_backwards(then_actions@, Some(join), path + "/then_actions"@, depth + 1, scope, m2);
            let (else_node, m4) = lower_actions(else_actions@, Some(join), path + "/else_actions"@, depth + 1, scope, m3);
            lemma_lowering_refers_backwards(else_actions@, Some(join), path + "/else_actions"@, depth + 1, scope, m3);
            let m5 = with_issues(m4, condition_issues(condition, cs, path + "/condition"@, depth + 1));
            lemma_extends_trans(m, m2, m3);
            lemma_extends_trans(m, m3, m4);
            assert(extends(m4, m5));
            if condition_compiles(condition, cs, depth + 1) {
                let node = PlannedNode::Branch { condition, then_node, else_node, join: Some(join) };
                if ok && m5.planned.len() + 1 < u32::MAX {
                    assert(join == m1.planned.len());
                    lemma_push_backwards(m5, node);
                } else {
                    assert(extends(m5, planned(m5, node)));
                }
                lemma_extends_trans(m, m5, planned(m5, node));
            }
        },
        AutomationAction::Parallel { branches, maximum_parallel } => {
            lemma_group_backwards(branches@, maximum_parallel, next, path, depth, false, scope, m);
        },
        AutomationAction::Race { branches, maximum_parallel } => {
            lemma_group_backwards(branches@, maximum_parallel, next, path, depth, true, scope, m);
        },
    }
}

proof fn lemma_group_backwards(
    branches: Seq<Vec<AutomationAction>>,
    maximum_parallel: u16,
    next: Option<u32>,
    path: Seq<char>,
    depth: int,
    race: bool,
    scope: ActionScope,
    m: LoweringModel,
)
    ensures
        ({
            let (entry, m2) = lower_group(branches, maximum_parallel, next, path, depth, race, scope, m);
            &&& extends(m, m2)
            &&& refers_backwards(m.planned) && below(next, m.planned.len() as int) && m2.planned.len() < u32::MAX
                ==> refers_backwards(m2.planned) && below(entry, m2.planned.len() as int)
        }),
    decreases branches, branches.len() + 1,
{
    let m1 = noted_if(m, branches.len() == 0, CompileIssue::BranchesMissing, path + "/branches"@);
    let m2 = noted_if(
        m1,
        width_exceeded(branches.len(), maximum_parallel, scope.maximum_parallel_width),
        CompileIssue::ParallelWidthExceeded,
        path + "/maximum_parallel"@,
    );
    let join = next_id(m2);
    let jn = PlannedNode::Join { next };
    let m3 = planned(m2, jn);
    let ok = refers_backwards(m.planned) && below(next, m.planned.len() as int);
    if ok {
        lemma_push_backwards(m2, jn);
    }
    assert(extends(m2, m3));
    let (entries, m4) = lower_branches(branches, 0, join, path, depth, scope, m3);
    lemma_branches_backwards(branches, 0, join, path, depth, scope, m3);
    lemma_extends_trans(m, m3, m4);
    let node = if race {
        PlannedNode::Race { branches: entries, maximum_parallel, join: Some(join) }
    } else {
        PlannedNode::Parallel { branches: entries, maximum_parallel, join: Some(join) }
    };
    if ok && m4.planned.len() + 1 < u32::MAX {
        assert(join == m2.planned.len());
        lemma_push_backwards(m4, node);
    } else {
        assert(extends(m4, planned(m4, node)));
    }
    lemma_extends_trans(m, m4, planned(m4, node));
}

proof fn lemma_branches_backwards(
    branches: Seq<Vec<AutomationAction>>,
    idx: int,
    join: u32,
    path: Seq<char>,
    depth: int,
    scope: ActionScope,
    m: LoweringModel,
)
    ensures
        ({
            let (entries, m2) = lower_branches(branches, idx, join, path, depth, scope, m);
            &&& extends(m, m2)
            &&& refers_backwards(m.planned) && join < m.planned.len() && m2.planned.len() < u32::MAX
                ==> refers_backwards(m2.planned) && forall|k: int| 0 <= k < entries.len() ==> #[trigger] entries[k]
                < m2.planned.len()
        }),
    decreases branches, branches.len() - idx,
{
    if idx < 0 || idx >= branches.len() {
    } else {
        let at = path + "/branches/"@ + decimal_chars(idx as nat);
        let m1 = noted_if(m, branches[idx]@.len() == 0, CompileIssue::BranchEmpty, at);
        let (entry, m2) = lower_actions(branches[idx]@, Some(join), at, depth + 1, scope, m1);
        lemma_lowering_refers_backwards(branches[idx]@, Some(join), at, depth + 1, scope, m1);
        let (rest, m3) = lower_branches(branches, idx + 1, join, path, depth, scope, m2);
        lemma_branches_backwards(branches, idx + 1, join, path, depth, scope, m2);
        lemma_extends_trans(m, m2, m3);
        let all = match entry {
            Some(e) => seq![e] + rest,
            None => rest,
        };
        if refers_backwards(m.planned) && join < m.planned.len() && m3.planned.len() < u32::MAX {
            assert forall|k: int| 0 <= k < all.len() implies #[trigger] all[k] < m3.planned.len() by {
                match entry {
                    Some(e) => {
                        if k > 0 {
                            assert(all[k] == rest[k - 1]);
                        }
                    },
                    None => {},
                }
            }
        }
    }
}

/// Whether every node a plan node continues with is below `bound`.
pub open spec fn kind_refs_below(kind: AutomationPlanNodeKind, bound: int) -> bool {
    match kind {
        AutomationPlanNodeKind::Complete => true,
        AutomationPlanNodeKind::Delay { next, .. } | AutomationPlanNodeKind::SetVariable { next, .. }
        | AutomationPlanNodeKind::Join { next } => below(next, bound),
        AutomationPlanNodeKind::Command { on_failure, next, .. } => below(next, bound) && policy_below(on_failure, bound),
        AutomationPlanNodeKind::Wait { on_timeout, next, .. } => below(next, bound) && policy_below(on_timeout, bound),
        AutomationPlanNodeKind::Branch { then_node, else_node, join, .. } => below(then_node, bound) && below(
            else_node,
            bound,
        ) && below(join, bound),
        AutomationPlanNodeKind::Parallel { branches, join, .. } => below(join, bound) && forall|k: int|
            0 <= k < branches@.len() ==> #[trigger] branches@[k] < bound,
        AutomationPlanNodeKind::Race { branches, join, .. } => below(join, bound) && forall|k: int|
            0 <= k < branches@.len() ==> #[trigger] branches@[k] < bound,
    }
}

/// A realized node refers to the nodes its planned node refers to.
pub proof fn lemma_realized_refs(node: AutomationPlanNode, id: u32, p: PlannedNode, scope: ActionScope, bound: int)
    requires
        realized(node, id, p, scope),
        refs_below(p, bound),
    ensures
        kind_refs_below(node.kind, bound),
{
    match p {
        PlannedNode::Parallel { branches: planned_branches, .. } => match node.kind {
            AutomationPlanNodeKind::Parallel { branches, .. } => {
                assert forall|k: int| 0 <= k < branches@.len() implies #[trigger] branches@[k] < bound by {
                    assert(planned_branches[k] < bound);
                }
            },
            _ => {},
        },
        PlannedNode::Race { branches: planned_branches, .. } => match node.kind {
            AutomationPlanNodeKind::Race { branches, .. } => {
                assert forall|k: int| 0 <= k < branches@.len() implies #[trigger] branches@[k] < bound by {
                    assert(planned_branches[k] < bound);
                }
            },
            _ => {},
        },
        _ => {},
    }
}

} // verus!
