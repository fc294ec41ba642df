//! Compilation of authored automation triggers, with every path-addressed
//! finding in discovery order.

use vstd::prelude::*;

use crate::authentication::{decimal_chars, push_decimal};
use crate::automation_compiler::{
    is_unicode_whitespace, observation_field_type, observation_field_type_spec, schedule_is_valid,
    schedule_text_valid, timer_in_range, whitespace, AutomationSchedule, AutomationTargetReference,
};
use crate::automation_events::ResolvedAutomationTrigger;
use crate::automation_runtime::CommandState;
use crate::condition_compiler::{issue_view, joined, record, CompileIssue, ConditionScope};
use crate::target_resolution::{failure_pointer_suffix, resolution_error, resolve_target, resolves_to};

verus! {

/// An authored trigger.
#[derive(Clone, Debug)]
pub enum AutomationTrigger {
    /// An observation of the target changed, optionally in one field.
    ObservationChanged { target: AutomationTargetReference, field: Option<String> },
    /// A device on the target emitted the named event.
    DeviceEvent { target: AutomationTargetReference, event: String },
    Schedule { schedule: AutomationSchedule },
    /// A command reached one of the states, optionally only on the target.
    CommandOutcome { target: Option<AutomationTargetReference>, states: Vec<CommandState> },
}

/// Whether the text is empty once surrounding white space is trimmed.
pub open spec fn blank(text: Seq<char>) -> bool {
    forall|i: int| 0 <= i < text.len() ==> is_unicode_whitespace(#[trigger] text[i])
}

pub(crate) fn is_blank(text: &str) -> (b: bool)
    ensures
        b == blank(text@),
{
    let n = text.unicode_len();
    let mut i: usize = 0;
    while i < n
        invariant
            n == text@.len(),
            i <= n,
            forall|j: int| 0 <= j < i ==> is_unicode_whitespace(#[trigger] text@[j]),
        decreases n - i,
    {
        if !whitespace(text.get_char(i)) {
            return false;
        }
        i = i + 1;
    }
    true
}

/// The finding a target resolution reports under `path`, if any.
pub open spec fn target_issues(scope: ConditionScope, target: AutomationTargetReference, path: Seq<char>) -> Seq<
    (CompileIssue, Seq<char>),
> {
    match resolution_error(scope.devices@, target) {
        Some(e) => seq![(CompileIssue::Target(e), path + failure_pointer_suffix(e))],
        None => Seq::empty(),
    }
}

/// Issues of one trigger at `path`, in discovery order.
pub open spec fn trigger_issues(t: AutomationTrigger, scope: ConditionScope, path: Seq<char>) -> Seq<(CompileIssue, Seq<char>)> {
    match t {
        AutomationTrigger::ObservationChanged { target, field } => target_issues(scope, target, path + "/target"@)
            + match field {
            Some(f) => if observation_field_type_spec(target.capability@, f@) is Some {
                Seq::empty()
            } else {
                seq![(CompileIssue::FieldUndefined, path + "/field"@)]
            },
            None => Seq::empty(),
        },
        AutomationTrigger::DeviceEvent { target, event } => (if blank(event@) {
            seq![(CompileIssue::EventNameMissing, path + "/event"@)]
        } else {
            Seq::empty()
        }) + target_issues(scope, target, path + "/target"@),
        AutomationTrigger::Schedule { schedule } => (if schedule_text_valid(schedule.cron@, schedule.timezone@) {
            Seq::empty()
        } else {
            seq![(CompileIssue::ScheduleInvalid, path + "/schedule"@)]
        }) + (if schedule.occurrence_window_ms != 0 && schedule.occurrence_window_ms <= scope.maximum_timer_ms {
            Seq::empty()
        } else {
            seq![(CompileIssue::OccurrenceWindowOutOfRange, path + "/schedule/occurrence_window_ms"@)]
        }),
        AutomationTrigger::CommandOutcome { target, states } => (if states@.len() == 0 {
            seq![(CompileIssue::StatesMissing, path + "/states"@)]
        } else {
            Seq::empty()
        }) + match target {
            Some(t) => target_issues(scope, t, path + "/target"@),
            None => Seq::empty(),
        },
    }
}

/// Whether a trigger compiles: every target it names resolves.
pub open spec fn trigger_compiles(t: AutomationTrigger, scope: ConditionScope) -> bool {
    match t {
        AutomationTrigger::ObservationChanged { target, .. } => resolution_error(scope.devices@, target) is None,
        AutomationTrigger::DeviceEvent { target, .. } => resolution_error(scope.devices@, target) is None,
        AutomationTrigger::Schedule { .. } => true,
        AutomationTrigger::CommandOutcome { target, .. } => match target {
            Some(t) => resolution_error(scope.devices@, t) is None,
            None => true,
        },
    }
}

/// Whether `r` is the compiled form of `t`.
pub open spec fn trigger_compiles_to(t: AutomationTrigger, r: ResolvedAutomationTrigger, scope: ConditionScope) -> bool {
    match (t, r) {
        (
            AutomationTrigger::ObservationChanged { target, field },
            ResolvedAutomationTrigger::ObservationChanged { targets, field: f },
        ) => resolves_to(scope.devices@, target, targets@) && match (field, f) {
            (None, None) => true,
            (Some(a), Some(b)) => a@ == b@,
            _ => false,
        },
        (AutomationTrigger::DeviceEvent { target, event }, ResolvedAutomationTrigger::DeviceEvent { targets, event: e }) => {
            resolves_to(scope.devices@, target, targets@) && e@ == event@
        },
        (AutomationTrigger::Schedule { schedule }, ResolvedAutomationTrigger::Schedule { schedule: s }) => {
            s.cron@ == schedule.cron@ && s.timezone@ == schedule.timezone@ && s.occurrence_window_ms
                == schedule.occurrence_window_ms
        },
        (
            AutomationTrigger::CommandOutcome { target, states },
            ResolvedAutomationTrigger::CommandOutcome { targets, states: s },
        ) => s@ == states@ && match (target, targets) {
            (None, None) => true,
            (Some(t), Some(v)) => resolves_to(scope.devices@, t, v@),
            _ => false,
        },
        _ => false,
    }
}

/// Issues of a trigger list, trigger after trigger, each under `/triggers/{index}`.
pub open spec fn trigger_list_issues(ts: Seq<AutomationTrigger>, scope: ConditionScope) -> Seq<(CompileIssue, Seq<char>)>
    decreases ts.len(),
{
    if ts.len() == 0 {
        Seq::empty()
    } else {
        trigger_list_issues(ts.drop_last(), scope) + trigger_issues(
            ts.last(),
            scope,
            "/triggers/"@ + decimal_chars((ts.len() - 1) as nat),
        )
    }
}

/// Whether `rs` are the compiled forms of the triggers of `ts` that compile, in order.
pub open spec fn triggers_compile_to(ts: Seq<AutomationTrigger>, rs: Seq<ResolvedAutomationTrigger>, scope: ConditionScope) -> bool
    decreases ts.len(),
{
    if ts.len() == 0 {
        rs.len() == 0
    } else if trigger_compiles(ts.last(), scope) {
        rs.len() > 0 && trigger_compiles_to(ts.last(), rs.last(), scope) && triggers_compile_to(
            ts.drop_last(),
            rs.drop_last(),
            scope,
        )
    } else {
        triggers_compile_to(ts.drop_last(), rs, scope)
    }
}

fn copy_states(states: &Vec<CommandState>) -> (r: Vec<CommandState>)
    ensures
        r@ == states@,
{
    let mut r: Vec<CommandState> = Vec::new();
    let mut i: usize = 0;
    while i < states.len()
        invariant
            i <= states@.len(),
            r@ == states@.take(i as int),
        decreases states@.len() - i,
    {
        r.push(states[i]);
        assert(states@.take(i + 1) =~= states@.take(i as int).push(states@[i as int]));
        i = i + 1;
    }
    assert(states@.take(states@.len() as int) =~= states@);
    r
}

fn copy_schedule(s: &AutomationSchedule) -> (r: AutomationSchedule)
    ensures
        r.cron@ == s.cron@,
        r.timezone@ == s.timezone@,
        r.occurrence_window_ms == s.occurrence_window_ms,
{
    AutomationSchedule { cron: s.cron.clone(), timezone: s.timezone.clone(), occurrence_window_ms: s.occurrence_window_ms }
}

/// Resolves a target named by a trigger, recording the failure under `path`.
pub(crate) fn trigger_target(
    scope: &ConditionScope,
    target: &AutomationTargetReference,
    path: &str,
    issues: &mut Vec<(CompileIssue, String)>,
) -> (r: Option<Vec<crate::automation_events::ResolvedAutomationTarget>>)
    ensures
        issue_view(final(issues)@) == issue_view(old(issues)@) + target_issues(*scope, *target, path@),
        r is Some <==> resolution_error(scope.devices@, *target) is None,
        r matches Some(v) ==> resolves_to(scope.devices@, *target, v@),
{
    let ghost before = issue_view(issues@);
    match resolve_target(&scope.devices, target) {
        Ok(v) => {
            assert(issue_view(issues@) =~= before + target_issues(*scope, *target, path@));
            Some(v)
        },
        Err(e) => {
            let mut at = String::from_str(path);
            at.append(e.pointer_suffix());
            record(issues, CompileIssue::Target(e), at);
            None
        },
    }
}

/// Compiles one trigger at `path`, recording its issues.
pub fn compile_trigger(
    t: &AutomationTrigger,
    scope: &ConditionScope,
    path: &str,
    issues: &mut Vec<(CompileIssue, String)>,
) -> (r: Option<ResolvedAutomationTrigger>)
    ensures
        issue_view(final(issues)@) == issue_view(old(issues)@) + trigger_issues(*t, *scope, path@),
        r is Some <==> trigger_compiles(*t, *scope),
        r matches Some(x) ==> trigger_compiles_to(*t, x, *scope),
{
    let ghost before = issue_view(issues@);
    match t {
        AutomationTrigger::ObservationChanged { target, field } => {
            let target_path = joined(path, "/target");
            let targets = trigger_target(scope, target, target_path.as_str(), issues);
            let ghost after_target = issue_view(issues@);
            match field {
                Some(f) => {
                    if observation_field_type(target.capability.as_str(), f.as_str()).is_none() {
                        record(issues, CompileIssue::FieldUndefined, joined(path, "/field"));
                    }
                },
                None => {},
            }
            assert(issue_view(issues@) =~= before + trigger_issues(*t, *scope, path@));
            match targets {
                Some(v) => Some(ResolvedAutomationTrigger::ObservationChanged { targets: v, field: field.clone() }),
                None => None,
            }
        },
        AutomationTrigger::DeviceEvent { target, event } => {
            if is_blank(event.as_str()) {
                record(issues, CompileIssue::EventNameMissing, joined(path, "/event"));
            }
            let ghost after_event = issue_view(issues@);
            let target_path = joined(path, "/target");
            let targets = trigger_target(scope, target, target_path.as_str(), issues);
            assert(issue_view(issues@) =~= before + trigger_issues(*t, *scope, path@));
            match targets {
                Some(v) => Some(ResolvedAutomationTrigger::DeviceEvent { targets: v, event: event.clone() }),
                None => None,
            }
        },
        AutomationTrigger::Schedule { schedule } => {
            if !schedule_is_valid(schedule.cron.as_str(), schedule.timezone.as_str()) {
                record(issues, CompileIssue::ScheduleInvalid, joined(path, "/schedule"));
            }
            if !timer_in_range(schedule.occurrence_window_ms, scope.maximum_timer_ms) {
                record(issues, CompileIssue::OccurrenceWindowOutOfRange, joined(path, "/schedule/occurrence_window_ms"));
            }
            assert(issue_view(issues@) =~= before + trigger_issues(*t, *scope, path@));
            Some(ResolvedAutomationTrigger::Schedule { schedule: copy_schedule(schedule) })
        },
        AutomationTrigger::CommandOutcome { target, states } => {
            if states.len() == 0 {
                record(issues, CompileIssue::StatesMissing, joined(path, "/states"));
            }
            let ghost after_states = issue_view(issues@);
            match target {
                Some(tr) => {
                    let target_path = joined(path, "/target");
                    let targets = trigger_target(scope, tr, target_path.as_str(), issues);
                    assert(issue_view(issues@) =~= before + trigger_issues(*t, *scope, path@));
                    match targets {
                        Some(v) => Some(
                            ResolvedAutomationTrigger::CommandOutcome { targets: Some(v), states: copy_states(states) },
                        ),
                        None => None,
                    }
                },
                None => {
                    assert(issue_view(issues@) =~= before + trigger_issues(*t, *scope, path@));
                    Some(ResolvedAutomationTrigger::CommandOutcome { targets: None, states: copy_states(states) })
                },
            }
        },
    }
}

/// Compiles every trigger under `/triggers/{index}`, keeping those that compile
/// in order and recording every issue.
pub fn compile_triggers(
    triggers: &Vec<AutomationTrigger>,
    scope: &ConditionScope,
    issues: &mut Vec<(CompileIssue, String)>,
) -> (compiled: Vec<ResolvedAutomationTrigger>)
    ensures
        issue_view(final(issues)@) == issue_view(old(issues)@) + trigger_list_issues(triggers@, *scope),
        triggers_compile_to(triggers@, compiled@, *scope),
{
    let ghost base = issue_view(issues@);
    let mut compiled: Vec<ResolvedAutomationTrigger> = Vec::new();
    let mut i: usize = 0;
    assert(triggers@.take(0) =~= Seq::<AutomationTrigger>::empty());
    while i < triggers.len()
        invariant
            i <= triggers@.len(),
            issue_view(issues@) == base + trigger_list_issues(triggers@.take(i as int), *scope),
            triggers_compile_to(triggers@.take(i as int), compiled@, *scope),
        decreases triggers@.len() - i,
    {
        let ghost prefix = triggers@.take(i + 1);
        assert(prefix.drop_last() =~= triggers@.take(i as int));
        assert(prefix.last() == triggers@[i as int]);
        let mut path = String::from_str("/triggers/");
        push_decimal(&mut path, i as u64);
        let ghost before = issue_view(issues@);
        let ghost kept = compiled@;
        let resolved = compile_trigger(&triggers[i], scope, path.as_str(), issues);
        assert(issue_view(issues@) =~= base + trigger_list_issues(prefix, *scope));
        match resolved {
            Some(r) => {
                compiled.push(r);
                assert(compiled@.drop_last() =~= kept);
            },
            None => {},
        }
        i = i + 1;
    }
    assert(triggers@.take(triggers@.len() as int) =~= triggers@);
    compiled
}

} // verus!
