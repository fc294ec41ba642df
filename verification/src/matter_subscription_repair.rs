//! Phase rules of explicit, actor-bound, bounded Matter subscription repair.

use vstd::prelude::*;

use crate::matter_administration::{MatterAdministrationError, MatterOperationPhase};
use crate::matter_subscription::{
    MatterSubscriptionLossReason, MatterSubscriptionRecoveryPolicy, StoredMatterSubscriptionState,
};
use crate::matter_controller::MatterAttributePath;
use crate::matter_projection::{
    advance_matter_projected_state, applied_state, convergence_after_report, mark_matter_projection_stale,
    normalize_matter_report, report_is_duplicate, report_rejection, MatterAttributeReport, MatterCapabilityProjection,
    MatterConvergence, MatterProjectedState, MatterProjectionKey, MatterReportCausation, MatterReportDecision,
    MatterReportedState, MatterStateFreshness, MatterStateUncertainty, ObservationSourceKind, StoredMatterProjection,
};
use crate::time::{add_millis, utc_add_millis, utc_sum_in_range};

verus! {

/// Longest report interval requested when resubscribing, in milliseconds.
pub const SUBSCRIPTION_MAXIMUM_INTERVAL_MILLIS: u64 = 60_000;

/// Stable workflow failures without controller text passthrough.
#[derive(Clone, Debug)]
pub enum MatterSubscriptionRepairError {
    /// Current actor, grant, or operation ownership failed.
    Administration(MatterAdministrationError),
    /// Operation is absent or owned by another actor.
    OperationNotFound,
    /// Owned node has no durable logical subscription.
    SubscriptionNotFound,
    /// Durable phase is not executable by this workflow.
    InvalidPhase,
    /// Durable descriptor and projection state are inconsistent.
    InvalidProjection,
    /// Retry deadline could not be represented.
    InvalidRetryDeadline,
    /// Durable repair state failed; the text says why.
    Repository(String),
}

/// Observable result of one explicit repair execution step.
#[derive(Clone, Copy, Debug, PartialEq, Eq, Structural)]
pub enum MatterSubscriptionRepairOutcome {
    /// The actor must call again at or after this durable deadline.
    Waiting { retry_at: i64 },
    /// Gap read and logical resubscribe completed.
    Completed,
    /// The fixed work budget ended with explicit repair evidence.
    RepairRequired,
}

/// What the repair workflow does in a durable operation phase.
#[derive(Clone, Copy, Debug, PartialEq, Eq, Structural)]
pub enum MatterRepairPhaseStep {
    /// Mark the subscription and its projections stale, then read the gap.
    BeginGap,
    /// Perform the bounded gap read, then subscribe.
    ReadGap,
    /// Attempt the logical resubscribe.
    Subscribe,
    /// The workflow already ended with this outcome.
    Finished(MatterSubscriptionRepairOutcome),
}

/// The workflow step for an operation phase; other phases are not executable.
pub fn repair_phase_step(phase: MatterOperationPhase) -> (r: Result<MatterRepairPhaseStep, MatterSubscriptionRepairError>)
    ensures
        match phase {
            MatterOperationPhase::Requested => r matches Ok(MatterRepairPhaseStep::BeginGap),
            MatterOperationPhase::ReadingGap => r matches Ok(MatterRepairPhaseStep::ReadGap),
            MatterOperationPhase::Subscribing => r matches Ok(MatterRepairPhaseStep::Subscribe),
            MatterOperationPhase::Completed => r matches Ok(
                MatterRepairPhaseStep::Finished(MatterSubscriptionRepairOutcome::Completed),
            ),
            MatterOperationPhase::RepairRequired => r matches Ok(
                MatterRepairPhaseStep::Finished(MatterSubscriptionRepairOutcome::RepairRequired),
            ),
            _ => r matches Err(MatterSubscriptionRepairError::InvalidPhase),
        },
{
    match phase {
        MatterOperationPhase::Requested => Ok(MatterRepairPhaseStep::BeginGap),
        MatterOperationPhase::ReadingGap => Ok(MatterRepairPhaseStep::ReadGap),
        MatterOperationPhase::Subscribing => Ok(MatterRepairPhaseStep::Subscribe),
        MatterOperationPhase::Completed => Ok(MatterRepairPhaseStep::Finished(MatterSubscriptionRepairOutcome::Completed)),
        MatterOperationPhase::RepairRequired => Ok(
            MatterRepairPhaseStep::Finished(MatterSubscriptionRepairOutcome::RepairRequired),
        ),
        _ => Err(MatterSubscriptionRepairError::InvalidPhase),
    }
}

/// Durable recovery bookkeeping of one stored subscription.
#[derive(Clone, Copy, Debug, PartialEq, Eq, Structural)]
pub struct StoredMatterSubscriptionRecovery {
    pub gap_reason: Option<MatterSubscriptionLossReason>,
    pub sleepy: bool,
    pub gap_reads: u8,
    pub maximum_gap_reads: u8,
    pub subscribe_attempts: u8,
    pub maximum_subscribe_attempts: u8,
    pub retry_at: Option<i64>,
    pub last_gap_read_at: Option<i64>,
    pub sleepy_read_interval_millis: u64,
}

/// The durable fields of a stored logical subscription that repair changes.
#[derive(Clone, Copy, Debug, PartialEq, Eq, Structural)]
pub struct StoredMatterSubscriptionProgress {
    pub state: StoredMatterSubscriptionState,
    pub report_sequence: u64,
    /// Instant after which the subscription counts as stale.
    pub stale_after: i64,
    pub recovery: StoredMatterSubscriptionRecovery,
    /// Optimistic durable revision.
    pub revision: u64,
    pub updated_at: i64,
}

/// The revision after one more durable write.
pub open spec fn next_revision(revision: u64) -> u64 {
    if revision == u64::MAX {
        u64::MAX
    } else {
        (revision + 1) as u64
    }
}

/// Fresh bookkeeping under the policy, keeping the device's sleepiness and its
/// last gap read.
pub open spec fn reset_recovery(
    recovery: StoredMatterSubscriptionRecovery,
    policy: MatterSubscriptionRecoveryPolicy,
    gap_reason: Option<MatterSubscriptionLossReason>,
) -> StoredMatterSubscriptionRecovery {
    StoredMatterSubscriptionRecovery {
        gap_reason,
        sleepy: recovery.sleepy,
        gap_reads: 0,
        maximum_gap_reads: policy.maximum_gap_reads,
        subscribe_attempts: 0,
        maximum_subscribe_attempts: policy.maximum_subscribe_attempts,
        retry_at: None,
        last_gap_read_at: recovery.last_gap_read_at,
        sleepy_read_interval_millis: policy.sleepy_read_interval_millis,
    }
}

fn fresh_recovery(
    recovery: &StoredMatterSubscriptionRecovery,
    policy: &MatterSubscriptionRecoveryPolicy,
    gap_reason: Option<MatterSubscriptionLossReason>,
) -> (r: StoredMatterSubscriptionRecovery)
    ensures
        r == reset_recovery(*recovery, *policy, gap_reason),
{
    StoredMatterSubscriptionRecovery {
        gap_reason,
        sleepy: recovery.sleepy,
        gap_reads: 0,
        maximum_gap_reads: policy.maximum_gap_reads,
        subscribe_attempts: 0,
        maximum_subscribe_attempts: policy.maximum_subscribe_attempts,
        retry_at: None,
        last_gap_read_at: recovery.last_gap_read_at,
        sleepy_read_interval_millis: policy.sleepy_read_interval_millis,
    }
}

/// Opens a gap: the subscription needs repair and its bookkeeping restarts
/// under the policy with a report-gap reason.
pub fn begin_gap(sub: &mut StoredMatterSubscriptionProgress, policy: &MatterSubscriptionRecoveryPolicy, now: i64)
    ensures
        *final(sub) == (StoredMatterSubscriptionProgress {
            state: StoredMatterSubscriptionState::RepairRequired,
            recovery: reset_recovery(old(sub).recovery, *policy, Some(MatterSubscriptionLossReason::ReportGap)),
            revision: next_revision(old(sub).revision),
            updated_at: now,
            ..*old(sub)
        }),
{
    sub.state = StoredMatterSubscriptionState::RepairRequired;
    sub.recovery = fresh_recovery(&sub.recovery, policy, Some(MatterSubscriptionLossReason::ReportGap));
    sub.revision = sub.revision.saturating_add(1);
    sub.updated_at = now;
}

/// Records the completed gap read: one read, now, and the first subscribe attempt.
pub fn record_gap_read(sub: &mut StoredMatterSubscriptionProgress, now: i64)
    ensures
        *final(sub) == (StoredMatterSubscriptionProgress {
            recovery: StoredMatterSubscriptionRecovery {
                gap_reads: 1,
                last_gap_read_at: Some(now),
                subscribe_attempts: 1,
                retry_at: None,
                ..old(sub).recovery
            },
            revision: next_revision(old(sub).revision),
            updated_at: now,
            ..*old(sub)
        }),
{
    sub.recovery.gap_reads = 1;
    sub.recovery.last_gap_read_at = Some(now);
    sub.recovery.subscribe_attempts = 1;
    sub.recovery.retry_at = None;
    sub.revision = sub.revision.saturating_add(1);
    sub.updated_at = now;
}

/// Gates a subscribe attempt on the retry deadline. Before it, the deadline is
/// returned and nothing changes; at or after it, the attempt is counted and the
/// deadline cleared; without one, the attempt proceeds unchanged.
pub fn subscribe_gate(sub: &mut StoredMatterSubscriptionProgress, now: i64) -> (wait: Option<i64>)
    ensures
        match old(sub).recovery.retry_at {
            Some(t) if now < t => wait == Some(t) && *final(sub) == *old(sub),
            Some(_) => wait is None && *final(sub) == (StoredMatterSubscriptionProgress {
                recovery: StoredMatterSubscriptionRecovery {
                    subscribe_attempts: if old(sub).recovery.subscribe_attempts == u8::MAX {
                        u8::MAX
                    } else {
                        (old(sub).recovery.subscribe_attempts + 1) as u8
                    },
                    retry_at: None,
                    ..old(sub).recovery
                },
                revision: next_revision(old(sub).revision),
                updated_at: now,
                ..*old(sub)
            }),
            None => wait is None && *final(sub) == *old(sub),
        },
{
    match sub.recovery.retry_at {
        Some(t) => {
            if now < t {
                return Some(t);
            }
            sub.recovery.subscribe_attempts = sub.recovery.subscribe_attempts.saturating_add(1);
            sub.recovery.retry_at = None;
            sub.revision = sub.revision.saturating_add(1);
            sub.updated_at = now;
            None
        },
        None => None,
    }
}

/// Records an established subscription: reports resume at the controller's
/// sequence, the subscription is fresh until one maximum report interval after
/// the verification instant (or at it, where that sum is not representable),
/// and the bookkeeping restarts without a gap.
pub fn record_subscribed(
    sub: &mut StoredMatterSubscriptionProgress,
    policy: &MatterSubscriptionRecoveryPolicy,
    report_sequence: u64,
    verified_at: i64,
    now: i64,
)
    ensures
        *final(sub) == (StoredMatterSubscriptionProgress {
            state: StoredMatterSubscriptionState::Established,
            report_sequence,
            stale_after: match utc_add_millis(verified_at, SUBSCRIPTION_MAXIMUM_INTERVAL_MILLIS) {
                Some(t) => t,
                None => verified_at,
            },
            recovery: reset_recovery(old(sub).recovery, *policy, None),
            revision: next_revision(old(sub).revision),
            updated_at: now,
        }),
        utc_sum_in_range(verified_at as int, SUBSCRIPTION_MAXIMUM_INTERVAL_MILLIS as int) ==> final(sub).stale_after
            == verified_at + SUBSCRIPTION_MAXIMUM_INTERVAL_MILLIS,
{
    sub.state = StoredMatterSubscriptionState::Established;
    sub.report_sequence = report_sequence;
    sub.stale_after = match add_millis(verified_at, SUBSCRIPTION_MAXIMUM_INTERVAL_MILLIS) {
        Some(t) => t,
        None => verified_at,
    };
    sub.recovery = fresh_recovery(&sub.recovery, policy, None);
    sub.revision = sub.revision.saturating_add(1);
    sub.updated_at = now;
}

/// Records a failed subscribe. With the attempt budget spent, the subscription
/// needs operator repair; otherwise it waits for `retry_at`, the deterministic
/// deadline of the current attempt, which must be representable.
pub fn record_subscribe_failure(sub: &mut StoredMatterSubscriptionProgress, retry_at: Option<i64>, now: i64) -> (r: Result<
    MatterSubscriptionRepairOutcome,
    MatterSubscriptionRepairError,
>)
    ensures
        old(sub).recovery.subscribe_attempts >= old(sub).recovery.maximum_subscribe_attempts ==> {
            &&& r matches Ok(MatterSubscriptionRepairOutcome::RepairRequired)
            &&& *final(sub) == (StoredMatterSubscriptionProgress {
                state: StoredMatterSubscriptionState::RepairRequired,
                recovery: StoredMatterSubscriptionRecovery { retry_at: None, ..old(sub).recovery },
                revision: next_revision(old(sub).revision),
                updated_at: now,
                ..*old(sub)
            })
        },
        old(sub).recovery.subscribe_attempts < old(sub).recovery.maximum_subscribe_attempts ==> match retry_at {
            None => r matches Err(MatterSubscriptionRepairError::InvalidRetryDeadline) && *final(sub) == *old(sub),
            Some(t) => {
                &&& r matches Ok(MatterSubscriptionRepairOutcome::Waiting { retry_at: w }) && w == t
                &&& *final(sub) == (StoredMatterSubscriptionProgress {
                    recovery: StoredMatterSubscriptionRecovery { retry_at: Some(t), ..old(sub).recovery },
                    revision: next_revision(old(sub).revision),
                    updated_at: now,
                    ..*old(sub)
                })
            },
        },
{
    if sub.recovery.subscribe_attempts >= sub.recovery.maximum_subscribe_attempts {
        sub.state = StoredMatterSubscriptionState::RepairRequired;
        sub.recovery.retry_at = None;
        sub.revision = sub.revision.saturating_add(1);
        sub.updated_at = now;
        return Ok(MatterSubscriptionRepairOutcome::RepairRequired);
    }
    match retry_at {
        None => Err(MatterSubscriptionRepairError::InvalidRetryDeadline),
        Some(t) => {
            sub.recovery.retry_at = Some(t);
            sub.revision = sub.revision.saturating_add(1);
            sub.updated_at = now;
            Ok(MatterSubscriptionRepairOutcome::Waiting { retry_at: t })
        },
    }
}

/// Position of the first projection rule with this identity.
pub open spec fn rule_index(rules: Seq<MatterCapabilityProjection>, key: MatterProjectionKey) -> Option<int>
    decreases rules.len(),
{
    if rules.len() == 0 {
        None
    } else {
        match rule_index(rules.drop_last(), key) {
            Some(i) => Some(i),
            None => if rules.last().projection_id == key {
                Some(rules.len() - 1)
            } else {
                None
            },
        }
    }
}

/// Position of the first report for this attribute path.
pub open spec fn report_index(reports: Seq<MatterAttributeReport>, path: MatterAttributePath) -> Option<int>
    decreases reports.len(),
{
    if reports.len() == 0 {
        None
    } else {
        match report_index(reports.drop_last(), path) {
            Some(i) => Some(i),
            None => if reports.last().path == path {
                Some(reports.len() - 1)
            } else {
                None
            },
        }
    }
}

proof fn lemma_rule_index(rules: Seq<MatterCapabilityProjection>, key: MatterProjectionKey)
    ensures
        rule_index(rules, key) matches Some(i) ==> 0 <= i < rules.len() && rules[i].projection_id == key
            && forall|j: int| 0 <= j < i ==> #[trigger] rules[j].projection_id != key,
        rule_index(rules, key) is None ==> forall|j: int| 0 <= j < rules.len() ==> #[trigger] rules[j].projection_id != key,
    decreases rules.len(),
{
    if rules.len() > 0 {
        let init = rules.drop_last();
        lemma_rule_index(init, key);
        assert forall|j: int| 0 <= j < rules.len() - 1 implies init[j] == rules[j] by {}
        if let Some(i) = rule_index(init, key) {
            assert(rules[i] == init[i]);
        } else {
            assert forall|j: int| 0 <= j < rules.len() - 1 implies #[trigger] rules[j].projection_id != key by {
                assert(init[j] == rules[j]);
            }
        }
    }
}

proof fn lemma_report_index(reports: Seq<MatterAttributeReport>, path: MatterAttributePath)
    ensures
        report_index(reports, path) matches Some(i) ==> 0 <= i < reports.len() && reports[i].path == path
            && forall|j: int| 0 <= j < i ==> #[trigger] reports[j].path != path,
        report_index(reports, path) is None ==> forall|j: int| 0 <= j < reports.len() ==> #[trigger] reports[j].path != path,
    decreases reports.len(),
{
    if reports.len() > 0 {
        let init = reports.drop_last();
        lemma_report_index(init, path);
        assert forall|j: int| 0 <= j < reports.len() - 1 implies init[j] == reports[j] by {}
        if let Some(i) = report_index(init, path) {
            assert(reports[i] == init[i]);
        } else {
            assert forall|j: int| 0 <= j < reports.len() - 1 implies #[trigger] reports[j].path != path by {
                assert(init[j] == reports[j]);
            }
        }
    }
}

fn find_rule(rules: &Vec<MatterCapabilityProjection>, key: MatterProjectionKey) -> (r: Option<usize>)
    ensures
        r matches Some(i) ==> i < rules@.len(),
        match r {
            Some(i) => rule_index(rules@, key) == Some(i as int),
            None => rule_index(rules@, key) is None,
        },
{
    proof {
        lemma_rule_index(rules@, key);
    }
    let mut i: usize = 0;
    while i < rules.len()
        invariant
            i <= rules@.len(),
            forall|j: int| 0 <= j < i ==> #[trigger] rules@[j].projection_id != key,
        decreases rules@.len() - i,
    {
        if rules[i].projection_id == key {
            proof {
                lemma_rule_index(rules@, key);
                assert(rules@[i as int].projection_id == key);
                if let Some(k) = rule_index(rules@, key) {
                    if k < i {
                        assert(rules@[k].projection_id == key);
                    }
                }
            }
            return Some(i);
        }
        i = i + 1;
    }
    proof {
        lemma_rule_index(rules@, key);
        if let Some(k) = rule_index(rules@, key) {
            assert(rules@[k].projection_id != key);
        }
    }
    None
}

fn find_report(reports: &Vec<MatterAttributeReport>, path: MatterAttributePath) -> (r: Option<usize>)
    ensures
        r matches Some(i) ==> i < reports@.len(),
        match r {
            Some(i) => report_index(reports@, path) == Some(i as int),
            None => report_index(reports@, path) is None,
        },
{
    proof {
        lemma_report_index(reports@, path);
    }
    let mut i: usize = 0;
    while i < reports.len()
        invariant
            i <= reports@.len(),
            forall|j: int| 0 <= j < i ==> #[trigger] reports@[j].path != path,
        decreases reports@.len() - i,
    {
        if reports[i].path == path {
            proof {
                lemma_report_index(reports@, path);
                assert(reports@[i as int].path == path);
                if let Some(k) = report_index(reports@, path) {
                    if k < i {
                        assert(reports@[k].path == path);
                    }
                }
            }
            return Some(i);
        }
        i = i + 1;
    }
    proof {
        lemma_report_index(reports@, path);
        if let Some(k) = report_index(reports@, path) {
            assert(reports@[k].path != path);
        }
    }
    None
}

/// The report a gap read returned for `path`: the first one with that path,
/// none when the read failed or returned none for it.
pub open spec fn gap_report(reports: Option<Seq<MatterAttributeReport>>, path: MatterAttributePath) -> Option<
    MatterAttributeReport,
> {
    match reports {
        None => None,
        Some(rs) => match report_index(rs, path) {
            Some(i) => Some(rs[i]),
            None => None,
        },
    }
}

/// Projected state refreshed by reported state that carries no desired revision.
pub open spec fn refreshed_state(state: MatterProjectedState, reported: MatterReportedState) -> MatterProjectedState {
    let (confirmed, convergence) = convergence_after_report(state, reported, None);
    MatterProjectedState {
        projection_id: state.projection_id,
        desired: state.desired,
        reported: Some(reported),
        confirmed_revision: confirmed,
        freshness: MatterStateFreshness::Fresh,
        convergence,
        uncertainty: None,
    }
}

/// Projected state after a gap read: a missing report marks it stale because
/// the read failed; a rejected report leaves it; a repeated report refreshes it
/// with its current reported state; a new report refreshes it with the state
/// the report establishes.
pub open spec fn gap_read_state(
    rule: MatterCapabilityProjection,
    report: Option<MatterAttributeReport>,
    now: i64,
    state: MatterProjectedState,
) -> MatterProjectedState {
    match report {
        None => MatterProjectedState {
            freshness: MatterStateFreshness::Stale,
            convergence: if state.convergence == MatterConvergence::Confirmed && state.desired is Some {
                MatterConvergence::Pending
            } else {
                state.convergence
            },
            uncertainty: Some(MatterStateUncertainty::ReadFailed),
            ..state
        },
        Some(rep) => match report_rejection(rule, rep, now, state.reported) {
            Some(_) => state,
            None => if report_is_duplicate(rep, state.reported) {
                match state.reported {
                    Some(current) => refreshed_state(state, current),
                    None => state,
                }
            } else {
                refreshed_state(state, applied_state(rule, rep, now))
            },
        },
    }
}

/// The projection row a gap read writes: its refreshed state, the next revision
/// and the read instant.
pub open spec fn gap_read_row(
    row: StoredMatterProjection,
    rule: MatterCapabilityProjection,
    reports: Option<Seq<MatterAttributeReport>>,
    now: i64,
) -> StoredMatterProjection {
    StoredMatterProjection {
        state: gap_read_state(rule, gap_report(reports, rule.report_path), now, row.state),
        revision: next_revision(row.revision),
        updated_at: now,
        ..row
    }
}

/// One projection row a gap read writes, with the revision it was read at.
#[derive(Clone, Debug)]
pub struct GapReadUpdate {
    pub projection: StoredMatterProjection,
    pub expected_revision: u64,
}

/// The view of the reports a gap read returned, if any.
pub open spec fn reports_view(reports: Option<&Vec<MatterAttributeReport>>) -> Option<Seq<MatterAttributeReport>> {
    match reports {
        Some(v) => Some(v@),
        None => None,
    }
}

fn gap_read_projection(
    row: &StoredMatterProjection,
    rule: &MatterCapabilityProjection,
    reports: Option<&Vec<MatterAttributeReport>>,
    now: i64,
) -> (r: StoredMatterProjection)
    ensures
        r == gap_read_row(*row, *rule, reports_view(reports), now),
{
    let report: Option<&MatterAttributeReport> = match reports {
        Some(rs) => match find_report(rs, rule.report_path) {
            Some(j) => Some(&rs[j]),
            None => None,
        },
        None => None,
    };
    let state = match report {
        None => mark_matter_projection_stale(&row.state, MatterStateUncertainty::ReadFailed),
        Some(report) => {
            let causation = MatterReportCausation { common: None, desired_revision: None };
            let current = match &row.state.reported {
                Some(c) => Some(c),
                None => None,
            };
            let decision = normalize_matter_report(
                rule,
                report,
                now,
                current,
                ObservationSourceKind::RefreshFallback,
                MatterReportCausation { common: None, desired_revision: None },
            );
            match decision {
                MatterReportDecision::Applied { reported, .. } => advance_matter_projected_state(
                    &row.state,
                    reported,
                    &causation,
                ),
                MatterReportDecision::Duplicate => match row.state.reported {
                    Some(reported) => advance_matter_projected_state(&row.state, reported, &causation),
                    None => row.state,
                },
                MatterReportDecision::Rejected(_) => row.state,
            }
        },
    };
    StoredMatterProjection {
        installation_id: row.installation_id,
        fabric_id: row.fabric_id,
        node_id: row.node_id,
        endpoint_number: row.endpoint_number,
        projection_id: row.projection_id,
        device_id: row.device_id,
        endpoint: row.endpoint,
        capability_schema: row.capability_schema,
        projection_revision: row.projection_revision,
        state,
        revision: row.revision.saturating_add(1),
        updated_at: now,
    }
}

/// Applies a gap read to every stored projection of a node, in order. Each row
/// is matched to its current projection rule and to the first report for the
/// rule's attribute path (`reports` is `None` when the read failed); its state
/// is refreshed or marked stale, its revision advances and it is stamped `now`.
/// A row without a rule makes the whole read fail with `InvalidProjection`.
pub fn apply_gap_read(
    rows: &Vec<StoredMatterProjection>,
    rules: &Vec<MatterCapabilityProjection>,
    reports: Option<&Vec<MatterAttributeReport>>,
    now: i64,
) -> (r: Result<Vec<GapReadUpdate>, MatterSubscriptionRepairError>)
    ensures
        r is Ok <==> forall|i: int| 0 <= i < rows@.len() ==> #[trigger] rule_index(rules@, rows@[i].projection_id) is Some,
        r matches Err(e) ==> e is InvalidProjection,
        r matches Ok(updates) ==> {
            &&& updates@.len() == rows@.len()
            &&& forall|i: int| 0 <= i < rows@.len() ==> {
                &&& #[trigger] updates@[i].expected_revision == rows@[i].revision
                &&& rule_index(rules@, rows@[i].projection_id) matches Some(k) && updates@[i].projection
                    == gap_read_row(rows@[i], rules@[k], reports_view(reports), now)
            }
        },
{
    let mut updates: Vec<GapReadUpdate> = Vec::new();
    let mut i: usize = 0;
    while i < rows.len()
        invariant
            i <= rows@.len(),
            updates@.len() == i,
            forall|j: int| 0 <= j < i ==> #[trigger] rule_index(rules@, rows@[j].projection_id) is Some,
            forall|j: int| 0 <= j < i ==> {
                &&& #[trigger] updates@[j].expected_revision == rows@[j].revision
                &&& rule_index(rules@, rows@[j].projection_id) matches Some(k) && updates@[j].projection
                    == gap_read_row(rows@[j], rules@[k], reports_view(reports), now)
            },
        decreases rows@.len() - i,
    {
        let k = match find_rule(rules, rows[i].projection_id) {
            Some(k) => k,
            None => {
                proof {
                    lemma_rule_index(rules@, rows@[i as int].projection_id);
                }
                return Err(MatterSubscriptionRepairError::InvalidProjection);
            },
        };
        proof {
            lemma_rule_index(rules@, rows@[i as int].projection_id);
        }
        let projection = gap_read_projection(&rows[i], &rules[k], reports, now);
        let ghost before = updates@;
        updates.push(GapReadUpdate { projection, expected_revision: rows[i].revision });
        assert forall|j: int| 0 <= j < i + 1 implies {
            &&& #[trigger] updates@[j].expected_revision == rows@[j].revision
            &&& rule_index(rules@, rows@[j].projection_id) matches Some(k) && updates@[j].projection
                == gap_read_row(rows@[j], rules@[k], reports_view(reports), now)
        } by {
            if j < i {
                assert(updates@[j] == before[j]);
            }
        }
        i = i + 1;
    }
    Ok(updates)
}

} // verus!
