//! Deterministic bounded recovery planning for logical Matter subscriptions.

use vstd::prelude::*;
use vstd::string::StringSliceAdditionalSpecFns;
use vstd::utf8::encode_utf8;

use crate::digest::{sha256, sha256_of};
use crate::matter_controller::{
    MatterAttributeSelection, MatterReadRequest, MatterSubscriptionRequest, subscription_interval_valid,
};
use crate::time::{add_millis, utc_add_millis, utc_sum_in_range};

verus! {

/// Fixed resource policy for one subscription-recovery cycle.
#[derive(Clone, Copy, Debug, PartialEq, Eq, Structural)]
pub struct MatterSubscriptionRecoveryPolicy {
    /// Maximum subscribe calls before operator repair is required.
    pub maximum_subscribe_attempts: u8,
    /// Maximum bounded reads used to close one notification gap.
    pub maximum_gap_reads: u8,
    /// Initial retry delay.
    pub base_delay_millis: u64,
    /// Hard retry-delay ceiling, including deterministic jitter.
    pub maximum_delay_millis: u64,
    /// Maximum deterministic jitter added to a retry.
    pub jitter_millis: u64,
    /// Minimum interval between explicit reads for sleepy devices.
    pub sleepy_read_interval_millis: u64,
}

/// Invalid recovery resource policy.
#[derive(Clone, Copy, Debug, PartialEq, Eq, Structural)]
pub struct MatterSubscriptionRecoveryPolicyError;

/// Whether the recovery bounds are finite and ordered.
pub open spec fn recovery_policy_valid(p: MatterSubscriptionRecoveryPolicy) -> bool {
    &&& p.maximum_subscribe_attempts != 0
    &&& p.maximum_gap_reads != 0
    &&& p.base_delay_millis != 0
    &&& p.maximum_delay_millis >= p.base_delay_millis
    &&& p.jitter_millis <= p.maximum_delay_millis
    &&& p.sleepy_read_interval_millis != 0
}

impl MatterSubscriptionRecoveryPolicy {
    /// Creates a validated bounded recovery policy.
    pub fn new(
        maximum_subscribe_attempts: u8,
        maximum_gap_reads: u8,
        base_delay_millis: u64,
        maximum_delay_millis: u64,
        jitter_millis: u64,
        sleepy_read_interval_millis: u64,
    ) -> (r: Result<Self, MatterSubscriptionRecoveryPolicyError>)
        ensures
            ({
                let p = MatterSubscriptionRecoveryPolicy {
                    maximum_subscribe_attempts,
                    maximum_gap_reads,
                    base_delay_millis,
                    maximum_delay_millis,
                    jitter_millis,
                    sleepy_read_interval_millis,
                };
                &&& r is Ok <==> recovery_policy_valid(p)
                &&& r matches Ok(q) ==> q == p
            }),
    {
        if maximum_subscribe_attempts == 0 || maximum_gap_reads == 0 || base_delay_millis == 0
            || maximum_delay_millis < base_delay_millis || jitter_millis > maximum_delay_millis
            || sleepy_read_interval_millis == 0 {
            return Err(MatterSubscriptionRecoveryPolicyError);
        }
        Ok(MatterSubscriptionRecoveryPolicy {
            maximum_subscribe_attempts,
            maximum_gap_reads,
            base_delay_millis,
            maximum_delay_millis,
            jitter_millis,
            sleepy_read_interval_millis,
        })
    }
}

impl Default for MatterSubscriptionRecoveryPolicy {
    /// Five attempts, one gap read, 500 ms base, 30 s ceiling, 250 ms jitter, 60 s sleepy interval.
    fn default() -> (p: Self)
        ensures
            p.maximum_subscribe_attempts == 5,
            p.maximum_gap_reads == 1,
            p.base_delay_millis == 500,
            p.maximum_delay_millis == 30_000,
            p.jitter_millis == 250,
            p.sleepy_read_interval_millis == 60_000,
            recovery_policy_valid(p),
    {
        MatterSubscriptionRecoveryPolicy {
            maximum_subscribe_attempts: 5,
            maximum_gap_reads: 1,
            base_delay_millis: 500,
            maximum_delay_millis: 30_000,
            jitter_millis: 250,
            sleepy_read_interval_millis: 60_000,
        }
    }
}

/// Stable reason a subscription stopped delivering reports.
#[derive(Clone, Copy, Debug, PartialEq, Eq, Structural)]
pub enum MatterSubscriptionLossReason {
    /// The controller process restarted while the subscription was established.
    ControllerRestarted,
    /// Reports stopped arriving within the expected interval.
    ReportGap,
}

/// Durable state of one logical subscription.
#[derive(Clone, Copy, Debug, PartialEq, Eq, Structural)]
pub enum StoredMatterSubscriptionState {
    Pending,
    Established,
    Stale,
    RepairRequired,
}

/// One deterministic action emitted by the recovery machine.
#[derive(Clone, Debug)]
pub enum MatterSubscriptionRecoveryAction {
    /// Persist subscription and affected projections as stale first.
    MarkStale { reason: MatterSubscriptionLossReason },
    /// Perform one bounded targeted read to close the report gap.
    GapRead(MatterReadRequest),
    /// Restore the durable logical subscription through a new session handle.
    Resubscribe(MatterSubscriptionRequest),
    /// Do no I/O until the deterministic retry deadline.
    WaitUntil(i64),
    /// Recovery exhausted its fixed resource budget.
    RepairRequired,
    /// Reports are expected again.
    Complete,
}

/// Outcome fed back after executing the current recovery action.
#[derive(Clone, Copy, Debug, PartialEq, Eq, Structural)]
pub enum MatterSubscriptionRecoveryOutcome {
    StalePersisted,
    GapReadCompleted,
    GapReadFailed,
    Resubscribed,
    ResubscribeFailed,
}

/// Invalid recovery-machine transition.
#[derive(Clone, Copy, Debug, PartialEq, Eq, Structural)]
pub enum MatterSubscriptionRecoveryError {
    /// Outcome did not match the action currently awaiting completion.
    UnexpectedOutcome,
}

/// Phase of the recovery machine.
#[derive(Clone, Copy, Debug, PartialEq, Eq, Structural)]
pub enum RecoveryPhase {
    MarkStale,
    GapRead,
    Resubscribe,
    Waiting,
    Complete,
    RepairRequired,
}

/// ASCII decimal digits of a byte value, without leading zeros.
pub open spec fn decimal_text(n: u8) -> Seq<u8> {
    if n >= 100 {
        seq![(48 + n / 100) as u8, (48 + (n / 10) % 10) as u8, (48 + n % 10) as u8]
    } else if n >= 10 {
        seq![(48 + n / 10) as u8, (48 + n % 10) as u8]
    } else {
        seq![(48 + n) as u8]
    }
}

/// Big-endian value of a byte string.
pub open spec fn be_value(bytes: Seq<u8>) -> nat
    decreases bytes.len(),
{
    if bytes.len() == 0 {
        0
    } else {
        (be_value(bytes.drop_last()) * 256 + bytes.last()) as nat
    }
}

/// Jitter for one retry: the leading eight digest bytes of `"{id}:{attempt}"`
/// reduced modulo `maximum + 1` (saturating), or zero without jitter.
pub open spec fn jitter_for(id: Seq<u8>, attempt: u8, maximum: u64) -> u64 {
    if maximum == 0 {
        0
    } else {
        let modulus: int = if maximum == u64::MAX { u64::MAX as int } else { maximum + 1 };
        (be_value(sha256_of(id + seq![58u8] + decimal_text(attempt)).take(8)) % (modulus as nat)) as u64
    }
}

fn decimal_bytes(n: u8) -> (v: Vec<u8>)
    ensures
        v@ == decimal_text(n),
{
    let mut v: Vec<u8> = Vec::new();
    if n >= 100 {
        v.push(48 + n / 100);
        v.push(48 + (n / 10) % 10);
        v.push(48 + n % 10);
    } else if n >= 10 {
        v.push(48 + n / 10);
        v.push(48 + n % 10);
    } else {
        v.push(48 + n);
    }
    assert(v@ =~= decimal_text(n));
    v
}

proof fn lemma_be_value_bound(bytes: Seq<u8>, k: nat)
    requires
        bytes.len() == k,
        k <= 8,
    ensures
        be_value(bytes) < pow256(k),
    decreases k,
{
    if k > 0 {
        lemma_be_value_bound(bytes.drop_last(), (k - 1) as nat);
        assert(be_value(bytes.drop_last()) * 256 + bytes.last() < pow256(k)) by (nonlinear_arith)
            requires
                be_value(bytes.drop_last()) < pow256((k - 1) as nat),
                bytes.last() < 256,
                pow256(k) == pow256((k - 1) as nat) * 256,
        ;
    }
}

/// `256^k`.
pub open spec fn pow256(k: nat) -> nat
    decreases k,
{
    if k == 0 {
        1
    } else {
        pow256((k - 1) as nat) * 256
    }
}

fn be_u64(bytes: &Vec<u8>) -> (v: u64)
    requires
        bytes@.len() >= 8,
    ensures
        v == be_value(bytes@.take(8)),
{
    let mut v: u64 = 0;
    let mut i: usize = 0;
    assert(pow256(8) == 18446744073709551616) by {
        reveal_with_fuel(pow256, 9);
    }
    while i < 8
        invariant
            i <= 8,
            bytes@.len() >= 8,
            v == be_value(bytes@.take(i as int)),
            v < pow256(i as nat),
            pow256(8) == 18446744073709551616,
        decreases 8 - i,
    {
        proof {
            lemma_pow256_monotonic(i as nat, 7);
            assert(bytes@.take(i + 1).drop_last() =~= bytes@.take(i as int));
            lemma_be_value_bound(bytes@.take(i + 1), (i + 1) as nat);
            lemma_pow256_monotonic((i + 1) as nat, 8);
        }
        v = v * 256 + bytes[i] as u64;
        i = i + 1;
    }
    v
}

proof fn lemma_pow256_monotonic(a: nat, b: nat)
    requires
        a <= b,
    ensures
        pow256(a) <= pow256(b),
    decreases b,
{
    if a < b {
        lemma_pow256_monotonic(a, (b - 1) as nat);
    }
}

/// Deterministic per-attempt jitter derived from the subscription identity.
pub fn deterministic_jitter(subscription_id: &str, attempt: u8, maximum: u64) -> (j: u64)
    ensures
        j == jitter_for(subscription_id.spec_bytes(), attempt, maximum),
        j <= maximum,
{
    if maximum == 0 {
        return 0;
    }
    let mut text: Vec<u8> = Vec::new();
    let id = subscription_id.as_bytes();
    let mut i: usize = 0;
    while i < id.len()
        invariant
            i <= id@.len(),
            text@ == id@.take(i as int),
        decreases id@.len() - i,
    {
        text.push(id[i]);
        i = i + 1;
    }
    assert(id@.take(id@.len() as int) =~= id@);
    text.push(58u8);
    let mut digits = decimal_bytes(attempt);
    text.append(&mut digits);
    assert(text@ =~= subscription_id.spec_bytes() + seq![58u8] + decimal_text(attempt));
    let digest = sha256(text.as_slice());
    let value = be_u64(&digest);
    let modulus = maximum.saturating_add(1);
    value % modulus
}

/// Restart-safe deterministic recovery state machine.
#[derive(Clone, Debug)]
pub struct MatterSubscriptionRecovery {
    subscription_id: String,
    fabric_id: u64,
    node_id: u64,
    selection: MatterAttributeSelection,
    minimum_interval_millis: u64,
    maximum_interval_millis: u64,
    loss_reason: MatterSubscriptionLossReason,
    sleepy: bool,
    last_gap_read_at: Option<i64>,
    gap_reads: u8,
    subscribe_attempts: u8,
    retry_at: Option<i64>,
    phase: RecoveryPhase,
    policy: MatterSubscriptionRecoveryPolicy,
}

/// Exponential retry delay before jitter: `base * 2^min(attempts - 1, 31)`, saturating.
pub open spec fn backoff_base(base: u64, attempts: u8) -> u64 {
    let exponent: nat = if attempts == 0 { 0 } else { vstd::math::min((attempts - 1) as int, 31) as nat };
    let product: int = base * vstd::arithmetic::power2::pow2(exponent) as int;
    if product > u64::MAX { u64::MAX } else { product as u64 }
}

/// The retry delay: backoff plus jitter, saturating, capped by the maximum delay.
pub open spec fn retry_delay_for(policy: MatterSubscriptionRecoveryPolicy, id: Seq<u8>, attempts: u8) -> u64 {
    let sum: int = backoff_base(policy.base_delay_millis, attempts) + jitter_for(id, attempts, policy.jitter_millis);
    let capped: int = if sum > u64::MAX { u64::MAX as int } else { sum };
    vstd::math::min(capped, policy.maximum_delay_millis as int) as u64
}

impl MatterSubscriptionRecovery {
    pub closed spec fn phase(&self) -> RecoveryPhase {
        self.phase
    }

    pub closed spec fn gap_reads(&self) -> u8 {
        self.gap_reads
    }

    pub closed spec fn subscribe_attempts(&self) -> u8 {
        self.subscribe_attempts
    }

    pub closed spec fn retry_at(&self) -> Option<i64> {
        self.retry_at
    }

    pub closed spec fn last_gap_read_at(&self) -> Option<i64> {
        self.last_gap_read_at
    }

    pub closed spec fn policy(&self) -> MatterSubscriptionRecoveryPolicy {
        self.policy
    }

    pub closed spec fn loss_reason(&self) -> MatterSubscriptionLossReason {
        self.loss_reason
    }

    pub closed spec fn sleepy(&self) -> bool {
        self.sleepy
    }

    pub closed spec fn subscription_id(&self) -> Seq<char> {
        self.subscription_id@
    }

    pub closed spec fn subscription_id_bytes(&self) -> Seq<u8> {
        encode_utf8(self.subscription_id@)
    }

    pub closed spec fn fabric_id(&self) -> u64 {
        self.fabric_id
    }

    pub closed spec fn node_id(&self) -> u64 {
        self.node_id
    }

    pub closed spec fn selection(&self) -> Seq<crate::matter_controller::MatterAttributePath> {
        self.selection@
    }

    pub closed spec fn minimum_interval(&self) -> u64 {
        self.minimum_interval_millis
    }

    pub closed spec fn maximum_interval(&self) -> u64 {
        self.maximum_interval_millis
    }

    /// Identity, request shape, and policy do not change across transitions.
    /// Whether the stored intervals make a valid resubscription request.
    pub open spec fn intervals_valid(&self) -> bool {
        subscription_interval_valid(self.minimum_interval(), self.maximum_interval())
    }

    /// The phase a due resubscription leads to: the request itself, or operator repair
    /// when the stored intervals cannot make one.
    pub open spec fn resubscribe_phase(&self) -> RecoveryPhase {
        if self.intervals_valid() {
            RecoveryPhase::Resubscribe
        } else {
            RecoveryPhase::RepairRequired
        }
    }

    pub open spec fn same_identity(&self, other: &Self) -> bool {
        &&& self.subscription_id() == other.subscription_id()
        &&& self.subscription_id_bytes() == other.subscription_id_bytes()
        &&& self.fabric_id() == other.fabric_id()
        &&& self.node_id() == other.node_id()
        &&& self.selection() == other.selection()
        &&& self.minimum_interval() == other.minimum_interval()
        &&& self.maximum_interval() == other.maximum_interval()
        &&& self.loss_reason() == other.loss_reason()
        &&& self.sleepy() == other.sleepy()
        &&& self.policy() == other.policy()
    }

    /// Recovery stays inside its fixed budget: at most one gap read per cycle, and
    /// fewer failed subscribe attempts than the policy allows unless repair is required;
    /// repair is required only once the attempts are spent or the stored intervals
    /// cannot make a resubscription request.
    pub open spec fn within_budget(&self) -> bool {
        &&& self.gap_reads() <= 1
        &&& self.phase() != RecoveryPhase::RepairRequired ==> self.subscribe_attempts()
            < self.policy().maximum_subscribe_attempts
        &&& self.phase() == RecoveryPhase::RepairRequired ==> (self.subscribe_attempts()
            >= self.policy().maximum_subscribe_attempts || !self.intervals_valid())
        &&& (self.phase() == RecoveryPhase::MarkStale || self.phase() == RecoveryPhase::GapRead) ==> self.gap_reads() == 0
    }

    /// Whether a gap read may be issued at `now`.
    pub open spec fn gap_read_allowed_at(&self, now: i64) -> bool {
        &&& self.gap_reads() < self.policy().maximum_gap_reads
        &&& (!self.sleepy() || match self.last_gap_read_at() {
            None => true,
            Some(last) => match utc_add_millis(last, self.policy().sleepy_read_interval_millis) {
                None => true,
                Some(allowed_at) => now >= allowed_at,
            },
        })
    }

    /// Starts recovery after an observed loss.
    pub fn after_loss(
        subscription_id: String,
        fabric_id: u64,
        node_id: u64,
        selection: MatterAttributeSelection,
        minimum_interval_millis: u64,
        maximum_interval_millis: u64,
        reason: MatterSubscriptionLossReason,
        sleepy: bool,
        last_gap_read_at: Option<i64>,
        policy: MatterSubscriptionRecoveryPolicy,
    ) -> (r: Self)
        ensures
            r.phase() == RecoveryPhase::MarkStale,
            r.gap_reads() == 0,
            r.subscribe_attempts() == 0,
            r.retry_at() is None,
            r.last_gap_read_at() == last_gap_read_at,
            r.policy() == policy,
            r.loss_reason() == reason,
            r.sleepy() == sleepy,
            r.subscription_id() == subscription_id@,
            r.subscription_id_bytes() == encode_utf8(subscription_id@),
            r.fabric_id() == fabric_id,
            r.node_id() == node_id,
            r.selection() == selection@,
            r.minimum_interval() == minimum_interval_millis,
            r.maximum_interval() == maximum_interval_millis,
            policy.maximum_subscribe_attempts > 0 ==> r.within_budget(),
    {
        MatterSubscriptionRecovery {
            subscription_id,
            fabric_id,
            node_id,
            selection,
            minimum_interval_millis,
            maximum_interval_millis,
            loss_reason: reason,
            sleepy,
            last_gap_read_at,
            gap_reads: 0,
            subscribe_attempts: 0,
            retry_at: None,
            phase: RecoveryPhase::MarkStale,
            policy,
        }
    }

    /// Restores bounded work from a durable subscription: an established one
    /// lost its session to a controller restart, any other has a report gap.
    pub fn from_stored(
        subscription_id: String,
        fabric_id: u64,
        node_id: u64,
        state: StoredMatterSubscriptionState,
        selection: MatterAttributeSelection,
        minimum_interval_millis: u64,
        maximum_interval_millis: u64,
        sleepy: bool,
        policy: MatterSubscriptionRecoveryPolicy,
    ) -> (r: Self)
        ensures
            r.phase() == RecoveryPhase::MarkStale,
            r.gap_reads() == 0,
            r.subscribe_attempts() == 0,
            r.retry_at() is None,
            r.last_gap_read_at() is None,
            r.policy() == policy,
            r.loss_reason() == (if state == StoredMatterSubscriptionState::Established {
                MatterSubscriptionLossReason::ControllerRestarted
            } else {
                MatterSubscriptionLossReason::ReportGap
            }),
            r.sleepy() == sleepy,
            r.subscription_id() == subscription_id@,
            r.subscription_id_bytes() == encode_utf8(subscription_id@),
            r.fabric_id() == fabric_id,
            r.node_id() == node_id,
            r.selection() == selection@,
            r.minimum_interval() == minimum_interval_millis,
            r.maximum_interval() == maximum_interval_millis,
            policy.maximum_subscribe_attempts > 0 ==> r.within_budget(),
    {
        let reason = if state == StoredMatterSubscriptionState::Established {
            MatterSubscriptionLossReason::ControllerRestarted
        } else {
            MatterSubscriptionLossReason::ReportGap
        };
        Self::after_loss(
            subscription_id,
            fabric_id,
            node_id,
            selection,
            minimum_interval_millis,
            maximum_interval_millis,
            reason,
            sleepy,
            None,
            policy,
        )
    }

    fn gap_read_allowed(&self, now: i64) -> (b: bool)
        ensures
            b == self.gap_read_allowed_at(now),
    {
        if self.gap_reads >= self.policy.maximum_gap_reads {
            return false;
        }
        if !self.sleepy {
            return true;
        }
        match self.last_gap_read_at {
            None => true,
            Some(last) => match add_millis(last, self.policy.sleepy_read_interval_millis) {
                None => true,
                Some(allowed_at) => now >= allowed_at,
            },
        }
    }

    fn retry_delay_millis(&self) -> (d: u64)
        ensures
            d == retry_delay_for(self.policy(), self.subscription_id_bytes(), self.subscribe_attempts()),
            d <= self.policy().maximum_delay_millis,
    {
        let exponent: u32 = if self.subscribe_attempts == 0 {
            0
        } else if self.subscribe_attempts - 1 > 31 {
            31
        } else {
            (self.subscribe_attempts - 1) as u32
        };
        let factor: u64 = 1u64 << exponent;
        proof {
            vstd::arithmetic::power2::lemma2_to64();
            if exponent < 31 {
                vstd::arithmetic::power2::lemma_pow2_strictly_increases(exponent as nat, 31);
            }
            vstd::bits::lemma_u64_shl_is_mul(1u64, exponent as u64);
            vstd::arithmetic::power2::lemma_pow2_pos(exponent as nat);
        }
        let base = match self.policy.base_delay_millis.checked_mul(factor) {
            Some(v) => v,
            None => u64::MAX,
        };
        let jitter = deterministic_jitter(self.subscription_id.as_str(), self.subscribe_attempts, self.policy.jitter_millis);
        let total = base.saturating_add(jitter);
        if total < self.policy.maximum_delay_millis {
            total
        } else {
            self.policy.maximum_delay_millis
        }
    }

    /// Returns the next bounded action at an explicit evaluation time.
    ///
    /// A waiting machine keeps waiting until its retry deadline and then resubscribes;
    /// a gap read is issued only while its budget (and the sleepy-read spacing) allows.
    pub fn next_action(&mut self, now: i64) -> (a: MatterSubscriptionRecoveryAction)
        ensures
            final(self).same_identity(old(self)),
            final(self).gap_reads() == old(self).gap_reads(),
            final(self).subscribe_attempts() == old(self).subscribe_attempts(),
            final(self).retry_at() == old(self).retry_at(),
            final(self).last_gap_read_at() == old(self).last_gap_read_at(),
            old(self).phase() == RecoveryPhase::Waiting ==> match old(self).retry_at() {
                Some(t) if now < t => final(self).phase() == RecoveryPhase::Waiting && a == MatterSubscriptionRecoveryAction::WaitUntil(t),
                _ => final(self).phase() == old(self).resubscribe_phase(),
            },
            old(self).phase() == RecoveryPhase::Resubscribe ==> final(self).phase() == old(self).resubscribe_phase(),
            old(self).phase() != RecoveryPhase::Waiting && old(self).phase() != RecoveryPhase::Resubscribe
                ==> final(self).phase() == old(self).phase(),
            final(self).phase() == RecoveryPhase::MarkStale ==> a == (MatterSubscriptionRecoveryAction::MarkStale { reason: old(self).loss_reason() }),
            final(self).phase() == RecoveryPhase::GapRead ==> (if old(self).gap_read_allowed_at(now) {
                a matches MatterSubscriptionRecoveryAction::GapRead(r) && r.fabric_id == old(self).fabric_id()
                    && r.node_id == old(self).node_id() && r.selection@ == old(self).selection()
            } else {
                a == MatterSubscriptionRecoveryAction::WaitUntil(match old(self).last_gap_read_at() {
                    Some(last) => match utc_add_millis(last, old(self).policy().sleepy_read_interval_millis) {
                        Some(t) => t,
                        None => now,
                    },
                    None => now,
                })
            }),
            final(self).phase() == RecoveryPhase::Resubscribe ==> (a matches MatterSubscriptionRecoveryAction::Resubscribe(r)
                && r.subscription_id@ == old(self).subscription_id() && r.fabric_id == old(self).fabric_id()
                && r.node_id == old(self).node_id() && r.selection@ == old(self).selection()
                && r.minimum_interval_millis == old(self).minimum_interval()
                && r.maximum_interval_millis == old(self).maximum_interval()),
            final(self).phase() == RecoveryPhase::GapRead && !old(self).gap_read_allowed_at(now) ==> (old(self).last_gap_read_at() matches Some(
                last,
            ) ==> (utc_sum_in_range(last as int, old(self).policy().sleepy_read_interval_millis as int) ==> a
                == MatterSubscriptionRecoveryAction::WaitUntil((last + old(self).policy().sleepy_read_interval_millis) as i64))),
            final(self).phase() == RecoveryPhase::Complete ==> a == MatterSubscriptionRecoveryAction::Complete,
            final(self).phase() == RecoveryPhase::RepairRequired ==> a == MatterSubscriptionRecoveryAction::RepairRequired,
            old(self).within_budget() ==> final(self).within_budget(),
    {
        if self.phase == RecoveryPhase::Waiting {
            if let Some(retry_at) = self.retry_at {
                if now < retry_at {
                    return MatterSubscriptionRecoveryAction::WaitUntil(retry_at);
                }
            }
            self.phase = RecoveryPhase::Resubscribe;
        }
        match self.phase {
            RecoveryPhase::MarkStale => MatterSubscriptionRecoveryAction::MarkStale { reason: self.loss_reason },
            RecoveryPhase::GapRead => {
                if self.gap_read_allowed(now) {
                    MatterSubscriptionRecoveryAction::GapRead(
                        MatterReadRequest {
                            fabric_id: self.fabric_id,
                            node_id: self.node_id,
                            selection: self.selection.duplicate(),
                        },
                    )
                } else {
                    let retry_at = match self.last_gap_read_at {
                        Some(last) => match add_millis(last, self.policy.sleepy_read_interval_millis) {
                            Some(t) => t,
                            None => now,
                        },
                        None => now,
                    };
                    MatterSubscriptionRecoveryAction::WaitUntil(retry_at)
                }
            },
            RecoveryPhase::Resubscribe => {
                let request = MatterSubscriptionRequest::new(
                    self.subscription_id.clone(),
                    self.fabric_id,
                    self.node_id,
                    self.selection.duplicate(),
                    self.minimum_interval_millis,
                    self.maximum_interval_millis,
                );
                match request {
                    Ok(r) => MatterSubscriptionRecoveryAction::Resubscribe(r),
                    Err(_) => {
                        self.phase = RecoveryPhase::RepairRequired;
                        MatterSubscriptionRecoveryAction::RepairRequired
                    },
                }
            },
            RecoveryPhase::Waiting => MatterSubscriptionRecoveryAction::WaitUntil(now),
            RecoveryPhase::Complete => MatterSubscriptionRecoveryAction::Complete,
            RecoveryPhase::RepairRequired => MatterSubscriptionRecoveryAction::RepairRequired,
        }
    }

    /// Advances the machine only with an outcome that answers its pending action.
    ///
    /// A resubscription outcome is accepted only while a resubscription request can be
    /// built from the stored intervals; any other outcome is refused and changes nothing.
    pub fn record_outcome(&mut self, outcome: MatterSubscriptionRecoveryOutcome, now: i64) -> (r: Result<
        (),
        MatterSubscriptionRecoveryError,
    >)
        ensures
            final(self).same_identity(old(self)),
            r is Ok <==> outcome_answers(old(self).phase(), old(self).intervals_valid(), outcome),
            r matches Err(e) ==> e == MatterSubscriptionRecoveryError::UnexpectedOutcome
                && *final(self) == *old(self),
            old(self).within_budget() ==> final(self).within_budget(),
            r is Ok ==> match outcome {
                MatterSubscriptionRecoveryOutcome::StalePersisted => {
                    &&& final(self).phase() == RecoveryPhase::GapRead
                    &&& final(self).gap_reads() == old(self).gap_reads()
                    &&& final(self).subscribe_attempts() == old(self).subscribe_attempts()
                    &&& final(self).retry_at() == old(self).retry_at()
                    &&& final(self).last_gap_read_at() == old(self).last_gap_read_at()
                },
                MatterSubscriptionRecoveryOutcome::GapReadCompleted | MatterSubscriptionRecoveryOutcome::GapReadFailed => {
                    &&& final(self).phase() == RecoveryPhase::Resubscribe
                    &&& final(self).gap_reads() == (if old(self).gap_reads() == u8::MAX { u8::MAX } else { (old(self).gap_reads() + 1) as u8 })
                    &&& final(self).last_gap_read_at() == Some(now)
                    &&& final(self).subscribe_attempts() == old(self).subscribe_attempts()
                    &&& final(self).retry_at() == old(self).retry_at()
                },
                MatterSubscriptionRecoveryOutcome::Resubscribed => {
                    &&& final(self).phase() == RecoveryPhase::Complete
                    &&& final(self).gap_reads() == old(self).gap_reads()
                    &&& final(self).subscribe_attempts() == old(self).subscribe_attempts()
                    &&& final(self).retry_at() == old(self).retry_at()
                    &&& final(self).last_gap_read_at() == old(self).last_gap_read_at()
                },
                MatterSubscriptionRecoveryOutcome::ResubscribeFailed => {
                    let attempts: u8 = if old(self).subscribe_attempts() == u8::MAX { u8::MAX } else { (old(self).subscribe_attempts() + 1) as u8 };
                    &&& final(self).subscribe_attempts() == attempts
                    &&& final(self).gap_reads() == old(self).gap_reads()
                    &&& final(self).last_gap_read_at() == old(self).last_gap_read_at()
                    &&& if attempts >= old(self).policy().maximum_subscribe_attempts {
                        final(self).phase() == RecoveryPhase::RepairRequired && final(self).retry_at() == old(self).retry_at()
                    } else {
                        &&& final(self).phase() == RecoveryPhase::Waiting
                        &&& final(self).retry_at() == utc_add_millis(now, retry_delay_for(old(self).policy(), old(self).subscription_id_bytes(), attempts))
                        &&& utc_sum_in_range(now as int, retry_delay_for(old(self).policy(), old(self).subscription_id_bytes(), attempts) as int)
                            ==> final(self).retry_at() == Some((now + retry_delay_for(old(self).policy(), old(self).subscription_id_bytes(), attempts)) as i64)
                    }
                },
            },
    {
        if self.phase == RecoveryPhase::Resubscribe && (self.maximum_interval_millis == 0
            || self.minimum_interval_millis > self.maximum_interval_millis) {
            return Err(MatterSubscriptionRecoveryError::UnexpectedOutcome);
        }
        match (self.phase, outcome) {
            (RecoveryPhase::MarkStale, MatterSubscriptionRecoveryOutcome::StalePersisted) => {
                self.phase = RecoveryPhase::GapRead;
            },
            (RecoveryPhase::GapRead, MatterSubscriptionRecoveryOutcome::GapReadCompleted)
            | (RecoveryPhase::GapRead, MatterSubscriptionRecoveryOutcome::GapReadFailed) => {
                self.gap_reads = self.gap_reads.saturating_add(1);
                self.last_gap_read_at = Some(now);
                self.phase = RecoveryPhase::Resubscribe;
            },
            (RecoveryPhase::Resubscribe, MatterSubscriptionRecoveryOutcome::Resubscribed) => {
                self.phase = RecoveryPhase::Complete;
            },
            (RecoveryPhase::Resubscribe, MatterSubscriptionRecoveryOutcome::ResubscribeFailed) => {
                self.subscribe_attempts = self.subscribe_attempts.saturating_add(1);
                if self.subscribe_attempts >= self.policy.maximum_subscribe_attempts {
                    self.phase = RecoveryPhase::RepairRequired;
                } else {
                    let delay = self.retry_delay_millis();
                    self.retry_at = add_millis(now, delay);
                    self.phase = RecoveryPhase::Waiting;
                }
            },
            _ => return Err(MatterSubscriptionRecoveryError::UnexpectedOutcome),
        }
        Ok(())
    }
}

/// Once recovery is complete or requires operator repair, no outcome advances it.
pub proof fn lemma_terminal_phases_absorb(
    phase: RecoveryPhase,
    intervals_valid: bool,
    outcome: MatterSubscriptionRecoveryOutcome,
)
    requires
        phase == RecoveryPhase::Complete || phase == RecoveryPhase::RepairRequired,
    ensures
        !outcome_answers(phase, intervals_valid, outcome),
{
}

/// The retry delay never exceeds the policy's hard ceiling.
pub proof fn lemma_retry_delay_capped(policy: MatterSubscriptionRecoveryPolicy, id: Seq<u8>, attempts: u8)
    ensures
        retry_delay_for(policy, id, attempts) <= policy.maximum_delay_millis,
{
}

/// A machine that stays within its budget and has spent the policy's subscribe
/// attempts requires operator repair: its next action is `RepairRequired` and
/// no outcome advances it. Recovery constructors with a nonzero attempt bound
/// start within budget, every call keeps it, and attempts never decrease, so
/// this holds after the bound's number of accepted resubscription failures.
pub proof fn lemma_spent_attempts_require_repair(r: MatterSubscriptionRecovery, outcome: MatterSubscriptionRecoveryOutcome)
    requires
        r.within_budget(),
        r.subscribe_attempts() >= r.policy().maximum_subscribe_attempts,
    ensures
        r.phase() == RecoveryPhase::RepairRequired,
        !outcome_answers(r.phase(), r.intervals_valid(), outcome),
{
}

/// Under a valid policy the wait after a failed resubscription is at least one
/// millisecond and at most the policy's maximum delay, so the machine waits
/// until an instant in `(now, now + maximum_delay_millis]`; where that instant
/// is representable the retry deadline is exactly `now` plus the delay.
pub proof fn lemma_retry_wait_window(policy: MatterSubscriptionRecoveryPolicy, id: Seq<u8>, attempts: u8, now: i64)
    requires
        recovery_policy_valid(policy),
        utc_sum_in_range(now as int, policy.maximum_delay_millis as int),
    ensures
        1 <= retry_delay_for(policy, id, attempts) <= policy.maximum_delay_millis,
        utc_sum_in_range(now as int, retry_delay_for(policy, id, attempts) as int),
        now < now + retry_delay_for(policy, id, attempts) <= now + policy.maximum_delay_millis,
{
    let exponent: nat = if attempts == 0 { 0 } else { vstd::math::min((attempts - 1) as int, 31) as nat };
    vstd::arithmetic::power2::lemma_pow2_pos(exponent);
    let p = vstd::arithmetic::power2::pow2(exponent) as int;
    let b = policy.base_delay_millis as int;
    assert(b * p >= b) by (nonlinear_arith)
        requires
            b >= 1,
            p >= 1,
    ;
}

/// Whether `outcome` answers the action pending in `phase`; a resubscription is pending
/// only while the stored intervals make a valid request.
pub open spec fn outcome_answers(
    phase: RecoveryPhase,
    intervals_valid: bool,
    outcome: MatterSubscriptionRecoveryOutcome,
) -> bool {
    match phase {
        RecoveryPhase::MarkStale => outcome == MatterSubscriptionRecoveryOutcome::StalePersisted,
        RecoveryPhase::GapRead => outcome == MatterSubscriptionRecoveryOutcome::GapReadCompleted
            || outcome == MatterSubscriptionRecoveryOutcome::GapReadFailed,
        RecoveryPhase::Resubscribe => intervals_valid && (outcome == MatterSubscriptionRecoveryOutcome::Resubscribed
            || outcome == MatterSubscriptionRecoveryOutcome::ResubscribeFailed),
        _ => false,
    }
}

} // verus!
