//! Deterministic default-deny command policy and bounded command admission.

use vstd::prelude::*;

verus! {

/// Policy revision stamped on every decision.
pub const POLICY_VERSION: u16 = 1;

/// Physical risk of one command, ordered from least to most sensitive.
#[derive(Clone, Copy, Debug, PartialEq, Eq, Structural, Hash)]
pub enum RiskClass {
    Observe,
    Comfort,
    Mechanical,
    Security,
}

/// Position of a risk class in the risk ordering.
pub open spec fn risk_rank(risk: RiskClass) -> int {
    match risk {
        RiskClass::Observe => 0,
        RiskClass::Comfort => 1,
        RiskClass::Mechanical => 2,
        RiskClass::Security => 3,
    }
}

/// A grant ceiling permits every risk at or below it.
pub open spec fn risk_permits(maximum: RiskClass, requested: RiskClass) -> bool {
    risk_rank(requested) <= risk_rank(maximum)
}

impl RiskClass {
    /// Whether a grant whose ceiling is `self` permits `requested`.
    pub fn permits(self, requested: RiskClass) -> (b: bool)
        ensures
            b == risk_permits(self, requested),
    {
        rank(requested) <= rank(self)
    }
}

fn rank(risk: RiskClass) -> (r: u8)
    ensures
        r == risk_rank(risk),
{
    match risk {
        RiskClass::Observe => 0,
        RiskClass::Comfort => 1,
        RiskClass::Mechanical => 2,
        RiskClass::Security => 3,
    }
}

/// Independently grantable action.
#[derive(Clone, Copy, Debug, PartialEq, Eq, Structural, Hash)]
pub enum CommandAction {
    Execute,
    ReadAudit,
    MatterRead,
    MatterCreateFabric,
    MatterCommissionNode,
    MatterCancelOperation,
    MatterRemoveNode,
    MatterExportFabric,
    MatterRestoreFabric,
    MatterRepairSubscription,
}

/// Freshness of the target's observed state.
#[derive(Clone, Copy, Debug, PartialEq, Eq, Structural, Hash)]
pub enum FreshnessState {
    Unknown,
    Fresh,
    Sleeping,
    Stale,
    Offline,
}

/// Whether the command's safety constraint can be checked.
#[derive(Clone, Copy, Debug, PartialEq, Eq, Structural, Hash)]
pub enum ConstraintState {
    Available,
    Unavailable,
}

/// Remaining admission capacity.
#[derive(Clone, Copy, Debug, PartialEq, Eq, Structural, Hash)]
pub enum CapacityState {
    Available,
    Exhausted,
}

/// Stable explanation attached to a policy decision.
#[derive(Clone, Copy, Debug, PartialEq, Eq, Structural, Hash)]
pub enum PolicyReason {
    ActorDisabled,
    NoMatchingGrant,
    RiskExceedsGrant,
    MechanicalGrantRequired,
    StateNotFresh,
    ConstraintUnavailable,
    SecurityExactGrantRequired,
    RateLimitExceeded,
    DeviceConcurrencyExceeded,
    AllowedByGrant,
}

/// Resource scope covered by one grant.
#[derive(Clone, Debug)]
pub enum GrantScope {
    Installation { installation_id: u64 },
    Space { space_id: u64 },
    Device { device_id: u64 },
    Capability { device_id: u64, endpoint_id: String, schema: String },
}

/// Durable actor identity.
#[derive(Clone, Debug)]
pub struct Actor {
    pub id: u64,
    pub installation_id: u64,
    pub name: String,
    pub enabled: bool,
    /// Creation time in milliseconds since the Unix epoch.
    pub created_at: i64,
}

/// One explicit actor grant.
#[derive(Clone, Debug)]
pub struct ActorGrant {
    pub id: u64,
    pub actor_id: u64,
    pub actions: Vec<CommandAction>,
    pub scope: GrantScope,
    pub maximum_risk: RiskClass,
    pub enabled: bool,
}

/// Immutable facts evaluated by the policy.
#[derive(Clone, Debug)]
pub struct PolicyInput {
    pub actor: Actor,
    pub action: CommandAction,
    pub device_id: u64,
    pub endpoint_id: String,
    pub schema: String,
    pub risk: RiskClass,
    pub spaces: Vec<u64>,
    pub freshness: FreshnessState,
    pub constraint: ConstraintState,
    pub rate_capacity: CapacityState,
    pub device_capacity: CapacityState,
    pub dry_run: bool,
    /// Evaluation time in milliseconds since the Unix epoch.
    pub evaluated_at: i64,
}

/// Explainable policy result.
#[derive(Clone, Debug)]
pub struct PolicyDecision {
    pub policy_version: u16,
    pub allowed: bool,
    /// Reasons in their fixed declaration order, each at most once.
    pub reasons: Vec<PolicyReason>,
    pub evaluated_at: i64,
}

impl PolicyDecision {
    /// Whether `reason` explains this decision.
    pub fn has_reason(&self, reason: PolicyReason) -> (b: bool)
        ensures
            b == self.reasons@.contains(reason),
    {
        let mut i: usize = 0;
        while i < self.reasons.len()
            invariant
                i <= self.reasons@.len(),
                forall|j: int| 0 <= j < i ==> self.reasons@[j] != reason,
            decreases self.reasons@.len() - i,
        {
            if self.reasons[i] == reason {
                return true;
            }
            i = i + 1;
        }
        false
    }
}

/// Whether a grant scope covers the input's target.
pub open spec fn scope_covers(scope: GrantScope, input: PolicyInput) -> bool {
    match scope {
        GrantScope::Installation { installation_id } => installation_id == input.actor.installation_id,
        GrantScope::Space { space_id } => input.spaces@.contains(space_id),
        GrantScope::Device { device_id } => device_id == input.device_id,
        GrantScope::Capability { device_id, endpoint_id, schema } => {
            &&& device_id == input.device_id
            &&& endpoint_id@ == input.endpoint_id@
            &&& schema@ == input.schema@
        },
    }
}

/// Whether a grant is the exact capability grant for the input's target.
pub open spec fn scope_is_exact(scope: GrantScope, input: PolicyInput) -> bool {
    scope is Capability && scope_covers(scope, input)
}

/// A grant of this actor, enabled, naming the action, and covering the target.
pub open spec fn grant_scoped(grant: ActorGrant, input: PolicyInput) -> bool {
    &&& grant.actor_id == input.actor.id
    &&& grant.enabled
    &&& grant.actions@.contains(input.action)
    &&& scope_covers(grant.scope, input)
}

/// A scoped grant whose risk ceiling permits the requested risk.
pub open spec fn grant_risk_matched(grant: ActorGrant, input: PolicyInput) -> bool {
    grant_scoped(grant, input) && risk_permits(grant.maximum_risk, input.risk)
}

pub open spec fn any_scoped(grants: Seq<ActorGrant>, input: PolicyInput) -> bool {
    exists|i: int| 0 <= i < grants.len() && grant_scoped(#[trigger] grants[i], input)
}

pub open spec fn any_risk_matched(grants: Seq<ActorGrant>, input: PolicyInput) -> bool {
    exists|i: int| 0 <= i < grants.len() && grant_risk_matched(#[trigger] grants[i], input)
}

pub open spec fn any_exact_risk_matched(grants: Seq<ActorGrant>, input: PolicyInput) -> bool {
    exists|i: int|
        0 <= i < grants.len() && grant_risk_matched(#[trigger] grants[i], input) && scope_is_exact(
            grants[i].scope,
            input,
        )
}

/// `seq![r]` when `present`, otherwise empty.
pub open spec fn reason_if(present: bool, r: PolicyReason) -> Seq<PolicyReason> {
    if present {
        seq![r]
    } else {
        Seq::empty()
    }
}

/// Denial reasons given the three grant-match facts, in declaration order.
pub open spec fn denial_reasons_from(input: PolicyInput, scoped: bool, matched: bool, exact: bool) -> Seq<PolicyReason> {
    let mechanical = input.risk == RiskClass::Mechanical;
    reason_if(!input.actor.enabled, PolicyReason::ActorDisabled)
        + reason_if(!scoped, PolicyReason::NoMatchingGrant)
        + reason_if(scoped && !matched, PolicyReason::RiskExceedsGrant)
        + reason_if(mechanical && !matched, PolicyReason::MechanicalGrantRequired)
        + reason_if(mechanical && input.freshness != FreshnessState::Fresh, PolicyReason::StateNotFresh)
        + reason_if(mechanical && input.constraint != ConstraintState::Available, PolicyReason::ConstraintUnavailable)
        + reason_if(input.risk == RiskClass::Security && !exact, PolicyReason::SecurityExactGrantRequired)
        + reason_if(input.rate_capacity == CapacityState::Exhausted, PolicyReason::RateLimitExceeded)
        + reason_if(input.device_capacity == CapacityState::Exhausted, PolicyReason::DeviceConcurrencyExceeded)
}

/// Every denial reason for the input, in declaration order.
pub open spec fn denial_reasons(input: PolicyInput, grants: Seq<ActorGrant>) -> Seq<PolicyReason> {
    denial_reasons_from(
        input,
        any_scoped(grants, input),
        any_risk_matched(grants, input),
        any_exact_risk_matched(grants, input),
    )
}

/// Whether the policy admits the input.
pub open spec fn policy_allows(input: PolicyInput, grants: Seq<ActorGrant>) -> bool {
    denial_reasons(input, grants).len() == 0 && any_risk_matched(grants, input)
}

/// Reasons recorded in the decision.
pub open spec fn policy_reasons(input: PolicyInput, grants: Seq<ActorGrant>) -> Seq<PolicyReason> {
    if policy_allows(input, grants) {
        seq![PolicyReason::AllowedByGrant]
    } else {
        denial_reasons(input, grants)
    }
}

proof fn lemma_denials_exclude_allowed(input: PolicyInput, grants: Seq<ActorGrant>)
    ensures
        !denial_reasons(input, grants).contains(PolicyReason::AllowedByGrant),
        !any_risk_matched(grants, input) ==> denial_reasons(input, grants).len() > 0,
{
    let d = denial_reasons(input, grants);
    assert forall|i: int| 0 <= i < d.len() implies d[i] != PolicyReason::AllowedByGrant by {}
}

/// Default deny: without an enabled, scoped grant whose risk ceiling covers the
/// request, the policy never allows the command.
pub proof fn lemma_policy_default_deny(input: PolicyInput, grants: Seq<ActorGrant>)
    requires
        !any_risk_matched(grants, input),
    ensures
        !policy_allows(input, grants),
        policy_reasons(input, grants).len() > 0,
        !policy_reasons(input, grants).contains(PolicyReason::AllowedByGrant),
{
    lemma_denials_exclude_allowed(input, grants);
}

/// An allowed decision carries exactly the single reason `AllowedByGrant`, and an
/// allowed decision never coexists with any denial reason.
pub proof fn lemma_policy_allowed_reason(input: PolicyInput, grants: Seq<ActorGrant>)
    ensures
        policy_allows(input, grants) <==> policy_reasons(input, grants) == seq![PolicyReason::AllowedByGrant],
        !policy_allows(input, grants) ==> !policy_reasons(input, grants).contains(PolicyReason::AllowedByGrant),
{
    lemma_denials_exclude_allowed(input, grants);
    let one = seq![PolicyReason::AllowedByGrant];
    assert(one[0] == PolicyReason::AllowedByGrant);
    assert(one.contains(PolicyReason::AllowedByGrant));
}

/// Dry runs are evaluated by exactly the same rules as live requests.
pub proof fn lemma_policy_dry_run_identical(input: PolicyInput, grants: Seq<ActorGrant>, dry_run: bool)
    ensures
        policy_allows((PolicyInput { dry_run, ..input }), grants) == policy_allows(input, grants),
        policy_reasons((PolicyInput { dry_run, ..input }), grants) == policy_reasons(input, grants),
{
    let other = PolicyInput { dry_run, ..input };
    assert forall|g: ActorGrant| grant_scoped(g, other) == grant_scoped(g, input) && scope_is_exact(g.scope, other) == scope_is_exact(g.scope, input) by {}
    assert(any_scoped(grants, other) == any_scoped(grants, input));
    assert(any_risk_matched(grants, other) == any_risk_matched(grants, input));
    assert(any_exact_risk_matched(grants, other) == any_exact_risk_matched(grants, input));
}

/// Security commands are allowed only through an exact capability grant.
pub proof fn lemma_policy_security_requires_exact_grant(input: PolicyInput, grants: Seq<ActorGrant>)
    requires
        input.risk == RiskClass::Security,
        policy_allows(input, grants),
    ensures
        any_exact_risk_matched(grants, input),
{
    if !any_exact_risk_matched(grants, input) {
        let d = denial_reasons(input, grants);
        assert(d.len() > 0);
    }
}

/// Mechanical commands are allowed only on fresh state with available constraints
/// and free capacity.
pub proof fn lemma_policy_mechanical_requires_fresh_state(input: PolicyInput, grants: Seq<ActorGrant>)
    requires
        input.risk == RiskClass::Mechanical,
        policy_allows(input, grants),
    ensures
        input.freshness == FreshnessState::Fresh,
        input.constraint == ConstraintState::Available,
        input.rate_capacity == CapacityState::Available,
        input.device_capacity == CapacityState::Available,
        input.actor.enabled,
{
    let d = denial_reasons(input, grants);
    if input.freshness != FreshnessState::Fresh || input.constraint != ConstraintState::Available
        || input.rate_capacity != CapacityState::Available || input.device_capacity != CapacityState::Available
        || !input.actor.enabled {
        assert(d.len() > 0);
    }
}

/// Granting more never revokes an allowed decision.
pub proof fn lemma_policy_grants_monotonic(input: PolicyInput, grants: Seq<ActorGrant>, extra: Seq<ActorGrant>)
    requires
        policy_allows(input, grants),
    ensures
        policy_allows(input, grants + extra),
{
    let all = grants + extra;
    let i = choose|i: int| 0 <= i < grants.len() && grant_risk_matched(#[trigger] grants[i], input);
    assert(all[i] == grants[i]);
    assert(any_scoped(all, input));
    assert(any_risk_matched(all, input));
    if input.risk == RiskClass::Security {
        lemma_policy_security_requires_exact_grant(input, grants);
        let k = choose|k: int| 0 <= k < grants.len() && grant_risk_matched(#[trigger] grants[k], input) && scope_is_exact(grants[k].scope, input);
        assert(all[k] == grants[k]);
        assert(any_exact_risk_matched(all, input));
    }
    let d = denial_reasons(input, grants);
    assert(input.actor.enabled) by { if !input.actor.enabled { assert(d.len() > 0); } }
    assert(input.risk == RiskClass::Mechanical ==> input.freshness == FreshnessState::Fresh && input.constraint == ConstraintState::Available) by {
        if input.risk == RiskClass::Mechanical { lemma_policy_mechanical_requires_fresh_state(input, grants); }
    }
    assert(input.rate_capacity == CapacityState::Available) by { if input.rate_capacity != CapacityState::Available { assert(d.len() > 0); } }
    assert(input.device_capacity == CapacityState::Available) by { if input.device_capacity != CapacityState::Available { assert(d.len() > 0); } }
    assert(denial_reasons(input, all).len() == 0);
}

fn string_eq(a: &String, b: &String) -> (r: bool)
    ensures
        r == (a@ == b@),
{
    *a == *b
}

fn scope_matches(scope: &GrantScope, input: &PolicyInput) -> (b: bool)
    ensures
        b == scope_covers(*scope, *input),
{
    match scope {
        GrantScope::Installation { installation_id } => *installation_id == input.actor.installation_id,
        GrantScope::Space { space_id } => contains_u64(&input.spaces, *space_id),
        GrantScope::Device { device_id } => *device_id == input.device_id,
        GrantScope::Capability { device_id, endpoint_id, schema } => {
            *device_id == input.device_id && string_eq(endpoint_id, &input.endpoint_id) && string_eq(
                schema,
                &input.schema,
            )
        },
    }
}

/// Membership test over a vector of identifiers.
pub fn contains_u64(values: &Vec<u64>, value: u64) -> (b: bool)
    ensures
        b == values@.contains(value),
{
    let mut i: usize = 0;
    while i < values.len()
        invariant
            i <= values@.len(),
            forall|j: int| 0 <= j < i ==> values@[j] != value,
        decreases values@.len() - i,
    {
        if values[i] == value {
            return true;
        }
        i = i + 1;
    }
    false
}

fn contains_action(actions: &Vec<CommandAction>, action: CommandAction) -> (b: bool)
    ensures
        b == actions@.contains(action),
{
    let mut i: usize = 0;
    while i < actions.len()
        invariant
            i <= actions@.len(),
            forall|j: int| 0 <= j < i ==> actions@[j] != action,
        decreases actions@.len() - i,
    {
        if actions[i] == action {
            return true;
        }
        i = i + 1;
    }
    false
}

fn is_scoped(grant: &ActorGrant, input: &PolicyInput) -> (b: bool)
    ensures
        b == grant_scoped(*grant, *input),
{
    grant.actor_id == input.actor.id && grant.enabled && contains_action(&grant.actions, input.action)
        && scope_matches(&grant.scope, input)
}

fn push_if(reasons: &mut Vec<PolicyReason>, present: bool, r: PolicyReason)
    ensures
        final(reasons)@ == old(reasons)@ + reason_if(present, r),
{
    if present {
        reasons.push(r);
    } else {
        assert(old(reasons)@ + reason_if(present, r) =~= old(reasons)@);
    }
}

fn denial_list(input: &PolicyInput, scoped: bool, matched: bool, exact: bool) -> (v: Vec<PolicyReason>)
    ensures
        v@ == denial_reasons_from(*input, scoped, matched, exact),
{
    let mechanical = input.risk == RiskClass::Mechanical;
    let mut v: Vec<PolicyReason> = Vec::new();
    push_if(&mut v, !input.actor.enabled, PolicyReason::ActorDisabled);
    push_if(&mut v, !scoped, PolicyReason::NoMatchingGrant);
    push_if(&mut v, scoped && !matched, PolicyReason::RiskExceedsGrant);
    push_if(&mut v, mechanical && !matched, PolicyReason::MechanicalGrantRequired);
    push_if(&mut v, mechanical && input.freshness != FreshnessState::Fresh, PolicyReason::StateNotFresh);
    push_if(&mut v, mechanical && input.constraint != ConstraintState::Available, PolicyReason::ConstraintUnavailable);
    push_if(&mut v, input.risk == RiskClass::Security && !exact, PolicyReason::SecurityExactGrantRequired);
    push_if(&mut v, input.rate_capacity == CapacityState::Exhausted, PolicyReason::RateLimitExceeded);
    push_if(&mut v, input.device_capacity == CapacityState::Exhausted, PolicyReason::DeviceConcurrencyExceeded);
    assert(v@ =~= denial_reasons_from(*input, scoped, matched, exact));
    v
}

fn scan_grants(input: &PolicyInput, grants: &Vec<ActorGrant>) -> (r: (bool, bool, bool))
    ensures
        r.0 == any_scoped(grants@, *input),
        r.1 == any_risk_matched(grants@, *input),
        r.2 == any_exact_risk_matched(grants@, *input),
{
    let mut scoped = false;
    let mut matched = false;
    let mut exact = false;
    let mut i: usize = 0;
    while i < grants.len()
        invariant
            i <= grants@.len(),
            scoped == exists|j: int| 0 <= j < i && grant_scoped(#[trigger] grants@[j], *input),
            matched == exists|j: int| 0 <= j < i && grant_risk_matched(#[trigger] grants@[j], *input),
            exact == exists|j: int|
                0 <= j < i && grant_risk_matched(#[trigger] grants@[j], *input)
                    && scope_is_exact(grants@[j].scope, *input),
        decreases grants@.len() - i,
    {
        let grant = &grants[i];
        if is_scoped(grant, input) {
            scoped = true;
            if grant.maximum_risk.permits(input.risk) {
                matched = true;
                if let GrantScope::Capability { .. } = &grant.scope {
                    exact = true;
                }
            }
        }
        i = i + 1;
    }
    (scoped, matched, exact)
}

/// Deterministic default-deny command policy shared by every transport.
#[derive(Clone, Copy, Debug)]
pub struct PolicyEvaluator;

impl PolicyEvaluator {
    /// Evaluates an immutable input and explicit actor grants.
    pub fn evaluate(input: &PolicyInput, grants: &Vec<ActorGrant>) -> (d: PolicyDecision)
        ensures
            d.policy_version == POLICY_VERSION,
            d.allowed == policy_allows(*input, grants@),
            d.reasons@ == policy_reasons(*input, grants@),
            d.evaluated_at == input.evaluated_at,
    {
        let (scoped, matched, exact) = scan_grants(input, grants);
        let mut reasons = denial_list(input, scoped, matched, exact);
        let allowed = reasons.len() == 0 && matched;
        if allowed {
            reasons.push(PolicyReason::AllowedByGrant);
            assert(reasons@ =~= seq![PolicyReason::AllowedByGrant]);
        }
        PolicyDecision { policy_version: POLICY_VERSION, allowed, reasons, evaluated_at: input.evaluated_at }
    }
}

} // verus!

verus! {

broadcast use vstd::std_specs::hash::group_hash_axioms;

/// Bounds for actor request rate and simultaneous work per device.
#[derive(Clone, Copy, Debug, PartialEq, Eq, Structural)]
pub struct CommandLimitConfig {
    /// Accepted requests per actor within `actor_window_millis`.
    pub actor_requests: usize,
    /// Sliding actor rate window in milliseconds.
    pub actor_window_millis: i64,
    /// Simultaneous commands allowed for one device.
    pub device_concurrency: usize,
}

/// Invalid command limit configuration.
#[derive(Clone, Copy, Debug, PartialEq, Eq, Structural)]
pub struct CommandLimitConfigError;

/// Whether the three bounds are usable.
pub open spec fn limit_config_valid(actor_requests: usize, actor_window_millis: i64, device_concurrency: usize) -> bool {
    actor_requests > 0 && actor_window_millis > 0 && device_concurrency > 0
}

impl CommandLimitConfig {
    /// Creates non-zero command safety bounds.
    pub fn new(actor_requests: usize, actor_window_millis: i64, device_concurrency: usize) -> (r: Result<
        Self,
        CommandLimitConfigError,
    >)
        ensures
            r is Ok <==> limit_config_valid(actor_requests, actor_window_millis, device_concurrency),
            r matches Ok(c) ==> c.actor_requests == actor_requests && c.actor_window_millis
                == actor_window_millis && c.device_concurrency == device_concurrency,
    {
        if actor_requests == 0 || actor_window_millis <= 0 || device_concurrency == 0 {
            return Err(CommandLimitConfigError);
        }
        Ok(CommandLimitConfig { actor_requests, actor_window_millis, device_concurrency })
    }
}

impl Default for CommandLimitConfig {
    /// Sixty requests per actor per minute and one command per device.
    fn default() -> (c: Self)
        ensures
            c.actor_requests == 60,
            c.actor_window_millis == 60_000,
            c.device_concurrency == 1,
    {
        CommandLimitConfig { actor_requests: 60, actor_window_millis: 60_000, device_concurrency: 1 }
    }
}

/// Whether an admitted request time has left the sliding window at `now`.
pub open spec fn request_expired(at: i64, now: i64, window: i64) -> bool {
    at + window <= now
}

/// Number of leading expired request times.
pub open spec fn expired_prefix(q: Seq<i64>, now: i64, window: i64) -> nat
    decreases q.len(),
{
    if q.len() == 0 {
        0
    } else if request_expired(q[0], now, window) {
        1 + expired_prefix(q.drop_first(), now, window)
    } else {
        0
    }
}

/// Actor request times still inside the window after pruning the expired front.
pub open spec fn pruned_requests(q: Seq<i64>, now: i64, window: i64) -> Seq<i64> {
    q.skip(expired_prefix(q, now, window) as int)
}

proof fn lemma_expired_prefix_index(q: Seq<i64>, now: i64, window: i64, k: int)
    requires
        0 <= k <= q.len(),
        forall|j: int| 0 <= j < k ==> request_expired(#[trigger] q[j], now, window),
        k < q.len() ==> !request_expired(q[k], now, window),
    ensures
        expired_prefix(q, now, window) == k,
    decreases q.len(),
{
    if q.len() > 0 && k > 0 {
        assert forall|j: int| 0 <= j < k - 1 implies request_expired(#[trigger] q.drop_first()[j], now, window) by {
            assert(q.drop_first()[j] == q[j + 1]);
        }
        lemma_expired_prefix_index(q.drop_first(), now, window, k - 1);
    }
}

/// Per-actor rate and per-device concurrency capacities for one admission.
pub struct CommandLimitCapacities {
    /// Per-actor rate capacity.
    pub rate: CapacityState,
    /// Per-device concurrency capacity.
    pub device: CapacityState,
    /// Held device slot; handing it back through `release` frees the slot.
    pub permit: Option<CommandPermit>,
}

/// Ownership of one device command slot.
pub struct CommandPermit {
    device_id: u64,
}

impl CommandPermit {
    /// Device whose slot this permit holds.
    pub fn device_id(&self) -> (d: u64)
        ensures
            d == self.device(),
    {
        self.device_id
    }

    pub closed spec fn device(&self) -> u64 {
        self.device_id
    }

    /// Debug rendering that reveals nothing about the held slot.
    pub fn debug_string(&self) -> (s: String)
        ensures
            s@ == "CommandPermit(held)"@,
    {
        String::from_str("CommandPermit(held)")
    }
}

/// Shared bounded command admission state.
pub struct CommandLimits {
    config: CommandLimitConfig,
    actor_requests: std::collections::HashMap<u64, Vec<i64>>,
    devices: std::collections::HashMap<u64, usize>,
}

impl CommandLimits {
    /// The configured bounds.
    pub closed spec fn limits(&self) -> CommandLimitConfig {
        self.config
    }

    /// Request times currently retained for `actor`, oldest first.
    pub closed spec fn actor_queue(&self, actor: u64) -> Seq<i64> {
        if self.actor_requests@.contains_key(actor) {
            self.actor_requests@[actor]@
        } else {
            Seq::empty()
        }
    }

    /// Device slots currently held for `device`.
    pub closed spec fn device_held(&self, device: u64) -> nat {
        if self.devices@.contains_key(device) {
            self.devices@[device] as nat
        } else {
            0
        }
    }

    /// Creates limit state with explicit safety bounds and nothing admitted.
    pub fn new(config: CommandLimitConfig) -> (l: Self)
        ensures
            l.limits() == config,
            forall|a: u64| l.actor_queue(a) == Seq::<i64>::empty(),
            forall|d: u64| l.device_held(d) == 0,
    {
        CommandLimits {
            config,
            actor_requests: std::collections::HashMap::new(),
            devices: std::collections::HashMap::new(),
        }
    }

    /// Returns the configured bounds.
    pub fn config(&self) -> (c: CommandLimitConfig)
        ensures
            c == self.limits(),
    {
        self.config
    }

    /// Checks actor rate and atomically tries to acquire one device slot.
    ///
    /// Request times older than the window are pruned from the front of the
    /// actor's queue; the request is admitted by rate while fewer than
    /// `actor_requests` remain, and a device slot is taken only for a request
    /// admitted by rate while fewer than `device_concurrency` slots are held.
    pub fn try_acquire(&mut self, actor_id: u64, device_id: u64, now: i64) -> (c: CommandLimitCapacities)
        ensures
            final(self).limits() == old(self).limits(),
            ({
                let kept = pruned_requests(old(self).actor_queue(actor_id), now, old(self).limits().actor_window_millis);
                let rate_ok = kept.len() < old(self).limits().actor_requests;
                let slot_ok = rate_ok && old(self).device_held(device_id) < old(self).limits().device_concurrency;
                &&& c.rate == (if rate_ok { CapacityState::Available } else { CapacityState::Exhausted })
                &&& c.device == (if slot_ok { CapacityState::Available } else { CapacityState::Exhausted })
                &&& (c.permit is Some <==> slot_ok)
                &&& (c.permit matches Some(p) ==> p.device() == device_id)
                &&& final(self).actor_queue(actor_id) == (if rate_ok { kept.push(now) } else { kept })
                &&& final(self).device_held(device_id) == old(self).device_held(device_id) + (if slot_ok { 1int } else { 0int })
            }),
            forall|a: u64| a != actor_id ==> final(self).actor_queue(a) == old(self).actor_queue(a),
            forall|d: u64| d != device_id ==> final(self).device_held(d) == old(self).device_held(d),
            old(self).actor_queue(actor_id).len() <= old(self).limits().actor_requests
                ==> final(self).actor_queue(actor_id).len() <= final(self).limits().actor_requests,
            old(self).device_held(device_id) <= old(self).limits().device_concurrency
                ==> final(self).device_held(device_id) <= final(self).limits().device_concurrency,
    {
        let window = self.config.actor_window_millis;
        let queue = match self.actor_requests.remove(&actor_id) {
            Some(q) => q,
            None => Vec::new(),
        };
        let ghost q = queue@;
        assert(q == old(self).actor_queue(actor_id));
        let mut k: usize = 0;
        while k < queue.len() && (queue[k] as i128) + (window as i128) <= (now as i128)
            invariant
                k <= queue@.len(),
                queue@ == q,
                forall|j: int| 0 <= j < k ==> request_expired(#[trigger] q[j], now, window),
            decreases queue@.len() - k,
        {
            k = k + 1;
        }
        proof {
            lemma_expired_prefix_index(q, now, window, k as int);
        }
        let mut kept: Vec<i64> = Vec::new();
        let mut i: usize = k;
        while i < queue.len()
            invariant
                k <= i <= queue@.len(),
                queue@ == q,
                kept@ == q.subrange(k as int, i as int),
            decreases queue@.len() - i,
        {
            kept.push(queue[i]);
            i = i + 1;
        }
        assert(kept@ == pruned_requests(q, now, window));
        let rate_ok = kept.len() < self.config.actor_requests;
        if rate_ok {
            kept.push(now);
        }
        self.actor_requests.insert(actor_id, kept);
        let held: usize = match self.devices.get(&device_id) {
            Some(h) => *h,
            None => 0,
        };
        let slot_ok = rate_ok && held < self.config.device_concurrency;
        let permit = if slot_ok {
            self.devices.insert(device_id, held + 1);
            Some(CommandPermit { device_id })
        } else {
            self.devices.insert(device_id, held);
            None
        };
        CommandLimitCapacities {
            rate: if rate_ok { CapacityState::Available } else { CapacityState::Exhausted },
            device: if slot_ok { CapacityState::Available } else { CapacityState::Exhausted },
            permit,
        }
    }

    /// Returns a held device slot; the device regains one unit of capacity.
    pub fn release(&mut self, permit: CommandPermit)
        ensures
            final(self).limits() == old(self).limits(),
            final(self).device_held(permit.device()) == (if old(self).device_held(permit.device()) > 0 {
                (old(self).device_held(permit.device()) - 1) as nat
            } else {
                0
            }),
            forall|d: u64| d != permit.device() ==> final(self).device_held(d) == old(self).device_held(d),
            forall|a: u64| final(self).actor_queue(a) == old(self).actor_queue(a),
    {
        let device_id = permit.device_id;
        let held: usize = match self.devices.get(&device_id) {
            Some(h) => *h,
            None => 0,
        };
        if held > 0 {
            self.devices.insert(device_id, held - 1);
        }
    }
}

impl Default for CommandLimits {
    /// Limit state over the default bounds with nothing admitted.
    fn default() -> (l: Self)
        ensures
            l.limits().actor_requests == 60,
            l.limits().actor_window_millis == 60_000,
            l.limits().device_concurrency == 1,
            forall|a: u64| l.actor_queue(a) == Seq::<i64>::empty(),
            forall|d: u64| l.device_held(d) == 0,
    {
        CommandLimits::new(CommandLimitConfig::default())
    }
}

} // verus!
