use homemagic_application::policy::{
    Actor, ActorGrant, CapacityState, CommandAction, CommandLimitConfig, CommandLimits, ConstraintState,
    FreshnessState, GrantScope, PolicyEvaluator, PolicyInput, PolicyReason, RiskClass,
};

fn input(risk: RiskClass) -> PolicyInput {
    PolicyInput {
        actor: Actor { id: 1, installation_id: 2, name: "Agent".to_owned(), enabled: true, created_at: 0 },
        action: CommandAction::Execute,
        device_id: 3,
        endpoint_id: "output:0".to_owned(),
        schema: "on_off.v1".to_owned(),
        risk,
        spaces: vec![4],
        freshness: FreshnessState::Fresh,
        constraint: ConstraintState::Available,
        rate_capacity: CapacityState::Available,
        device_capacity: CapacityState::Available,
        dry_run: false,
        evaluated_at: 1_000,
    }
}

fn grant(input: &PolicyInput, scope: GrantScope, risk: RiskClass) -> ActorGrant {
    ActorGrant {
        id: 9,
        actor_id: input.actor.id,
        actions: vec![CommandAction::Execute],
        scope,
        maximum_risk: risk,
        enabled: true,
    }
}

#[test]
fn comfort_should_require_an_explicit_matching_grant() {
    let input = input(RiskClass::Comfort);
    let denied = PolicyEvaluator::evaluate(&input, &vec![]);
    let allowed = PolicyEvaluator::evaluate(
        &input,
        &vec![grant(&input, GrantScope::Device { device_id: input.device_id }, RiskClass::Comfort)],
    );

    assert!(!denied.allowed);
    assert!(denied.reasons.contains(&PolicyReason::NoMatchingGrant));
    assert!(allowed.allowed);
}

#[test]
fn mechanical_should_require_risk_freshness_constraints_and_capacity() {
    let mut input = input(RiskClass::Mechanical);
    input.freshness = FreshnessState::Stale;
    input.constraint = ConstraintState::Unavailable;
    input.device_capacity = CapacityState::Exhausted;
    let decision = PolicyEvaluator::evaluate(
        &input,
        &vec![grant(&input, GrantScope::Device { device_id: input.device_id }, RiskClass::Mechanical)],
    );

    assert!(!decision.allowed);
    assert!(decision.reasons.contains(&PolicyReason::StateNotFresh));
    assert!(decision.reasons.contains(&PolicyReason::ConstraintUnavailable));
    assert!(decision.reasons.contains(&PolicyReason::DeviceConcurrencyExceeded));
}

#[test]
fn security_should_reject_broad_grants_and_accept_exact_capability() {
    let input = input(RiskClass::Security);
    let broad = grant(&input, GrantScope::Space { space_id: input.spaces[0] }, RiskClass::Security);
    let exact = grant(
        &input,
        GrantScope::Capability {
            device_id: input.device_id,
            endpoint_id: input.endpoint_id.clone(),
            schema: input.schema.clone(),
        },
        RiskClass::Security,
    );

    assert!(!PolicyEvaluator::evaluate(&input, &vec![broad]).allowed);
    assert!(PolicyEvaluator::evaluate(&input, &vec![exact]).allowed);
}

#[test]
fn administrative_capacity_and_action_denials_should_be_explainable() {
    let mut input = input(RiskClass::Comfort);
    input.actor.enabled = false;
    input.rate_capacity = CapacityState::Exhausted;
    let mut wrong_action = grant(&input, GrantScope::Device { device_id: input.device_id }, RiskClass::Comfort);
    wrong_action.actions = vec![CommandAction::ReadAudit];
    let decision = PolicyEvaluator::evaluate(&input, &vec![wrong_action]);

    assert!(!decision.allowed);
    assert!(decision.reasons.contains(&PolicyReason::ActorDisabled));
    assert!(decision.reasons.contains(&PolicyReason::RateLimitExceeded));
    assert!(decision.reasons.contains(&PolicyReason::NoMatchingGrant));
}

#[test]
fn space_grants_should_cover_comfort_and_dry_run_should_use_identical_rules() {
    let input = input(RiskClass::Comfort);
    let grant = grant(&input, GrantScope::Space { space_id: input.spaces[0] }, RiskClass::Comfort);
    let live = PolicyEvaluator::evaluate(&input, &vec![grant.clone()]);
    let mut dry_run = input;
    dry_run.dry_run = true;
    let dry = PolicyEvaluator::evaluate(&dry_run, &vec![grant]);

    assert!(live.allowed);
    assert_eq!(dry.allowed, live.allowed);
    assert_eq!(dry.reasons, live.reasons);
    assert_eq!(dry.policy_version, live.policy_version);
    assert_eq!(dry.evaluated_at, live.evaluated_at);
}

#[test]
fn limits_should_bound_actor_rate_and_serialize_each_device() {
    let mut limits = CommandLimits::new(CommandLimitConfig::new(2, 60_000, 1).expect("limits"));
    let actor = 1;
    let device = 2;
    let now = 1_000_000;
    let first = limits.try_acquire(actor, device, now);
    let second = limits.try_acquire(actor, device, now);

    assert_eq!(first.rate, CapacityState::Available);
    assert_eq!(first.device, CapacityState::Available);
    assert_eq!(second.rate, CapacityState::Available);
    assert_eq!(second.device, CapacityState::Exhausted);
    limits.release(first.permit.expect("first request holds the device slot"));
    let third = limits.try_acquire(actor, device, now);
    assert_eq!(third.rate, CapacityState::Exhausted);
}

#[test]
fn rate_window_slides_and_invalid_limits_are_rejected() {
    assert!(CommandLimitConfig::new(0, 60_000, 1).is_err());
    assert!(CommandLimitConfig::new(1, 0, 1).is_err());
    assert!(CommandLimitConfig::new(1, 60_000, 0).is_err());
    let mut limits = CommandLimits::new(CommandLimitConfig::new(1, 1_000, 2).expect("limits"));
    let first = limits.try_acquire(5, 6, 10_000);
    assert_eq!(first.rate, CapacityState::Available);
    let blocked = limits.try_acquire(5, 7, 10_500);
    assert_eq!(blocked.rate, CapacityState::Exhausted);
    assert!(blocked.permit.is_none());
    let later = limits.try_acquire(5, 7, 11_001);
    assert_eq!(later.rate, CapacityState::Available);
    assert_eq!(later.device, CapacityState::Available);
    let default_limits = CommandLimits::default().config();
    assert_eq!(default_limits.actor_requests, 60);
    assert_eq!(default_limits.actor_window_millis, 60_000);
    assert_eq!(default_limits.device_concurrency, 1);
}

#[test]
fn risk_ceilings_are_ordered() {
    assert!(RiskClass::Security.permits(RiskClass::Comfort));
    assert!(RiskClass::Mechanical.permits(RiskClass::Mechanical));
    assert!(!RiskClass::Comfort.permits(RiskClass::Mechanical));
    assert!(!RiskClass::Observe.permits(RiskClass::Comfort));
}
