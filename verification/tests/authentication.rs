use homemagic_application::authentication::{
    authenticate_record, authentication_outcome, bootstrap_actor, credential_from_entropy, disable_actor,
    issue_credential, parse_token, rotation_actor, ActorAuthenticationError, ActorManagementError, ActorSecurity,
};
use homemagic_application::policy::Actor;

fn actor(enabled: bool) -> Actor {
    Actor { id: 42, installation_id: 7, name: "Kitchen agent".to_owned(), enabled, created_at: 1_000 }
}

#[test]
fn issued_token_has_the_documented_shape_and_parses_back() {
    let secret = [0xabu8; 32];
    let salt = [7u8; 16];
    let (token, credential) = credential_from_entropy(42, &secret, &salt, 5_000).expect("hashing succeeds");
    let text = token.expose().to_owned();
    assert_eq!(text, format!("hm1.42.{}", "ab".repeat(32)));
    assert_eq!(credential.actor_id, 42);
    assert_eq!(credential.rotated_at, 5_000);
    assert!(credential.token_hash.starts_with("$argon2id$"));
    assert!(!credential.token_hash.contains(&"ab".repeat(32)));
    let parsed = parse_token(&text).expect("issued token parses");
    assert_eq!(parsed.actor_id, 42);
    assert_eq!(parsed.secret, "ab".repeat(32));
    assert_eq!(token.debug_string(), "ActorToken([REDACTED])");
}

#[test]
fn malformed_tokens_all_fail_the_same_way() {
    let secret = "0123456789abcdef".repeat(4);
    assert!(parse_token(&format!("hm1.1.{secret}")).is_ok());
    for bad in [
        String::new(),
        format!("hm2.1.{secret}"),
        format!("hm1.1.{secret}.extra"),
        format!("hm1..{secret}"),
        format!("hm1.x1.{secret}"),
        format!("hm1.1.{}", secret.to_uppercase()),
        format!("hm1.1.{}", &secret[1..]),
        format!("hm1.18446744073709551616.{secret}"),
        "hm1.1".to_owned(),
    ] {
        assert_eq!(parse_token(&bad).err(), Some(ActorAuthenticationError), "{bad}");
    }
    assert_eq!(parse_token(&format!("hm1.18446744073709551615.{secret}")).map(|p| p.actor_id), Ok(u64::MAX));
    assert_eq!(ActorAuthenticationError.message(), "invalid actor credentials");
}

#[test]
fn authentication_requires_enabled_actor_credential_and_matching_secret() {
    let secret = [3u8; 32];
    let salt = [9u8; 16];
    let (token, credential) = credential_from_entropy(42, &secret, &salt, 0).expect("hash");
    let parsed = parse_token(token.expose()).expect("parse");
    let security = |enabled: bool, credential| ActorSecurity { actor: actor(enabled), credential, grants: Vec::new() };

    let ok = authenticate_record(&parsed, Some(security(true, Some(credential.clone())))).expect("authenticates");
    assert_eq!(ok.id, 42);
    assert_eq!(authenticate_record(&parsed, Some(security(false, Some(credential.clone())))).err(), Some(ActorAuthenticationError));
    assert_eq!(authenticate_record(&parsed, Some(security(true, None))).err(), Some(ActorAuthenticationError));
    assert_eq!(authenticate_record(&parsed, None).err(), Some(ActorAuthenticationError));

    let (_, other) = credential_from_entropy(42, &[4u8; 32], &salt, 0).expect("hash");
    assert_eq!(authenticate_record(&parsed, Some(security(true, Some(other)))).err(), Some(ActorAuthenticationError));
    assert!(authentication_outcome(Some(security(true, Some(credential))), false).is_err());
}

#[test]
fn fresh_credentials_are_random_and_verify() {
    let actor = actor(true);
    let (first, first_credential) = issue_credential(&actor, 10).expect("issue");
    let (second, _) = issue_credential(&actor, 10).expect("issue");
    assert_ne!(first.expose(), second.expose());
    let parsed = parse_token(first.expose()).expect("parse");
    assert_eq!(parsed.actor_id, actor.id);
    let security = ActorSecurity { actor: actor.clone(), credential: Some(first_credential), grants: Vec::new() };
    assert!(authenticate_record(&parsed, Some(security)).is_ok());
}

#[test]
fn management_rules_keep_identity_and_report_missing_actors() {
    let created = bootstrap_actor(5, 6, "Hall".to_owned(), 77);
    assert!(created.enabled);
    assert_eq!((created.id, created.installation_id, created.created_at), (5, 6, 77));
    let security = ActorSecurity { actor: created.clone(), credential: None, grants: Vec::new() };
    let disabled = disable_actor(Some(security.clone())).expect("found");
    assert!(!disabled.enabled);
    assert_eq!(disabled.name, "Hall");
    assert_eq!(disable_actor(None).err(), Some(ActorManagementError::NotFound));
    assert_eq!(rotation_actor(Some(security)).map(|a| a.id), Ok(5));
    assert_eq!(rotation_actor(None).err(), Some(ActorManagementError::NotFound));
    assert_eq!(ActorManagementError::Hashing.message(), "actor credential hashing failed");
}
