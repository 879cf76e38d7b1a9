use base64::Engine;
use idklol::auth::{
    extract_bearer_token, require_admin, CachedTokenValidation, ClaimsFromCache, EmailFromCache,
    IntrospectionOutcome, JwtValidatorService, MyAuthService, UserClaims,
};
use idklol::env_config::EnvLookup;

const SECOND: u128 = 1_000_000_000;

fn claims(roles: &[&str]) -> UserClaims {
    UserClaims {
        email: "ari@example.com".to_string(),
        roles: roles.iter().map(|r| r.to_string()).collect(),
        sub: "user-1".to_string(),
    }
}

#[test]
fn roles_are_matched_exactly() {
    let c = claims(&["player", "admin"]);
    assert!(c.has_role("player"));
    assert!(c.is_admin());
    assert!(!c.has_role("Admin"));
    assert!(!claims(&["player"]).is_admin());
    assert!(!claims(&[]).has_role("player"));
}

#[test]
fn bearer_tokens_are_taken_from_the_header() {
    assert_eq!(extract_bearer_token(Some("Bearer abc.def")), Some("abc.def".to_string()));
    assert_eq!(extract_bearer_token(Some("Bearer ")), Some(String::new()));
    assert_eq!(extract_bearer_token(Some("Basic abc")), None);
    assert_eq!(extract_bearer_token(Some("bearer abc")), None);
    assert_eq!(extract_bearer_token(None), None);
}

#[test]
fn token_hash_is_lower_case_hex_and_stable() {
    let a = JwtValidatorService::compute_token_hash("token-a");
    let b = JwtValidatorService::compute_token_hash("token-a");
    let c = JwtValidatorService::compute_token_hash("token-b");
    assert_eq!(a, b);
    assert_ne!(a, c);
    assert!(!a.is_empty());
    assert!(a.chars().all(|ch| ch.is_ascii_digit() || ('a'..='f').contains(&ch)));
}

#[test]
fn cache_ttls() {
    assert_eq!(JwtValidatorService::valid_cache_ttl(300), 300 * SECOND);
    assert_eq!(JwtValidatorService::invalid_cache_ttl(), 60 * SECOND);
}

#[test]
fn remembered_verdicts_expire_by_kind() {
    let mut service = JwtValidatorService::token_cache();
    assert!(service.get_cached_validation("h1", 0, 300).is_none());
    service.set_cached_validation(
        "h1".to_string(),
        true,
        Some("ari@example.com".to_string()),
        Some(vec!["admin".to_string()]),
        Some("user-1".to_string()),
        10 * SECOND,
    );
    service.record_expired("h2".to_string(), 10 * SECOND);
    let fresh = service.get_cached_validation("h1", 309 * SECOND, 300).unwrap();
    assert!(fresh.is_valid);
    assert_eq!(fresh.email.as_deref(), Some("ari@example.com"));
    assert!(service.get_cached_validation("h1", 310 * SECOND, 300).is_none());
    assert!(!service.get_cached_validation("h2", 69 * SECOND, 300).unwrap().is_valid);
    assert!(service.get_cached_validation("h2", 70 * SECOND, 300).is_none());
    // A later verdict replaces an earlier one.
    service.set_cached_validation("h1".to_string(), false, None, None, None, 400 * SECOND);
    assert!(!service.get_cached_validation("h1", 401 * SECOND, 300).unwrap().is_valid);
}

#[test]
fn introspection_outcomes_are_remembered() {
    let mut service = JwtValidatorService::token_cache();
    let valid = service.record_introspection(
        "h".to_string(),
        IntrospectionOutcome::Active {
            email: Some("ari@example.com".to_string()),
            roles: Some(vec!["player".to_string()]),
            sub: Some("user-1".to_string()),
        },
        0,
    );
    assert!(valid);
    let cached = service.get_cached_validation("h", 1, 300);
    match JwtValidatorService::claims_after_validation(cached) {
        Some(c) => {
            assert_eq!(c.email, "ari@example.com");
            assert_eq!(c.roles, vec!["player".to_string()]);
            assert_eq!(c.sub, "user-1");
        }
        None => panic!("claims expected"),
    }
    assert!(!service.record_introspection("g".to_string(), IntrospectionOutcome::Inactive, 0));
    assert!(!service.record_introspection("f".to_string(), IntrospectionOutcome::Failed, 0));
    assert!(!service.get_cached_validation("g", 1, 300).unwrap().is_valid);
}

#[test]
fn cached_verdicts_decide_claims_and_email_requests() {
    let valid = CachedTokenValidation {
        is_valid: true,
        email: Some("ari@example.com".to_string()),
        roles: Some(vec!["admin".to_string()]),
        sub: Some("user-1".to_string()),
        cached_at_ns: 0,
    };
    match JwtValidatorService::claims_from_cache(Some(valid.duplicate())) {
        ClaimsFromCache::Claims(c) => assert!(c.is_admin()),
        _ => panic!("claims expected"),
    }
    match JwtValidatorService::email_from_cache(Some(valid)) {
        EmailFromCache::Email(e) => assert_eq!(e.as_deref(), Some("ari@example.com")),
        _ => panic!("email expected"),
    }
    let partial = CachedTokenValidation {
        is_valid: true,
        email: Some("ari@example.com".to_string()),
        roles: None,
        sub: None,
        cached_at_ns: 0,
    };
    assert!(matches!(JwtValidatorService::claims_from_cache(Some(partial)), ClaimsFromCache::Undecided));
    let invalid = CachedTokenValidation { is_valid: false, email: None, roles: None, sub: None, cached_at_ns: 0 };
    assert!(matches!(JwtValidatorService::claims_from_cache(Some(invalid.duplicate())), ClaimsFromCache::Rejected));
    assert!(matches!(JwtValidatorService::email_from_cache(Some(invalid)), EmailFromCache::Rejected));
    assert!(matches!(JwtValidatorService::claims_from_cache(None), ClaimsFromCache::Undecided));
    assert!(matches!(JwtValidatorService::email_from_cache(None), EmailFromCache::Undecided));
}

#[test]
fn admin_requests_need_claims_with_the_admin_role() {
    assert_eq!(require_admin(None).unwrap_err(), "Invalid or expired token");
    assert_eq!(require_admin(Some(claims(&["player"]))).unwrap_err(), "Admin role required");
    assert_eq!(require_admin(Some(claims(&["admin"]))).unwrap().email, "ari@example.com");
}

#[test]
fn token_payload_is_the_decoded_middle_segment() {
    let claims_json = br#"{"exp":4102444800,"sub":"user-1"}"#;
    let segment = base64::engine::general_purpose::URL_SAFE_NO_PAD.encode(claims_json);
    let token = format!("eyJhbGciOiJSUzI1NiJ9.{}.signature", segment);
    assert_eq!(JwtValidatorService::token_payload(&token), Some(claims_json.to_vec()));
    assert_eq!(JwtValidatorService::token_payload("not-a-jwt"), None);
    assert_eq!(JwtValidatorService::token_payload("a.b.c.d"), None);
    assert_eq!(JwtValidatorService::token_payload("a.!!!.c"), None);
}

#[test]
fn expiration_check_needs_a_future_exp() {
    assert!(JwtValidatorService::check_token_expiration(Some(100), 100));
    assert!(JwtValidatorService::check_token_expiration(Some(101), 100));
    assert!(!JwtValidatorService::check_token_expiration(Some(99), 100));
    assert!(!JwtValidatorService::check_token_expiration(None, 100));
}

#[test]
fn introspection_target_defaults() {
    let t = JwtValidatorService::introspection_target(
        EnvLookup::Present("https://kc.example/realms/idk".to_string()),
        EnvLookup::NotPresent,
        EnvLookup::NotUnicode,
    )
    .unwrap();
    assert_eq!(t.url, "https://kc.example/realms/idk/protocol/openid-connect/token/introspect");
    assert_eq!(t.client_id, "idklol-chat");
    assert_eq!(t.client_secret, "your-client-secret");
    let t = JwtValidatorService::introspection_target(
        EnvLookup::Present("u".to_string()),
        EnvLookup::Present("id".to_string()),
        EnvLookup::Present("secret".to_string()),
    )
    .unwrap();
    assert_eq!((t.client_id.as_str(), t.client_secret.as_str()), ("id", "secret"));
    assert!(JwtValidatorService::introspection_target(
        EnvLookup::NotPresent,
        EnvLookup::NotPresent,
        EnvLookup::NotPresent
    )
    .is_none());
}

#[test]
fn login_greets_the_user() {
    assert_eq!(MyAuthService {}.login("ari"), "Hello ari!");
    assert_eq!(MyAuthService {}.login(""), "Hello !");
}
