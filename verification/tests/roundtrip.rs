use jwt_auth::claims::ClaimValue;
use jwt_auth::claims::Claims;
use jwt_auth::config::Config;
use jwt_auth::errors::VerificationError;
use jwt_auth::key::Algorithm;
use jwt_auth::key::JwtKey;
use jwt_auth::key::Key;
use jwt_auth::key::KeyData;
use jwt_auth::key::KeyFormat;
use jwt_auth::layers::AddJwtLayer;
use jwt_auth::layers::KeyCache;
use jwt_auth::layers::ResolutionOutcome;
use jwt_auth::layers::ValidateJwtLayer;

const NOW: u64 = 1_700_000_000;

fn key_with(alg: Algorithm, secret: &str) -> Key {
    Key {
        algorithm: alg,
        format: KeyFormat::Pem,
        key: KeyData::Str(secret.to_string()),
    }
}

fn scenario_claims() -> Claims {
    Claims::new(
        Some(vec!["svc-b".to_string()]),
        Some("svc-a".to_string()),
        Some("agent-1".to_string()),
        None,
    )
}

fn client_layer(claims: Claims, secret: &str) -> AddJwtLayer {
    let config = Config::new(
        claims,
        3600,
        JwtKey::Encoding(key_with(Algorithm::HS256, secret)),
    );
    config.get_client_layer().unwrap()
}

fn server_layer(claims: Claims, secret: &str) -> ValidateJwtLayer {
    let config = Config::new(
        claims,
        3600,
        JwtKey::Decoding(key_with(Algorithm::HS256, secret)),
    );
    config.get_server_layer().unwrap()
}

#[test]
fn scenario_sign_then_verify() {
    // Client asserts issuer/audience/subject; server expects issuer and
    // audience.  A freshly signed call is accepted; the same call
    // checked one second past its expiry is rejected.
    let client = client_layer(scenario_claims(), "secret");
    let server = server_layer(
        Claims::new(
            Some(vec!["svc-b".to_string()]),
            Some("svc-a".to_string()),
            None,
            None,
        ),
        "secret",
    );

    let token = client.token_for_call(NOW).unwrap();
    let accepted = server.check_call(Some(token.as_str()), NOW + 1);
    assert!(accepted.is_ok());
    let claims = accepted.unwrap();
    assert_eq!(claims.iss, Some("svc-a".to_string()));
    assert_eq!(claims.aud, Some(vec!["svc-b".to_string()]));
    assert_eq!(claims.sub, Some("agent-1".to_string()));
    assert_eq!(claims.iat, NOW);
    assert_eq!(claims.exp, NOW + 3600);

    // Replayed after expiry: `exp` is one second in the past.
    let replay = server.check_call(Some(token.as_str()), NOW + 3601);
    assert_eq!(replay.unwrap_err(), VerificationError::Expired);
}

#[test]
fn token_has_canonical_header_and_signature_length() {
    let client = client_layer(scenario_claims(), "secret");
    let token = client.token_for_call(NOW).unwrap();
    let parts: Vec<&str> = token.split('.').collect();
    assert_eq!(parts.len(), 3);
    // base64url of {"alg":"HS256","typ":"JWT"}
    assert_eq!(parts[0], "eyJhbGciOiJIUzI1NiIsInR5cCI6IkpXVCJ9");
    // base64url of a 32-byte HMAC-SHA-256 tag, unpadded
    assert_eq!(parts[2].len(), 43);
}

#[test]
fn expiry_boundary() {
    let client = client_layer(scenario_claims(), "secret");
    let server = server_layer(scenario_claims(), "secret");
    let token = client.token_for_call(NOW).unwrap();
    // Last instant before expiry is accepted; the expiry instant is not.
    assert!(server.check_call(Some(token.as_str()), NOW + 3599).is_ok());
    assert_eq!(
        server.check_call(Some(token.as_str()), NOW + 3600).unwrap_err(),
        VerificationError::Expired
    );
}

#[test]
fn missing_token_is_rejected() {
    let server = server_layer(scenario_claims(), "secret");
    assert_eq!(
        server.check_call(None, NOW).unwrap_err(),
        VerificationError::MissingToken
    );
}

#[test]
fn tampered_token_is_rejected() {
    let client = client_layer(scenario_claims(), "secret");
    let server = server_layer(scenario_claims(), "secret");
    let token = client.token_for_call(NOW).unwrap();

    // Flip the last signature character.
    let mut tampered = token.clone();
    let last = tampered.pop().unwrap();
    tampered.push(if last == 'A' { 'B' } else { 'A' });
    assert_eq!(
        server.check_call(Some(tampered.as_str()), NOW).unwrap_err(),
        VerificationError::SignatureMismatch
    );

    // Not shaped header.payload.signature at all.
    assert_eq!(
        server.check_call(Some("not-a-token"), NOW).unwrap_err(),
        VerificationError::MalformedToken
    );
}

#[test]
fn wrong_key_is_rejected() {
    let client = client_layer(scenario_claims(), "secret");
    let server = server_layer(scenario_claims(), "other-secret");
    let token = client.token_for_call(NOW).unwrap();
    assert_eq!(
        server.check_call(Some(token.as_str()), NOW).unwrap_err(),
        VerificationError::SignatureMismatch
    );
}

#[test]
fn changed_expected_claims_reject() {
    let client = client_layer(scenario_claims(), "secret");
    let token = client.token_for_call(NOW).unwrap();

    let wrong_issuer = server_layer(
        Claims::new(
            Some(vec!["svc-b".to_string()]),
            Some("svc-x".to_string()),
            Some("agent-1".to_string()),
            None,
        ),
        "secret",
    );
    assert_eq!(
        wrong_issuer.check_call(Some(token.as_str()), NOW).unwrap_err(),
        VerificationError::IssuerMismatch
    );

    let wrong_audience = server_layer(
        Claims::new(
            Some(vec!["svc-c".to_string()]),
            Some("svc-a".to_string()),
            Some("agent-1".to_string()),
            None,
        ),
        "secret",
    );
    assert_eq!(
        wrong_audience.check_call(Some(token.as_str()), NOW).unwrap_err(),
        VerificationError::AudienceMismatch
    );

    let wrong_subject = server_layer(
        Claims::new(
            Some(vec!["svc-b".to_string()]),
            Some("svc-a".to_string()),
            Some("agent-2".to_string()),
            None,
        ),
        "secret",
    );
    assert_eq!(
        wrong_subject.check_call(Some(token.as_str()), NOW).unwrap_err(),
        VerificationError::SubjectMismatch
    );

    // Unconfigured fields are not checked.
    let lax = server_layer(Claims::new(None, None, None, None), "secret");
    assert!(lax.check_call(Some(token.as_str()), NOW).is_ok());
}

fn custom_claims() -> Vec<(String, ClaimValue)> {
    vec![
        ("team".to_string(), ClaimValue::Str("core".to_string())),
        ("level".to_string(), ClaimValue::Int(-3)),
        ("beta".to_string(), ClaimValue::Bool(true)),
        ("note".to_string(), ClaimValue::Null),
        (
            "quote\"and\\slash\n".to_string(),
            ClaimValue::Str("va\"l\\u\0e".to_string()),
        ),
    ]
}

#[test]
fn custom_claims_round_trip() {
    let claims = Claims::new(
        None,
        Some("svc-a".to_string()),
        None,
        Some(custom_claims()),
    );
    let client = client_layer(claims.clone(), "secret");
    let server = server_layer(claims, "secret");
    let token = client.token_for_call(NOW).unwrap();
    let accepted = server.check_call(Some(token.as_str()), NOW);
    assert!(accepted.is_ok());
}

#[test]
fn changed_custom_claim_rejects() {
    let signed = Claims::new(None, Some("svc-a".to_string()), None, Some(custom_claims()));
    let client = client_layer(signed, "secret");
    let token = client.token_for_call(NOW).unwrap();

    let mut changed = custom_claims();
    changed[1].1 = ClaimValue::Int(-4);
    let server = server_layer(
        Claims::new(None, Some("svc-a".to_string()), None, Some(changed)),
        "secret",
    );
    assert_eq!(
        server.check_call(Some(token.as_str()), NOW).unwrap_err(),
        VerificationError::CustomClaimMismatch
    );

    // A configured claim absent from the token also rejects.
    let mut extra = custom_claims();
    extra.push(("missing".to_string(), ClaimValue::Bool(false)));
    let server = server_layer(
        Claims::new(None, Some("svc-a".to_string()), None, Some(extra)),
        "secret",
    );
    assert_eq!(
        server.check_call(Some(token.as_str()), NOW).unwrap_err(),
        VerificationError::CustomClaimMismatch
    );
}

#[test]
fn extra_token_custom_claims_are_not_checked() {
    // The token asserts more custom claims than the server configures:
    // only the configured ones are compared.
    let signed = Claims::new(None, Some("svc-a".to_string()), None, Some(custom_claims()));
    let client = client_layer(signed, "secret");
    let token = client.token_for_call(NOW).unwrap();

    let server = server_layer(
        Claims::new(
            None,
            Some("svc-a".to_string()),
            None,
            Some(vec![("beta".to_string(), ClaimValue::Bool(true))]),
        ),
        "secret",
    );
    assert!(server.check_call(Some(token.as_str()), NOW).is_ok());
}

#[test]
fn audience_list_must_match_exactly() {
    // The audience is compared as a whole list, in order.
    let client = client_layer(
        Claims::new(
            Some(vec!["svc-b".to_string(), "svc-c".to_string()]),
            Some("svc-a".to_string()),
            None,
            None,
        ),
        "secret",
    );
    let token = client.token_for_call(NOW).unwrap();

    let subset = server_layer(
        Claims::new(Some(vec!["svc-b".to_string()]), None, None, None),
        "secret",
    );
    assert_eq!(
        subset.check_call(Some(token.as_str()), NOW).unwrap_err(),
        VerificationError::AudienceMismatch
    );

    let exact = server_layer(
        Claims::new(
            Some(vec!["svc-b".to_string(), "svc-c".to_string()]),
            None,
            None,
            None,
        ),
        "secret",
    );
    assert!(exact.check_call(Some(token.as_str()), NOW).is_ok());
}

fn autoresolve_layer(claims: Claims) -> ValidateJwtLayer {
    let config = Config::new(claims, 3600, JwtKey::Autoresolve(true));
    config.get_server_layer().unwrap()
}

#[test]
fn autoresolve_resolves_and_caches() {
    let client = client_layer(scenario_claims(), "secret");
    let server = autoresolve_layer(scenario_claims());
    let token = client.token_for_call(NOW).unwrap();
    let mut cache = KeyCache::new();

    // Cache miss: the freshly resolved key verifies and is cached.
    let fresh = ResolutionOutcome::Resolved(key_with(Algorithm::HS256, "secret"));
    assert!(server
        .check_call_resolved(Some(token.as_str()), NOW, &mut cache, &fresh)
        .is_ok());

    // Second call: the cached key suffices even when resolution fails.
    assert!(server
        .check_call_resolved(Some(token.as_str()), NOW, &mut cache, &ResolutionOutcome::Failed)
        .is_ok());
}

#[test]
fn autoresolve_retry_after_rotation() {
    let client = client_layer(scenario_claims(), "rotated-secret");
    let server = autoresolve_layer(scenario_claims());
    let token = client.token_for_call(NOW).unwrap();

    // The cached key is stale: one re-resolution cures it.
    let mut cache = KeyCache::new();
    cache.put("svc-a".to_string(), key_with(Algorithm::HS256, "old-secret"));
    let fresh = ResolutionOutcome::Resolved(key_with(Algorithm::HS256, "rotated-secret"));
    assert!(server
        .check_call_resolved(Some(token.as_str()), NOW, &mut cache, &fresh)
        .is_ok());

    // Stale key and failed resolution: rejected, with the resolution cause.
    let mut cache = KeyCache::new();
    cache.put("svc-a".to_string(), key_with(Algorithm::HS256, "old-secret"));
    assert_eq!(
        server
            .check_call_resolved(Some(token.as_str()), NOW, &mut cache, &ResolutionOutcome::Failed)
            .unwrap_err(),
        VerificationError::ResolutionFailed
    );
}

#[test]
fn autoresolve_missing_token_and_failed_lookup() {
    let server = autoresolve_layer(scenario_claims());
    let mut cache = KeyCache::new();
    assert_eq!(
        server
            .check_call_resolved(None, NOW, &mut cache, &ResolutionOutcome::Failed)
            .unwrap_err(),
        VerificationError::MissingToken
    );

    let client = client_layer(scenario_claims(), "secret");
    let token = client.token_for_call(NOW).unwrap();
    assert_eq!(
        server
            .check_call_resolved(Some(token.as_str()), NOW, &mut cache, &ResolutionOutcome::Failed)
            .unwrap_err(),
        VerificationError::ResolutionFailed
    );
}

#[test]
fn candidate_decision_is_exact() {
    let client = client_layer(scenario_claims(), "secret");
    let server = server_layer(scenario_claims(), "secret");
    let token = client.token_for_call(NOW).unwrap();

    let candidate = jwt_auth::token::parse_token(token.as_str()).unwrap();
    assert!(server.check_candidate(token.as_str(), &candidate, NOW).is_ok());

    // A different reading of the same token is not accepted.
    let mut wrong = jwt_auth::token::parse_token(token.as_str()).unwrap();
    wrong.exp += 1;
    assert_eq!(
        server.check_candidate(token.as_str(), &wrong, NOW).unwrap_err(),
        VerificationError::SignatureMismatch
    );
}

#[test]
fn candidate_retry_after_rotation() {
    let client = client_layer(scenario_claims(), "rotated-secret");
    let server = autoresolve_layer(scenario_claims());
    let token = client.token_for_call(NOW).unwrap();
    let candidate = jwt_auth::token::parse_token(token.as_str()).unwrap();

    let mut cache = KeyCache::new();
    cache.put("svc-a".to_string(), key_with(Algorithm::HS256, "old-secret"));
    let fresh = ResolutionOutcome::Resolved(key_with(Algorithm::HS256, "rotated-secret"));
    assert!(server
        .check_candidate_resolved(token.as_str(), &candidate, NOW, &mut cache, &fresh)
        .is_ok());

    // The rotated key was cached: a later call needs no resolution.
    assert!(server
        .check_candidate_resolved(
            token.as_str(),
            &candidate,
            NOW,
            &mut cache,
            &ResolutionOutcome::Failed
        )
        .is_ok());
}

#[test]
fn other_algorithms_round_trip() {
    for alg in [Algorithm::HS384, Algorithm::HS512] {
        let client_config = Config::new(
            scenario_claims(),
            3600,
            JwtKey::Encoding(key_with(alg, "secret")),
        );
        let server_config = Config::new(
            scenario_claims(),
            3600,
            JwtKey::Decoding(key_with(alg, "secret")),
        );
        let token = client_config
            .get_client_layer()
            .unwrap()
            .token_for_call(NOW)
            .unwrap();
        assert!(server_config
            .get_server_layer()
            .unwrap()
            .check_call(Some(token.as_str()), NOW)
            .is_ok());
    }
}

#[test]
fn expiry_overflow_is_reported() {
    let client = client_layer(scenario_claims(), "secret");
    let err = client.token_for_call(u64::MAX).unwrap_err();
    assert_eq!(err, jwt_auth::errors::SigningError::ExpiryOverflow);
}
