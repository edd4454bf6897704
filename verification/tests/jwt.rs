use jwt_auth::claims::ClaimValue;
use jwt_auth::claims::Claims;
use jwt_auth::config::Config;
use jwt_auth::config::default_duration;
use jwt_auth::errors::AuthError;
use jwt_auth::key::Algorithm;
use jwt_auth::key::JwtKey;
use jwt_auth::key::Key;
use jwt_auth::key::KeyData;
use jwt_auth::key::KeyFormat;

fn hs256_key(secret: &str) -> Key {
    Key {
        algorithm: Algorithm::HS256,
        format: KeyFormat::Pem,
        key: KeyData::Str(secret.to_string()),
    }
}

#[test]
fn test_config() {
    let claims = Claims::new(
        Some(vec!["audience".to_string()]),
        Some("issuer".to_string()),
        Some("subject".to_string()),
        None,
    );

    let key = JwtKey::Encoding(hs256_key("test-key"));

    let config = Config::new(claims.clone(), 3600, key);

    assert_eq!(config.claims(), &claims);
    assert_eq!(config.duration(), 3600);
}

#[test]
fn test_authenticator() {
    let claims = Claims::new(
        Some(vec!["audience".to_string()]),
        Some("issuer".to_string()),
        Some("subject".to_string()),
        None,
    );

    let encoding_key = JwtKey::Encoding(hs256_key("test-key"));
    let decoding_key = JwtKey::Decoding(hs256_key("test-key"));

    let client_config = Config::new(claims.clone(), 3600, encoding_key);
    let server_config = Config::new(claims.clone(), 3600, decoding_key);

    // Construct a client layer that adds a JWT token.
    let _client = client_config.get_client_layer().unwrap();

    // Construct a server layer that verifies the JWT token.
    let _server = server_config.get_server_layer().unwrap();
}

#[test]
fn default_duration_is_one_hour() {
    assert_eq!(default_duration(), 3600);
}

#[test]
fn claims_builder_functional_update() {
    let base = Claims::default();
    assert!(base.issuer().is_none());
    assert!(base.audience().is_none());
    assert!(base.subject().is_none());
    assert!(base.custom_claims().is_none());

    let with_iss = base.with_issuer("svc-a".to_string());
    assert_eq!(with_iss.issuer(), &Some("svc-a".to_string()));
    assert!(with_iss.audience().is_none());

    let with_aud = with_iss.with_audience(vec!["svc-b".to_string()]);
    assert_eq!(with_aud.issuer(), &Some("svc-a".to_string()));
    assert_eq!(with_aud.audience(), &Some(vec!["svc-b".to_string()]));

    let with_sub = with_aud.with_subject("agent-1".to_string());
    assert_eq!(with_sub.subject(), &Some("agent-1".to_string()));
    assert_eq!(with_sub.issuer(), &Some("svc-a".to_string()));

    let full = with_sub.with_custom_claims(vec![(
        "team".to_string(),
        ClaimValue::Str("core".to_string()),
    )]);
    assert_eq!(full.issuer(), &Some("svc-a".to_string()));
    assert_eq!(full.audience(), &Some(vec!["svc-b".to_string()]));
    assert_eq!(full.subject(), &Some("agent-1".to_string()));
    assert!(full.custom_claims().is_some());
}

#[test]
fn config_with_key_and_with_claims() {
    let config = Config::new(Claims::default(), 60, JwtKey::Autoresolve(false));
    let config = config.with_key(JwtKey::Encoding(hs256_key("k")));
    assert!(matches!(config.key(), JwtKey::Encoding(_)));
    let claims = Claims::default().with_issuer("svc".to_string());
    let config = config.with_claims(claims.clone());
    assert_eq!(config.claims(), &claims);
    assert_eq!(config.duration(), 60);
}

#[test]
fn client_layer_requires_encoding_key() {
    let config = Config::new(Claims::default(), 3600, JwtKey::Decoding(hs256_key("k")));
    match config.get_client_layer() {
        Ok(_) => panic!("a decoding key must not build a client layer"),
        Err(AuthError::ConfigError(m)) => {
            assert_eq!(m, "Encoding key is required for client authentication");
        }
    }

    let config = Config::new(Claims::default(), 3600, JwtKey::Autoresolve(true));
    match config.get_client_layer() {
        Ok(_) => panic!("autoresolve must not build a client layer"),
        Err(e) => assert_eq!(
            e.message().as_str(),
            "Encoding key is required for client authentication"
        ),
    }
}

#[test]
fn server_layer_requires_decoding_key_or_autoresolve() {
    let config = Config::new(Claims::default(), 3600, JwtKey::Encoding(hs256_key("k")));
    match config.get_server_layer() {
        Ok(_) => panic!("an encoding key must not build a server layer"),
        Err(AuthError::ConfigError(m)) => {
            assert_eq!(
                m,
                "Decoding key or autoresolve = true is required for server authentication"
            );
        }
    }

    let config = Config::new(Claims::default(), 3600, JwtKey::Autoresolve(false));
    assert!(config.get_server_layer().is_err());

    let config = Config::new(Claims::default(), 3600, JwtKey::Autoresolve(true));
    assert!(config.get_server_layer().is_ok());

    let config = Config::new(Claims::default(), 3600, JwtKey::Decoding(hs256_key("k")));
    assert!(config.get_server_layer().is_ok());
}
