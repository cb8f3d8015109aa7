use blog_auth::token::{generate_jwt, validate_jwt, JwtConfig, TokenError, TOKEN_LIFETIME};

const ISSUED: u64 = 1_700_000_000;

fn config(secret: &str) -> JwtConfig {
    JwtConfig::new(secret.as_bytes().to_vec())
}

#[test]
fn round_trip_gives_subject_and_expiry() {
    let cfg = config("s3cret");
    let token = generate_jwt(&cfg, "alice@example.com", ISSUED).unwrap();
    let claims = validate_jwt(&cfg, &token, ISSUED + 10).unwrap();
    assert_eq!(claims.subject(), "alice@example.com");
    assert_eq!(claims.expires_at(), ISSUED + 3600);
    assert_eq!(claims.sub, "alice@example.com");
    assert_eq!(claims.exp, ISSUED + TOKEN_LIFETIME);
}

#[test]
fn token_is_three_dot_separated_parts() {
    let cfg = config("s3cret");
    let token = generate_jwt(&cfg, "alice@example.com", ISSUED).unwrap();
    assert_eq!(token.split('.').count(), 3);
    assert_ne!(token, "alice@example.com");
}

#[test]
fn token_accepted_one_second_before_expiry() {
    let cfg = config("s3cret");
    let token = generate_jwt(&cfg, "bob@example.com", ISSUED).unwrap();
    let claims = validate_jwt(&cfg, &token, ISSUED + 3599).unwrap();
    assert_eq!(claims.subject(), "bob@example.com");
}

#[test]
fn token_refused_at_expiry() {
    let cfg = config("s3cret");
    let token = generate_jwt(&cfg, "bob@example.com", ISSUED).unwrap();
    assert_eq!(validate_jwt(&cfg, &token, ISSUED + 3600).err(), Some(TokenError::Expired));
    assert_eq!(validate_jwt(&cfg, &token, ISSUED + 100_000).err(), Some(TokenError::Expired));
}

#[test]
fn expired_token_under_other_secret_is_reported_expired() {
    let token = generate_jwt(&config("first"), "carol@example.com", ISSUED).unwrap();
    let outcome = validate_jwt(&config("second"), &token, ISSUED + 7200);
    assert_eq!(outcome.err(), Some(TokenError::Expired));
}

#[test]
fn token_under_other_secret_is_signature_mismatch() {
    let token = generate_jwt(&config("first"), "carol@example.com", ISSUED).unwrap();
    let outcome = validate_jwt(&config("second"), &token, ISSUED + 1);
    assert_eq!(outcome.err(), Some(TokenError::SignatureMismatch));
}

#[test]
fn token_with_swapped_payload_is_signature_mismatch() {
    let cfg = config("s3cret");
    let a = generate_jwt(&cfg, "alice@example.com", ISSUED).unwrap();
    let m = generate_jwt(&cfg, "mallory@example.com", ISSUED).unwrap();
    let a_parts: Vec<&str> = a.split('.').collect();
    let m_parts: Vec<&str> = m.split('.').collect();
    let forged = format!("{}.{}.{}", a_parts[0], m_parts[1], a_parts[2]);
    assert_eq!(validate_jwt(&cfg, &forged, ISSUED + 1).err(), Some(TokenError::SignatureMismatch));
}

#[test]
fn malformed_tokens_are_refused() {
    let cfg = config("s3cret");
    for bad in ["", "not-a-token", "a.b.c", "a.b", "...."] {
        assert_eq!(validate_jwt(&cfg, bad, ISSUED).err(), Some(TokenError::MalformedToken));
    }
}

#[test]
fn non_ascii_subject_round_trips() {
    let cfg = config("s3cret");
    let subject = "zoë.ñandú@例え.jp 🚀";
    let token = generate_jwt(&cfg, subject, ISSUED).unwrap();
    assert_eq!(validate_jwt(&cfg, &token, ISSUED).unwrap().subject(), subject);
}

#[test]
fn thousand_distinct_subjects_round_trip() {
    let cfg = config("s3cret");
    for i in 0..1000u64 {
        let subject = format!("user{}-ü{}-日本-{}@example.com", i, "é".repeat((i % 7) as usize), i * 31);
        let token = generate_jwt(&cfg, &subject, ISSUED + i).unwrap();
        let claims = validate_jwt(&cfg, &token, ISSUED + i + 1).unwrap();
        assert_eq!(claims.sub, subject);
        assert_eq!(claims.exp, ISSUED + i + 3600);
    }
}

#[test]
fn empty_subject_round_trips() {
    let cfg = config("s3cret");
    let token = generate_jwt(&cfg, "", ISSUED).unwrap();
    assert_eq!(validate_jwt(&cfg, &token, ISSUED).unwrap().subject(), "");
}

#[test]
fn largest_issue_time_is_accepted() {
    let cfg = config("s3cret");
    let now = u64::MAX - TOKEN_LIFETIME;
    let token = generate_jwt(&cfg, "late@example.com", now).unwrap();
    let claims = validate_jwt(&cfg, &token, now).unwrap();
    assert_eq!(claims.exp, u64::MAX);
}

#[test]
fn missing_secret_variable_is_signing_unavailable() {
    assert_eq!(JwtConfig::from_env_value(None).err(), Some(TokenError::SigningUnavailable));
}

#[test]
fn secret_from_variable_signs_and_checks() {
    let cfg = JwtConfig::from_env_value(Some("from-env".to_string())).unwrap();
    let token = generate_jwt(&cfg, "dan@example.com", ISSUED).unwrap();
    assert!(validate_jwt(&config("from-env"), &token, ISSUED).is_ok());
    assert!(validate_jwt(&cfg.duplicate(), &token, ISSUED).is_ok());
}

#[test]
fn issuing_is_deterministic() {
    let cfg = config("s3cret");
    let a = generate_jwt(&cfg, "alice@example.com", ISSUED).unwrap();
    let b = generate_jwt(&cfg, "alice@example.com", ISSUED).unwrap();
    assert_eq!(a, b);
    let c = generate_jwt(&cfg, "alice@example.com", ISSUED + 1).unwrap();
    assert_ne!(a, c);
}
