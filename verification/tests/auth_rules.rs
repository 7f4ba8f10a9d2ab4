use neutrino_drive::auth::{authenticate, authenticate_at, bearer_token, claims_from_decoded, TokenService};
use neutrino_drive::error::ApiError;

fn token(secret: &str, sub: &str, email: &str, exp: i64) -> String {
    let mut claims = serde_json::Map::new();
    claims.insert("sub".to_string(), serde_json::Value::String(sub.to_string()));
    claims.insert("email".to_string(), serde_json::Value::String(email.to_string()));
    claims.insert("exp".to_string(), serde_json::Value::from(exp));
    claims.insert("iat".to_string(), serde_json::Value::from(exp - 900));
    jsonwebtoken::encode(
        &jsonwebtoken::Header::default(),
        &serde_json::Value::Object(claims),
        &jsonwebtoken::EncodingKey::from_secret(secret.as_bytes()),
    )
    .unwrap()
}

fn later() -> i64 {
    chrono::Utc::now().timestamp() + 3600
}

#[test]
fn a_valid_bearer_token_names_the_caller() {
    let t = TokenService::new("s3cret".into());
    let header = format!("Bearer {}", token("s3cret", "u1", "u1@example.com", later()));
    let u = authenticate(&t, Some(&header)).unwrap();
    assert_eq!(u.user_id, "u1");
    assert_eq!(u.email, "u1@example.com");
    assert!(!u.is_admin);
    let c = t.validate_access_token(&token("s3cret", "u2", "e", later())).unwrap();
    assert_eq!(c.sub, "u2");
}

#[test]
fn bad_tokens_are_refused() {
    let t = TokenService::new("s3cret".into());
    assert_eq!(authenticate(&t, None).unwrap_err(), ApiError::InvalidToken);
    let raw = token("s3cret", "u1", "e", later());
    assert_eq!(authenticate(&t, Some(&raw)).unwrap_err(), ApiError::InvalidToken);
    let wrong = format!("Bearer {}", token("other", "u1", "e", later()));
    assert_eq!(authenticate(&t, Some(&wrong)).unwrap_err(), ApiError::InvalidToken);
    let expired = format!("Bearer {}", token("s3cret", "u1", "e", 1_000_000));
    assert_eq!(authenticate(&t, Some(&expired)).unwrap_err(), ApiError::InvalidToken);
    assert_eq!(t.validate_access_token("not a token").unwrap_err(), ApiError::InvalidToken);
}

#[test]
fn bearer_headers_and_claims() {
    assert_eq!(bearer_token(Some("Bearer abc")), Some("abc"));
    assert_eq!(bearer_token(Some("Basic abc")), None);
    assert_eq!(bearer_token(None), None);
    assert_eq!(claims_from_decoded(None, 0).unwrap_err(), ApiError::InvalidToken);
    let c = claims_from_decoded(Some(("s".into(), "e".into(), 2, 1)), 62).unwrap();
    assert_eq!((c.sub.as_str(), c.email.as_str(), c.exp, c.iat), ("s", "e", 2, 1));
    assert_eq!(claims_from_decoded(Some(("s".into(), "e".into(), 2, 1)), 63).unwrap_err(), ApiError::InvalidToken);
}

#[test]
fn expiry_is_checked_against_the_given_time_with_a_minute_of_leeway() {
    let t = TokenService::new("s3cret".into());
    let tok = token("s3cret", "u7", "u7@example.com", 1_000_000);
    let c = t.validate_access_token_at(&tok, 1_000_060).unwrap();
    assert_eq!((c.sub.as_str(), c.exp, c.iat), ("u7", 1_000_000, 999_100));
    assert_eq!(t.validate_access_token_at(&tok, 1_000_061).unwrap_err(), ApiError::InvalidToken);
    assert_eq!(t.validate_access_token_at(&tok, 0).unwrap().email, "u7@example.com");

    let header = format!("Bearer {tok}");
    let u = authenticate_at(&t, Some(&header), 999_999).unwrap();
    assert_eq!((u.user_id.as_str(), u.is_admin), ("u7", false));
    assert_eq!(authenticate_at(&t, Some(&header), 2_000_000).unwrap_err(), ApiError::InvalidToken);

    let other = TokenService::new("different".into());
    assert_eq!(other.validate_access_token_at(&tok, 999_999).unwrap_err(), ApiError::InvalidToken);
    assert_eq!(authenticate_at(&other, Some(&header), 999_999).unwrap_err(), ApiError::InvalidToken);
}
