use mini_book::clock::unix_now;
use mini_book::hasher::{hash_password, verify_password};
use mini_book::token::{
    check_decoded, issue, validate, Claims, DecodeFailure, RawClaims, TokenError,
    TOKEN_VALIDITY_SECS,
};

fn forged(payload: serde_json::Map<String, serde_json::Value>, secret: &str) -> String {
    jsonwebtoken::encode(
        &jsonwebtoken::Header::default(),
        &payload,
        &jsonwebtoken::EncodingKey::from_secret(secret.as_bytes()),
    )
    .unwrap()
}

fn payload(sub: Option<i64>, role: Option<&str>, exp: Option<u64>) -> serde_json::Map<String, serde_json::Value> {
    let mut map = serde_json::Map::new();
    if let Some(sub) = sub {
        map.insert("sub".to_string(), serde_json::Value::from(sub));
    }
    if let Some(role) = role {
        map.insert("role".to_string(), serde_json::Value::from(role));
    }
    if let Some(exp) = exp {
        map.insert("exp".to_string(), serde_json::Value::from(exp));
    }
    map
}

#[test]
fn hashed_password_verifies() {
    let digest = hash_password("secret1").unwrap();
    assert_ne!(digest, "secret1");
    assert!(digest.starts_with("$2b$12$"));
    assert_eq!(digest.len(), 60);
    assert_eq!(verify_password("secret1", &digest).unwrap(), true);
    assert_eq!(verify_password("wrong", &digest).unwrap(), false);
}

#[test]
fn two_hashes_of_one_password_differ_and_both_verify() {
    let first = hash_password("secret1").unwrap();
    let second = hash_password("secret1").unwrap();
    assert_ne!(first, second);
    assert!(verify_password("secret1", &second).unwrap());
}

#[test]
fn known_digest_is_checked() {
    let digest = "$2y$05$bvIG6Nmid91Mu9RcmmWZfO5HJIMCT8riNW0hEp8f6/FuA2/mHZFpe";
    assert_eq!(verify_password("password", digest).unwrap(), true);
    assert_eq!(verify_password("Password", digest).unwrap(), false);
}

#[test]
fn malformed_digest_is_an_error() {
    assert!(verify_password("secret1", "not a digest").is_err());
    assert!(verify_password("secret1", "").is_err());
    assert!(verify_password("secret1", "$9z$12$L6Bc/AlTQHyd9liGgGEZyOFLPHNgyxeEPfgYfBCVxJ7JIlwxyVU3u").is_err());
    let error = verify_password("secret1", "$2b$12$short").unwrap_err();
    assert!(!error.detail.is_empty());
}

#[test]
fn issued_token_validates_until_expiry() {
    let claims = Claims { sub: 7, role: "user".to_string(), exp: 1_000_000 };
    let token = issue(&claims, "meowmeow").unwrap();
    assert_eq!(token.split('.').count(), 3);
    let back = validate(&token, "meowmeow", 999_999).unwrap();
    assert_eq!(back.sub, 7);
    assert_eq!(back.role, "user");
    assert_eq!(back.exp, 1_000_000);
    assert_eq!(validate(&token, "meowmeow", 1_000_000).unwrap_err(), TokenError::Expired);
    assert_eq!(validate(&token, "meowmeow", 1_000_001).unwrap_err(), TokenError::Expired);
    assert_eq!(validate(&token, "meowmeow", u64::MAX).unwrap_err(), TokenError::Expired);
    assert_eq!(validate(&token, "meowmeow", 0).unwrap().sub, 7);
}

#[test]
fn token_expires_four_hours_after_issuance() {
    let issued_at: u64 = 1_700_000_000;
    assert_eq!(TOKEN_VALIDITY_SECS, 4 * 60 * 60);
    let claims = Claims { sub: 1, role: "user".to_string(), exp: issued_at + TOKEN_VALIDITY_SECS };
    let token = issue(&claims, "meowmeow").unwrap();
    let at_3h59m = issued_at + 3 * 3600 + 59 * 60;
    assert_eq!(validate(&token, "meowmeow", at_3h59m).unwrap().sub, 1);
    assert_eq!(validate(&token, "meowmeow", issued_at + 4 * 3600 - 1).unwrap().sub, 1);
    assert_eq!(validate(&token, "meowmeow", issued_at + 4 * 3600).unwrap_err(), TokenError::Expired);
    assert_eq!(validate(&token, "meowmeow", issued_at + 4 * 3600 + 1).unwrap_err(), TokenError::Expired);
    assert_eq!(validate(&token, "meowmeow", issued_at + 5 * 3600).unwrap_err(), TokenError::Expired);
}

#[test]
fn token_is_not_accepted_within_a_minute_after_expiry() {
    let claims = Claims { sub: 1, role: "user".to_string(), exp: 2_000_000_000 };
    let token = issue(&claims, "meowmeow").unwrap();
    assert_eq!(validate(&token, "meowmeow", 2_000_000_030).unwrap_err(), TokenError::Expired);
    assert_eq!(validate(&token, "meowmeow", 2_000_000_059).unwrap_err(), TokenError::Expired);
}

#[test]
fn issue_is_deterministic() {
    let claims = Claims { sub: 42, role: "user".to_string(), exp: 1_900_000_000 };
    let again = Claims { sub: 42, role: "user".to_string(), exp: 1_900_000_000 };
    assert_eq!(issue(&claims, "k").unwrap(), issue(&again, "k").unwrap());
    let other = Claims { sub: 43, role: "user".to_string(), exp: 1_900_000_000 };
    assert_ne!(issue(&claims, "k").unwrap(), issue(&other, "k").unwrap());
    assert_ne!(issue(&claims, "k").unwrap(), issue(&claims, "l").unwrap());
}

#[test]
fn token_signed_with_another_secret_is_refused() {
    for sub in [1, 2, -5, i32::MAX] {
        for role in ["user", "admin", ""] {
            let claims = Claims { sub, role: role.to_string(), exp: u64::MAX };
            let token = issue(&claims, "someone else's secret").unwrap();
            assert_eq!(validate(&token, "meowmeow", 0).unwrap_err(), TokenError::InvalidSignature);
            assert_eq!(validate(&token, "someone else's secret", 0).unwrap().sub, sub);
        }
    }
}

#[test]
fn tampered_token_is_refused() {
    let claims = Claims { sub: 7, role: "user".to_string(), exp: 1_000_000 };
    let token = issue(&claims, "meowmeow").unwrap();
    let other = issue(&Claims { sub: 8, role: "user".to_string(), exp: 1_000_000 }, "meowmeow").unwrap();
    let parts: Vec<&str> = token.split('.').collect();
    let other_parts: Vec<&str> = other.split('.').collect();
    let spliced = format!("{}.{}.{}", parts[0], other_parts[1], parts[2]);
    assert_eq!(validate(&spliced, "meowmeow", 0).unwrap_err(), TokenError::InvalidSignature);
}

#[test]
fn undecodable_tokens_are_malformed() {
    assert_eq!(validate("junk", "meowmeow", 5).unwrap_err(), TokenError::Malformed);
    assert_eq!(validate("", "meowmeow", 5).unwrap_err(), TokenError::Malformed);
    assert_eq!(validate("a.b", "meowmeow", 5).unwrap_err(), TokenError::Malformed);
    assert_eq!(validate("a.b.c.d", "meowmeow", 5).unwrap_err(), TokenError::Malformed);
}

#[test]
fn payload_of_another_shape_is_malformed() {
    let no_role = forged(payload(Some(1), None, Some(100)), "meowmeow");
    assert_eq!(validate(&no_role, "meowmeow", 5).unwrap_err(), TokenError::Malformed);
    let no_sub = forged(payload(None, Some("user"), Some(100)), "meowmeow");
    assert_eq!(validate(&no_sub, "meowmeow", 5).unwrap_err(), TokenError::Malformed);
    let no_exp = forged(payload(Some(1), Some("user"), None), "meowmeow");
    assert_eq!(validate(&no_exp, "meowmeow", 5).unwrap_err(), TokenError::Malformed);
    let wide_sub = forged(payload(Some(i32::MAX as i64 + 1), Some("user"), Some(100)), "meowmeow");
    assert_eq!(validate(&wide_sub, "meowmeow", 5).unwrap_err(), TokenError::Malformed);
    let low_sub = forged(payload(Some(i32::MIN as i64 - 1), Some("user"), Some(100)), "meowmeow");
    assert_eq!(validate(&low_sub, "meowmeow", 5).unwrap_err(), TokenError::Malformed);
    let mut text_sub = payload(None, Some("user"), Some(100));
    text_sub.insert("sub".to_string(), serde_json::Value::from("1"));
    let text_sub = forged(text_sub, "meowmeow");
    assert_eq!(validate(&text_sub, "meowmeow", 5).unwrap_err(), TokenError::Malformed);
    let edge = forged(payload(Some(i32::MIN as i64), Some("user"), Some(100)), "meowmeow");
    assert_eq!(validate(&edge, "meowmeow", 5).unwrap().sub, i32::MIN);
}

#[test]
fn token_of_another_algorithm_is_malformed() {
    let token = jsonwebtoken::encode(
        &jsonwebtoken::Header::new(jsonwebtoken::Algorithm::HS384),
        &payload(Some(1), Some("user"), Some(100)),
        &jsonwebtoken::EncodingKey::from_secret("meowmeow".as_bytes()),
    )
    .unwrap();
    assert_eq!(validate(&token, "meowmeow", 5).unwrap_err(), TokenError::Malformed);
}

#[test]
fn token_with_extra_claims_is_read() {
    let mut map = payload(Some(3), Some("user"), Some(100));
    map.insert("name".to_string(), serde_json::Value::from("x"));
    let token = forged(map, "meowmeow");
    let claims = validate(&token, "meowmeow", 99).unwrap();
    assert_eq!((claims.sub, claims.role.as_str(), claims.exp), (3, "user", 100));
}

#[test]
fn issued_token_is_read_by_the_codec_crate() {
    let claims = Claims { sub: 7, role: "user".to_string(), exp: 4_000_000_000 };
    let token = issue(&claims, "meowmeow").unwrap();
    let data = jsonwebtoken::decode::<serde_json::Value>(
        &token,
        &jsonwebtoken::DecodingKey::from_secret("meowmeow".as_bytes()),
        &jsonwebtoken::Validation::new(jsonwebtoken::Algorithm::HS256),
    )
    .unwrap();
    assert_eq!(data.header.alg, jsonwebtoken::Algorithm::HS256);
    assert_eq!(data.claims.get("sub").and_then(serde_json::Value::as_i64), Some(7));
    assert_eq!(data.claims.get("role").and_then(serde_json::Value::as_str), Some("user"));
    assert_eq!(data.claims.get("exp").and_then(serde_json::Value::as_u64), Some(4_000_000_000));
}

#[test]
fn check_decoded_decides_each_case() {
    let raw = |sub, role: Option<&str>, exp| RawClaims { sub, role: role.map(String::from), exp };
    assert_eq!(
        check_decoded(Err(DecodeFailure::InvalidSignature), 0).unwrap_err(),
        TokenError::InvalidSignature
    );
    assert_eq!(check_decoded(Err(DecodeFailure::Malformed), 0).unwrap_err(), TokenError::Malformed);
    assert_eq!(check_decoded(Ok(raw(None, Some("user"), Some(9))), 0).unwrap_err(), TokenError::Malformed);
    assert_eq!(check_decoded(Ok(raw(Some(1), None, Some(9))), 0).unwrap_err(), TokenError::Malformed);
    assert_eq!(check_decoded(Ok(raw(Some(1), Some("user"), None)), 0).unwrap_err(), TokenError::Malformed);
    assert_eq!(
        check_decoded(Ok(raw(Some(2147483648), Some("user"), Some(9))), 0).unwrap_err(),
        TokenError::Malformed
    );
    assert_eq!(
        check_decoded(Ok(raw(Some(2147483648), Some("user"), Some(9))), 10).unwrap_err(),
        TokenError::Malformed
    );
    assert_eq!(check_decoded(Ok(raw(Some(1), Some("user"), Some(9))), 9).unwrap_err(), TokenError::Expired);
    let claims = check_decoded(Ok(raw(Some(-1), Some("admin"), Some(9))), 8).unwrap();
    assert_eq!((claims.sub, claims.role.as_str(), claims.exp), (-1, "admin", 9));
}

#[test]
fn clock_reads_the_present() {
    let now = unix_now().unwrap();
    assert!(now > 1_600_000_000);
    let later = unix_now().unwrap();
    assert!(later >= now);
    assert!(later - now < 60);
}

#[test]
fn empty_password_and_empty_secret_are_handled() {
    let digest = hash_password("").unwrap();
    assert!(verify_password("", &digest).unwrap());
    assert!(!verify_password(" ", &digest).unwrap());
    let claims = Claims { sub: 1, role: String::new(), exp: 10 };
    let token = issue(&claims, "").unwrap();
    let back = validate(&token, "", 9).unwrap();
    assert_eq!((back.sub, back.role.as_str(), back.exp), (1, "", 10));
    assert_eq!(validate(&token, "x", 9).unwrap_err(), TokenError::InvalidSignature);
}

#[test]
fn role_text_survives_the_codec() {
    let role = "admin \"quoted\" \\ / \u{1F600} \n tab\t";
    let claims = Claims { sub: -7, role: role.to_string(), exp: u64::MAX };
    let token = issue(&claims, "meowmeow").unwrap();
    let back = validate(&token, "meowmeow", u64::MAX - 1).unwrap();
    assert_eq!((back.sub, back.role.as_str(), back.exp), (-7, role, u64::MAX));
}

#[test]
fn token_with_an_audience_is_malformed() {
    let mut map = payload(Some(3), Some("user"), Some(100));
    map.insert("aud".to_string(), serde_json::Value::from("someone"));
    let token = forged(map, "meowmeow");
    assert_eq!(validate(&token, "meowmeow", 99).unwrap_err(), TokenError::Malformed);
}

#[test]
fn long_password_is_hashed() {
    let long = "x".repeat(200);
    let digest = hash_password(&long).unwrap();
    assert!(verify_password(&long, &digest).unwrap());
    assert!(!verify_password("x", &digest).unwrap());
}
