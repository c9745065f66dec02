use service::claims::UserClaims;
use service::text::{bool_string, int_string, nat_string};
use service::token::{
    accept_claims, get_field_from_token, get_id, is_admin, is_author, is_moderator,
    is_token_valid, TokenField,
};

fn sign(claims: &UserClaims, key: &str) -> String {
    let mut m = serde_json::Map::new();
    m.insert("id".to_string(), serde_json::Value::from(claims.id));
    m.insert("nickname".to_string(), serde_json::Value::from(claims.nickname.clone()));
    m.insert("email".to_string(), serde_json::Value::from(claims.email.clone()));
    m.insert("is_admin".to_string(), serde_json::Value::from(claims.is_admin));
    m.insert("is_moderator".to_string(), serde_json::Value::from(claims.is_moderator));
    m.insert("is_author".to_string(), serde_json::Value::from(claims.is_author));
    m.insert("iat".to_string(), serde_json::Value::from(claims.iat));
    m.insert("exp".to_string(), serde_json::Value::from(claims.exp));
    jsonwebtoken::encode(
        &jsonwebtoken::Header::default(),
        &m,
        &jsonwebtoken::EncodingKey::from_secret(key.as_bytes()),
    )
    .unwrap()
}

/// Checks the signature only; the expiry is left to the library.
fn verify_signature(token: &str, key: &str) -> Option<UserClaims> {
    let mut validation = jsonwebtoken::Validation::default();
    validation.validate_exp = false;
    validation.required_spec_claims.clear();
    let data = jsonwebtoken::decode::<serde_json::Map<String, serde_json::Value>>(
        token,
        &jsonwebtoken::DecodingKey::from_secret(key.as_bytes()),
        &validation,
    )
    .ok()?;
    let m = data.claims;
    Some(UserClaims {
        id: i32::try_from(m.get("id")?.as_i64()?).ok()?,
        nickname: m.get("nickname")?.as_str()?.to_string(),
        email: m.get("email")?.as_str()?.to_string(),
        is_admin: m.get("is_admin")?.as_bool()?,
        is_moderator: m.get("is_moderator")?.as_bool()?,
        is_author: m.get("is_author")?.as_bool()?,
        iat: m.get("iat")?.as_i64()?,
        exp: m.get("exp")?.as_i64()?,
    })
}

fn decode(token: &str, key: &str, now: i64) -> Option<UserClaims> {
    accept_claims(verify_signature(token, key), now)
}

fn claims(email: &str, is_admin: bool, is_moderator: bool, is_author: bool) -> UserClaims {
    UserClaims {
        id: 1,
        nickname: "test".to_string(),
        email: email.to_string(),
        is_admin,
        is_moderator,
        is_author,
        iat: chrono::Utc::now().timestamp(),
        exp: chrono::Utc::now().timestamp() + 60 * 60 * 24,
    }
}

#[test]
fn test_is_token_valid_with_valid_token() {
    let key = "test123";
    let claims = claims("john.doe@example.com", false, false, false);
    let token = sign(&claims, key);
    let now = chrono::Utc::now().timestamp();
    assert!(is_token_valid(&verify_signature(&token, key), now));
}

#[test]
fn test_is_token_valid_with_invalid_token() {
    let key = "test123";
    let claims = claims("john.doe@example.com", false, false, false);
    let token = sign(&claims, key);
    let now = chrono::Utc::now().timestamp();
    assert!(!is_token_valid(&verify_signature(&token, "invalid_key"), now));
}

#[test]
fn test_get_field_from_token() {
    let key = "test123";
    let claims = claims("jane.doe@example.com", false, true, true);
    let token = sign(&claims, key);
    let now = chrono::Utc::now().timestamp();
    let accepted = decode(&token, key, now);

    assert_eq!(
        get_field_from_token(&accepted, TokenField::Id),
        Some(claims.id.to_string())
    );
    assert_eq!(
        get_field_from_token(&accepted, TokenField::Nickname),
        Some(claims.nickname.clone())
    );
    assert_eq!(
        get_field_from_token(&accepted, TokenField::Email),
        Some(claims.email.clone())
    );
    assert_eq!(
        get_field_from_token(&accepted, TokenField::IsAdmin),
        Some(claims.is_admin.to_string())
    );
    assert_eq!(
        get_field_from_token(&accepted, TokenField::IsModerator),
        Some(claims.is_moderator.to_string())
    );
    assert_eq!(
        get_field_from_token(&accepted, TokenField::IsAuthor),
        Some(claims.is_author.to_string())
    );
    assert_eq!(
        get_field_from_token(&accepted, TokenField::Iat),
        Some(claims.iat.to_string())
    );
    assert_eq!(
        get_field_from_token(&accepted, TokenField::Exp),
        Some(claims.exp.to_string())
    );

    let rejected = decode(&token, "invalid_key", now);
    assert_eq!(get_field_from_token(&rejected, TokenField::Id), None);
}

#[test]
fn test_is_admin() {
    let key = "test123";
    let claims = claims("john.doe@example.com", true, false, false);
    let token = sign(&claims, key);
    let now = chrono::Utc::now().timestamp();
    assert!(is_admin(&decode(&token, key, now)));
}

#[test]
fn round_trip_keeps_every_field() {
    let key = "s3cret";
    let c = UserClaims {
        id: -42,
        nickname: "çağla".to_string(),
        email: "c@x.com".to_string(),
        is_admin: true,
        is_moderator: false,
        is_author: true,
        iat: 1_700_000_000,
        exp: 1_700_086_400,
    };
    let token = sign(&c, key);
    assert_eq!(decode(&token, key, 1_700_086_399), Some(c.clone()));
}

#[test]
fn tampered_token_is_rejected() {
    let key = "s3cret";
    let c = claims("a@x.com", false, false, false);
    let token = sign(&c, key);
    let now = chrono::Utc::now().timestamp();
    assert!(decode(&token, key, now).is_some());
    let bytes = token.as_bytes();
    for i in 0..bytes.len() {
        let mut changed = bytes.to_vec();
        changed[i] = if changed[i] == b'A' { b'B' } else { b'A' };
        if let Ok(t) = String::from_utf8(changed) {
            if t != token {
                assert_eq!(decode(&t, key, now), None, "byte {} changed", i);
            }
        }
    }
}

#[test]
fn expiry_is_strict() {
    let key = "s3cret";
    let mut c = claims("a@x.com", false, false, false);
    let now = 1_800_000_000;
    c.iat = now - 86_401;
    c.exp = now - 1;
    let token = sign(&c, key);
    assert!(verify_signature(&token, key).is_some());
    assert_eq!(decode(&token, key, now), None);
    c.exp = now;
    let token = sign(&c, key);
    assert_eq!(decode(&token, key, now), None);
    c.exp = now + 1;
    let token = sign(&c, key);
    assert_eq!(decode(&token, key, now), Some(c.clone()));
}

#[test]
fn role_getters_follow_claims() {
    let c = Some(claims("m@x.com", false, true, true));
    assert_eq!(get_id(&c), Some(1));
    assert!(!is_admin(&c));
    assert!(is_moderator(&c));
    assert!(is_author(&c));
    assert_eq!(get_id(&None), None);
    assert!(!is_admin(&None));
    assert!(!is_moderator(&None));
    assert!(!is_author(&None));
}

#[test]
fn decimal_text_matches_std() {
    for n in [0i64, 7, 10, 99, 100, 12345, -1, -10, i64::MAX, i64::MIN] {
        assert_eq!(int_string(n), n.to_string());
    }
    assert_eq!(nat_string(u64::MAX), u64::MAX.to_string());
    assert_eq!(bool_string(true), "true");
    assert_eq!(bool_string(false), "false");
}
