use auth_guard::model::config::Jwt;
use auth_guard::model::user::Role;
use auth_guard::service::auth_service::{gen_token, gen_token_at};
use auth_guard::util::time_util::current_time;
use auth_guard::util::token_util::{
    generate_jwt_token, get_user_id_by_token, validate_jwt_token, validate_jwt_token_at,
    TokenError,
};

const SECRET: &str = "a secret that only the tests know";

fn role(name: Option<&str>) -> Role {
    Role {
        id: Some(1),
        create_time: None,
        creator_id: None,
        update_time: None,
        updater_id: None,
        is_delete: Some(0),
        del_unique_key: Some(0),
        role_name: name.map(|n| n.to_string()),
        role_desc: None,
    }
}

fn jwt(hours: i64) -> Jwt {
    Jwt { token_secret: SECRET.to_string(), expiration_time: hours }
}

fn signed_with(algorithm: jsonwebtoken::Algorithm, body: serde_json::Value) -> String {
    jsonwebtoken::encode(
        &jsonwebtoken::Header::new(algorithm),
        &body,
        &jsonwebtoken::EncodingKey::from_secret(SECRET.as_bytes()),
    )
    .unwrap()
}

fn object(members: Vec<(&str, serde_json::Value)>) -> serde_json::Value {
    let mut map = serde_json::Map::new();
    for (name, value) in members {
        map.insert(name.to_string(), value);
    }
    serde_json::Value::Object(map)
}

#[test]
fn issued_token_round_trips_before_expiry() {
    let roles = vec!["admin".to_string(), "guest".to_string()];
    let token = generate_jwt_token(7, "alice", 2_000_000_000, &roles, SECRET).unwrap();
    let claims = validate_jwt_token_at(&token, SECRET, 1_999_999_999).unwrap();
    assert_eq!(claims.user_id, 7);
    assert_eq!(claims.username, "alice");
    assert_eq!(claims.exp, 2_000_000_000);
    assert_eq!(claims.roles, roles);
}

#[test]
fn round_trip_keeps_unusual_values() {
    let roles = vec!["".to_string(), "角色 \"x\"".to_string(), "a.b\n".to_string()];
    let token = generate_jwt_token(u64::MAX, "", 0, &roles, "").unwrap();
    let claims = validate_jwt_token_at(&token, "", 0).unwrap();
    assert_eq!(claims.user_id, u64::MAX);
    assert_eq!(claims.username, "");
    assert_eq!(claims.exp, 0);
    assert_eq!(claims.roles, roles);
}

#[test]
fn token_has_three_parts_and_says_hs512() {
    let token = generate_jwt_token(1, "bob", 1_000, &Vec::new(), SECRET).unwrap();
    assert_eq!(token.split('.').count(), 3);
    let header = jsonwebtoken::decode_header(&token).unwrap();
    assert_eq!(header.alg, jsonwebtoken::Algorithm::HS512);
}

#[test]
fn same_claims_and_secret_give_the_same_token() {
    let roles = vec!["admin".to_string()];
    let one = generate_jwt_token(1, "bob", 1_000, &roles, SECRET).unwrap();
    let two = generate_jwt_token(1, "bob", 1_000, &roles, SECRET).unwrap();
    assert_eq!(one, two);
    let other = generate_jwt_token(2, "bob", 1_000, &roles, SECRET).unwrap();
    assert_ne!(one, other);
}

#[test]
fn token_is_valid_in_its_last_second_and_expired_after() {
    let token = generate_jwt_token(1, "bob", 1_000, &Vec::new(), SECRET).unwrap();
    assert!(validate_jwt_token_at(&token, SECRET, 0).is_ok());
    assert!(validate_jwt_token_at(&token, SECRET, 1_000).is_ok());
    assert_eq!(validate_jwt_token_at(&token, SECRET, 1_001).unwrap_err(), TokenError::Expired);
    assert_eq!(
        validate_jwt_token_at(&token, SECRET, usize::MAX).unwrap_err(),
        TokenError::Expired
    );
}

#[test]
fn flipped_signature_byte_is_invalid_signature() {
    let token = generate_jwt_token(1, "bob", 1_000, &Vec::new(), SECRET).unwrap();
    let mut bytes = token.into_bytes();
    let last = bytes.len() - 1;
    bytes[last] = if bytes[last] == b'A' { b'B' } else { b'A' };
    let forged = String::from_utf8(bytes).unwrap();
    // Before expiry and after it: the signature is judged first.
    assert_eq!(
        validate_jwt_token_at(&forged, SECRET, 10).unwrap_err(),
        TokenError::InvalidSignature
    );
    assert_eq!(
        validate_jwt_token_at(&forged, SECRET, 5_000).unwrap_err(),
        TokenError::InvalidSignature
    );
}

#[test]
fn every_flipped_signature_byte_is_invalid_signature() {
    let token = generate_jwt_token(1, "bob", 1_000, &Vec::new(), SECRET).unwrap();
    let dot = token.rfind('.').unwrap();
    for at in dot + 1..token.len() {
        let mut bytes = token.clone().into_bytes();
        bytes[at] = if bytes[at] == b'x' { b'y' } else { b'x' };
        let forged = String::from_utf8(bytes).unwrap();
        assert_eq!(
            validate_jwt_token_at(&forged, SECRET, 10).unwrap_err(),
            TokenError::InvalidSignature
        );
    }
}

#[test]
fn changed_claims_are_invalid_signature() {
    let one = generate_jwt_token(1, "bob", 1_000, &Vec::new(), SECRET).unwrap();
    let two = generate_jwt_token(2, "bob", 1_000, &Vec::new(), SECRET).unwrap();
    let parts_one: Vec<&str> = one.split('.').collect();
    let parts_two: Vec<&str> = two.split('.').collect();
    let mixed = format!("{}.{}.{}", parts_one[0], parts_two[1], parts_one[2]);
    assert_eq!(
        validate_jwt_token_at(&mixed, SECRET, 10).unwrap_err(),
        TokenError::InvalidSignature
    );
}

#[test]
fn another_secret_is_invalid_signature() {
    let token = generate_jwt_token(1, "bob", 1_000, &Vec::new(), SECRET).unwrap();
    assert_eq!(
        validate_jwt_token_at(&token, "another secret", 10).unwrap_err(),
        TokenError::InvalidSignature
    );
}

#[test]
fn text_that_is_no_token_is_invalid_format() {
    for text in ["", "not a token", "a.b.c", "a.b", "a.b.c.d", "..", "."] {
        assert_eq!(
            validate_jwt_token_at(text, SECRET, 0).unwrap_err(),
            TokenError::InvalidFormat
        );
    }
}

#[test]
fn token_of_another_algorithm_is_invalid_format() {
    let body = object(vec![
        ("user_id", 1u64.into()),
        ("username", "bob".into()),
        ("exp", 1_000u64.into()),
        ("roles", Vec::<String>::new().into()),
    ]);
    let token = signed_with(jsonwebtoken::Algorithm::HS256, body);
    assert_eq!(validate_jwt_token_at(&token, SECRET, 0).unwrap_err(), TokenError::InvalidFormat);
}

#[test]
fn token_from_elsewhere_with_the_same_key_validates() {
    let body = object(vec![
        ("roles", vec!["admin".to_string()].into()),
        ("exp", 1_000u64.into()),
        ("username", "bob".into()),
        ("user_id", 9u64.into()),
        ("extra", "ignored".into()),
    ]);
    let token = signed_with(jsonwebtoken::Algorithm::HS512, body);
    let claims = validate_jwt_token_at(&token, SECRET, 1_000).unwrap();
    assert_eq!(claims.user_id, 9);
    assert_eq!(claims.username, "bob");
    assert_eq!(claims.exp, 1_000);
    assert_eq!(claims.roles, vec!["admin".to_string()]);
}

#[test]
fn signed_token_with_unreadable_claims_is_invalid_format() {
    let missing_roles = object(vec![
        ("user_id", 1u64.into()),
        ("username", "bob".into()),
        ("exp", 1_000u64.into()),
    ]);
    let wrong_type = object(vec![
        ("user_id", "one".into()),
        ("username", "bob".into()),
        ("exp", 1_000u64.into()),
        ("roles", Vec::<String>::new().into()),
    ]);
    let no_expiry = object(vec![
        ("user_id", 1u64.into()),
        ("username", "bob".into()),
        ("roles", Vec::<String>::new().into()),
    ]);
    for body in [missing_roles, wrong_type, no_expiry] {
        let token = signed_with(jsonwebtoken::Algorithm::HS512, body);
        assert_eq!(
            validate_jwt_token_at(&token, SECRET, 0).unwrap_err(),
            TokenError::InvalidFormat
        );
    }
}

#[test]
fn token_issued_with_negative_lifetime_is_expired() {
    let now = current_time() as i64;
    let token = gen_token_at(Ok(vec![role(Some("admin"))]), 3, "carol", now, &jwt(-1)).unwrap();
    assert_eq!(
        validate_jwt_token_at(&token, SECRET, now as usize).unwrap_err(),
        TokenError::Expired
    );
    assert_eq!(validate_jwt_token(&token, SECRET).unwrap_err(), TokenError::Expired);
    assert_eq!(get_user_id_by_token(&token, SECRET).unwrap_err(), TokenError::Expired);
}

#[test]
fn issued_token_runs_out_after_the_configured_hours() {
    let token =
        gen_token_at(Ok(vec![role(Some("admin")), role(None), role(Some("ops"))]), 3, "carol", 1_000, &jwt(6))
            .unwrap();
    let claims = validate_jwt_token_at(&token, SECRET, 1_000).unwrap();
    assert_eq!(claims.user_id, 3);
    assert_eq!(claims.username, "carol");
    assert_eq!(claims.exp, 1_000 + 6 * 3600);
    // Roles without a name are left out; the others keep their order.
    assert_eq!(claims.roles, vec!["admin".to_string(), "ops".to_string()]);
    assert!(validate_jwt_token_at(&token, SECRET, 22_600).is_ok());
    assert_eq!(validate_jwt_token_at(&token, SECRET, 22_601).unwrap_err(), TokenError::Expired);
}

#[test]
fn issuing_fails_in_words() {
    assert_eq!(
        gen_token_at(Err("no rows".to_string()), 3, "carol", 1_000, &jwt(6)).unwrap_err(),
        "token生成失败，获取角色失败"
    );
    assert_eq!(
        gen_token_at(Ok(Vec::new()), 3, "carol", 1_000, &jwt(i64::MAX)).unwrap_err(),
        "时间计算失败"
    );
    assert_eq!(
        gen_token_at(Ok(Vec::new()), 3, "carol", i64::MAX, &jwt(1)).unwrap_err(),
        "时间计算失败"
    );
    // The time is judged before the roles.
    assert_eq!(
        gen_token_at(Err("no rows".to_string()), 3, "carol", i64::MIN, &jwt(-1)).unwrap_err(),
        "时间计算失败"
    );
}

#[test]
fn token_issued_now_validates_now() {
    let token = gen_token(Ok(vec![role(Some("admin"))]), 11, "dave", &jwt(6)).unwrap();
    let claims = validate_jwt_token(&token, SECRET).unwrap();
    assert_eq!(claims.user_id, 11);
    assert_eq!(claims.username, "dave");
    assert_eq!(claims.roles, vec!["admin".to_string()]);
    let now = current_time();
    assert!(claims.exp >= now + 6 * 3600 - 5 && claims.exp <= now + 6 * 3600);
    assert_eq!(get_user_id_by_token(&token, SECRET), Ok(11));
}

#[test]
fn user_id_of_a_bad_token_is_the_tokens_fault() {
    assert_eq!(get_user_id_by_token("a.b.c", SECRET), Err(TokenError::InvalidFormat));
    let token = generate_jwt_token(1, "bob", usize::MAX, &Vec::new(), SECRET);
    let token = token.unwrap();
    assert_eq!(get_user_id_by_token(&token, "other"), Err(TokenError::InvalidSignature));
    assert_eq!(get_user_id_by_token(&token, SECRET), Ok(1));
}

#[test]
fn token_errors_in_words() {
    assert_eq!(TokenError::InvalidFormat.message(), "InvalidToken");
    assert_eq!(TokenError::InvalidSignature.message(), "InvalidSignature");
    assert_eq!(TokenError::Expired.message(), "ExpiredSignature");
    assert_eq!(TokenError::Signing.message(), "SigningFailed");
}
