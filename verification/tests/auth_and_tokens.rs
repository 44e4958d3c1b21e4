use doc_svc::common::auth::{
    checked_token, generate_jwt, hash_password, verificate_jwt, verify_password_hash, JwtFailure,
};
use doc_svc::common::middleware::{auth_jwt, PermisionLayer};
use doc_svc::common::types::jwt_types::{self, Claims};
use doc_svc::common::types::sql_types;
use doc_svc::metadata::middleware::{accept_token_subject, authenticate_token, JwtHeader};
use doc_svc::metadata_server::metadata::public::{
    check_login_password, desired_role, grant_role, issue_claims, log_in_token, read_optional_jwt,
    token_lifetime_days,
};
use doc_svc::status::Code;
use doc_svc::storage_server::middleware::{self as storage_middleware, MyMiddlewareLayer};

const SECRET: &[u8] = b"test secret";

fn far_future() -> i64 {
    4_000_000_000
}

fn claims(sub: &str, role: jwt_types::Role, exp: i64, iat: i64) -> Claims {
    Claims { sub: sub.to_string(), role, exp, iat }
}

#[test]
fn token_round_trip() {
    let c = claims("juanito", jwt_types::Role::User, far_future(), 10);
    let token = generate_jwt(&c, SECRET).unwrap();
    assert_eq!(token.split('.').count(), 3);
    let checked = verificate_jwt(&token, SECRET).unwrap();
    assert_eq!(checked.payload, c.to_json());
    assert!(checked.verdict.is_ok());
    // The same claims and key always give the same token.
    assert_eq!(generate_jwt(&c, SECRET).unwrap(), token);
}

#[test]
fn token_with_other_key_is_rejected() {
    let c = claims("juanito", jwt_types::Role::User, far_future(), 10);
    let token = generate_jwt(&c, SECRET).unwrap();
    let f = verificate_jwt(&token, b"another key").unwrap_err();
    assert!(!f.expired);
    assert!(!f.claims_stage);
    assert_eq!(f.message, "InvalidSignature");
}

#[test]
fn expired_token_is_reported_as_expired() {
    let c = claims("juanito", jwt_types::Role::User, 1000, 10);
    let token = generate_jwt(&c, SECRET).unwrap();
    // The signature holds: the claims come back, with an expired verdict.
    let checked = verificate_jwt(&token, SECRET).unwrap();
    assert_eq!(checked.payload, c.to_json());
    let f = checked.verdict.unwrap_err();
    assert!(f.expired);
    assert_eq!(f.message, "ExpiredSignature");
}

fn sign_object(members: Vec<(&str, serde_json::Value)>, key: &[u8]) -> String {
    let mut map = serde_json::Map::new();
    for (k, v) in members {
        map.insert(k.to_string(), v);
    }
    jsonwebtoken::encode(
        &jsonwebtoken::Header::default(),
        &serde_json::Value::Object(map),
        &jsonwebtoken::EncodingKey::from_secret(key),
    )
    .unwrap()
}

#[test]
fn token_without_exp_fails_its_claims() {
    let token = sign_object(
        vec![("sub", serde_json::Value::from("juanito")), ("iat", serde_json::Value::from(10))],
        SECRET,
    );
    let checked = verificate_jwt(&token, SECRET).unwrap();
    assert_eq!(checked.payload, "{\"iat\":10,\"sub\":\"juanito\"}");
    let f = checked.verdict.unwrap_err();
    assert!(f.claims_stage);
    assert!(!f.expired);
    assert_eq!(f.message, "Missing required claim: exp");
}

#[test]
fn token_without_exp_under_other_key_is_rejected() {
    let token = sign_object(vec![("sub", serde_json::Value::from("juanito"))], b"another key");
    let f = verificate_jwt(&token, SECRET).unwrap_err();
    assert!(!f.claims_stage);
    assert_eq!(f.message, "InvalidSignature");
}

#[test]
fn token_with_forged_signature_is_rejected() {
    let c = claims("juanito", jwt_types::Role::Admin, far_future(), 10);
    let token = generate_jwt(&c, SECRET).unwrap();
    let other = generate_jwt(&c, b"another key").unwrap();
    let head = &token[..token.rfind('.').unwrap()];
    let tail = &other[other.rfind('.').unwrap()..];
    let forged = format!("{}{}", head, tail);
    let f = verificate_jwt(&forged, SECRET).unwrap_err();
    assert!(!f.claims_stage);
    assert!(!f.json);
    assert_eq!(f.message, "InvalidSignature");
}

fn failure(claims_stage: bool, json: bool, message: &str) -> JwtFailure {
    JwtFailure { expired: false, claims_stage, json, message: message.to_string() }
}

#[test]
fn checked_token_answers() {
    let ok = checked_token(Ok("{}".to_string()), None).unwrap();
    assert_eq!(ok.payload, "{}");
    assert!(ok.verdict.is_ok());
    // A failure at the claims keeps the claims, with the failure as verdict.
    let at_claims =
        checked_token(Err(failure(true, false, "ExpiredSignature")), Some("{\"a\":1}".to_string()))
            .unwrap();
    assert_eq!(at_claims.payload, "{\"a\":1}");
    assert_eq!(at_claims.verdict.unwrap_err().message, "ExpiredSignature");
    // A failure before the claims is the answer, whatever text is at hand.
    let before = checked_token(Err(failure(false, false, "InvalidSignature")), Some("{}".to_string()))
        .unwrap_err();
    assert_eq!(before.message, "InvalidSignature");
    let unread = checked_token(Err(failure(false, true, "JSON error")), None).unwrap_err();
    assert!(unread.json);
}

#[test]
fn garbage_token_is_rejected() {
    let f = verificate_jwt("not a token", SECRET).unwrap_err();
    assert!(!f.expired);
}

#[test]
fn password_hash_round_trip() {
    let h = hash_password(b"Secret1!").unwrap();
    assert!(h.starts_with("$argon2id$"));
    assert!(verify_password_hash(b"Secret1!", &h).is_ok());
    assert!(verify_password_hash(b"secret1!", &h).is_err());
    assert!(verify_password_hash(b"Secret1!", "not a phc string").is_err());
    assert!(verify_password_hash(b"Secret1!", &h.replacen("$argon2id$", "$pbkdf2$", 1)).is_err());
    // A fresh salt makes every hash different.
    assert_ne!(hash_password(b"Secret1!").unwrap(), h);
}

#[test]
fn interceptor_answers() {
    let s = auth_jwt(None, SECRET).unwrap_err();
    assert_eq!(s.code, Code::Unauthenticated);
    assert_eq!(s.message, "No \"jwt\" was provided");
    let s = auth_jwt(Some("x.y.z"), SECRET).unwrap_err();
    assert_eq!(s.code, Code::Unauthenticated);
    let c = claims("juanito", jwt_types::Role::User, far_future(), 10);
    let token = generate_jwt(&c, SECRET).unwrap();
    assert_eq!(auth_jwt(Some(&token), SECRET).unwrap().payload, c.to_json());
    assert_eq!(storage_middleware::auth_jwt(Some(&token), SECRET).unwrap().payload, c.to_json());
    assert_eq!(storage_middleware::auth_jwt(None, SECRET).unwrap_err().code, Code::Unauthenticated);
}

#[test]
fn permission_gate() {
    let mut gate = PermisionLayer.layer(7u32);
    let s = gate.check(None, true).unwrap();
    assert_eq!(s.code, Code::PermissionDenied);
    assert_eq!(s.message, "No \"operation_id\" was provided");
    let s = gate.check(Some("op"), false).unwrap();
    assert_eq!(s.code, Code::Internal);
    assert_eq!(s.message, "Authentication failure: Missing a required request extension \"jwt_claims");
    assert!(gate.check(Some("op"), true).is_none());
    *gate.inner_mut() += 1;
    assert_eq!(*gate.inner_mut(), 8);
}

#[test]
fn storage_gate() {
    let gate = MyMiddlewareLayer.layer(());
    assert_eq!(gate.check(None, true).unwrap().code, Code::PermissionDenied);
    assert_eq!(
        gate.check(Some("op"), false).unwrap().message,
        "Missing a required request extension \"jwt_claims\", authentication middleware might not be working"
    );
    assert!(gate.check(Some("op"), true).is_none());
}

#[test]
fn metadata_authentication() {
    let s = authenticate_token(JwtHeader::Missing, SECRET).unwrap_err();
    assert_eq!((s.code, s.message.as_str()), (Code::Unauthenticated, "No \"jwt\" was provided"));
    let s = authenticate_token(JwtHeader::NotText, SECRET).unwrap_err();
    assert_eq!((s.code, s.message.as_str()), (Code::InvalidArgument, "Wrong \"jwt\" format"));
    let s = authenticate_token(JwtHeader::Text("abc".to_string()), SECRET).unwrap_err();
    assert_eq!((s.code, s.message.as_str()), (Code::InvalidArgument, "Token decodification failed"));
    let expired = generate_jwt(&claims("juanito", jwt_types::Role::User, 1000, 10), SECRET).unwrap();
    let checked = authenticate_token(JwtHeader::Text(expired), SECRET).unwrap();
    assert!(checked.verdict.unwrap_err().expired);
    let c = claims("juanito", jwt_types::Role::User, far_future(), 10);
    let token = generate_jwt(&c, SECRET).unwrap();
    assert_eq!(authenticate_token(JwtHeader::Text(token), SECRET).unwrap().payload, c.to_json());
}

#[test]
fn token_freshness() {
    let c = claims("juanito", jwt_types::Role::User, far_future(), 100);
    assert_eq!(accept_token_subject(c, Some(100)).unwrap().iat, 100);
    let c = claims("juanito", jwt_types::Role::User, far_future(), 100);
    assert_eq!(accept_token_subject(c, Some(50)).unwrap().sub, "juanito");
    let c = claims("juanito", jwt_types::Role::User, far_future(), 100);
    let s = accept_token_subject(c, Some(101)).unwrap_err();
    assert_eq!((s.code, s.message.as_str()), (Code::PermissionDenied, "The given token is no longer valid"));
    let c = claims("juanito", jwt_types::Role::User, far_future(), 100);
    let s = accept_token_subject(c, None).unwrap_err();
    assert_eq!((s.code, s.message.as_str()), (Code::NotFound, "Token subject not found in database"));
}

#[test]
fn account_creation_roles() {
    assert_eq!(desired_role(0).unwrap(), sql_types::Role::User);
    assert_eq!(desired_role(1).unwrap(), sql_types::Role::Admin);
    let s = desired_role(7).unwrap_err();
    assert_eq!((s.code, s.message.as_str()), (Code::InvalidArgument, "Invalid role value 7"));
    let s = desired_role(-3).unwrap_err();
    assert_eq!(s.message, "Invalid role value -3");
    assert_eq!(grant_role(sql_types::Role::User, None).unwrap(), sql_types::Role::User);
    let s = grant_role(sql_types::Role::Admin, None).unwrap_err();
    assert_eq!(
        (s.code, s.message.as_str()),
        (Code::PermissionDenied, "Insufficient permissions to do this operation")
    );
    assert!(grant_role(sql_types::Role::Admin, Some(jwt_types::Role::User)).is_err());
    assert_eq!(
        grant_role(sql_types::Role::Admin, Some(jwt_types::Role::Admin)).unwrap(),
        sql_types::Role::Admin
    );
}

#[test]
fn optional_token_at_account_creation() {
    assert!(read_optional_jwt(JwtHeader::Missing, SECRET).unwrap().is_none());
    assert_eq!(read_optional_jwt(JwtHeader::NotText, SECRET).unwrap_err().message, "Wrong \"jwt\" format");
    let c = claims("admin", jwt_types::Role::Admin, far_future(), 10);
    let token = generate_jwt(&c, SECRET).unwrap();
    assert_eq!(read_optional_jwt(JwtHeader::Text(token), SECRET).unwrap().unwrap().payload, c.to_json());
}

#[test]
fn log_in_issues_claims() {
    assert_eq!(token_lifetime_days(true), 30);
    assert_eq!(token_lifetime_days(false), 1);
    let c = issue_claims("juanito".to_string(), sql_types::Role::Admin, 1_700_000_000, false).unwrap();
    assert_eq!(c.sub, "juanito");
    assert_eq!(c.role, jwt_types::Role::Admin);
    assert_eq!(c.iat, 1_700_000_000);
    assert_eq!(c.exp, 1_700_000_000 + 86_400);
    let c = issue_claims("juanito".to_string(), sql_types::Role::User, 1_700_000_000, true).unwrap();
    assert_eq!(c.exp, 1_700_000_000 + 30 * 86_400);
    let s = issue_claims("juanito".to_string(), sql_types::Role::User, i64::MAX - 10, true).unwrap_err();
    assert_eq!((s.code, s.message.as_str()), (Code::Internal, "Date out of the 64-bit limit"));
}

#[test]
fn log_in_token_is_accepted_and_revokes_older_tokens() {
    let now = 1_900_000_000;
    let (token, iat) =
        log_in_token(&"juanito".to_string(), sql_types::Role::User, now, true, SECRET).unwrap();
    assert_eq!(iat, now);
    let expected = Claims {
        sub: "juanito".to_string(),
        role: jwt_types::Role::User,
        exp: now + 30 * 86_400,
        iat: now,
    };
    assert_eq!(verificate_jwt(&token, SECRET).unwrap().payload, expected.to_json());
    // The new token passes the freshness check once `iat` is recorded.
    assert!(accept_token_subject(expected, Some(iat)).is_ok());
    let older = claims("juanito", jwt_types::Role::User, far_future(), now - 1);
    assert!(accept_token_subject(older, Some(iat)).is_err());
}

#[test]
fn log_in_password() {
    let h = hash_password(b"Secret1!").unwrap();
    assert!(check_login_password(b"Secret1!", &h).is_ok());
    let s = check_login_password(b"nope", &h).unwrap_err();
    assert_eq!((s.code, s.message.as_str()), (Code::PermissionDenied, "Invalid user password"));
}

#[test]
fn session_expiry_range_edges() {
    let first: i64 = -8_334_601_228_800;
    let last: i64 = 8_210_266_876_799;
    let issue = |now: i64, remember: bool| issue_claims("juanito".to_string(), sql_types::Role::User, now, remember);
    assert_eq!(issue(last - 86_400, false).unwrap().exp, last);
    assert_eq!(issue(last - 86_399, false).unwrap_err().message, "Date out of the 64-bit limit");
    assert_eq!(issue(last - 30 * 86_400, true).unwrap().exp, last);
    assert!(issue(last - 30 * 86_400 + 1, true).is_err());
    assert_eq!(issue(first, false).unwrap().exp, first + 86_400);
    assert!(issue(first - 1, false).is_err());
    assert!(log_in_token(&"juanito".to_string(), sql_types::Role::User, first - 1, false, SECRET).is_err());
}

#[test]
fn token_for_other_claims_reads_back_its_own() {
    let a = claims("ana", jwt_types::Role::Admin, far_future(), 5);
    let b = claims("bob", jwt_types::Role::User, far_future(), 6);
    let ta = generate_jwt(&a, SECRET).unwrap();
    let tb = generate_jwt(&b, SECRET).unwrap();
    assert_ne!(ta, tb);
    assert_eq!(verificate_jwt(&ta, SECRET).unwrap().payload, a.to_json());
    assert_eq!(verificate_jwt(&tb, SECRET).unwrap().payload, b.to_json());
}

#[test]
fn forged_and_expired_tokens_are_answered_apart() {
    let c = claims("juanito", jwt_types::Role::Admin, far_future(), 10);
    let forged = generate_jwt(&c, b"another key").unwrap();
    // A token refused before its claims is never answered as expired.
    let s = authenticate_token(JwtHeader::Text(forged.clone()), SECRET).unwrap_err();
    assert_eq!(s.code, Code::InvalidArgument);
    assert_eq!(s.message, "Token decodification failed");
    let s = read_optional_jwt(JwtHeader::Text(forged.clone()), SECRET).unwrap_err();
    assert_eq!(s.code, Code::InvalidArgument);
    assert_eq!(s.message, "Token decodification failed");
    // The interceptors answer with the token library's refusal.
    let s = auth_jwt(Some(&forged), SECRET).unwrap_err();
    assert_eq!(s.code, Code::Unauthenticated);
    assert_eq!(s.message, "InvalidSignature");
    assert_eq!(storage_middleware::auth_jwt(Some(&forged), SECRET).unwrap_err().message, "InvalidSignature");
    // An expired token signed with the key gets as far as its claims.
    let old = claims("juanito", jwt_types::Role::Admin, 1000, 10);
    let expired = generate_jwt(&old, SECRET).unwrap();
    let checked = authenticate_token(JwtHeader::Text(expired), SECRET).unwrap();
    assert!(checked.verdict.unwrap_err().expired);
}
