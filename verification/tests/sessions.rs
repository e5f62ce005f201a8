use aezarx_backend::clock::Moment;
use aezarx_backend::error::AppError;
use aezarx_backend::guard::{
    authenticate, bearer_token, check_user_access, pass_guard, require_admin, require_auth, AuthUser,
    Guard, UserAction,
};
use aezarx_backend::jwt::{
    claims_from_decoded, claims_json, create_token, create_token_at, expiry_verdict, verify_token, Claims,
    TokenRejection,
};

const SECRET: &str = "test-secret";
const ALICE: u128 = 0x67e5504410b1426f9247bb680e5fe0c8;
const ALICE_TEXT: &str = "67e55044-10b1-426f-9247-bb680e5fe0c8";

#[test]
fn issued_token_verifies_to_its_claims() {
    let token = create_token(ALICE, "alice@example.com", "user", SECRET).expect("token");
    let claims = verify_token(&token, SECRET).expect("claims");
    assert_eq!(claims.sub, ALICE_TEXT);
    assert_eq!(claims.email, "alice@example.com");
    assert_eq!(claims.role, "user");
    assert_eq!(claims.exp - claims.iat, 2_592_000);
}

#[test]
fn token_payload_is_the_claims_text() {
    let at = Moment { secs: 4_000_000_000, nanos: 0 };
    let token = create_token_at(ALICE, "a@b.c", "admin", SECRET, &at).expect("token");
    let parts: Vec<&str> = token.split('.').collect();
    assert_eq!(parts.len(), 3);
    let claims = Claims {
        sub: ALICE_TEXT.to_string(),
        email: "a@b.c".to_string(),
        role: "admin".to_string(),
        exp: 4_000_000_000 + 2_592_000,
        iat: 4_000_000_000,
    };
    let expected = claims_json(&claims);
    let payload = decode_b64url(parts[1]);
    assert_eq!(payload, expected.as_bytes());
}

fn decode_b64url(s: &str) -> Vec<u8> {
    let alphabet = b"ABCDEFGHIJKLMNOPQRSTUVWXYZabcdefghijklmnopqrstuvwxyz0123456789-_";
    let mut bits: u32 = 0;
    let mut nbits = 0;
    let mut out = Vec::new();
    for c in s.bytes() {
        let v = alphabet.iter().position(|&a| a == c).expect("base64url digit") as u32;
        bits = (bits << 6) | v;
        nbits += 6;
        if nbits >= 8 {
            nbits -= 8;
            out.push((bits >> nbits) as u8);
            bits &= (1 << nbits) - 1;
        }
    }
    out
}

#[test]
fn wrong_secret_is_invalid() {
    let token = create_token(ALICE, "a@b.c", "user", SECRET).expect("token");
    assert!(matches!(verify_token(&token, "other"), Err(AppError::TokenInvalid)));
    assert!(matches!(verify_token("garbage", SECRET), Err(AppError::TokenInvalid)));
}

#[test]
fn old_token_is_expired() {
    let long_ago = Moment { secs: 1_000_000_000, nanos: 0 };
    let token = create_token_at(ALICE, "a@b.c", "user", SECRET, &long_ago).expect("token");
    assert!(matches!(verify_token(&token, SECRET), Err(AppError::TokenExpired)));
}

#[test]
fn decoded_outcomes_map_to_errors() {
    assert!(matches!(claims_from_decoded(Err(TokenRejection::Expired)), Err(AppError::TokenExpired)));
    assert!(matches!(claims_from_decoded(Err(TokenRejection::Invalid)), Err(AppError::TokenInvalid)));
    assert!(matches!(claims_from_decoded(Ok("{\"x\":1}".to_string())), Err(AppError::TokenInvalid)));
    let text = "{\"sub\":\"s\",\"email\":\"e\",\"role\":\"r\",\"exp\":2,\"iat\":1}".to_string();
    let c = claims_from_decoded(Ok(text)).expect("claims");
    assert_eq!((c.sub.as_str(), c.email.as_str(), c.role.as_str(), c.exp, c.iat), ("s", "e", "r", 2, 1));
}

#[test]
fn bearer_header_gives_token() {
    assert_eq!(bearer_token("Bearer abc.def"), Some("abc.def"));
    assert_eq!(bearer_token("Basic abc"), None);
    assert_eq!(bearer_token("Bearerabc"), None);
}

#[test]
fn missing_header_messages_differ_by_guard() {
    match require_auth(None, SECRET) {
        Err(AppError::Auth(m)) => assert_eq!(m, "Missing or malformed Authorization header"),
        _ => panic!("expected auth error"),
    }
    match require_admin(Some("Token x"), SECRET) {
        Err(AppError::Auth(m)) => assert_eq!(m, "Missing Authorization header"),
        _ => panic!("expected auth error"),
    }
}

#[test]
fn signed_in_user_comes_from_token() {
    let token = create_token(ALICE, "alice@example.com", "user", SECRET).expect("token");
    let header = format!("Bearer {}", token);
    let user = require_auth(Some(&header), SECRET).expect("user");
    assert_eq!(user.id, ALICE);
    assert_eq!(user.email, "alice@example.com");
    assert_eq!(user.role, "user");
    match require_admin(Some(&header), SECRET) {
        Err(AppError::Forbidden(m)) => assert_eq!(m, "Admin access required"),
        _ => panic!("expected forbidden"),
    }
    let admin_token = create_token(ALICE, "root@example.com", "admin", SECRET).expect("token");
    let admin = authenticate(Guard::Admin, Some(&format!("Bearer {}", admin_token)), SECRET).expect("admin");
    assert_eq!(admin.role, "admin");
}

#[test]
fn subject_that_is_not_a_uuid_is_invalid() {
    let c = Claims { sub: "nope".into(), email: "e".into(), role: "user".into(), exp: 1, iat: 0 };
    assert!(matches!(pass_guard(Guard::Member, Ok(c)), Err(AppError::TokenInvalid)));
    let c = Claims { sub: "nope".into(), email: "e".into(), role: "user".into(), exp: 1, iat: 0 };
    assert!(matches!(pass_guard(Guard::Admin, Ok(c)), Err(AppError::Forbidden(_))));
    assert!(matches!(pass_guard(Guard::Member, Err(AppError::TokenExpired)), Err(AppError::TokenExpired)));
}

fn user(id: u128, role: &str) -> AuthUser {
    AuthUser { id, email: "x@y.z".into(), role: role.into() }
}

#[test]
fn owners_may_act_on_their_records() {
    let u = user(1, "user");
    for a in [UserAction::UpdateProfile, UserAction::AddToLibrary, UserAction::RemoveBookmark, UserAction::ViewHistory] {
        assert!(check_user_access(&u, 1, a).is_ok());
    }
}

#[test]
fn strangers_are_refused_with_the_right_message() {
    let u = user(1, "user");
    match check_user_access(&u, 2, UserAction::UpdateProfile) {
        Err(AppError::Forbidden(m)) => assert_eq!(m, "Cannot update another user's profile"),
        _ => panic!("expected forbidden"),
    }
    match check_user_access(&u, 2, UserAction::UploadAvatar) {
        Err(AppError::Forbidden(m)) => assert_eq!(m, "Cannot update another user's avatar"),
        _ => panic!("expected forbidden"),
    }
    match check_user_access(&u, 2, UserAction::ViewLibrary) {
        Err(AppError::Forbidden(m)) => assert_eq!(m, "Access denied"),
        _ => panic!("expected forbidden"),
    }
    assert!(check_user_access(&u, 2, UserAction::ViewProfile).is_ok());
}

#[test]
fn admins_may_view_but_not_edit_collections() {
    let a = user(1, "admin");
    assert!(check_user_access(&a, 2, UserAction::ViewBookmarks).is_ok());
    assert!(check_user_access(&a, 2, UserAction::UpdateProfile).is_ok());
    assert!(check_user_access(&a, 2, UserAction::AddBookmark).is_err());
    assert!(check_user_access(&a, 2, UserAction::RemoveFromLibrary).is_err());
}

#[test]
fn session_is_issued_at_the_current_time() {
    let token = create_token(ALICE, "a@b.c", "user", SECRET).expect("token");
    let claims = verify_token(&token, SECRET).expect("claims");
    assert!(claims.iat > 1_600_000_000);
}

fn sign_raw(payload: &str, secret: &str) -> String {
    let raw = serde_json::value::RawValue::from_string(payload.to_string()).expect("json");
    let key = jsonwebtoken::EncodingKey::from_secret(secret.as_bytes());
    jsonwebtoken::encode(&jsonwebtoken::Header::default(), &raw, &key).expect("token")
}

#[test]
fn expired_token_with_unreadable_claims_is_invalid() {
    let token = sign_raw("{\"exp\":1000}", SECRET);
    assert!(matches!(verify_token(&token, SECRET), Err(AppError::TokenInvalid)));
}

#[test]
fn token_without_exp_is_invalid() {
    let token = sign_raw("{\"sub\":\"s\"}", SECRET);
    assert!(matches!(verify_token(&token, SECRET), Err(AppError::TokenInvalid)));
}

#[test]
fn token_is_accepted_only_under_its_secret() {
    let at = Moment { secs: 4_000_000_000, nanos: 0 };
    let token = create_token_at(ALICE, "a@b.c", "user", SECRET, &at).expect("token");
    assert!(verify_token(&token, SECRET).is_ok());
    assert!(matches!(verify_token(&token, "test-secreT"), Err(AppError::TokenInvalid)));
    assert!(matches!(verify_token(&token, ""), Err(AppError::TokenInvalid)));
}

#[test]
fn signing_past_the_calendar_end_is_an_internal_error() {
    let late = Moment { secs: 8_210_266_876_799 - 10, nanos: 0 };
    match create_token_at(ALICE, "a@b.c", "user", SECRET, &late) {
        Err(AppError::Internal(m)) => assert_eq!(m, "JWT encode error: time out of range"),
        other => panic!("unexpected {:?}", other),
    }
}

#[test]
fn expiry_verdict_follows_the_check() {
    let c = || Claims { sub: "s".into(), email: "e".into(), role: "r".into(), exp: 2, iat: 1 };
    assert_eq!(expiry_verdict(c(), Ok(String::new())).expect("kept").sub, "s");
    assert!(matches!(expiry_verdict(c(), Err(TokenRejection::Expired)), Err(AppError::TokenExpired)));
    assert!(matches!(expiry_verdict(c(), Err(TokenRejection::Invalid)), Err(AppError::TokenInvalid)));
}

#[test]
fn expired_session_is_refused_as_expired_by_both_guards() {
    let long_ago = Moment { secs: 1_000_000_000, nanos: 0 };
    let token = create_token_at(ALICE, "a@b.c", "user", SECRET, &long_ago).expect("token");
    let header = format!("Bearer {}", token);
    assert!(matches!(require_auth(Some(&header), SECRET), Err(AppError::TokenExpired)));
    assert!(matches!(require_admin(Some(&header), SECRET), Err(AppError::TokenExpired)));
}
