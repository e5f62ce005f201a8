use aezarx_backend::accounts::{
    check_unique_account, found_user, login_lookup, login_step, password_verdict, recovery_address,
    resend_check, validate_new_password, validate_registration, ForgotPasswordRequest, LoginRequest,
    LoginStep, RegisterRequest, UserLookup,
};
use aezarx_backend::clock::Moment;
use aezarx_backend::error::{AppError, ErrorReply};
use aezarx_backend::models::{User, UserPublic};
use aezarx_backend::tokens::{generate_token, issue_link, redeem_link, LinkKind, LinkRecord};

fn bad_request(r: Result<impl Sized, AppError>) -> String {
    match r {
        Err(AppError::BadRequest(m)) => m,
        _ => panic!("expected bad request"),
    }
}

fn reg(u: &str, e: &str, p: Option<&str>) -> RegisterRequest {
    RegisterRequest { username: u.into(), email: e.into(), password: p.map(|s| s.to_string()) }
}

#[test]
fn registration_is_normalised() {
    let a = validate_registration(&reg("  bob  ", " Bob@Example.COM ", Some("secret1"))).expect("ok");
    assert_eq!(a.username, "bob");
    assert_eq!(a.email, "bob@example.com");
    assert_eq!(a.password.as_deref(), Some("secret1"));
    let b = validate_registration(&reg("carol", "c@d", None)).expect("ok");
    assert!(b.password.is_none());
}

#[test]
fn registration_errors_come_in_order() {
    assert_eq!(bad_request(validate_registration(&reg(" ab ", "no-at", Some("1")))), "Username must be at least 3 characters");
    assert_eq!(bad_request(validate_registration(&reg("abc", "no-at", Some("1")))), "Invalid email address");
    assert_eq!(bad_request(validate_registration(&reg("abc", "a@b", Some("12345")))), "Password must be at least 6 characters");
}

#[test]
fn lengths_count_bytes() {
    // two two-byte letters make four bytes: long enough for a name
    assert!(validate_registration(&reg("éé", "a@b", None)).is_ok());
    assert!(validate_new_password("ééé").is_ok());
    assert!(validate_new_password("éé").is_err());
}

#[test]
fn duplicates_conflict() {
    assert!(check_unique_account(0).is_ok());
    match check_unique_account(2) {
        Err(AppError::Conflict(m)) => assert_eq!(m, "Email or username already taken"),
        _ => panic!("expected conflict"),
    }
}

#[test]
fn login_looks_up_by_email_first() {
    let req = LoginRequest { email: Some(" A@B.C ".into()), username: Some("x".into()), password: None };
    match login_lookup(&req).expect("lookup") {
        UserLookup::ByEmail(e) => assert_eq!(e, "a@b.c"),
        _ => panic!("expected email lookup"),
    }
    let req = LoginRequest { email: None, username: Some(" Bob ".into()), password: None };
    match login_lookup(&req).expect("lookup") {
        UserLookup::ByUsername(u) => assert_eq!(u, "Bob"),
        _ => panic!("expected name lookup"),
    }
    let req = LoginRequest { email: None, username: None, password: None };
    assert_eq!(bad_request(login_lookup(&req)), "Provide email or username");
}

fn sample_user(hash: Option<&str>, verified: bool) -> User {
    let t = Moment { secs: 1_700_000_000, nanos: 0 };
    User {
        id: 7,
        username: "bob".into(),
        email: "bob@example.com".into(),
        password_hash: hash.map(|s| s.to_string()),
        bio: "hi".into(),
        avatar_url: None,
        role: "user".into(),
        is_verified: verified,
        chapters_read: 3,
        library_count: 2,
        bookmark_count: 1,
        created_at: t,
        updated_at: Moment { secs: 1_800_000_000, nanos: 0 },
    }
}

#[test]
fn login_steps() {
    let with_pw = LoginRequest { email: Some("b".into()), username: None, password: Some("pw".into()) };
    let without_pw = LoginRequest { email: Some("b".into()), username: None, password: None };
    match login_step(&with_pw, None) {
        Err(AppError::Auth(m)) => assert_eq!(m, "Invalid credentials"),
        _ => panic!("expected auth error"),
    }
    let u = sample_user(Some("$2b$hash"), true);
    assert!(matches!(login_step(&without_pw, Some(&u)), Ok(LoginStep::SendMagicLink)));
    match login_step(&with_pw, Some(&u)) {
        Ok(LoginStep::CheckPassword { password, hash }) => {
            assert_eq!(password, "pw");
            assert_eq!(hash, "$2b$hash");
        }
        _ => panic!("expected password check"),
    }
    let magic_only = sample_user(None, true);
    match login_step(&with_pw, Some(&magic_only)) {
        Err(AppError::Auth(m)) => assert_eq!(m, "This account uses magic link login"),
        _ => panic!("expected auth error"),
    }
    assert!(password_verdict(true).is_ok());
    assert!(matches!(password_verdict(false), Err(AppError::Auth(_))));
}

#[test]
fn public_user_hides_hash() {
    let u = sample_user(Some("secret-hash"), false);
    let p: UserPublic = found_user(Some(u)).expect("user");
    assert_eq!(p.id, 7);
    assert_eq!(p.username, "bob");
    assert_eq!(p.chapters_read, 3);
    assert_eq!(p.created_at.secs, 1_700_000_000);
    match found_user(None) {
        Err(AppError::NotFound(m)) => assert_eq!(m, "User not found"),
        _ => panic!("expected not found"),
    }
}

#[test]
fn resend_needs_unverified_account() {
    assert!(resend_check(Some(sample_user(None, false))).is_ok());
    assert_eq!(bad_request(resend_check(Some(sample_user(None, true)))), "Email already verified");
    assert!(matches!(resend_check(None), Err(AppError::NotFound(_))));
    let req = ForgotPasswordRequest { email: "  X@Y.Z".into() };
    assert_eq!(recovery_address(&req), "x@y.z");
}

#[test]
fn tokens_are_hex_and_fresh() {
    let a = generate_token(32);
    let b = generate_token(32);
    assert_eq!(a.len(), 64);
    assert!(a.chars().all(|c| c.is_ascii_hexdigit() && !c.is_ascii_uppercase()));
    assert_ne!(a, b);
    assert_eq!(generate_token(0), "");
}

#[test]
fn links_expire_after_their_lifetime() {
    let t = Moment { secs: 1_000, nanos: 9 };
    assert_eq!(issue_link(LinkKind::EmailVerification, &t).expires_at, Moment { secs: 87_400, nanos: 9 });
    assert_eq!(issue_link(LinkKind::PasswordReset, &t).expires_at.secs, 4_600);
    let magic = issue_link(LinkKind::MagicLogin, &t);
    assert_eq!(magic.expires_at.secs, 1_900);
    assert_eq!(magic.token.len(), 64);
}

fn record(used: bool, exp: i64) -> LinkRecord {
    LinkRecord { id: 1, user_id: 2, expires_at: Moment { secs: exp, nanos: 0 }, used }
}

#[test]
fn links_are_single_use() {
    let now = Moment { secs: 100, nanos: 0 };
    assert!(matches!(redeem_link(LinkKind::MagicLogin, None, &now), Err(AppError::TokenInvalid)));
    match redeem_link(LinkKind::MagicLogin, Some(record(true, 200)), &now) {
        Err(AppError::Auth(m)) => assert_eq!(m, "Magic link already used"),
        _ => panic!("expected used"),
    }
    match redeem_link(LinkKind::EmailVerification, Some(record(true, 200)), &now) {
        Err(AppError::Auth(m)) => assert_eq!(m, "Verification token already used"),
        _ => panic!("expected used"),
    }
    match redeem_link(LinkKind::PasswordReset, Some(record(true, 50)), &now) {
        Err(AppError::Auth(m)) => assert_eq!(m, "Reset token already used"),
        _ => panic!("expected used"),
    }
    assert!(matches!(redeem_link(LinkKind::PasswordReset, Some(record(false, 99)), &now), Err(AppError::TokenExpired)));
    let ok = redeem_link(LinkKind::PasswordReset, Some(record(false, 100)), &now).expect("valid at expiry");
    assert_eq!(ok.user_id, 2);
}

#[test]
fn errors_answer_with_status_and_message() {
    let cases: Vec<(AppError, u16, &str)> = vec![
        (AppError::Auth("a".into()), 401, "a"),
        (AppError::NotFound("n".into()), 404, "n"),
        (AppError::BadRequest("b".into()), 400, "b"),
        (AppError::Conflict("c".into()), 409, "c"),
        (AppError::Forbidden("f".into()), 403, "f"),
        (AppError::TokenExpired, 401, "Token expired"),
        (AppError::TokenInvalid, 401, "Invalid token"),
        (AppError::Database("connection reset".into()), 500, "Database error"),
        (AppError::Email("smtp down".into()), 500, "Email delivery failed"),
        (AppError::Internal("boom".into()), 500, "Internal server error"),
    ];
    for (e, status, message) in cases {
        let server = e.is_server_fault();
        let ErrorReply { status: s, message: m } = e.into_reply();
        assert_eq!(s, status);
        assert_eq!(m, message);
        assert_eq!(server, status == 500);
    }
}
