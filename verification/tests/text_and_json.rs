use aezarx_backend::clock::Moment;
use aezarx_backend::guard::{pass_guard, Guard};
use aezarx_backend::jwt::{claims_json, parse_claims, session_claims, Claims};
use aezarx_backend::text::{
    decimal_text, has_char, join2, same_text, strip_prefix_text, text_after_last_dot,
};

#[test]
fn decimal_text_writes_signed_integers() {
    assert_eq!(decimal_text(0), "0");
    assert_eq!(decimal_text(7), "7");
    assert_eq!(decimal_text(-42), "-42");
    assert_eq!(decimal_text(1234567890), "1234567890");
    assert_eq!(decimal_text(i64::MIN), "-9223372036854775808");
    assert_eq!(decimal_text(i64::MAX), "9223372036854775807");
}

#[test]
fn has_char_finds_at_sign() {
    assert!(has_char("a@b.c", '@'));
    assert!(!has_char("abc", '@'));
    assert!(!has_char("", '@'));
}

#[test]
fn strip_prefix_needs_exact_prefix() {
    assert_eq!(strip_prefix_text("Bearer abc", "Bearer "), Some("abc"));
    assert_eq!(strip_prefix_text("bearer abc", "Bearer "), None);
    assert_eq!(strip_prefix_text("Bear", "Bearer "), None);
    assert_eq!(strip_prefix_text("Bearer ", "Bearer "), Some(""));
}

#[test]
fn text_after_last_dot_takes_final_segment() {
    assert_eq!(text_after_last_dot("photo.final.JPG"), "JPG");
    assert_eq!(text_after_last_dot("noext"), "noext");
    assert_eq!(text_after_last_dot("trailing."), "");
    assert_eq!(text_after_last_dot(""), "");
}

#[test]
fn same_text_and_join() {
    assert!(same_text("abc", "abc"));
    assert!(!same_text("abc", "abd"));
    assert_eq!(join2("ab", "cd"), "abcd");
}

fn subject_of(id: u128) -> String {
    session_claims(id, "a@b.c", "user", &Moment { secs: 0, nanos: 0 }).sub
}

fn claims_for(sub: &str) -> Claims {
    Claims { sub: sub.to_string(), email: "a@b.c".to_string(), role: "user".to_string(), exp: 1, iat: 0 }
}

fn guarded_id(sub: &str) -> Option<u128> {
    pass_guard(Guard::Member, Ok(claims_for(sub))).ok().map(|u| u.id)
}

#[test]
fn session_subject_is_hyphenated_lowercase_uuid() {
    assert_eq!(subject_of(0xa1a2a3a4b1b2c1c2d1d2d3d4d5d6d7d8), "a1a2a3a4-b1b2-c1c2-d1d2-d3d4d5d6d7d8");
    assert_eq!(subject_of(0), "00000000-0000-0000-0000-000000000000");
}

#[test]
fn session_subject_reads_back_as_the_user() {
    let id = 0x67e5504410b1426f9247bb680e5fe0c8u128;
    assert_eq!(guarded_id(&subject_of(id)), Some(id));
    assert_eq!(guarded_id("not-a-uuid"), None);
    assert_eq!(guarded_id("67e5504410b1426f9247bb680e5fe0c8"), Some(id));
    assert_eq!(guarded_id("{67E55044-10B1-426F-9247-BB680E5FE0C8}"), Some(id));
    assert_eq!(guarded_id("URN:uuid:67e55044-10b1-426f-9247-bb680e5fe0c8"), Some(id));
    assert_eq!(guarded_id("67e55044-10b1-426f-9247-bb680e5fe0c"), None);
    assert_eq!(guarded_id("67e55044+10b1-426f-9247-bb680e5fe0c8"), None);
    assert_eq!(guarded_id("(67e55044-10b1-426f-9247-bb680e5fe0c8)"), None);
}

fn sample_claims() -> Claims {
    Claims {
        sub: "67e55044-10b1-426f-9247-bb680e5fe0c8".to_string(),
        email: "a\"b\\c@x.io".to_string(),
        role: "user\n\u{1}".to_string(),
        exp: 1700000000,
        iat: -5,
    }
}

#[test]
fn claims_json_matches_serde_layout() {
    let text = claims_json(&sample_claims());
    assert_eq!(
        text,
        "{\"sub\":\"67e55044-10b1-426f-9247-bb680e5fe0c8\",\"email\":\"a\\\"b\\\\c@x.io\",\"role\":\"user\\n\\u0001\",\"exp\":1700000000,\"iat\":-5}"
    );
}

#[test]
fn claims_json_reads_back() {
    let c = sample_claims();
    let text = claims_json(&c);
    let back = parse_claims(&text).expect("claims text reads back");
    assert_eq!(back.sub, c.sub);
    assert_eq!(back.email, c.email);
    assert_eq!(back.role, c.role);
    assert_eq!(back.exp, c.exp);
    assert_eq!(back.iat, c.iat);
}

#[test]
fn claims_parser_refuses_other_texts() {
    assert!(parse_claims("").is_none());
    assert!(parse_claims("{}").is_none());
    assert!(parse_claims("{\"sub\":\"a\",\"email\":\"b\",\"role\":\"c\",\"exp\":1,\"iat\":2} ").is_none());
    assert!(parse_claims("{\"sub\":\"a\",\"email\":\"b\",\"role\":\"c\",\"exp\":01,\"iat\":2}").is_none());
    assert!(parse_claims("{\"sub\":\"a\",\"email\":\"b\",\"role\":\"c\",\"exp\":99999999999999999999,\"iat\":2}").is_none());
    assert!(parse_claims("{\"sub\":\"\\u0041\",\"email\":\"b\",\"role\":\"c\",\"exp\":1,\"iat\":2}").is_none());
    assert!(parse_claims("{\"sub\":\"a\",\"email\":\"b\",\"role\":\"c\",\"exp\":1,\"iat\":2}").is_some());
}

#[test]
fn session_claims_last_thirty_days() {
    let now = Moment { secs: 1_700_000_000, nanos: 5 };
    let c = session_claims(0x67e5504410b1426f9247bb680e5fe0c8, "a@b.c", "user", &now);
    assert_eq!(c.sub, "67e55044-10b1-426f-9247-bb680e5fe0c8");
    assert_eq!(c.email, "a@b.c");
    assert_eq!(c.role, "user");
    assert_eq!(c.iat, 1_700_000_000);
    assert_eq!(c.exp, 1_700_000_000 + 2_592_000);
}
