//! Session tokens: the claims a signed-in user carries, their JSON text,
//! and signing and checking them with a server secret.
use vstd::prelude::*;
use crate::clock::{now, Moment, MAX_SECS};
use crate::error::{AppError, ErrorView};
use crate::ids::{hyphenated, uuid_text};
use crate::json::{
    chars_of, expect_text, is_digit, json_string, lemma_decimal_unique, lemma_string_head, lemma_text_head,
    scan_int, scan_json_string, write_json_string,
};
use crate::text::{decimal, same_text, write_decimal};

verus! {

/// How long a session token stays valid, in seconds (30 days).
pub const SESSION_SECS: i64 = 2592000;

/// What a session token says about its holder.
#[derive(Debug)]
pub struct Claims {
    /// The user's id, as hyphenated UUID text.
    pub sub: String,
    pub email: String,
    pub role: String,
    /// When the token expires, in seconds since the Unix epoch.
    pub exp: i64,
    /// When the token was issued, in seconds since the Unix epoch.
    pub iat: i64,
}

/// The mathematical content of [`Claims`].
pub struct ClaimsView {
    pub sub: Seq<char>,
    pub email: Seq<char>,
    pub role: Seq<char>,
    pub exp: i64,
    pub iat: i64,
}

impl View for Claims {
    type V = ClaimsView;

    open spec fn view(&self) -> ClaimsView {
        ClaimsView { sub: self.sub@, email: self.email@, role: self.role@, exp: self.exp, iat: self.iat }
    }
}

/// The JSON text of claims, fields in declaration order and no spaces, as
/// serde_json writes the claims structure.
pub open spec fn claims_text(c: ClaimsView) -> Seq<char> {
    "{\"sub\":"@ + (json_string(c.sub) + (",\"email\":"@ + (json_string(c.email) + (",\"role\":"@
        + (json_string(c.role) + (",\"exp\":"@ + (decimal(c.exp as int) + (",\"iat\":"@ + (
    decimal(c.iat as int) + "}"@)))))))))
}

/// The claims of a session for user `id` issued at `now`.
pub open spec fn session_claims_view(id: u128, email: Seq<char>, role: Seq<char>, now: Moment) -> ClaimsView {
    ClaimsView {
        sub: hyphenated(id),
        email,
        role,
        exp: (now.secs + SESSION_SECS) as i64,
        iat: now.secs,
    }
}

/// The JSON text of `c`.
pub fn claims_json(c: &Claims) -> (r: String)
    ensures
        r@ == claims_text(c@),
{
    let mut out = "{\"sub\":".to_owned();
    write_json_string(&mut out, c.sub.as_str());
    out.append(",\"email\":");
    write_json_string(&mut out, c.email.as_str());
    out.append(",\"role\":");
    write_json_string(&mut out, c.role.as_str());
    out.append(",\"exp\":");
    write_decimal(&mut out, c.exp);
    out.append(",\"iat\":");
    write_decimal(&mut out, c.iat);
    out.append("}");
    assert(out@ =~= claims_text(c@));
    out
}

/// The claims JSON text determines the claims it was written from.
#[verifier::spinoff_prover]
#[verifier::rlimit(40)]
pub proof fn claims_text_determines_claims(c: ClaimsView, x: ClaimsView)
    requires
        claims_text(c) == claims_text(x),
    ensures
        c == x,
{
    reveal_strlit(",\"iat\":");
    reveal_strlit("}");
    let t = claims_text(c);
    let l0 = "{\"sub\":"@;
    let l1 = ",\"email\":"@;
    let l2 = ",\"role\":"@;
    let l3 = ",\"exp\":"@;
    let l4 = ",\"iat\":"@;
    let l5 = "}"@;
    let r1 = l1 + (json_string(c.email) + (l2 + (json_string(c.role) + (l3 + (decimal(c.exp as int)
        + (l4 + (decimal(c.iat as int) + l5)))))));
    let s1 = l1 + (json_string(x.email) + (l2 + (json_string(x.role) + (l3 + (decimal(x.exp as int)
        + (l4 + (decimal(x.iat as int) + l5)))))));
    assert(t.skip(0) =~= t);
    lemma_text_head(t, 0, l0, json_string(c.sub) + r1);
    lemma_text_head(t, 0, l0, json_string(x.sub) + s1);
    let p1 = l0.len() as int;
    lemma_string_head(t, p1, c.sub, r1);
    lemma_string_head(t, p1, x.sub, s1);
    let p2 = p1 + json_string(c.sub).len();
    let r2 = json_string(c.email) + (l2 + (json_string(c.role) + (l3 + (decimal(c.exp as int) + (l4
        + (decimal(c.iat as int) + l5))))));
    let s2 = json_string(x.email) + (l2 + (json_string(x.role) + (l3 + (decimal(x.exp as int) + (l4
        + (decimal(x.iat as int) + l5))))));
    lemma_text_head(t, p2, l1, r2);
    lemma_text_head(t, p2, l1, s2);
    let p3 = p2 + l1.len();
    let r3 = l2 + (json_string(c.role) + (l3 + (decimal(c.exp as int) + (l4 + (decimal(c.iat as int)
        + l5)))));
    let s3 = l2 + (json_string(x.role) + (l3 + (decimal(x.exp as int) + (l4 + (decimal(x.iat as int)
        + l5)))));
    lemma_string_head(t, p3, c.email, r3);
    lemma_string_head(t, p3, x.email, s3);
    let p4 = p3 + json_string(c.email).len();
    let r4 = json_string(c.role) + (l3 + (decimal(c.exp as int) + (l4 + (decimal(c.iat as int) + l5))));
    let s4 = json_string(x.role) + (l3 + (decimal(x.exp as int) + (l4 + (decimal(x.iat as int) + l5))));
    lemma_text_head(t, p4, l2, r4);
    lemma_text_head(t, p4, l2, s4);
    let p5 = p4 + l2.len();
    let r5 = l3 + (decimal(c.exp as int) + (l4 + (decimal(c.iat as int) + l5)));
    let s5 = l3 + (decimal(x.exp as int) + (l4 + (decimal(x.iat as int) + l5)));
    lemma_string_head(t, p5, c.role, r5);
    lemma_string_head(t, p5, x.role, s5);
    let p6 = p5 + json_string(c.role).len();
    let r6 = decimal(c.exp as int) + (l4 + (decimal(c.iat as int) + l5));
    let s6 = decimal(x.exp as int) + (l4 + (decimal(x.iat as int) + l5));
    lemma_text_head(t, p6, l3, r6);
    lemma_text_head(t, p6, l3, s6);
    let y = l4 + (decimal(c.iat as int) + l5);
    let z = l4 + (decimal(x.iat as int) + l5);
    assert(y[0] == ',' && z[0] == ',');
    lemma_decimal_unique(c.exp as int, x.exp as int, y, z);
    let ya = decimal(c.iat as int) + l5;
    let za = decimal(x.iat as int) + l5;
    assert(y.skip(l4.len() as int) =~= ya);
    assert(z.skip(l4.len() as int) =~= za);
    assert(l5[0] == '}');
    lemma_decimal_unique(c.iat as int, x.iat as int, l5, l5);
}

/// Reads claims back from their JSON text. Exactly the texts that
/// `claims_json` writes are read, each as the claims it was written from.
pub fn parse_claims(text: &str) -> (r: Option<Claims>)
    ensures
        r matches Some(c) ==> text@ == claims_text(c@),
        forall|c: ClaimsView| #[trigger] claims_text(c) == text@ ==> (r matches Some(x) && x@ == c),
{
    let cs = chars_of(text);
    let ghost hc: Option<ClaimsView> = if exists|c: ClaimsView| #[trigger] claims_text(c) == text@ {
        Some(choose|c: ClaimsView| #[trigger] claims_text(c) == text@)
    } else {
        None
    };
    let r = parse_claims_chars(&cs, Ghost(hc));
    match r {
        Some(c) => {
            let back = claims_json(&c);
            if same_text(back.as_str(), text) {
                proof {
                    assert forall|x: ClaimsView| #[trigger] claims_text(x) == text@ implies c@ == x by {
                        claims_text_determines_claims(c@, x);
                    }
                }
                Some(c)
            } else {
                None
            }
        },
        None => None,
    }
}

/// Reads the field name `lit` and a JSON string after it, from `p` on.
/// When the text there is `lit`, the literal of `s`, then `rest`, the
/// string `s` is read and the position of `rest` returned.
fn read_string_field(cs: &Vec<char>, p: usize, lit: &str, Ghost(h): Ghost<Option<(Seq<char>, Seq<char>)>>) -> (r: Option<(String, usize)>)
    requires
        p <= cs@.len(),
        h matches Some((s, rest)) ==> cs@.skip(p as int) == lit@ + (json_string(s) + rest),
    ensures
        r matches Some((_, q)) ==> q <= cs@.len(),
        h matches Some((s, rest)) ==> (r matches Some((v, q)) && v@ == s && cs@.skip(q as int) == rest),
{
    proof {
        reveal_strlit("\"");
        if let Some((s, rest)) = h {
            lemma_text_head(cs@, p as int, lit@, json_string(s) + rest);
            lemma_string_head(cs@, p + lit@.len(), s, rest);
            assert(cs@.subrange(p + lit@.len(), p + lit@.len() + 1) =~= "\""@);
        }
    }
    let p1 = match expect_text(cs, p, lit) {
        Some(x) => x,
        None => return None,
    };
    let p2 = match expect_text(cs, p1, "\"") {
        Some(x) => x,
        None => return None,
    };
    scan_json_string(cs, p2)
}

/// Reads the field name `lit` and a decimal integer after it, from `p` on.
/// When the text there is `lit`, the decimal text of `n`, then `rest`
/// (which starts with a non-digit), `n` is read and the position of `rest`
/// returned.
fn read_int_field(cs: &Vec<char>, p: usize, lit: &str, Ghost(h): Ghost<Option<(i64, Seq<char>)>>) -> (r: Option<(i64, usize)>)
    requires
        p <= cs@.len(),
        h matches Some((n, rest)) ==> cs@.skip(p as int) == lit@ + (decimal(n as int) + rest) && rest.len() > 0 && !is_digit(rest[0]),
    ensures
        r matches Some((_, q)) ==> q <= cs@.len(),
        h matches Some((n, rest)) ==> (r matches Some((v, q)) && v == n && cs@.skip(q as int) == rest),
{
    proof {
        if let Some((n, rest)) = h {
            lemma_text_head(cs@, p as int, lit@, decimal(n as int) + rest);
            assert(cs@.skip(p + lit@.len()) == decimal(n as int).add(rest));
            lemma_text_head(cs@, p + lit@.len(), decimal(n as int), rest);
        }
    }
    let p1 = match expect_text(cs, p, lit) {
        Some(x) => x,
        None => return None,
    };
    let r = scan_int(cs, p1);
    proof {
        if let Some((n, rest)) = h {
            assert(cs@.skip(p1 as int) == decimal(n as int).add(rest));
            assert(r == Some((n, (p1 + decimal(n as int).len()) as usize)));
            assert(cs@.len() == cs.len());
            assert(p1 + decimal(n as int).len() <= cs@.len());
        }
    }
    r
}

/// Reads claims from their JSON text in `cs`; when `hc` names claims whose
/// text `cs` is, those claims are read.
fn parse_claims_chars(cs: &Vec<char>, Ghost(hc): Ghost<Option<ClaimsView>>) -> (r: Option<Claims>)
    requires
        hc matches Some(c) ==> claims_text(c) == cs@,
    ensures
        hc matches Some(c) ==> (r matches Some(x) && x@ == c),
{
    proof {
        reveal_strlit(",\"iat\":");
        reveal_strlit("}");
    }
    let ghost c: ClaimsView = if let Some(c) = hc { c } else { arbitrary() };
    let ghost l1 = ",\"email\":"@;
    let ghost l2 = ",\"role\":"@;
    let ghost l3 = ",\"exp\":"@;
    let ghost l4 = ",\"iat\":"@;
    let ghost l5 = "}"@;
    let ghost r5 = l4 + (decimal(c.iat as int) + l5);
    let ghost r4 = l3 + (decimal(c.exp as int) + r5);
    let ghost r3 = l2 + (json_string(c.role) + r4);
    let ghost r2 = l1 + (json_string(c.email) + r3);
    let ghost h1 = if hc is Some { Some((c.sub, r2)) } else { None };
    proof {
        assert(cs@.skip(0) =~= cs@);
    }
    let (sub, p1) = match read_string_field(cs, 0, "{\"sub\":", Ghost(h1)) {
        Some(x) => x,
        None => return None,
    };
    let ghost h2 = if hc is Some { Some((c.email, r3)) } else { None };
    let (email, p2) = match read_string_field(cs, p1, ",\"email\":", Ghost(h2)) {
        Some(x) => x,
        None => return None,
    };
    let ghost h3 = if hc is Some { Some((c.role, r4)) } else { None };
    let (role, p3) = match read_string_field(cs, p2, ",\"role\":", Ghost(h3)) {
        Some(x) => x,
        None => return None,
    };
    proof {
        assert(r5[0] == ',');
        assert(l5[0] == '}');
    }
    let ghost h4 = if hc is Some { Some((c.exp, r5)) } else { None };
    let (exp, p4) = match read_int_field(cs, p3, ",\"exp\":", Ghost(h4)) {
        Some(x) => x,
        None => return None,
    };
    let ghost h5 = if hc is Some { Some((c.iat, l5)) } else { None };
    let (iat, p5) = match read_int_field(cs, p4, ",\"iat\":", Ghost(h5)) {
        Some(x) => x,
        None => return None,
    };
    proof {
        if hc is Some {
            lemma_text_head(cs@, p5 as int, l5, seq![]);
        }
    }
    let p6 = match expect_text(cs, p5, "}") {
        Some(x) => x,
        None => return None,
    };
    if p6 != cs.len() {
        return None;
    }
    Some(Claims { sub, email, role, exp, iat })
}

/// The claims of a session for user `id` issued at `now`.
pub fn session_claims(id: u128, email: &str, role: &str, now: &Moment) -> (r: Claims)
    requires
        now.in_range(),
        now.secs + SESSION_SECS <= MAX_SECS,
    ensures
        r@ == session_claims_view(id, email@, role@, *now),
{
    let exp = now.plus_secs(SESSION_SECS);
    Claims { sub: uuid_text(id), email: email.to_owned(), role: role.to_owned(), exp: exp.secs, iat: now.secs }
}

/// The token that jsonwebtoken's `encode` makes of a claims text with the
/// default (HS256) header and an HMAC secret.
pub uninterp spec fn signed_token(claims: Seq<char>, secret: Seq<char>) -> Seq<char>;

/// The claims text that jsonwebtoken's `decode` reads out of a token it
/// accepts: the token's payload as a JSON text, without surrounding
/// whitespace.
pub uninterp spec fn token_claims(token: Seq<char>) -> Seq<char>;

/// Whether the last `.`-separated segment of `token` is the HS256
/// signature, keyed by the secret's bytes, of the text before it: what
/// jsonwebtoken's `crypto::verify` answers for that segment and message
/// with the secret as an HMAC key.
pub uninterp spec fn hmac_valid(token: Seq<char>, secret: Seq<char>) -> bool;

/// Signs a claims text (serde_json's `RawValue::from_string`, then
/// jsonwebtoken's `encode` with the default header and the secret's bytes
/// as HMAC key). A claims text as `claims_text` writes it is valid JSON
/// with no whitespace around it, so `from_string` keeps it unchanged and
/// the token's payload is exactly that text; HS256 signing with a secret
/// key does not fail. The token's signature is the secret's HMAC of the
/// rest of the token.
#[verifier::external_body]
fn jwt_encode(claims: &str, secret: &str) -> (r: Result<String, String>)
    requires
        exists|c: ClaimsView| #[trigger] claims_text(c) == claims@,
    ensures
        r is Ok,
        r matches Ok(t) ==> t@ == signed_token(claims@, secret@),
        r matches Ok(t) ==> token_claims(t@) == claims@,
        r matches Ok(t) ==> hmac_valid(t@, secret@),
{
    let raw = match serde_json::value::RawValue::from_string(claims.to_string()) {
        Ok(raw) => raw,
        Err(e) => return Err(jsonwebtoken::errors::Error::from(e).to_string()),
    };
    let key = jsonwebtoken::EncodingKey::from_secret(secret.as_bytes());
    match jsonwebtoken::encode(&jsonwebtoken::Header::default(), &raw, &key) {
        Ok(t) => Ok(t),
        Err(e) => Err(e.to_string()),
    }
}

/// Why a session token was refused.
#[derive(Debug, Clone, Copy, PartialEq, Eq, Structural)]
pub enum TokenRejection {
    /// The token's `exp` has passed.
    Expired,
    /// Anything else: bad format, bad signature, wrong algorithm, missing claims.
    Invalid,
}

/// Whether `token` is what this library signs for claims `c` with `secret`:
/// the signed token of their claims text, with an `exp` that is not
/// negative (as a JWT expiry must be).
pub open spec fn signed_session(token: Seq<char>, secret: Seq<char>, c: ClaimsView) -> bool {
    c.exp >= 0 && token == signed_token(claims_text(c), secret)
}

/// Checks a token with jsonwebtoken's `decode` and the default validation
/// (HS256 only, `exp` required as a non-negative number, no audience),
/// keyed by the secret's bytes; the expiry against the clock is checked
/// only when `check_expiry` is set. Returns the claims text of an accepted
/// token. `decode` checks the signature before anything else, so an
/// accepted token, and an expired one, carry the secret's HMAC. A token
/// that `encode` made with the same secret, the default header and claims
/// whose `exp` is not negative passes every check but the clock: without
/// the expiry check it is accepted with its claims text, and with it it is
/// accepted or expired. What other tokens get, when the clock is read, is
/// left unsaid.
#[verifier::external_body]
fn jwt_decode(token: &str, secret: &str, check_expiry: bool) -> (r: Result<String, TokenRejection>)
    ensures
        r matches Ok(c) ==> c@ == token_claims(token@),
        r is Ok ==> hmac_valid(token@, secret@),
        r matches Err(TokenRejection::Expired) ==> check_expiry,
        r matches Err(TokenRejection::Expired) ==> hmac_valid(token@, secret@),
        forall|c: ClaimsView| #[trigger] signed_session(token@, secret@, c) ==> (r is Ok || check_expiry),
        forall|c: ClaimsView| #[trigger] signed_session(token@, secret@, c) ==> (r is Ok || r matches Err(
            TokenRejection::Expired)),
        forall|c: ClaimsView| #[trigger] signed_session(token@, secret@, c) ==> (r matches Ok(x) ==> x@
            == claims_text(c)),
{
    let key = jsonwebtoken::DecodingKey::from_secret(secret.as_bytes());
    let mut v = jsonwebtoken::Validation::default();
    v.validate_exp = check_expiry;
    match jsonwebtoken::decode::<Box<serde_json::value::RawValue>>(token, &key, &v) {
        Ok(data) => Ok(data.claims.get().to_string()),
        Err(e) => match e.kind() {
            jsonwebtoken::errors::ErrorKind::ExpiredSignature => Err(TokenRejection::Expired),
            _ => Err(TokenRejection::Invalid),
        },
    }
}

/// What signing a session at `now` gives: the signed token of the session's
/// claims text, or an internal error when the expiry falls past the end of
/// the calendar.
pub open spec fn session_token_outcome(id: u128, email: Seq<char>, role: Seq<char>, secret: Seq<char>, now: Moment, r: Result<String, AppError>) -> bool {
    if now.secs + SESSION_SECS <= MAX_SECS {
        r matches Ok(t) && t@ == signed_token(claims_text(session_claims_view(id, email, role, now)), secret)
            && token_claims(t@) == claims_text(session_claims_view(id, email, role, now))
            && hmac_valid(t@, secret)
    } else {
        r matches Err(e) && e@ == ErrorView::Internal("JWT encode error: time out of range"@)
    }
}

/// A signed session token for user `id`, issued at `now` and valid for
/// thirty days.
pub fn create_token_at(id: u128, email: &str, role: &str, secret: &str, now: &Moment) -> (r: Result<String, AppError>)
    requires
        now.in_range(),
    ensures
        session_token_outcome(id, email@, role@, secret@, *now, r),
{
    if now.secs > MAX_SECS - SESSION_SECS {
        return Err(AppError::Internal("JWT encode error: time out of range".to_owned()));
    }
    let claims = session_claims(id, email, role, now);
    let text = claims_json(&claims);
    proof {
        assert(claims_text(claims@) == text@);
    }
    match jwt_encode(text.as_str(), secret) {
        Ok(t) => Ok(t),
        Err(m) => {
            proof {
                assert(false);
            }
            Err(AppError::Internal(m))
        },
    }
}

/// A signed session token for user `id`, issued now and valid for thirty
/// days. A clock so late that the expiry falls outside the calendar is an
/// internal error.
pub fn create_token(id: u128, email: &str, role: &str, secret: &str) -> (r: Result<String, AppError>)
    ensures
        exists|n: Moment| #[trigger] n.in_range() && session_token_outcome(id, email@, role@, secret@, n, r),
{
    let t = now();
    create_token_at(id, email, role, secret, &t)
}

/// The claims of a decoded token, or why it is refused: an expired token
/// is expired, any other refusal, or a claims text that is not the JSON
/// text of claims, is invalid.
pub fn claims_from_decoded(decoded: Result<String, TokenRejection>) -> (r: Result<Claims, AppError>)
    ensures
        match decoded {
            Err(TokenRejection::Expired) => r matches Err(e) && e@ == ErrorView::TokenExpired,
            Err(TokenRejection::Invalid) => r matches Err(e) && e@ == ErrorView::TokenInvalid,
            Ok(t) => match r {
                Ok(c) => t@ == claims_text(c@),
                Err(e) => e@ == ErrorView::TokenInvalid && forall|c: ClaimsView| #[trigger] claims_text(c) != t@,
            },
        },
{
    match decoded {
        Err(TokenRejection::Expired) => Err(AppError::TokenExpired),
        Err(TokenRejection::Invalid) => Err(AppError::TokenInvalid),
        Ok(t) => match parse_claims(t.as_str()) {
            Some(c) => Ok(c),
            None => Err(AppError::TokenInvalid),
        },
    }
}

/// The verdict on claims already read from a token, given what the check
/// of its expiry answered: kept when the token is still valid, otherwise
/// expired or invalid.
pub fn expiry_verdict(claims: Claims, checked: Result<String, TokenRejection>) -> (r: Result<Claims, AppError>)
    ensures
        match checked {
            Ok(_) => r matches Ok(c) && c@ == claims@,
            Err(TokenRejection::Expired) => r matches Err(e) && e@ == ErrorView::TokenExpired,
            Err(TokenRejection::Invalid) => r matches Err(e) && e@ == ErrorView::TokenInvalid,
        },
{
    match checked {
        Ok(_) => Ok(claims),
        Err(TokenRejection::Expired) => Err(AppError::TokenExpired),
        Err(TokenRejection::Invalid) => Err(AppError::TokenInvalid),
    }
}

/// What `verify_token` owes a token checked against `secret`: accepted
/// claims are the token's own claims text and the token carries the
/// secret's HMAC; a refusal is an expired or invalid token, an expired one
/// being signed and readable; and a token that this library signed with
/// that secret is accepted with its claims or, at worst, expired.
pub open spec fn verify_outcome(token: Seq<char>, secret: Seq<char>, r: Result<Claims, AppError>) -> bool {
    &&& (r matches Ok(c) ==> claims_text(c@) == token_claims(token) && hmac_valid(token, secret))
    &&& (r matches Err(e) ==> (e@ == ErrorView::TokenExpired || e@ == ErrorView::TokenInvalid))
    &&& (r matches Err(e) ==> (e@ == ErrorView::TokenExpired ==> hmac_valid(token, secret) && exists|
        c: ClaimsView,
    | #[trigger] claims_text(c) == token_claims(token)))
    &&& forall|c: ClaimsView| #[trigger] signed_session(token, secret, c) ==> (r matches Ok(x) && x@ == c)
        || (r matches Err(e) && e@ == ErrorView::TokenExpired)
}

/// How many seconds past its `exp` a session token is still accepted
/// (jsonwebtoken's default leeway).
pub const EXPIRY_LEEWAY_SECS: i64 = 60;

/// What `verify_token_at` owes a token checked against `secret` at `now`:
/// all that `verify_outcome` says, and the clock decides expiry: accepted
/// claims have an `exp` no more than the leeway before `now`, an expired
/// refusal names readable claims whose `exp` is, and a token that this
/// library signed with `secret` is accepted with its claims exactly while
/// its `exp` has not passed by more than the leeway, and expired after.
pub open spec fn verify_at_outcome(token: Seq<char>, secret: Seq<char>, now: Moment, r: Result<Claims, AppError>) -> bool {
    &&& verify_outcome(token, secret, r)
    &&& (r matches Ok(c) ==> c.exp >= now.secs - EXPIRY_LEEWAY_SECS)
    &&& (r matches Err(e) ==> (e@ == ErrorView::TokenExpired ==> exists|c: ClaimsView|
        #[trigger] claims_text(c) == token_claims(token) && c.exp < now.secs - EXPIRY_LEEWAY_SECS))
    &&& forall|c: ClaimsView| #[trigger] signed_session(token, secret, c) ==> (if c.exp >= now.secs
        - EXPIRY_LEEWAY_SECS {
        r matches Ok(x) && x@ == c
    } else {
        r matches Err(e) && e@ == ErrorView::TokenExpired
    })
}

/// The claims of a session token that the secret signed, checked at `now`:
/// the signature comes first, then the claims must read as claims, and
/// only then does the expiry count: a token whose `exp` is more than a
/// minute before `now` has expired.
pub fn verify_token_at(token: &str, secret: &str, now: &Moment) -> (r: Result<Claims, AppError>)
    ensures
        verify_at_outcome(token@, secret@, *now, r),
        r matches Ok(c) ==> c.exp + 60 >= now.secs,
        forall|c: ClaimsView| #[trigger] signed_session(token@, secret@, c) ==> (c.exp + 60 >= now.secs
            ==> (r matches Ok(x) && x@ == c)),
        forall|c: ClaimsView| #[trigger] signed_session(token@, secret@, c) ==> (c.exp + 60 < now.secs
            ==> (r matches Err(e) && e@ == ErrorView::TokenExpired)),
{
    let first = jwt_decode(token, secret, false);
    let ghost first_v = match &first {
        Ok(x) => Some(x@),
        Err(_) => None,
    };
    let decoded = claims_from_decoded(first);
    match decoded {
        Err(e) => {
            proof {
                assert forall|c: ClaimsView| #[trigger] signed_session(token@, secret@, c) implies false by {
                    assert(first_v == Some(claims_text(c)));
                }
            }
            Err(e)
        },
        Ok(c) => {
            proof {
                assert(claims_text(c@) == token_claims(token@));
                assert forall|x: ClaimsView| #[trigger] signed_session(token@, secret@, x) implies c@ == x by {
                    claims_text_determines_claims(c@, x);
                }
            }
            let exp: i128 = c.exp as i128;
            let at: i128 = now.secs as i128;
            if exp + 60 < at {
                Err(AppError::TokenExpired)
            } else {
                Ok(c)
            }
        },
    }
}

/// The claims of a session token that the secret signed and that has not
/// expired at the current time; otherwise `TokenExpired` or `TokenInvalid`.
pub fn verify_token(token: &str, secret: &str) -> (r: Result<Claims, AppError>)
    ensures
        verify_outcome(token@, secret@, r),
        exists|n: Moment| #[trigger] n.in_range() && verify_at_outcome(token@, secret@, n, r),
{
    let t = now();
    verify_token_at(token, secret, &t)
}

/// A token that this library signed with a secret is, under that secret,
/// accepted with its own claims until a minute past its `exp`, and refused
/// as expired after that; whatever the clock reads.
pub proof fn signed_session_lasts_until_expiry(
    token: Seq<char>,
    secret: Seq<char>,
    c: ClaimsView,
    now: Moment,
    r: Result<Claims, AppError>,
)
    requires
        c.exp >= 0,
        token == signed_token(claims_text(c), secret),
        verify_at_outcome(token, secret, now, r),
    ensures
        now.secs <= c.exp + 60 ==> (r matches Ok(x) && x@ == c),
        now.secs > c.exp + 60 ==> (r matches Err(e) && e@ == ErrorView::TokenExpired),
{
    assert(signed_session(token, secret, c));
}

/// A session issued at `issued` by `create_token_at` is let in, with the
/// claims it was issued with, for thirty days and a minute, and refused as
/// expired after that.
pub proof fn session_lasts_thirty_days(
    id: u128,
    email: Seq<char>,
    role: Seq<char>,
    secret: Seq<char>,
    issued: Moment,
    now: Moment,
    token: Seq<char>,
    r: Result<Claims, AppError>,
)
    requires
        0 <= issued.secs + SESSION_SECS <= MAX_SECS,
        token == signed_token(claims_text(session_claims_view(id, email, role, issued)), secret),
        verify_at_outcome(token, secret, now, r),
    ensures
        now.secs <= issued.secs + 2592060 ==> (r matches Ok(x) && x@ == session_claims_view(id, email, role, issued)),
        now.secs > issued.secs + 2592060 ==> (r matches Err(e) && e@ == ErrorView::TokenExpired),
        session_claims_view(id, email, role, issued).iat == issued.secs,
        session_claims_view(id, email, role, issued).exp == issued.secs + 2592000,
{
    signed_session_lasts_until_expiry(token, secret, session_claims_view(id, email, role, issued), now, r);
}

/// A session token this library signs verifies, under the secret it was
/// signed with, to the claims it was issued with, unless it has expired:
/// for the token that `create_token_at` makes at `now` (whose expiry must
/// not fall before 1970) and any outcome that `verify_token` may give for it.
pub proof fn issued_token_verifies(
    id: u128,
    email: Seq<char>,
    role: Seq<char>,
    secret: Seq<char>,
    now: Moment,
    token: Seq<char>,
    r: Result<Claims, AppError>,
)
    requires
        0 <= now.secs + SESSION_SECS <= MAX_SECS,
        token == signed_token(claims_text(session_claims_view(id, email, role, now)), secret),
        verify_outcome(token, secret, r),
    ensures
        (r matches Ok(c) && c@ == session_claims_view(id, email, role, now)) || (r matches Err(e) && e@
            == ErrorView::TokenExpired),
{
    assert(signed_session(token, secret, session_claims_view(id, email, role, now)));
}

/// What a checked session token yields is what was issued: when a token
/// carries the claims of an issued session, the claims that `verify_token`
/// returns for it are exactly those.
pub proof fn verified_claims_are_issued_claims(token: Seq<char>, issued: ClaimsView, read: ClaimsView)
    requires
        token_claims(token) == claims_text(issued),
        claims_text(read) == token_claims(token),
    ensures
        read == issued,
{
    claims_text_determines_claims(read, issued);
}

} // verus!
