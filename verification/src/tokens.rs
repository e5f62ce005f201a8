//! Random link tokens and the single-use links sent by e-mail: e-mail
//! verification, password reset and magic sign-in.
use vstd::prelude::*;
use crate::clock::{Moment, MAX_SECS};
use crate::error::{AppError, ErrorView};
use crate::text::{hex_char, hex_lower, is_lower_hex};

verus! {

/// Fills `buf` with bytes from the operating system's random source
/// (rand's `OsRng::fill_bytes`). Only its length is known afterwards; the
/// call panics, as `fill_bytes` does, if the system source fails.
#[verifier::external_body]
fn fill_random(buf: &mut Vec<u8>)
    ensures
        final(buf)@.len() == old(buf)@.len(),
{
    rand::RngCore::fill_bytes(&mut rand::rngs::OsRng, buf.as_mut_slice());
}

/// The lowercase hexadecimal text of `bytes` (hex's `encode`).
#[verifier::external_body]
fn hex_encode(bytes: &[u8]) -> (r: String)
    ensures
        r@ == hex_lower(bytes@),
{
    hex::encode(bytes)
}

/// The hexadecimal text of `n` random bytes as the link tokens use.
pub open spec fn is_token_of_len(t: Seq<char>, n: nat) -> bool {
    exists|bytes: Seq<u8>| bytes.len() == n && t == hex_lower(bytes)
}

/// The hexadecimal text has two lowercase digits per byte.
pub proof fn hex_lower_shape(bytes: Seq<u8>)
    ensures
        hex_lower(bytes).len() == 2 * bytes.len(),
        is_lower_hex(hex_lower(bytes)),
    decreases bytes.len(),
{
    if bytes.len() > 0 {
        hex_lower_shape(bytes.drop_last());
        let b = bytes.last() as int;
        let h = hex_lower(bytes);
        let pre = hex_lower(bytes.drop_last());
        assert(h == pre + seq![hex_char(b / 16), hex_char(b % 16)]);
        assert forall|i: int| 0 <= i < h.len() implies (('0' <= #[trigger] h[i] && h[i] <= '9') || (
        'a' <= h[i] && h[i] <= 'f')) by {
            if i < pre.len() {
                assert(h[i] == pre[i]);
            }
        }
    }
}

/// A fresh random token: the hexadecimal text of `len` random bytes.
pub fn generate_token(len: usize) -> (r: String)
    ensures
        is_token_of_len(r@, len as nat),
        r@.len() == 2 * len,
        is_lower_hex(r@),
{
    let mut bytes: Vec<u8> = Vec::new();
    let mut i: usize = 0;
    while i < len
        invariant
            i <= len,
            bytes@.len() == i,
        decreases len - i,
    {
        bytes.push(0u8);
        i = i + 1;
    }
    fill_random(&mut bytes);
    let r = hex_encode(bytes.as_slice());
    proof {
        hex_lower_shape(bytes@);
    }
    r
}

/// The three kinds of single-use link.
#[derive(Debug, Clone, Copy, PartialEq, Eq, Structural)]
pub enum LinkKind {
    EmailVerification,
    PasswordReset,
    MagicLogin,
}

/// How long a link of each kind stays valid, in seconds.
pub open spec fn lifetime_of(kind: LinkKind) -> int {
    match kind {
        LinkKind::EmailVerification => 86400,
        LinkKind::PasswordReset => 3600,
        LinkKind::MagicLogin => 900,
    }
}

/// What a second use of a link is told.
pub open spec fn reuse_message(kind: LinkKind) -> Seq<char> {
    match kind {
        LinkKind::EmailVerification => "Verification token already used"@,
        LinkKind::PasswordReset => "Reset token already used"@,
        LinkKind::MagicLogin => "Magic link already used"@,
    }
}

/// The length, in random bytes, of every link token.
pub const LINK_TOKEN_BYTES: usize = 32;

impl LinkKind {
    /// How long a link of this kind stays valid, in seconds.
    pub fn lifetime_secs(&self) -> (r: i64)
        ensures
            r == lifetime_of(*self),
    {
        match self {
            LinkKind::EmailVerification => 86400,
            LinkKind::PasswordReset => 3600,
            LinkKind::MagicLogin => 900,
        }
    }

    /// When a link of this kind issued at `now` expires.
    pub fn expiry(&self, now: &Moment) -> (r: Moment)
        requires
            now.in_range(),
            now.secs + lifetime_of(*self) <= MAX_SECS,
        ensures
            r == now.shifted(lifetime_of(*self)),
            r.in_range(),
    {
        now.plus_secs(self.lifetime_secs())
    }
}

/// A stored link, as the database returns it for a token.
#[derive(Debug)]
pub struct LinkRecord {
    pub id: u128,
    pub user_id: u128,
    pub expires_at: Moment,
    pub used: bool,
}

/// The outcome of presenting a link token at `now`, given the stored
/// record of that token, if any.
pub open spec fn redeem_outcome(kind: LinkKind, record: Option<LinkRecord>, now: Moment) -> Option<
    ErrorView,
> {
    match record {
        None => Some(ErrorView::TokenInvalid),
        Some(rec) => if rec.used {
            Some(ErrorView::Auth(reuse_message(kind)))
        } else if rec.expires_at.before(now) {
            Some(ErrorView::TokenExpired)
        } else {
            None
        },
    }
}

/// Decides whether a link may be used now: an unknown token is invalid,
/// a used one is refused, an expired one has expired; otherwise the
/// record is handed back so that it can be marked used.
pub fn redeem_link(kind: LinkKind, record: Option<LinkRecord>, now: &Moment) -> (r: Result<
    LinkRecord,
    AppError,
>)
    ensures
        match redeem_outcome(kind, record, *now) {
            Some(e) => r matches Err(x) && x@ == e,
            None => r matches Ok(rec) && record == Some(rec),
        },
        record is None ==> (r matches Err(e) && e@ == ErrorView::TokenInvalid),
        record matches Some(rec) ==> (rec.used ==> (r matches Err(e) && e@ is Auth)),
        record matches Some(rec) ==> (!rec.used && (rec.expires_at.secs < now.secs
            || (rec.expires_at.secs == now.secs && rec.expires_at.nanos < now.nanos)) ==> (r matches Err(e)
            && e@ == ErrorView::TokenExpired)),
        record matches Some(rec) ==> (!rec.used && !(rec.expires_at.secs < now.secs
            || (rec.expires_at.secs == now.secs && rec.expires_at.nanos < now.nanos)) ==> (r matches Ok(x)
            && x.id == rec.id && x.user_id == rec.user_id)),
        record matches Some(rec) ==> (rec.used && kind == LinkKind::EmailVerification ==> (r matches Err(e)
            && e@ == ErrorView::Auth("Verification token already used"@))),
        record matches Some(rec) ==> (rec.used && kind == LinkKind::PasswordReset ==> (r matches Err(e)
            && e@ == ErrorView::Auth("Reset token already used"@))),
        record matches Some(rec) ==> (rec.used && kind == LinkKind::MagicLogin ==> (r matches Err(e)
            && e@ == ErrorView::Auth("Magic link already used"@))),
{
    match record {
        None => Err(AppError::TokenInvalid),
        Some(rec) => {
            if rec.used {
                let m = match kind {
                    LinkKind::EmailVerification => "Verification token already used",
                    LinkKind::PasswordReset => "Reset token already used",
                    LinkKind::MagicLogin => "Magic link already used",
                };
                Err(AppError::Auth(m.to_owned()))
            } else if rec.expires_at.is_before(now) {
                Err(AppError::TokenExpired)
            } else {
                Ok(rec)
            }
        },
    }
}

/// A link can be used once, within its lifetime: an unused link issued at
/// `issued` is accepted at any `now` from `issued` up to its expiry, and
/// refused as expired afterwards; a used link is always refused.
pub proof fn link_lifetime(kind: LinkKind, rec: LinkRecord, issued: Moment, now: Moment)
    requires
        issued.in_range(),
        issued.secs + lifetime_of(kind) <= MAX_SECS,
        rec.expires_at == issued.shifted(lifetime_of(kind)),
    ensures
        !rec.used && !now.before(issued) && !rec.expires_at.before(now) ==> redeem_outcome(
            kind,
            Some(rec),
            now,
        ) is None,
        !rec.used && rec.expires_at.before(now) ==> redeem_outcome(kind, Some(rec), now) == Some(
            ErrorView::TokenExpired,
        ),
        rec.used ==> redeem_outcome(kind, Some(rec), now) == Some(
            ErrorView::Auth(reuse_message(kind)),
        ),
        !rec.used ==> redeem_outcome(kind, Some(rec), issued) is None,
{
}

/// A freshly issued single-use link: its token and when it expires.
#[derive(Debug)]
pub struct IssuedLink {
    pub token: String,
    pub expires_at: Moment,
}

/// Issues a link of `kind` at `now`: a token of 32 random bytes in
/// hexadecimal, valid for the kind's lifetime.
pub fn issue_link(kind: LinkKind, now: &Moment) -> (r: IssuedLink)
    requires
        now.in_range(),
        now.secs + lifetime_of(kind) <= MAX_SECS,
    ensures
        is_token_of_len(r.token@, LINK_TOKEN_BYTES as nat),
        r.token@.len() == 64,
        r.expires_at == now.shifted(lifetime_of(kind)),
        r.expires_at.nanos == now.nanos,
        kind == LinkKind::EmailVerification ==> r.expires_at.secs == now.secs + 86400,
        kind == LinkKind::PasswordReset ==> r.expires_at.secs == now.secs + 3600,
        kind == LinkKind::MagicLogin ==> r.expires_at.secs == now.secs + 900,
{
    let token = generate_token(LINK_TOKEN_BYTES);
    let expires_at = kind.expiry(now);
    IssuedLink { token, expires_at }
}

} // verus!
