//! Who is calling: the bearer token of a request, the signed-in user it
//! names, and which user records that user may read or change.
use vstd::prelude::*;
use crate::error::{AppError, ErrorView};
use crate::ids::{hyphenated, hyphenated_reads_back, parse_uuid, uuid_from_text};
use crate::jwt::{
    claims_text, hmac_valid, signed_session, token_claims, verify_at_outcome, verify_token, Claims, ClaimsView,
    EXPIRY_LEEWAY_SECS,
};
use crate::clock::Moment;
use crate::text::{same_text, strip_prefix_text};

verus! {

/// The signed-in user of a request.
#[derive(Debug, Clone)]
pub struct AuthUser {
    pub id: u128,
    pub email: String,
    pub role: String,
}

/// Which routes a guard protects.
#[derive(Debug, Clone, Copy, PartialEq, Eq, Structural)]
pub enum Guard {
    /// Any signed-in user.
    Member,
    /// Signed-in users whose role is `admin`.
    Admin,
}

/// What a request without a usable `Authorization` header is told.
pub open spec fn missing_header_message(g: Guard) -> Seq<char> {
    match g {
        Guard::Member => "Missing or malformed Authorization header"@,
        Guard::Admin => "Missing Authorization header"@,
    }
}

/// The token of an `Authorization: Bearer <token>` header value.
pub open spec fn bearer_of(header: Seq<char>) -> Option<Seq<char>> {
    if "Bearer "@.is_prefix_of(header) {
        Some(header.skip("Bearer "@.len() as int))
    } else {
        None
    }
}

/// The token of a bearer header value, if the value is one.
pub fn bearer_token(header: &str) -> (r: Option<&str>)
    ensures
        match bearer_of(header@) {
            Some(t) => r matches Some(x) && x@ == t,
            None => r is None,
        },
{
    strip_prefix_text(header, "Bearer ")
}

/// A bearer header built from a token gives that token back.
pub proof fn bearer_round_trip(token: Seq<char>)
    ensures
        bearer_of("Bearer "@ + token) == Some(token),
{
    let h = "Bearer "@ + token;
    assert("Bearer "@.is_prefix_of(h)) by {
        assert(h.subrange(0, "Bearer "@.len() as int) =~= "Bearer "@);
    }
    assert(h.skip("Bearer "@.len() as int) =~= token);
}

/// The signed-in user that checked claims name, as the guard `g` admits
/// them: an admin guard refuses any role but `admin`, and claims whose
/// subject is not a UUID are invalid.
pub open spec fn guard_outcome(g: Guard, c: ClaimsView) -> Result<u128, ErrorView> {
    if g == Guard::Admin && c.role != "admin"@ {
        Err(ErrorView::Forbidden("Admin access required"@))
    } else {
        match uuid_from_text(c.sub) {
            Some(id) => Ok(id),
            None => Err(ErrorView::TokenInvalid),
        }
    }
}

/// Whether `r` is guard `g`'s verdict on claims `c`: the user they name,
/// or the guard's refusal.
pub open spec fn guard_verdict(g: Guard, c: ClaimsView, r: Result<AuthUser, AppError>) -> bool {
    match guard_outcome(g, c) {
        Ok(id) => r matches Ok(u) && u.id == id && u.email@ == c.email && u.role@ == c.role,
        Err(e) => r matches Err(x) && x@ == e,
    }
}

/// Lets checked claims through guard `g`, or says why not.
pub fn pass_guard(g: Guard, checked: Result<Claims, AppError>) -> (r: Result<AuthUser, AppError>)
    ensures
        match checked {
            Err(e) => r matches Err(x) && x@ == e@,
            Ok(c) => guard_verdict(g, c@, r),
        },
{
    let c = match checked {
        Ok(c) => c,
        Err(e) => return Err(e),
    };
    if g == Guard::Admin && !same_text(c.role.as_str(), "admin") {
        return Err(AppError::Forbidden("Admin access required".to_owned()));
    }
    match parse_uuid(c.sub.as_str()) {
        Some(id) => Ok(AuthUser { id, email: c.email, role: c.role }),
        None => Err(AppError::TokenInvalid),
    }
}

/// The outcome that guard `g` owes a request whose `Authorization` header
/// value is `header`, checked against `secret`: a missing or non-bearer
/// header is refused with 401; otherwise see `token_outcome`.
pub open spec fn authentication_outcome(g: Guard, header: Option<Seq<char>>, secret: Seq<char>, r: Result<AuthUser, AppError>) -> bool {
    match header {
        None => r matches Err(e) && e@ == ErrorView::Auth(missing_header_message(g)),
        Some(h) => match bearer_of(h) {
            None => r matches Err(e) && e@ == ErrorView::Auth(missing_header_message(g)),
            Some(t) => token_outcome(g, t, secret, r),
        },
    }
}

/// The outcome that guard `g` owes a bearer token `t` checked against
/// `secret`. A user is let in only when the token carries the secret's
/// HMAC and its claims pass the guard, and then it is the user the claims
/// name. A refusal is an invalid token, an expired one (which carries the
/// secret's HMAC and readable claims), or the guard's own verdict on the
/// token's claims. A token that this library signed with `secret` gets the
/// guard's verdict on its claims, or at worst is expired; which of the two
/// is decided by the clock: the verdict while its `exp` has not passed by
/// more than the leeway, expired after.
pub open spec fn token_outcome(g: Guard, t: Seq<char>, secret: Seq<char>, r: Result<AuthUser, AppError>) -> bool {
    &&& forall|c: ClaimsView| #[trigger] signed_session(t, secret, c) ==> guard_verdict(g, c, r)
        || (r matches Err(e) && e@ == ErrorView::TokenExpired)
    &&& exists|n: Moment| #[trigger] n.in_range() && forall|c: ClaimsView| #[trigger] signed_session(
        t,
        secret,
        c,
    ) ==> (if c.exp >= n.secs - EXPIRY_LEEWAY_SECS {
        guard_verdict(g, c, r)
    } else {
        r matches Err(e) && e@ == ErrorView::TokenExpired
    })
    &&& match r {
        Ok(u) => hmac_valid(t, secret) && exists|c: ClaimsView|
            #[trigger] claims_text(c) == token_claims(t) && guard_outcome(g, c) == Ok::<u128, ErrorView>(u.id)
                && u.email@ == c.email && u.role@ == c.role,
        Err(e) => e@ == ErrorView::TokenInvalid
            || (e@ == ErrorView::TokenExpired && hmac_valid(t, secret) && exists|c: ClaimsView|
                #[trigger] claims_text(c) == token_claims(t))
            || (hmac_valid(t, secret) && exists|c: ClaimsView|
                #[trigger] claims_text(c) == token_claims(t) && guard_outcome(g, c) == Err::<u128, ErrorView>(e@)),
    }
}

/// The text of a header value, if there is one.
pub open spec fn header_text(header: Option<&str>) -> Option<Seq<char>> {
    match header {
        Some(h) => Some(h@),
        None => None,
    }
}

/// The signed-in user of a request whose `Authorization` header value is
/// `header` (none when the header is absent or not text), checked against
/// the server secret by guard `g`.
pub fn authenticate(g: Guard, header: Option<&str>, secret: &str) -> (r: Result<AuthUser, AppError>)
    ensures
        authentication_outcome(g, header_text(header), secret@, r),
{
    let missing = match g {
        Guard::Member => "Missing or malformed Authorization header",
        Guard::Admin => "Missing Authorization header",
    };
    let h = match header {
        Some(h) => h,
        None => return Err(AppError::Auth(missing.to_owned())),
    };
    let token = match bearer_token(h) {
        Some(t) => t,
        None => return Err(AppError::Auth(missing.to_owned())),
    };
    let checked = verify_token(token, secret);
    let ghost cv = match &checked {
        Ok(c) => Some(c@),
        Err(_) => None,
    };
    let ghost n = choose|n: Moment| #[trigger] n.in_range() && verify_at_outcome(token@, secret@, n, checked);
    let ghost expired = match &checked {
        Err(e) => e@ == ErrorView::TokenExpired,
        Ok(_) => false,
    };
    let r = pass_guard(g, checked);
    proof {
        assert forall|c: ClaimsView| #[trigger] signed_session(token@, secret@, c) implies (if c.exp >= n.secs
            - EXPIRY_LEEWAY_SECS {
            guard_verdict(g, c, r)
        } else {
            r matches Err(e) && e@ == ErrorView::TokenExpired
        }) by {
            if c.exp >= n.secs - EXPIRY_LEEWAY_SECS {
                assert(cv == Some(c));
            } else {
                assert(expired);
            }
        }
        assert(n.in_range());
        if let Some(c) = cv {
            assert(claims_text(c) == token_claims(token@));
            assert forall|x: ClaimsView| #[trigger] signed_session(token@, secret@, x) implies guard_verdict(
                g,
                x,
                r,
            ) by {
                assert(c == x);
            }
        }
    }
    r
}

/// The admin guard refuses, as forbidden, every role but `admin`, and
/// neither guard lets in claims whose subject is not a UUID.
pub proof fn admin_guard_refuses_other_roles(g: Guard, c: ClaimsView)
    ensures
        g == Guard::Admin && c.role != "admin"@ ==> guard_outcome(g, c) == Err::<u128, ErrorView>(
            ErrorView::Forbidden("Admin access required"@),
        ),
        g == Guard::Member ==> guard_outcome(g, c) is Err == uuid_from_text(c.sub) is None,
        guard_outcome(g, c) matches Ok(id) ==> uuid_from_text(c.sub) == Some(id),
{
}

/// The user that a session token issued for `id` names is `id` again:
/// a token's subject is the hyphenated id, which reads back as the id.
pub proof fn token_subject_names_user(g: Guard, c: ClaimsView, id: u128)
    requires
        c.sub == hyphenated(id),
        g == Guard::Member || c.role == "admin"@,
    ensures
        guard_outcome(g, c) == Ok::<u128, ErrorView>(id),
{
    hyphenated_reads_back(id);
}

/// Middleware for routes that need a signed-in user.
pub fn require_auth(header: Option<&str>, secret: &str) -> (r: Result<AuthUser, AppError>)
    ensures
        authentication_outcome(Guard::Member, header_text(header), secret@, r),
{
    authenticate(Guard::Member, header, secret)
}

/// Middleware for routes that need an admin.
pub fn require_admin(header: Option<&str>, secret: &str) -> (r: Result<AuthUser, AppError>)
    ensures
        authentication_outcome(Guard::Admin, header_text(header), secret@, r),
        r matches Ok(u) ==> u.role@ == "admin"@,
{
    authenticate(Guard::Admin, header, secret)
}

/// What a user may do to a user record.
#[derive(Debug, Clone, Copy, PartialEq, Eq, Structural)]
pub enum UserAction {
    ViewProfile,
    UpdateProfile,
    UploadAvatar,
    ViewLibrary,
    AddToLibrary,
    RemoveFromLibrary,
    ViewHistory,
    ViewBookmarks,
    AddBookmark,
    RemoveBookmark,
}

/// Whether anyone signed in may do `a` to any record.
pub open spec fn open_to_members(a: UserAction) -> bool {
    a == UserAction::ViewProfile
}

/// Whether an admin may do `a` to another user's record.
pub open spec fn open_to_admins(a: UserAction) -> bool {
    match a {
        UserAction::ViewProfile => true,
        UserAction::UpdateProfile => true,
        UserAction::UploadAvatar => true,
        UserAction::ViewLibrary => true,
        UserAction::ViewHistory => true,
        UserAction::ViewBookmarks => true,
        _ => false,
    }
}

/// What someone refused `a` is told.
pub open spec fn denial_message(a: UserAction) -> Seq<char> {
    match a {
        UserAction::UpdateProfile => "Cannot update another user's profile"@,
        UserAction::UploadAvatar => "Cannot update another user's avatar"@,
        _ => "Access denied"@,
    }
}

/// Whether `user` (with role `role`) may do `a` to the record of `target`.
pub open spec fn may_act(user: u128, role: Seq<char>, target: u128, a: UserAction) -> bool {
    user == target || open_to_members(a) || (open_to_admins(a) && role == "admin"@)
}

/// Lets `auth` do `a` to the record of `target`, or refuses with 403.
pub fn check_user_access(auth: &AuthUser, target: u128, a: UserAction) -> (r: Result<(), AppError>)
    ensures
        r is Ok <==> may_act(auth.id, auth.role@, target, a),
        r matches Err(e) ==> e@ == ErrorView::Forbidden(denial_message(a)),
        r is Ok <==> (auth.id == target || a == UserAction::ViewProfile || (auth.role@ == "admin"@ && (a
            == UserAction::UpdateProfile || a == UserAction::UploadAvatar || a == UserAction::ViewLibrary
            || a == UserAction::ViewHistory || a == UserAction::ViewBookmarks))),
{
    if auth.id == target || a == UserAction::ViewProfile {
        return Ok(());
    }
    let admin_ok = match a {
        UserAction::ViewProfile | UserAction::UpdateProfile | UserAction::UploadAvatar
        | UserAction::ViewLibrary | UserAction::ViewHistory | UserAction::ViewBookmarks => true,
        _ => false,
    };
    if admin_ok && same_text(auth.role.as_str(), "admin") {
        return Ok(());
    }
    let m = match a {
        UserAction::UpdateProfile => "Cannot update another user's profile",
        UserAction::UploadAvatar => "Cannot update another user's avatar",
        _ => "Access denied",
    };
    Err(AppError::Forbidden(m.to_owned()))
}

/// An admin may view any user's profile, library, reading history and
/// bookmarks, and update any user's profile and avatar.
pub proof fn admins_may_view_and_update(user: u128, target: u128, a: UserAction)
    requires
        a == UserAction::ViewProfile || a == UserAction::UpdateProfile || a == UserAction::UploadAvatar
            || a == UserAction::ViewLibrary || a == UserAction::ViewHistory || a
            == UserAction::ViewBookmarks,
    ensures
        may_act(user, "admin"@, target, a),
{
}

/// Everyone may act on their own record; a user who is not an admin may
/// act on no one else's record beyond viewing a profile; an admin may
/// view and update others' records but never change their library or
/// bookmarks.
pub proof fn access_rules(user: u128, role: Seq<char>, target: u128, a: UserAction)
    ensures
        user == target ==> may_act(user, role, target, a),
        user != target && role != "admin"@ ==> (may_act(user, role, target, a) <==> a
            == UserAction::ViewProfile),
        user != target && (a == UserAction::AddToLibrary || a == UserAction::RemoveFromLibrary
            || a == UserAction::AddBookmark || a == UserAction::RemoveBookmark) ==> !may_act(
            user,
            role,
            target,
            a,
        ),
{
}

} // verus!
