//! Sign-up, sign-in and account recovery: what each request must hold,
//! and what the server does next at each step.
use vstd::prelude::*;
use vstd::utf8::encode_utf8;
use crate::error::{AppError, ErrorView};
use crate::models::{public_of, User, UserPublic};
use crate::text::{has_char, lowercase_text, lowered, trim_text, trimmed};

verus! {

/// A sign-up request. Without a password the account signs in by magic link.
#[derive(Debug)]
pub struct RegisterRequest {
    pub username: String,
    pub email: String,
    pub password: Option<String>,
}

/// A sign-in request, by e-mail or user name. Without a password a magic
/// link is sent.
#[derive(Debug)]
pub struct LoginRequest {
    pub email: Option<String>,
    pub username: Option<String>,
    pub password: Option<String>,
}

/// A request for a magic sign-in link.
#[derive(Debug)]
pub struct MagicLinkRequest {
    pub email: String,
}

/// The token of a link, as a query parameter.
#[derive(Debug)]
pub struct TokenQuery {
    pub token: String,
}

/// A request for a password reset link.
#[derive(Debug)]
pub struct ForgotPasswordRequest {
    pub email: String,
}

/// A new password, with the token of a reset link.
#[derive(Debug)]
pub struct ResetPasswordRequest {
    pub token: String,
    pub password: String,
}

/// The length of a text in bytes of UTF-8, as `str::len` reports it.
pub open spec fn byte_len(s: Seq<char>) -> usize {
    encode_utf8(s).len() as usize
}

/// An e-mail address as accounts store it: trimmed and in lowercase.
pub open spec fn normal_email(e: Seq<char>) -> Seq<char> {
    lowered(trimmed(e))
}

/// An account to create.
#[derive(Debug)]
pub struct NewAccount {
    pub username: String,
    pub email: String,
    pub password: Option<String>,
}

/// The outcome a sign-up request is owed before any lookup: the trimmed
/// name must be 3 bytes or more, the normalised address must hold `@`,
/// and a password, if any, must be 6 bytes or more.
pub open spec fn registration_check(username: Seq<char>, email: Seq<char>, password: Option<Seq<char>>) -> Option<ErrorView> {
    if byte_len(trimmed(username)) < 3 {
        Some(ErrorView::BadRequest("Username must be at least 3 characters"@))
    } else if !normal_email(email).contains('@') {
        Some(ErrorView::BadRequest("Invalid email address"@))
    } else if password matches Some(pw) && byte_len(pw) < 6 {
        Some(ErrorView::BadRequest("Password must be at least 6 characters"@))
    } else {
        None
    }
}

/// The text of an optional string.
pub open spec fn opt_text(o: Option<String>) -> Option<Seq<char>> {
    match o {
        Some(s) => Some(s@),
        None => None,
    }
}

/// Checks a sign-up request and gives the account it asks for.
pub fn validate_registration(req: &RegisterRequest) -> (r: Result<NewAccount, AppError>)
    ensures
        match registration_check(req.username@, req.email@, opt_text(req.password)) {
            Some(e) => r matches Err(x) && x@ == e,
            None => r matches Ok(a) && a.username@ == trimmed(req.username@) && a.email@ == normal_email(
                req.email@,
            ) && opt_text(a.password) == opt_text(req.password),
        },
        r is Ok <==> (byte_len(trimmed(req.username@)) >= 3 && normal_email(req.email@).contains('@')
            && (req.password matches Some(pw) ==> byte_len(pw@) >= 6)),
{
    let username = trim_text(req.username.as_str()).to_owned();
    let email = lowercase_text(trim_text(req.email.as_str()));
    if username.as_str().len() < 3 {
        return Err(AppError::BadRequest("Username must be at least 3 characters".to_owned()));
    }
    if !has_char(email.as_str(), '@') {
        return Err(AppError::BadRequest("Invalid email address".to_owned()));
    }
    let password = match &req.password {
        Some(pw) => {
            if pw.as_str().len() < 6 {
                return Err(AppError::BadRequest("Password must be at least 6 characters".to_owned()));
            }
            Some(pw.clone())
        },
        None => None,
    };
    Ok(NewAccount { username, email, password })
}

/// Refuses a sign-up when `existing` accounts already use its name or address.
pub fn check_unique_account(existing: i64) -> (r: Result<(), AppError>)
    ensures
        r is Ok <==> existing <= 0,
        r matches Err(e) ==> e@ == ErrorView::Conflict("Email or username already taken"@),
{
    if existing > 0 {
        Err(AppError::Conflict("Email or username already taken".to_owned()))
    } else {
        Ok(())
    }
}

/// How a sign-in finds its account.
#[derive(Debug)]
pub enum UserLookup {
    /// By the normalised e-mail address.
    ByEmail(String),
    /// By the trimmed user name.
    ByUsername(String),
}

/// How a sign-in request looks up its account: by address when it gives
/// one, else by name; a request with neither is refused.
pub fn login_lookup(req: &LoginRequest) -> (r: Result<UserLookup, AppError>)
    ensures
        match (req.email, req.username) {
            (Some(e), _) => r matches Ok(UserLookup::ByEmail(k)) && k@ == normal_email(e@),
            (None, Some(u)) => r matches Ok(UserLookup::ByUsername(k)) && k@ == trimmed(u@),
            (None, None) => r matches Err(x) && x@ == ErrorView::BadRequest("Provide email or username"@),
        },
{
    match &req.email {
        Some(e) => Ok(UserLookup::ByEmail(lowercase_text(trim_text(e.as_str())))),
        None => match &req.username {
            Some(u) => Ok(UserLookup::ByUsername(trim_text(u.as_str()).to_owned())),
            None => Err(AppError::BadRequest("Provide email or username".to_owned())),
        },
    }
}

/// What a sign-in does once its account is found.
#[derive(Debug)]
pub enum LoginStep {
    /// Send a magic sign-in link to the account's address.
    SendMagicLink,
    /// Check the given password against the stored hash.
    CheckPassword { password: String, hash: String },
}

/// The next step of a sign-in, given the account found (if any): no
/// account is invalid credentials, no password sends a magic link, and an
/// account without a password hash cannot sign in by password.
pub fn login_step(req: &LoginRequest, user: Option<&User>) -> (r: Result<LoginStep, AppError>)
    ensures
        match user {
            None => r matches Err(e) && e@ == ErrorView::Auth("Invalid credentials"@),
            Some(u) => match req.password {
                None => r matches Ok(LoginStep::SendMagicLink),
                Some(pw) => match u.password_hash {
                    None => r matches Err(e) && e@ == ErrorView::Auth("This account uses magic link login"@),
                    Some(h) => r matches Ok(LoginStep::CheckPassword { password, hash }) && password@ == pw@
                        && hash@ == h@,
                },
            },
        },
{
    let u = match user {
        Some(u) => u,
        None => return Err(AppError::Auth("Invalid credentials".to_owned())),
    };
    match &req.password {
        None => Ok(LoginStep::SendMagicLink),
        Some(pw) => match &u.password_hash {
            None => Err(AppError::Auth("This account uses magic link login".to_owned())),
            Some(h) => Ok(LoginStep::CheckPassword { password: pw.clone(), hash: h.clone() }),
        },
    }
}

/// A password check that failed is answered like an unknown account.
pub fn password_verdict(matches: bool) -> (r: Result<(), AppError>)
    ensures
        r is Ok <==> matches,
        r matches Err(e) ==> e@ == ErrorView::Auth("Invalid credentials"@),
{
    if matches {
        Ok(())
    } else {
        Err(AppError::Auth("Invalid credentials".to_owned()))
    }
}

/// A new password must be 6 bytes or more.
pub fn validate_new_password(password: &str) -> (r: Result<(), AppError>)
    ensures
        r is Ok <==> byte_len(password@) >= 6,
        r matches Err(e) ==> e@ == ErrorView::BadRequest("Password must be at least 6 characters"@),
{
    if password.len() < 6 {
        Err(AppError::BadRequest("Password must be at least 6 characters".to_owned()))
    } else {
        Ok(())
    }
}

/// The account a request names, shown publicly, or 404.
pub fn found_user(user: Option<User>) -> (r: Result<UserPublic, AppError>)
    ensures
        match user {
            Some(u) => r == Ok::<UserPublic, AppError>(public_of(u)),
            None => r matches Err(e) && e@ == ErrorView::NotFound("User not found"@),
        },
        user matches Some(u) ==> (r matches Ok(p) && p.id == u.id && p.username@ == u.username@
            && p.email@ == u.email@ && p.bio@ == u.bio@ && p.avatar_url == u.avatar_url && p.role@
            == u.role@ && p.is_verified == u.is_verified && p.chapters_read == u.chapters_read
            && p.library_count == u.library_count && p.bookmark_count == u.bookmark_count
            && p.created_at == u.created_at),
{
    match user {
        Some(u) => Ok(UserPublic::from(u)),
        None => Err(AppError::NotFound("User not found".to_owned())),
    }
}

/// Whether a new confirmation link may be sent to the signed-in account:
/// it must exist and not be confirmed yet.
pub fn resend_check(user: Option<User>) -> (r: Result<User, AppError>)
    ensures
        match user {
            None => r matches Err(e) && e@ == ErrorView::NotFound("User not found"@),
            Some(u) => if u.is_verified {
                r matches Err(e) && e@ == ErrorView::BadRequest("Email already verified"@)
            } else {
                r == Ok::<User, AppError>(u)
            },
        },
{
    match user {
        None => Err(AppError::NotFound("User not found".to_owned())),
        Some(u) => {
            if u.is_verified {
                Err(AppError::BadRequest("Email already verified".to_owned()))
            } else {
                Ok(u)
            }
        },
    }
}

/// The address under which a recovery request looks for an account.
pub fn recovery_address(req: &ForgotPasswordRequest) -> (r: String)
    ensures
        r@ == normal_email(req.email@),
{
    lowercase_text(trim_text(req.email.as_str()))
}

} // verus!
