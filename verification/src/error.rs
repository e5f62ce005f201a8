//! The error type of every request, and the status and message that a
//! client receives for each kind.
use vstd::prelude::*;

verus! {

/// Why a request failed.
#[derive(Debug)]
pub enum AppError {
    /// The database refused or failed a query; the text is the driver's report.
    Database(String),
    Auth(String),
    NotFound(String),
    BadRequest(String),
    Conflict(String),
    Forbidden(String),
    Email(String),
    Internal(String),
    TokenExpired,
    TokenInvalid,
}

/// The mathematical content of an [`AppError`].
pub enum ErrorView {
    Database(Seq<char>),
    Auth(Seq<char>),
    NotFound(Seq<char>),
    BadRequest(Seq<char>),
    Conflict(Seq<char>),
    Forbidden(Seq<char>),
    Email(Seq<char>),
    Internal(Seq<char>),
    TokenExpired,
    TokenInvalid,
}

impl View for AppError {
    type V = ErrorView;

    open spec fn view(&self) -> ErrorView {
        match self {
            AppError::Database(m) => ErrorView::Database(m@),
            AppError::Auth(m) => ErrorView::Auth(m@),
            AppError::NotFound(m) => ErrorView::NotFound(m@),
            AppError::BadRequest(m) => ErrorView::BadRequest(m@),
            AppError::Conflict(m) => ErrorView::Conflict(m@),
            AppError::Forbidden(m) => ErrorView::Forbidden(m@),
            AppError::Email(m) => ErrorView::Email(m@),
            AppError::Internal(m) => ErrorView::Internal(m@),
            AppError::TokenExpired => ErrorView::TokenExpired,
            AppError::TokenInvalid => ErrorView::TokenInvalid,
        }
    }
}

/// The result of a request.
pub type AppResult<T> = Result<T, AppError>;

/// Whether `r` is the failure `e`.
pub open spec fn fails_with<T>(r: Result<T, AppError>, e: ErrorView) -> bool {
    r matches Err(x) && x@ == e
}

/// The HTTP status that answers an error.
pub open spec fn status_of(e: ErrorView) -> u16 {
    match e {
        ErrorView::Auth(_) => 401,
        ErrorView::NotFound(_) => 404,
        ErrorView::BadRequest(_) => 400,
        ErrorView::Conflict(_) => 409,
        ErrorView::Forbidden(_) => 403,
        ErrorView::TokenExpired => 401,
        ErrorView::TokenInvalid => 401,
        ErrorView::Database(_) => 500,
        ErrorView::Email(_) => 500,
        ErrorView::Internal(_) => 500,
    }
}

/// The message that a client sees for an error: the error's own text for
/// the client's mistakes, a fixed phrase for the server's.
pub open spec fn client_message(e: ErrorView) -> Seq<char> {
    match e {
        ErrorView::Auth(m) => m,
        ErrorView::NotFound(m) => m,
        ErrorView::BadRequest(m) => m,
        ErrorView::Conflict(m) => m,
        ErrorView::Forbidden(m) => m,
        ErrorView::TokenExpired => "Token expired"@,
        ErrorView::TokenInvalid => "Invalid token"@,
        ErrorView::Database(_) => "Database error"@,
        ErrorView::Email(_) => "Email delivery failed"@,
        ErrorView::Internal(_) => "Internal server error"@,
    }
}

/// Whether the failure is the server's own (and worth a log line).
pub open spec fn is_server_fault(e: ErrorView) -> bool {
    e is Database || e is Email || e is Internal
}

/// What an error is answered with: a status and a message for the body
/// `{"success": false, "error": message}`.
#[derive(Debug)]
pub struct ErrorReply {
    pub status: u16,
    pub message: String,
}

impl AppError {
    /// The HTTP status of this error.
    pub fn status(&self) -> (r: u16)
        ensures
            r == status_of(self@),
    {
        match self {
            AppError::Auth(_) => 401,
            AppError::NotFound(_) => 404,
            AppError::BadRequest(_) => 400,
            AppError::Conflict(_) => 409,
            AppError::Forbidden(_) => 403,
            AppError::TokenExpired => 401,
            AppError::TokenInvalid => 401,
            AppError::Database(_) => 500,
            AppError::Email(_) => 500,
            AppError::Internal(_) => 500,
        }
    }

    /// Whether this is a failure on the server's side.
    pub fn is_server_fault(&self) -> (r: bool)
        ensures
            r == is_server_fault(self@),
    {
        match self {
            AppError::Database(_) | AppError::Email(_) | AppError::Internal(_) => true,
            _ => false,
        }
    }

    /// The message that the client receives.
    pub fn client_message(&self) -> (r: String)
        ensures
            r@ == client_message(self@),
    {
        match self {
            AppError::Auth(m) => m.clone(),
            AppError::NotFound(m) => m.clone(),
            AppError::BadRequest(m) => m.clone(),
            AppError::Conflict(m) => m.clone(),
            AppError::Forbidden(m) => m.clone(),
            AppError::TokenExpired => "Token expired".to_string(),
            AppError::TokenInvalid => "Invalid token".to_string(),
            AppError::Database(_) => "Database error".to_string(),
            AppError::Email(_) => "Email delivery failed".to_string(),
            AppError::Internal(_) => "Internal server error".to_string(),
        }
    }

    /// The reply to this error: its status and client message.
    pub fn into_reply(self) -> (r: ErrorReply)
        ensures
            r.status == status_of(self@),
            r.message@ == client_message(self@),
    {
        let status = self.status();
        let message = self.client_message();
        ErrorReply { status, message }
    }
}

/// Errors on the server's side never show their own text to the client:
/// two server faults of the same kind get the same reply.
pub proof fn server_faults_hide_details(a: ErrorView, b: ErrorView)
    requires
        is_server_fault(a),
        a is Database <==> b is Database,
        a is Email <==> b is Email,
        a is Internal <==> b is Internal,
        is_server_fault(b),
    ensures
        status_of(a) == 500,
        client_message(a) == client_message(b),
{
}

/// Each kind of failure has its status: 401 for failed sign-in and for
/// expired or invalid tokens, 403 for refused access, 404 for what is not
/// there, 400 for a bad request, 409 for a conflict, 500 for the server's
/// own failures.
pub proof fn statuses_by_kind(e: ErrorView)
    ensures
        e is Auth || e is TokenExpired || e is TokenInvalid ==> status_of(e) == 401,
        e is Forbidden ==> status_of(e) == 403,
        e is NotFound ==> status_of(e) == 404,
        e is BadRequest ==> status_of(e) == 400,
        e is Conflict ==> status_of(e) == 409,
        e is Database || e is Email || e is Internal ==> status_of(e) == 500,
{
}

/// Every error the client caused is answered with a 4xx status and the
/// error's own text.
pub proof fn client_faults_are_4xx(e: ErrorView)
    requires
        !is_server_fault(e),
    ensures
        400 <= status_of(e) < 500,
{
}

/// The value a lookup found, or 404 with message `m`.
pub fn require_found<T>(found: Option<T>, m: &str) -> (r: Result<T, AppError>)
    ensures
        match found {
            Some(v) => r == Ok::<T, AppError>(v),
            None => r matches Err(e) && e@ == ErrorView::NotFound(m@),
        },
{
    match found {
        Some(v) => Ok(v),
        None => Err(AppError::NotFound(m.to_owned())),
    }
}

/// Success when a write touched at least one row, else 404 with message `m`.
pub fn require_rows(affected: u64, m: &str) -> (r: Result<(), AppError>)
    ensures
        r is Ok <==> affected > 0,
        r matches Err(e) ==> e@ == ErrorView::NotFound(m@),
{
    if affected == 0 {
        Err(AppError::NotFound(m.to_owned()))
    } else {
        Ok(())
    }
}

} // verus!
