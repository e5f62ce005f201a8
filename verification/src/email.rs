//! The e-mails the store sends: where each link points, and the subject
//! and HTML body of each message. Delivery over SMTP is the server's job.
use vstd::prelude::*;

verus! {

/// Where and as whom mail is sent, and the public address of the site
/// that links point to.
#[derive(Debug, Clone)]
pub struct EmailService {
    pub smtp_host: String,
    pub smtp_port: u16,
    pub smtp_user: String,
    pub smtp_pass: String,
    pub from_email: String,
    pub app_url: String,
}

/// A message ready to be sent.
#[derive(Debug)]
pub struct OutgoingEmail {
    pub from: String,
    pub to: String,
    pub subject: String,
    pub html: String,
}

/// A fixed piece of an e-mail body.
pub const VERIFY_HTML_1: &'static str = "<div style=\"font-family:sans-serif;max-width:500px;margin:auto;padding:32px;background:#0b0c10;color:#fff;border-radius:12px;\">\n              <h1 style=\"color:#8b5cf6;letter-spacing:4px;\">AEZARX</h1>\n              <h2>Verify your email</h2>\n              <p>Hi <strong>";

/// A fixed piece of an e-mail body.
pub const VERIFY_HTML_2: &'static str = "</strong>, thanks for joining AEZARX!</p>\n              <p>Click the button below to verify your email address:</p>\n              <a href=\"";

/// A fixed piece of an e-mail body.
pub const VERIFY_HTML_3: &'static str = "\" style=\"display:inline-block;margin:16px 0;padding:12px 28px;background:#8b5cf6;color:#fff;text-decoration:none;border-radius:8px;font-weight:bold;\">\n                Verify Email\n              </a>\n              <p style=\"color:#888;font-size:12px;\">This link expires in 24 hours. If you didn't register, ignore this email.</p>\n              <p style=\"color:#888;font-size:11px;\">Or copy: ";

/// A fixed piece of an e-mail body.
pub const VERIFY_HTML_4: &'static str = "</p>\n            </div>";

/// A fixed piece of an e-mail body.
pub const RESET_HTML_1: &'static str = "<div style=\"font-family:sans-serif;max-width:500px;margin:auto;padding:32px;background:#0b0c10;color:#fff;border-radius:12px;\">\n              <h1 style=\"color:#8b5cf6;letter-spacing:4px;\">AEZARX</h1>\n              <h2>Reset your password</h2>\n              <p>Hi <strong>";

/// A fixed piece of an e-mail body.
pub const RESET_HTML_2: &'static str = "</strong>, we received a request to reset your password.</p>\n              <a href=\"";

/// A fixed piece of an e-mail body.
pub const RESET_HTML_3: &'static str = "\" style=\"display:inline-block;margin:16px 0;padding:12px 28px;background:#ef4444;color:#fff;text-decoration:none;border-radius:8px;font-weight:bold;\">\n                Reset Password\n              </a>\n              <p style=\"color:#888;font-size:12px;\">This link expires in 1 hour. If you didn't request this, ignore this email.</p>\n              <p style=\"color:#888;font-size:11px;\">Or copy: ";

/// A fixed piece of an e-mail body.
pub const RESET_HTML_4: &'static str = "</p>\n            </div>";

/// A fixed piece of an e-mail body.
pub const MAGIC_HTML_1: &'static str = "<div style=\"font-family:sans-serif;max-width:500px;margin:auto;padding:32px;background:#0b0c10;color:#fff;border-radius:12px;\">\n              <h1 style=\"color:#8b5cf6;letter-spacing:4px;\">AEZARX</h1>\n              <h2>Your magic sign-in link</h2>\n              <p>Hi <strong>";

/// A fixed piece of an e-mail body.
pub const MAGIC_HTML_2: &'static str = "</strong>! Click below to sign in instantly — no password needed.</p>\n              <a href=\"";

/// A fixed piece of an e-mail body.
pub const MAGIC_HTML_3: &'static str = "\" style=\"display:inline-block;margin:16px 0;padding:12px 28px;background:#8b5cf6;color:#fff;text-decoration:none;border-radius:8px;font-weight:bold;\">\n                Sign In to AEZARX\n              </a>\n              <p style=\"color:#888;font-size:12px;\">This link expires in 15 minutes and can only be used once.</p>\n              <p style=\"color:#888;font-size:11px;\">Or copy: ";

/// A fixed piece of an e-mail body.
pub const MAGIC_HTML_4: &'static str = "</p>\n            </div>";

/// Subject of the address confirmation message.
pub const VERIFY_SUBJECT: &'static str = "Verify your AEZARX account";

/// Subject of the password reset message.
pub const RESET_SUBJECT: &'static str = "Reset your AEZARX password";

/// Subject of the magic sign-in message.
pub const MAGIC_SUBJECT: &'static str = "Your AEZARX magic sign-in link";

/// Path and query that an address confirmation link opens.
pub const VERIFY_PATH: &'static str = "/api/auth/verify-email?token=";

/// Path and query that a password reset link opens.
pub const RESET_PATH: &'static str = "/reset-password?token=";

/// Path and query that a magic sign-in link opens.
pub const MAGIC_PATH: &'static str = "/magic-login?token=";

/// The three messages.
#[derive(Debug, Clone, Copy, PartialEq, Eq, Structural)]
pub enum Letter {
    Verification,
    PasswordReset,
    MagicLink,
}

/// The path and query that the link of a letter opens, before the token.
pub open spec fn link_path(l: Letter) -> Seq<char> {
    match l {
        Letter::Verification => VERIFY_PATH@,
        Letter::PasswordReset => RESET_PATH@,
        Letter::MagicLink => MAGIC_PATH@,
    }
}

/// The subject of a letter.
pub open spec fn subject_of(l: Letter) -> Seq<char> {
    match l {
        Letter::Verification => VERIFY_SUBJECT@,
        Letter::PasswordReset => RESET_SUBJECT@,
        Letter::MagicLink => MAGIC_SUBJECT@,
    }
}

/// The fixed pieces of a letter's body, around the user name and the link
/// (which appears twice: as the button and as text to copy).
pub open spec fn pieces_of(l: Letter) -> (Seq<char>, Seq<char>, Seq<char>, Seq<char>) {
    match l {
        Letter::Verification => (VERIFY_HTML_1@, VERIFY_HTML_2@, VERIFY_HTML_3@, VERIFY_HTML_4@),
        Letter::PasswordReset => (RESET_HTML_1@, RESET_HTML_2@, RESET_HTML_3@, RESET_HTML_4@),
        Letter::MagicLink => (MAGIC_HTML_1@, MAGIC_HTML_2@, MAGIC_HTML_3@, MAGIC_HTML_4@),
    }
}

/// The link of a letter for `token` on the site at `app_url`.
pub open spec fn link_url(app_url: Seq<char>, l: Letter, token: Seq<char>) -> Seq<char> {
    app_url + link_path(l) + token
}

/// The HTML body of a letter to `username` with link `url`.
pub open spec fn letter_body(l: Letter, username: Seq<char>, url: Seq<char>) -> Seq<char> {
    let (p1, p2, p3, p4) = pieces_of(l);
    p1 + username + p2 + url + p3 + url + p4
}

impl EmailService {
    /// A mail service with these settings.
    pub fn new(
        smtp_host: String,
        smtp_port: u16,
        smtp_user: String,
        smtp_pass: String,
        from_email: String,
        app_url: String,
    ) -> (r: Self)
        ensures
            r.smtp_host == smtp_host,
            r.smtp_port == smtp_port,
            r.smtp_user == smtp_user,
            r.smtp_pass == smtp_pass,
            r.from_email == from_email,
            r.app_url == app_url,
    {
        EmailService { smtp_host, smtp_port, smtp_user, smtp_pass, from_email, app_url }
    }

    /// The link of letter `l` for `token`.
    pub fn link(&self, l: Letter, token: &str) -> (r: String)
        ensures
            r@ == link_url(self.app_url@, l, token@),
    {
        let path = match l {
            Letter::Verification => VERIFY_PATH,
            Letter::PasswordReset => RESET_PATH,
            Letter::MagicLink => MAGIC_PATH,
        };
        let mut url = self.app_url.clone();
        url.append(path);
        url.append(token);
        url
    }

    /// Letter `l` to `to`, greeting `username`, with the link for `token`.
    pub fn compose(&self, l: Letter, to: &str, username: &str, token: &str) -> (r: OutgoingEmail)
        ensures
            r.from@ == self.from_email@,
            r.to@ == to@,
            r.subject@ == subject_of(l),
            r.html@ == letter_body(l, username@, link_url(self.app_url@, l, token@)),
    {
        let url = self.link(l, token);
        let (p1, p2, p3, p4, subject) = match l {
            Letter::Verification => (VERIFY_HTML_1, VERIFY_HTML_2, VERIFY_HTML_3, VERIFY_HTML_4, VERIFY_SUBJECT),
            Letter::PasswordReset => (RESET_HTML_1, RESET_HTML_2, RESET_HTML_3, RESET_HTML_4, RESET_SUBJECT),
            Letter::MagicLink => (MAGIC_HTML_1, MAGIC_HTML_2, MAGIC_HTML_3, MAGIC_HTML_4, MAGIC_SUBJECT),
        };
        let mut html = p1.to_owned();
        html.append(username);
        html.append(p2);
        html.append(url.as_str());
        html.append(p3);
        html.append(url.as_str());
        html.append(p4);
        OutgoingEmail {
            from: self.from_email.clone(),
            to: to.to_owned(),
            subject: subject.to_owned(),
            html,
        }
    }

    /// The address confirmation letter.
    pub fn verification_email(&self, to: &str, username: &str, token: &str) -> (r: OutgoingEmail)
        ensures
            r.from@ == self.from_email@,
            r.to@ == to@,
            r.subject@ == subject_of(Letter::Verification),
            r.html@ == letter_body(Letter::Verification, username@, link_url(self.app_url@, Letter::Verification, token@)),
    {
        self.compose(Letter::Verification, to, username, token)
    }

    /// The password reset letter.
    pub fn password_reset_email(&self, to: &str, username: &str, token: &str) -> (r: OutgoingEmail)
        ensures
            r.from@ == self.from_email@,
            r.to@ == to@,
            r.subject@ == subject_of(Letter::PasswordReset),
            r.html@ == letter_body(Letter::PasswordReset, username@, link_url(self.app_url@, Letter::PasswordReset, token@)),
    {
        self.compose(Letter::PasswordReset, to, username, token)
    }

    /// The magic sign-in letter.
    pub fn magic_link_email(&self, to: &str, username: &str, token: &str) -> (r: OutgoingEmail)
        ensures
            r.from@ == self.from_email@,
            r.to@ == to@,
            r.subject@ == subject_of(Letter::MagicLink),
            r.html@ == letter_body(Letter::MagicLink, username@, link_url(self.app_url@, Letter::MagicLink, token@)),
    {
        self.compose(Letter::MagicLink, to, username, token)
    }
}

/// Every letter's link ends with the token it carries, so the page it
/// opens receives exactly that token.
pub proof fn link_carries_token(app_url: Seq<char>, l: Letter, token: Seq<char>)
    ensures
        token.is_suffix_of(link_url(app_url, l, token)),
        link_url(app_url, l, token).len() == app_url.len() + link_path(l).len() + token.len(),
{
    let u = link_url(app_url, l, token);
    assert(u.subrange(u.len() - token.len(), u.len() as int) =~= token);
}

} // verus!
