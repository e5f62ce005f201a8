//! Changes to a user's own profile: name and bio, the avatar picture, and
//! the requests that add to a reading list or set a bookmark.
use vstd::prelude::*;
use crate::accounts::byte_len;
use crate::clock::Moment;
use crate::error::{AppError, ErrorView};
use crate::guard::{check_user_access, denial_message, may_act, AuthUser, UserAction};
use crate::ids::{hyphenated, uuid_text};
use crate::text::{
    after_last_dot, decimal, lowercase_text, lowered, same_text, text_after_last_dot, trim_text,
    trimmed, write_decimal,
};

verus! {

/// A change to a profile; absent fields stay as they are.
#[derive(Debug)]
pub struct UpdateUserRequest {
    pub username: Option<String>,
    pub bio: Option<String>,
}

/// A book to put on a user's reading list.
#[derive(Debug)]
pub struct AddLibraryRequest {
    pub book_id: u128,
}

/// A bookmark to set: a book, a chapter and a page in it.
#[derive(Debug)]
pub struct AddBookmarkRequest {
    pub book_id: u128,
    pub chapter: i32,
    pub page: i32,
}

/// The change to store: the new user name trimmed, the bio as given.
#[derive(Debug)]
pub struct ProfileChange {
    pub username: Option<String>,
    pub bio: Option<String>,
}

/// The text of an optional string.
pub open spec fn opt_view(o: Option<String>) -> Option<Seq<char>> {
    match o {
        Some(s) => Some(s@),
        None => None,
    }
}

/// Checks a profile change by `auth` to the record of `target`: only the
/// owner or an admin may make it, and a new name must be 3 bytes or more
/// once trimmed.
pub fn plan_profile_update(auth: &AuthUser, target: u128, req: &UpdateUserRequest) -> (r: Result<ProfileChange, AppError>)
    ensures
        !may_act(auth.id, auth.role@, target, UserAction::UpdateProfile) ==> (r matches Err(e) && e@
            == ErrorView::Forbidden(denial_message(UserAction::UpdateProfile))),
        may_act(auth.id, auth.role@, target, UserAction::UpdateProfile) ==> match req.username {
            Some(u) => if byte_len(trimmed(u@)) < 3 {
                r matches Err(e) && e@ == ErrorView::BadRequest("Username must be at least 3 characters"@)
            } else {
                r matches Ok(c) && c.username matches Some(n) && n@ == trimmed(u@) && opt_view(c.bio)
                    == opt_view(req.bio)
            },
            None => r matches Ok(c) && c.username is None && opt_view(c.bio) == opt_view(req.bio),
        },
{
    match check_user_access(auth, target, UserAction::UpdateProfile) {
        Ok(()) => {},
        Err(e) => return Err(e),
    }
    let username = match &req.username {
        Some(u) => {
            let t = trim_text(u.as_str());
            if t.len() < 3 {
                return Err(AppError::BadRequest("Username must be at least 3 characters".to_owned()));
            }
            Some(t.to_owned())
        },
        None => None,
    };
    let bio = match &req.bio {
        Some(b) => Some(b.clone()),
        None => None,
    };
    Ok(ProfileChange { username, bio })
}

/// Whether a text is one of the picture types an avatar may have.
pub open spec fn is_avatar_type(e: Seq<char>) -> bool {
    e == "jpg"@ || e == "jpeg"@ || e == "png"@ || e == "webp"@ || e == "gif"@
}

/// The file type an uploaded avatar is stored under: the lowercase text
/// after the last dot of its file name when that is a known picture
/// type, else `jpg`.
pub open spec fn avatar_type(file_name: Option<Seq<char>>) -> Seq<char> {
    match file_name {
        Some(n) => if is_avatar_type(lowered(after_last_dot(n))) {
            lowered(after_last_dot(n))
        } else {
            "jpg"@
        },
        None => "jpg"@,
    }
}

/// The text of an optional file name.
pub open spec fn name_view(o: Option<&str>) -> Option<Seq<char>> {
    match o {
        Some(s) => Some(s@),
        None => None,
    }
}

/// The file type to store an avatar under.
pub fn avatar_extension(file_name: Option<&str>) -> (r: String)
    ensures
        r@ == avatar_type(name_view(file_name)),
        is_avatar_type(r@),
        r@ == "jpg"@ || r@ == "jpeg"@ || r@ == "png"@ || r@ == "webp"@ || r@ == "gif"@,
        file_name is None ==> r@ == "jpg"@,
{
    match file_name {
        Some(n) => {
            let e = lowercase_text(text_after_last_dot(n));
            let s = e.as_str();
            if same_text(s, "jpg") || same_text(s, "jpeg") || same_text(s, "png") || same_text(s, "webp")
                || same_text(s, "gif") {
                e
            } else {
                "jpg".to_owned()
            }
        },
        None => "jpg".to_owned(),
    }
}

/// Where an avatar is written and the address it is served at.
#[derive(Debug)]
pub struct AvatarFile {
    pub dir: String,
    pub filename: String,
    pub filepath: String,
    pub url: String,
}

/// The file name of the avatar of `user` uploaded at second `secs`.
pub open spec fn avatar_name(user: u128, secs: i64, ext: Seq<char>) -> Seq<char> {
    "user_"@ + hyphenated(user) + "_"@ + decimal(secs as int) + "."@ + ext
}

/// Where the avatar of `user`, uploaded at `now` as `file_name`, is stored
/// under `upload_dir`, and the address it is served at.
pub fn avatar_file(upload_dir: &str, user: u128, now: &Moment, file_name: Option<&str>) -> (r: AvatarFile)
    ensures
        r.dir@ == upload_dir@ + "/avatars"@,
        r.filename@ == avatar_name(user, now.secs, avatar_type(name_view(file_name))),
        r.filepath@ == r.dir@ + "/"@ + r.filename@,
        r.url@ == "/uploads/avatars/"@ + r.filename@,
{
    let ext = avatar_extension(file_name);
    let mut dir = upload_dir.to_owned();
    dir.append("/avatars");
    let mut filename = "user_".to_owned();
    let id = uuid_text(user);
    filename.append(id.as_str());
    filename.append("_");
    write_decimal(&mut filename, now.secs);
    filename.append(".");
    filename.append(ext.as_str());
    let mut filepath = dir.clone();
    filepath.append("/");
    filepath.append(filename.as_str());
    let mut url = "/uploads/avatars/".to_owned();
    url.append(filename.as_str());
    AvatarFile { dir, filename, filepath, url }
}

/// Whether a form field is the avatar picture.
pub fn is_avatar_field(name: Option<&str>) -> (r: bool)
    ensures
        r == (name_view(name) == Some("avatar"@)),
{
    match name {
        Some(n) => same_text(n, "avatar"),
        None => false,
    }
}

/// What an upload without an avatar field is told.
pub fn missing_avatar() -> (r: AppError)
    ensures
        r@ == ErrorView::BadRequest("No avatar field found in multipart form"@),
{
    AppError::BadRequest("No avatar field found in multipart form".to_owned())
}

} // verus!
