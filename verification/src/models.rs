//! The records of the store: users and what they keep, carts and orders,
//! and news. Identifiers are 128-bit UUID values and times are [`Moment`]s.
use vstd::prelude::*;
use crate::clock::Moment;

verus! {

/// A user account as stored.
#[derive(Debug)]
pub struct User {
    pub id: u128,
    pub username: String,
    pub email: String,
    pub password_hash: Option<String>,
    pub bio: String,
    pub avatar_url: Option<String>,
    pub role: String,
    pub is_verified: bool,
    pub chapters_read: i32,
    pub library_count: i32,
    pub bookmark_count: i32,
    pub created_at: Moment,
    pub updated_at: Moment,
}

/// A user account as shown to clients: never its password hash.
#[derive(Debug)]
pub struct UserPublic {
    pub id: u128,
    pub username: String,
    pub email: String,
    pub bio: String,
    pub avatar_url: Option<String>,
    pub role: String,
    pub is_verified: bool,
    pub chapters_read: i32,
    pub library_count: i32,
    pub bookmark_count: i32,
    pub created_at: Moment,
}

/// The public face of a user account: every shown field as stored.
pub open spec fn public_of(u: User) -> UserPublic {
    UserPublic {
        id: u.id,
        username: u.username,
        email: u.email,
        bio: u.bio,
        avatar_url: u.avatar_url,
        role: u.role,
        is_verified: u.is_verified,
        chapters_read: u.chapters_read,
        library_count: u.library_count,
        bookmark_count: u.bookmark_count,
        created_at: u.created_at,
    }
}

/// A user's public face shows each stored field under its own name and
/// nothing else.
pub proof fn public_view_shows_stored_fields(u: User)
    ensures
        public_of(u).id == u.id,
        public_of(u).username@ == u.username@,
        public_of(u).email@ == u.email@,
        public_of(u).bio@ == u.bio@,
        public_of(u).avatar_url == u.avatar_url,
        public_of(u).role@ == u.role@,
        public_of(u).is_verified == u.is_verified,
        public_of(u).chapters_read == u.chapters_read,
        public_of(u).library_count == u.library_count,
        public_of(u).bookmark_count == u.bookmark_count,
        public_of(u).created_at == u.created_at,
{
}

impl From<User> for UserPublic {
    fn from(u: User) -> (r: UserPublic)
        ensures
            r.id == u.id,
            r.username@ == u.username@,
            r.email@ == u.email@,
            r.bio@ == u.bio@,
            r.avatar_url == u.avatar_url,
            r.role@ == u.role@,
            r.is_verified == u.is_verified,
            r.chapters_read == u.chapters_read,
            r.library_count == u.library_count,
            r.bookmark_count == u.bookmark_count,
            r.created_at == u.created_at,
    {
        UserPublic {
            id: u.id,
            username: u.username,
            email: u.email,
            bio: u.bio,
            avatar_url: u.avatar_url,
            role: u.role,
            is_verified: u.is_verified,
            chapters_read: u.chapters_read,
            library_count: u.library_count,
            bookmark_count: u.bookmark_count,
            created_at: u.created_at,
        }
    }
}

impl vstd::std_specs::convert::FromSpecImpl<User> for UserPublic {
    open spec fn obeys_from_spec() -> bool {
        true
    }

    open spec fn from_spec(u: User) -> UserPublic {
        public_of(u)
    }
}

/// A book in a user's library, with the book's title, image and genre.
#[derive(Debug)]
pub struct LibraryEntry {
    pub id: u128,
    pub user_id: u128,
    pub book_id: u128,
    pub last_chapter: i32,
    pub added_at: Moment,
    pub title: Option<String>,
    pub img_url: Option<String>,
    pub genre: Option<String>,
}

/// A page a user read, with the book's title and image.
#[derive(Debug)]
pub struct ReadingHistoryEntry {
    pub id: u128,
    pub user_id: u128,
    pub book_id: u128,
    pub chapter_num: i32,
    pub page_num: i32,
    pub read_at: Moment,
    pub title: Option<String>,
    pub img_url: Option<String>,
}

/// A page a user marked, with the book's title and image.
#[derive(Debug)]
pub struct Bookmark {
    pub id: u128,
    pub user_id: u128,
    pub book_id: u128,
    pub chapter_num: i32,
    pub page_num: i32,
    pub created_at: Moment,
    pub title: Option<String>,
    pub img_url: Option<String>,
}

/// A book in a user's cart, with the book's title, price and image.
#[derive(Debug)]
pub struct CartItem {
    pub id: u128,
    pub user_id: u128,
    pub book_id: u128,
    pub quantity: i32,
    pub added_at: Moment,
    pub title: Option<String>,
    pub price: Option<i32>,
    pub img_url: Option<String>,
}

/// A placed order.
#[derive(Debug)]
pub struct Order {
    pub id: u128,
    pub user_id: u128,
    pub total_price: i32,
    pub status: String,
    pub created_at: Moment,
}

/// One book of a placed order, at the price it was bought for.
#[derive(Debug)]
pub struct OrderItem {
    pub id: u128,
    pub order_id: u128,
    pub book_id: u128,
    pub quantity: i32,
    pub unit_price: i32,
    pub title: Option<String>,
    pub img_url: Option<String>,
}

/// A news article.
#[derive(Debug)]
pub struct NewsArticle {
    pub id: u128,
    pub title: String,
    pub summary: String,
    pub category: String,
    pub tag: String,
    pub img_url: String,
    pub author: String,
    pub is_hot: bool,
    pub created_at: Moment,
}

} // verus!
