use aezarx_backend::catalog::{
    book_filter, book_paging, chapter_not_found, chapter_pages, chapter_title, new_book, trend_mark,
    BookFields, BookListQuery, ChapterRequest,
};
use aezarx_backend::clock::Moment;
use aezarx_backend::email::{EmailService, Letter};
use aezarx_backend::error::{require_found, require_rows, AppError};
use aezarx_backend::guard::AuthUser;
use aezarx_backend::news::{news_paging, NewsQuery};
use aezarx_backend::profile::{
    avatar_extension, avatar_file, is_avatar_field, missing_avatar, plan_profile_update,
    UpdateUserRequest,
};
use aezarx_backend::shop::{
    added_message, cart_quantity, cart_total, check_stock, plan_checkout, AddCartRequest, CartLine,
};

fn query(page: Option<i64>, per_page: Option<i64>) -> BookListQuery {
    BookListQuery { page, per_page, genre: None, book_type: None, search: None }
}

#[test]
fn book_pages_have_defaults_and_limits() {
    let p = book_paging(&query(None, None)).expect("page");
    assert_eq!((p.page, p.per_page, p.offset), (1, 20, 0));
    let p = book_paging(&query(Some(0), Some(500))).expect("page");
    assert_eq!((p.page, p.per_page, p.offset), (1, 100, 0));
    let p = book_paging(&query(Some(3), Some(10))).expect("page");
    assert_eq!(p.offset, 20);
    let p = book_paging(&query(Some(2), Some(-5))).expect("page");
    assert_eq!(p.offset, -5);
    assert!(book_paging(&query(Some(i64::MAX), Some(100))).is_none());
}

#[test]
fn news_pages_hold_twenty() {
    let p = news_paging(&NewsQuery { category: None, page: Some(3) }).expect("page");
    assert_eq!((p.page, p.per_page, p.offset), (3, 20, 40));
    let p = news_paging(&NewsQuery { category: Some("x".into()), page: Some(-9) }).expect("page");
    assert_eq!((p.page, p.offset), (1, 0));
    assert!(news_paging(&NewsQuery { category: None, page: Some(i64::MAX) }).is_none());
}

#[test]
fn search_becomes_lowercase_like_pattern() {
    let q = BookListQuery { page: None, per_page: None, genre: Some("action".into()), book_type: None, search: Some("NaRuTo".into()) };
    let f = book_filter(&q);
    assert_eq!(f.genre.as_deref(), Some("action"));
    assert!(f.book_type.is_none());
    assert_eq!(f.search_pattern.as_deref(), Some("%naruto%"));
}

#[test]
fn chapter_pages_are_numbered_from_one() {
    let book = 0xa1a2a3a4b1b2c1c2d1d2d3d4d5d6d7d8u128;
    let files = vec![Some("p1.png".to_string()), None];
    let pages = chapter_pages(book, 4, "One Piece", &files);
    assert_eq!(pages.len(), 2);
    assert_eq!(pages[0].page, 1);
    assert_eq!(pages[0].url, "/manga-pages/a1a2a3a4-b1b2-c1c2-d1d2-d3d4d5d6d7d8/4/p1.png");
    assert_eq!(pages[0].alt, "One Piece Ch4 P1");
    assert_eq!(pages[1].url, "/manga-pages/a1a2a3a4-b1b2-c1c2-d1d2-d3d4d5d6d7d8/4/001.jpg");
    assert_eq!(pages[1].alt, "One Piece Ch4 P2");
    assert!(chapter_pages(book, 1, "x", &vec![]).is_empty());
}

#[test]
fn chapter_errors_and_titles() {
    match chapter_not_found(-3) {
        AppError::NotFound(m) => assert_eq!(m, "Chapter -3 not found"),
        _ => panic!("expected not found"),
    }
    assert_eq!(chapter_title(&ChapterRequest { title: None, pages: vec![] }), "");
    assert_eq!(chapter_title(&ChapterRequest { title: Some("T".into()), pages: vec!["a".into()] }), "T");
}

#[test]
fn trending_marks_only_the_top_book() {
    let first = trend_mark(0);
    assert_eq!((first.rank, first.change.as_str()), (1, "★ NEW"));
    let fifth = trend_mark(4);
    assert_eq!((fifth.rank, fifth.change.as_str()), (5, "—"));
}

fn fields(title: &str) -> BookFields {
    BookFields { title: title.into(), author: None, description: None, img_url: None, price: None, stock: Some(4), genre: None, tag: Some("hot".into()), book_type: None }
}

#[test]
fn new_books_get_defaults() {
    let b = new_book(&fields("  Berserk ")).expect("book");
    assert_eq!(b.title, "Berserk");
    assert_eq!(b.author, "Unknown");
    assert_eq!(b.description, "");
    assert_eq!(b.price, 0);
    assert_eq!(b.stock, 4);
    assert_eq!(b.genre, "manga");
    assert_eq!(b.tag, "hot");
    assert_eq!(b.book_type, "manga");
    match new_book(&fields("   ")) {
        Err(AppError::BadRequest(m)) => assert_eq!(m, "Title is required"),
        _ => panic!("expected bad request"),
    }
}

#[test]
fn lookups_and_writes_report_missing_rows() {
    assert_eq!(require_found(Some(5), "Book not found").ok(), Some(5));
    match require_found::<i32>(None, "Book not found") {
        Err(AppError::NotFound(m)) => assert_eq!(m, "Book not found"),
        _ => panic!("expected not found"),
    }
    assert!(require_rows(1, "Cart item not found").is_ok());
    assert!(matches!(require_rows(0, "Cart item not found"), Err(AppError::NotFound(_))));
}

#[test]
fn cart_requests_add_at_least_one() {
    assert_eq!(cart_quantity(&AddCartRequest { book_id: 1, quantity: None }), 1);
    assert_eq!(cart_quantity(&AddCartRequest { book_id: 1, quantity: Some(-3) }), 1);
    assert_eq!(cart_quantity(&AddCartRequest { book_id: 1, quantity: Some(4) }), 4);
    assert!(check_stock(4, 4).is_ok());
    match check_stock(3, 4) {
        Err(AppError::BadRequest(m)) => assert_eq!(m, "Only 3 in stock"),
        _ => panic!("expected bad request"),
    }
    assert_eq!(added_message("Dune"), "'Dune' added to cart");
}

fn line(title: &str, price: i32, quantity: i32, stock: i32) -> CartLine {
    CartLine { book_id: 9, title: title.into(), price, quantity, stock }
}

#[test]
fn cart_total_sums_lines() {
    assert_eq!(cart_total(&vec![]), Some(0));
    assert_eq!(cart_total(&vec![line("a", 500, 2, 9), line("b", 250, 3, 9)]), Some(1750));
    assert_eq!(cart_total(&vec![line("a", i32::MAX, i32::MAX, 0)]), Some(i32::MAX as i64 * i32::MAX as i64));
    let big = line("a", i32::MIN, i32::MIN, 0);
    assert_eq!(cart_total(&vec![big.clone_line(), big.clone_line(), big.clone_line()]), None);
}

trait CloneLine {
    fn clone_line(&self) -> CartLine;
}

impl CloneLine for CartLine {
    fn clone_line(&self) -> CartLine {
        CartLine { book_id: self.book_id, title: self.title.clone(), price: self.price, quantity: self.quantity, stock: self.stock }
    }
}

#[test]
fn checkout_refuses_empty_or_short_carts() {
    match plan_checkout(&vec![]) {
        Err(AppError::BadRequest(m)) => assert_eq!(m, "Cart is empty"),
        _ => panic!("expected bad request"),
    }
    match plan_checkout(&vec![line("ok", 1, 1, 5), line("Akira", 1, 3, 2), line("Bleach", 1, 9, 1)]) {
        Err(AppError::BadRequest(m)) => assert_eq!(m, "'Akira' only has 2 in stock"),
        _ => panic!("expected bad request"),
    }
}

#[test]
fn checkout_places_the_cart() {
    let p = plan_checkout(&vec![line("a", 500, 2, 9), line("b", 250, 3, 3)]).expect("plan");
    assert_eq!(p.total, 1750);
    assert_eq!(p.order_total, 1750);
    assert_eq!(p.lines.len(), 2);
    assert_eq!((p.lines[1].quantity, p.lines[1].unit_price), (3, 250));
    assert_eq!(p.remaining_stock, vec![7, 0]);
    let big = plan_checkout(&vec![line("x", 2_000_000_000, 2, 5)]).expect("plan");
    assert_eq!(big.total, 4_000_000_000);
    assert_eq!(big.order_total, 4_000_000_000i64 as i32);
}

#[test]
fn profile_updates_are_checked() {
    let me = AuthUser { id: 1, email: "e".into(), role: "user".into() };
    let c = plan_profile_update(&me, 1, &UpdateUserRequest { username: Some("  newname ".into()), bio: Some("b".into()) }).expect("change");
    assert_eq!(c.username.as_deref(), Some("newname"));
    assert_eq!(c.bio.as_deref(), Some("b"));
    match plan_profile_update(&me, 1, &UpdateUserRequest { username: Some(" x ".into()), bio: None }) {
        Err(AppError::BadRequest(m)) => assert_eq!(m, "Username must be at least 3 characters"),
        _ => panic!("expected bad request"),
    }
    assert!(matches!(plan_profile_update(&me, 2, &UpdateUserRequest { username: None, bio: None }), Err(AppError::Forbidden(_))));
}

#[test]
fn avatar_types_are_known_pictures() {
    assert_eq!(avatar_extension(Some("me.PNG")), "png");
    assert_eq!(avatar_extension(Some("a.b.jpeg")), "jpeg");
    assert_eq!(avatar_extension(Some("virus.exe")), "jpg");
    assert_eq!(avatar_extension(Some("noext")), "jpg");
    assert_eq!(avatar_extension(Some("gif")), "gif");
    assert_eq!(avatar_extension(None), "jpg");
}

#[test]
fn avatar_files_are_named_by_user_and_time() {
    let f = avatar_file("./uploads", 0xa1a2a3a4b1b2c1c2d1d2d3d4d5d6d7d8, &Moment { secs: 1700000000, nanos: 0 }, Some("x.webp"));
    assert_eq!(f.dir, "./uploads/avatars");
    assert_eq!(f.filename, "user_a1a2a3a4-b1b2-c1c2-d1d2-d3d4d5d6d7d8_1700000000.webp");
    assert_eq!(f.filepath, "./uploads/avatars/user_a1a2a3a4-b1b2-c1c2-d1d2-d3d4d5d6d7d8_1700000000.webp");
    assert_eq!(f.url, "/uploads/avatars/user_a1a2a3a4-b1b2-c1c2-d1d2-d3d4d5d6d7d8_1700000000.webp");
    assert!(is_avatar_field(Some("avatar")));
    assert!(!is_avatar_field(Some("file")));
    assert!(!is_avatar_field(None));
    match missing_avatar() {
        AppError::BadRequest(m) => assert_eq!(m, "No avatar field found in multipart form"),
        _ => panic!("expected bad request"),
    }
}

fn service() -> EmailService {
    EmailService::new("smtp.x".into(), 587, "u".into(), "p".into(), "AEZARX <u>".into(), "https://site".into())
}

#[test]
fn mail_service_keeps_its_settings() {
    let s = service();
    assert_eq!(s.smtp_host, "smtp.x");
    assert_eq!(s.smtp_port, 587);
    assert_eq!(s.from_email, "AEZARX <u>");
    assert_eq!(s.app_url, "https://site");
}

#[test]
fn letters_link_to_their_pages() {
    let s = service();
    assert_eq!(s.link(Letter::Verification, "t1"), "https://site/api/auth/verify-email?token=t1");
    assert_eq!(s.link(Letter::PasswordReset, "t2"), "https://site/reset-password?token=t2");
    assert_eq!(s.link(Letter::MagicLink, "t3"), "https://site/magic-login?token=t3");
    let m = s.verification_email("bob@x.y", "Bob", "tok");
    assert_eq!(m.to, "bob@x.y");
    assert_eq!(m.from, "AEZARX <u>");
    assert_eq!(m.subject, "Verify your AEZARX account");
    assert!(m.html.contains("<p>Hi <strong>Bob</strong>, thanks for joining AEZARX!</p>"));
    assert_eq!(m.html.matches("https://site/api/auth/verify-email?token=tok").count(), 2);
    let r = s.password_reset_email("a", "Ann", "k");
    assert_eq!(r.subject, "Reset your AEZARX password");
    assert!(r.html.contains("This link expires in 1 hour."));
    let g = s.magic_link_email("a", "Ann", "k");
    assert_eq!(g.subject, "Your AEZARX magic sign-in link");
    assert!(g.html.starts_with("<div style=\"font-family:sans-serif;"));
    assert!(g.html.ends_with("Or copy: https://site/magic-login?token=k</p>\n            </div>"));
}
