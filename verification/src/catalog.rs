//! The book catalogue: listing and searching books, reading chapters,
//! the trending list, and the fields of a new book.
use vstd::prelude::*;
use crate::error::{AppError, ErrorView};
use crate::ids::{hyphenated, uuid_text};
use crate::paging::{offset_fits, offset_of, page_number, page_number_of, paging_checked, Paging};
use crate::text::{decimal, lowercase_text, lowered, trim_text, trimmed, write_count, write_decimal};

verus! {

/// A request for a page of the catalogue, with optional filters.
#[derive(Debug)]
pub struct BookListQuery {
    pub page: Option<i64>,
    pub per_page: Option<i64>,
    pub genre: Option<String>,
    pub book_type: Option<String>,
    pub search: Option<String>,
}

/// The page size a request asks for: 20 when it names none, and never
/// above 100.
pub open spec fn books_per_page(requested: Option<i64>) -> int {
    match requested {
        Some(n) => if n > 100 {
            100
        } else {
            n as int
        },
        None => 20,
    }
}

/// A listing shows as many books per page as it asks for, up to 100, and
/// 20 when it names no size.
pub proof fn book_page_size_is_requested(requested: Option<i64>)
    ensures
        requested matches Some(n) ==> (n <= 100 ==> books_per_page(requested) == n),
        requested matches Some(n) ==> (n > 100 ==> books_per_page(requested) == 100),
        requested is None ==> books_per_page(requested) == 20,
{
}

/// The page of the catalogue a request asks for, or none when its offset
/// would not fit in an `i64`.
pub fn book_paging(q: &BookListQuery) -> (r: Option<Paging>)
    ensures
        match r {
            Some(p) => p.page == page_number(q.page) && p.per_page == books_per_page(q.per_page)
                && p.offset == offset_of(page_number(q.page), books_per_page(q.per_page)),
            None => !offset_fits(page_number(q.page), books_per_page(q.per_page)),
        },
        r matches Some(p) ==> (q.per_page matches Some(n) ==> (n <= 100 ==> p.per_page == n)),
        r matches Some(p) ==> (q.per_page matches Some(n) ==> (n > 100 ==> p.per_page == 100)),
        r matches Some(p) ==> (q.per_page is None ==> p.per_page == 20),
        r matches Some(p) ==> (q.page matches Some(n) ==> (n >= 1 ==> p.page == n)),
        r matches Some(p) ==> (!(q.page matches Some(n) && n >= 1) ==> p.page == 1),
        r matches Some(p) ==> p.offset == (p.page - 1) * p.per_page,
        !(q.page matches Some(n) && n > 1) ==> r is Some,
{
    let page = page_number_of(q.page);
    let per_page: i64 = match q.per_page {
        Some(n) => if n > 100 {
            100
        } else {
            n
        },
        None => 20,
    };
    proof {
        if page == 1 {
            assert(offset_of(1, per_page as int) == 0);
        }
    }
    paging_checked(page, per_page)
}

/// Which active books a listing shows: of a genre, of a type, and whose
/// lowercase title or author matches a `LIKE` pattern.
#[derive(Debug)]
pub struct BookFilter {
    pub genre: Option<String>,
    pub book_type: Option<String>,
    pub search_pattern: Option<String>,
}

/// The `LIKE` pattern of a search: the lowercase search text anywhere.
pub open spec fn search_pattern(s: Seq<char>) -> Seq<char> {
    "%"@ + lowered(s) + "%"@
}

/// The filter a listing request asks for.
pub fn book_filter(q: &BookListQuery) -> (r: BookFilter)
    ensures
        match q.genre {
            Some(g) => r.genre matches Some(x) && x@ == g@,
            None => r.genre is None,
        },
        match q.book_type {
            Some(t) => r.book_type matches Some(x) && x@ == t@,
            None => r.book_type is None,
        },
        match q.search {
            Some(s) => r.search_pattern matches Some(x) && x@ == search_pattern(s@),
            None => r.search_pattern is None,
        },
{
    let genre = match &q.genre {
        Some(g) => Some(g.clone()),
        None => None,
    };
    let book_type = match &q.book_type {
        Some(t) => Some(t.clone()),
        None => None,
    };
    let search_pattern = match &q.search {
        Some(s) => {
            let mut p = "%".to_owned();
            let low = lowercase_text(s.as_str());
            p.append(low.as_str());
            p.append("%");
            Some(p)
        },
        None => None,
    };
    BookFilter { genre, book_type, search_pattern }
}

/// A new chapter: its title and the file names of its pages.
#[derive(Debug)]
pub struct ChapterRequest {
    pub title: Option<String>,
    pub pages: Vec<String>,
}

/// How far a reader got in a chapter.
#[derive(Debug)]
pub struct ProgressRequest {
    pub page: i32,
}

/// The title a new chapter is stored with: the one given, or empty.
pub fn chapter_title(req: &ChapterRequest) -> (r: String)
    ensures
        match req.title {
            Some(t) => r@ == t@,
            None => r@ == Seq::<char>::empty(),
        },
{
    match &req.title {
        Some(t) => t.clone(),
        None => String::new(),
    }
}

/// One page of a chapter as a reader gets it.
#[derive(Debug)]
pub struct PageLink {
    pub page: usize,
    pub url: String,
    pub alt: String,
}

/// The file a page is stored in: the name given, or `001.jpg` when the
/// stored entry is not a name.
pub open spec fn page_file(f: Option<String>) -> Seq<char> {
    match f {
        Some(n) => n@,
        None => "001.jpg"@,
    }
}

/// The address of a page file of chapter `chapter` of book `book`.
pub open spec fn page_url(book: u128, chapter: i32, file: Seq<char>) -> Seq<char> {
    "/manga-pages/"@ + hyphenated(book) + "/"@ + decimal(chapter as int) + "/"@ + file
}

/// The alternative text of page `n` of chapter `chapter` of a book.
pub open spec fn page_alt(title: Seq<char>, chapter: i32, n: int) -> Seq<char> {
    title + " Ch"@ + decimal(chapter as int) + " P"@ + decimal(n)
}

/// The pages of chapter `chapter` of book `book` (titled `title`), numbered
/// from 1 in the order the chapter stores its files.
pub fn chapter_pages(book: u128, chapter: i32, title: &str, files: &Vec<Option<String>>) -> (r: Vec<PageLink>)
    ensures
        r@.len() == files@.len(),
        forall|i: int|
            0 <= i < r@.len() ==> (#[trigger] r@[i]).page == i + 1 && r@[i].url@ == page_url(
                book,
                chapter,
                page_file(files@[i]),
            ) && r@[i].alt@ == page_alt(title@, chapter, i + 1),
{
    let id = uuid_text(book);
    let mut base = "/manga-pages/".to_owned();
    base.append(id.as_str());
    base.append("/");
    write_decimal(&mut base, chapter as i64);
    base.append("/");
    let mut out: Vec<PageLink> = Vec::new();
    let mut i: usize = 0;
    while i < files.len()
        invariant
            i <= files@.len(),
            out@.len() == i,
            base@ == "/manga-pages/"@ + hyphenated(book) + "/"@ + decimal(chapter as int) + "/"@,
            forall|j: int|
                0 <= j < i ==> (#[trigger] out@[j]).page == j + 1 && out@[j].url@ == page_url(
                    book,
                    chapter,
                    page_file(files@[j]),
                ) && out@[j].alt@ == page_alt(title@, chapter, j + 1),
        decreases files@.len() - i,
    {
        let mut url = base.clone();
        match &files[i] {
            Some(n) => url.append(n.as_str()),
            None => url.append("001.jpg"),
        }
        let mut alt = title.to_owned();
        alt.append(" Ch");
        write_decimal(&mut alt, chapter as i64);
        alt.append(" P");
        write_count(&mut alt, i + 1);
        out.push(PageLink { page: i + 1, url, alt });
        i = i + 1;
    }
    out
}

/// What a request for a missing chapter is told.
pub fn chapter_not_found(chapter: i32) -> (r: AppError)
    ensures
        r@ == ErrorView::NotFound("Chapter "@ + decimal(chapter as int) + " not found"@),
{
    let mut m = "Chapter ".to_owned();
    write_decimal(&mut m, chapter as i64);
    m.append(" not found");
    AppError::NotFound(m)
}

/// The rank and movement shown for the `i`-th book (from 0) of the trending list.
#[derive(Debug)]
pub struct TrendMark {
    pub rank: usize,
    pub change: String,
}

/// The mark of the `i`-th trending book: ranks count from 1, and only the
/// top book is marked new.
pub fn trend_mark(i: usize) -> (r: TrendMark)
    requires
        i < usize::MAX,
    ensures
        r.rank == i + 1,
        r.change@ == if i == 0 { "★ NEW"@ } else { "—"@ },
{
    let change = if i == 0 { "★ NEW".to_owned() } else { "—".to_owned() };
    TrendMark { rank: i + 1, change }
}

/// The fields of a new book as an admin submits them, all but the title
/// optional. (The rating is kept by the server.)
#[derive(Debug)]
pub struct BookFields {
    pub title: String,
    pub author: Option<String>,
    pub description: Option<String>,
    pub img_url: Option<String>,
    pub price: Option<i32>,
    pub stock: Option<i32>,
    pub genre: Option<String>,
    pub tag: Option<String>,
    pub book_type: Option<String>,
}

/// A book to insert, every field filled.
#[derive(Debug)]
pub struct NewBook {
    pub title: String,
    pub author: String,
    pub description: String,
    pub img_url: String,
    pub price: i32,
    pub stock: i32,
    pub genre: String,
    pub tag: String,
    pub book_type: String,
}

/// A text field's value, or `d` when it is absent.
pub open spec fn or_default(o: Option<String>, d: Seq<char>) -> Seq<char> {
    match o {
        Some(s) => s@,
        None => d,
    }
}

/// A number field's value, or 0 when it is absent.
pub open spec fn or_zero(o: Option<i32>) -> i32 {
    match o {
        Some(v) => v,
        None => 0,
    }
}

fn text_or(o: &Option<String>, d: &str) -> (r: String)
    ensures
        r@ == or_default(*o, d@),
{
    match o {
        Some(s) => s.clone(),
        None => d.to_owned(),
    }
}

/// The book to insert for submitted fields: the trimmed title must not be
/// empty; missing fields get their defaults (author `Unknown`, genre and
/// type `manga`, empty texts, zero price and stock).
pub fn new_book(f: &BookFields) -> (r: Result<NewBook, AppError>)
    ensures
        trimmed(f.title@).len() == 0 ==> (r matches Err(e) && e@ == ErrorView::BadRequest(
            "Title is required"@,
        )),
        trimmed(f.title@).len() > 0 ==> (r matches Ok(b) && b.title@ == trimmed(f.title@)
            && b.author@ == or_default(f.author, "Unknown"@) && b.description@ == or_default(
            f.description,
            ""@,
        ) && b.img_url@ == or_default(f.img_url, ""@) && b.price == or_zero(f.price) && b.stock
            == or_zero(f.stock) && b.genre@ == or_default(f.genre, "manga"@) && b.tag@ == or_default(
            f.tag,
            ""@,
        ) && b.book_type@ == or_default(f.book_type, "manga"@)),
{
    let title = trim_text(f.title.as_str());
    if title.unicode_len() == 0 {
        return Err(AppError::BadRequest("Title is required".to_owned()));
    }
    Ok(NewBook {
        title: title.to_owned(),
        author: text_or(&f.author, "Unknown"),
        description: text_or(&f.description, ""),
        img_url: text_or(&f.img_url, ""),
        price: match f.price {
            Some(v) => v,
            None => 0,
        },
        stock: match f.stock {
            Some(v) => v,
            None => 0,
        },
        genre: text_or(&f.genre, "manga"),
        tag: text_or(&f.tag, ""),
        book_type: text_or(&f.book_type, "manga"),
    })
}

} // verus!
