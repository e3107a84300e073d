//! Reading the WeRead service's answers: when an answer is an error, and
//! how its JSON becomes the library's records.
use crate::json::{
    as_array, as_i64, as_str, first_int, first_int_of, get, get_any, int_field, int_field_of,
    int_optional, int_optional_of, str_field, str_field_of, Json,
};
use crate::profile::{NotebooksResult, ReadingStatsDigest};
use crate::tasks::opt_view;
use crate::text::{chars_of, i64_text, nat_decimal, owned, push_str, push_u64, string_of, text_eq};
use crate::types::{
    BookInfo, BookProgress, Bookmark, BookmarkListResult, ChapterInfo, NotebookBook, ReadLongestItem,
    ReadStatItem, Review, ReviewListResult, ShelfAlbum, ShelfBook, ShelfSyncResult,
};
use vstd::prelude::*;

verus! {

// ---------------------------------------------------------------------
// Errors in answers
// ---------------------------------------------------------------------

/// The first `n` characters of a text.
pub open spec fn head(s: Seq<char>, n: int) -> Seq<char> {
    if s.len() <= n {
        s
    } else {
        s.take(n)
    }
}

fn head_text(s: &str, n: usize) -> (r: String)
    ensures
        r@ == head(s@, n as int),
{
    let v = chars_of(s);
    if v.len() <= n {
        owned(s)
    } else {
        string_of(&crate::text::slice_chars(&v, 0, n))
    }
}

/// The error for an answer with an HTTP status other than 200, quoting
/// the first 600 characters of its body.
pub open spec fn status_error(api: Seq<char>, status: u16, body: Seq<char>) -> Option<Seq<char>> {
    let detail = head(body, 600);
    if status == 200 {
        None
    } else if status == 401 || status == 403 {
        Some(api + " 请求失败 (HTTP "@ + nat_decimal(status as nat) + ")：API Key 无效或已过期，请检查设置。响应："@ + detail)
    } else if status == 429 {
        Some(api + " 请求失败 (HTTP 429)：请求过于频繁，请稍后再试。响应："@ + detail)
    } else {
        Some(api + " 请求失败 (HTTP "@ + nat_decimal(status as nat) + ")。响应："@ + detail)
    }
}

/// Whether an answer's HTTP status makes it an error, and which.
pub fn gateway_status_error(api_name: &str, status: u16, body: &str) -> (r: Option<String>)
    ensures
        opt_view(r) == status_error(api_name@, status, body@),
{
    if status == 200 {
        return None;
    }
    let detail = head_text(body, 600);
    let mut e = owned(api_name);
    if status == 401 || status == 403 {
        push_str(&mut e, " 请求失败 (HTTP ");
        push_u64(&mut e, status as u64);
        push_str(&mut e, ")：API Key 无效或已过期，请检查设置。响应：");
    } else if status == 429 {
        push_str(&mut e, " 请求失败 (HTTP 429)：请求过于频繁，请稍后再试。响应：");
    } else {
        push_str(&mut e, " 请求失败 (HTTP ");
        push_u64(&mut e, status as u64);
        push_str(&mut e, ")。响应：");
    }
    push_str(&mut e, detail.as_str());
    Some(e)
}

pub const UPGRADE_NOTICE: &'static str = "检测到微信读书 Skill 版本升级提示，请更新应用后重试";

/// The error an answer's content reports: an upgrade notice, or a non-zero
/// `errcode` with its `errmsg`.
pub open spec fn payload_error(api: Seq<char>, value: Json) -> Option<Seq<char>> {
    if get(value, "upgrade_info"@) is Some {
        Some(UPGRADE_NOTICE@)
    } else {
        match as_i64(get(value, "errcode"@)) {
            Some(code) => if code != 0 {
                Some(api + " API 错误 ("@ + crate::text::int_decimal(code as int) + "): "@ + match as_str(
                    get(value, "errmsg"@),
                ) {
                    Some(m) => m,
                    None => "未知错误"@,
                })
            } else {
                None
            },
            None => None,
        }
    }
}

/// Whether an answer's content reports an error, and which.
pub fn gateway_payload_error(api_name: &str, value: &Json) -> (r: Option<String>)
    ensures
        opt_view(r) == payload_error(api_name@, *value),
{
    if value.get("upgrade_info").is_some() {
        return Some(owned(UPGRADE_NOTICE));
    }
    let code = match value.get("errcode") {
        Some(c) => c.as_i64(),
        None => None,
    };
    match code {
        Some(c) => {
            if c == 0 {
                return None;
            }
            let mut e = owned(api_name);
            push_str(&mut e, " API 错误 (");
            let t = i64_text(c);
            push_str(&mut e, t.as_str());
            push_str(&mut e, "): ");
            let message = match value.get("errmsg") {
                Some(m) => match m.as_str() {
                    Some(s) => s,
                    None => "未知错误",
                },
                None => "未知错误",
            };
            push_str(&mut e, message);
            Some(e)
        },
        None => None,
    }
}

// ---------------------------------------------------------------------
// Records
// ---------------------------------------------------------------------

/// Reading a record out of a JSON value.
pub trait FromJson: Sized {
    /// The value holds what a record needs.
    spec fn accepts(v: Json) -> bool;

    /// `x` is the record read from `v`.
    spec fn describes(x: Self, v: Json) -> bool;

    fn from_json(v: &Json) -> (r: Option<Self>)
        ensures
            match r {
                Some(x) => Self::accepts(*v) && Self::describes(x, *v),
                None => !Self::accepts(*v),
            },
    ;
}

/// The records read from a list, in order, skipping values that are not one.
pub open spec fn parsed_list<T: FromJson>(items: Seq<Json>, r: Seq<T>) -> bool
    decreases items.len(),
{
    if items.len() == 0 {
        r.len() == 0
    } else if T::accepts(items.last()) {
        r.len() > 0 && T::describes(r.last(), items.last()) && parsed_list(items.drop_last(), r.drop_last())
    } else {
        parsed_list(items.drop_last(), r)
    }
}

/// The records read from the list under a key (none when there is no list).
pub open spec fn parsed_field<T: FromJson>(v: Json, key: Seq<char>, r: Seq<T>) -> bool {
    match as_array(get(v, key)) {
        Some(items) => parsed_list(items, r),
        None => r.len() == 0,
    }
}

/// Reads every record of a list that is one.
pub fn parse_list<T: FromJson>(items: &Vec<Json>) -> (r: Vec<T>)
    ensures
        parsed_list(items@, r@),
{
    let mut r: Vec<T> = Vec::new();
    for i in 0..items.len()
        invariant
            parsed_list(items@.take(i as int), r@),
    {
        assert(items@.take(i + 1).drop_last() == items@.take(i as int));
        assert(items@.take(i + 1).last() == items@[i as int]);
        let ghost before = r@;
        match T::from_json(&items[i]) {
            Some(x) => {
                r.push(x);
                assert(r@.drop_last() == before);
            },
            None => {},
        }
    }
    assert(items@.take(items@.len() as int) == items@);
    r
}

/// Reads the records of the list under a key.
pub fn parse_field<T: FromJson>(value: &Json, key: &str) -> (r: Vec<T>)
    ensures
        parsed_field(*value, key@, r@),
{
    match value.get(key) {
        Some(v) => match v.as_array() {
            Some(items) => parse_list(items),
            None => Vec::new(),
        },
        None => Vec::new(),
    }
}

/// A required text field.
pub open spec fn req(v: Json, key: Seq<char>) -> Option<Seq<char>> {
    as_str(get(v, key))
}

fn req_of(v: &Json, key: &str) -> (r: Option<String>)
    ensures
        opt_view(r) == req(*v, key@),
{
    match v.get(key) {
        Some(x) => match x.as_str() {
            Some(s) => Some(owned(s)),
            None => None,
        },
        None => None,
    }
}

impl FromJson for ShelfBook {
    open spec fn accepts(v: Json) -> bool {
        req(v, "bookId"@) is Some && req(v, "title"@) is Some
    }

    open spec fn describes(b: ShelfBook, v: Json) -> bool {
        &&& req(v, "bookId"@) == Some(b.book_id@)
        &&& req(v, "title"@) == Some(b.title@)
        &&& b.author@ == str_field(v, "author"@)
        &&& b.cover@ == str_field(v, "cover"@)
        &&& b.category@ == str_field(v, "category"@)
        &&& b.read_update_time == int_field(v, "readUpdateTime"@)
        &&& b.finish_reading == int_field(v, "finishReading"@) as i32
        &&& b.update_time == int_field(v, "updateTime"@)
        &&& b.is_top == int_field(v, "isTop"@) as i32
        &&& b.secret == int_field(v, "secret"@) as i32
    }

    fn from_json(v: &Json) -> (r: Option<ShelfBook>) {
        let book_id = match req_of(v, "bookId") {
            Some(s) => s,
            None => return None,
        };
        let title = match req_of(v, "title") {
            Some(s) => s,
            None => return None,
        };
        Some(
            ShelfBook {
                book_id,
                title,
                author: str_field_of(v, "author"),
                cover: str_field_of(v, "cover"),
                category: str_field_of(v, "category"),
                read_update_time: int_field_of(v, "readUpdateTime"),
                finish_reading: int_field_of(v, "finishReading") as i32,
                update_time: int_field_of(v, "updateTime"),
                is_top: int_field_of(v, "isTop") as i32,
                secret: int_field_of(v, "secret") as i32,
            },
        )
    }
}

impl FromJson for ShelfAlbum {
    open spec fn accepts(v: Json) -> bool {
        match get(v, "albumInfo"@) {
            Some(info) => req(info, "albumId"@) is Some && req(info, "name"@) is Some,
            None => false,
        }
    }

    open spec fn describes(a: ShelfAlbum, v: Json) -> bool {
        let info = get(v, "albumInfo"@)->0;
        &&& req(info, "albumId"@) == Some(a.album_id@)
        &&& req(info, "name"@) == Some(a.name@)
        &&& a.author_name@ == str_field(info, "authorName"@)
        &&& a.cover@ == str_field(info, "cover"@)
        &&& a.track_count == int_field(info, "trackCount"@) as i32
        &&& a.finish_status@ == str_field(info, "finishStatus"@)
        &&& a.finish == int_field(info, "finish"@) as i32
        &&& a.secret == (match get(v, "albumInfoExtra"@) {
            Some(extra) => match as_i64(get(extra, "secret"@)) {
                Some(s) => s,
                None => 0,
            },
            None => 0,
        }) as i32
    }

    fn from_json(v: &Json) -> (r: Option<ShelfAlbum>) {
        let info = match v.get("albumInfo") {
            Some(i) => i,
            None => return None,
        };
        let album_id = match req_of(info, "albumId") {
            Some(s) => s,
            None => return None,
        };
        let name = match req_of(info, "name") {
            Some(s) => s,
            None => return None,
        };
        let secret: i64 = match v.get("albumInfoExtra") {
            Some(extra) => match extra.get("secret") {
                Some(s) => match s.as_i64() {
                    Some(n) => n,
                    None => 0,
                },
                None => 0,
            },
            None => 0,
        };
        Some(
            ShelfAlbum {
                album_id,
                name,
                author_name: str_field_of(info, "authorName"),
                cover: str_field_of(info, "cover"),
                track_count: int_field_of(info, "trackCount") as i32,
                finish_status: str_field_of(info, "finishStatus"),
                finish: int_field_of(info, "finish") as i32,
                secret: secret as i32,
            },
        )
    }
}

/// `x` holds the flag `mp`: a non-empty object.
pub open spec fn has_articles(v: Json) -> bool {
    match get(v, "mp"@) {
        Some(Json::Object(ms)) => ms@.len() > 0,
        _ => false,
    }
}

/// The bookshelf from the answer to `/shelf/sync`: its books, its audio
/// albums, whether it holds the article collection, and the number of all
/// of these.
pub fn shelf_sync_result(value: &Json) -> (r: ShelfSyncResult)
    requires
        list_len(*value, "books"@) + list_len(*value, "albums"@) < usize::MAX,
    ensures
        parsed_field(*value, "books"@, r.books@),
        parsed_field(*value, "albums"@, r.albums@),
        r.has_mp == has_articles(*value),
        r.total_count == r.books@.len() + r.albums@.len() + (if r.has_mp {
            1int
        } else {
            0int
        }),
{
    let books: Vec<ShelfBook> = parse_field(value, "books");
    let albums: Vec<ShelfAlbum> = parse_field(value, "albums");
    let has_mp = match value.get("mp") {
        Some(Json::Object(ms)) => ms.len() > 0,
        _ => false,
    };
    proof {
        lemma_parsed_field_len(*value, "books"@, books@);
        lemma_parsed_field_len(*value, "albums"@, albums@);
    }
    let total_count = books.len() + albums.len() + if has_mp {
        1
    } else {
        0
    };
    ShelfSyncResult { books, albums, has_mp, total_count }
}

/// The length of the list under a key (0 when there is none).
pub open spec fn list_len(v: Json, key: Seq<char>) -> int {
    match as_array(get(v, key)) {
        Some(items) => items.len() as int,
        None => 0,
    }
}

/// A list read from an answer is no longer than the answer's list.
pub proof fn lemma_parsed_field_len<T: FromJson>(v: Json, key: Seq<char>, r: Seq<T>)
    requires
        parsed_field(v, key, r),
    ensures
        r.len() <= list_len(v, key),
{
    match as_array(get(v, key)) {
        Some(items) => lemma_parsed_shorter(items, r),
        None => {},
    }
}

proof fn lemma_parsed_shorter<T: FromJson>(items: Seq<Json>, r: Seq<T>)
    requires
        parsed_list(items, r),
    ensures
        r.len() <= items.len(),
    decreases items.len(),
{
    if items.len() > 0 {
        if T::accepts(items.last()) {
            lemma_parsed_shorter(items.drop_last(), r.drop_last());
        } else {
            lemma_parsed_shorter(items.drop_last(), r);
        }
    }
}

/// The book described by a value; `fallback_book_id` stands in for a
/// missing id.
pub open spec fn book_info_of(b: BookInfo, v: Json, fallback_book_id: Seq<char>) -> bool {
    &&& b.book_id@ == (match req(v, "bookId"@) {
        Some(id) => id,
        None => fallback_book_id,
    })
    &&& b.title@ == str_field(v, "title"@)
    &&& b.author@ == str_field(v, "author"@)
    &&& b.translator@ == str_field(v, "translator"@)
    &&& b.cover@ == str_field(v, "cover"@)
    &&& b.intro@ == str_field(v, "intro"@)
    &&& b.category@ == str_field(v, "category"@)
    &&& b.publisher@ == str_field(v, "publisher"@)
    &&& b.publish_time@ == str_field(v, "publishTime"@)
    &&& b.isbn@ == str_field(v, "isbn"@)
    &&& b.word_count == int_field(v, "wordCount"@)
    &&& b.new_rating == int_field(v, "newRating"@) as i32
    &&& b.new_rating_count == int_field(v, "newRatingCount"@) as i32
}

/// Reads a book's details.
pub fn parse_book_info(value: &Json, fallback_book_id: &str) -> (b: BookInfo)
    ensures
        book_info_of(b, *value, fallback_book_id@),
{
    BookInfo {
        book_id: match req_of(value, "bookId") {
            Some(id) => id,
            None => owned(fallback_book_id),
        },
        title: str_field_of(value, "title"),
        author: str_field_of(value, "author"),
        translator: str_field_of(value, "translator"),
        cover: str_field_of(value, "cover"),
        intro: str_field_of(value, "intro"),
        category: str_field_of(value, "category"),
        publisher: str_field_of(value, "publisher"),
        publish_time: str_field_of(value, "publishTime"),
        isbn: str_field_of(value, "isbn"),
        word_count: int_field_of(value, "wordCount"),
        new_rating: int_field_of(value, "newRating") as i32,
        new_rating_count: int_field_of(value, "newRatingCount") as i32,
    }
}

/// An audio album described as a book.
pub open spec fn album_book_of(b: BookInfo, v: Json) -> bool {
    &&& b.book_id@ == str_field(v, "albumId"@)
    &&& b.title@ == str_field(v, "name"@)
    &&& b.author@ == str_field(v, "authorName"@)
    &&& b.cover@ == str_field(v, "cover"@)
    &&& b.intro@ == str_field(v, "intro"@)
    &&& b.category@ == "有声书"@
    &&& b.translator@.len() == 0
    &&& b.publisher@.len() == 0
    &&& b.publish_time@.len() == 0
    &&& b.isbn@.len() == 0
    &&& b.word_count == 0
    &&& b.new_rating == 0
    &&& b.new_rating_count == 0
}

/// Reads an audio album as a book.
pub fn parse_album_as_book_info(value: &Json) -> (b: BookInfo)
    ensures
        album_book_of(b, *value),
{
    BookInfo {
        book_id: str_field_of(value, "albumId"),
        title: str_field_of(value, "name"),
        author: str_field_of(value, "authorName"),
        translator: String::new(),
        cover: str_field_of(value, "cover"),
        intro: str_field_of(value, "intro"),
        category: owned("有声书"),
        publisher: String::new(),
        publish_time: String::new(),
        isbn: String::new(),
        word_count: 0,
        new_rating: 0,
        new_rating_count: 0,
    }
}

impl FromJson for ChapterInfo {
    open spec fn accepts(v: Json) -> bool {
        as_i64(get(v, "chapterUid"@)) is Some && req(v, "title"@) is Some
    }

    open spec fn describes(c: ChapterInfo, v: Json) -> bool {
        &&& as_i64(get(v, "chapterUid"@)) == Some(c.chapter_uid)
        &&& c.chapter_idx == (match as_i64(get(v, "chapterIdx"@)) {
            Some(n) => n,
            None => 0,
        }) as i32
        &&& req(v, "title"@) == Some(c.title@)
    }

    fn from_json(v: &Json) -> (r: Option<ChapterInfo>) {
        let uid = match v.get("chapterUid") {
            Some(x) => match x.as_i64() {
                Some(n) => n,
                None => return None,
            },
            None => return None,
        };
        let title = match req_of(v, "title") {
            Some(s) => s,
            None => return None,
        };
        let idx: i64 = match v.get("chapterIdx") {
            Some(x) => match x.as_i64() {
                Some(n) => n,
                None => 0,
            },
            None => 0,
        };
        Some(ChapterInfo { chapter_uid: uid, chapter_idx: idx as i32, title })
    }
}

/// A highlight described by a value, before its chapter's title is known.
pub open spec fn bookmark_of(b: Bookmark, v: Json, fallback_book_id: Seq<char>) -> bool {
    &&& req(v, "bookmarkId"@) == Some(b.bookmark_id@)
    &&& b.book_id@ == (match req(v, "bookId"@) {
        Some(id) => id,
        None => fallback_book_id,
    })
    &&& b.chapter_uid == int_field(v, "chapterUid"@)
    &&& req(v, "markText"@) == Some(b.mark_text@)
    &&& b.create_time == int_field(v, "createTime"@)
    &&& b.range@ == str_field(v, "range"@)
    &&& b.color_style == int_field(v, "colorStyle"@) as i32
}

/// Reads a highlight; it needs an id and its text.
pub fn parse_bookmark(value: &Json, fallback_book_id: &str) -> (r: Option<Bookmark>)
    ensures
        match r {
            Some(b) => bookmark_of(b, *value, fallback_book_id@) && b.chapter_title is None,
            None => req(*value, "bookmarkId"@) is None || req(*value, "markText"@) is None,
        },
{
    let bookmark_id = match req_of(value, "bookmarkId") {
        Some(s) => s,
        None => return None,
    };
    let mark_text = match req_of(value, "markText") {
        Some(s) => s,
        None => return None,
    };
    Some(
        Bookmark {
            bookmark_id,
            book_id: match req_of(value, "bookId") {
                Some(id) => id,
                None => owned(fallback_book_id),
            },
            chapter_uid: int_field_of(value, "chapterUid"),
            mark_text,
            create_time: int_field_of(value, "createTime"),
            range: str_field_of(value, "range"),
            color_style: int_field_of(value, "colorStyle") as i32,
            chapter_title: None,
        },
    )
}

impl FromJson for Review {
    open spec fn accepts(v: Json) -> bool {
        match get(v, "review"@) {
            Some(r) => req(r, "reviewId"@) is Some && req(r, "content"@) is Some,
            None => false,
        }
    }

    open spec fn describes(x: Review, v: Json) -> bool {
        let r = get(v, "review"@)->0;
        &&& req(r, "reviewId"@) == Some(x.review_id@)
        &&& req(r, "content"@) == Some(x.content@)
        &&& x.create_time == int_field(r, "createTime"@)
        &&& x.star == int_field(r, "star"@) as i32
        &&& opt_view(x.chapter_name) == as_str(get_any(r, seq!["chapterName"@, "chapterTitle"@]))
        &&& opt_view(x.range) == as_str(get(r, "range"@))
    }

    fn from_json(v: &Json) -> (x: Option<Review>) {
        let r = match v.get("review") {
            Some(r) => r,
            None => return None,
        };
        let review_id = match req_of(r, "reviewId") {
            Some(s) => s,
            None => return None,
        };
        let content = match req_of(r, "content") {
            Some(s) => s,
            None => return None,
        };
        let keys: [&str; 2] = ["chapterName", "chapterTitle"];
        let chapter_name = match r.get_any(&keys) {
            Some(n) => match n.as_str() {
                Some(s) => Some(owned(s)),
                None => None,
            },
            None => None,
        };
        proof {
            assert(keys@.map_values(|k: &str| k@) == seq!["chapterName"@, "chapterTitle"@]);
        }
        let range = match r.get("range") {
            Some(n) => match n.as_str() {
                Some(s) => Some(owned(s)),
                None => None,
            },
            None => None,
        };
        Some(
            Review {
                review_id,
                content,
                create_time: int_field_of(r, "createTime"),
                star: int_field_of(r, "star") as i32,
                chapter_name,
                range,
            },
        )
    }
}

impl FromJson for NotebookBook {
    open spec fn accepts(v: Json) -> bool {
        match get(v, "book"@) {
            Some(b) => req(v, "bookId"@) is Some && req(b, "title"@) is Some,
            None => false,
        }
    }

    open spec fn describes(x: NotebookBook, v: Json) -> bool {
        let b = get(v, "book"@)->0;
        &&& req(v, "bookId"@) == Some(x.book_id@)
        &&& req(b, "title"@) == Some(x.title@)
        &&& x.author@ == str_field(b, "author"@)
        &&& x.cover@ == str_field(b, "cover"@)
        &&& x.review_count == int_field(v, "reviewCount"@) as i32
        &&& x.note_count == int_field(v, "noteCount"@) as i32
        &&& x.bookmark_count == int_field(v, "bookmarkCount"@) as i32
        &&& x.marked_status == int_field(v, "markedStatus"@) as i32
        &&& x.sort == int_field(v, "sort"@)
    }

    fn from_json(v: &Json) -> (x: Option<NotebookBook>) {
        let b = match v.get("book") {
            Some(b) => b,
            None => return None,
        };
        let book_id = match req_of(v, "bookId") {
            Some(s) => s,
            None => return None,
        };
        let title = match req_of(b, "title") {
            Some(s) => s,
            None => return None,
        };
        Some(
            NotebookBook {
                book_id,
                title,
                author: str_field_of(b, "author"),
                cover: str_field_of(b, "cover"),
                review_count: int_field_of(v, "reviewCount") as i32,
                note_count: int_field_of(v, "noteCount") as i32,
                bookmark_count: int_field_of(v, "bookmarkCount") as i32,
                marked_status: int_field_of(v, "markedStatus") as i32,
                sort: int_field_of(v, "sort"),
            },
        )
    }
}

/// The texts of a list, skipping what is not text.
pub open spec fn texts_of(items: Seq<Json>) -> Seq<Seq<char>>
    decreases items.len(),
{
    if items.len() == 0 {
        Seq::empty()
    } else {
        match items.last() {
            Json::Str(s) => texts_of(items.drop_last()).push(s@),
            _ => texts_of(items.drop_last()),
        }
    }
}

fn text_list(items: &Vec<Json>) -> (r: Vec<String>)
    ensures
        crate::text::texts(r@) == texts_of(items@),
{
    let mut r: Vec<String> = Vec::new();
    for i in 0..items.len()
        invariant
            crate::text::texts(r@) == texts_of(items@.take(i as int)),
    {
        assert(items@.take(i + 1).drop_last() == items@.take(i as int));
        assert(items@.take(i + 1).last() == items@[i as int]);
        match &items[i] {
            Json::Str(s) => {
                let ghost before = crate::text::texts(r@);
                r.push(s.clone());
                assert(crate::text::texts(r@) == before.push(s@));
            },
            _ => {},
        }
    }
    assert(items@.take(items@.len() as int) == items@);
    r
}

impl FromJson for ReadLongestItem {
    open spec fn accepts(v: Json) -> bool {
        as_i64(get(v, "readTime"@)) is Some
    }

    open spec fn describes(x: ReadLongestItem, v: Json) -> bool {
        &&& as_i64(get(v, "readTime"@)) == Some(x.read_time)
        &&& (match get(v, "book"@) {
            Some(b) => x.book matches Some(info) && book_info_of(info, b, Seq::empty()),
            None => match get(v, "albumInfo"@) {
                Some(a) => x.book matches Some(info) && album_book_of(info, a),
                None => x.book is None,
            },
        })
        &&& crate::text::texts(x.tags@) == (match as_array(get(v, "tags"@)) {
            Some(items) => texts_of(items),
            None => Seq::empty(),
        })
    }

    fn from_json(v: &Json) -> (x: Option<ReadLongestItem>) {
        let read_time = match v.get("readTime") {
            Some(t) => match t.as_i64() {
                Some(n) => n,
                None => return None,
            },
            None => return None,
        };
        let book = match v.get("book") {
            Some(b) => Some(parse_book_info(b, "")),
            None => match v.get("albumInfo") {
                Some(a) => Some(parse_album_as_book_info(a)),
                None => None,
            },
        };
        proof {
            reveal_strlit("");
            assert(""@ =~= Seq::<char>::empty());
        }
        let tags = match v.get("tags") {
            Some(t) => match t.as_array() {
                Some(items) => text_list(items),
                None => Vec::new(),
            },
            None => Vec::new(),
        };
        let x = ReadLongestItem { book, read_time, tags };
        assert(as_i64(get(*v, "readTime"@)) == Some(x.read_time));
        assert(match get(*v, "book"@) {
            Some(b) => x.book matches Some(info) && book_info_of(info, b, Seq::empty()),
            None => match get(*v, "albumInfo"@) {
                Some(a) => x.book matches Some(info) && album_book_of(info, a),
                None => x.book is None,
            },
        });
        assert(crate::text::texts(x.tags@) == (match as_array(get(*v, "tags"@)) {
            Some(items) => texts_of(items),
            None => Seq::empty(),
        }));
        Some(x)
    }
}

// ---------------------------------------------------------------------
// Whole answers
// ---------------------------------------------------------------------

/// The reading progress in an answer: the object under `book`,
/// `bookProgress` or `progress`, else the answer itself.
pub open spec fn progress_source(v: Json) -> Json {
    match get_any(v, seq!["book"@, "bookProgress"@, "progress"@]) {
        Some(b) => b,
        None => v,
    }
}

/// The reading progress of a book from the answer to `/book/getprogress`.
pub fn book_progress_of(value: &Json, book_id: &str) -> (p: BookProgress)
    ensures
        ({
            let b = progress_source(*value);
            &&& p.book_id@ == (if str_field(b, "bookId"@).len() == 0 {
                book_id@
            } else {
                str_field(b, "bookId"@)
            })
            &&& p.progress == first_int(b, seq!["progress"@, "readingProgress"@]) as i32
            &&& p.chapter_uid == first_int(b, seq!["chapterUid"@])
            &&& p.chapter_offset == first_int(b, seq!["chapterOffset"@])
            &&& p.update_time == first_int(b, seq!["updateTime"@, "readUpdateTime"@])
            &&& p.record_reading_time == first_int(
                b,
                seq!["recordReadingTime"@, "readingTime"@, "readTime"@, "totalReadTime"@],
            )
            &&& p.finish_time == int_optional(b, "finishTime"@)
            &&& p.is_start_reading == first_int(b, seq!["isStartReading"@]) as i32
        }),
{
    let keys: [&str; 3] = ["book", "bookProgress", "progress"];
    proof {
        assert(keys@.map_values(|k: &str| k@) == seq!["book"@, "bookProgress"@, "progress"@]);
    }
    let b = match value.get_any(&keys) {
        Some(b) => b,
        None => value,
    };
    let id = str_field_of(b, "bookId");
    let k_progress: [&str; 2] = ["progress", "readingProgress"];
    let k_uid: [&str; 1] = ["chapterUid"];
    let k_offset: [&str; 1] = ["chapterOffset"];
    let k_update: [&str; 2] = ["updateTime", "readUpdateTime"];
    let k_time: [&str; 4] = ["recordReadingTime", "readingTime", "readTime", "totalReadTime"];
    let k_start: [&str; 1] = ["isStartReading"];
    proof {
        assert(k_progress@.map_values(|k: &str| k@) == seq!["progress"@, "readingProgress"@]);
        assert(k_uid@.map_values(|k: &str| k@) == seq!["chapterUid"@]);
        assert(k_offset@.map_values(|k: &str| k@) == seq!["chapterOffset"@]);
        assert(k_update@.map_values(|k: &str| k@) == seq!["updateTime"@, "readUpdateTime"@]);
        assert(k_time@.map_values(|k: &str| k@) == seq![
            "recordReadingTime"@,
            "readingTime"@,
            "readTime"@,
            "totalReadTime"@,
        ]);
        assert(k_start@.map_values(|k: &str| k@) == seq!["isStartReading"@]);
    }
    BookProgress {
        book_id: if chars_of(id.as_str()).len() == 0 {
            owned(book_id)
        } else {
            id
        },
        progress: first_int_of(b, &k_progress) as i32,
        chapter_uid: first_int_of(b, &k_uid),
        chapter_offset: first_int_of(b, &k_offset),
        update_time: first_int_of(b, &k_update),
        record_reading_time: first_int_of(b, &k_time),
        finish_time: int_optional_of(b, "finishTime"),
        is_start_reading: first_int_of(b, &k_start) as i32,
    }
}

/// The title of the first chapter with this id.
pub open spec fn chapter_title(cs: Seq<ChapterInfo>, uid: i64) -> Option<Seq<char>>
    decreases cs.len(),
{
    if cs.len() == 0 {
        None
    } else if cs[0].chapter_uid == uid {
        Some(cs[0].title@)
    } else {
        chapter_title(cs.drop_first(), uid)
    }
}

fn chapter_title_of(cs: &Vec<ChapterInfo>, uid: i64) -> (r: Option<String>)
    ensures
        opt_view(r) == chapter_title(cs@, uid),
{
    let n = cs.len();
    let mut i: usize = 0;
    assert(cs@.skip(0) == cs@);
    while i < n
        invariant
            n == cs@.len(),
            i <= n,
            chapter_title(cs@.skip(i as int), uid) == chapter_title(cs@, uid),
        decreases n - i,
    {
        assert(cs@.skip(i as int)[0] == cs@[i as int]);
        assert(cs@.skip(i as int).drop_first() == cs@.skip(i + 1));
        if cs[i].chapter_uid == uid {
            return Some(cs[i].title.clone());
        }
        i = i + 1;
    }
    assert(cs@.skip(n as int).len() == 0);
    None
}

/// The highlights read from a list, in order, each with the title of its
/// chapter when the chapters name it.
pub open spec fn bookmarks_read(items: Seq<Json>, r: Seq<Bookmark>, fallback: Seq<char>, cs: Seq<ChapterInfo>) -> bool
    decreases items.len(),
{
    if items.len() == 0 {
        r.len() == 0
    } else if req(items.last(), "bookmarkId"@) is Some && req(items.last(), "markText"@) is Some {
        r.len() > 0 && bookmark_of(r.last(), items.last(), fallback) && opt_view(r.last().chapter_title)
            == chapter_title(cs, r.last().chapter_uid) && bookmarks_read(
            items.drop_last(),
            r.drop_last(),
            fallback,
            cs,
        )
    } else {
        bookmarks_read(items.drop_last(), r, fallback, cs)
    }
}

/// A book's highlights from the answer to `/book/bookmarklist`: the
/// chapters, the highlights with their chapters' titles, and the book.
pub fn bookmark_list_of(value: &Json, book_id: &str) -> (r: BookmarkListResult)
    ensures
        parsed_field(*value, "chapters"@, r.chapters@),
        match as_array(get(*value, "updated"@)) {
            Some(items) => bookmarks_read(items, r.bookmarks@, book_id@, r.chapters@),
            None => r.bookmarks@.len() == 0,
        },
        match get(*value, "book"@) {
            Some(b) => r.book matches Some(info) && book_info_of(info, b, book_id@),
            None => r.book is None,
        },
{
    let chapters: Vec<ChapterInfo> = parse_field(value, "chapters");
    let mut bookmarks: Vec<Bookmark> = Vec::new();
    match value.get("updated") {
        Some(u) => match u.as_array() {
            Some(items) => {
                for i in 0..items.len()
                    invariant
                        bookmarks_read(items@.take(i as int), bookmarks@, book_id@, chapters@),
                {
                    assert(items@.take(i + 1).drop_last() == items@.take(i as int));
                    assert(items@.take(i + 1).last() == items@[i as int]);
                    let ghost before = bookmarks@;
                    match parse_bookmark(&items[i], book_id) {
                        Some(b) => {
                            let mut b = b;
                            b.chapter_title = chapter_title_of(&chapters, b.chapter_uid);
                            bookmarks.push(b);
                            assert(bookmarks@.drop_last() == before);
                        },
                        None => {},
                    }
                }
                assert(items@.take(items@.len() as int) == items@);
            },
            None => {},
        },
        None => {},
    }
    let book = match value.get("book") {
        Some(b) => Some(parse_book_info(b, book_id)),
        None => None,
    };
    BookmarkListResult { bookmarks, chapters, book }
}

pub open spec fn i64_or_zero(v: Json, key: Seq<char>) -> i64 {
    match as_i64(get(v, key)) {
        Some(n) => n,
        None => 0,
    }
}

fn i64_or_zero_of(v: &Json, key: &str) -> (n: i64)
    ensures
        n == i64_or_zero(*v, key@),
{
    match v.get(key) {
        Some(x) => match x.as_i64() {
            Some(n) => n,
            None => 0,
        },
        None => 0,
    }
}

/// A page of a book's thoughts from the answer to `/review/list/mine`.
pub fn review_list_of(value: &Json) -> (r: ReviewListResult)
    ensures
        parsed_field(*value, "reviews"@, r.reviews@),
        r.total_count == i64_or_zero(*value, "totalCount"@) as i32,
        r.has_more == i64_or_zero(*value, "hasMore"@) as i32,
        r.synckey == i64_or_zero(*value, "synckey"@),
{
    ReviewListResult {
        reviews: parse_field(value, "reviews"),
        total_count: i64_or_zero_of(value, "totalCount") as i32,
        has_more: i64_or_zero_of(value, "hasMore") as i32,
        synckey: i64_or_zero_of(value, "synckey"),
    }
}

/// A page of the books with notes from the answer to `/user/notebooks`.
pub fn notebooks_of(value: &Json) -> (r: NotebooksResult)
    ensures
        parsed_field(*value, "books"@, r.books@),
        r.total_book_count == i64_or_zero(*value, "totalBookCount"@) as i32,
        r.total_note_count == i64_or_zero(*value, "totalNoteCount"@) as i32,
        r.has_more == i64_or_zero(*value, "hasMore"@) as i32,
{
    NotebooksResult {
        books: parse_field(value, "books"),
        total_book_count: i64_or_zero_of(value, "totalBookCount") as i32,
        total_note_count: i64_or_zero_of(value, "totalNoteCount") as i32,
        has_more: i64_or_zero_of(value, "hasMore") as i32,
    }
}

/// A statistic described by a value: its name, its count text and its link.
pub open spec fn stat_of(s: ReadStatItem, v: Json) -> bool {
    &&& s.stat@ == str_field(v, "stat"@)
    &&& s.counts@ == str_field(v, "counts"@)
    &&& opt_view(s.scheme) == as_str(get(v, "scheme"@))
}

/// The figures of the answer to `/readdata/detail` that summaries use:
/// reading days, total reading time and the named statistics.
pub fn stats_digest_of(value: &Json) -> (d: ReadingStatsDigest)
    ensures
        d.read_days == int_field(*value, "readDays"@) as i32,
        d.total_read_time == int_field(*value, "totalReadTime"@),
        match as_array(get(*value, "readStat"@)) {
            Some(items) => d.read_stat@.len() == items.len() && forall|i: int|
                0 <= i < items.len() ==> stat_of(#[trigger] d.read_stat@[i], items[i]),
            None => d.read_stat@.len() == 0,
        },
{
    let mut read_stat: Vec<ReadStatItem> = Vec::new();
    match value.get("readStat") {
        Some(s) => match s.as_array() {
            Some(items) => {
                for i in 0..items.len()
                    invariant
                        read_stat@.len() == i,
                        forall|k: int| 0 <= k < i ==> stat_of(#[trigger] read_stat@[k], items@[k]),
                {
                    let scheme = match items[i].get("scheme") {
                        Some(x) => match x.as_str() {
                            Some(t) => Some(owned(t)),
                            None => None,
                        },
                        None => None,
                    };
                    read_stat.push(
                        ReadStatItem {
                            stat: str_field_of(&items[i], "stat"),
                            counts: str_field_of(&items[i], "counts"),
                            scheme,
                        },
                    );
                }
            },
            None => {},
        },
        None => {},
    }
    ReadingStatsDigest {
        read_days: int_field_of(value, "readDays") as i32,
        total_read_time: int_field_of(value, "totalReadTime"),
        read_stat,
    }
}

} // verus!
