//! Exporting a book's highlights and thoughts as a Markdown file with a
//! YAML header.
use crate::profile::duration_text;
use crate::tasks::opt_view;
use crate::text::{chars_of, int_decimal, nat_decimal, owned, push_char, push_i64, push_str, text_eq};
use crate::types::{BookProgress, Bookmark, ChapterInfo, Review};
use vstd::prelude::*;

verus! {

/// What is exported of one book.
pub struct ExportBook {
    pub book_id: String,
    pub isbn: String,
    pub title: String,
    pub author: String,
    pub cover: String,
    pub bookmarks: Vec<Bookmark>,
    pub reviews: Vec<Review>,
    pub chapters: Vec<ChapterInfo>,
    pub progress: Option<BookProgress>,
}

// ---------------------------------------------------------------------
// Times and durations
// ---------------------------------------------------------------------

/// What chrono writes for a Unix time as `%Y-%m-%d %H:%M:%S` in UTC, or
/// `None` for a time chrono cannot represent.
pub uninterp spec fn utc_datetime_text(ts: i64) -> Option<Seq<char>>;

/// What chrono writes for a Unix time as `%Y-%m-%d` in UTC, or `None` for
/// a time chrono cannot represent.
pub uninterp spec fn utc_date_text(ts: i64) -> Option<Seq<char>>;

/// `DateTime::from_timestamp(ts, 0)` formatted as `%Y-%m-%d %H:%M:%S`.
#[verifier::external_body]
fn chrono_datetime(ts: i64) -> (r: Option<String>)
    ensures
        opt_view(r) == utc_datetime_text(ts),
{
    match chrono::DateTime::from_timestamp(ts, 0) {
        Some(dt) => Some(dt.format("%Y-%m-%d %H:%M:%S").to_string()),
        None => None,
    }
}

/// `DateTime::from_timestamp(ts, 0)` formatted as `%Y-%m-%d`.
#[verifier::external_body]
fn chrono_date(ts: i64) -> (r: Option<String>)
    ensures
        opt_view(r) == utc_date_text(ts),
{
    match chrono::DateTime::from_timestamp(ts, 0) {
        Some(dt) => Some(dt.format("%Y-%m-%d").to_string()),
        None => None,
    }
}

/// A time with date and clock time; the bare number when it cannot be shown.
pub open spec fn datetime_text(ts: i64) -> Seq<char> {
    match utc_datetime_text(ts) {
        Some(t) => t,
        None => int_decimal(ts as int),
    }
}

/// A time as its date; the bare number when it cannot be shown.
pub open spec fn date_text(ts: i64) -> Seq<char> {
    match utc_date_text(ts) {
        Some(t) => t,
        None => int_decimal(ts as int),
    }
}

/// Writes a Unix time with date and clock time (UTC).
pub fn format_datetime(ts: i64) -> (r: String)
    ensures
        r@ == datetime_text(ts),
{
    match chrono_datetime(ts) {
        Some(t) => t,
        None => crate::text::i64_text(ts),
    }
}

/// Writes a Unix time as its date (UTC).
pub fn format_date(ts: i64) -> (r: String)
    ensures
        r@ == date_text(ts),
{
    match chrono_date(ts) {
        Some(t) => t,
        None => crate::text::i64_text(ts),
    }
}

/// A reading time in the export: `0分钟` when there is none, else whole
/// hours and minutes.
pub open spec fn export_duration(seconds: int) -> Seq<char> {
    if seconds <= 0 {
        "0分钟"@
    } else {
        let hours = seconds / 3600;
        let minutes = (seconds % 3600) / 60;
        if hours > 0 && minutes > 0 {
            nat_decimal(hours as nat) + "小时"@ + nat_decimal(minutes as nat) + "分钟"@
        } else if hours > 0 {
            nat_decimal(hours as nat) + "小时"@
        } else {
            nat_decimal(minutes as nat) + "分钟"@
        }
    }
}

/// Writes a reading time in whole hours and minutes.
pub fn format_duration(seconds: i64) -> (r: String)
    ensures
        r@ == export_duration(seconds as int),
{
    if seconds <= 0 {
        return owned("0分钟");
    }
    let hours = seconds / 3600;
    let minutes = (seconds % 3600) / 60;
    let mut s = String::new();
    if hours > 0 && minutes > 0 {
        crate::text::push_u64(&mut s, hours as u64);
        push_str(&mut s, "小时");
        crate::text::push_u64(&mut s, minutes as u64);
        push_str(&mut s, "分钟");
    } else if hours > 0 {
        crate::text::push_u64(&mut s, hours as u64);
        push_str(&mut s, "小时");
    } else {
        crate::text::push_u64(&mut s, minutes as u64);
        push_str(&mut s, "分钟");
    }
    s
}

/// The export and the report summaries write every reading time alike.
pub proof fn law_durations_agree(seconds: int)
    ensures
        export_duration(seconds) == duration_text(seconds),
{
    reveal_strlit("0分钟");
    reveal_strlit("分钟");
    if seconds <= 0 {
        assert(nat_decimal(0) == seq!['0']);
        assert("0分钟"@ == seq!['0'] + "分钟"@);
    }
}

// ---------------------------------------------------------------------
// YAML values
// ---------------------------------------------------------------------

/// A character that makes a YAML value need quotes.
pub open spec fn yaml_special(c: char) -> bool {
    c == ':' || c == '#' || c == '"' || c == '\'' || c == '\n' || c == '{' || c == '}' || c == '['
        || c == ']' || c == ',' || c == '&' || c == '*' || c == '!' || c == '|' || c == '>' || c
        == '%' || c == '@' || c == '`'
}

/// A value needs quotes when it holds a special character or starts
/// with a space or a hyphen.
pub open spec fn needs_yaml_quotes(s: Seq<char>) -> bool {
    (exists|i: int| 0 <= i < s.len() && yaml_special(#[trigger] s[i])) || (s.len() > 0 && (s[0]
        == ' ' || s[0] == '-'))
}

/// Every `"` doubled.
pub open spec fn double_quotes(s: Seq<char>) -> Seq<char>
    decreases s.len(),
{
    if s.len() == 0 {
        s
    } else {
        double_quotes(s.drop_last()) + if s.last() == '"' {
            seq!['"', '"']
        } else {
            seq![s.last()]
        }
    }
}

/// A value as written in the YAML header.
pub open spec fn yaml_value(s: Seq<char>) -> Seq<char> {
    if needs_yaml_quotes(s) {
        seq!['"'] + double_quotes(s) + seq!['"']
    } else {
        s
    }
}

fn is_yaml_special(c: char) -> (b: bool)
    ensures
        b == yaml_special(c),
{
    c == ':' || c == '#' || c == '"' || c == '\'' || c == '\n' || c == '{' || c == '}' || c == '['
        || c == ']' || c == ',' || c == '&' || c == '*' || c == '!' || c == '|' || c == '>' || c
        == '%' || c == '@' || c == '`'
}

/// Quotes a value for the YAML header where it needs it.
pub fn yaml_escape(value: &str) -> (r: String)
    ensures
        r@ == yaml_value(value@),
{
    let v = chars_of(value);
    let n = v.len();
    let mut special = false;
    for i in 0..n
        invariant
            n == v@.len(),
            special == exists|k: int| 0 <= k < i && yaml_special(#[trigger] v@[k]),
    {
        if is_yaml_special(v[i]) {
            special = true;
        }
    }
    let leading = n > 0 && (v[0] == ' ' || v[0] == '-');
    if !special && !leading {
        return owned(value);
    }
    let mut r = String::new();
    push_char(&mut r, '"');
    for i in 0..n
        invariant
            n == v@.len(),
            r@ == seq!['"'] + double_quotes(v@.take(i as int)),
    {
        assert(v@.take(i + 1).drop_last() == v@.take(i as int));
        if v[i] == '"' {
            push_char(&mut r, '"');
            push_char(&mut r, '"');
        } else {
            push_char(&mut r, v[i]);
        }
    }
    assert(v@.take(n as int) == v@);
    push_char(&mut r, '"');
    r
}

// ---------------------------------------------------------------------
// Notes
// ---------------------------------------------------------------------

/// A highlight in Markdown: the quote, when it was made, and where.
pub open spec fn bookmark_md(b: Bookmark) -> Seq<char> {
    "> "@ + b.mark_text@ + "\n\n"@ + "创建时间："@ + date_text(b.create_time) + (if b.range@.len() > 0 {
        "  \n位置：`"@ + b.range@ + "`"@
    } else {
        Seq::empty()
    }) + "\n\n"@
}

/// A thought in Markdown.
pub open spec fn review_md(r: Review) -> Seq<char> {
    "**我的思考：** "@ + r.content@ + "\n\n"@
}

/// Appends a highlight.
pub fn push_bookmark_markdown(markdown: &mut String, bookmark: &Bookmark)
    ensures
        final(markdown)@ == old(markdown)@ + bookmark_md(*bookmark),
{
    push_str(markdown, "> ");
    push_str(markdown, bookmark.mark_text.as_str());
    push_str(markdown, "\n\n");
    push_str(markdown, "创建时间：");
    let date = format_date(bookmark.create_time);
    push_str(markdown, date.as_str());
    let has_range = chars_of(bookmark.range.as_str()).len() > 0;
    if has_range {
        push_str(markdown, "  \n位置：`");
        push_str(markdown, bookmark.range.as_str());
        push_str(markdown, "`");
    }
    push_str(markdown, "\n\n");
}

/// Appends a thought.
pub fn push_review_markdown(markdown: &mut String, review: &Review)
    ensures
        final(markdown)@ == old(markdown)@ + review_md(*review),
{
    push_str(markdown, "**我的思考：** ");
    push_str(markdown, review.content.as_str());
    push_str(markdown, "\n\n");
}

/// The highlights of a chapter, in order.
pub open spec fn chapter_bookmarks_md(bs: Seq<Bookmark>, uid: i64) -> Seq<char>
    decreases bs.len(),
{
    if bs.len() == 0 {
        Seq::empty()
    } else {
        chapter_bookmarks_md(bs.drop_last(), uid) + if bs.last().chapter_uid == uid {
            bookmark_md(bs.last())
        } else {
            Seq::empty()
        }
    }
}

/// The thought belongs to the chapter of this title.
pub open spec fn on_chapter(r: Review, title: Seq<char>) -> bool {
    r.chapter_name matches Some(n) && n@ == title
}

/// The thoughts on a chapter, in order.
pub open spec fn chapter_reviews_md(rs: Seq<Review>, title: Seq<char>) -> Seq<char>
    decreases rs.len(),
{
    if rs.len() == 0 {
        Seq::empty()
    } else {
        chapter_reviews_md(rs.drop_last(), title) + if on_chapter(rs.last(), title) {
            review_md(rs.last())
        } else {
            Seq::empty()
        }
    }
}

pub open spec fn any_in_chapter(bs: Seq<Bookmark>, uid: i64) -> bool {
    exists|j: int| 0 <= j < bs.len() && (#[trigger] bs[j]).chapter_uid == uid
}

pub open spec fn any_on_chapter(rs: Seq<Review>, title: Seq<char>) -> bool {
    exists|j: int| 0 <= j < rs.len() && on_chapter(#[trigger] rs[j], title)
}

/// A chapter's section: its title, its highlights, then its thoughts;
/// nothing for a chapter without notes.
pub open spec fn chapter_md(c: ChapterInfo, bs: Seq<Bookmark>, rs: Seq<Review>) -> Seq<char> {
    if !any_in_chapter(bs, c.chapter_uid) && !any_on_chapter(rs, c.title@) {
        Seq::empty()
    } else {
        "## "@ + c.title@ + "\n\n"@ + chapter_bookmarks_md(bs, c.chapter_uid) + chapter_reviews_md(
            rs,
            c.title@,
        )
    }
}

/// The sections of all chapters, in order.
pub open spec fn chapters_md(cs: Seq<ChapterInfo>, bs: Seq<Bookmark>, rs: Seq<Review>) -> Seq<char>
    decreases cs.len(),
{
    if cs.len() == 0 {
        Seq::empty()
    } else {
        chapters_md(cs.drop_last(), bs, rs) + chapter_md(cs.last(), bs, rs)
    }
}

/// A highlight was shown under some chapter: some highlight of a chapter
/// has its id.
pub open spec fn bookmark_placed(b: Bookmark, cs: Seq<ChapterInfo>, bs: Seq<Bookmark>) -> bool {
    exists|i: int, j: int|
        0 <= i < cs.len() && 0 <= j < bs.len() && #[trigger] bs[j].chapter_uid
            == #[trigger] cs[i].chapter_uid && bs[j].bookmark_id@ == b.bookmark_id@
}

/// A thought was shown under some chapter: some thought on a chapter has its id.
pub open spec fn review_placed(r: Review, cs: Seq<ChapterInfo>, rs: Seq<Review>) -> bool {
    exists|i: int, j: int|
        0 <= i < cs.len() && 0 <= j < rs.len() && on_chapter(#[trigger] rs[j], (#[trigger] cs[i]).title@)
            && rs[j].review_id@ == r.review_id@
}

/// The highlights of `part` not shown under any chapter, in order.
pub open spec fn unplaced_bookmarks_md(part: Seq<Bookmark>, cs: Seq<ChapterInfo>, bs: Seq<Bookmark>) -> Seq<char>
    decreases part.len(),
{
    if part.len() == 0 {
        Seq::empty()
    } else {
        unplaced_bookmarks_md(part.drop_last(), cs, bs) + if !bookmark_placed(part.last(), cs, bs) {
            bookmark_md(part.last())
        } else {
            Seq::empty()
        }
    }
}

/// The thoughts of `part` not shown under any chapter, in order.
pub open spec fn unplaced_reviews_md(part: Seq<Review>, cs: Seq<ChapterInfo>, rs: Seq<Review>) -> Seq<char>
    decreases part.len(),
{
    if part.len() == 0 {
        Seq::empty()
    } else {
        unplaced_reviews_md(part.drop_last(), cs, rs) + if !review_placed(part.last(), cs, rs) {
            review_md(part.last())
        } else {
            Seq::empty()
        }
    }
}

pub open spec fn any_unplaced(cs: Seq<ChapterInfo>, bs: Seq<Bookmark>, rs: Seq<Review>) -> bool {
    (exists|j: int| 0 <= j < bs.len() && !bookmark_placed(#[trigger] bs[j], cs, bs)) || (exists|j: int|
        0 <= j < rs.len() && !review_placed(#[trigger] rs[j], cs, rs))
}

/// All highlights, then all thoughts.
pub open spec fn all_bookmarks_md(bs: Seq<Bookmark>) -> Seq<char>
    decreases bs.len(),
{
    if bs.len() == 0 {
        Seq::empty()
    } else {
        all_bookmarks_md(bs.drop_last()) + bookmark_md(bs.last())
    }
}

pub open spec fn all_reviews_md(rs: Seq<Review>) -> Seq<char>
    decreases rs.len(),
{
    if rs.len() == 0 {
        Seq::empty()
    } else {
        all_reviews_md(rs.drop_last()) + review_md(rs.last())
    }
}

/// The notes: by chapter when asked and chapters are known, with the notes
/// of no chapter under `其他笔记`; else all highlights, then all thoughts.
pub open spec fn notes_md(cs: Seq<ChapterInfo>, bs: Seq<Bookmark>, rs: Seq<Review>, group: bool) -> Seq<char> {
    if group && cs.len() > 0 {
        chapters_md(cs, bs, rs) + if any_unplaced(cs, bs, rs) {
            "## 其他笔记\n\n"@ + unplaced_bookmarks_md(bs, cs, bs) + unplaced_reviews_md(rs, cs, rs)
        } else {
            Seq::empty()
        }
    } else {
        all_bookmarks_md(bs) + all_reviews_md(rs)
    }
}

fn bookmarks_of_chapter(bs: &Vec<Bookmark>, uid: i64) -> (r: (String, bool))
    ensures
        r.0@ == chapter_bookmarks_md(bs@, uid),
        r.1 == any_in_chapter(bs@, uid),
{
    let mut s = String::new();
    let mut any = false;
    for j in 0..bs.len()
        invariant
            s@ == chapter_bookmarks_md(bs@.take(j as int), uid),
            any == exists|k: int| 0 <= k < j && (#[trigger] bs@[k]).chapter_uid == uid,
    {
        assert(bs@.take(j + 1).drop_last() == bs@.take(j as int));
        if bs[j].chapter_uid == uid {
            push_bookmark_markdown(&mut s, &bs[j]);
            any = true;
        }
    }
    assert(bs@.take(bs@.len() as int) == bs@);
    (s, any)
}

fn is_on_chapter(r: &Review, title: &str) -> (b: bool)
    ensures
        b == on_chapter(*r, title@),
{
    match &r.chapter_name {
        Some(n) => text_eq(n.as_str(), title),
        None => false,
    }
}

fn reviews_of_chapter(rs: &Vec<Review>, title: &str) -> (r: (String, bool))
    ensures
        r.0@ == chapter_reviews_md(rs@, title@),
        r.1 == any_on_chapter(rs@, title@),
{
    let mut s = String::new();
    let mut any = false;
    for j in 0..rs.len()
        invariant
            s@ == chapter_reviews_md(rs@.take(j as int), title@),
            any == exists|k: int| 0 <= k < j && on_chapter(#[trigger] rs@[k], title@),
    {
        assert(rs@.take(j + 1).drop_last() == rs@.take(j as int));
        if is_on_chapter(&rs[j], title) {
            push_review_markdown(&mut s, &rs[j]);
            any = true;
        }
    }
    assert(rs@.take(rs@.len() as int) == rs@);
    (s, any)
}

fn is_bookmark_placed(b: &Bookmark, cs: &Vec<ChapterInfo>, bs: &Vec<Bookmark>) -> (r: bool)
    ensures
        r == bookmark_placed(*b, cs@, bs@),
{
    for i in 0..cs.len()
        invariant
            forall|i2: int, j: int|
                0 <= i2 < i && 0 <= j < bs@.len() ==> !(#[trigger] bs@[j].chapter_uid
                    == #[trigger] cs@[i2].chapter_uid && bs@[j].bookmark_id@ == b.bookmark_id@),
    {
        for j in 0..bs.len()
            invariant
                forall|i2: int, j2: int|
                    0 <= i2 < i && 0 <= j2 < bs@.len() ==> !(#[trigger] bs@[j2].chapter_uid
                        == #[trigger] cs@[i2].chapter_uid && bs@[j2].bookmark_id@ == b.bookmark_id@),
                i < cs@.len(),
                forall|j2: int|
                    0 <= j2 < j ==> !(#[trigger] bs@[j2].chapter_uid == cs@[i as int].chapter_uid
                        && bs@[j2].bookmark_id@ == b.bookmark_id@),
        {
            if bs[j].chapter_uid == cs[i].chapter_uid && text_eq(
                bs[j].bookmark_id.as_str(),
                b.bookmark_id.as_str(),
            ) {
                assert(bs@[j as int].chapter_uid == cs@[i as int].chapter_uid && bs@[j as int].bookmark_id@
                    == b.bookmark_id@);
                return true;
            }
        }
    }
    false
}

fn is_review_placed(r: &Review, cs: &Vec<ChapterInfo>, rs: &Vec<Review>) -> (b: bool)
    ensures
        b == review_placed(*r, cs@, rs@),
{
    for i in 0..cs.len()
        invariant
            forall|i2: int, j: int|
                0 <= i2 < i && 0 <= j < rs@.len() ==> !(on_chapter(#[trigger] rs@[j], (#[trigger] cs@[i2]).title@)
                    && rs@[j].review_id@ == r.review_id@),
    {
        for j in 0..rs.len()
            invariant
                forall|i2: int, j2: int|
                    0 <= i2 < i && 0 <= j2 < rs@.len() ==> !(on_chapter(#[trigger] rs@[j2], (#[trigger] cs@[i2]).title@)
                        && rs@[j2].review_id@ == r.review_id@),
                i < cs@.len(),
                forall|j2: int|
                    0 <= j2 < j ==> !(on_chapter(#[trigger] rs@[j2], cs@[i as int].title@)
                        && rs@[j2].review_id@ == r.review_id@),
        {
            if is_on_chapter(&rs[j], cs[i].title.as_str()) && text_eq(
                rs[j].review_id.as_str(),
                r.review_id.as_str(),
            ) {
                assert(on_chapter(rs@[j as int], cs@[i as int].title@) && rs@[j as int].review_id@
                    == r.review_id@);
                return true;
            }
        }
    }
    false
}

fn push_grouped_notes(md: &mut String, data: &ExportBook)
    requires
        data.chapters@.len() > 0,
    ensures
        final(md)@ == old(md)@ + notes_md(data.chapters@, data.bookmarks@, data.reviews@, true),
{
    let cs = &data.chapters;
    let bs = &data.bookmarks;
    let rs = &data.reviews;
    let ghost start = md@;
    for i in 0..cs.len()
        invariant
            md@ == start + chapters_md(cs@.take(i as int), bs@, rs@),
    {
        assert(cs@.take(i + 1).drop_last() == cs@.take(i as int));
        assert(cs@.take(i + 1).last() == cs@[i as int]);
        let (b_part, any_b) = bookmarks_of_chapter(bs, cs[i].chapter_uid);
        let (r_part, any_r) = reviews_of_chapter(rs, cs[i].title.as_str());
        if any_b || any_r {
            push_str(md, "## ");
            push_str(md, cs[i].title.as_str());
            push_str(md, "\n\n");
            push_str(md, b_part.as_str());
            push_str(md, r_part.as_str());
        }
    }
    assert(cs@.take(cs@.len() as int) == cs@);
    let ghost after_chapters = md@;
    let mut other = String::new();
    let mut any_other = false;
    for j in 0..bs.len()
        invariant
            other@ == unplaced_bookmarks_md(bs@.take(j as int), cs@, bs@),
            any_other == exists|k: int| 0 <= k < j && !bookmark_placed(#[trigger] bs@[k], cs@, bs@),
    {
        assert(bs@.take(j + 1).drop_last() == bs@.take(j as int));
        if !is_bookmark_placed(&bs[j], cs, bs) {
            push_bookmark_markdown(&mut other, &bs[j]);
            any_other = true;
        }
    }
    assert(bs@.take(bs@.len() as int) == bs@);
    let ghost b_other = other@;
    let mut any_other_r = false;
    for j in 0..rs.len()
        invariant
            other@ == b_other + unplaced_reviews_md(rs@.take(j as int), cs@, rs@),
            any_other_r == exists|k: int| 0 <= k < j && !review_placed(#[trigger] rs@[k], cs@, rs@),
    {
        assert(rs@.take(j + 1).drop_last() == rs@.take(j as int));
        if !is_review_placed(&rs[j], cs, rs) {
            push_review_markdown(&mut other, &rs[j]);
            any_other_r = true;
        }
    }
    assert(rs@.take(rs@.len() as int) == rs@);
    if any_other || any_other_r {
        push_str(md, "## 其他笔记\n\n");
        push_str(md, other.as_str());
    }
}

fn push_all_notes(md: &mut String, data: &ExportBook)
    ensures
        final(md)@ == old(md)@ + all_bookmarks_md(data.bookmarks@) + all_reviews_md(data.reviews@),
{
    let bs = &data.bookmarks;
    let rs = &data.reviews;
    let ghost start = md@;
    for j in 0..bs.len()
        invariant
            md@ == start + all_bookmarks_md(bs@.take(j as int)),
    {
        assert(bs@.take(j + 1).drop_last() == bs@.take(j as int));
        push_bookmark_markdown(md, &bs[j]);
    }
    assert(bs@.take(bs@.len() as int) == bs@);
    let ghost mid = md@;
    for j in 0..rs.len()
        invariant
            md@ == mid + all_reviews_md(rs@.take(j as int)),
    {
        assert(rs@.take(j + 1).drop_last() == rs@.take(j as int));
        push_review_markdown(md, &rs[j]);
    }
    assert(rs@.take(rs@.len() as int) == rs@);
}

// ---------------------------------------------------------------------
// The file
// ---------------------------------------------------------------------

pub open spec fn update_md(p: BookProgress) -> Seq<char> {
    if p.update_time > 0 {
        "lastReadDate: "@ + datetime_text(p.update_time) + "\n"@
    } else {
        Seq::empty()
    }
}

pub open spec fn finish_md(p: BookProgress) -> Seq<char> {
    match p.finish_time {
        Some(f) => if f > 0 {
            "finishedDate: "@ + datetime_text(f) + "\n"@
        } else {
            Seq::empty()
        },
        None => Seq::empty(),
    }
}

pub open spec fn reading_time_md(p: BookProgress) -> Seq<char> {
    if p.record_reading_time > 0 {
        "reading-time: "@ + export_duration(p.record_reading_time as int) + "\n"@
    } else {
        Seq::empty()
    }
}

pub open spec fn percent_md(p: BookProgress) -> Seq<char> {
    if p.progress > 0 {
        "progress: "@ + int_decimal(p.progress as int) + "%\n"@
    } else {
        Seq::empty()
    }
}

/// The reading state in the header: when last read, when finished, how
/// long and how far; each only when there is one.
pub open spec fn progress_md(p: Option<BookProgress>) -> Seq<char> {
    match p {
        None => Seq::empty(),
        Some(p) => update_md(p) + finish_md(p) + reading_time_md(p) + percent_md(p),
    }
}

/// The YAML header of a book's file.
pub open spec fn header_md(d: ExportBook) -> Seq<char> {
    "---\n"@ + "bookId: \""@ + d.book_id@ + "\"\n"@ + (if d.isbn@.len() > 0 {
        "isbn: \""@ + d.isbn@ + "\"\n"@
    } else {
        Seq::empty()
    }) + "title: "@ + yaml_value(d.title@) + "\n"@ + "author: "@ + yaml_value(d.author@) + "\n"@ + (
    if d.cover@.len() > 0 {
        "cover: "@ + d.cover@ + "\n"@
    } else {
        Seq::empty()
    }) + progress_md(d.progress) + "---\n\n"@
}

pub const NO_NOTES: &'static str = "> 暂无可导出的划线或想法。\n\n";

pub const EXPORT_FOOTER: &'static str = "---\n*由「书迹」桌面端导出*\n";

/// A book's Markdown file, exported at `export_time`.
pub open spec fn markdown_text(d: ExportBook, group_by_chapter: bool, export_time: Seq<char>) -> Seq<char> {
    header_md(d) + "# "@ + d.title@ + " - "@ + d.author@ + "\n\n"@ + "> 导出时间："@ + export_time
        + "\n> 数据来源：微信读书\n\n---\n\n"@ + notes_md(
        d.chapters@,
        d.bookmarks@,
        d.reviews@,
        group_by_chapter,
    ) + (if d.bookmarks@.len() == 0 && d.reviews@.len() == 0 {
        NO_NOTES@
    } else {
        Seq::empty()
    }) + EXPORT_FOOTER@
}

fn nonempty(s: &String) -> (b: bool)
    ensures
        b == (s@.len() > 0),
{
    chars_of(s.as_str()).len() > 0
}

fn push_line(md: &mut String, label: &str, value: &str)
    ensures
        final(md)@ == old(md)@ + label@ + value@ + "\n"@,
{
    push_str(md, label);
    push_str(md, value);
    push_str(md, "\n");
}

fn push_update(md: &mut String, p: &BookProgress)
    ensures
        final(md)@ == old(md)@ + update_md(*p),
{
    if p.update_time > 0 {
        let t = format_datetime(p.update_time);
        push_line(md, "lastReadDate: ", t.as_str());
    }
}

fn push_finish(md: &mut String, p: &BookProgress)
    ensures
        final(md)@ == old(md)@ + finish_md(*p),
{
    match p.finish_time {
        Some(f) => {
            if f > 0 {
                let t = format_datetime(f);
                push_line(md, "finishedDate: ", t.as_str());
            }
        },
        None => {},
    }
}

fn push_reading_time(md: &mut String, p: &BookProgress)
    ensures
        final(md)@ == old(md)@ + reading_time_md(*p),
{
    if p.record_reading_time > 0 {
        let t = format_duration(p.record_reading_time);
        push_line(md, "reading-time: ", t.as_str());
    }
}

fn push_percent(md: &mut String, p: &BookProgress)
    ensures
        final(md)@ == old(md)@ + percent_md(*p),
{
    if p.progress > 0 {
        push_str(md, "progress: ");
        push_i64(md, p.progress as i64);
        push_str(md, "%\n");
    }
}

fn push_progress(md: &mut String, progress: &Option<BookProgress>)
    ensures
        final(md)@ == old(md)@ + progress_md(*progress),
{
    match progress {
        None => {},
        Some(p) => {
            let ghost s0 = md@;
            push_update(md, p);
            push_finish(md, p);
            push_reading_time(md, p);
            push_percent(md, p);
            assert(md@ =~= s0 + (update_md(*p) + finish_md(*p) + reading_time_md(*p) + percent_md(*p)));
        },
    }
}

/// Writes a book's Markdown file: the YAML header, the title line, when it
/// was exported (`export_time`, the local time), the notes and a footer.
pub fn build_markdown(data: &ExportBook, group_by_chapter: bool, export_time: &str) -> (r: String)
    ensures
        r@ == markdown_text(*data, group_by_chapter, export_time@),
{
    let mut md = String::new();
    push_str(&mut md, "---\n");
    push_str(&mut md, "bookId: \"");
    push_str(&mut md, data.book_id.as_str());
    push_str(&mut md, "\"\n");
    if nonempty(&data.isbn) {
        push_str(&mut md, "isbn: \"");
        push_str(&mut md, data.isbn.as_str());
        push_str(&mut md, "\"\n");
    }
    push_str(&mut md, "title: ");
    let title = yaml_escape(data.title.as_str());
    push_str(&mut md, title.as_str());
    push_str(&mut md, "\n");
    push_str(&mut md, "author: ");
    let author = yaml_escape(data.author.as_str());
    push_str(&mut md, author.as_str());
    push_str(&mut md, "\n");
    if nonempty(&data.cover) {
        push_str(&mut md, "cover: ");
        push_str(&mut md, data.cover.as_str());
        push_str(&mut md, "\n");
    }
    push_progress(&mut md, &data.progress);
    push_str(&mut md, "---\n\n");
    assert(md@ == header_md(*data));
    let ghost head = md@;
    push_str(&mut md, "# ");
    push_str(&mut md, data.title.as_str());
    push_str(&mut md, " - ");
    push_str(&mut md, data.author.as_str());
    push_str(&mut md, "\n\n");
    push_str(&mut md, "> 导出时间：");
    push_str(&mut md, export_time);
    push_str(&mut md, "\n> 数据来源：微信读书\n\n---\n\n");
    let ghost intro = md@;
    if group_by_chapter && data.chapters.len() > 0 {
        push_grouped_notes(&mut md, data);
    } else {
        push_all_notes(&mut md, data);
    }
    assert(md@ == intro + notes_md(data.chapters@, data.bookmarks@, data.reviews@, group_by_chapter));
    if data.bookmarks.len() == 0 && data.reviews.len() == 0 {
        push_str(&mut md, NO_NOTES);
    }
    push_str(&mut md, EXPORT_FOOTER);
    md
}


/// The thoughts listed under `其他笔记` are exactly, in their order, those
/// not shown under any chapter: none is lost and none shown under a chapter
/// is repeated there.
pub proof fn law_other_thoughts_are_the_unplaced(part: Seq<Review>, cs: Seq<ChapterInfo>, rs: Seq<Review>)
    ensures
        unplaced_reviews_md(part, cs, rs) == all_reviews_md(part.filter(|r: Review| !review_placed(r, cs, rs))),
    decreases part.len(),
{
    reveal(Seq::filter);
    if part.len() > 0 {
        let pred = |r: Review| !review_placed(r, cs, rs);
        law_other_thoughts_are_the_unplaced(part.drop_last(), cs, rs);
        let sub = part.drop_last().filter(pred);
        if pred(part.last()) {
            assert(sub.push(part.last()).drop_last() == sub);
            assert(sub.push(part.last()).last() == part.last());
        }
    }
}

/// The highlights listed under `其他笔记` are exactly, in their order, those
/// not shown under any chapter.
pub proof fn law_other_highlights_are_the_unplaced(part: Seq<Bookmark>, cs: Seq<ChapterInfo>, bs: Seq<Bookmark>)
    ensures
        unplaced_bookmarks_md(part, cs, bs) == all_bookmarks_md(
            part.filter(|b: Bookmark| !bookmark_placed(b, cs, bs)),
        ),
    decreases part.len(),
{
    reveal(Seq::filter);
    if part.len() > 0 {
        let pred = |b: Bookmark| !bookmark_placed(b, cs, bs);
        law_other_highlights_are_the_unplaced(part.drop_last(), cs, bs);
        let sub = part.drop_last().filter(pred);
        if pred(part.last()) {
            assert(sub.push(part.last()).drop_last() == sub);
            assert(sub.push(part.last()).last() == part.last());
        }
    }
}

/// Grouped notes lose nothing: after the chapters' sections, every note
/// shown under no chapter follows under `其他笔记` (highlights, then
/// thoughts, in their order), and that section is there exactly when some
/// note is shown under no chapter.
pub proof fn law_grouped_notes_keep_every_note(cs: Seq<ChapterInfo>, bs: Seq<Bookmark>, rs: Seq<Review>)
    requires
        cs.len() > 0,
    ensures
        ({
            let other_bs = bs.filter(|b: Bookmark| !bookmark_placed(b, cs, bs));
            let other_rs = rs.filter(|r: Review| !review_placed(r, cs, rs));
            &&& notes_md(cs, bs, rs, true) == chapters_md(cs, bs, rs) + if other_bs.len() + other_rs.len() > 0 {
                "## 其他笔记\n\n"@ + all_bookmarks_md(other_bs) + all_reviews_md(other_rs)
            } else {
                Seq::empty()
            }
            &&& forall|j: int| 0 <= j < rs.len() && !review_placed(#[trigger] rs[j], cs, rs) ==> other_rs.contains(rs[j])
            &&& forall|r: Review| #[trigger] other_rs.contains(r) ==> !review_placed(r, cs, rs)
            &&& forall|i: int, j: int|
                0 <= i < cs.len() && 0 <= j < rs.len() && on_chapter(#[trigger] rs[j], (#[trigger] cs[i]).title@)
                    ==> !other_rs.contains(rs[j])
            &&& forall|j: int|
                0 <= j < rs.len() && (forall|i: int, k: int|
                    0 <= i < cs.len() && 0 <= k < rs.len() ==> !(on_chapter(#[trigger] rs[k], (#[trigger] cs[i]).title@)
                        && rs[k].review_id@ == rs[j].review_id@)) ==> other_rs.contains(#[trigger] rs[j])
        }),
{
    law_other_highlights_are_the_unplaced(bs, cs, bs);
    law_other_thoughts_are_the_unplaced(rs, cs, rs);
    let pb = |b: Bookmark| !bookmark_placed(b, cs, bs);
    let pr = |r: Review| !review_placed(r, cs, rs);
    let other_bs = bs.filter(pb);
    let other_rs = rs.filter(pr);
    assert forall|j: int| 0 <= j < rs.len() && !review_placed(#[trigger] rs[j], cs, rs) implies other_rs.contains(rs[j]) by {
        rs.lemma_filter_contains(pr, j);
    }
    assert forall|r: Review| #[trigger] other_rs.contains(r) implies !review_placed(r, cs, rs) by {
        let k = choose|k: int| 0 <= k < other_rs.len() && other_rs[k] == r;
        rs.lemma_filter_pred(pr, k);
    }
    assert forall|i: int, j: int|
        0 <= i < cs.len() && 0 <= j < rs.len() && on_chapter(#[trigger] rs[j], (#[trigger] cs[i]).title@)
            implies !other_rs.contains(rs[j]) by {
        assert(review_placed(rs[j], cs, rs));
    }
    assert forall|j: int|
        0 <= j < rs.len() && (forall|i: int, k: int|
            0 <= i < cs.len() && 0 <= k < rs.len() ==> !(on_chapter(#[trigger] rs[k], (#[trigger] cs[i]).title@)
                && rs[k].review_id@ == rs[j].review_id@)) implies other_rs.contains(#[trigger] rs[j]) by {
        assert(!review_placed(rs[j], cs, rs));
        rs.lemma_filter_contains(pr, j);
    }
    if any_unplaced(cs, bs, rs) {
        if exists|j: int| 0 <= j < bs.len() && !bookmark_placed(#[trigger] bs[j], cs, bs) {
            let j = choose|j: int| 0 <= j < bs.len() && !bookmark_placed(#[trigger] bs[j], cs, bs);
            bs.lemma_filter_contains(pb, j);
        } else {
            let j = choose|j: int| 0 <= j < rs.len() && !review_placed(#[trigger] rs[j], cs, rs);
            rs.lemma_filter_contains(pr, j);
        }
    } else {
        if other_bs.len() > 0 {
            bs.lemma_filter_pred(pb, 0);
            assert(other_bs.contains(other_bs[0]));
            bs.lemma_filter_contains_rev(pb, other_bs[0]);
            let k = choose|k: int| 0 <= k < bs.len() && bs[k] == other_bs[0];
            assert(!bookmark_placed(bs[k], cs, bs));
        }
        if other_rs.len() > 0 {
            rs.lemma_filter_pred(pr, 0);
            assert(other_rs.contains(other_rs[0]));
            rs.lemma_filter_contains_rev(pr, other_rs[0]);
            let k = choose|k: int| 0 <= k < rs.len() && rs[k] == other_rs[0];
            assert(!review_placed(rs[k], cs, rs));
        }
    }
}

} // verus!
