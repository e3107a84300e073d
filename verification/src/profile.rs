//! The authoritative summary of reading figures handed to a report agent:
//! counts, durations and their display labels.
use crate::text::{
    all_digits, chars_of, decimal_value, digit_value, int_decimal, is_digit, lemma_decimal_value_grows,
    nat_decimal, owned, push_i64, push_str, push_u64, text_eq,
};
use crate::types::{NotebookBook, ReadStatItem, ShelfBook, ShelfSyncResult};
use vstd::prelude::*;

verus! {

/// The parts of a statistics response that the summary reads.
pub struct ReadingStatsDigest {
    pub read_days: i32,
    pub total_read_time: i64,
    pub read_stat: Vec<ReadStatItem>,
}

/// A page of books with notes.
pub struct NotebooksResult {
    pub books: Vec<NotebookBook>,
    pub total_book_count: i32,
    pub total_note_count: i32,
    pub has_more: i32,
}

// ---------------------------------------------------------------------
// Durations and labels
// ---------------------------------------------------------------------

/// A duration in seconds as the reports show it: whole hours and minutes,
/// negative durations counting as zero.
pub open spec fn duration_text(seconds: int) -> Seq<char> {
    let safe = if seconds < 0 {
        0
    } else {
        seconds
    };
    let hours = safe / 3600;
    let minutes = (safe % 3600) / 60;
    if hours > 0 && minutes > 0 {
        nat_decimal(hours as nat) + "小时"@ + nat_decimal(minutes as nat) + "分钟"@
    } else if hours > 0 {
        nat_decimal(hours as nat) + "小时"@
    } else {
        nat_decimal(minutes as nat) + "分钟"@
    }
}

/// A duration in whole hours and minutes, such as `136小时52分钟`.
pub fn reading_time_display(seconds: i64) -> (s: String)
    ensures
        s@ == duration_text(seconds as int),
{
    let safe: i64 = if seconds < 0 {
        0
    } else {
        seconds
    };
    let hours = safe / 3600;
    let minutes = (safe % 3600) / 60;
    let mut s = String::new();
    if hours > 0 && minutes > 0 {
        push_u64(&mut s, hours as u64);
        push_str(&mut s, "小时");
        push_u64(&mut s, minutes as u64);
        push_str(&mut s, "分钟");
        assert(s@ =~= nat_decimal(hours as nat) + "小时"@ + nat_decimal(minutes as nat) + "分钟"@);
    } else if hours > 0 {
        push_u64(&mut s, hours as u64);
        push_str(&mut s, "小时");
        assert(s@ =~= nat_decimal(hours as nat) + "小时"@);
    } else {
        push_u64(&mut s, minutes as u64);
        push_str(&mut s, "分钟");
        assert(s@ =~= nat_decimal(minutes as nat) + "分钟"@);
    }
    s
}

/// A count followed by its unit, such as `184本`.
pub fn count_label_i32(value: i32, unit: &str) -> (s: String)
    ensures
        s@ == int_decimal(value as int) + unit@,
{
    let mut s = String::new();
    push_i64(&mut s, value as i64);
    push_str(&mut s, unit);
    assert(s@ =~= int_decimal(value as int) + unit@);
    s
}

/// A count followed by its unit.
pub fn count_label_usize(value: usize, unit: &str) -> (s: String)
    ensures
        s@ == nat_decimal(value as nat) + unit@,
{
    let mut s = String::new();
    push_u64(&mut s, value as u64);
    push_str(&mut s, unit);
    assert(s@ =~= nat_decimal(value as nat) + unit@);
    s
}

pub open spec fn optional_label(value: Option<i32>, unit: Seq<char>) -> Option<Seq<char>> {
    match value {
        Some(v) => Some(int_decimal(v as int) + unit),
        None => None,
    }
}

pub open spec fn opt_string_view(o: Option<String>) -> Option<Seq<char>> {
    match o {
        Some(s) => Some(s@),
        None => None,
    }
}

/// A label for a count when there is one.
pub fn optional_count_label(value: Option<i32>, unit: &str) -> (s: Option<String>)
    ensures
        opt_string_view(s) == optional_label(value, unit@),
{
    match value {
        Some(v) => Some(count_label_i32(v, unit)),
        None => None,
    }
}

// ---------------------------------------------------------------------
// Counts in statistics text
// ---------------------------------------------------------------------

/// The end of the run of ASCII digits that starts at `i`.
pub open spec fn digit_run_end(s: Seq<char>, i: int) -> int
    decreases s.len() - i,
{
    if 0 <= i < s.len() && is_digit(s[i]) {
        digit_run_end(s, i + 1)
    } else {
        i
    }
}

/// The leading ASCII digits of a text.
pub open spec fn leading_digits(s: Seq<char>) -> Seq<char> {
    s.take(digit_run_end(s, 0))
}

/// The number at the start of a statistics text such as `184本`: `None`
/// when it does not start with a digit or the number does not fit an `i32`.
pub open spec fn count_prefix(s: Seq<char>) -> Option<i32> {
    let d = leading_digits(s);
    if d.len() == 0 || decimal_value(d) > i32::MAX {
        None
    } else {
        Some(decimal_value(d) as i32)
    }
}

proof fn lemma_digit_run(s: Seq<char>, i: int)
    requires
        0 <= i <= s.len(),
    ensures
        i <= digit_run_end(s, i) <= s.len(),
        forall|k: int| i <= k < digit_run_end(s, i) ==> is_digit(#[trigger] s[k]),
    decreases s.len() - i,
{
    if i < s.len() && is_digit(s[i]) {
        lemma_digit_run(s, i + 1);
    }
}

/// Reads the number a statistics text starts with.
pub fn parse_count_prefix(value: &str) -> (r: Option<i32>)
    ensures
        r == count_prefix(value@),
{
    let v = chars_of(value);
    let n = v.len();
    let ghost s = v@;
    proof {
        lemma_digit_run(s, 0);
    }
    let mut i: usize = 0;
    let mut acc: i64 = 0;
    while i < n && '0' <= v[i] && v[i] <= '9'
        invariant
            n == s.len(),
            v@ == s,
            s == value@,
            i <= n,
            digit_run_end(s, i as int) == digit_run_end(s, 0),
            i <= digit_run_end(s, 0),
            acc == decimal_value(s.take(i as int)),
            acc <= i32::MAX,
        decreases n - i,
    {
        let d: i64 = (v[i] as u32 - '0' as u32) as i64;
        assert(s.take(i + 1).drop_last() == s.take(i as int));
        assert(d == digit_value(s[i as int]));
        let next = acc * 10 + d;
        i = i + 1;
        proof {
            lemma_digit_run(s, i as int);
        }
        if next > i32::MAX as i64 {
            proof {
                assert(s.take(i as int).last() == s[i - 1]);
                assert(decimal_value(s.take(i as int)) == next);
                let full = leading_digits(s);
                lemma_digit_run(s, 0);
                assert(all_digits(full));
                assert(full.take(i as int) == s.take(i as int));
                lemma_decimal_value_grows(full, i as int);
            }
            return None;
        }
        acc = next;
    }
    if i == 0 {
        None
    } else {
        assert(s.take(i as int) == leading_digits(s));
        Some(acc as i32)
    }
}

/// The number recorded for a statistic: the first item with this name
/// decides, and a count that cannot be read gives `None`.
pub open spec fn stat_number(items: Seq<ReadStatItem>, name: Seq<char>) -> Option<i32>
    decreases items.len(),
{
    if items.len() == 0 {
        None
    } else if items[0].stat@ == name {
        count_prefix(items[0].counts@)
    } else {
        stat_number(items.drop_first(), name)
    }
}

/// The number recorded for a statistic in optional statistics.
pub open spec fn stats_number(stats: Option<ReadingStatsDigest>, name: Seq<char>) -> Option<i32> {
    match stats {
        Some(s) => stat_number(s.read_stat@, name),
        None => None,
    }
}

/// Looks up the number recorded for a statistic such as `读过` or `笔记`.
pub fn read_stat_number(stats: Option<&ReadingStatsDigest>, name: &str) -> (r: Option<i32>)
    ensures
        r == stats_number(
            match stats {
                Some(s) => Some(*s),
                None => None,
            },
            name@,
        ),
{
    match stats {
        None => None,
        Some(st) => {
            let items = &st.read_stat;
            let n = items.len();
            let mut i: usize = 0;
            assert(items@.skip(0) == items@);
            while i < n
                invariant
                    stats == Some(st),
                    items@ == st.read_stat@,
                    n == items@.len(),
                    i <= n,
                    stat_number(items@.skip(i as int), name@) == stat_number(items@, name@),
                decreases n - i,
            {
                assert(items@.skip(i as int)[0] == items@[i as int]);
                assert(items@.skip(i as int).drop_first() == items@.skip(i + 1));
                if text_eq(items[i].stat.as_str(), name) {
                    let found = parse_count_prefix(items[i].counts.as_str());
                    assert(stat_number(items@.skip(i as int), name@) == count_prefix(
                        items@[i as int].counts@,
                    ));
                    return found;
                }
                i = i + 1;
            }
            assert(items@.skip(n as int).len() == 0);
            None
        },
    }
}

// ---------------------------------------------------------------------
// Note totals
// ---------------------------------------------------------------------

pub open spec fn sum_highlights(b: Seq<NotebookBook>) -> int
    decreases b.len(),
{
    if b.len() == 0 {
        0
    } else {
        sum_highlights(b.drop_last()) + b.last().note_count
    }
}

pub open spec fn sum_reviews(b: Seq<NotebookBook>) -> int
    decreases b.len(),
{
    if b.len() == 0 {
        0
    } else {
        sum_reviews(b.drop_last()) + b.last().review_count
    }
}

pub open spec fn sum_bookmarks(b: Seq<NotebookBook>) -> int
    decreases b.len(),
{
    if b.len() == 0 {
        0
    } else {
        sum_bookmarks(b.drop_last()) + b.last().bookmark_count
    }
}

pub open spec fn fits_i32(v: int) -> bool {
    i32::MIN <= v <= i32::MAX
}

/// Summing each kind of note over the books stays within `i32` at every
/// step, as does the grand total.
pub open spec fn totals_fit(b: Seq<NotebookBook>) -> bool {
    &&& forall|k: int|
        0 <= k <= b.len() ==> fits_i32(#[trigger] sum_highlights(b.take(k))) && fits_i32(
            sum_reviews(b.take(k)),
        ) && fits_i32(sum_bookmarks(b.take(k)))
    &&& fits_i32(sum_highlights(b) + sum_reviews(b))
    &&& fits_i32(sum_highlights(b) + sum_reviews(b) + sum_bookmarks(b))
}

/// Highlights, thoughts and bookmarks summed over the books with notes.
pub struct NotebookNoteTotals {
    pub highlights: i32,
    pub reviews: i32,
    pub bookmarks: i32,
    pub total: i32,
}

/// Sums the note counts of the books.
pub fn notebook_note_totals(notebooks: &NotebooksResult) -> (t: NotebookNoteTotals)
    requires
        totals_fit(notebooks.books@),
    ensures
        t.highlights == sum_highlights(notebooks.books@),
        t.reviews == sum_reviews(notebooks.books@),
        t.bookmarks == sum_bookmarks(notebooks.books@),
        t.total == t.highlights + t.reviews + t.bookmarks,
{
    let books = &notebooks.books;
    let ghost b = books@;
    let mut h: i32 = 0;
    let mut r: i32 = 0;
    let mut m: i32 = 0;
    for i in 0..books.len()
        invariant
            b == books@,
            totals_fit(b),
            h == sum_highlights(b.take(i as int)),
            r == sum_reviews(b.take(i as int)),
            m == sum_bookmarks(b.take(i as int)),
    {
        assert(b.take(i + 1).drop_last() == b.take(i as int));
        assert(fits_i32(sum_highlights(b.take(i + 1))));
        h = h + books[i].note_count;
        r = r + books[i].review_count;
        m = m + books[i].bookmark_count;
    }
    assert(b.take(b.len() as int) == b);
    NotebookNoteTotals { highlights: h, reviews: r, bookmarks: m, total: h + r + m }
}

// ---------------------------------------------------------------------
// The profile summary
// ---------------------------------------------------------------------

/// Key figures in numbers.
pub struct ProfileMetrics {
    pub read_books: Option<i32>,
    pub finished_books: Option<i32>,
    pub read_days: i32,
    pub note_count: i32,
    pub reading_time: String,
}

/// Key figures as labels with units.
pub struct ProfileDisplay {
    pub read_books: Option<String>,
    pub finished_books: Option<String>,
    pub read_days: String,
    pub note_count: String,
    pub reading_time: String,
}

/// The bookshelf in numbers.
pub struct ShelfDigest {
    pub total_items: usize,
    pub ebook_items: usize,
    pub album_items: usize,
    pub has_article_collection: bool,
    pub finished_ebook_items: usize,
}

/// The books with notes in numbers.
pub struct NotebookDigest {
    pub book_count: usize,
    pub total_book_count_from_api: i32,
    pub total_note_count_from_api: i32,
    pub highlight_count: i32,
    pub review_count: i32,
    pub bookmark_count: i32,
    pub total_note_count_computed: i32,
}

/// The normalized figures a report agent must use as they are.
pub struct ProfileSummary {
    pub period_id: String,
    pub period_label: String,
    pub bookshelf_total: usize,
    pub bookshelf_total_display: String,
    pub canonical: ProfileMetrics,
    pub canonical_display: ProfileDisplay,
    pub selected: ProfileMetrics,
    pub selected_display: ProfileDisplay,
    pub shelf: Option<ShelfDigest>,
    pub notebooks: Option<NotebookDigest>,
}

pub open spec fn some_stats(s: Option<&ReadingStatsDigest>) -> Option<ReadingStatsDigest> {
    match s {
        Some(x) => Some(*x),
        None => None,
    }
}

/// Whole-library figures come from the overall statistics when a narrower
/// period was chosen, else from the period's own statistics.
pub open spec fn canonical_stats(
    period: Seq<char>,
    scoped: Option<ReadingStatsDigest>,
    overall: Option<ReadingStatsDigest>,
) -> Option<ReadingStatsDigest> {
    if period == "all"@ {
        scoped
    } else {
        match overall {
            Some(o) => Some(o),
            None => scoped,
        }
    }
}

pub open spec fn stats_seconds(s: Option<ReadingStatsDigest>, fallback: int) -> int {
    match s {
        Some(x) => x.total_read_time as int,
        None => fallback,
    }
}

pub open spec fn stats_days(s: Option<ReadingStatsDigest>) -> i32 {
    match s {
        Some(x) => x.read_days,
        None => 0,
    }
}

/// The computed total of notes, when notebooks are known.
pub open spec fn notes_total(n: Option<NotebooksResult>) -> Option<i32> {
    match n {
        Some(x) => Some(
            (sum_highlights(x.books@) + sum_reviews(x.books@) + sum_bookmarks(x.books@)) as i32,
        ),
        None => None,
    }
}

pub open spec fn or_else(a: Option<i32>, b: Option<i32>) -> Option<i32> {
    match a {
        Some(x) => Some(x),
        None => b,
    }
}

pub open spec fn unwrap_or_zero(a: Option<i32>) -> i32 {
    match a {
        Some(x) => x,
        None => 0,
    }
}

/// The note count for the whole library: the `笔记` statistic, else the computed total.
pub open spec fn canonical_note_count(c: Option<ReadingStatsDigest>, n: Option<NotebooksResult>) -> i32 {
    unwrap_or_zero(or_else(stats_number(c, "笔记"@), notes_total(n)))
}

/// The note count for the chosen period: for the whole library the
/// statistic comes first, for a narrower period the computed total does.
pub open spec fn selected_note_count(
    period: Seq<char>,
    scoped: Option<ReadingStatsDigest>,
    n: Option<NotebooksResult>,
) -> i32 {
    if period == "all"@ {
        unwrap_or_zero(or_else(stats_number(scoped, "笔记"@), notes_total(n)))
    } else {
        unwrap_or_zero(or_else(notes_total(n), stats_number(scoped, "笔记"@)))
    }
}

pub open spec fn finished_count(b: Seq<ShelfBook>) -> nat
    decreases b.len(),
{
    if b.len() == 0 {
        0
    } else {
        finished_count(b.drop_last()) + if b.last().finish_reading == 1 {
            1nat
        } else {
            0nat
        }
    }
}

/// The figures agree with the statistics, notebooks and shelf they came from.
pub open spec fn metrics_match(
    m: ProfileMetrics,
    stats: Option<ReadingStatsDigest>,
    seconds: int,
    note_count: i32,
) -> bool {
    &&& m.read_books == stats_number(stats, "读过"@)
    &&& m.finished_books == stats_number(stats, "读完"@)
    &&& m.read_days == stats_days(stats)
    &&& m.note_count == note_count
    &&& m.reading_time@ == duration_text(seconds)
}

/// The labels agree with the figures.
pub open spec fn display_match(d: ProfileDisplay, m: ProfileMetrics) -> bool {
    &&& opt_string_view(d.read_books) == optional_label(m.read_books, "本"@)
    &&& opt_string_view(d.finished_books) == optional_label(m.finished_books, "本"@)
    &&& d.read_days@ == int_decimal(m.read_days as int) + "天"@
    &&& d.note_count@ == int_decimal(m.note_count as int) + "条"@
    &&& d.reading_time@ == m.reading_time@
}

pub open spec fn shelf_total(shelf: Option<ShelfSyncResult>) -> usize {
    match shelf {
        Some(s) => s.total_count,
        None => 0,
    }
}

pub open spec fn notebooks_fit(n: Option<NotebooksResult>) -> bool {
    match n {
        Some(x) => totals_fit(x.books@),
        None => true,
    }
}

pub open spec fn some_shelf(s: Option<&ShelfSyncResult>) -> Option<ShelfSyncResult> {
    match s {
        Some(x) => Some(*x),
        None => None,
    }
}

pub open spec fn some_notebooks(s: Option<&NotebooksResult>) -> Option<NotebooksResult> {
    match s {
        Some(x) => Some(*x),
        None => None,
    }
}

fn metrics(stats: Option<&ReadingStatsDigest>, seconds: i64, note_count: i32) -> (r: (
    ProfileMetrics,
    ProfileDisplay,
))
    ensures
        metrics_match(r.0, some_stats(stats), seconds as int, note_count),
        display_match(r.1, r.0),
{
    let read_books = read_stat_number(stats, "读过");
    let finished_books = read_stat_number(stats, "读完");
    let read_days = match stats {
        Some(s) => s.read_days,
        None => 0,
    };
    let m = ProfileMetrics {
        read_books,
        finished_books,
        read_days,
        note_count,
        reading_time: reading_time_display(seconds),
    };
    let d = ProfileDisplay {
        read_books: optional_count_label(read_books, "本"),
        finished_books: optional_count_label(finished_books, "本"),
        read_days: count_label_i32(read_days, "天"),
        note_count: count_label_i32(note_count, "条"),
        reading_time: reading_time_display(seconds),
    };
    (m, d)
}

fn count_finished(books: &Vec<ShelfBook>) -> (n: usize)
    ensures
        n == finished_count(books@),
{
    let mut n: usize = 0;
    for i in 0..books.len()
        invariant
            n == finished_count(books@.take(i as int)),
            n <= i,
    {
        assert(books@.take(i + 1).drop_last() == books@.take(i as int));
        if books[i].finish_reading == 1 {
            n = n + 1;
        }
    }
    assert(books@.take(books@.len() as int) == books@);
    n
}

/// Builds the summary of key figures for a report period from the shelf,
/// the notebooks in the period and the statistics for the period and overall.
pub fn build_profile_summary(
    report_period: &str,
    shelf: Option<&ShelfSyncResult>,
    notebooks: Option<&NotebooksResult>,
    scoped_stats: Option<&ReadingStatsDigest>,
    overall_stats: Option<&ReadingStatsDigest>,
) -> (p: ProfileSummary)
    requires
        notebooks_fit(some_notebooks(notebooks)),
    ensures
        ({
            let period = report_period@;
            let scoped = some_stats(scoped_stats);
            let canon = canonical_stats(period, scoped, some_stats(overall_stats));
            let nb = some_notebooks(notebooks);
            let scoped_seconds = stats_seconds(scoped, 0);
            &&& p.period_id@ == period
            &&& p.period_label@ == crate::period::period_label(period)
            &&& p.bookshelf_total == shelf_total(some_shelf(shelf))
            &&& p.bookshelf_total_display@ == nat_decimal(p.bookshelf_total as nat) + "本"@
            &&& metrics_match(
                p.canonical,
                canon,
                stats_seconds(canon, scoped_seconds),
                canonical_note_count(canon, nb),
            )
            &&& display_match(p.canonical_display, p.canonical)
            &&& metrics_match(p.selected, scoped, scoped_seconds, selected_note_count(period, scoped, nb))
            &&& display_match(p.selected_display, p.selected)
            &&& (p.shelf is Some <==> shelf is Some)
            &&& (shelf matches Some(s) ==> p.shelf matches Some(d) && d.total_items == s.total_count
                && d.ebook_items == s.books@.len() && d.album_items == s.albums@.len()
                && d.has_article_collection == s.has_mp && d.finished_ebook_items == finished_count(
                s.books@,
            ))
            &&& (p.notebooks is Some <==> notebooks is Some)
            &&& (notebooks matches Some(n) ==> p.notebooks matches Some(d) && d.book_count
                == n.books@.len() && d.total_book_count_from_api == n.total_book_count
                && d.total_note_count_from_api == n.total_note_count && d.highlight_count
                == sum_highlights(n.books@) && d.review_count == sum_reviews(n.books@)
                && d.bookmark_count == sum_bookmarks(n.books@) && d.total_note_count_computed
                == d.highlight_count + d.review_count + d.bookmark_count)
        }),
        report_period@ != "all"@ && overall_stats is Some ==> ({
            let o = some_stats(overall_stats);
            &&& p.canonical.read_books == stats_number(o, "读过"@)
            &&& p.canonical.finished_books == stats_number(o, "读完"@)
            &&& p.canonical.read_days == o->0.read_days
            &&& p.canonical.reading_time@ == duration_text(o->0.total_read_time as int)
            &&& opt_string_view(p.canonical_display.read_books) == optional_label(
                stats_number(o, "读过"@),
                "本"@,
            )
        }),
        report_period@ == "all"@ ==> p.canonical.read_books == p.selected.read_books
            && p.canonical.finished_books == p.selected.finished_books && p.canonical.read_days
            == p.selected.read_days && p.canonical.note_count == p.selected.note_count
            && p.canonical.reading_time@ == p.selected.reading_time@,
{
    let is_all = text_eq(report_period, "all");
    let canon: Option<&ReadingStatsDigest> = if is_all {
        scoped_stats
    } else {
        match overall_stats {
            Some(o) => Some(o),
            None => scoped_stats,
        }
    };
    let scoped_seconds: i64 = match scoped_stats {
        Some(s) => s.total_read_time,
        None => 0,
    };
    let canonical_seconds: i64 = match canon {
        Some(s) => s.total_read_time,
        None => scoped_seconds,
    };
    let totals = match notebooks {
        Some(n) => Some(notebook_note_totals(n)),
        None => None,
    };
    let total_notes: Option<i32> = match &totals {
        Some(t) => Some(t.total),
        None => None,
    };
    let canon_notes = match read_stat_number(canon, "笔记") {
        Some(v) => v,
        None => match total_notes {
            Some(v) => v,
            None => 0,
        },
    };
    let selected_notes = if is_all {
        match read_stat_number(scoped_stats, "笔记") {
            Some(v) => v,
            None => match total_notes {
                Some(v) => v,
                None => 0,
            },
        }
    } else {
        match total_notes {
            Some(v) => v,
            None => match read_stat_number(scoped_stats, "笔记") {
                Some(v) => v,
                None => 0,
            },
        }
    };
    let (canonical, canonical_display) = metrics(canon, canonical_seconds, canon_notes);
    let (selected, selected_display) = metrics(scoped_stats, scoped_seconds, selected_notes);
    let bookshelf_total: usize = match shelf {
        Some(s) => s.total_count,
        None => 0,
    };
    let shelf_digest = match shelf {
        Some(s) => Some(
            ShelfDigest {
                total_items: s.total_count,
                ebook_items: s.books.len(),
                album_items: s.albums.len(),
                has_article_collection: s.has_mp,
                finished_ebook_items: count_finished(&s.books),
            },
        ),
        None => None,
    };
    let notebook_digest = match notebooks {
        Some(n) => match totals {
            Some(t) => Some(
                NotebookDigest {
                    book_count: n.books.len(),
                    total_book_count_from_api: n.total_book_count,
                    total_note_count_from_api: n.total_note_count,
                    highlight_count: t.highlights,
                    review_count: t.reviews,
                    bookmark_count: t.bookmarks,
                    total_note_count_computed: t.total,
                },
            ),
            None => None,
        },
        None => None,
    };
    ProfileSummary {
        period_id: owned(report_period),
        period_label: owned(crate::period::report_period_label(report_period)),
        bookshelf_total,
        bookshelf_total_display: count_label_usize(bookshelf_total, "本"),
        canonical,
        canonical_display,
        selected,
        selected_display,
        shelf: shelf_digest,
        notebooks: notebook_digest,
    }
}


/// The whole-library figures of a profile: for a narrower period with
/// overall statistics they are the overall ones, whatever the period's own
/// statistics say; for the whole history they are the history's own.
pub proof fn law_whole_library_figures(
    period: Seq<char>,
    scoped: Option<ReadingStatsDigest>,
    overall: Option<ReadingStatsDigest>,
    m: ProfileMetrics,
    seconds: int,
    notes: i32,
)
    requires
        metrics_match(m, canonical_stats(period, scoped, overall), seconds, notes),
    ensures
        period != "all"@ && overall is Some ==> m.read_books == stats_number(overall, "读过"@)
            && m.finished_books == stats_number(overall, "读完"@) && m.read_days == overall->0.read_days,
        period == "all"@ ==> m.read_books == stats_number(scoped, "读过"@) && m.finished_books
            == stats_number(scoped, "读完"@) && m.read_days == stats_days(scoped),
{
}

} // verus!
