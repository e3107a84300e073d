//! Choosing the data a report reads: which notebooks fall in its period,
//! walking the notebook pages, and what to fetch before the agent runs.
use crate::ima::ids_with_notes;
use crate::templates::{has_capability, strs_view, BuiltinAdvancedTemplate};
use crate::text::{lemma_texts_push, lemma_texts_take_push, texts, text_eq};
use crate::profile::NotebooksResult;
use crate::types::NotebookBook;
use vstd::prelude::*;

verus! {

/// A report is scoped to a period when it has a start or an end.
pub open spec fn scoped(start: Option<i64>, end: Option<i64>) -> bool {
    start is Some || end is Some
}

/// Whether notebooks must be narrowed to a period at all.
pub fn needs_period_scope(start: Option<i64>, end: Option<i64>) -> (b: bool)
    ensures
        b == scoped(start, end),
{
    start.is_some() || end.is_some()
}

/// A notebook is looked at for a period only when its last activity is
/// not before the period's start.
pub open spec fn may_fall_in(book: NotebookBook, start: Option<i64>) -> bool {
    match start {
        Some(s) => book.sort >= s,
        None => true,
    }
}

pub fn notebook_may_fall_in(book: &NotebookBook, start: Option<i64>) -> (b: bool)
    ensures
        b == may_fall_in(*book, start),
{
    match start {
        Some(s) => book.sort >= s,
        None => true,
    }
}

/// Which of a notebook's notes to fetch: its highlights when it counts
/// some, its reviews when it counts some.
pub fn notes_to_fetch(book: &NotebookBook) -> (r: (bool, bool))
    ensures
        r.0 == (book.note_count > 0),
        r.1 == (book.review_count > 0),
{
    (book.note_count > 0, book.review_count > 0)
}

/// A notebook counted again within the period: its highlights and reviews
/// of the period, no bookmarks; kept only when it has some.
pub open spec fn scoped_book_of(
    book: NotebookBook,
    bookmarks_in_period: usize,
    reviews_in_period: usize,
) -> Option<NotebookBook> {
    let b = NotebookBook {
        note_count: bookmarks_in_period as i32,
        review_count: reviews_in_period as i32,
        bookmark_count: 0,
        ..book
    };
    if b.note_count > 0 || b.review_count > 0 {
        Some(b)
    } else {
        None
    }
}

pub fn scope_book(book: NotebookBook, bookmarks_in_period: usize, reviews_in_period: usize) -> (r: Option<
    NotebookBook,
>)
    ensures
        r == scoped_book_of(book, bookmarks_in_period, reviews_in_period),
{
    let mut b = book;
    b.note_count = bookmarks_in_period as i32;
    b.review_count = reviews_in_period as i32;
    b.bookmark_count = 0;
    if b.note_count > 0 || b.review_count > 0 {
        Some(b)
    } else {
        None
    }
}

/// The notes counted by a list of notebooks.
pub open spec fn notes_counted(b: Seq<NotebookBook>) -> int
    decreases b.len(),
{
    if b.len() == 0 {
        0
    } else {
        notes_counted(b.drop_last()) + b.last().review_count + b.last().note_count + b.last().bookmark_count
    }
}

/// Every book's count and every running total fit in an `i32`.
pub open spec fn counts_fit(b: Seq<NotebookBook>) -> bool {
    &&& forall|k: int| 0 <= k <= b.len() ==> i32::MIN <= #[trigger] notes_counted(b.take(k)) <= i32::MAX
    &&& forall|k: int|
        0 <= k < b.len() ==> i32::MIN <= (#[trigger] b[k]).review_count + b[k].note_count
            + b[k].bookmark_count <= i32::MAX
}

/// The notebooks of a period: the kept books, their number and notes, and
/// no further page.
pub fn scoped_notebooks(notebooks: NotebooksResult, books: Vec<NotebookBook>) -> (r: NotebooksResult)
    requires
        counts_fit(books@),
    ensures
        r.books == books,
        r.total_book_count == books@.len() as i32,
        r.total_note_count == notes_counted(books@),
        r.has_more == 0,
{
    let mut total: i32 = 0;
    for i in 0..books.len()
        invariant
            counts_fit(books@),
            total == notes_counted(books@.take(i as int)),
    {
        assert(books@.take(i + 1).drop_last() == books@.take(i as int));
        assert(books@.take(i + 1).last() == books@[i as int]);
        let b = &books[i];
        assert(i32::MIN <= notes_counted(books@.take(i + 1)) <= i32::MAX);
        let wide: i64 = total as i64 + b.review_count as i64 + b.note_count as i64 + b.bookmark_count as i64;
        total = wide as i32;
    }
    assert(books@.take(books@.len() as int) == books@);
    let n = books.len();
    NotebooksResult {
        books,
        total_book_count: n as i32,
        total_note_count: total,
        has_more: 0,
    }
}

/// The notes of a book go into the raw notes file only when some of its
/// highlights or reviews fall in the period.
pub fn keeps_raw_notes(bookmarks_in_period: usize, reviews_in_period: usize) -> (b: bool)
    ensures
        b == (bookmarks_in_period > 0 || reviews_in_period > 0),
{
    bookmarks_in_period > 0 || reviews_in_period > 0
}

/// Walking the notebook pages: the ids gathered so far and where the next
/// page starts.
pub struct NotebookPager {
    pub book_ids: Vec<String>,
    pub last_sort: i64,
    pub only_with_notes: bool,
}

/// The ids a page adds: all of its books', or those with notes.
pub open spec fn page_ids(books: Seq<NotebookBook>, only_with_notes: bool) -> Seq<Seq<char>> {
    if only_with_notes {
        ids_with_notes(books)
    } else {
        books.map_values(|b: NotebookBook| b.book_id@)
    }
}

impl NotebookPager {
    /// Before the first page, which starts at sort key 0.
    pub fn new(only_with_notes: bool) -> (p: Self)
        ensures
            p.book_ids@.len() == 0,
            p.last_sort == 0,
            p.only_with_notes == only_with_notes,
    {
        NotebookPager { book_ids: Vec::new(), last_sort: 0, only_with_notes }
    }

    /// Takes in a page and says whether to ask for the next one: an empty
    /// page ends the walk; otherwise its books' ids are added, the next
    /// page starts after its last book, and the walk goes on while the
    /// page says there are more.
    pub fn on_page(&mut self, page: &NotebooksResult) -> (more: bool)
        ensures
            page.books@.len() == 0 ==> *final(self) == *old(self) && !more,
            page.books@.len() > 0 ==> {
                &&& texts(final(self).book_ids@) == texts(old(self).book_ids@) + page_ids(
                    page.books@,
                    old(self).only_with_notes,
                )
                &&& final(self).last_sort == page.books@.last().sort
                &&& final(self).only_with_notes == old(self).only_with_notes
                &&& more == (page.has_more == 1)
            },
    {
        let n = page.books.len();
        if n == 0 {
            return false;
        }
        self.last_sort = page.books[n - 1].sort;
        let added = if self.only_with_notes {
            crate::ima::notebook_ids_with_notes(&page.books)
        } else {
            let mut ids: Vec<String> = Vec::new();
            for i in 0..n
                invariant
                    n == page.books@.len(),
                    texts(ids@) == page.books@.take(i as int).map_values(|b: NotebookBook| b.book_id@),
            {
                let ghost old_ids = ids@;
                ids.push(page.books[i].book_id.clone());
                proof {
                    lemma_texts_push(old_ids, page.books@[i as int].book_id);
                    assert(page.books@.take(i + 1) == page.books@.take(i as int).push(page.books@[i as int]));
                    assert(texts(ids@) =~= page.books@.take(i + 1).map_values(|b: NotebookBook| b.book_id@));
                }
            }
            assert(page.books@.take(n as int) == page.books@);
            ids
        };
        let ghost before = texts(self.book_ids@);
        for i in 0..added.len()
            invariant
                texts(self.book_ids@) == before + texts(added@.take(i as int)),
                before == texts(old(self).book_ids@),
                texts(added@) == page_ids(page.books@, old(self).only_with_notes),
                self.last_sort == page.books@.last().sort,
                self.only_with_notes == old(self).only_with_notes,
                page.books@.len() > 0,
        {
            let ghost old_ids = self.book_ids@;
            self.book_ids.push(added[i].clone());
            proof {
                lemma_texts_push(old_ids, added@[i as int]);
                lemma_texts_take_push(added@, i as int);
                assert(texts(self.book_ids@) =~= before + texts(added@.take(i + 1)));
            }
        }
        assert(added@.take(added@.len() as int) == added@);
        page.has_more == 1
    }
}

/// The ids of the books to export: the chosen ones, else all the user's
/// notebooks (found by walking the pages).
pub fn chosen_book_ids(chosen: &Vec<String>) -> (r: Option<Vec<String>>)
    ensures
        chosen@.len() > 0 ==> (r matches Some(ids) && texts(ids@) == texts(chosen@)),
        chosen@.len() == 0 ==> r is None,
{
    if chosen.len() == 0 {
        return None;
    }
    let mut ids: Vec<String> = Vec::new();
    for i in 0..chosen.len()
        invariant
            texts(ids@) == texts(chosen@.take(i as int)),
    {
        let ghost old_ids = ids@;
        ids.push(chosen[i].clone());
        proof {
            lemma_texts_push(old_ids, chosen@[i as int]);
            lemma_texts_take_push(chosen@, i as int);
        }
    }
    assert(chosen@.take(chosen@.len() as int) == chosen@);
    Some(ids)
}

/// What to fetch before an agent writes a report.
pub struct PrefetchPlan {
    pub shelf: bool,
    pub notebooks: bool,
    pub stats: bool,
    pub overall_stats: bool,
    pub raw_notes: bool,
}

/// The shelf, notebooks and statistics as the template reads them by
/// default (the whole-time statistics too for a shorter period), and the
/// raw notes only with consent and a template that may read them.
pub fn plan_prefetch(template: &BuiltinAdvancedTemplate, raw_notes_consent: bool, report_period: &str) -> (p:
    PrefetchPlan)
    ensures
        p.shelf == strs_view(template.default_capabilities@).contains("shelf.sync"@),
        p.notebooks == strs_view(template.default_capabilities@).contains("notes.notebooks"@),
        p.stats == strs_view(template.default_capabilities@).contains("reading.stats"@),
        p.overall_stats == (p.stats && report_period@ != "all"@),
        p.raw_notes == (raw_notes_consent && (strs_view(template.optional_capabilities@).contains(
            "notes.bookmarks"@,
        ) || strs_view(template.optional_capabilities@).contains("notes.reviews"@))),
{
    let shelf = has_capability(&template.default_capabilities, "shelf.sync");
    let notebooks = has_capability(&template.default_capabilities, "notes.notebooks");
    let stats = has_capability(&template.default_capabilities, "reading.stats");
    let overall_stats = stats && !text_eq(report_period, "all");
    let raw_notes = raw_notes_consent && (has_capability(&template.optional_capabilities, "notes.bookmarks")
        || has_capability(&template.optional_capabilities, "notes.reviews"));
    PrefetchPlan { shelf, notebooks, stats, overall_stats, raw_notes }
}

} // verus!
