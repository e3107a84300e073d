//! Naming exported files: file names made safe from titles, the names tried
//! when one is taken, and output directories under the user's home.
use crate::cache::{join_path, joined};
use crate::templates::opt_str_view;
use crate::text::{
    char_is_ws, chars_of, is_ws, matches_at, owned, push_char, push_str, push_u64, nat_decimal,
    slice_chars, starts_with, strip_char, strip_char_chars, string_of, text_eq, trim, trim_chars,
};
use vstd::prelude::*;

verus! {

// ---------------------------------------------------------------------
// Safe names
// ---------------------------------------------------------------------

/// `char::is_alphanumeric`: whether Unicode counts the character as
/// alphabetic or numeric.
pub uninterp spec fn unicode_alphanumeric(c: char) -> bool;

/// `char::is_alphanumeric`.
#[verifier::external_body]
pub(crate) fn is_alphanumeric(c: char) -> (b: bool)
    ensures
        b == unicode_alphanumeric(c),
{
    c.is_alphanumeric()
}

/// `char::is_control`: the Unicode control characters (category Cc).
pub open spec fn is_control(c: char) -> bool {
    (c as u32) <= 0x1f || (0x7f <= (c as u32) && (c as u32) <= 0x9f)
}

/// A character of a title as it goes into a file name: letters, digits,
/// `-`, `_` and spaces stay; everything else becomes `_`.
pub open spec fn name_char(c: char) -> char {
    if is_control(c) {
        '_'
    } else if unicode_alphanumeric(c) || c == '-' || c == '_' || c == ' ' {
        c
    } else {
        '_'
    }
}

pub open spec fn cleaned(s: Seq<char>) -> Seq<char> {
    Seq::new(s.len(), |i: int| name_char(s[i]))
}

/// Runs of whitespace become one space, with none at either end
/// (`split_whitespace().collect().join(" ")`): the text so far, and
/// whether a space is owed before the next word.
pub open spec fn collapse_state(s: Seq<char>) -> (Seq<char>, bool)
    decreases s.len(),
{
    if s.len() == 0 {
        (Seq::empty(), false)
    } else {
        let (out, pending) = collapse_state(s.drop_last());
        if is_ws(s.last()) {
            (out, out.len() > 0)
        } else if pending {
            (out.push(' ').push(s.last()), false)
        } else {
            (out.push(s.last()), false)
        }
    }
}

pub open spec fn collapse_ws(s: Seq<char>) -> Seq<char> {
    collapse_state(s).0
}

/// The first `n` characters (all when there are fewer).
pub open spec fn first_n(s: Seq<char>, n: int) -> Seq<char> {
    if s.len() <= n {
        s
    } else {
        s.take(n)
    }
}

/// A title made into a file name: unsafe characters replaced, spaces
/// collapsed, underscores trimmed from both ends, the fallback when nothing
/// is left, at most eighty characters.
pub open spec fn safe_name(title: Seq<char>, fallback: Seq<char>) -> Seq<char> {
    let collapsed = strip_char(trim(collapse_ws(cleaned(title))), '_');
    first_n(
        if collapsed.len() == 0 {
            fallback
        } else {
            collapsed
        },
        80,
    )
}

fn cleaned_chars(v: &Vec<char>) -> (r: Vec<char>)
    ensures
        r@ == cleaned(v@),
{
    let mut r: Vec<char> = Vec::new();
    for i in 0..v.len()
        invariant
            r@ == cleaned(v@).take(i as int),
    {
        let c = v[i];
        let code = c as u32;
        let out = if code <= 0x1f || (0x7f <= code && code <= 0x9f) {
            '_'
        } else if is_alphanumeric(c) || c == '-' || c == '_' || c == ' ' {
            c
        } else {
            '_'
        };
        assert(out == name_char(c));
        r.push(out);
        assert(r@ == cleaned(v@).take(i + 1));
    }
    assert(cleaned(v@).take(v@.len() as int) == cleaned(v@));
    r
}

fn collapse_chars(v: &Vec<char>) -> (r: Vec<char>)
    ensures
        r@ == collapse_ws(v@),
{
    let mut out: Vec<char> = Vec::new();
    let mut pending = false;
    for i in 0..v.len()
        invariant
            (out@, pending) == collapse_state(v@.take(i as int)),
    {
        assert(v@.take(i + 1).drop_last() == v@.take(i as int));
        let c = v[i];
        if char_is_ws(c) {
            pending = out.len() > 0;
        } else {
            if pending {
                out.push(' ');
            }
            out.push(c);
            pending = false;
        }
    }
    assert(v@.take(v@.len() as int) == v@);
    out
}

fn first_n_chars(v: Vec<char>, n: usize) -> (r: Vec<char>)
    ensures
        r@ == first_n(v@, n as int),
{
    if v.len() <= n {
        v
    } else {
        slice_chars(&v, 0, n)
    }
}

fn safe_name_chars(title: &str, fallback: &str) -> (r: String)
    ensures
        r@ == safe_name(title@, fallback@),
{
    let c = cleaned_chars(&chars_of(title));
    let collapsed = strip_char_chars(&trim_chars(&collapse_chars(&c)), '_');
    let source = if collapsed.len() == 0 {
        chars_of(fallback)
    } else {
        collapsed
    };
    string_of(&first_n_chars(source, 80))
}

/// A book's title made into a Markdown file name; without a usable title
/// the book id serves, and without one `未知书籍`.
pub fn safe_file_name(title: &str, fallback: &str) -> (r: String)
    ensures
        r@ == safe_name(title@, if fallback@.len() == 0 {
            "未知书籍"@
        } else {
            fallback@
        }),
{
    if chars_of(fallback).len() == 0 {
        safe_name_chars(title, "未知书籍")
    } else {
        safe_name_chars(title, fallback)
    }
}

/// A report's title made into a file name; without a usable title, `阅读报告`.
pub fn safe_report_file_name(title: &str) -> (r: String)
    ensures
        r@ == safe_name(title@, "阅读报告"@),
{
    safe_name_chars(title, "阅读报告")
}

/// A safe name never exceeds eighty characters.
pub proof fn law_safe_name_is_short(title: Seq<char>, fallback: Seq<char>)
    ensures
        safe_name(title, fallback).len() <= 80,
{
}

// ---------------------------------------------------------------------
// Names tried when one is taken
// ---------------------------------------------------------------------

/// The name tried at the given attempt: the base itself first, then the
/// base numbered from 2 to 999, and last the base with a suffix of its own.
pub open spec fn candidate_name(base: Seq<char>, last_suffix: Seq<char>, extension: Seq<char>, attempt: nat) -> Seq<char> {
    if attempt <= 1 {
        base + extension
    } else if attempt < 1000 {
        base + "-"@ + nat_decimal(attempt) + extension
    } else {
        base + "-"@ + last_suffix + extension
    }
}

fn candidate(base: &str, last_suffix: &str, extension: &str, attempt: u32) -> (r: String)
    ensures
        r@ == candidate_name(base@, last_suffix@, extension@, attempt as nat),
{
    let mut r = owned(base);
    if attempt <= 1 {
    } else if attempt < 1000 {
        push_str(&mut r, "-");
        push_u64(&mut r, attempt as u64);
    } else {
        push_str(&mut r, "-");
        push_str(&mut r, last_suffix);
    }
    push_str(&mut r, extension);
    r
}

/// The Markdown file name tried at an attempt: `<name>.md`, then
/// `<name>-2.md` up to `<name>-999.md`, then `<name>-<book id>.md`.
pub fn markdown_candidate(title: &str, book_id: &str, attempt: u32) -> (r: String)
    ensures
        r@ == candidate_name(
            safe_name(title@, if book_id@.len() == 0 {
                "未知书籍"@
            } else {
                book_id@
            }),
            book_id@,
            ".md"@,
            attempt as nat,
        ),
{
    let base = safe_file_name(title, book_id);
    candidate(base.as_str(), book_id, ".md", attempt)
}

/// The report file name tried at an attempt: `<name>.html`, then numbered,
/// then `<name>-report.html`.
pub fn report_candidate(title: &str, attempt: u32) -> (r: String)
    ensures
        r@ == candidate_name(safe_name(title@, "阅读报告"@), "report"@, ".html"@, attempt as nat),
{
    let base = safe_report_file_name(title);
    candidate(base.as_str(), "report", ".html", attempt)
}

/// The text without every trailing copy of `suffix` (`trim_end_matches`).
pub open spec fn strip_suffixes(s: Seq<char>, suffix: Seq<char>) -> Seq<char>
    decreases s.len(),
{
    if suffix.len() > 0 && s.len() >= suffix.len() && s.skip(s.len() - suffix.len()) == suffix {
        strip_suffixes(s.take(s.len() - suffix.len()), suffix)
    } else {
        s
    }
}

/// The exported report file name tried at an attempt: the name itself,
/// then its stem (without `.html` endings) numbered, then `<stem>-report.html`.
pub fn export_candidate(file_name: &str, attempt: u32) -> (r: String)
    ensures
        r@ == (if attempt <= 1 {
            file_name@
        } else {
            candidate_name(strip_suffixes(file_name@, ".html"@), "report"@, ".html"@, attempt as nat)
        }),
{
    if attempt <= 1 {
        return owned(file_name);
    }
    let v = chars_of(file_name);
    let suffix = chars_of(".html");
    proof {
        reveal_strlit(".html");
    }
    let mut end = v.len();
    assert(v@.take(end as int) == v@);
    while end >= 5 && matches_at(&v, &suffix, end - 5)
        invariant
            end <= v@.len(),
            suffix@ == ".html"@,
            ".html"@.len() == 5,
            strip_suffixes(v@.take(end as int), ".html"@) == strip_suffixes(v@, ".html"@),
        decreases end,
    {
        assert(v@.take(end as int).skip(end - 5) == v@.subrange(end - 5, end as int));
        assert(v@.take(end as int).take(end - 5) == v@.take(end - 5));
        end = end - 5;
    }
    proof {
        assert(v@.take(v@.len() as int) == v@);
        if end >= 5 {
            assert(v@.take(end as int).skip(end - 5) == v@.subrange(end - 5, end as int));
        }
    }
    let stem = string_of(&slice_chars(&v, 0, end));
    assert(stem@ == v@.take(end as int));
    candidate(stem.as_str(), "report", ".html", attempt)
}

// ---------------------------------------------------------------------
// Output directories
// ---------------------------------------------------------------------

/// The text without every leading copy of `prefix` (`trim_start_matches`).
pub open spec fn strip_prefixes(s: Seq<char>, prefix: Seq<char>) -> Seq<char>
    decreases s.len(),
{
    if prefix.len() > 0 && starts_with(s, prefix) {
        strip_prefixes(s.skip(prefix.len() as int), prefix)
    } else {
        s
    }
}

/// An output directory as chosen: `~` and `~/…` are taken from the home
/// directory when it is known; anything else stays as it is.
pub open spec fn resolved_dir(path: Seq<char>, home: Option<Seq<char>>) -> Seq<char> {
    if (path == "~"@ || starts_with(path, "~/"@)) && home is Some {
        if path == "~"@ {
            home->0
        } else {
            joined(home->0, strip_prefixes(path, "~/"@))
        }
    } else {
        path
    }
}

/// Resolves an output directory against the user's home directory.
pub fn resolve_output_dir(path: &str, home: Option<&str>) -> (r: String)
    ensures
        r@ == resolved_dir(path@, opt_str_view(home)),
{
    let v = chars_of(path);
    let tilde = text_eq(path, "~");
    let pre = chars_of("~/");
    let starts = v.len() >= 2 && matches_at(&v, &pre, 0);
    proof {
        reveal_strlit("~/");
        if v.len() < 2 {
            assert(!crate::text::occurs_at(v@, "~/"@, 0));
        }
    }
    match home {
        Some(h) if tilde || starts => {
            if tilde {
                owned(h)
            } else {
                let mut start: usize = 0;
                assert(v@.skip(0) == v@);
                while start < v.len() && v.len() - start >= 2 && matches_at(&v, &pre, start)
                    invariant
                        start <= v@.len(),
                        pre@ == "~/"@,
                        "~/"@.len() == 2,
                        strip_prefixes(v@.skip(start as int), "~/"@) == strip_prefixes(v@, "~/"@),
                    decreases v@.len() - start,
                {
                    assert(v@.skip(start as int).subrange(0, 2) == v@.subrange(start as int, start + 2));
                    assert(v@.skip(start as int).skip(2) == v@.skip(start + 2));
                    start = start + 2;
                }
                proof {
                    if start + 2 <= v@.len() {
                        assert(v@.skip(start as int).subrange(0, 2) == v@.subrange(start as int, start + 2));
                    }
                }
                let rest = string_of(&slice_chars(&v, start, v.len()));
                assert(rest@ == v@.skip(start as int));
                join_path(h, rest.as_str())
            }
        },
        _ => owned(path),
    }
}

} // verus!
