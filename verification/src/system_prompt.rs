//! The chat's system prompt: a template whose placeholders take the time
//! context, the report design guidelines and the skills catalogue, with its
//! lines tidied.
use crate::json::{parse_i64, parse_i64_text};
use crate::text::{
    all_digits, back_ws, chars_of, char_is_ws, digit_value, int_decimal, is_digit, join_lines, join_lines_of, lemma_back_ws_bounds, owned,
    push_char, push_chars, push_i64, push_str, string_of, texts, trim, trimmed,
};
use vstd::prelude::*;

verus! {

pub const TIME_CONTEXT_0: &'static str = "今天是 ";
pub const TIME_CONTEXT_1: &'static str = "年";
pub const TIME_CONTEXT_2: &'static str = "月";
pub const TIME_CONTEXT_3: &'static str = "日（";
pub const TIME_CONTEXT_4: &'static str = "）。\n- 用户提到“今年” → `mode=annually`, `baseTime=";
pub const TIME_CONTEXT_5: &'static str = "`。\n- 用户提到“去年” → `mode=annually`, `baseTime` 取 ";
pub const TIME_CONTEXT_6: &'static str = " 年内时间戳。\n- 用户提到“本月” → `mode=monthly`, `baseTime=0`。\n- 用户提到“上个月” → `mode=monthly`, `baseTime=";
pub const TIME_CONTEXT_7: &'static str = "`。\n- 用户提到“本周” → `mode=weekly`, `baseTime=0`。\n- 用户提到“全部/总共/所有” → `mode=overall`, `baseTime=0`。\n- 用户明确说“";
pub const TIME_CONTEXT_8: &'static str = "年” → `mode=annually`, `baseTime` 取 ";
pub const TIME_CONTEXT_9: &'static str = " 年内任意时间戳。\n- 用户明确说“";
pub const TIME_CONTEXT_10: &'static str = "年” → `mode=annually`, `baseTime=";
pub const TIME_CONTEXT_11: &'static str = "`。\n- 用户没有提到任何时间词时，默认使用 `mode=overall`, `baseTime=0`。\n- 不要用 `mode=overall` 回答明确指定年份的问题。";

/// The time context of the system prompt: today's date and weekday, and
/// which `mode` and `baseTime` each way of naming a period stands for.
pub open spec fn time_context_text(
    year: Seq<char>,
    month: Seq<char>,
    day: Seq<char>,
    weekday: Seq<char>,
    year_start: i64,
    last_year: i64,
    last_month: i64,
) -> Seq<char> {
    TIME_CONTEXT_0@ + year + TIME_CONTEXT_1@ + month + TIME_CONTEXT_2@ + day + TIME_CONTEXT_3@ + weekday + TIME_CONTEXT_4@ + int_decimal(year_start as int) + TIME_CONTEXT_5@ + int_decimal(last_year as int) + TIME_CONTEXT_6@ + int_decimal(last_month as int) + TIME_CONTEXT_7@ + int_decimal(last_year as int) + TIME_CONTEXT_8@ + int_decimal(last_year as int) + TIME_CONTEXT_9@ + year + TIME_CONTEXT_10@ + int_decimal(year_start as int) + TIME_CONTEXT_11@
}

/// Writes the time context.
pub fn build_time_context(
    year: &str,
    month: &str,
    day: &str,
    weekday: &str,
    year_start: i64,
    last_year: i64,
    last_month: i64,
) -> (r: String)
    ensures
        r@ == time_context_text(year@, month@, day@, weekday@, year_start, last_year, last_month),
{
    let mut r = owned(TIME_CONTEXT_0);
    push_str(&mut r, year);
    push_str(&mut r, TIME_CONTEXT_1);
    push_str(&mut r, month);
    push_str(&mut r, TIME_CONTEXT_2);
    push_str(&mut r, day);
    push_str(&mut r, TIME_CONTEXT_3);
    push_str(&mut r, weekday);
    push_str(&mut r, TIME_CONTEXT_4);
    push_i64(&mut r, year_start);
    push_str(&mut r, TIME_CONTEXT_5);
    push_i64(&mut r, last_year);
    push_str(&mut r, TIME_CONTEXT_6);
    push_i64(&mut r, last_month);
    push_str(&mut r, TIME_CONTEXT_7);
    push_i64(&mut r, last_year);
    push_str(&mut r, TIME_CONTEXT_8);
    push_i64(&mut r, last_year);
    push_str(&mut r, TIME_CONTEXT_9);
    push_str(&mut r, year);
    push_str(&mut r, TIME_CONTEXT_10);
    push_i64(&mut r, year_start);
    push_str(&mut r, TIME_CONTEXT_11);
    r
}

/// The weekday's name for ISO weekday number text `%u` (`1` is Monday);
/// empty for anything else.
pub open spec fn weekday_name(u: Seq<char>) -> Seq<char> {
    if u == "1"@ {
        "周一"@
    } else if u == "2"@ {
        "周二"@
    } else if u == "3"@ {
        "周三"@
    } else if u == "4"@ {
        "周四"@
    } else if u == "5"@ {
        "周五"@
    } else if u == "6"@ {
        "周六"@
    } else if u == "7"@ {
        "周日"@
    } else {
        Seq::empty()
    }
}

pub fn weekday_of(u: &str) -> (r: &'static str)
    ensures
        r@ == weekday_name(u@),
{
    proof {
        reveal_strlit("");
    }
    if crate::text::text_eq(u, "1") {
        "周一"
    } else if crate::text::text_eq(u, "2") {
        "周二"
    } else if crate::text::text_eq(u, "3") {
        "周三"
    } else if crate::text::text_eq(u, "4") {
        "周四"
    } else if crate::text::text_eq(u, "5") {
        "周五"
    } else if crate::text::text_eq(u, "6") {
        "周六"
    } else if crate::text::text_eq(u, "7") {
        "周日"
    } else {
        ""
    }
}

/// `str::replace`: every occurrence of `from`, taken from the left without
/// overlap, replaced by `to`.
pub open spec fn replace_all(s: Seq<char>, from: Seq<char>, to: Seq<char>) -> Seq<char>
    decreases s.len(),
{
    if from.len() == 0 || s.len() < from.len() {
        s
    } else if s.take(from.len() as int) == from {
        to + replace_all(s.skip(from.len() as int), from, to)
    } else {
        seq![s[0]] + replace_all(s.skip(1), from, to)
    }
}

/// `s.replace(from, to)` for a non-empty `from`.
pub fn replace_text(s: &str, from: &str, to: &str) -> (r: String)
    requires
        from@.len() > 0,
    ensures
        r@ == replace_all(s@, from@, to@),
{
    let v = chars_of(s);
    let f = chars_of(from);
    let n = v.len();
    let m = f.len();
    let mut r = String::new();
    let mut i: usize = 0;
    assert(v@.skip(0) == v@);
    while i < n
        invariant
            i <= n == v@.len(),
            v@ == s@,
            f@ == from@,
            m == f@.len() > 0,
            r@ + replace_all(v@.skip(i as int), from@, to@) == replace_all(s@, from@, to@),
        decreases n - i,
    {
        let ghost rest = v@.skip(i as int);
        if n - i >= m && crate::text::matches_at(&v, &f, i) {
            assert(rest.take(m as int) == v@.subrange(i as int, i + m));
            assert(rest.skip(m as int) == v@.skip(i + m));
            proof {
                assert(r@ + to@ + replace_all(v@.skip(i + m), from@, to@) == r@ + (to@ + replace_all(
                    rest.skip(m as int),
                    from@,
                    to@,
                )));
            }
            push_str(&mut r, to);
            i = i + m;
        } else {
            proof {
                if rest.len() >= m {
                    assert(rest.take(m as int) == v@.subrange(i as int, i + m));
                }
                assert(rest.skip(1) == v@.skip(i + 1));
                assert(rest[0] == v@[i as int]);
                assert(r@.push(v@[i as int]) + replace_all(v@.skip(i + 1), from@, to@) == r@ + (seq![rest[0]]
                    + replace_all(rest.skip(1), from@, to@)));
            }
            push_char(&mut r, v[i]);
            i = i + 1;
        }
    }
    assert(v@.skip(n as int).len() == 0);
    r
}

/// The lines of a text split at `\n` (`str::split('\n')`), built from its
/// end: a line break starts a new, empty, last line.
pub open spec fn split_lines(s: Seq<char>) -> Seq<Seq<char>>
    decreases s.len(),
{
    if s.len() == 0 {
        seq![Seq::empty()]
    } else {
        let p = split_lines(s.drop_last());
        if s.last() == '\n' {
            p.push(Seq::empty())
        } else {
            p.update(p.len() - 1, p.last().push(s.last()))
        }
    }
}

pub proof fn lemma_split_lines_len(s: Seq<char>)
    ensures
        split_lines(s).len() >= 1,
    decreases s.len(),
{
    if s.len() > 0 {
        lemma_split_lines_len(s.drop_last());
    }
}

/// `str::trim_end`.
pub open spec fn trim_end(s: Seq<char>) -> Seq<char> {
    s.take(back_ws(s, 0, s.len() as int))
}

/// The lines with their trailing whitespace dropped.
pub open spec fn trim_ends(lines: Seq<Seq<char>>) -> Seq<Seq<char>> {
    lines.map_values(|l: Seq<char>| trim_end(l))
}

fn trim_end_of(s: &String) -> (r: String)
    ensures
        r@ == trim_end(s@),
{
    let v = chars_of(s.as_str());
    let mut j: usize = v.len();
    while j > 0 && char_is_ws(v[j - 1])
        invariant
            j <= v@.len(),
            v@ == s@,
            back_ws(v@, 0, j as int) == back_ws(v@, 0, v@.len() as int),
        decreases j,
    {
        j = j - 1;
    }
    let mut r = String::new();
    let mut k: usize = 0;
    while k < j
        invariant
            k <= j <= v@.len(),
            r@ == v@.take(k as int),
        decreases j - k,
    {
        assert(v@.take(k + 1) == v@.take(k as int).push(v@[k as int]));
        push_char(&mut r, v[k]);
        k = k + 1;
    }
    r
}

pub(crate) fn split_lines_of(s: &str) -> (r: Vec<String>)
    ensures
        texts(r@) == split_lines(s@),
{
    let v = chars_of(s);
    let mut lines: Vec<String> = Vec::new();
    lines.push(String::new());
    assert(v@.take(0) =~= Seq::<char>::empty());
    assert(texts(lines@) =~= split_lines(Seq::<char>::empty()));
    for i in 0..v.len()
        invariant
            v@ == s@,
            texts(lines@) == split_lines(v@.take(i as int)),
            lines@.len() >= 1,
    {
        assert(v@.take(i + 1).drop_last() == v@.take(i as int));
        assert(v@.take(i + 1).last() == v@[i as int]);
        let c = v[i];
        if c == '\n' {
            lines.push(String::new());
            assert(texts(lines@) =~= split_lines(v@.take(i as int)).push(Seq::empty()));
        } else {
            let last = lines.len() - 1;
            let ghost before = texts(lines@);
            let mut l = lines.pop().unwrap();
            push_char(&mut l, c);
            lines.push(l);
            assert(texts(lines@) =~= before.update(last as int, before.last().push(c)));
        }
    }
    assert(v@.take(v@.len() as int) == v@);
    lines
}

/// No run of more than two line breaks: a third one in a row is dropped
/// (what replacing `\n\n\n` by `\n\n` until none is left gives).
pub open spec fn cap_blank_lines(s: Seq<char>) -> Seq<char>
    decreases s.len(),
{
    if s.len() == 0 {
        s
    } else {
        let c = cap_blank_lines(s.drop_last());
        if s.last() == '\n' && c.len() >= 2 && c[c.len() - 1] == '\n' && c[c.len() - 2] == '\n' {
            c
        } else {
            c.push(s.last())
        }
    }
}

fn cap_blank_lines_of(s: &str) -> (r: Vec<char>)
    ensures
        r@ == cap_blank_lines(s@),
{
    let v = chars_of(s);
    let mut out: Vec<char> = Vec::new();
    for i in 0..v.len()
        invariant
            v@ == s@,
            out@ == cap_blank_lines(v@.take(i as int)),
    {
        assert(v@.take(i + 1).drop_last() == v@.take(i as int));
        assert(v@.take(i + 1).last() == v@[i as int]);
        let n = out.len();
        if !(v[i] == '\n' && n >= 2 && out[n - 1] == '\n' && out[n - 2] == '\n') {
            out.push(v[i]);
        }
    }
    assert(v@.take(v@.len() as int) == v@);
    out
}

/// No three line breaks in a row.
pub open spec fn no_triple_breaks(s: Seq<char>) -> bool {
    forall|i: int| 0 <= i && i + 2 < s.len() ==> !(#[trigger] s[i] == '\n' && s[i + 1] == '\n' && s[i + 2] == '\n')
}

proof fn lemma_cap_has_no_triple_breaks(s: Seq<char>)
    ensures
        no_triple_breaks(cap_blank_lines(s)),
    decreases s.len(),
{
    if s.len() > 0 {
        lemma_cap_has_no_triple_breaks(s.drop_last());
        let c = cap_blank_lines(s.drop_last());
        let r = cap_blank_lines(s);
        if !(s.last() == '\n' && c.len() >= 2 && c[c.len() - 1] == '\n' && c[c.len() - 2] == '\n') {
            assert(r == c.push(s.last()));
            assert forall|i: int| 0 <= i && i + 2 < r.len() implies !(#[trigger] r[i] == '\n' && r[i + 1]
                == '\n' && r[i + 2] == '\n') by {
                if i + 2 < c.len() {
                    assert(r[i] == c[i] && r[i + 1] == c[i + 1] && r[i + 2] == c[i + 2]);
                }
            }
        }
    }
}

/// A tidied prompt never has more than one blank line in a row: the
/// template's runs of blank lines, whatever was put into it, end up as one.
pub proof fn law_tidy_leaves_no_blank_runs(s: Seq<char>)
    ensures
        no_triple_breaks(tidy(s)),
{
    let c = cap_blank_lines(join_lines(trim_ends(split_lines(replace_all(s, "\r\n"@, "\n"@)))));
    lemma_cap_has_no_triple_breaks(join_lines(trim_ends(split_lines(replace_all(s, "\r\n"@, "\n"@)))));
    let a = crate::text::skip_ws(c, 0);
    crate::text::lemma_skip_ws_bounds(c, 0);
    let b = back_ws(c, a, c.len() as int);
    crate::text::lemma_back_ws_bounds(c, a, c.len() as int);
    let t = tidy(s);
    assert(t == c.subrange(a, b));
    assert forall|i: int| 0 <= i && i + 2 < t.len() implies !(#[trigger] t[i] == '\n' && t[i + 1] == '\n'
        && t[i + 2] == '\n') by {
        assert(t[i] == c[a + i] && t[i + 1] == c[a + i + 1] && t[i + 2] == c[a + i + 2]);
    }
}

/// A prompt's text tidied: Windows line breaks made `\n`, trailing
/// whitespace dropped from every line, runs of blank lines shortened to
/// one, and the whole trimmed.
pub open spec fn tidy(s: Seq<char>) -> Seq<char> {
    trim(cap_blank_lines(join_lines(trim_ends(split_lines(replace_all(s, "\r\n"@, "\n"@))))))
}

pub fn tidy_prompt(s: &str) -> (r: String)
    ensures
        r@ == tidy(s@),
{
    proof {
        reveal_strlit("\r\n");
        reveal_strlit("\n");
    }
    let unified = replace_text(s, "\r\n", "\n");
    let lines = split_lines_of(unified.as_str());
    let mut trimmed_lines: Vec<String> = Vec::new();
    for i in 0..lines.len()
        invariant
            trimmed_lines@.len() == i,
            forall|k: int| 0 <= k < i ==> (#[trigger] trimmed_lines@[k])@ == trim_end(lines@[k]@),
    {
        trimmed_lines.push(trim_end_of(&lines[i]));
    }
    assert(texts(trimmed_lines@) =~= trim_ends(texts(lines@)));
    let joined = join_lines_of(&trimmed_lines);
    let capped = cap_blank_lines_of(joined.as_str());
    trimmed(string_of(&capped).as_str())
}

pub const TIME_CONTEXT_SLOT: &'static str = "{{TIME_CONTEXT}}";

pub const REPORT_DESIGN_SLOT: &'static str = "{{REPORT_DESIGN}}";

pub const SKILL_PROMPT_SLOT: &'static str = "{{SKILL_PROMPT}}";

/// The template used when the bundled one cannot be read.
pub const FALLBACK_PROMPT_TEMPLATE: &'static str = "你是书迹内置的阅读数据助手。\n\n{{TIME_CONTEXT}}\n\n{{REPORT_DESIGN}}\n\n{{SKILL_PROMPT}}\n\n{{SKILL_SUMMARIES}}";

/// The system prompt as sent, with the parts it was made of.
pub struct RenderedSystemPrompt {
    pub system_text: String,
    pub time_context: String,
    pub skill_prompt: String,
}

/// The system text: the template with the time context, then the design
/// guidelines, then the skills catalogue put in their places, tidied.
pub open spec fn system_text(
    template: Seq<char>,
    time_context: Seq<char>,
    report_design: Seq<char>,
    skill_prompt: Seq<char>,
) -> Seq<char> {
    tidy(
        replace_all(
            replace_all(
                replace_all(template, TIME_CONTEXT_SLOT@, time_context),
                REPORT_DESIGN_SLOT@,
                report_design,
            ),
            SKILL_PROMPT_SLOT@,
            skill_prompt,
        ),
    )
}

/// Fills in the template and tidies it.
pub fn render_prompt(template: &str, time_context: String, report_design: &str, skill_prompt: String) -> (r:
    RenderedSystemPrompt)
    ensures
        r.system_text@ == system_text(template@, time_context@, report_design@, skill_prompt@),
        r.time_context == time_context,
        r.skill_prompt == skill_prompt,
{
    proof {
        reveal_strlit("{{TIME_CONTEXT}}");
        reveal_strlit("{{REPORT_DESIGN}}");
        reveal_strlit("{{SKILL_PROMPT}}");
    }
    let a = replace_text(template, TIME_CONTEXT_SLOT, time_context.as_str());
    let b = replace_text(a.as_str(), REPORT_DESIGN_SLOT, report_design);
    let c = replace_text(b.as_str(), SKILL_PROMPT_SLOT, skill_prompt.as_str());
    let system_text = tidy_prompt(c.as_str());
    RenderedSystemPrompt { system_text, time_context, skill_prompt }
}

/// The bundled template when it could be read, else the fallback.
pub fn prompt_template(read: Option<String>) -> (r: String)
    ensures
        r@ == match read {
            Some(t) => t@,
            None => FALLBACK_PROMPT_TEMPLATE@,
        },
{
    match read {
        Some(t) => t,
        None => owned(FALLBACK_PROMPT_TEMPLATE),
    }
}

/// A year read from `%Y` text (`str::parse::<i32>`), 2026 when unreadable.
pub open spec fn year_of(text: Seq<char>) -> i64 {
    match parse_i64(text) {
        Some(v) => if i32::MIN <= v <= i32::MAX {
            v
        } else {
            2026
        },
        None => 2026,
    }
}

/// A month read from `%m` text (`str::parse::<u32>`), 1 when unreadable.
pub open spec fn month_of(text: Seq<char>) -> i64 {
    match parse_i64(text) {
        Some(v) => if 0 <= v <= u32::MAX {
            v
        } else {
            1
        },
        None => 1,
    }
}

pub fn parse_year(text: &str) -> (y: i64)
    ensures
        y == year_of(text@),
{
    match parse_i64_text(text) {
        Some(v) => if i32::MIN as i64 <= v && v <= i32::MAX as i64 {
            v
        } else {
            2026
        },
        None => 2026,
    }
}

pub fn parse_month(text: &str) -> (m: i64)
    ensures
        m == month_of(text@),
{
    match parse_i64_text(text) {
        Some(v) => if 0 <= v && v <= u32::MAX as i64 {
            v
        } else {
            1
        },
        None => 1,
    }
}

/// The local date the month before falls in: the 15th of the previous
/// month (December of the year before, in January).
pub open spec fn last_month_date(year: i64, month: i64) -> (int, int) {
    if month == 1 {
        (year - 1, 12)
    } else {
        (year as int, month - 1)
    }
}

pub fn last_month_of(year: i64, month: i64) -> (r: (i64, i64))
    requires
        i32::MIN <= year <= i32::MAX,
        0 <= month <= u32::MAX,
    ensures
        r.0 == last_month_date(year, month).0,
        r.1 == last_month_date(year, month).1,
{
    if month == 1 {
        (year - 1, 12)
    } else {
        (year, month - 1)
    }
}

/// Two decimal digits whose value lies between `lo` and `hi`.
pub open spec fn two_digits_in(t: Seq<char>, lo: int, hi: int) -> bool {
    &&& t.len() == 2
    &&& is_digit(t[0])
    &&& is_digit(t[1])
    &&& lo <= 10 * digit_value(t[0]) + digit_value(t[1]) <= hi
}

/// The texts chrono writes for a local date: `%Y` (four digits, or a sign
/// and at least four digits outside the years 0 to 9999), `%m` 01 to 12,
/// `%d` 01 to 31, and `%u` 1 (Monday) to 7.
pub open spec fn date_texts_form(y: Seq<char>, m: Seq<char>, d: Seq<char>, w: Seq<char>) -> bool {
    &&& ((y.len() == 4 && all_digits(y)) || (y.len() >= 5 && (y[0] == '+' || y[0] == '-') && all_digits(
        y.skip(1),
    )))
    &&& two_digits_in(m, 1, 12)
    &&& two_digits_in(d, 1, 31)
    &&& w.len() == 1
    &&& '1' <= w[0] <= '7'
}

/// A Unix time lies less than a day from the given UTC date and hour,
/// which exists: every time zone chrono knows is less than a day from UTC.
pub open spec fn near_utc(t: i64, year: i64, month: i64, day: u32, hour: u32) -> bool {
    &&& i32::MIN <= year <= i32::MAX
    &&& 0 <= month <= u32::MAX
    &&& crate::period::chrono_utc_midnight(year as i32, month as u32, day) matches Some(u) && u + hour * 3600
        - 86400 < t < u + hour * 3600 + 86400
}

/// The local date and weekday now, as `chrono::Local::now()` formats them
/// with `%Y`, `%m`, `%d` and `%u`. Which day it is is not stated; the forms
/// of the texts are.
#[verifier::external_body]
fn local_now_texts() -> (r: (String, String, String, String))
    ensures
        date_texts_form(r.0@, r.1@, r.2@, r.3@),
{
    let now = chrono::Local::now();
    (
        now.format("%Y").to_string(),
        now.format("%m").to_string(),
        now.format("%d").to_string(),
        now.format("%u").to_string(),
    )
}

/// The Unix time of a local date and hour (`NaiveDate::from_ymd_opt`,
/// `and_hms_opt`, `and_local_timezone(Local)`), when the date exists and
/// the local time is unambiguous. Where it is found, it lies less than a
/// day from the same date and hour in UTC; the machine's time zone decides
/// the rest.
#[verifier::external_body]
fn local_timestamp(year: i64, month: i64, day: u32, hour: u32) -> (r: Option<i64>)
    ensures
        r matches Some(t) ==> near_utc(t, year, month, day, hour),
{
    let date = chrono::NaiveDate::from_ymd_opt(i32::try_from(year).ok()?, u32::try_from(month).ok()?, day)?;
    let at = date.and_hms_opt(hour, 0, 0)?;
    Some(at.and_local_timezone(chrono::Local).single()?.timestamp())
}

/// The system prompt for now: the time context of the local date, the
/// start of this year and the middle of last month, put into the template
/// with the design guidelines and the skills catalogue. It asks the time
/// zone for 00:00 on 1 January of the year and 12:00 on the 15th of the
/// month before, and gives `None` where either has no unambiguous time;
/// otherwise both lie less than a day from those times in UTC.
pub fn render(template: &str, report_design: &str, skill_prompt: String) -> (r: Option<RenderedSystemPrompt>)
    ensures
        r matches Some(p) ==> p.system_text@ == system_text(
            template@,
            p.time_context@,
            report_design@,
            skill_prompt@,
        ) && p.skill_prompt == skill_prompt,
        r matches Some(p) ==> exists|y: Seq<char>, m: Seq<char>, d: Seq<char>, w: Seq<char>, ys: i64, lm: i64|
            {
                &&& p.time_context@ == #[trigger] time_context_at(y, m, d, w, ys, lm)
                &&& date_texts_form(y, m, d, w)
                &&& near_utc(ys, year_of(y), 1, 1, 0)
                &&& near_utc(
                    lm,
                    last_month_date(year_of(y), month_of(m)).0 as i64,
                    last_month_date(year_of(y), month_of(m)).1 as i64,
                    15,
                    12,
                )
            },
{
    let (year_text, month_text, day_text, weekday_text) = local_now_texts();
    let year = parse_year(year_text.as_str());
    let month = parse_month(month_text.as_str());
    let year_start = local_timestamp(year, 1, 1, 0);
    let (last_year_of_month, last_month) = last_month_of(year, month);
    let last_month_ts = local_timestamp(last_year_of_month, last_month, 15, 12);
    let r = render_at(
        template,
        report_design,
        skill_prompt,
        year_text.as_str(),
        month_text.as_str(),
        day_text.as_str(),
        weekday_text.as_str(),
        year_start,
        last_month_ts,
    );
    proof {
        if r is Some {
            let ys = year_start->0;
            let lm = last_month_ts->0;
            assert(time_context_at(year_text@, month_text@, day_text@, weekday_text@, ys, lm) == time_context_at(
                year_text@,
                month_text@,
                day_text@,
                weekday_text@,
                ys,
                lm,
            ));
        }
    }
    r
}

/// The time context for a local date given as `%Y`, `%m`, `%d` and `%u`
/// texts, with the start of its year and the middle of the month before as
/// Unix times.
pub open spec fn time_context_at(
    year_text: Seq<char>,
    month_text: Seq<char>,
    day_text: Seq<char>,
    weekday_text: Seq<char>,
    year_start: i64,
    last_month_ts: i64,
) -> Seq<char> {
    time_context_text(
        year_text,
        month_text,
        day_text,
        weekday_name(weekday_text),
        year_start,
        (year_of(year_text) - 1) as i64,
        last_month_ts,
    )
}

/// The system prompt for a local date given as `%Y`, `%m`, `%d` and `%u`
/// texts and the local times of the start of its year and of the middle of
/// the month before: there is one exactly when both times exist, and then
/// its time context is that of this date and these times, put into the
/// template with the design guidelines and the skills catalogue.
pub fn render_at(
    template: &str,
    report_design: &str,
    skill_prompt: String,
    year_text: &str,
    month_text: &str,
    day_text: &str,
    weekday_text: &str,
    year_start: Option<i64>,
    last_month_ts: Option<i64>,
) -> (r: Option<RenderedSystemPrompt>)
    ensures
        r is Some <==> (year_start is Some && last_month_ts is Some),
        r matches Some(p) ==> {
            &&& p.time_context@ == time_context_at(
                year_text@,
                month_text@,
                day_text@,
                weekday_text@,
                year_start->0,
                last_month_ts->0,
            )
            &&& p.system_text@ == system_text(template@, p.time_context@, report_design@, skill_prompt@)
            &&& p.skill_prompt == skill_prompt
        },
{
    let year_start = match year_start {
        Some(t) => t,
        None => return None,
    };
    let last_month_ts = match last_month_ts {
        Some(t) => t,
        None => return None,
    };
    let year = parse_year(year_text);
    let weekday = weekday_of(weekday_text);
    let time_context = build_time_context(
        year_text,
        month_text,
        day_text,
        weekday,
        year_start,
        year - 1,
        last_month_ts,
    );
    Some(render_prompt(template, time_context, report_design, skill_prompt))
}

} // verus!
