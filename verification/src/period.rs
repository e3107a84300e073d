//! Report periods: their names, their bounds in time, and filtering by them.
use crate::templates::opt_str_view;
use crate::text::{chars_of, chars_eq, owned, push_chars, text_eq, trim, trim_chars};
use crate::types::{Bookmark, Review};
use vstd::prelude::*;

verus! {

/// A leap year of the proleptic Gregorian calendar (year 0 is 1 BCE).
pub open spec fn is_leap_year(y: int) -> bool {
    y % 4 == 0 && (y % 100 != 0 || y % 400 == 0)
}

/// The number of days in a month of a year.
pub open spec fn days_in_month(y: int, m: int) -> int {
    if m == 2 {
        if is_leap_year(y) {
            29
        } else {
            28
        }
    } else if m == 4 || m == 6 || m == 9 || m == 11 {
        30
    } else {
        31
    }
}

/// A date that `chrono::NaiveDate` can hold: a real day of the proleptic
/// Gregorian calendar in a year from `(i32::MIN >> 13) + 1` to
/// `(i32::MAX >> 13) - 1`.
pub open spec fn date_exists(year: int, month: int, day: int) -> bool {
    &&& -262143 <= year <= 262142
    &&& 1 <= month <= 12
    &&& 1 <= day <= days_in_month(year, month)
}

/// Days from 1970-01-01 to a date of the proleptic Gregorian calendar,
/// counting the year from March so that a leap day falls last.
pub open spec fn days_from_epoch(year: int, month: int, day: int) -> int {
    let y = if month <= 2 {
        year - 1
    } else {
        year
    };
    let mp = (month + 9) % 12;
    365 * y + y / 4 - y / 100 + y / 400 + (153 * mp + 2) / 5 + day - 1 - 719468
}

/// The Unix timestamp of midnight (UTC) at the start of a day, as chrono's
/// `NaiveDate::from_ymd_opt(..)`, `and_hms_opt(0, 0, 0)` and
/// `and_utc().timestamp()` give it; `None` when the date does not exist.
pub open spec fn chrono_utc_midnight(year: i32, month: u32, day: u32) -> Option<i64> {
    if date_exists(year as int, month as int, day as int) {
        Some((days_from_epoch(year as int, month as int, day as int) * 86400) as i64)
    } else {
        None
    }
}

/// `NaiveDate::from_ymd_opt(..)`, `and_hms_opt(0, 0, 0)`, `and_utc().timestamp()`.
#[verifier::external_body]
fn utc_midnight_of(year: i32, month: u32, day: u32) -> (t: Option<i64>)
    ensures
        t == chrono_utc_midnight(year, month, day),
{
    chrono::NaiveDate::from_ymd_opt(year, month, day).and_then(|date| date.and_hms_opt(0, 0, 0)).map(
        |date| date.and_utc().timestamp(),
    )
}

/// Midnight (UTC) at the start of a day as a Unix timestamp; 0 for a date
/// that does not exist.
pub open spec fn utc_midnight(year: i32, month: u32, day: u32) -> i64 {
    match chrono_utc_midnight(year, month, day) {
        Some(t) => t,
        None => 0,
    }
}

/// The Unix timestamp of midnight (UTC) at the start of a day, 0 for a date
/// that does not exist.
pub fn timestamp_for_ymd(year: i32, month: u32, day: u32) -> (t: i64)
    ensures
        t == utc_midnight(year, month, day),
{
    match utc_midnight_of(year, month, day) {
        Some(t) => t,
        None => 0,
    }
}

/// A calendar month as chrono numbers it.
pub open spec fn valid_month(month: u32) -> bool {
    1 <= month <= 12
}

/// The first day of the current year.
pub fn current_year_start(now_year: i32) -> (t: i64)
    ensures
        t == utc_midnight(now_year, 1, 1),
{
    timestamp_for_ymd(now_year, 1, 1)
}

/// The first day of the previous year.
pub fn last_year_start(now_year: i32) -> (t: i64)
    requires
        now_year > i32::MIN,
    ensures
        t == utc_midnight((now_year - 1) as i32, 1, 1),
{
    timestamp_for_ymd(now_year - 1, 1, 1)
}

/// The first day of the current month.
pub fn current_month_start(now_year: i32, now_month: u32) -> (t: i64)
    ensures
        t == utc_midnight(now_year, now_month, 1),
{
    timestamp_for_ymd(now_year, now_month, 1)
}

/// The year and month before the given month.
pub open spec fn previous_month(year: i32, month: u32) -> (i32, u32) {
    if month == 1 {
        ((year - 1) as i32, 12)
    } else {
        (year, (month - 1) as u32)
    }
}

/// The first day of the previous month.
pub fn last_month_start(now_year: i32, now_month: u32) -> (t: i64)
    requires
        valid_month(now_month),
        now_year > i32::MIN,
    ensures
        t == utc_midnight(previous_month(now_year, now_month).0, previous_month(now_year, now_month).1, 1),
{
    let (year, month) = if now_month == 1 {
        (now_year - 1, 12)
    } else {
        (now_year, now_month - 1)
    };
    timestamp_for_ymd(year, month, 1)
}

/// The period a request names: the request trimmed, or the current year when blank.
pub open spec fn period_request(requested: Option<Seq<char>>) -> Seq<char> {
    match requested {
        Some(r) => if trim(r).len() > 0 {
            trim(r)
        } else {
            "current_year"@
        },
        None => "current_year"@,
    }
}

/// The canonical name of a period, if it is one.
pub open spec fn canonical_period(p: Seq<char>) -> Option<Seq<char>> {
    if p == "month"@ || p == "current_month"@ {
        Some("current_month"@)
    } else if p == "year"@ || p == "current_year"@ {
        Some("current_year"@)
    } else if p == "last_month"@ {
        Some("last_month"@)
    } else if p == "last_year"@ {
        Some("last_year"@)
    } else if p == "all"@ {
        Some("all"@)
    } else {
        None
    }
}

fn is(v: &Vec<char>, s: &str) -> (b: bool)
    ensures
        b == (v@ == s@),
{
    let w = chars_of(s);
    chars_eq(v, &w)
}

/// The canonical name of the period a request names; an unknown name is refused.
pub fn normalize_report_period(report_period: Option<&str>) -> (r: Result<&'static str, String>)
    ensures
        match canonical_period(period_request(opt_str_view(report_period))) {
            Some(c) => r matches Ok(p) && p@ == c,
            None => r matches Err(e) && e@ == "未知报告数据范围: "@ + period_request(
                opt_str_view(report_period),
            ),
        },
{
    let p = match report_period {
        Some(req) => {
            let v = chars_of(req);
            let t = trim_chars(&v);
            if t.len() > 0 {
                t
            } else {
                chars_of("current_year")
            }
        },
        None => chars_of("current_year"),
    };
    if is(&p, "month") || is(&p, "current_month") {
        Ok("current_month")
    } else if is(&p, "year") || is(&p, "current_year") {
        Ok("current_year")
    } else if is(&p, "last_month") {
        Ok("last_month")
    } else if is(&p, "last_year") {
        Ok("last_year")
    } else if is(&p, "all") {
        Ok("all")
    } else {
        let mut e = owned("未知报告数据范围: ");
        push_chars(&mut e, &p);
        Err(e)
    }
}

/// How a period is named in a report.
pub open spec fn period_label(p: Seq<char>) -> Seq<char> {
    if p == "last_month"@ {
        "上个月"@
    } else if p == "current_month"@ {
        "本月"@
    } else if p == "last_year"@ {
        "去年"@
    } else if p == "current_year"@ {
        "今年"@
    } else if p == "all"@ {
        "全部"@
    } else {
        "今年"@
    }
}

/// How a period is named in a report; anything unknown reads as this year.
pub fn report_period_label(report_period: &str) -> (l: &'static str)
    ensures
        l@ == period_label(report_period@),
{
    if text_eq(report_period, "last_month") {
        "上个月"
    } else if text_eq(report_period, "current_month") {
        "本月"
    } else if text_eq(report_period, "last_year") {
        "去年"
    } else if text_eq(report_period, "current_year") {
        "今年"
    } else if text_eq(report_period, "all") {
        "全部"
    } else {
        "今年"
    }
}

/// The start (inclusive) and end (exclusive) of a period, given the current
/// year and month; `None` leaves that side open.
pub open spec fn period_bounds(p: Seq<char>, y: i32, m: u32) -> (Option<i64>, Option<i64>) {
    let pm = previous_month(y, m);
    if p == "last_month"@ {
        (Some(utc_midnight(pm.0, pm.1, 1)), Some(utc_midnight(y, m, 1)))
    } else if p == "current_month"@ {
        (Some(utc_midnight(y, m, 1)), None)
    } else if p == "last_year"@ {
        (Some(utc_midnight((y - 1) as i32, 1, 1)), Some(utc_midnight(y, 1, 1)))
    } else if p == "current_year"@ {
        (Some(utc_midnight(y, 1, 1)), None)
    } else {
        (None, None)
    }
}

/// The bounds of a period, given the current year and month.
pub fn report_period_bounds(report_period: &str, now_year: i32, now_month: u32) -> (r: (
    Option<i64>,
    Option<i64>,
))
    requires
        valid_month(now_month),
        now_year > i32::MIN,
    ensures
        r == period_bounds(report_period@, now_year, now_month),
{
    if text_eq(report_period, "last_month") {
        (Some(last_month_start(now_year, now_month)), Some(current_month_start(now_year, now_month)))
    } else if text_eq(report_period, "current_month") {
        (Some(current_month_start(now_year, now_month)), None)
    } else if text_eq(report_period, "last_year") {
        (Some(last_year_start(now_year)), Some(current_year_start(now_year)))
    } else if text_eq(report_period, "current_year") {
        (Some(current_year_start(now_year)), None)
    } else {
        (None, None)
    }
}

/// The statistics request for a period: the mode, its base time and the file
/// the result is written to.
pub open spec fn stats_request(p: Seq<char>, y: i32, m: u32) -> (Seq<char>, i64, Seq<char>) {
    let pm = previous_month(y, m);
    if p == "last_month"@ {
        ("monthly"@, utc_midnight(pm.0, pm.1, 1), "reading-stats.last-month.json"@)
    } else if p == "current_month"@ {
        ("monthly"@, utc_midnight(y, m, 1), "reading-stats.current-month.json"@)
    } else if p == "last_year"@ {
        ("annually"@, utc_midnight((y - 1) as i32, 1, 1), "reading-stats.last-year.json"@)
    } else if p == "current_year"@ {
        ("annually"@, utc_midnight(y, 1, 1), "reading-stats.current-year.json"@)
    } else if p == "all"@ {
        ("overall"@, 0, "reading-stats.selected.json"@)
    } else {
        ("annually"@, utc_midnight(y, 1, 1), "reading-stats.current-year.json"@)
    }
}

/// The statistics request for a period, given the current year and month.
pub fn reading_stats_request_for_period(report_period: &str, now_year: i32, now_month: u32) -> (r: (
    &'static str,
    i64,
    &'static str,
))
    requires
        valid_month(now_month),
        now_year > i32::MIN,
    ensures
        (r.0@, r.1, r.2@) == stats_request(report_period@, now_year, now_month),
{
    if text_eq(report_period, "last_month") {
        ("monthly", last_month_start(now_year, now_month), "reading-stats.last-month.json")
    } else if text_eq(report_period, "current_month") {
        ("monthly", current_month_start(now_year, now_month), "reading-stats.current-month.json")
    } else if text_eq(report_period, "last_year") {
        ("annually", last_year_start(now_year), "reading-stats.last-year.json")
    } else if text_eq(report_period, "current_year") {
        ("annually", current_year_start(now_year), "reading-stats.current-year.json")
    } else if text_eq(report_period, "all") {
        ("overall", 0, "reading-stats.selected.json")
    } else {
        ("annually", current_year_start(now_year), "reading-stats.current-year.json")
    }
}

/// A timestamp lies at or after the start and before the end, where given.
pub open spec fn in_period(t: i64, start: Option<i64>, end: Option<i64>) -> bool {
    (match start {
        Some(s) => t >= s,
        None => true,
    }) && (match end {
        Some(e) => t < e,
        None => true,
    })
}

/// Last month and this month meet without a gap or an overlap: no moment
/// lies in both, and every moment from last month's start on lies in one
/// (given that the earlier month starts no later, as calendar dates do).
pub proof fn law_months_meet(now_year: i32, now_month: u32, t: i64)
    requires
        period_bounds("last_month"@, now_year, now_month).0->0 <= period_bounds(
            "current_month"@,
            now_year,
            now_month,
        ).0->0,
    ensures
        ({
            let last = period_bounds("last_month"@, now_year, now_month);
            let this = period_bounds("current_month"@, now_year, now_month);
            &&& !(in_period(t, last.0, last.1) && in_period(t, this.0, this.1))
            &&& (in_period(t, last.0, last.1) || in_period(t, this.0, this.1)) == (t >= last.0->0)
        }),
{
    reveal_strlit("last_month");
    reveal_strlit("current_month");
    assert("current_month"@ != "last_month"@) by {
        assert("current_month"@.len() != "last_month"@.len());
    }
}

/// Last year and this year meet without a gap or an overlap, in the same
/// way.
pub proof fn law_years_meet(now_year: i32, now_month: u32, t: i64)
    requires
        period_bounds("last_year"@, now_year, now_month).0->0 <= period_bounds(
            "current_year"@,
            now_year,
            now_month,
        ).0->0,
    ensures
        ({
            let last = period_bounds("last_year"@, now_year, now_month);
            let this = period_bounds("current_year"@, now_year, now_month);
            &&& !(in_period(t, last.0, last.1) && in_period(t, this.0, this.1))
            &&& (in_period(t, last.0, last.1) || in_period(t, this.0, this.1)) == (t >= last.0->0)
        }),
{
    reveal_strlit("last_month");
    reveal_strlit("current_month");
    reveal_strlit("last_year");
    reveal_strlit("current_year");
    assert("last_year"@ != "last_month"@ && "last_year"@ != "current_month"@) by {
        assert("last_year"@[5] != "last_month"@[5]);
        assert("last_year"@.len() != "current_month"@.len());
    }
    assert("current_year"@ != "last_month"@ && "current_year"@ != "current_month"@
        && "current_year"@ != "last_year"@) by {
        assert("current_year"@[0] != "last_month"@[0]);
        assert("current_year"@[8] != "current_month"@[8]);
        assert("current_year"@.len() != "last_year"@.len());
    }
}

proof fn lemma_step4(a: int)
    ensures
        a / 4 - (a - 1) / 4 == if a % 4 == 0 {
            1int
        } else {
            0int
        },
{
}

proof fn lemma_step100(a: int)
    ensures
        a / 100 - (a - 1) / 100 == if a % 100 == 0 {
            1int
        } else {
            0int
        },
{
}

proof fn lemma_step400(a: int)
    ensures
        a / 400 - (a - 1) / 400 == if a % 400 == 0 {
            1int
        } else {
            0int
        },
{
}

proof fn lemma_jan1(y: int)
    ensures
        days_from_epoch(y + 1, 1, 1) == 365 * y + y / 4 - y / 100 + y / 400 + 306 - 719468,
{
    assert((1int + 9) % 12 == 10);
    assert((153 * 10 + 2) / 5 == 306int);
}

proof fn lemma_leap_count(y: int)
    ensures
        (y / 4 - (y - 1) / 4) - (y / 100 - (y - 1) / 100) + (y / 400 - (y - 1) / 400) == if is_leap_year(y) {
            1int
        } else {
            0int
        },
{
    lemma_step4(y);
    lemma_step100(y);
    lemma_step400(y);
    if y % 100 == 0 {
        assert(y == 4 * (25 * (y / 100)));
    }
    if y % 400 == 0 {
        assert(y == 100 * (4 * (y / 400)));
    }
}

/// A year is 366 days long when it is a leap year, else 365.
proof fn lemma_year_length(y: int)
    ensures
        days_from_epoch(y + 1, 1, 1) - days_from_epoch(y, 1, 1) == if is_leap_year(y) {
            366int
        } else {
            365int
        },
{
    lemma_jan1(y);
    lemma_jan1(y - 1);
    assert(y - 1 + 1 == y);
    lemma_leap_count(y);
}

proof fn lemma_new_year_fits(y: int)
    requires
        -262143 <= y <= 262142,
    ensures
        chrono_utc_midnight(y as i32, 1, 1) == Some((days_from_epoch(y, 1, 1) * 86400) as i64),
        -100_000_000 < days_from_epoch(y, 1, 1) < 100_000_000,
{
    assert(date_exists(y, 1, 1));
}

/// "Last year" is the whole calendar year before the current one, whatever
/// the month: it starts where that year's "current year" started, ends
/// where this year's starts, and lasts 366 days in a leap year, else 365.
pub proof fn law_last_year_is_previous_calendar_year(y: i32, m1: u32, m2: u32)
    requires
        -262142 <= y <= 262142,
    ensures
        period_bounds("last_year"@, y, m1) == period_bounds("last_year"@, y, m2),
        period_bounds("last_year"@, y, m1).0 == period_bounds("current_year"@, (y - 1) as i32, m1).0,
        period_bounds("last_year"@, y, m1).1 == period_bounds("current_year"@, y, m1).0,
        period_bounds("last_year"@, y, m1).1->0 - period_bounds("last_year"@, y, m1).0->0 == 86400 * (
        if is_leap_year(y - 1) {
            366int
        } else {
            365int
        }),
{
    reveal_strlit("last_month");
    reveal_strlit("current_month");
    reveal_strlit("last_year");
    reveal_strlit("current_year");
    assert("last_year"@ != "last_month"@ && "last_year"@ != "current_month"@) by {
        assert("last_year"@[5] != "last_month"@[5]);
        assert("last_year"@.len() != "current_month"@.len());
    }
    assert("current_year"@ != "last_month"@ && "current_year"@ != "current_month"@
        && "current_year"@ != "last_year"@) by {
        assert("current_year"@[0] != "last_month"@[0]);
        assert("current_year"@[8] != "current_month"@[8]);
        assert("current_year"@.len() != "last_year"@.len());
    }
    lemma_new_year_fits(y - 1);
    lemma_new_year_fits(y as int);
    lemma_year_length(y - 1);
}

/// Whether a timestamp lies in a period.
pub fn timestamp_in_period(timestamp: i64, period_start: Option<i64>, period_end: Option<i64>) -> (b:
    bool)
    ensures
        b == in_period(timestamp, period_start, period_end),
{
    let after_start = match period_start {
        Some(start) => timestamp >= start,
        None => true,
    };
    let before_end = match period_end {
        Some(end) => timestamp < end,
        None => true,
    };
    after_start && before_end
}

/// Records that carry the time they were created.
pub trait Stamped: Sized {
    spec fn stamp_spec(&self) -> i64;

    fn stamp(&self) -> (t: i64)
        ensures
            t == self.stamp_spec(),
    ;
}

impl Stamped for Bookmark {
    open spec fn stamp_spec(&self) -> i64 {
        self.create_time
    }

    fn stamp(&self) -> (t: i64) {
        self.create_time
    }
}

impl Stamped for Review {
    open spec fn stamp_spec(&self) -> i64 {
        self.create_time
    }

    fn stamp(&self) -> (t: i64) {
        self.create_time
    }
}

/// The items created inside a period, in their order.
pub open spec fn within_period<T: Stamped>(items: Seq<T>, start: Option<i64>, end: Option<i64>) -> Seq<
    T,
>
    decreases items.len(),
{
    if items.len() == 0 {
        items
    } else {
        let rest = within_period(items.drop_last(), start, end);
        if in_period(items.last().stamp_spec(), start, end) {
            rest.push(items.last())
        } else {
            rest
        }
    }
}

/// Keeps the items created inside a period, in their order; with both sides
/// open every item is kept.
pub fn filter_by_period<T: Stamped>(items: Vec<T>, period_start: Option<i64>, period_end: Option<i64>) -> (r:
    Vec<T>)
    ensures
        r@ == within_period(items@, period_start, period_end),
{
    let ghost all = items@;
    let mut kept: Vec<T> = Vec::new();
    for item in it: items.into_iter()
        invariant
            it.seq() == all,
            kept@ == within_period(it.seq().take(it.index() as int), period_start, period_end),
    {
        let ghost idx = it.index();
        assert(it.seq().take(idx + 1).drop_last() == it.seq().take(idx as int));
        if timestamp_in_period(item.stamp(), period_start, period_end) {
            kept.push(item);
        }
    }
    assert(all.take(all.len() as int) == all);
    kept
}

} // verus!
