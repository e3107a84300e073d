//! Saving and previewing HTML reports: the checks before writing, and the
//! small local web server that shows a report in the browser.
use crate::filenames::{safe_name, safe_report_file_name};
use crate::text::{
    char_is_ws, chars_of, is_blank, is_ws, line_end, line_end_of, owned, push_char, push_str, push_u64,
    slice_chars, string_of, text_eq, trim,
};
use vstd::prelude::*;

verus! {

pub const NO_EXPORT_DIR: &'static str = "请选择导出目录";

pub const EMPTY_REPORT_EXPORT: &'static str = "报告内容为空，无法导出";

pub const EMPTY_REPORT_PREVIEW: &'static str = "报告内容为空，无法预览";

/// An export needs a chosen folder.
pub fn check_output_dir(output_dir: &str) -> (r: Result<(), String>)
    ensures
        trim(output_dir@).len() == 0 ==> (r matches Err(e) && e@ == NO_EXPORT_DIR@),
        trim(output_dir@).len() > 0 ==> r is Ok,
{
    if is_blank(output_dir) {
        return Err(owned(NO_EXPORT_DIR));
    }
    Ok(())
}

/// A report is saved only into a chosen folder, and only when it has content.
pub fn check_report_export(output_dir: &str, html: &str) -> (r: Result<(), String>)
    ensures
        trim(output_dir@).len() == 0 ==> (r matches Err(e) && e@ == NO_EXPORT_DIR@),
        trim(output_dir@).len() > 0 && trim(html@).len() == 0 ==> (r matches Err(e) && e@
            == EMPTY_REPORT_EXPORT@),
        trim(output_dir@).len() > 0 && trim(html@).len() > 0 ==> r is Ok,
{
    if is_blank(output_dir) {
        return Err(owned(NO_EXPORT_DIR));
    }
    if is_blank(html) {
        return Err(owned(EMPTY_REPORT_EXPORT));
    }
    Ok(())
}

/// A report is previewed only when it has content.
pub fn check_report_preview(html: &str) -> (r: Result<(), String>)
    ensures
        trim(html@).len() == 0 ==> (r matches Err(e) && e@ == EMPTY_REPORT_PREVIEW@),
        trim(html@).len() > 0 ==> r is Ok,
{
    if is_blank(html) {
        return Err(owned(EMPTY_REPORT_PREVIEW));
    }
    Ok(())
}

/// The file a report is previewed from: its safe title and `.html`.
pub fn preview_file_name(title: &str) -> (r: String)
    ensures
        r@ == safe_name(title@, "阅读报告"@) + ".html"@,
{
    let mut r = safe_report_file_name(title);
    push_str(&mut r, ".html");
    r
}

/// The words of a text and whether the last one is still open
/// (`str::split_whitespace`, built from the text's end).
pub open spec fn word_state(s: Seq<char>) -> (Seq<Seq<char>>, bool)
    decreases s.len(),
{
    if s.len() == 0 {
        (Seq::empty(), false)
    } else {
        let (w, open) = word_state(s.drop_last());
        let c = s.last();
        if is_ws(c) {
            (w, false)
        } else if open {
            (w.update(w.len() - 1, w.last().push(c)), true)
        } else {
            (w.push(seq![c]), true)
        }
    }
}

pub open spec fn words(s: Seq<char>) -> Seq<Seq<char>> {
    word_state(s).0
}

proof fn lemma_word_state_open(s: Seq<char>)
    ensures
        word_state(s).1 ==> word_state(s).0.len() > 0,
    decreases s.len(),
{
    if s.len() > 0 {
        lemma_word_state_open(s.drop_last());
    }
}

fn words_of(s: &str) -> (r: Vec<Vec<char>>)
    ensures
        r@.len() == words(s@).len(),
        forall|k: int| 0 <= k < r@.len() ==> (#[trigger] r@[k])@ == words(s@)[k],
{
    let v = chars_of(s);
    let mut out: Vec<Vec<char>> = Vec::new();
    let mut open = false;
    for i in 0..v.len()
        invariant
            v@ == s@,
            out@.len() == word_state(v@.take(i as int)).0.len(),
            forall|k: int| 0 <= k < out@.len() ==> (#[trigger] out@[k])@ == word_state(v@.take(i as int)).0[k],
            open == word_state(v@.take(i as int)).1,
    {
        assert(v@.take(i + 1).drop_last() == v@.take(i as int));
        assert(v@.take(i + 1).last() == v@[i as int]);
        proof {
            lemma_word_state_open(v@.take(i as int));
        }
        let c = v[i];
        if char_is_ws(c) {
            open = false;
        } else if open {
            let last = out.len() - 1;
            let mut w = out.pop().unwrap();
            w.push(c);
            out.push(w);
            assert(out@.len() == last + 1);
        } else {
            let mut w: Vec<char> = Vec::new();
            w.push(c);
            assert(w@ == seq![c]);
            out.push(w);
            open = true;
        }
    }
    assert(v@.take(v@.len() as int) == v@);
    out
}

/// The path a request line asks for: its second word, when the first is
/// `GET` or `HEAD`.
pub open spec fn request_path(line: Seq<char>) -> Option<Seq<char>> {
    let w = words(line);
    if w.len() >= 2 && (w[0] == "GET"@ || w[0] == "HEAD"@) {
        Some(w[1])
    } else {
        None
    }
}

pub fn parse_report_preview_request_path(line: &str) -> (r: Option<String>)
    ensures
        match request_path(line@) {
            Some(p) => r matches Some(x) && x@ == p,
            None => r is None,
        },
{
    let w = words_of(line);
    if w.len() < 2 {
        return None;
    }
    let method = string_of(&w[0]);
    if !(text_eq(method.as_str(), "GET") || text_eq(method.as_str(), "HEAD")) {
        return None;
    }
    Some(string_of(&w[1]))
}

/// How the preview server answers a request.
pub enum PreviewRoute {
    /// 400: no request line it understands.
    BadRequest,
    /// 404: not a report address.
    NotFound,
    /// The report registered under this token.
    Report { token: String },
}

pub const REPORT_PREFIX: &'static str = "/report/";

/// The answer to a request: its first line's path, when it is one, and the
/// token after `/report/` in it.
pub open spec fn route_of(request: Seq<char>) -> Option<Option<Seq<char>>> {
    match request_path(request.take(line_end(request, 0))) {
        None => None,
        Some(p) => if p.len() >= REPORT_PREFIX@.len() && p.take(REPORT_PREFIX@.len() as int)
            == REPORT_PREFIX@ {
            Some(Some(p.skip(REPORT_PREFIX@.len() as int)))
        } else {
            Some(None)
        },
    }
}

pub fn preview_route(request: &str) -> (r: PreviewRoute)
    ensures
        match route_of(request@) {
            None => r is BadRequest,
            Some(None) => r is NotFound,
            Some(Some(t)) => r matches PreviewRoute::Report { token } && token@ == t,
        },
{
    let v = chars_of(request);
    proof {
        crate::text::lemma_line_end_bounds(v@, 0);
    }
    let e = line_end_of(&v, 0);
    let first = string_of(&slice_chars(&v, 0, e));
    assert(first@ == request@.take(line_end(request@, 0)));
    let path = match parse_report_preview_request_path(first.as_str()) {
        Some(p) => p,
        None => return PreviewRoute::BadRequest,
    };
    let p = chars_of(path.as_str());
    let pre = chars_of(REPORT_PREFIX);
    proof {
        reveal_strlit("/report/");
    }
    if p.len() >= pre.len() && crate::text::matches_at(&p, &pre, 0) {
        assert(p@.subrange(0, pre@.len() as int) == p@.take(pre@.len() as int));
        let token = string_of(&slice_chars(&p, pre.len(), p.len()));
        assert(p@.subrange(pre@.len() as int, p@.len() as int) == p@.skip(pre@.len() as int));
        PreviewRoute::Report { token }
    } else {
        proof {
            if p@.len() >= pre@.len() {
                assert(p@.subrange(0, pre@.len() as int) == p@.take(pre@.len() as int));
            }
        }
        PreviewRoute::NotFound
    }
}

proof fn lemma_words_append_word(a: Seq<char>, b: Seq<char>)
    requires
        b.len() > 0,
        forall|k: int| 0 <= k < b.len() ==> !is_ws(#[trigger] b[k]),
    ensures
        word_state(a + b) == (if word_state(a).1 {
            (word_state(a).0.update(word_state(a).0.len() - 1, word_state(a).0.last() + b), true)
        } else {
            (word_state(a).0.push(b), true)
        }),
    decreases b.len(),
{
    lemma_word_state_open(a);
    let s = a + b;
    assert(s.drop_last() =~= a + b.drop_last());
    assert(s.last() == b.last());
    if b.len() == 1 {
        assert(a + b.drop_last() =~= a);
        assert(b =~= seq![b[0]]);
        if word_state(a).1 {
            assert(word_state(a).0.last().push(b[0]) =~= word_state(a).0.last() + b);
        }
    } else {
        lemma_words_append_word(a, b.drop_last());
        let (w, open) = word_state(a);
        if open {
            let w1 = w.update(w.len() - 1, w.last() + b.drop_last());
            assert(w1.last() == w.last() + b.drop_last());
            assert((w.last() + b.drop_last()).push(b.last()) =~= w.last() + b);
            assert(w1.update(w1.len() - 1, w1.last().push(b.last())) =~= w.update(w.len() - 1, w.last() + b));
        } else {
            let w1 = w.push(b.drop_last());
            assert(b.drop_last().push(b.last()) =~= b);
            assert(w1.last() == b.drop_last());
            assert(w1.update(w1.len() - 1, w1.last().push(b.last())) =~= w.push(b));
        }
    }
}

proof fn lemma_words_append_space(a: Seq<char>, c: char)
    requires
        is_ws(c),
    ensures
        word_state(a + seq![c]) == (word_state(a).0, false),
{
    assert((a + seq![c]).drop_last() =~= a);
}

proof fn lemma_line_end_at(s: Seq<char>, i: int, j: int)
    requires
        0 <= i <= j < s.len(),
        s[j] == '\n',
        forall|k: int| i <= k < j ==> s[k] != '\n',
    ensures
        line_end(s, i) == j,
    decreases j - i,
{
    if i < j {
        lemma_line_end_at(s, i + 1, j);
    }
}

/// What the preview server answers the request a browser sends for an
/// address it handed out: the report registered under the token (a token
/// has no whitespace, as the ones made from a time and a counter).
pub proof fn law_handed_out_address_is_served(token: Seq<char>, rest: Seq<char>)
    requires
        forall|k: int| 0 <= k < token.len() ==> !is_ws(#[trigger] token[k]),
    ensures
        route_of("GET /report/"@ + token + " HTTP/1.1\r\n"@ + rest) == Some(Some(token)),
{
    reveal_strlit("GET /report/");
    reveal_strlit(" HTTP/1.1\r\n");
    reveal_strlit("GET");
    reveal_strlit("HEAD");
    reveal_strlit("/report/");
    let path = "/report/"@ + token;
    let request = "GET /report/"@ + token + " HTTP/1.1\r\n"@ + rest;
    let first = "GET /report/"@ + token + " HTTP/1.1\r"@;
    reveal_strlit(" HTTP/1.1\r");
    let n: int = first.len() as int;
    assert forall|k: int| 0 <= k < n implies request[k] != '\n' by {
        assert(request[k] == first[k]);
        if 12 <= k < 12 + token.len() {
            assert(first[k] == token[k - 12]);
        }
    }
    assert(request[n] == '\n');
    lemma_line_end_at(request, 0, n);
    assert(request.take(n) =~= first);
    let get = "GET"@;
    let http = "HTTP/1.1"@;
    reveal_strlit("HTTP/1.1");
    assert forall|k: int| 0 <= k < get.len() implies !is_ws(#[trigger] get[k]) by {}
    assert forall|k: int| 0 <= k < http.len() implies !is_ws(#[trigger] http[k]) by {}
    assert forall|k: int| 0 <= k < path.len() implies !is_ws(#[trigger] path[k]) by {
        if k >= 8 {
            assert(path[k] == token[k - 8]);
        }
    }
    let e = Seq::<char>::empty();
    lemma_words_append_word(e, get);
    assert(e + get =~= get);
    lemma_words_append_space(get, ' ');
    lemma_words_append_word(get + seq![' '], path);
    let s3 = get + seq![' '] + path;
    lemma_words_append_space(s3, ' ');
    lemma_words_append_word(s3 + seq![' '], http);
    let s5 = s3 + seq![' '] + http;
    lemma_words_append_space(s5, '\r');
    assert(first =~= s5 + seq!['\r']);
    let w = words(first);
    assert(w =~= seq![get, path, http]);
    assert(path.take(8) =~= "/report/"@);
    assert(path.skip(8) =~= token);
}

/// The reason phrase of a status the server sends.
pub open spec fn reason_phrase(status: u16) -> Seq<char> {
    if status == 200 {
        "OK"@
    } else if status == 400 {
        "Bad Request"@
    } else if status == 404 {
        "Not Found"@
    } else {
        "Error"@
    }
}

/// The head of an HTTP answer: status line, content type and length, no
/// caching, and the connection closed after it.
pub open spec fn response_head(status: u16, content_type: Seq<char>, length: nat) -> Seq<char> {
    "HTTP/1.1 "@ + crate::text::nat_decimal(status as nat) + " "@ + reason_phrase(status)
        + "\r\nContent-Type: "@ + content_type + "\r\nContent-Length: "@ + crate::text::nat_decimal(
        length,
    ) + "\r\nCache-Control: no-store\r\nConnection: close\r\n\r\n"@
}

pub fn http_response_head(status: u16, content_type: &str, body_len: usize) -> (r: String)
    ensures
        r@ == response_head(status, content_type@, body_len as nat),
{
    let reason = if status == 200 {
        "OK"
    } else if status == 400 {
        "Bad Request"
    } else if status == 404 {
        "Not Found"
    } else {
        "Error"
    };
    let mut r = owned("HTTP/1.1 ");
    push_u64(&mut r, status as u64);
    push_str(&mut r, " ");
    push_str(&mut r, reason);
    push_str(&mut r, "\r\nContent-Type: ");
    push_str(&mut r, content_type);
    push_str(&mut r, "\r\nContent-Length: ");
    push_u64(&mut r, body_len as u64);
    push_str(&mut r, "\r\nCache-Control: no-store\r\nConnection: close\r\n\r\n");
    r
}

/// A preview token: the time in milliseconds and a counter, joined by `-`.
pub fn preview_token(millis: u64, counter: u64) -> (r: String)
    ensures
        r@ == crate::text::nat_decimal(millis as nat) + "-"@ + crate::text::nat_decimal(counter as nat),
{
    let mut r = String::new();
    push_u64(&mut r, millis);
    push_str(&mut r, "-");
    push_u64(&mut r, counter);
    r
}

/// The address a registered report is shown at.
pub fn preview_url(base_url: &str, token: &str) -> (r: String)
    ensures
        r@ == base_url@ + "/report/"@ + token@,
{
    let mut r = owned(base_url);
    push_str(&mut r, "/report/");
    push_str(&mut r, token);
    r
}

} // verus!
