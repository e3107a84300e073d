//! Chat histories kept as one JSON line per message in session files named
//! `rollout-<time>-<uuid>.jsonl`, and the small helpers around them.
use crate::config::byte_len;
use crate::system_prompt::{split_lines, split_lines_of};
use crate::tasks::opt_view;
use crate::text::{
    chars_of, is_blank, lemma_texts_push, owned, push_i64, push_str, string_of, text_eq, texts, trim,
    trimmed,
};
use base64::Engine;
use vstd::prelude::*;

verus! {

/// The name of a new session file.
pub fn session_file_name(datetime: &str, uuid: &str) -> (r: String)
    ensures
        r@ == "rollout-"@ + datetime@ + "-"@ + uuid@ + ".jsonl"@,
{
    let mut r = owned("rollout-");
    push_str(&mut r, datetime);
    push_str(&mut r, "-");
    push_str(&mut r, uuid);
    push_str(&mut r, ".jsonl");
    r
}

/// The position of the last `.` of a name after its first character.
pub open spec fn last_dot(name: Seq<char>, j: int) -> Option<int>
    decreases j,
{
    if j <= 1 {
        None
    } else if name[j - 1] == '.' {
        Some(j - 1)
    } else {
        last_dot(name, j - 1)
    }
}

/// `Path::file_stem` of a file name: the name without its last extension
/// (a name that starts with its only dot has none).
pub open spec fn file_stem(name: Seq<char>) -> Seq<char> {
    match last_dot(name, name.len() as int) {
        Some(i) => name.take(i),
        None => name,
    }
}

/// A session's id: its file's stem.
pub fn session_id_of(file_name: &str) -> (r: String)
    ensures
        r@ == file_stem(file_name@),
{
    let v = chars_of(file_name);
    let mut j = v.len();
    while j > 1 && v[j - 1] != '.'
        invariant
            j <= v@.len(),
            v@ == file_name@,
            last_dot(v@, j as int) == last_dot(v@, v@.len() as int),
        decreases j,
    {
        j = j - 1;
    }
    if j <= 1 {
        return owned(file_name);
    }
    let mut r = String::new();
    let mut k: usize = 0;
    while k < j - 1
        invariant
            1 < j <= v@.len(),
            k <= j - 1,
            r@ == v@.take(k as int),
        decreases j - 1 - k,
    {
        assert(v@.take(k + 1) == v@.take(k as int).push(v@[k as int]));
        crate::text::push_char(&mut r, v[k]);
        k = k + 1;
    }
    r
}

/// A new session's id is its file's name without `.jsonl`: what saving
/// the first message returns is what finds the session again.
pub proof fn law_new_session_id(datetime: Seq<char>, uuid: Seq<char>)
    ensures
        file_stem("rollout-"@ + datetime + "-"@ + uuid + ".jsonl"@) == "rollout-"@ + datetime + "-"@ + uuid,
{
    reveal_strlit("rollout-");
    reveal_strlit(".jsonl");
    let x = "rollout-"@ + datetime + "-"@ + uuid;
    let name = x + ".jsonl"@;
    let n: int = x.len() as int;
    assert(name.len() == n + 6);
    assert(name[n + 5] == 'l' && name[n + 4] == 'n' && name[n + 3] == 'o' && name[n + 2] == 's'
        && name[n + 1] == 'j' && name[n] == '.');
    assert(last_dot(name, n + 1) == Some(n));
    assert(last_dot(name, n + 2) == Some(n));
    assert(last_dot(name, n + 3) == Some(n));
    assert(last_dot(name, n + 4) == Some(n));
    assert(last_dot(name, n + 5) == Some(n));
    assert(last_dot(name, n + 6) == Some(n));
    assert(name.take(n) == x);
}

/// `str::get(..n)`: the start of a text that takes exactly `n` bytes, when
/// one does.
pub open spec fn byte_prefix(s: Seq<char>, n: nat) -> Option<Seq<char>> {
    if exists|k: int| 0 <= k <= s.len() && byte_len(#[trigger] s.take(k)) == n {
        Some(s.take(choose|k: int| 0 <= k <= s.len() && byte_len(#[trigger] s.take(k)) == n))
    } else {
        None
    }
}

/// `str::get(..n)`: the first `n` bytes of a text, when they end on a
/// character boundary and the text has that many bytes (the standard
/// library's documentation of `get` with a range). Any two prefixes of one
/// text with the same byte length are the same text, so the choice above
/// is unique.
#[verifier::external_body]
fn get_prefix(s: &str, n: usize) -> (r: Option<String>)
    ensures
        opt_view(r) == byte_prefix(s@, n as nat),
{
    s.get(..n).map(str::to_string)
}

/// The date in a session file's name: the ten bytes after `rollout-`.
pub open spec fn session_date(name: Seq<char>) -> Option<Seq<char>> {
    if name.len() >= 8 && name.take(8) == "rollout-"@ {
        byte_prefix(name.skip(8), 10)
    } else {
        None
    }
}

pub fn date_from_filename(name: &str) -> (r: Option<String>)
    ensures
        opt_view(r) == session_date(name@),
{
    let v = chars_of(name);
    let pre = chars_of("rollout-");
    proof {
        reveal_strlit("rollout-");
    }
    if v.len() >= 8 && crate::text::matches_at(&v, &pre, 0) {
        assert(v@.subrange(0, 8) == v@.take(8));
        let rest = string_of(&crate::text::slice_chars(&v, 8, v.len()));
        assert(v@.subrange(8, v@.len() as int) == v@.skip(8));
        get_prefix(rest.as_str(), 10)
    } else {
        proof {
            if v@.len() >= 8 {
                assert(v@.subrange(0, 8) == v@.take(8));
            }
        }
        None
    }
}

/// The non-blank lines of a session file, trimmed: one message each.
pub open spec fn message_lines(lines: Seq<Seq<char>>) -> Seq<Seq<char>>
    decreases lines.len(),
{
    if lines.len() == 0 {
        Seq::empty()
    } else {
        let rest = message_lines(lines.drop_last());
        if trim(lines.last()).len() == 0 {
            rest
        } else {
            rest.push(trim(lines.last()))
        }
    }
}

pub fn session_message_lines(content: &str) -> (r: Vec<String>)
    ensures
        texts(r@) == message_lines(split_lines(content@)),
{
    let lines = split_lines_of(content);
    let mut r: Vec<String> = Vec::new();
    for i in 0..lines.len()
        invariant
            texts(lines@) == split_lines(content@),
            texts(r@) == message_lines(texts(lines@).take(i as int)),
    {
        assert(texts(lines@).take(i + 1).drop_last() == texts(lines@).take(i as int));
        assert(texts(lines@).take(i + 1).last() == lines@[i as int]@);
        if !is_blank(lines[i].as_str()) {
            let ghost old_r = r@;
            let t = trimmed(lines[i].as_str());
            r.push(t);
            proof {
                lemma_texts_push(old_r, t);
            }
        }
    }
    assert(texts(lines@).take(lines@.len() as int) == texts(lines@));
    r
}

/// The first session (in the given order) whose file has this id.
pub open spec fn find_session(names: Seq<Seq<char>>, id: Seq<char>) -> Option<int>
    decreases names.len(),
{
    if names.len() == 0 {
        None
    } else if file_stem(names[0]) == id {
        Some(0)
    } else {
        match find_session(names.drop_first(), id) {
            Some(k) => Some(k + 1),
            None => None,
        }
    }
}

pub fn find_session_file(names: &Vec<String>, id: &str) -> (r: Option<usize>)
    ensures
        match find_session(texts(names@), id@) {
            Some(k) => r == Some(k as usize),
            None => r is None,
        },
{
    let n = names.len();
    let mut i: usize = 0;
    assert(texts(names@).skip(0) == texts(names@));
    while i < n
        invariant
            i <= n == names@.len(),
            find_session(texts(names@), id@) == match find_session(texts(names@).skip(i as int), id@) {
                Some(k) => Some(k + i),
                None => None,
            },
        decreases n - i,
    {
        let ghost rest = texts(names@).skip(i as int);
        assert(rest[0] == names@[i as int]@);
        assert(rest.drop_first() == texts(names@).skip(i + 1));
        let stem = session_id_of(names[i].as_str());
        if text_eq(stem.as_str(), id) {
            return Some(i);
        }
        i = i + 1;
    }
    None
}

/// The session a history is loaded from: the one named, else the most
/// recent (the first of the files, newest first).
pub open spec fn session_to_load(names: Seq<Seq<char>>, id: Option<Seq<char>>) -> Option<int> {
    match id {
        Some(i) if i.len() > 0 => find_session(names, i),
        _ => if names.len() > 0 {
            Some(0)
        } else {
            None
        },
    }
}

pub fn pick_session_to_load(names: &Vec<String>, id: Option<&str>) -> (r: Option<usize>)
    ensures
        match session_to_load(texts(names@), crate::templates::opt_str_view(id)) {
            Some(k) => r == Some(k as usize),
            None => r is None,
        },
{
    match id {
        Some(i) => if chars_of(i).len() > 0 {
            return find_session_file(names, i);
        },
        None => {},
    }
    if names.len() > 0 {
        Some(0)
    } else {
        None
    }
}

/// The session a message is saved to: the one named when its file is
/// found; `None` for a new session.
pub open spec fn session_to_save(names: Seq<Seq<char>>, id: Seq<char>) -> Option<int> {
    if id.len() == 0 {
        None
    } else {
        find_session(names, id)
    }
}

pub fn pick_session_to_save(names: &Vec<String>, id: &str) -> (r: Option<usize>)
    ensures
        match session_to_save(texts(names@), id@) {
            Some(k) => r == Some(k as usize),
            None => r is None,
        },
{
    if chars_of(id).len() == 0 {
        return None;
    }
    find_session_file(names, id)
}

/// Files newest first: no file listed was changed before one after it.
pub open spec fn newest_first_order(times: Seq<u64>, order: Seq<int>) -> bool {
    &&& order.len() == times.len()
    &&& forall|a: int| 0 <= a < order.len() ==> 0 <= #[trigger] order[a] < times.len()
    &&& forall|a: int, b: int| 0 <= a < b < order.len() ==> order[a] != order[b]
    &&& forall|a: int, b: int|
        0 <= a < b < order.len() ==> times[#[trigger] order[a]] >= times[#[trigger] order[b]]
}

/// The order of session files by their modification times, newest first;
/// files changed at the same time keep their order.
pub fn order_newest_first(times: &Vec<u64>) -> (order: Vec<usize>)
    ensures
        newest_first_order(times@, order@.map_values(|k: usize| k as int)),
        forall|a: int, b: int|
            0 <= a < b < order@.len() && times@[order@[a] as int] == times@[order@[b] as int] ==> order@[a]
                < order@[b],
{
    let n = times.len();
    let mut order: Vec<usize> = Vec::new();
    for i in 0..n
        invariant
            n == times@.len(),
            order@.len() == i,
            forall|a: int| 0 <= a < i ==> (#[trigger] order@[a]) < i,
            forall|a: int, b: int| 0 <= a < b < i ==> order@[a] != order@[b],
            forall|a: int, b: int|
                0 <= a < b < i ==> times@[#[trigger] order@[a] as int] >= times@[#[trigger] order@[b] as int],
            forall|a: int, b: int|
                0 <= a < b < i && times@[order@[a] as int] == times@[order@[b] as int] ==> order@[a]
                    < order@[b],
    {
        let t = times[i];
        let mut p: usize = 0;
        while p < order.len() && times[order[p]] >= t
            invariant
                n == times@.len(),
                order@.len() == i,
                p <= i,
                i < n,
                forall|a: int| 0 <= a < i ==> (#[trigger] order@[a]) < i,
                forall|a: int| 0 <= a < p ==> times@[#[trigger] order@[a] as int] >= t,
                t == times@[i as int],
            decreases i - p,
        {
            p = p + 1;
        }
        let ghost before = order@;
        order.insert(p, i);
        proof {
            let s = order@;
            assert forall|a: int| 0 <= a < i + 1 implies (#[trigger] s[a]) < i + 1 by {
                if a < p {
                    assert(s[a] == before[a]);
                } else if a > p {
                    assert(s[a] == before[a - 1]);
                }
            }
            assert forall|a: int, b: int| 0 <= a < b < i + 1 implies s[a] != s[b] by {
                if a < p && b < p {
                    assert(s[a] == before[a] && s[b] == before[b]);
                } else if a < p && b == p {
                    assert(s[a] == before[a]);
                } else if a < p {
                    assert(s[a] == before[a] && s[b] == before[b - 1]);
                } else if a == p {
                    assert(s[b] == before[b - 1]);
                } else {
                    assert(s[a] == before[a - 1] && s[b] == before[b - 1]);
                }
            }
            assert forall|a: int, b: int|
                0 <= a < b < i + 1 implies times@[#[trigger] s[a] as int] >= times@[#[trigger] s[b] as int] by {
                if a < p && b < p {
                    assert(s[a] == before[a] && s[b] == before[b]);
                } else if a < p && b == p {
                    assert(s[a] == before[a]);
                } else if a < p {
                    assert(s[a] == before[a] && s[b] == before[b - 1]);
                } else if a == p {
                    assert(s[b] == before[b - 1]);
                    if p < i {
                        assert(times@[before[p as int] as int] < t);
                        if b - 1 > p {
                            assert(times@[before[p as int] as int] >= times@[before[b - 1] as int]);
                        }
                    }
                } else {
                    assert(s[a] == before[a - 1] && s[b] == before[b - 1]);
                }
            }
            assert forall|a: int, b: int|
                0 <= a < b < i + 1 && times@[s[a] as int] == times@[s[b] as int] implies s[a] < s[b] by {
                if a < p && b < p {
                    assert(s[a] == before[a] && s[b] == before[b]);
                } else if a < p && b == p {
                    assert(s[a] == before[a]);
                } else if a < p {
                    assert(s[a] == before[a] && s[b] == before[b - 1]);
                } else if a == p {
                    assert(s[b] == before[b - 1]);
                    if p < i {
                        assert(times@[before[p as int] as int] < t);
                        if b - 1 > p {
                            assert(times@[before[p as int] as int] >= times@[before[b - 1] as int]);
                        }
                    }
                } else {
                    assert(s[a] == before[a - 1] && s[b] == before[b - 1]);
                }
            }
        }
    }
    proof {
        let o = order@.map_values(|k: usize| k as int);
        assert forall|a: int, b: int| 0 <= a < b < o.len() implies o[a] != o[b] by {
            assert(order@[a] != order@[b]);
        }
        assert forall|a: int, b: int| 0 <= a < b < o.len() implies times@[#[trigger] o[a]] >= times@[#[trigger] o[b]] by {
            assert(times@[order@[a] as int] >= times@[order@[b] as int]);
        }
    }
    order
}

/// The link that opens a book (at a chapter, when one is given) in the
/// WeRead app.
pub fn weread_url(book_id: &str, chapter_uid: Option<i64>) -> (r: String)
    ensures
        r@ == "weread://reading?bId="@ + book_id@ + match chapter_uid {
            Some(c) => "&chapterUid="@ + crate::text::int_decimal(c as int),
            None => Seq::empty(),
        },
{
    let mut r = owned("weread://reading?bId=");
    push_str(&mut r, book_id);
    match chapter_uid {
        Some(c) => {
            push_str(&mut r, "&chapterUid=");
            push_i64(&mut r, c);
        },
        None => {},
    }
    r
}

/// The bytes base64 text stands for under the standard alphabet with
/// padding, when it is valid.
pub uninterp spec fn standard_base64_decoding(text: Seq<char>) -> Option<Seq<u8>>;

/// `base64::engine::general_purpose::STANDARD.decode`: the decoded bytes,
/// or the error's text. Decoding depends on the text alone, so its result
/// is named; what the error's text says is not stated.
#[verifier::external_body]
fn decode_base64(text: &str) -> (r: Result<Vec<u8>, String>)
    ensures
        match standard_base64_decoding(text@) {
            Some(b) => r matches Ok(v) && v@ == b,
            None => r is Err,
        },
{
    base64::engine::general_purpose::STANDARD.decode(text).map_err(|e| e.to_string())
}

pub const BAD_IMAGE_DATA: &'static str = "图片数据格式不正确";

pub const IMAGE_DECODE_FAILED: &'static str = "图片数据解码失败: ";

/// The base64 part of a data URL: what follows its first comma.
pub open spec fn data_url_payload(url: Seq<char>) -> Option<Seq<char>> {
    match crate::text::find_from(url, seq![','], 0) {
        Some(k) => Some(url.skip(k + 1)),
        None => None,
    }
}

proof fn lemma_found_occurs(s: Seq<char>, p: Seq<char>, i: int)
    ensures
        crate::text::find_from(s, p, i) matches Some(k) ==> crate::text::occurs_at(s, p, k),
    decreases s.len() + 1 - i,
{
    if !(i < 0 || i + p.len() > s.len()) && !crate::text::occurs_at(s, p, i) {
        lemma_found_occurs(s, p, i + 1);
    }
}

/// The image bytes of a data URL, when it has a comma and valid base64
/// after it; otherwise why not.
pub fn image_bytes_from_data_url(data_url: &str) -> (r: Result<Vec<u8>, String>)
    ensures
        match data_url_payload(data_url@) {
            None => r matches Err(e) && e@ == BAD_IMAGE_DATA@,
            Some(p) => match standard_base64_decoding(p) {
                Some(b) => r matches Ok(v) && v@ == b,
                None => r matches Err(e) && e@.len() >= IMAGE_DECODE_FAILED@.len() && e@.take(
                    IMAGE_DECODE_FAILED@.len() as int,
                ) == IMAGE_DECODE_FAILED@,
            },
        },
{
    let v = chars_of(data_url);
    let mut comma: Vec<char> = Vec::new();
    comma.push(',');
    assert(comma@ == seq![',']);
    let k = match crate::text::find_chars(&v, &comma, 0) {
        Some(k) => k,
        None => return Err(owned(BAD_IMAGE_DATA)),
    };
    proof {
        lemma_found_occurs(v@, comma@, 0);
        assert(crate::text::occurs_at(v@, comma@, k as int));
        assert(comma@.len() == 1);
    }
    assert(k < v.len());
    let payload = string_of(&crate::text::slice_chars(&v, k + 1, v.len()));
    assert(v@.subrange(k + 1, v@.len() as int) == v@.skip(k + 1));
    match decode_base64(payload.as_str()) {
        Ok(bytes) => Ok(bytes),
        Err(e) => {
            let mut m = owned(IMAGE_DECODE_FAILED);
            let ghost head = m@;
            push_str(&mut m, e.as_str());
            assert(m@.take(head.len() as int) == head);
            Err(m)
        },
    }
}

} // verus!
