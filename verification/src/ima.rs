//! The ima knowledge base: its credentials, reading its answers, paging
//! through the user's own knowledge bases, and syncing books' notes into one.
use crate::cache::{fnv, fnv1a64, hex16, hex_digits};
use crate::json::{as_array, as_bool, as_i64, as_str, get, get_any, Json};
use crate::tasks::opt_view;
use crate::text::{
    all_digits, begins_with, chars_of, decimal_value, is_blank, is_digit, lemma_decimal_value_grows, nat_decimal,
    owned, push_char, push_chars, push_str, push_u64, slice_chars, starts_with, string_of, text_eq,
    trim, trim_chars, trim_start, trimmed,
};
use crate::markdown::{build_markdown, markdown_text, ExportBook};
use crate::types::{AppConfig, ExportOptions, NotebookBook};
use crate::weread::head;
use vstd::prelude::*;
use vstd::string::StringSliceAdditionalSpecFns;

verus! {

/// A knowledge base the user may sync into.
#[derive(Clone, Debug)]
pub struct ImaKnowledgeBaseOption {
    pub id: String,
    pub name: String,
}

/// A page of the user's knowledge bases.
pub struct ImaKnowledgeBasePage {
    pub items: Vec<ImaKnowledgeBaseOption>,
    pub next_cursor: Option<String>,
    pub is_end: bool,
}

/// The outcome of testing the ima connection.
pub struct ImaConnectionTestResult {
    pub ok: bool,
    pub message: String,
    pub knowledge_bases: Vec<ImaKnowledgeBaseOption>,
}

/// The credentials of the ima open API.
pub struct ImaCredentials {
    pub client_id: String,
    pub api_key: String,
}

pub const NO_IMA_CLIENT_ID: &'static str = "请先配置 ima Client ID";

pub const NO_IMA_API_KEY: &'static str = "请先配置 ima API Key";

/// The settings' value trimmed, when it is not blank.
pub open spec fn set_value(o: Option<String>) -> Option<Seq<char>> {
    match o {
        Some(s) => if trim(s@).len() > 0 {
            Some(trim(s@))
        } else {
            None
        },
        None => None,
    }
}

fn set_value_of(o: &Option<String>) -> (r: Option<String>)
    ensures
        opt_view(r) == set_value(*o),
{
    match o {
        Some(s) => {
            let t = trimmed(s.as_str());
            if is_blank(s.as_str()) {
                None
            } else {
                Some(t)
            }
        },
        None => None,
    }
}

/// The ima credentials of the settings, trimmed; the client id is needed
/// first, then the key.
pub fn ima_credentials(config: &AppConfig) -> (r: Result<ImaCredentials, String>)
    ensures
        match (set_value(config.ima_client_id), set_value(config.ima_api_key)) {
            (Some(id), Some(key)) => r matches Ok(c) && c.client_id@ == id && c.api_key@ == key,
            (None, _) => r matches Err(e) && e@ == NO_IMA_CLIENT_ID@,
            (Some(_), None) => r matches Err(e) && e@ == NO_IMA_API_KEY@,
        },
{
    let client_id = match set_value_of(&config.ima_client_id) {
        Some(v) => v,
        None => return Err(owned(NO_IMA_CLIENT_ID)),
    };
    let api_key = match set_value_of(&config.ima_api_key) {
        Some(v) => v,
        None => return Err(owned(NO_IMA_API_KEY)),
    };
    Ok(ImaCredentials { client_id, api_key })
}

/// The endpoint of an ima call.
pub fn ima_url(base_path: &str, path: &str) -> (r: String)
    ensures
        r@ == "https://ima.qq.com/"@ + base_path@ + "/"@ + path@,
{
    let mut r = owned("https://ima.qq.com/");
    push_str(&mut r, base_path);
    push_str(&mut r, "/");
    push_str(&mut r, path);
    r
}

/// The error for an ima answer with an HTTP status other than 200,
/// quoting the first 400 characters of its body.
pub open spec fn ima_status_error(status: u16, body: Seq<char>) -> Option<Seq<char>> {
    if status == 200 {
        None
    } else if status == 401 || status == 403 {
        Some("ima 连接失败：Client ID 或 API Key 无效，或当前账号没有权限。响应："@ + head(body, 400))
    } else {
        Some("ima 请求失败 (HTTP "@ + nat_decimal(status as nat) + ")："@ + head(body, 400))
    }
}

/// Whether an ima answer's HTTP status makes it an error, and which.
pub fn ima_status_error_of(status: u16, body: &str) -> (r: Option<String>)
    ensures
        opt_view(r) == ima_status_error(status, body@),
{
    if status == 200 {
        return None;
    }
    let v = chars_of(body);
    let detail = if v.len() <= 400 {
        v
    } else {
        slice_chars(&v, 0, 400)
    };
    let mut e = if status == 401 || status == 403 {
        owned("ima 连接失败：Client ID 或 API Key 无效，或当前账号没有权限。响应：")
    } else {
        let mut m = owned("ima 请求失败 (HTTP ");
        push_u64(&mut m, status as u64);
        push_str(&mut m, ")：");
        m
    };
    push_chars(&mut e, &detail);
    Some(e)
}

/// What an ima answer says: an error for a non-zero `code` (with its
/// `msg`), else the payload under `data` (or the whole answer).
pub enum ImaPayload<'a> {
    Error { message: String },
    Data { value: &'a Json },
}

/// Reads an ima answer.
pub fn ima_payload(value: &Json) -> (r: ImaPayload)
    ensures
        ({
            let code = match as_i64(get(*value, "code"@)) {
                Some(c) => c,
                None => 0,
            };
            if code != 0 {
                r matches ImaPayload::Error { message } && message@ == "ima 请求失败："@ + match as_str(
                    get(*value, "msg"@),
                ) {
                    Some(m) => m,
                    None => "ima 返回未知错误"@,
                }
            } else {
                r matches ImaPayload::Data { value: d } && *d == match get(*value, "data"@) {
                    Some(x) => x,
                    None => *value,
                }
            }
        }),
{
    let code: i64 = match value.get("code") {
        Some(c) => match c.as_i64() {
            Some(n) => n,
            None => 0,
        },
        None => 0,
    };
    if code != 0 {
        let msg = match value.get("msg") {
            Some(m) => match m.as_str() {
                Some(s) => s,
                None => "ima 返回未知错误",
            },
            None => "ima 返回未知错误",
        };
        let mut e = owned("ima 请求失败：");
        push_str(&mut e, msg);
        return ImaPayload::Error { message: e };
    }
    match value.get("data") {
        Some(d) => ImaPayload::Data { value: d },
        None => ImaPayload::Data { value },
    }
}

// ---------------------------------------------------------------------
// Knowledge bases
// ---------------------------------------------------------------------

/// A knowledge base the user created as a personal one.
pub open spec fn is_personal_created(v: Json) -> bool {
    let role = match as_str(get_any(v, seq!["role_type"@, "roleType"@])) {
        Some(s) => s,
        None => Seq::empty(),
    };
    let base = match as_str(get_any(v, seq!["base_type"@, "baseType"@])) {
        Some(s) => s,
        None => Seq::empty(),
    };
    role == "创建者"@ && base == "个人知识库"@
}

fn text_of_any<'a>(v: &'a Json, keys: &[&str]) -> (r: Option<&'a str>)
    ensures
        crate::templates::opt_str_view(r) == as_str(get_any(*v, keys@.map_values(|k: &str| k@))),
{
    match v.get_any(keys) {
        Some(x) => x.as_str(),
        None => None,
    }
}

/// Whether an entry is a personal knowledge base the user created.
pub fn is_personal_created_knowledge_base(value: &Json) -> (b: bool)
    ensures
        b == is_personal_created(*value),
{
    let role_keys: [&str; 2] = ["role_type", "roleType"];
    let base_keys: [&str; 2] = ["base_type", "baseType"];
    proof {
        assert(role_keys@.map_values(|k: &str| k@) == seq!["role_type"@, "roleType"@]);
        assert(base_keys@.map_values(|k: &str| k@) == seq!["base_type"@, "baseType"@]);
    }
    let role = match text_of_any(value, &role_keys) {
        Some(s) => s,
        None => "",
    };
    let base = match text_of_any(value, &base_keys) {
        Some(s) => s,
        None => "",
    };
    proof {
        reveal_strlit("");
        assert(""@ =~= Seq::<char>::empty());
    }
    text_eq(role, "创建者") && text_eq(base, "个人知识库")
}

/// The id of a knowledge base entry (empty when it has none).
pub open spec fn kb_id(v: Json) -> Seq<char> {
    match as_str(get_any(v, seq!["id"@, "kb_id"@, "knowledge_base_id"@, "knowledgeBaseId"@])) {
        Some(s) => s,
        None => Seq::empty(),
    }
}

/// The name of a knowledge base entry, `未命名知识库` when it has none.
pub open spec fn kb_name(v: Json) -> Seq<char> {
    match as_str(get_any(v, seq!["name"@, "kb_name"@, "title"@])) {
        Some(s) => s,
        None => "未命名知识库"@,
    }
}

/// Reads a knowledge base entry; one without an id is none.
pub fn parse_knowledge_base(value: &Json) -> (r: Option<ImaKnowledgeBaseOption>)
    ensures
        kb_id(*value).len() == 0 ==> r is None,
        kb_id(*value).len() > 0 ==> (r matches Some(kb) && kb.id@ == kb_id(*value) && kb.name@ == kb_name(
            *value,
        )),
{
    let id_keys: [&str; 4] = ["id", "kb_id", "knowledge_base_id", "knowledgeBaseId"];
    let name_keys: [&str; 3] = ["name", "kb_name", "title"];
    proof {
        assert(id_keys@.map_values(|k: &str| k@) == seq![
            "id"@,
            "kb_id"@,
            "knowledge_base_id"@,
            "knowledgeBaseId"@,
        ]);
        assert(name_keys@.map_values(|k: &str| k@) == seq!["name"@, "kb_name"@, "title"@]);
    }
    let id = match text_of_any(value, &id_keys) {
        Some(s) => owned(s),
        None => String::new(),
    };
    if chars_of(id.as_str()).len() == 0 {
        return None;
    }
    let name = match text_of_any(value, &name_keys) {
        Some(s) => owned(s),
        None => owned("未命名知识库"),
    };
    Some(ImaKnowledgeBaseOption { id, name })
}

/// The keys a page of knowledge bases may list them under, in order.
pub open spec fn list_keys() -> Seq<Seq<char>> {
    seq![
        "addable_knowledge_base_list"@,
        "addableKnowledgeBaseList"@,
        "info_list"@,
        "infoList"@,
        "infos"@,
        "knowledge_bases"@,
        "list"@,
        "items"@,
    ]
}

/// The personal knowledge bases the user created among entries, in order.
pub open spec fn own_bases(items: Seq<Json>, r: Seq<ImaKnowledgeBaseOption>) -> bool
    decreases items.len(),
{
    if items.len() == 0 {
        r.len() == 0
    } else if is_personal_created(items.last()) && kb_id(items.last()).len() > 0 {
        r.len() > 0 && r.last().id@ == kb_id(items.last()) && r.last().name@ == kb_name(items.last())
            && own_bases(items.drop_last(), r.drop_last())
    } else {
        own_bases(items.drop_last(), r)
    }
}

/// The cursor of the next page, when there is a non-empty one.
pub open spec fn page_cursor(v: Json) -> Option<Seq<char>> {
    match as_str(get_any(v, seq!["next_cursor"@, "nextCursor"@, "cursor"@])) {
        Some(s) => if s.len() > 0 {
            Some(s)
        } else {
            None
        },
        None => None,
    }
}

/// Reads a page of knowledge bases as ima sends it: the personal ones the
/// user created, the next cursor, and whether it is the last page (as
/// ima says, else when there is no next cursor).
pub fn parse_knowledge_base_network_page(data: &Json) -> (p: ImaKnowledgeBasePage)
    ensures
        match as_array(get_any(*data, list_keys())) {
            Some(items) => own_bases(items, p.items@),
            None => p.items@.len() == 0,
        },
        opt_view(p.next_cursor) == page_cursor(*data),
        p.is_end == match as_bool(get_any(*data, seq!["is_end"@, "isEnd"@])) {
            Some(b) => b,
            None => page_cursor(*data) is None,
        },
{
    let keys: [&str; 8] = [
        "addable_knowledge_base_list",
        "addableKnowledgeBaseList",
        "info_list",
        "infoList",
        "infos",
        "knowledge_bases",
        "list",
        "items",
    ];
    proof {
        assert(keys@.map_values(|k: &str| k@) == list_keys());
    }
    let mut items: Vec<ImaKnowledgeBaseOption> = Vec::new();
    match data.get_any(&keys) {
        Some(list) => match list.as_array() {
            Some(entries) => {
                for i in 0..entries.len()
                    invariant
                        own_bases(entries@.take(i as int), items@),
                {
                    assert(entries@.take(i + 1).drop_last() == entries@.take(i as int));
                    assert(entries@.take(i + 1).last() == entries@[i as int]);
                    let ghost before = items@;
                    if is_personal_created_knowledge_base(&entries[i]) {
                        match parse_knowledge_base(&entries[i]) {
                            Some(kb) => {
                                items.push(kb);
                                assert(items@.drop_last() == before);
                            },
                            None => {},
                        }
                    }
                }
                assert(entries@.take(entries@.len() as int) == entries@);
            },
            None => {},
        },
        None => {},
    }
    let cursor_keys: [&str; 3] = ["next_cursor", "nextCursor", "cursor"];
    let end_keys: [&str; 2] = ["is_end", "isEnd"];
    proof {
        assert(cursor_keys@.map_values(|k: &str| k@) == seq!["next_cursor"@, "nextCursor"@, "cursor"@]);
        assert(end_keys@.map_values(|k: &str| k@) == seq!["is_end"@, "isEnd"@]);
    }
    let next_cursor = match text_of_any(data, &cursor_keys) {
        Some(s) => if chars_of(s).len() > 0 {
            Some(owned(s))
        } else {
            None
        },
        None => None,
    };
    let is_end = match data.get_any(&end_keys) {
        Some(b) => match b.as_bool() {
            Some(v) => v,
            None => next_cursor.is_none(),
        },
        None => next_cursor.is_none(),
    };
    ImaKnowledgeBasePage { items, next_cursor, is_end }
}

/// Paging through ima: go on with the next cursor while there is a
/// non-empty one and the page is not the last; else stop, ending (or not)
/// as the page says.
pub fn next_knowledge_base_cursor(page: &ImaKnowledgeBasePage) -> (r: Result<String, bool>)
    ensures
        match page.next_cursor {
            Some(c) => if c@.len() > 0 && !page.is_end {
                r matches Ok(n) && n@ == c@
            } else {
                r == Err::<String, bool>(page.is_end)
            },
            None => r == Err::<String, bool>(page.is_end),
        },
{
    match &page.next_cursor {
        Some(c) => {
            if chars_of(c.as_str()).len() > 0 && !page.is_end {
                Ok(c.clone())
            } else {
                Err(page.is_end)
            }
        },
        None => Err(page.is_end),
    }
}

/// `str::parse::<usize>`: an optional `+`, then one or more ASCII digits, within range.
pub open spec fn parse_usize(s: Seq<char>) -> Option<usize> {
    let d = if s.len() > 0 && s[0] == '+' {
        s.skip(1)
    } else {
        s
    };
    if d.len() > 0 && all_digits(d) && decimal_value(d) <= usize::MAX {
        Some(decimal_value(d) as usize)
    } else {
        None
    }
}

fn parse_usize_text(t: &str) -> (r: Option<usize>)
    ensures
        r == parse_usize(t@),
{
    let v = chars_of(t);
    let start: usize = if v.len() > 0 && v[0] == '+' {
        1
    } else {
        0
    };
    assert(start == 0 ==> v@.skip(0) == v@);
    let ghost d = v@.skip(start as int);
    let n = v.len();
    if n == start {
        return None;
    }
    let mut i = start;
    let mut acc: usize = 0;
    assert(d.take(0) =~= Seq::<char>::empty());
    while i < n
        invariant
            start <= i <= n == v@.len(),
            d == v@.skip(start as int),
            v@ == t@,
            d == (if t@.len() > 0 && t@[0] == '+' {
                t@.skip(1)
            } else {
                t@
            }),
            d.len() > 0,
            all_digits(d.take(i - start)),
            acc == decimal_value(d.take(i - start)),
        decreases n - i,
    {
        let c = v[i];
        if !('0' <= c && c <= '9') {
            assert(d[i - start] == c);
            assert(!is_digit(d[i - start]));
            return None;
        }
        let dv: usize = (c as u32 - '0' as u32) as usize;
        assert(d.take(i - start + 1).drop_last() == d.take(i - start));
        assert(d.take(i - start + 1).last() == c);
        if acc > (usize::MAX - dv) / 10 {
            proof {
                assert(acc * 10 + dv > usize::MAX) by (nonlinear_arith)
                    requires
                        acc > (usize::MAX - dv) / 10,
                        dv <= 9,
                ;
                assert(decimal_value(d.take(i - start + 1)) == acc * 10 + dv);
                if all_digits(d) {
                    lemma_decimal_value_grows(d, i - start + 1);
                }
            }
            return None;
        }
        assert(acc * 10 + dv <= usize::MAX) by (nonlinear_arith)
            requires
                acc <= (usize::MAX - dv) / 10,
                dv <= 9,
        ;
        acc = acc * 10 + dv;
        i = i + 1;
    }
    assert(d.take(n - start) == d);
    Some(acc)
}

/// The page of the cached list of knowledge bases that a cursor asks for:
/// the cursor is the index to start at (0 when it is not a number), at
/// most `limit` entries follow, and the next cursor is the index after
/// them unless the list ends there.
pub fn slice_cached_knowledge_base_page(page: ImaKnowledgeBasePage, cursor: &str, limit: u32) -> (r:
    ImaKnowledgeBasePage)
    ensures
        ({
            let start: int = match parse_usize(cursor@) {
                Some(s) => s as int,
                None => 0,
            };
            let total = page.items@.len() as int;
            let end = if start + limit >= total {
                total
            } else {
                start + limit
            };
            if limit == 0 {
                r.items@.len() == 0 && r.next_cursor is None && r.is_end
            } else {
                &&& r.items@ == (if start < total {
                    page.items@.subrange(start, end)
                } else {
                    Seq::empty()
                })
                &&& opt_view(r.next_cursor) == (if end < total {
                    Some(nat_decimal(end as nat))
                } else {
                    None
                })
                &&& r.is_end == (end >= total)
            }
        }),
{
    let start: usize = match parse_usize_text(cursor) {
        Some(s) => s,
        None => 0,
    };
    if limit == 0 {
        return ImaKnowledgeBasePage { items: Vec::new(), next_cursor: None, is_end: true };
    }
    let limit = limit as usize;
    let total = page.items.len();
    let end: usize = if start >= total || total - start <= limit {
        total
    } else {
        start + limit
    };
    let mut items: Vec<ImaKnowledgeBaseOption> = Vec::new();
    if start < total {
        let mut k = start;
        while k < end
            invariant
                start <= k <= end <= total == page.items@.len(),
                items@ == page.items@.subrange(start as int, k as int),
            decreases end - k,
        {
            items.push(page.items[k].clone_option());
            assert(page.items@.subrange(start as int, k + 1) == page.items@.subrange(
                start as int,
                k as int,
            ).push(page.items@[k as int]));
            k = k + 1;
        }
    }
    let next_cursor = if end < total {
        let mut c = String::new();
        push_u64(&mut c, end as u64);
        Some(c)
    } else {
        None
    };
    let is_end = next_cursor.is_none();
    ImaKnowledgeBasePage { items, next_cursor, is_end }
}

impl ImaKnowledgeBaseOption {
    /// A field-by-field copy.
    pub fn clone_option(&self) -> (r: ImaKnowledgeBaseOption)
        ensures
            r == *self,
    {
        ImaKnowledgeBaseOption { id: self.id.clone(), name: self.name.clone() }
    }
}

/// The result of testing the connection with the knowledge bases found.
pub fn connection_test_result(knowledge_bases: Vec<ImaKnowledgeBaseOption>) -> (r: ImaConnectionTestResult)
    ensures
        r.ok,
        r.knowledge_bases@ == knowledge_bases@,
        r.message@ == (if knowledge_bases@.len() == 0 {
            "ima 连接成功，但没有找到你自己创建的个人知识库。请先在 ima 中手动创建一个知识库。"@
        } else {
            "ima 连接成功，找到 "@ + nat_decimal(knowledge_bases@.len()) + " 个你自己创建的个人知识库。"@
        }),
{
    let count = knowledge_bases.len();
    let message = if count == 0 {
        owned("ima 连接成功，但没有找到你自己创建的个人知识库。请先在 ima 中手动创建一个知识库。")
    } else {
        let mut m = owned("ima 连接成功，找到 ");
        push_u64(&mut m, count as u64);
        push_str(&mut m, " 个你自己创建的个人知识库。");
        m
    };
    ImaConnectionTestResult { ok: true, message, knowledge_bases }
}

// ---------------------------------------------------------------------
// Notes
// ---------------------------------------------------------------------

/// The id in an answer under one of these keys, when it is non-empty text.
pub open spec fn nonempty_text(v: Json, keys: Seq<Seq<char>>) -> Option<Seq<char>> {
    match as_str(get_any(v, keys)) {
        Some(s) => if s.len() > 0 {
            Some(s)
        } else {
            None
        },
        None => None,
    }
}

pub open spec fn note_id_keys() -> Seq<Seq<char>> {
    seq!["note_id"@, "noteId"@, "content_id"@, "contentId"@]
}

fn nonempty_text_of(v: &Json, keys: &[&str]) -> (r: Option<String>)
    ensures
        opt_view(r) == nonempty_text(*v, keys@.map_values(|k: &str| k@)),
{
    match text_of_any(v, keys) {
        Some(s) => if chars_of(s).len() > 0 {
            Some(owned(s))
        } else {
            None
        },
        None => None,
    }
}

/// The id of a note in an answer.
pub fn parse_note_id(value: &Json) -> (r: Option<String>)
    ensures
        opt_view(r) == nonempty_text(*value, note_id_keys()),
{
    let keys: [&str; 4] = ["note_id", "noteId", "content_id", "contentId"];
    proof {
        assert(keys@.map_values(|k: &str| k@) == note_id_keys());
    }
    nonempty_text_of(value, &keys)
}

/// The id of a knowledge base entry in an answer.
pub fn parse_media_id(value: &Json) -> (r: Option<String>)
    ensures
        opt_view(r) == nonempty_text(*value, seq!["media_id"@, "mediaId"@]),
{
    let keys: [&str; 2] = ["media_id", "mediaId"];
    proof {
        assert(keys@.map_values(|k: &str| k@) == seq!["media_id"@, "mediaId"@]);
    }
    nonempty_text_of(value, &keys)
}

/// The note a search result entry describes: its `note_book_info`, else itself.
pub open spec fn note_of(item: Json) -> Json {
    match get_any(item, seq!["note_book_info"@, "noteBookInfo"@]) {
        Some(n) => n,
        None => item,
    }
}

pub open spec fn note_title(note: Json) -> Seq<char> {
    match as_str(get_any(note, seq!["title"@, "doc_title"@])) {
        Some(s) => s,
        None => Seq::empty(),
    }
}

/// The id of the first found note whose title matches (both trimmed) and
/// that has an id.
pub open spec fn first_matching_note(items: Seq<Json>, title: Seq<char>) -> Option<Seq<char>>
    decreases items.len(),
{
    if items.len() == 0 {
        None
    } else {
        let note = note_of(items[0]);
        if trim(note_title(note)) == trim(title) && nonempty_text(note, note_id_keys()) is Some {
            nonempty_text(note, note_id_keys())
        } else {
            first_matching_note(items.drop_first(), title)
        }
    }
}

pub open spec fn search_list_keys() -> Seq<Seq<char>> {
    seq!["search_note_infos"@, "searchNoteInfos"@, "list"@, "items"@]
}

/// The id of an existing note with this title in a note search's answer.
pub fn parse_note_search_result(data: &Json, expected_title: &str) -> (r: Option<String>)
    ensures
        opt_view(r) == match as_array(get_any(*data, search_list_keys())) {
            Some(items) => first_matching_note(items, expected_title@),
            None => None,
        },
        r matches Some(id) ==> as_array(get_any(*data, search_list_keys())) matches Some(items)
            && exists|k: int|
            0 <= k < items.len() && #[trigger] note_matches(items[k], expected_title@) && nonempty_text(
                note_of(items[k]),
                note_id_keys(),
            ) == Some(id@),
{
    proof {
        if let Some(items) = as_array(get_any(*data, search_list_keys())) {
            law_found_note_has_the_title(items, expected_title@);
        }
    }
    let keys: [&str; 4] = ["search_note_infos", "searchNoteInfos", "list", "items"];
    let note_keys: [&str; 2] = ["note_book_info", "noteBookInfo"];
    let title_keys: [&str; 2] = ["title", "doc_title"];
    proof {
        assert(keys@.map_values(|k: &str| k@) == search_list_keys());
        assert(note_keys@.map_values(|k: &str| k@) == seq!["note_book_info"@, "noteBookInfo"@]);
        assert(title_keys@.map_values(|k: &str| k@) == seq!["title"@, "doc_title"@]);
    }
    let items = match data.get_any(&keys) {
        Some(l) => match l.as_array() {
            Some(items) => items,
            None => return None,
        },
        None => return None,
    };
    let expected = trimmed(expected_title);
    let n = items.len();
    let mut i: usize = 0;
    assert(items@.skip(0) == items@);
    while i < n
        invariant
            n == items@.len(),
            i <= n,
            expected@ == trim(expected_title@),
            as_array(get_any(*data, search_list_keys())) == Some(items@),
            note_keys@.map_values(|k: &str| k@) == seq!["note_book_info"@, "noteBookInfo"@],
            title_keys@.map_values(|k: &str| k@) == seq!["title"@, "doc_title"@],
            first_matching_note(items@.skip(i as int), expected_title@) == first_matching_note(
                items@,
                expected_title@,
            ),
        decreases n - i,
    {
        assert(items@.skip(i as int)[0] == items@[i as int]);
        assert(items@.skip(i as int).drop_first() == items@.skip(i + 1));
        let item = &items[i];
        let note = match item.get_any(&note_keys) {
            Some(x) => x,
            None => item,
        };
        let title = match text_of_any(note, &title_keys) {
            Some(t) => t,
            None => "",
        };
        proof {
            reveal_strlit("");
            assert(""@ =~= Seq::<char>::empty());
        }
        let t = trimmed(title);
        if text_eq(t.as_str(), expected.as_str()) {
            let id = parse_note_id(note);
            if id.is_some() {
                assert(*note == note_of(items@[i as int]));
                assert(note_title(*note) == title@);
                assert(trim(note_title(*note)) == trim(expected_title@));
                assert(note_matches(items@[i as int], expected_title@));
                return id;
            }
        }
        i = i + 1;
    }
    assert(items@.skip(n as int).len() == 0);
    None
}

pub const EMPTY_NOTE: &'static str = "ima 笔记内容为空，无法同步";

/// A note to import must not be empty.
pub fn check_note_content(content: &str) -> (r: Result<(), String>)
    ensures
        content@.len() == 0 ==> (r matches Err(e) && e@ == EMPTY_NOTE@),
        content@.len() > 0 ==> r is Ok,
{
    if chars_of(content).len() == 0 {
        Err(owned(EMPTY_NOTE))
    } else {
        Ok(())
    }
}

/// A hash of the client id for naming the cache of knowledge bases:
/// FNV-1a over its bytes, in sixteen hexadecimal digits.
pub fn fingerprint(value: &str) -> (r: String)
    ensures
        r@ == hex_digits(fnv(value.spec_bytes()) as nat, 16),
{
    hex16(fnv1a64(value.as_bytes()))
}

// ---------------------------------------------------------------------
// Syncing books
// ---------------------------------------------------------------------

/// What to sync into ima.
#[derive(Clone, Debug)]
pub struct ImaSyncOptions {
    pub book_ids: Vec<String>,
    pub include_bookmarks: bool,
    pub include_reviews: bool,
    pub group_by_chapter: bool,
}

/// How syncing one book went.
#[derive(Clone, Debug)]
pub struct ImaSyncBookResult {
    pub book_id: String,
    pub title: String,
    pub status: String,
    pub message: String,
    pub note_id: Option<String>,
    pub media_id: Option<String>,
}

/// How syncing went, with counts by outcome.
pub struct ImaSyncResult {
    pub success_count: usize,
    pub skipped_count: usize,
    pub failed_count: usize,
    pub results: Vec<ImaSyncBookResult>,
}

/// Progress of a sync, as announced to the window.
pub struct ImaSyncProgressPayload {
    pub current: usize,
    pub total: usize,
    pub title: String,
}

pub const NO_SYNC_TARGET: &'static str = "请先选择要同步到的 ima 知识库";

pub const NOTHING_TO_SYNC: &'static str = "没有找到可同步的微信读书笔记";

/// The knowledge base to sync into: the one chosen in the settings.
pub fn sync_target(config: &AppConfig) -> (r: Result<String, String>)
    ensures
        match set_value(config.ima_knowledge_base_id) {
            Some(id) => r matches Ok(t) && t@ == id,
            None => r matches Err(e) && e@ == NO_SYNC_TARGET@,
        },
{
    match set_value_of(&config.ima_knowledge_base_id) {
        Some(id) => Ok(id),
        None => Err(owned(NO_SYNC_TARGET)),
    }
}

/// The books of a page that have notes of any kind.
pub open spec fn ids_with_notes(books: Seq<NotebookBook>) -> Seq<Seq<char>>
    decreases books.len(),
{
    if books.len() == 0 {
        Seq::empty()
    } else {
        let prev = ids_with_notes(books.drop_last());
        let b = books.last();
        if b.bookmark_count > 0 || b.review_count > 0 || b.note_count > 0 {
            prev.push(b.book_id@)
        } else {
            prev
        }
    }
}

/// The ids of the books of a page that have notes.
pub fn notebook_ids_with_notes(books: &Vec<NotebookBook>) -> (r: Vec<String>)
    ensures
        crate::text::texts(r@) == ids_with_notes(books@),
{
    let mut r: Vec<String> = Vec::new();
    for i in 0..books.len()
        invariant
            crate::text::texts(r@) == ids_with_notes(books@.take(i as int)),
    {
        assert(books@.take(i + 1).drop_last() == books@.take(i as int));
        assert(books@.take(i + 1).last() == books@[i as int]);
        let b = &books[i];
        if b.bookmark_count > 0 || b.review_count > 0 || b.note_count > 0 {
            let ghost before = crate::text::texts(r@);
            r.push(b.book_id.clone());
            assert(crate::text::texts(r@) == before.push(b.book_id@));
        }
    }
    assert(books@.take(books@.len() as int) == books@);
    r
}

/// The books to sync: those chosen, else all with notes; none is an error.
pub fn books_to_sync(chosen: Vec<String>, with_notes: Vec<String>) -> (r: Result<Vec<String>, String>)
    ensures
        ({
            let ids = if chosen@.len() > 0 {
                chosen@
            } else {
                with_notes@
            };
            if ids.len() == 0 {
                r matches Err(e) && e@ == NOTHING_TO_SYNC@
            } else {
                r == Ok::<Vec<String>, String>(if chosen@.len() > 0 {
                    chosen
                } else {
                    with_notes
                })
            }
        }),
{
    let ids = if chosen.len() > 0 {
        chosen
    } else {
        with_notes
    };
    if ids.len() == 0 {
        return Err(owned(NOTHING_TO_SYNC));
    }
    Ok(ids)
}

/// The export settings a sync writes its notes with.
pub fn sync_export_options(options: &ImaSyncOptions, book_ids: Vec<String>) -> (r: ExportOptions)
    ensures
        r.book_ids == book_ids,
        r.format@ == "markdown"@,
        r.output_dir@.len() == 0,
        r.include_bookmarks == options.include_bookmarks,
        r.include_reviews == options.include_reviews,
        r.group_by_chapter == options.group_by_chapter,
{
    ExportOptions {
        book_ids,
        format: owned("markdown"),
        output_dir: String::new(),
        include_bookmarks: options.include_bookmarks,
        include_reviews: options.include_reviews,
        group_by_chapter: options.group_by_chapter,
    }
}

pub const UNKNOWN_BOOK: &'static str = "未知书籍";

/// A book's title as shown: trimmed, `未知书籍` when blank.
pub fn display_book_title(title: &str) -> (r: String)
    ensures
        r@ == (if trim(title@).len() == 0 {
            UNKNOWN_BOOK@
        } else {
            trim(title@)
        }),
{
    let t = trimmed(title);
    if chars_of(t.as_str()).len() == 0 {
        owned(UNKNOWN_BOOK)
    } else {
        t
    }
}

/// A note for ima: the Markdown as it is when it already starts with the
/// title as a heading, else headed by the title.
pub fn build_ima_markdown(title: &str, markdown: &str) -> (r: String)
    ensures
        r@ == (if starts_with(trim_start(markdown@), "# "@ + title@) {
            markdown@
        } else {
            "# "@ + title@ + "\n\n"@ + trim_start(markdown@)
        }),
{
    let v = chars_of(markdown);
    let (a, _) = crate::text::trim_bounds(&v);
    let rest = slice_chars(&v, a, v.len());
    assert(rest@ == trim_start(markdown@));
    let mut heading = owned("# ");
    push_str(&mut heading, title);
    let h = chars_of(heading.as_str());
    let starts = h.len() <= rest.len() && crate::text::matches_at(&rest, &h, 0);
    proof {
        if h@.len() > rest@.len() {
            assert(!crate::text::occurs_at(rest@, h@, 0));
        }
    }
    if starts {
        return owned(markdown);
    }
    let mut r = heading;
    push_str(&mut r, "\n\n");
    push_chars(&mut r, &rest);
    r
}

/// The outcome of syncing a book without notes.
pub fn skipped_book(book_id: String, title: String) -> (r: ImaSyncBookResult)
    ensures
        r.book_id == book_id,
        r.title == title,
        r.status@ == "skipped"@,
        r.message@ == "这本书没有可同步的划线或想法"@,
        r.note_id is None,
        r.media_id is None,
{
    ImaSyncBookResult {
        book_id,
        title,
        status: owned("skipped"),
        message: owned("这本书没有可同步的划线或想法"),
        note_id: None,
        media_id: None,
    }
}

/// The outcome of syncing a book: the note and entry on success (noting
/// when an existing note was added again), else the error.
pub fn synced_book(book_id: String, title: String, outcome: Result<(String, String, bool), String>) -> (r:
    ImaSyncBookResult)
    ensures
        r.book_id == book_id,
        r.title == title,
        match outcome {
            Ok((note_id, media_id, reused)) => r.status@ == "success"@ && r.message@ == (if reused {
                "已将已有 ima 笔记重新加入知识库"@
            } else {
                "已同步到 ima 知识库"@
            }) && r.note_id == Some(note_id) && r.media_id == Some(media_id),
            Err(e) => r.status@ == "failed"@ && r.message == e && r.note_id is None && r.media_id is None,
        },
{
    match outcome {
        Ok((note_id, media_id, reused)) => ImaSyncBookResult {
            book_id,
            title,
            status: owned("success"),
            message: if reused {
                owned("已将已有 ima 笔记重新加入知识库")
            } else {
                owned("已同步到 ima 知识库")
            },
            note_id: Some(note_id),
            media_id: Some(media_id),
        },
        Err(e) => ImaSyncBookResult {
            book_id,
            title,
            status: owned("failed"),
            message: e,
            note_id: None,
            media_id: None,
        },
    }
}

/// A book's title as ima shows it: trimmed, `未知书籍` when blank.
pub open spec fn shown_title(title: Seq<char>) -> Seq<char> {
    if trim(title).len() == 0 {
        UNKNOWN_BOOK@
    } else {
        trim(title)
    }
}

/// The note for ima: the Markdown as it is when it already starts with the
/// title as a heading, else headed by the title.
pub open spec fn ima_note(title: Seq<char>, markdown: Seq<char>) -> Seq<char> {
    if starts_with(trim_start(markdown), "# "@ + title) {
        markdown
    } else {
        "# "@ + title + "\n\n"@ + trim_start(markdown)
    }
}

/// What to do with one chosen book during a sync.
pub enum BookSyncStep {
    /// Nothing to send: the book's result is already settled.
    Skip { result: ImaSyncBookResult },
    /// Send this note, under this title, to the knowledge base.
    Send { title: String, markdown: String },
}

/// Decides about one book of a sync: a book without highlights and without
/// thoughts is skipped; any other is sent as its exported Markdown, headed
/// by its shown title. `export_time` is the local time the file states.
pub fn book_sync_step(book: &ExportBook, group_by_chapter: bool, export_time: &str) -> (a: BookSyncStep)
    ensures
        (book.bookmarks@.len() == 0 && book.reviews@.len() == 0) <==> a is Skip,
        a matches BookSyncStep::Skip { result } ==> result.book_id == book.book_id && result.title@
            == shown_title(book.title@) && result.status@ == "skipped"@ && result.message@
            == "这本书没有可同步的划线或想法"@ && result.note_id is None && result.media_id is None,
        a matches BookSyncStep::Send { title, markdown } ==> title@ == shown_title(book.title@)
            && markdown@ == ima_note(title@, markdown_text(*book, group_by_chapter, export_time@)),
{
    let title = display_book_title(book.title.as_str());
    if book.bookmarks.len() == 0 && book.reviews.len() == 0 {
        return BookSyncStep::Skip { result: skipped_book(book.book_id.clone(), title) };
    }
    let md = build_markdown(book, group_by_chapter, export_time);
    let markdown = build_ima_markdown(title.as_str(), md.as_str());
    BookSyncStep::Send { title, markdown }
}

/// A sync under way: the books chosen, and the results so far, one per
/// book in the order chosen.
pub struct ImaSyncRun {
    pub book_ids: Vec<String>,
    pub results: Vec<ImaSyncBookResult>,
}

impl ImaSyncRun {
    /// A sync of these books, none done yet.
    pub fn new(book_ids: Vec<String>) -> (r: Self)
        ensures
            r.book_ids == book_ids,
            r.results@.len() == 0,
    {
        ImaSyncRun { book_ids, results: Vec::new() }
    }

    /// The position of the next book to sync; none once every book has its result.
    pub fn next_book(&self) -> (r: Option<usize>)
        ensures
            self.results@.len() < self.book_ids@.len() ==> r == Some(self.results@.len() as usize),
            self.results@.len() >= self.book_ids@.len() ==> r is None,
    {
        if self.results.len() < self.book_ids.len() {
            Some(self.results.len())
        } else {
            None
        }
    }

    /// Keeps the result of the next book.
    pub fn record(&mut self, result: ImaSyncBookResult)
        requires
            old(self).results@.len() < old(self).book_ids@.len(),
        ensures
            final(self).book_ids == old(self).book_ids,
            final(self).results@ == old(self).results@.push(result),
    {
        self.results.push(result);
    }

    /// The outcome once every chosen book has its result: one result per
    /// book, counted by status.
    pub fn finish(self) -> (r: ImaSyncResult)
        requires
            self.results@.len() == self.book_ids@.len(),
        ensures
            r.results@ == self.results@,
            r.results@.len() == self.book_ids@.len(),
            r.success_count == count_status(self.results@, "success"@),
            r.skipped_count == count_status(self.results@, "skipped"@),
            r.failed_count == count_status(self.results@, "failed"@),
    {
        sync_summary(self.results)
    }
}

/// How many results have this status.
pub open spec fn count_status(rs: Seq<ImaSyncBookResult>, status: Seq<char>) -> nat
    decreases rs.len(),
{
    if rs.len() == 0 {
        0
    } else {
        count_status(rs.drop_last(), status) + if rs.last().status@ == status {
            1nat
        } else {
            0nat
        }
    }
}

fn count_of(rs: &Vec<ImaSyncBookResult>, status: &str) -> (n: usize)
    ensures
        n == count_status(rs@, status@),
{
    let mut n: usize = 0;
    for i in 0..rs.len()
        invariant
            n == count_status(rs@.take(i as int), status@),
            n <= i,
    {
        assert(rs@.take(i + 1).drop_last() == rs@.take(i as int));
        if text_eq(rs[i].status.as_str(), status) {
            n = n + 1;
        }
    }
    assert(rs@.take(rs@.len() as int) == rs@);
    n
}

/// The sync's outcome: every book's result, counted by status.
pub fn sync_summary(results: Vec<ImaSyncBookResult>) -> (r: ImaSyncResult)
    ensures
        r.results == results,
        r.success_count == count_status(results@, "success"@),
        r.skipped_count == count_status(results@, "skipped"@),
        r.failed_count == count_status(results@, "failed"@),
{
    let success_count = count_of(&results, "success");
    let skipped_count = count_of(&results, "skipped");
    let failed_count = count_of(&results, "failed");
    ImaSyncResult { success_count, skipped_count, failed_count, results }
}

/// Every book's result carries exactly one of the three statuses, so the
/// counts add up to the number of books.
pub proof fn law_sync_counts_add_up(rs: Seq<ImaSyncBookResult>)
    requires
        forall|i: int|
            0 <= i < rs.len() ==> (#[trigger] rs[i]).status@ == "success"@ || rs[i].status@ == "skipped"@
                || rs[i].status@ == "failed"@,
    ensures
        count_status(rs, "success"@) + count_status(rs, "skipped"@) + count_status(rs, "failed"@)
            == rs.len(),
    decreases rs.len(),
{
    reveal_strlit("success");
    reveal_strlit("skipped");
    reveal_strlit("failed");
    assert("success"@ != "skipped"@) by {
        assert("success"@[1] != "skipped"@[1]);
    }
    assert("success"@ != "failed"@ && "skipped"@ != "failed"@) by {
        assert("success"@.len() != "failed"@.len());
    }
    if rs.len() > 0 {
        assert forall|i: int| 0 <= i < rs.drop_last().len() implies (#[trigger] rs.drop_last()[i]).status@
            == "success"@ || rs.drop_last()[i].status@ == "skipped"@ || rs.drop_last()[i].status@
            == "failed"@ by {
            assert(rs.drop_last()[i] == rs[i]);
        }
        law_sync_counts_add_up(rs.drop_last());
        assert(rs.last() == rs[rs.len() - 1]);
    }
}


/// The note of a search result entry carries this title (both trimmed)
/// and an id.
pub open spec fn note_matches(item: Json, title: Seq<char>) -> bool {
    trim(note_title(note_of(item))) == trim(title) && nonempty_text(note_of(item), note_id_keys()) is Some
}

/// A note search finds the first listed note of the book's title: what it
/// gives is the id of a listed note whose title (trimmed) is the expected
/// one, no earlier note has that title and an id, and it finds nothing
/// exactly when no listed note does. Notes of other titles are never taken.
pub proof fn law_found_note_has_the_title(items: Seq<Json>, title: Seq<char>)
    ensures
        first_matching_note(items, title) matches Some(id) ==> exists|k: int|
            0 <= k < items.len() && #[trigger] note_matches(items[k], title) && nonempty_text(
                note_of(items[k]),
                note_id_keys(),
            ) == Some(id) && forall|j: int| 0 <= j < k ==> !#[trigger] note_matches(items[j], title),
        first_matching_note(items, title) is None <==> forall|k: int|
            0 <= k < items.len() ==> !#[trigger] note_matches(items[k], title),
    decreases items.len(),
{
    if items.len() > 0 {
        let rest = items.drop_first();
        law_found_note_has_the_title(rest, title);
        assert forall|k: int| 0 <= k < rest.len() implies rest[k] == items[k + 1] by {}
        if note_matches(items[0], title) {
        } else {
            if first_matching_note(rest, title) is Some {
                let id = first_matching_note(rest, title)->0;
                let k = choose|k: int|
                    0 <= k < rest.len() && #[trigger] note_matches(rest[k], title) && nonempty_text(
                        note_of(rest[k]),
                        note_id_keys(),
                    ) == Some(id) && forall|j: int| 0 <= j < k ==> !#[trigger] note_matches(rest[j], title);
                assert(note_matches(items[k + 1], title));
                assert forall|j: int| 0 <= j < k + 1 implies !#[trigger] note_matches(items[j], title) by {
                    if j > 0 {
                        assert(items[j] == rest[j - 1]);
                    }
                }
            } else {
                assert forall|k: int| 0 <= k < items.len() implies !#[trigger] note_matches(items[k], title) by {
                    if k > 0 {
                        assert(items[k] == rest[k - 1]);
                    }
                }
            }
            if exists|k: int| 0 <= k < items.len() && #[trigger] note_matches(items[k], title) {
                let k = choose|k: int| 0 <= k < items.len() && #[trigger] note_matches(items[k], title);
                assert(k > 0);
                assert(note_matches(rest[k - 1], title));
            }
        }
    }
}

} // verus!
