//! Templates the user writes: checking a request, deriving an id and an
//! intent from it, merging an edit into a saved template, and listing them.
use crate::filenames::unicode_alphanumeric;
use crate::tasks::opt_view;
use crate::text::{
    chars_of, is_blank, lemma_text_less_irreflexive, lemma_text_less_transitive, owned, push_char,
    push_str, str_less, text_less, trim, trimmed,
};
use vstd::prelude::*;

verus! {

broadcast use vstd::seq_lib::to_multiset_remove, vstd::seq_lib::to_multiset_insert,
    vstd::multiset::group_multiset_axioms, vstd::seq_lib::to_multiset_len,
    vstd::multiset::lemma_multiset_empty_len;

/// What a template is meant to answer, as the user described it.
#[derive(Clone, Debug)]
pub struct TemplateIntent {
    pub question: String,
    pub use_case: String,
    pub output_use: String,
    pub tone: String,
    pub raw_text_policy: String,
}

/// A request to create (or edit) a custom template.
pub struct CreateCustomTemplateRequest {
    pub name: String,
    pub description: String,
    pub style_md: Option<String>,
    pub prompt_md: String,
    pub default_output_shape: Option<String>,
    pub output_shapes: Option<Vec<String>>,
    pub requires_raw_notes_consent: Option<bool>,
    pub intent: Option<TemplateIntent>,
}

/// A custom template as it is saved.
pub struct CustomTemplate {
    pub id: String,
    pub name: String,
    pub description: String,
    pub category: String,
    pub style_summary: String,
    pub style_md: String,
    pub prompt_md: String,
    pub default_report_period: String,
    pub default_output_shape: String,
    pub output_shapes: Vec<String>,
    pub requires_raw_notes_consent: bool,
    pub default_capabilities: Vec<String>,
    pub optional_capabilities: Vec<String>,
    pub created_at: String,
    pub source: String,
    pub intent: Option<TemplateIntent>,
}

pub const NAME_REQUIRED: &'static str = "模板名称不能为空";

pub const PROMPT_REQUIRED: &'static str = "提示词不能为空";

/// A request is refused for a blank name, then for a blank prompt.
pub open spec fn request_error(name: Seq<char>, prompt_md: Seq<char>) -> Option<Seq<char>> {
    if trim(name).len() == 0 {
        Some(NAME_REQUIRED@)
    } else if trim(prompt_md).len() == 0 {
        Some(PROMPT_REQUIRED@)
    } else {
        None
    }
}

/// Checks that a request names the template and gives a prompt.
pub fn check_template_request(request: &CreateCustomTemplateRequest) -> (r: Result<(), String>)
    ensures
        match request_error(request.name@, request.prompt_md@) {
            Some(e) => r matches Err(m) && m@ == e,
            None => r is Ok,
        },
{
    if is_blank(request.name.as_str()) {
        return Err(owned(NAME_REQUIRED));
    }
    if is_blank(request.prompt_md.as_str()) {
        return Err(owned(PROMPT_REQUIRED));
    }
    Ok(())
}

/// The text of an optional string, empty when there is none.
pub open spec fn or_empty(o: Option<String>) -> Seq<char> {
    match o {
        Some(s) => s@,
        None => Seq::empty(),
    }
}

/// The text of an optional string, else a fallback.
pub open spec fn or_text(o: Option<String>, fallback: Seq<char>) -> Seq<char> {
    match o {
        Some(s) => s@,
        None => fallback,
    }
}

fn text_or(o: &Option<String>, fallback: &str) -> (r: String)
    ensures
        r@ == or_text(*o, fallback@),
{
    match o {
        Some(s) => s.clone(),
        None => owned(fallback),
    }
}

/// The intent of a request that gives none: its prompt as the question,
/// its description as the use, its shape (else `report`), its style as the
/// tone, and whether raw notes are required.
pub fn infer_intent(request: &CreateCustomTemplateRequest) -> (i: TemplateIntent)
    ensures
        i.question@ == trim(request.prompt_md@),
        i.use_case@ == trim(request.description@),
        i.output_use@ == or_text(request.default_output_shape, "report"@),
        i.tone@ == or_empty(request.style_md),
        i.raw_text_policy@ == (if request.requires_raw_notes_consent == Some(true) {
            "required"@
        } else {
            "optional"@
        }),
{
    proof {
        reveal_strlit("");
    }
    let required = match request.requires_raw_notes_consent {
        Some(b) => b,
        None => false,
    };
    TemplateIntent {
        question: trimmed(request.prompt_md.as_str()),
        use_case: trimmed(request.description.as_str()),
        output_use: text_or(&request.default_output_shape, "report"),
        tone: text_or(&request.style_md, ""),
        raw_text_policy: if required {
            owned("required")
        } else {
            owned("optional")
        },
    }
}

/// `char::to_ascii_lowercase`.
pub open spec fn ascii_lower(c: char) -> char {
    if 'A' <= c && c <= 'Z' {
        (((c as u32) + 32) as u8) as char
    } else {
        c
    }
}

fn to_ascii_lower(c: char) -> (r: char)
    ensures
        r == ascii_lower(c),
{
    if 'A' <= c && c <= 'Z' {
        (((c as u32) + 32) as u8) as char
    } else {
        c
    }
}

/// The slug built so far from a name, and whether a dash is owed before
/// the next kept character: letters and digits are kept (ASCII ones in
/// lower case), everything else separates, and separators never lead,
/// trail or repeat.
pub open spec fn slug_state(s: Seq<char>) -> (Seq<char>, bool)
    decreases s.len(),
{
    if s.len() == 0 {
        (Seq::empty(), false)
    } else {
        let (o, pending) = slug_state(s.drop_last());
        let c = s.last();
        if !unicode_alphanumeric(c) {
            (o, o.len() > 0)
        } else if pending {
            (o.push('-').push(ascii_lower(c)), false)
        } else {
            (o.push(ascii_lower(c)), false)
        }
    }
}

/// The slug of a template name.
pub open spec fn slug(name: Seq<char>) -> Seq<char> {
    slug_state(name).0
}

/// `custom-`, the first 24 characters of the slug, `-` and the time stamp.
pub open spec fn template_id(name: Seq<char>, stamp: Seq<char>) -> Seq<char> {
    let s = slug(name);
    "custom-"@ + (if s.len() <= 24 {
        s
    } else {
        s.take(24)
    }) + "-"@ + stamp
}

/// Templates stamped at different times (stamps of one length, as the
/// fixed `%Y%m%d%H%M%S` format gives) never share an id, whatever their names.
pub proof fn law_ids_differ_by_stamp(name1: Seq<char>, name2: Seq<char>, stamp1: Seq<char>, stamp2: Seq<char>)
    requires
        stamp1.len() == stamp2.len(),
        stamp1 != stamp2,
    ensures
        template_id(name1, stamp1) != template_id(name2, stamp2),
{
    let a = template_id(name1, stamp1);
    let b = template_id(name2, stamp2);
    if a == b {
        assert(a.skip(a.len() - stamp1.len()) =~= stamp1);
        assert(b.skip(b.len() - stamp2.len()) =~= stamp2);
    }
}

fn slug_of(name: &str) -> (r: Vec<char>)
    ensures
        r@ == slug(name@),
{
    let v = chars_of(name);
    let mut out: Vec<char> = Vec::new();
    let mut pending = false;
    for i in 0..v.len()
        invariant
            v@ == name@,
            slug_state(v@.take(i as int)) == (out@, pending),
    {
        assert(v@.take(i + 1).drop_last() == v@.take(i as int));
        assert(v@.take(i + 1).last() == v@[i as int]);
        let c = v[i];
        let keep = crate::filenames::is_alphanumeric(c);
        if !keep {
            pending = out.len() > 0;
        } else {
            if pending {
                out.push('-');
            }
            out.push(to_ascii_lower(c));
            pending = false;
        }
    }
    assert(v@.take(v@.len() as int) == v@);
    out
}

/// A template's id from its name and the time stamp (`%Y%m%d%H%M%S`, UTC).
pub fn generate_id(name: &str, stamp: &str) -> (r: String)
    ensures
        r@ == template_id(name@, stamp@),
{
    let s = slug_of(name);
    let n: usize = if s.len() <= 24 {
        s.len()
    } else {
        24
    };
    let mut r = owned("custom-");
    let ghost start = r@;
    for i in 0..n
        invariant
            n <= s@.len(),
            r@ == start + s@.take(i as int),
    {
        assert(s@.take(i + 1) == s@.take(i as int).push(s@[i as int]));
        push_char(&mut r, s[i]);
    }
    proof {
        if s@.len() <= 24 {
            assert(s@.take(n as int) == s@);
        }
    }
    push_str(&mut r, "-");
    push_str(&mut r, stamp);
    r
}

fn texts_of(items: &[&str]) -> (r: Vec<String>)
    ensures
        r@.len() == items@.len(),
        forall|k: int| 0 <= k < items@.len() ==> (#[trigger] r@[k])@ == items@[k]@,
{
    let mut r: Vec<String> = Vec::new();
    for i in 0..items.len()
        invariant
            r@.len() == i,
            forall|k: int| 0 <= k < i ==> (#[trigger] r@[k])@ == items@[k]@,
    {
        r.push(owned(items[i]));
    }
    r
}

/// The texts of a list of strings.
pub open spec fn views(v: Seq<String>) -> Seq<Seq<char>> {
    v.map_values(|s: String| s@)
}

/// The shapes a new template offers unless it names its own.
pub open spec fn default_shapes() -> Seq<Seq<char>> {
    seq!["report"@, "slides"@, "xiaohongshu"@, "free"@]
}

/// The data a new template reads by default.
pub open spec fn template_default_capabilities() -> Seq<Seq<char>> {
    seq!["profile.summary"@, "shelf.sync"@, "notes.notebooks"@, "reading.stats"@]
}

/// The data a new template may ask for besides.
pub open spec fn template_optional_capabilities() -> Seq<Seq<char>> {
    seq!["book.info"@, "book.progress"@, "notes.bookmarks"@, "notes.reviews"@]
}

/// The intent a template keeps: the request's own, else the inferred one.
pub open spec fn intent_fields(i: TemplateIntent) -> (Seq<char>, Seq<char>, Seq<char>, Seq<char>, Seq<char>) {
    (i.question@, i.use_case@, i.output_use@, i.tone@, i.raw_text_policy@)
}

pub open spec fn kept_intent(request: CreateCustomTemplateRequest, t: Option<TemplateIntent>) -> bool {
    match request.intent {
        Some(i) => t matches Some(k) && intent_fields(k) == intent_fields(i),
        None => t matches Some(k) && k.question@ == trim(request.prompt_md@) && k.use_case@ == trim(
            request.description@,
        ) && k.output_use@ == or_text(request.default_output_shape, "report"@) && k.tone@ == or_empty(
            request.style_md,
        ) && k.raw_text_policy@ == (if request.requires_raw_notes_consent == Some(true) {
            "required"@
        } else {
            "optional"@
        }),
    }
}

fn intent_for(request: &CreateCustomTemplateRequest) -> (r: Option<TemplateIntent>)
    ensures
        kept_intent(*request, r),
{
    match &request.intent {
        Some(i) => Some(
            TemplateIntent {
                question: i.question.clone(),
                use_case: i.use_case.clone(),
                output_use: i.output_use.clone(),
                tone: i.tone.clone(),
                raw_text_policy: i.raw_text_policy.clone(),
            },
        ),
        None => Some(infer_intent(request)),
    }
}

/// A template made from a request with this stamp and creation time: its
/// id from the name and stamp, name and description trimmed, category
/// `custom`, the whole history of reading as its period, the shapes and
/// consent the request gives (else the defaults), the standard data it
/// reads, the creation time, source `manual`, and the request's intent (or
/// the inferred one).
pub open spec fn created(
    request: CreateCustomTemplateRequest,
    stamp: Seq<char>,
    now: Seq<char>,
    t: CustomTemplate,
) -> bool {
    &&& t.id@ == template_id(request.name@, stamp)
    &&& t.name@ == trim(request.name@)
    &&& t.description@ == trim(request.description@)
    &&& t.category@ == "custom"@
    &&& t.style_summary@ == Seq::<char>::empty()
    &&& t.style_md@ == or_empty(request.style_md)
    &&& t.prompt_md@ == request.prompt_md@
    &&& t.default_report_period@ == "all"@
    &&& t.default_output_shape@ == or_text(request.default_output_shape, "report"@)
    &&& views(t.output_shapes@) == match request.output_shapes {
        Some(v) => views(v@),
        None => default_shapes(),
    }
    &&& t.requires_raw_notes_consent == (request.requires_raw_notes_consent == Some(true))
    &&& views(t.default_capabilities@) == template_default_capabilities()
    &&& views(t.optional_capabilities@) == template_optional_capabilities()
    &&& t.created_at@ == now
    &&& t.source@ == "manual"@
    &&& kept_intent(request, t.intent)
}

/// A new template from a request, with its id and creation time: name and
/// description trimmed, category `custom`, the whole history of reading as
/// its period, and the standard data it reads.
pub fn create_custom_template(request: CreateCustomTemplateRequest, stamp: &str, now: &str) -> (r: Result<
    CustomTemplate,
    String,
>)
    ensures
        match request_error(request.name@, request.prompt_md@) {
            Some(e) => r matches Err(m) && m@ == e,
            None => r matches Ok(t) && created(request, stamp@, now@, t),
        },
{
    match check_template_request(&request) {
        Err(e) => return Err(e),
        Ok(()) => {},
    }
    let intent = intent_for(&request);
    let id = generate_id(request.name.as_str(), stamp);
    let shapes_default: [&str; 4] = ["report", "slides", "xiaohongshu", "free"];
    let defaults: [&str; 4] = ["profile.summary", "shelf.sync", "notes.notebooks", "reading.stats"];
    let optionals: [&str; 4] = ["book.info", "book.progress", "notes.bookmarks", "notes.reviews"];
    let default_capabilities = texts_of(&defaults);
    let optional_capabilities = texts_of(&optionals);
    proof {
        reveal_strlit("");
        assert(views(default_capabilities@) =~= template_default_capabilities());
        assert(views(optional_capabilities@) =~= template_optional_capabilities());
    }
    let output_shapes = match request.output_shapes {
        Some(v) => v,
        None => {
            let v = texts_of(&shapes_default);
            assert(views(v@) =~= default_shapes());
            v
        },
    };
    let requires_raw_notes_consent = match request.requires_raw_notes_consent {
        Some(b) => b,
        None => false,
    };
    let t = CustomTemplate {
        id,
        name: trimmed(request.name.as_str()),
        description: trimmed(request.description.as_str()),
        category: owned("custom"),
        style_summary: String::new(),
        style_md: text_or(&request.style_md, ""),
        prompt_md: request.prompt_md,
        default_report_period: owned("all"),
        default_output_shape: text_or(&request.default_output_shape, "report"),
        output_shapes,
        requires_raw_notes_consent,
        default_capabilities,
        optional_capabilities,
        created_at: owned(now),
        source: owned("manual"),
        intent,
    };
    assert(views(t.output_shapes@) == match request.output_shapes {
        Some(v) => views(v@),
        None => default_shapes(),
    });
    assert(views(t.default_capabilities@) == template_default_capabilities());
    assert(kept_intent(request, t.intent));
    assert(t.style_md@ == or_empty(request.style_md));
    assert(t.default_output_shape@ == or_text(request.default_output_shape, "report"@));
    assert(t.category@ == "custom"@ && t.source@ == "manual"@ && t.default_report_period@ == "all"@);
    assert(created(request, stamp@, now@, t));
    Ok(t)
}

/// A stamp as `%Y%m%d%H%M%S` writes one: the year (four digits, more with
/// a sign outside years 0 to 9999), then ten digits of month, day, hour,
/// minute and second.
pub open spec fn is_utc_stamp(s: Seq<char>) -> bool {
    &&& s.len() >= 14
    &&& forall|i: int| s.len() - 10 <= i < s.len() ==> crate::text::is_digit(#[trigger] s[i])
}

/// A UTC time as `to_rfc3339` writes it: ending in the offset `+00:00`.
pub open spec fn is_utc_rfc3339(n: Seq<char>) -> bool {
    n.len() >= 6 && n.skip(n.len() - 6) == "+00:00"@
}

/// `chrono::Utc::now().format("%Y%m%d%H%M%S")`: the current UTC time as
/// a stamp. Which moment it is is not stated; its form is.
#[verifier::external_body]
fn utc_stamp() -> (s: String)
    ensures
        is_utc_stamp(s@),
{
    chrono::Utc::now().format("%Y%m%d%H%M%S").to_string()
}

/// `chrono::Utc::now().to_rfc3339()`: the current UTC time in RFC 3339.
/// Which moment it is is not stated; that it ends in `+00:00` is.
#[verifier::external_body]
fn utc_now_rfc3339() -> (n: String)
    ensures
        is_utc_rfc3339(n@),
{
    chrono::Utc::now().to_rfc3339()
}

/// A new template from a request, stamped with the current time: refused
/// exactly as `create_custom_template` refuses, and otherwise made by it
/// from a UTC stamp and a UTC creation time.
pub fn new_custom_template(request: CreateCustomTemplateRequest) -> (r: Result<CustomTemplate, String>)
    ensures
        match request_error(request.name@, request.prompt_md@) {
            Some(e) => r matches Err(m) && m@ == e,
            None => r matches Ok(t) && exists|stamp: Seq<char>, now: Seq<char>|
                is_utc_stamp(stamp) && is_utc_rfc3339(now) && #[trigger] created(request, stamp, now, t),
        },
{
    let stamp = utc_stamp();
    let now = utc_now_rfc3339();
    create_custom_template(request, stamp.as_str(), now.as_str())
}

/// A saved template edited by a request: name, description and prompt come
/// from the request, style, shapes and consent from it where it gives them,
/// the rest stays.
pub fn update_custom_template(existing: CustomTemplate, request: CreateCustomTemplateRequest) -> (r: Result<
    CustomTemplate,
    String,
>)
    ensures
        match request_error(request.name@, request.prompt_md@) {
            Some(e) => r matches Err(m) && m@ == e,
            None => r matches Ok(t) && {
                &&& t.id == existing.id
                &&& t.name@ == trim(request.name@)
                &&& t.description@ == trim(request.description@)
                &&& t.category == existing.category
                &&& t.style_summary == existing.style_summary
                &&& t.style_md@ == or_text(request.style_md, existing.style_md@)
                &&& t.prompt_md@ == request.prompt_md@
                &&& t.default_report_period == existing.default_report_period
                &&& t.default_output_shape@ == or_text(
                    request.default_output_shape,
                    existing.default_output_shape@,
                )
                &&& t.output_shapes@ == match request.output_shapes {
                    Some(v) => v@,
                    None => existing.output_shapes@,
                }
                &&& t.requires_raw_notes_consent == match request.requires_raw_notes_consent {
                    Some(b) => b,
                    None => existing.requires_raw_notes_consent,
                }
                &&& t.default_capabilities == existing.default_capabilities
                &&& t.optional_capabilities == existing.optional_capabilities
                &&& t.created_at == existing.created_at
                &&& t.source == existing.source
                &&& kept_intent(request, t.intent)
            },
        },
{
    match check_template_request(&request) {
        Err(e) => return Err(e),
        Ok(()) => {},
    }
    let intent = intent_for(&request);
    let name = trimmed(request.name.as_str());
    let description = trimmed(request.description.as_str());
    let style_md = match request.style_md {
        Some(s) => s,
        None => existing.style_md,
    };
    let default_output_shape = match request.default_output_shape {
        Some(s) => s,
        None => existing.default_output_shape,
    };
    let output_shapes = match request.output_shapes {
        Some(v) => v,
        None => existing.output_shapes,
    };
    let requires_raw_notes_consent = match request.requires_raw_notes_consent {
        Some(b) => b,
        None => existing.requires_raw_notes_consent,
    };
    Ok(
        CustomTemplate {
            id: existing.id,
            name,
            description,
            category: existing.category,
            style_summary: existing.style_summary,
            style_md,
            prompt_md: request.prompt_md,
            default_report_period: existing.default_report_period,
            default_output_shape,
            output_shapes,
            requires_raw_notes_consent,
            default_capabilities: existing.default_capabilities,
            optional_capabilities: existing.optional_capabilities,
            created_at: existing.created_at,
            source: existing.source,
            intent,
        },
    )
}

/// The message for a template that is not saved.
pub fn template_missing_message(template_id: &str) -> (r: String)
    ensures
        r@ == "模板 "@ + template_id@ + " 不存在"@,
{
    let mut r = owned("模板 ");
    push_str(&mut r, template_id);
    push_str(&mut r, " 不存在");
    r
}

/// The file a template is saved in, inside the templates folder.
pub fn template_file_name(template_id: &str) -> (r: String)
    ensures
        r@ == template_id@ + ".json"@,
{
    let mut r = owned(template_id);
    push_str(&mut r, ".json");
    r
}

/// Newer templates first: none was created before one listed after it.
pub open spec fn created_newest_first(s: Seq<CustomTemplate>) -> bool {
    forall|a: int, b: int|
        0 <= a < b < s.len() ==> !text_less(#[trigger] s[a].created_at@, #[trigger] s[b].created_at@)
}

fn insert_by_creation(out: &mut Vec<CustomTemplate>, t: CustomTemplate)
    requires
        created_newest_first(old(out)@),
    ensures
        exists|p: int| 0 <= p <= old(out)@.len() && final(out)@ == old(out)@.insert(p, t),
        created_newest_first(final(out)@),
{
    let n = out.len();
    let mut p: usize = 0;
    while p < n
        invariant
            n == out@.len(),
            p <= n,
            forall|a: int| 0 <= a < p ==> !text_less(#[trigger] out@[a].created_at@, t.created_at@),
        ensures
            p <= n,
            forall|a: int| 0 <= a < p ==> !text_less(#[trigger] out@[a].created_at@, t.created_at@),
            p < n ==> text_less(out@[p as int].created_at@, t.created_at@),
        decreases n - p,
    {
        if str_less(out[p].created_at.as_str(), t.created_at.as_str()) {
            break;
        }
        p = p + 1;
    }
    let ghost before = out@;
    let ghost tc = t.created_at@;
    out.insert(p, t);
    proof {
        let s = out@;
        assert forall|a: int, b: int| 0 <= a < b < s.len() implies !text_less(
            #[trigger] s[a].created_at@,
            #[trigger] s[b].created_at@,
        ) by {
            if b < p {
                assert(s[a] == before[a] && s[b] == before[b]);
            } else if b == p {
                assert(s[a] == before[a]);
            } else if a == p {
                assert(s[b] == before[b - 1]);
                assert(text_less(before[p as int].created_at@, tc));
                if text_less(tc, before[b - 1].created_at@) {
                    lemma_text_less_transitive(before[p as int].created_at@, tc, before[b - 1].created_at@);
                    if b - 1 == p {
                        lemma_text_less_irreflexive(before[p as int].created_at@);
                    }
                }
            } else if a < p {
                assert(s[a] == before[a] && s[b] == before[b - 1]);
            } else {
                assert(s[a] == before[a - 1] && s[b] == before[b - 1]);
            }
        }
        assert(s == before.insert(p as int, s[p as int]));
    }
}

/// The saved templates, newest first (the same templates, reordered).
pub fn sort_templates_newest_first(templates: Vec<CustomTemplate>) -> (r: Vec<CustomTemplate>)
    ensures
        r@.to_multiset() == templates@.to_multiset(),
        created_newest_first(r@),
{
    let ghost all = templates@;
    let mut rest = templates;
    let mut out: Vec<CustomTemplate> = Vec::new();
    assert(out@.to_multiset().len() == 0);
    assert(out@.to_multiset() =~= vstd::multiset::Multiset::empty());
    assert(out@.to_multiset().add(rest@.to_multiset()) =~= all.to_multiset());
    while rest.len() > 0
        invariant
            out@.to_multiset().add(rest@.to_multiset()) == all.to_multiset(),
            created_newest_first(out@),
        decreases rest@.len(),
    {
        let ghost r0 = rest@;
        let ghost o0 = out@;
        let t = rest.remove(0);
        let ghost x = t;
        insert_by_creation(&mut out, t);
        proof {
            let p = choose|p: int| 0 <= p <= o0.len() && out@ == o0.insert(p, x);
            assert(rest@.to_multiset() == r0.to_multiset().remove(x));
            assert(out@.to_multiset() == o0.to_multiset().insert(x));
            assert(r0.to_multiset().contains(x)) by {
                vstd::seq_lib::to_multiset_contains(r0, x);
            }
            assert(out@.to_multiset().add(rest@.to_multiset()) =~= o0.to_multiset().add(
                r0.to_multiset(),
            ));
        }
    }
    assert(rest@.to_multiset().len() == 0);
    assert(rest@.to_multiset() =~= vstd::multiset::Multiset::empty());
    assert(out@.to_multiset() =~= all.to_multiset());
    out
}

} // verus!
