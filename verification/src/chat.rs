//! The chat assistant's turns: the history sent to the model, the tool
//! calls streamed back, and what each tool call answers and shows.
use crate::consent::{access_summary_text, denied_record, with_call_id, ConsentRequest, DataAccessRecord};
use crate::gateway::{GatewayData, GatewayResult};
use crate::tasks::opt_view;
use crate::templates::opt_str_view;
use crate::text::{chars_of, owned, push_char, push_chars, push_str, string_of, text_eq, texts};
use vstd::prelude::*;
use vstd::string::StringSliceAdditionalSpecFns;

verus! {

// ---------------------------------------------------------------------
// Events shown in the chat window
// ---------------------------------------------------------------------

/// A choice offered to the user.
#[derive(Clone, Debug)]
pub struct AskUserOption {
    pub label: String,
    pub description: Option<String>,
}

/// An event of a chat run, as the window receives it; `kind` names it.
#[derive(Clone, Debug)]
pub struct LlmChatEvent {
    pub kind: String,
    pub job_id: String,
    pub call_id: Option<String>,
    pub content: Option<String>,
    pub skill_name: Option<String>,
    pub title: Option<String>,
    pub summary: Option<String>,
    pub copy: Option<String>,
    pub file_path: Option<String>,
    pub error: Option<String>,
    pub question: Option<String>,
    pub options: Option<Vec<AskUserOption>>,
    pub response_type: Option<String>,
    pub access_records: Option<Vec<DataAccessRecord>>,
    pub consent_request: Option<ConsentRequest>,
}

/// An event of this kind for this run, with nothing else set.
pub fn make_event(event_type: &str, job_id: &str) -> (e: LlmChatEvent)
    ensures
        e.kind@ == event_type@,
        e.job_id@ == job_id@,
        e.call_id is None,
        e.content is None,
        e.skill_name is None,
        e.title is None,
        e.summary is None,
        e.copy is None,
        e.file_path is None,
        e.error is None,
        e.question is None,
        e.options is None,
        e.response_type is None,
        e.access_records is None,
        e.consent_request is None,
{
    LlmChatEvent {
        kind: owned(event_type),
        job_id: owned(job_id),
        call_id: None,
        content: None,
        skill_name: None,
        title: None,
        summary: None,
        copy: None,
        file_path: None,
        error: None,
        question: None,
        options: None,
        response_type: None,
        access_records: None,
        consent_request: None,
    }
}

/// The event summing up what a run read.
pub open spec fn summary_event(ev: LlmChatEvent, job_id: Seq<char>, records: Seq<DataAccessRecord>) -> bool {
    &&& ev.kind@ == "data_access_summary"@
    &&& ev.job_id@ == job_id
    &&& (ev.access_records matches Some(rs) && rs@.len() == records.len() && forall|i: int|
        0 <= i < records.len() ==> same_record(#[trigger] rs@[i], records[i]))
    &&& opt_view(ev.summary) == Some(crate::consent::access_summary(records))
}

/// The summary event of what a run read; none when it read nothing.
pub fn access_summary_event(job_id: &str, records: &Vec<DataAccessRecord>) -> (e: Option<LlmChatEvent>)
    ensures
        records@.len() == 0 ==> e is None,
        records@.len() > 0 ==> (e matches Some(ev) && summary_event(ev, job_id@, records@)),
{
    if records.len() == 0 {
        return None;
    }
    let mut e = make_event("data_access_summary", job_id);
    let mut copy: Vec<DataAccessRecord> = Vec::new();
    for i in 0..records.len()
        invariant
            copy@.len() == i,
            forall|j: int| 0 <= j < i ==> same_record(#[trigger] copy@[j], records@[j]),
    {
        copy.push(records[i].clone_record());
    }
    e.access_records = Some(copy);
    e.summary = Some(access_summary_text(records));
    Some(e)
}

/// Two records agree field by field.
pub open spec fn same_record(a: DataAccessRecord, b: DataAccessRecord) -> bool {
    &&& a.call_id == b.call_id
    &&& a.api_name == b.api_name
    &&& a.display_name == b.display_name
    &&& a.purpose == b.purpose
    &&& a.data_categories@ == b.data_categories@
    &&& a.data_category_labels@ == b.data_category_labels@
    &&& a.privacy_level == b.privacy_level
    &&& a.contains_raw_text == b.contains_raw_text
    &&& a.destination == b.destination
    &&& a.scope == b.scope
    &&& a.status == b.status
    &&& a.denial_effect == b.denial_effect
    &&& a.summary_text == b.summary_text
}

impl DataAccessRecord {
    /// A field-by-field copy.
    pub fn clone_record(&self) -> (r: DataAccessRecord)
        ensures
            same_record(r, *self),
    {
        DataAccessRecord {
            call_id: self.call_id.clone(),
            api_name: self.api_name.clone(),
            display_name: self.display_name.clone(),
            purpose: self.purpose.clone(),
            data_categories: clone_strings(&self.data_categories),
            data_category_labels: clone_strings(&self.data_category_labels),
            privacy_level: self.privacy_level.clone(),
            contains_raw_text: self.contains_raw_text,
            destination: self.destination.clone(),
            scope: match &self.scope {
                Some(s) => Some(s.clone()),
                None => None,
            },
            status: self.status.clone(),
            denial_effect: self.denial_effect.clone(),
            summary_text: self.summary_text.clone(),
        }
    }
}

fn clone_strings(v: &Vec<String>) -> (r: Vec<String>)
    ensures
        r@ == v@,
{
    let mut r: Vec<String> = Vec::new();
    for i in 0..v.len()
        invariant
            r@ == v@.take(i as int),
    {
        r.push(v[i].clone());
        assert(r@ == v@.take(i + 1));
    }
    assert(v@.take(v@.len() as int) == v@);
    r
}

// ---------------------------------------------------------------------
// The history sent to the model
// ---------------------------------------------------------------------

/// A tool call as the window keeps it.
#[derive(Clone, Debug)]
pub struct LlmToolCallFunction {
    pub name: String,
    pub arguments: String,
}

/// A tool call as the window keeps it.
#[derive(Clone, Debug)]
pub struct LlmToolCall {
    pub id: String,
    pub function: LlmToolCallFunction,
}

/// A message of the conversation as the window keeps it.
#[derive(Clone, Debug)]
pub struct LlmChatMessage {
    pub role: String,
    pub content: Option<String>,
    pub tool_calls: Option<Vec<LlmToolCall>>,
    pub tool_call_id: Option<String>,
}

/// A chat request: the conversation so far.
#[derive(Clone, Debug)]
pub struct LlmChatRequest {
    pub messages: Vec<LlmChatMessage>,
}

/// A tool call in a message to the model.
#[derive(Clone, Debug)]
pub struct ChatToolCall {
    pub id: String,
    pub name: String,
    pub arguments: String,
}

/// A message to the model.
#[derive(Clone, Debug)]
pub enum ChatMessage {
    System { content: String },
    User { content: String },
    Assistant { content: Option<String>, tool_calls: Option<Vec<ChatToolCall>> },
    Tool { content: String, tool_call_id: String },
}

pub open spec fn call_of(tc: LlmToolCall) -> ChatToolCall {
    ChatToolCall { id: tc.id, name: tc.function.name, arguments: tc.function.arguments }
}

/// Whether the tool calls of a model message are those a window message kept.
pub open spec fn calls_match(kept: Option<Vec<LlmToolCall>>, sent: Option<Vec<ChatToolCall>>) -> bool {
    match kept {
        None => sent is None,
        Some(k) => sent matches Some(s) && s@.len() == k@.len() && forall|i: int|
            0 <= i < s@.len() ==> #[trigger] s@[i] == call_of(k@[i]),
    }
}

/// The model message made of a window message: user text, assistant text
/// with its tool calls, and tool results with their call; anything else,
/// or a message missing what it needs, is left out.
pub open spec fn message_matches(m: LlmChatMessage, c: Option<ChatMessage>) -> bool {
    if m.role@ == "user"@ && m.content is Some {
        c == Some(ChatMessage::User { content: m.content->0 })
    } else if m.role@ == "assistant"@ && m.content is Some {
        c matches Some(ChatMessage::Assistant { content, tool_calls }) && content == m.content
            && calls_match(m.tool_calls, tool_calls)
    } else if m.role@ == "tool"@ && m.content is Some && m.tool_call_id is Some {
        c == Some(ChatMessage::Tool { content: m.content->0, tool_call_id: m.tool_call_id->0 })
    } else {
        c is None
    }
}

fn convert_message(m: &LlmChatMessage) -> (c: Option<ChatMessage>)
    ensures
        message_matches(*m, c),
{
    let is_user = text_eq(m.role.as_str(), "user");
    let is_assistant = text_eq(m.role.as_str(), "assistant");
    let is_tool = text_eq(m.role.as_str(), "tool");
    if is_user {
        match &m.content {
            Some(content) => Some(ChatMessage::User { content: content.clone() }),
            None => None,
        }
    } else if is_assistant {
        match &m.content {
            Some(content) => {
                let tool_calls = match &m.tool_calls {
                    Some(calls) => {
                        let mut v: Vec<ChatToolCall> = Vec::new();
                        for i in 0..calls.len()
                            invariant
                                v@.len() == i,
                                forall|j: int| 0 <= j < i ==> #[trigger] v@[j] == call_of(calls@[j]),
                        {
                            v.push(
                                ChatToolCall {
                                    id: calls[i].id.clone(),
                                    name: calls[i].function.name.clone(),
                                    arguments: calls[i].function.arguments.clone(),
                                },
                            );
                        }
                        Some(v)
                    },
                    None => None,
                };
                Some(ChatMessage::Assistant { content: Some(content.clone()), tool_calls })
            },
            None => None,
        }
    } else if is_tool {
        match (&m.content, &m.tool_call_id) {
            (Some(content), Some(id)) => Some(
                ChatMessage::Tool { content: content.clone(), tool_call_id: id.clone() },
            ),
            _ => None,
        }
    } else {
        None
    }
}

/// The model messages made of a conversation, in order.
pub open spec fn converted(ms: Seq<LlmChatMessage>, cs: Seq<ChatMessage>) -> bool
    decreases ms.len(),
{
    if ms.len() == 0 {
        cs.len() == 0
    } else {
        ||| exists|c: ChatMessage|
            cs.len() > 0 && #[trigger] message_matches(ms.last(), Some(c)) && cs.last() == c
                && converted(ms.drop_last(), cs.drop_last())
        ||| message_matches(ms.last(), None) && converted(ms.drop_last(), cs)
    }
}

/// The history sent to the model: the system prompt, then the
/// conversation's user and assistant texts and tool results.
pub fn chat_history(system_text: String, request: &LlmChatRequest) -> (r: Vec<ChatMessage>)
    ensures
        r@.len() >= 1,
        r@[0] == (ChatMessage::System { content: system_text }),
        converted(request.messages@, r@.skip(1)),
{
    let mut r: Vec<ChatMessage> = Vec::new();
    r.push(ChatMessage::System { content: system_text });
    let ms = &request.messages;
    for i in 0..ms.len()
        invariant
            r@.len() >= 1,
            r@[0] == (ChatMessage::System { content: system_text }),
            converted(ms@.take(i as int), r@.skip(1)),
    {
        let ghost before = r@;
        let c = convert_message(&ms[i]);
        assert(ms@.take(i + 1).drop_last() == ms@.take(i as int));
        assert(ms@.take(i + 1).last() == ms@[i as int]);
        match c {
            Some(msg) => {
                r.push(msg);
                assert(r@.skip(1).drop_last() == before.skip(1));
                assert(r@.skip(1).last() == msg);
            },
            None => {},
        }
    }
    assert(ms@.take(ms@.len() as int) == ms@);
    r
}

// ---------------------------------------------------------------------
// Rounds and streamed tool calls
// ---------------------------------------------------------------------

pub const MAX_ITERATIONS: usize = 15;

pub const TOO_MANY_ROUNDS: &'static str = "工具调用次数超过限制";

/// Starts another round with the model, at most fifteen per run.
pub fn next_iteration(iterations: usize) -> (r: Result<usize, String>)
    ensures
        iterations >= MAX_ITERATIONS ==> (r matches Err(e) && e@ == TOO_MANY_ROUNDS@),
        iterations < MAX_ITERATIONS ==> r == Ok::<usize, String>((iterations + 1) as usize),
{
    if iterations >= MAX_ITERATIONS {
        Err(owned(TOO_MANY_ROUNDS))
    } else {
        Ok(iterations + 1)
    }
}

/// A tool call being streamed: its id, its name and its arguments so far.
#[derive(Clone, Debug)]
pub struct ToolCallDraft {
    pub id: String,
    pub name: String,
    pub arguments: String,
}

/// A tool call draft with nothing received yet.
pub open spec fn empty_draft(d: ToolCallDraft) -> bool {
    d.id@.len() == 0 && d.name@.len() == 0 && d.arguments@.len() == 0
}

/// Takes in a piece of the tool call at `index`: the list grows to hold
/// it, an id or name replaces the one so far, and arguments are appended.
pub fn absorb_tool_delta(
    drafts: &mut Vec<ToolCallDraft>,
    index: usize,
    id: Option<String>,
    name: Option<String>,
    arguments: Option<String>,
)
    requires
        index < usize::MAX,
    ensures
        final(drafts)@.len() == if index < old(drafts)@.len() {
            old(drafts)@.len()
        } else {
            (index + 1) as nat
        },
        forall|j: int|
            0 <= j < final(drafts)@.len() && j != index ==> if j < old(drafts)@.len() {
                #[trigger] final(drafts)@[j] == old(drafts)@[j]
            } else {
                empty_draft(final(drafts)@[j])
            },
        final(drafts)@[index as int].id@ == (match id {
            Some(x) => x@,
            None => if index < old(drafts)@.len() {
                old(drafts)@[index as int].id@
            } else {
                Seq::<char>::empty()
            },
        }),
        final(drafts)@[index as int].name@ == (match name {
            Some(x) => x@,
            None => if index < old(drafts)@.len() {
                old(drafts)@[index as int].name@
            } else {
                Seq::<char>::empty()
            },
        }),
        final(drafts)@[index as int].arguments@ == (if index < old(drafts)@.len() {
            old(drafts)@[index as int].arguments@
        } else {
            Seq::<char>::empty()
        }) + (match arguments {
            Some(x) => x@,
            None => Seq::<char>::empty(),
        }),
{
    let ghost start = drafts@;
    while drafts.len() <= index
        invariant
            index < usize::MAX,
            start.len() <= drafts@.len(),
            drafts@.len() <= if index < start.len() {
                start.len()
            } else {
                (index + 1) as nat
            },
            forall|j: int| 0 <= j < start.len() ==> #[trigger] drafts@[j] == start[j],
            forall|j: int| start.len() <= j < drafts@.len() ==> empty_draft(#[trigger] drafts@[j]),
        decreases index + 1 - drafts@.len(),
    {
        drafts.push(ToolCallDraft { id: String::new(), name: String::new(), arguments: String::new() });
    }
    let mut d = drafts[index].clone_draft();
    match id {
        Some(x) => {
            d.id = x;
        },
        None => {},
    }
    match name {
        Some(x) => {
            d.name = x;
        },
        None => {},
    }
    match arguments {
        Some(x) => push_str(&mut d.arguments, x.as_str()),
        None => {},
    }
    drafts.set(index, d);
}

impl ToolCallDraft {
    /// A field-by-field copy.
    pub fn clone_draft(&self) -> (r: ToolCallDraft)
        ensures
            r == *self,
    {
        ToolCallDraft { id: self.id.clone(), name: self.name.clone(), arguments: self.arguments.clone() }
    }
}

fn is_empty_text(s: &str) -> (b: bool)
    ensures
        b == (s@.len() == 0),
{
    chars_of(s).len() == 0
}

/// The model's turn as kept in the history: its text, unless empty, and
/// the tool calls it made.
pub fn assistant_turn(content: String, drafts: &Vec<ToolCallDraft>) -> (m: ChatMessage)
    ensures
        m matches ChatMessage::Assistant { content: c, tool_calls: Some(calls) } && (if content@.len()
            == 0 {
            c is None
        } else {
            c == Some(content)
        }) && calls@.len() == drafts@.len() && forall|i: int|
            0 <= i < calls@.len() ==> (#[trigger] calls@[i]).id == drafts@[i].id && calls@[i].name
                == drafts@[i].name && calls@[i].arguments == drafts@[i].arguments,
{
    let mut calls: Vec<ChatToolCall> = Vec::new();
    for i in 0..drafts.len()
        invariant
            calls@.len() == i,
            forall|j: int|
                0 <= j < i ==> (#[trigger] calls@[j]).id == drafts@[j].id && calls@[j].name
                    == drafts@[j].name && calls@[j].arguments == drafts@[j].arguments,
    {
        calls.push(
            ChatToolCall {
                id: drafts[i].id.clone(),
                name: drafts[i].name.clone(),
                arguments: drafts[i].arguments.clone(),
            },
        );
    }
    let c = if is_empty_text(content.as_str()) {
        None
    } else {
        Some(content)
    };
    ChatMessage::Assistant { content: c, tool_calls: Some(calls) }
}

// ---------------------------------------------------------------------
// Tool calls
// ---------------------------------------------------------------------

/// Which tool a call is for.
#[derive(Clone, Copy, Debug, PartialEq, Eq, Structural)]
pub enum ToolKind {
    SuggestReport,
    AskUser,
    LoadSkill,
    Gateway,
}

/// The tool a call names; every unknown name goes to the data gateway.
pub fn tool_kind(name: &str) -> (k: ToolKind)
    ensures
        k == (if name@ == "suggest_report"@ {
            ToolKind::SuggestReport
        } else if name@ == "ask_user"@ {
            ToolKind::AskUser
        } else if name@ == "load_skill"@ {
            ToolKind::LoadSkill
        } else {
            ToolKind::Gateway
        }),
{
    if text_eq(name, "suggest_report") {
        ToolKind::SuggestReport
    } else if text_eq(name, "ask_user") {
        ToolKind::AskUser
    } else if text_eq(name, "load_skill") {
        ToolKind::LoadSkill
    } else {
        ToolKind::Gateway
    }
}

pub const DEFAULT_SUGGESTION: &'static str = "数据分析已完成";

pub const SUGGEST_REPORT_ACK: &'static str = "{\"ok\":true}";

pub const DEFAULT_QUESTION: &'static str = "需要你的输入";

pub const OTHER_OPTION: &'static str = "其他/备注";

pub const NO_ANSWER: &'static str = "(用户未响应)";

/// The text a report suggestion shows: its summary, else a default.
pub fn suggestion_text(summary: Option<&str>) -> (r: String)
    ensures
        r@ == (match summary {
            Some(s) => s@,
            None => DEFAULT_SUGGESTION@,
        }),
{
    match summary {
        Some(s) => owned(s),
        None => owned(DEFAULT_SUGGESTION),
    }
}

/// A question put to the user: its text, else a default.
pub fn question_text(question: Option<&str>) -> (r: String)
    ensures
        r@ == (match question {
            Some(s) => s@,
            None => DEFAULT_QUESTION@,
        }),
{
    match question {
        Some(s) => owned(s),
        None => owned(DEFAULT_QUESTION),
    }
}

/// The options of a question with the free-form `其他/备注` added last.
pub fn with_other_option(options: Vec<AskUserOption>) -> (r: Vec<AskUserOption>)
    ensures
        r@.len() == options@.len() + 1,
        r@.take(options@.len() as int) == options@,
        r@.last().label@ == OTHER_OPTION@,
        r@.last().description is None,
{
    let mut r = options;
    r.push(AskUserOption { label: owned(OTHER_OPTION), description: None });
    r
}

/// The user's answer, or a note that none came.
pub fn answer_text(answer: Option<String>) -> (r: String)
    ensures
        r@ == (match answer {
            Some(a) => a@,
            None => NO_ANSWER@,
        }),
{
    match answer {
        Some(a) => a,
        None => owned(NO_ANSWER),
    }
}

/// The items of a pretty-printed list: each on its own line, indented by
/// two spaces, quoted, and all but the last followed by a comma.
pub open spec fn pretty_lines(items: Seq<Seq<char>>) -> Seq<char>
    decreases items.len(),
{
    if items.len() == 0 {
        Seq::empty()
    } else {
        pretty_lines(items.drop_last()) + (if items.len() == 1 {
            "\n  "@
        } else {
            ",\n  "@
        }) + json_quoted(items.last())
    }
}

/// What `serde_json::to_string_pretty` writes for a list of strings: `[]`
/// when it is empty, else the items one per line between brackets.
pub open spec fn pretty_json_strings(items: Seq<Seq<char>>) -> Seq<char> {
    if items.len() == 0 {
        "[]"@
    } else {
        "["@ + pretty_lines(items) + "\n]"@
    }
}

/// `serde_json::to_string_pretty` on a list of strings (which cannot fail).
#[verifier::external_body]
fn pretty_json_of(items: &Vec<String>) -> (r: String)
    ensures
        r@ == pretty_json_strings(texts(items@)),
{
    match serde_json::to_string_pretty(items) {
        Ok(text) => text,
        Err(_) => format!("{:?}", items),
    }
}

/// The tool result of a round of questions: the answers as a JSON list.
pub fn ask_user_result(answers: &Vec<String>) -> (r: String)
    ensures
        r@ == pretty_json_strings(texts(answers@)),
{
    pretty_json_of(answers)
}

/// The title shown when a skill was loaded.
pub fn skill_loaded_title(skill_name: &str) -> (r: String)
    ensures
        r@ == "已加载「"@ + skill_name@ + "」能力"@,
{
    let mut r = owned("已加载「");
    push_str(&mut r, skill_name);
    push_str(&mut r, "」能力");
    r
}

/// The tool result when no skill has the name asked for.
pub fn skill_missing_message(skill_name: &str) -> (r: String)
    ensures
        r@ == "未找到名为「"@ + skill_name@ + "」的能力。请根据系统提示词中的 L1 元数据列表选择准确名称。"@,
{
    let mut r = owned("未找到名为「");
    push_str(&mut r, skill_name);
    push_str(&mut r, "」的能力。请根据系统提示词中的 L1 元数据列表选择准确名称。");
    r
}

/// The title of a data read when the model gave no purpose: the call's name.
pub fn fallback_skill_title(api_name: &str) -> (r: String)
    ensures
        r@ == api_name@,
{
    owned(api_name)
}

/// The title shown for a data read: the purpose the model gave, unless
/// empty, else the call's name.
pub fn skill_title(purpose: Option<&str>, api_name: &str) -> (r: String)
    ensures
        r@ == (match purpose {
            Some(p) => if p@.len() > 0 {
                p@
            } else {
                api_name@
            },
            None => api_name@,
        }),
{
    match purpose {
        Some(p) => if !is_empty_text(p) {
            owned(p)
        } else {
            fallback_skill_title(api_name)
        },
        None => fallback_skill_title(api_name),
    }
}

/// The prompt text of a consent request: what is read, then a note that
/// consent is needed.
pub fn consent_copy(purpose: Option<&str>, consent_api: Option<&str>) -> (r: String)
    ensures
        r@ == (match purpose {
            Some(p) => if p@.len() > 0 {
                p@
            } else {
                match consent_api {
                    Some(a) => a@,
                    None => "读取数据"@,
                }
            },
            None => match consent_api {
                Some(a) => a@,
                None => "读取数据"@,
            },
        }) + " — 需要你的授权"@,
{
    let api = match consent_api {
        Some(a) => a,
        None => "读取数据",
    };
    let mut r = skill_title(purpose, api);
    push_str(&mut r, " — 需要你的授权");
    r
}

/// A lower-case hexadecimal digit.
pub open spec fn hex_lower(d: int) -> char {
    if d < 10 {
        (48 + d) as char
    } else {
        (87 + d) as char
    }
}

/// How `serde_json` writes a character inside a string: the quote, the
/// backslash and the control characters escaped (the common ones by
/// letter, the others as `\u00XX`), everything else as it is.
pub open spec fn escaped_char(c: char) -> Seq<char> {
    if c == '"' {
        seq!['\\', '"']
    } else if c == '\\' {
        seq!['\\', '\\']
    } else if c == '\x08' {
        seq!['\\', 'b']
    } else if c == '\t' {
        seq!['\\', 't']
    } else if c == '\n' {
        seq!['\\', 'n']
    } else if c == '\x0c' {
        seq!['\\', 'f']
    } else if c == '\r' {
        seq!['\\', 'r']
    } else if (c as int) < 32 {
        seq!['\\', 'u', '0', '0', hex_lower((c as int) / 16), hex_lower((c as int) % 16)]
    } else {
        seq![c]
    }
}

/// A text with every character escaped as `serde_json` writes it.
pub open spec fn escaped(s: Seq<char>) -> Seq<char>
    decreases s.len(),
{
    if s.len() == 0 {
        Seq::empty()
    } else {
        escaped(s.drop_last()) + escaped_char(s.last())
    }
}

/// What `serde_json::to_string` writes for a string: it escaped, between
/// double quotes.
pub open spec fn json_quoted(s: Seq<char>) -> Seq<char> {
    seq!['"'] + escaped(s) + seq!['"']
}

/// `serde_json::to_string` on a string (which cannot fail).
#[verifier::external_body]
pub(crate) fn quote_json(s: &str) -> (r: String)
    ensures
        r@ == json_quoted(s@),
{
    match serde_json::to_string(s) {
        Ok(text) => text,
        Err(_) => String::new(),
    }
}

/// `{"error":…}` with the message as a JSON string.
pub open spec fn error_json(message: Seq<char>) -> Seq<char> {
    "{\"error\":"@ + json_quoted(message) + "}"@
}

/// How a data read through the gateway ended, for the model.
pub enum ReadOutcome {
    /// The data, as pretty-printed JSON.
    Data { pretty: String },
    /// A failure, with its message if there is one.
    Failed { message: Option<String> },
    /// The user refused consent.
    Denied,
    /// The read failed after consent was granted, with its message if any.
    FailedAfterConsent { message: Option<String> },
}

pub const DENIED_RESULT: &'static str = "用户拒绝授权，已跳过本次数据读取。";

/// The tool result the model receives for a data read.
pub fn read_result_text(outcome: ReadOutcome) -> (r: String)
    ensures
        r@ == (match outcome {
            ReadOutcome::Data { pretty } => pretty@,
            ReadOutcome::Failed { message } => error_json(
                match message {
                    Some(m) => m@,
                    None => "未知错误"@,
                },
            ),
            ReadOutcome::Denied => error_json(DENIED_RESULT@),
            ReadOutcome::FailedAfterConsent { message } => error_json(
                match message {
                    Some(m) => m@,
                    None => "授权后执行失败"@,
                },
            ),
        }),
{
    let message = match outcome {
        ReadOutcome::Data { pretty } => return pretty,
        ReadOutcome::Failed { message } => match message {
            Some(m) => m,
            None => owned("未知错误"),
        },
        ReadOutcome::Denied => owned(DENIED_RESULT),
        ReadOutcome::FailedAfterConsent { message } => match message {
            Some(m) => m,
            None => owned("授权后执行失败"),
        },
    };
    let mut r = owned("{\"error\":");
    let q = quote_json(message.as_str());
    push_str(&mut r, q.as_str());
    push_str(&mut r, "}");
    r
}

/// The first `n` characters of `s` (all of them when it is shorter).
pub open spec fn first_chars(s: Seq<char>, n: int) -> Seq<char> {
    if s.len() <= n {
        s
    } else {
        s.take(n)
    }
}

pub(crate) fn take_chars(s: &str, n: usize) -> (r: Vec<char>)
    ensures
        r@ == first_chars(s@, n as int),
{
    let v = chars_of(s);
    if v.len() <= n {
        return v;
    }
    crate::text::slice_chars(&v, 0, n)
}

/// A text shortened for display: its first `max_chars` characters and
/// `...` when it is longer.
pub fn truncate_for_summary(text: &str, max_chars: usize) -> (r: String)
    ensures
        r@ == (if text@.len() <= max_chars {
            text@
        } else {
            text@.take(max_chars as int) + "..."@
        }),
{
    let v = chars_of(text);
    if v.len() <= max_chars {
        return owned(text);
    }
    let mut r = string_of(&crate::text::slice_chars(&v, 0, max_chars));
    push_str(&mut r, "...");
    r
}

pub const MAX_TOOL_RESULT_BYTES: usize = 8000;

/// A tool result kept within the model's context: longer than 8000 bytes,
/// it is cut to its first 8000 characters with a note of its length in bytes.
pub fn clip_tool_result(text: String) -> (r: String)
    ensures
        crate::config::byte_len(text@) <= MAX_TOOL_RESULT_BYTES ==> r@ == text@,
        crate::config::byte_len(text@) > MAX_TOOL_RESULT_BYTES ==> r@ == first_chars(text@, 8000) + "...\n[结果已截断，原始长度 "@
            + crate::text::nat_decimal(crate::config::byte_len(text@) as nat) + " 字符]"@,
{
    let t = text.as_str();
    let len = t.len();
    assert(t.spec_bytes() == vstd::utf8::encode_utf8(text@));
    if len <= MAX_TOOL_RESULT_BYTES {
        return text;
    }
    let head = take_chars(text.as_str(), 8000);
    let mut r = String::new();
    push_chars(&mut r, &head);
    push_str(&mut r, "...\n[结果已截断，原始长度 ");
    crate::text::push_u64(&mut r, len as u64);
    push_str(&mut r, " 字符]");
    r
}

// ---------------------------------------------------------------------
// A chat run
// ---------------------------------------------------------------------

/// What a chat run keeps from round to round.
pub struct ChatRun {
    pub iterations: usize,
    pub access_records: Vec<DataAccessRecord>,
}

impl ChatRun {
    /// A run before its first round.
    pub fn new() -> (r: Self)
        ensures
            r.iterations == 0,
            r.access_records@.len() == 0,
    {
        ChatRun { iterations: 0, access_records: Vec::new() }
    }

    /// Starts a round; a run stops with an error after fifteen.
    pub fn begin_round(&mut self) -> (r: Result<(), String>)
        ensures
            old(self).iterations >= MAX_ITERATIONS ==> (r matches Err(e) && e@ == TOO_MANY_ROUNDS@)
                && final(self).iterations == old(self).iterations,
            old(self).iterations < MAX_ITERATIONS ==> r is Ok && final(self).iterations == old(
                self,
            ).iterations + 1,
            final(self).access_records == old(self).access_records,
    {
        match next_iteration(self.iterations) {
            Ok(n) => {
                self.iterations = n;
                Ok(())
            },
            Err(e) => Err(e),
        }
    }

    /// Keeps the record of a read.
    pub fn record(&mut self, record: DataAccessRecord)
        ensures
            final(self).access_records@ == old(self).access_records@.push(record),
            final(self).iterations == old(self).iterations,
    {
        self.access_records.push(record);
    }
}

// ---------------------------------------------------------------------
// The steps of a run
// ---------------------------------------------------------------------

/// What `serde_json::to_string_pretty` writes for `{"filePath": …, "title": …}`.
pub open spec fn saved_report_json(file_path: Seq<char>, title: Seq<char>) -> Seq<char> {
    "{\n  \"filePath\": "@ + json_quoted(file_path) + ",\n  \"title\": "@ + json_quoted(title) + "\n}"@
}

/// The text the model receives for what a read returned: the data's JSON
/// text, where a saved report was, or `null`.
pub open spec fn gateway_data_text(d: Option<GatewayData>) -> Seq<char> {
    match d {
        Some(GatewayData::Json { text }) => text@,
        Some(GatewayData::SavedReport { file_path, title }) => saved_report_json(file_path@, title@),
        None => "null"@,
    }
}

fn data_text(d: Option<GatewayData>) -> (r: String)
    ensures
        r@ == gateway_data_text(d),
{
    match d {
        Some(GatewayData::Json { text }) => text,
        Some(GatewayData::SavedReport { file_path, title }) => {
            let mut r = owned("{\n  \"filePath\": ");
            let p = quote_json(file_path.as_str());
            push_str(&mut r, p.as_str());
            push_str(&mut r, ",\n  \"title\": ");
            let t = quote_json(title.as_str());
            push_str(&mut r, t.as_str());
            push_str(&mut r, "\n}");
            r
        },
        None => owned("null"),
    }
}

/// What happened in a run, as its loop hands it over.
pub enum ChatEvent {
    /// The user stopped the run.
    Canceled,
    /// The model finished a turn with this text and these tool calls.
    Reply { content: String, drafts: Vec<ToolCallDraft> },
    /// A read through the data gateway for a tool call answered.
    GatewayDone { call_id: String, result: GatewayResult },
    /// The user answered the consent a read asked for; `consents` are the
    /// keys granted for the run before.
    ConsentAnswer { call_id: String, pending: GatewayResult, granted: bool, consents: Vec<String> },
    /// The read made again after consent answered.
    RetryDone { call_id: String, result: GatewayResult },
}

/// What the loop does next.
pub enum ChatAction {
    /// Tell the window the run was canceled, and stop.
    EmitCanceled,
    /// The model is done: show this summary of what was read (if any), and stop.
    Finish { summary: Option<LlmChatEvent> },
    /// Keep this model turn in the history and run its tool calls.
    RunTools { assistant: ChatMessage },
    /// Ask the user to consent to reading through this call.
    AwaitConsent { consent_api: String },
    /// Grant the consent to this call for the run, then read once more
    /// with these consent keys.
    Retry { consent_api: String, consents: Vec<String> },
    /// Answer the tool call with this text.
    ToolResult { text: String },
}

/// The records after a read's record (if any) is kept under its call.
pub open spec fn kept_record(
    before: Seq<DataAccessRecord>,
    after: Seq<DataAccessRecord>,
    record: Option<DataAccessRecord>,
    call_id: Seq<char>,
) -> bool {
    match record {
        None => after == before,
        Some(rec) => after.len() == before.len() + 1 && after.drop_last() == before && after.last().call_id@
            == call_id && after.last() == (DataAccessRecord { call_id: after.last().call_id, ..rec }),
    }
}

fn keep_record(run: &mut ChatRun, record: Option<DataAccessRecord>, call_id: &str)
    ensures
        kept_record(old(run).access_records@, final(run).access_records@, record, call_id@),
        final(run).iterations == old(run).iterations,
{
    match record {
        Some(rec) => {
            let ghost before = run.access_records@;
            run.record(with_call_id(rec, call_id));
            assert(run.access_records@.drop_last() == before);
        },
        None => {},
    }
}

/// Decides the next step of a run. A cancelation stops it; a model turn
/// without tool calls ends it with the summary of what it read, one with
/// tool calls is kept and its calls run. A read that succeeded, or failed
/// without asking for consent, keeps its record and answers the call with
/// its data or its error; one that asks for consent waits for the user. A
/// refusal keeps the record as denied and answers with the refusal; a
/// consent grants the call and reads once more with it added; the second
/// read keeps its record and answers with its data or its error.
pub fn chat_step(run: &mut ChatRun, job_id: &str, event: ChatEvent) -> (a: ChatAction)
    ensures
        final(run).iterations == old(run).iterations,
        match event {
            ChatEvent::Canceled => a is EmitCanceled && *final(run) == *old(run),
            ChatEvent::Reply { content, drafts } => *final(run) == *old(run) && if drafts@.len() == 0 {
                a matches ChatAction::Finish { summary } && (old(run).access_records@.len() == 0
                    ==> summary is None) && (old(run).access_records@.len() > 0 ==> (summary matches Some(
                    ev,
                ) && summary_event(ev, job_id@, old(run).access_records@)))
            } else {
                a matches ChatAction::RunTools { assistant } && assistant matches ChatMessage::Assistant {
                    content: c,
                    tool_calls: Some(calls),
                } && (if content@.len() == 0 {
                    c is None
                } else {
                    c == Some(content)
                }) && calls@.len() == drafts@.len() && forall|i: int|
                    0 <= i < calls@.len() ==> (#[trigger] calls@[i]).id == drafts@[i].id && calls@[i].name
                        == drafts@[i].name && calls@[i].arguments == drafts@[i].arguments
            },
            ChatEvent::GatewayDone { call_id, result } => if result.success {
                kept_record(old(run).access_records@, final(run).access_records@, result.access_record, call_id@)
                    && (a matches ChatAction::ToolResult { text } && text@ == gateway_data_text(result.data))
            } else if result.requires_consent == Some(true) {
                *final(run) == *old(run) && (a matches ChatAction::AwaitConsent { consent_api } && consent_api@
                    == match result.consent_api {
                    Some(c) => c@,
                    None => Seq::empty(),
                })
            } else {
                kept_record(old(run).access_records@, final(run).access_records@, result.access_record, call_id@)
                    && (a matches ChatAction::ToolResult { text } && text@ == error_json(
                    match result.error {
                        Some(m) => m@,
                        None => "未知错误"@,
                    },
                ))
            },
            ChatEvent::ConsentAnswer { call_id, pending, granted, consents } => if granted {
                *final(run) == *old(run) && (a matches ChatAction::Retry { consent_api, consents: with } && (
                consent_api@ == match pending.consent_api {
                    Some(c) => c@,
                    None => Seq::empty(),
                }) && with@ == consents@.push(consent_api))
            } else {
                a matches ChatAction::ToolResult { text } && text@ == error_json(DENIED_RESULT@) && match pending.access_record {
                    None => final(run).access_records@ == old(run).access_records@,
                    Some(rec) => final(run).access_records@.len() == old(run).access_records@.len() + 1
                        && final(run).access_records@.drop_last() == old(run).access_records@
                        && final(run).access_records@.last().call_id@ == call_id@
                        && final(run).access_records@.last().status@ == "denied"@
                        && final(run).access_records@.last().summary_text@ == "未读取："@ + rec.display_name@,
                }
            },
            ChatEvent::RetryDone { call_id, result } => kept_record(
                old(run).access_records@,
                final(run).access_records@,
                result.access_record,
                call_id@,
            ) && (a matches ChatAction::ToolResult { text } && text@ == if result.success {
                gateway_data_text(result.data)
            } else {
                error_json(
                    match result.error {
                        Some(m) => m@,
                        None => "授权后执行失败"@,
                    },
                )
            }),
        },
{
    match event {
        ChatEvent::Canceled => ChatAction::EmitCanceled,
        ChatEvent::Reply { content, drafts } => {
            if drafts.len() == 0 {
                ChatAction::Finish { summary: access_summary_event(job_id, &run.access_records) }
            } else {
                ChatAction::RunTools { assistant: assistant_turn(content, &drafts) }
            }
        },
        ChatEvent::GatewayDone { call_id, result } => {
            if result.success {
                keep_record(run, result.access_record, call_id.as_str());
                let text = read_result_text(ReadOutcome::Data { pretty: data_text(result.data) });
                ChatAction::ToolResult { text }
            } else if result.requires_consent == Some(true) {
                let consent_api = match result.consent_api {
                    Some(c) => c,
                    None => String::new(),
                };
                ChatAction::AwaitConsent { consent_api }
            } else {
                keep_record(run, result.access_record, call_id.as_str());
                ChatAction::ToolResult { text: read_result_text(ReadOutcome::Failed { message: result.error }) }
            }
        },
        ChatEvent::ConsentAnswer { call_id, pending, granted, consents } => {
            if granted {
                let consent_api = match pending.consent_api {
                    Some(c) => c,
                    None => String::new(),
                };
                let mut with = consents;
                with.push(consent_api.clone());
                ChatAction::Retry { consent_api, consents: with }
            } else {
                match pending.access_record {
                    Some(rec) => {
                        let ghost before = run.access_records@;
                        run.record(denied_record(rec, call_id.as_str()));
                        assert(run.access_records@.drop_last() == before);
                    },
                    None => {},
                }
                ChatAction::ToolResult { text: read_result_text(ReadOutcome::Denied) }
            }
        },
        ChatEvent::RetryDone { call_id, result } => {
            keep_record(run, result.access_record, call_id.as_str());
            let text = if result.success {
                read_result_text(ReadOutcome::Data { pretty: data_text(result.data) })
            } else {
                read_result_text(ReadOutcome::FailedAfterConsent { message: result.error })
            };
            ChatAction::ToolResult { text }
        },
    }
}

} // verus!
