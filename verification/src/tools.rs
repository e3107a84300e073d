//! The tools offered to the model in a chat, with the JSON schemas of
//! their arguments.
use crate::json::{as_array, as_bool, as_str, get, lemma_member_at, Json, JsonMember};
use crate::text::owned;
use vstd::prelude::*;

verus! {

/// A function tool: its name, what it is for, and the schema of its
/// arguments.
#[derive(Debug)]
pub struct ToolSpec {
    pub name: String,
    pub description: String,
    pub parameters: Json,
}

/// The keys of an object's members, in order.
pub open spec fn member_keys(j: Option<Json>) -> Option<Seq<Seq<char>>> {
    match j {
        Some(Json::Object(ms)) => Some(ms@.map_values(|m: JsonMember| m.key@)),
        _ => None,
    }
}

/// The items of an array are these texts, in order.
pub open spec fn texts_are(j: Option<Json>, names: Seq<Seq<char>>) -> bool {
    match as_array(j) {
        Some(items) => items.len() == names.len() && forall|k: int|
            0 <= k < items.len() ==> as_str(Some(#[trigger] items[k])) == Some(names[k]),
        None => false,
    }
}

/// An object schema with these properties (by name), these required
/// names, and whether other properties are allowed.
pub open spec fn object_schema_of(
    p: Json,
    props: Seq<Seq<char>>,
    required: Seq<Seq<char>>,
    additional: bool,
) -> bool {
    &&& as_str(get(p, "type"@)) == Some("object"@)
    &&& member_keys(get(p, "properties"@)) == Some(props)
    &&& texts_are(get(p, "required"@), required)
    &&& as_bool(get(p, "additionalProperties"@)) == Some(additional)
}

/// A string property with this description.
pub open spec fn string_prop_of(p: Json, description: Seq<char>) -> bool {
    &&& as_str(get(p, "type"@)) == Some("string"@)
    &&& as_str(get(p, "description"@)) == Some(description)
}

fn text(s: &str) -> (j: Json)
    ensures
        as_str(Some(j)) == Some(s@),
{
    Json::Str(owned(s))
}

fn entry(key: &str, value: Json) -> (m: JsonMember)
    ensures
        m.key@ == key@,
        m.value == value,
{
    JsonMember { key: owned(key), value }
}

/// `{"type": "string", "description": …}`.
fn string_prop(description: &str) -> (j: Json)
    ensures
        string_prop_of(j, description@),
{
    let mut ms: Vec<JsonMember> = Vec::new();
    ms.push(entry("type", text("string")));
    ms.push(entry("description", text(description)));
    proof {
        reveal_strlit("type");
        reveal_strlit("description");
        lemma_member_at(ms@, 0, "type"@);
        assert(ms@[0].key@.len() != "description"@.len());
        lemma_member_at(ms@, 1, "description"@);
    }
    Json::Object(ms)
}

fn texts(names: &[&str]) -> (j: Json)
    ensures
        texts_are(Some(j), names@.map_values(|s: &str| s@)),
{
    let mut items: Vec<Json> = Vec::new();
    for i in 0..names.len()
        invariant
            items@.len() == i,
            forall|k: int| 0 <= k < i ==> as_str(Some(#[trigger] items@[k])) == Some(names@[k]@),
    {
        items.push(text(names[i]));
    }
    Json::Array(items)
}

/// `{"type": "object", "properties": …, "required": […], "additionalProperties": …}`.
fn object_schema(props: Vec<JsonMember>, required: &[&str], additional: bool) -> (j: Json)
    ensures
        as_str(get(j, "type"@)) == Some("object"@),
        get(j, "properties"@) == Some(Json::Object(props)),
        texts_are(get(j, "required"@), required@.map_values(|s: &str| s@)),
        as_bool(get(j, "additionalProperties"@)) == Some(additional),
{
    let mut ms: Vec<JsonMember> = Vec::new();
    ms.push(entry("type", text("object")));
    ms.push(entry("properties", Json::Object(props)));
    ms.push(entry("required", texts(required)));
    ms.push(entry("additionalProperties", Json::Bool(additional)));
    proof {
        reveal_strlit("type");
        reveal_strlit("properties");
        reveal_strlit("required");
        reveal_strlit("additionalProperties");
        lemma_member_at(ms@, 0, "type"@);
        assert(ms@[0].key@.len() != "properties"@.len());
        lemma_member_at(ms@, 1, "properties"@);
        assert(ms@[0].key@.len() != "required"@.len());
        assert(ms@[1].key@.len() != "required"@.len());
        lemma_member_at(ms@, 2, "required"@);
        assert(ms@[0].key@.len() != "additionalProperties"@.len());
        assert(ms@[1].key@.len() != "additionalProperties"@.len());
        assert(ms@[2].key@.len() != "additionalProperties"@.len());
        lemma_member_at(ms@, 3, "additionalProperties"@);
    }
    Json::Object(ms)
}

pub const GATEWAY_API_NAME_DESCRIPTION: &'static str = "统一数据网关接口名。由 Skill 文档定义语义，网关负责白名单校验、参数校验和隐私授权；例如 /store/search、/shelf/sync、/review/list/mine";

pub const GATEWAY_PURPOSE_DESCRIPTION: &'static str = "必填。用一句面向用户的中文说明正在读取什么数据、为什么需要。例如「查看《原子习惯》的划线笔记」「读取你的个人想法列表」。该说明会直接展示给用户作为授权提示，不填会退回原始接口名。";

/// The schema of the data gateway tool's arguments: `api_name` and
/// `purpose`, both required, other (business) parameters allowed beside.
pub fn invoke_data_gateway_tool_schema() -> (j: Json)
    ensures
        object_schema_of(j, seq!["api_name"@, "purpose"@], seq!["api_name"@, "purpose"@], true),
        ({
            let ps = get(j, "properties"@);
            &&& ps matches Some(p) && get(p, "api_name"@) matches Some(a) && string_prop_of(
                a,
                GATEWAY_API_NAME_DESCRIPTION@,
            )
            &&& ps matches Some(p) && get(p, "purpose"@) matches Some(b) && string_prop_of(
                b,
                GATEWAY_PURPOSE_DESCRIPTION@,
            )
        }),
{
    let mut props: Vec<JsonMember> = Vec::new();
    props.push(entry("api_name", string_prop(GATEWAY_API_NAME_DESCRIPTION)));
    props.push(entry("purpose", string_prop(GATEWAY_PURPOSE_DESCRIPTION)));
    let required: [&str; 2] = ["api_name", "purpose"];
    proof {
        reveal_strlit("api_name");
        reveal_strlit("purpose");
        lemma_member_at(props@, 0, "api_name"@);
        assert(props@[0].key@.len() != "purpose"@.len());
        lemma_member_at(props@, 1, "purpose"@);
        assert(props@.map_values(|m: JsonMember| m.key@) =~= seq!["api_name"@, "purpose"@]);
        assert(required@.map_values(|s: &str| s@) =~= seq!["api_name"@, "purpose"@]);
    }
    object_schema(props, &required, true)
}

/// `{"type": "array", "items": …, "description": …}`.
pub open spec fn array_prop_of(p: Json, items: Json, description: Seq<char>) -> bool {
    &&& as_str(get(p, "type"@)) == Some("array"@)
    &&& get(p, "items"@) == Some(items)
    &&& as_str(get(p, "description"@)) == Some(description)
}

fn array_prop(items: Json, description: &str) -> (j: Json)
    ensures
        array_prop_of(j, items, description@),
{
    let mut ms: Vec<JsonMember> = Vec::new();
    ms.push(entry("type", text("array")));
    ms.push(entry("items", items));
    ms.push(entry("description", text(description)));
    proof {
        reveal_strlit("type");
        reveal_strlit("items");
        reveal_strlit("description");
        lemma_member_at(ms@, 0, "type"@);
        assert(ms@[0].key@.len() != "items"@.len());
        lemma_member_at(ms@, 1, "items"@);
        assert(ms@[0].key@.len() != "description"@.len());
        assert(ms@[1].key@.len() != "description"@.len());
        lemma_member_at(ms@, 2, "description"@);
    }
    Json::Object(ms)
}

/// The tool has this name and description, and takes an object of these
/// properties, these required, and no others.
pub open spec fn tool_is(
    t: ToolSpec,
    name: Seq<char>,
    description: Seq<char>,
    props: Seq<Seq<char>>,
    required: Seq<Seq<char>>,
    additional: bool,
) -> bool {
    &&& t.name@ == name
    &&& t.description@ == description
    &&& object_schema_of(t.parameters, props, required, additional)
}

pub const GATEWAY_TOOL_DESCRIPTION: &'static str = "通过应用内统一数据网关获取阅读数据。\n必填 api_name 与 purpose；业务参数和 api_name 平铺在同一层，不要包在 params/data/body 中；\n接口名、参数和返回值解释以 Skill 文档为准；若目标接口属于核心数据能力，必须先加载 `shuji-weread`；敏感数据需用户授权，未授权前禁止调用对应接口或编造原文。";

pub const ASK_USER_DESCRIPTION: &'static str = "向用户批量提问。一次调用传入多个问题，前端会逐个展示给用户。每个问题支持单选（提供 options）或自由文本（不提供 options）。系统会自动为每个问题追加「其他/备注」选项。";

pub const SUGGEST_REPORT_DESCRIPTION: &'static str = "在用户主动要求生成/保存/导出报告，或完成一个完整分析主题且适合沉淀为报告时调用。调用后前端会展示一个带「生成报告」按钮的卡片。不适合生成报告的小问题可以直接回答，不需要调用。";

pub const LOAD_SKILL_DESCRIPTION: &'static str = "按需加载扩展能力的完整知识。当用户意图涉及小红书图文设计、报告视觉规范等领域时，调用此工具加载对应能力文档，获取详细的设计规则、风格约束和工作流指导。加载后内容会注入当前对话，后续回答必须遵循加载的规范。";

pub const QUESTIONS_DESCRIPTION: &'static str = "问题列表，前端会逐个展示";

pub const OPTIONS_DESCRIPTION: &'static str = "单选选项列表，不提供时为自由文本模式";

/// The schema of one option of a question: a `label` and an optional `description`.
fn option_schema() -> (j: Json)
    ensures
        object_schema_of(j, seq!["label"@, "description"@], seq!["label"@], false),
{
    let mut props: Vec<JsonMember> = Vec::new();
    props.push(entry("label", string_prop("选项显示文本")));
    props.push(entry("description", string_prop("选项补充说明，可选")));
    let required: [&str; 1] = ["label"];
    proof {
        assert(props@.map_values(|m: JsonMember| m.key@) =~= seq!["label"@, "description"@]);
        assert(required@.map_values(|s: &str| s@) =~= seq!["label"@]);
    }
    object_schema(props, &required, false)
}

/// The schema of one question: its text, and the options to choose from
/// (none for a free answer).
fn question_schema() -> (j: Json)
    ensures
        object_schema_of(j, seq!["question"@, "options"@], seq!["question"@], false),
        get(j, "properties"@) matches Some(ps) && get(ps, "options"@) matches Some(o) && (exists|it: Json|
            array_prop_of(o, it, OPTIONS_DESCRIPTION@) && object_schema_of(
                it,
                seq!["label"@, "description"@],
                seq!["label"@],
                false,
            )),
{
    let option = option_schema();
    let ghost it = option;
    let options = array_prop(option, OPTIONS_DESCRIPTION);
    let ghost o = options;
    let mut props: Vec<JsonMember> = Vec::new();
    props.push(entry("question", string_prop("问题文本")));
    props.push(entry("options", options));
    let required: [&str; 1] = ["question"];
    proof {
        reveal_strlit("question");
        reveal_strlit("options");
        assert(props@[0].key@.len() != "options"@.len());
        lemma_member_at(props@, 1, "options"@);
        assert(props@.map_values(|m: JsonMember| m.key@) =~= seq!["question"@, "options"@]);
        assert(required@.map_values(|s: &str| s@) =~= seq!["question"@]);
    }
    let j = object_schema(props, &required, false);
    proof {
        assert(array_prop_of(o, it, OPTIONS_DESCRIPTION@));
    }
    j
}

fn tool(name: &str, description: &str, parameters: Json) -> (t: ToolSpec)
    ensures
        t.name@ == name@,
        t.description@ == description@,
        t.parameters == parameters,
{
    ToolSpec { name: owned(name), description: owned(description), parameters }
}

/// The four tools of a chat, in this order: the data gateway, asking the
/// user, suggesting a report, and loading a skill.
pub fn build_tools() -> (r: Vec<ToolSpec>)
    ensures
        r@.len() == 4,
        tool_is(
            r@[0],
            "invoke_data_gateway"@,
            GATEWAY_TOOL_DESCRIPTION@,
            seq!["api_name"@, "purpose"@],
            seq!["api_name"@, "purpose"@],
            true,
        ),
        tool_is(r@[1], "ask_user"@, ASK_USER_DESCRIPTION@, seq!["questions"@], seq!["questions"@], false),
        get(r@[1].parameters, "properties"@) matches Some(ps) && get(ps, "questions"@) matches Some(q)
            && (exists|it: Json|
            array_prop_of(q, it, QUESTIONS_DESCRIPTION@) && object_schema_of(
                it,
                seq!["question"@, "options"@],
                seq!["question"@],
                false,
            )),
        tool_is(
            r@[2],
            "suggest_report"@,
            SUGGEST_REPORT_DESCRIPTION@,
            seq!["summary"@],
            seq!["summary"@],
            false,
        ),
        tool_is(r@[3], "load_skill"@, LOAD_SKILL_DESCRIPTION@, seq!["skill_name"@], seq!["skill_name"@], false),
{
    let mut tools: Vec<ToolSpec> = Vec::new();
    tools.push(tool("invoke_data_gateway", GATEWAY_TOOL_DESCRIPTION, invoke_data_gateway_tool_schema()));

    let question = question_schema();
    let ghost it = question;
    let questions = array_prop(question, QUESTIONS_DESCRIPTION);
    let ghost q = questions;
    let mut ask_props: Vec<JsonMember> = Vec::new();
    ask_props.push(entry("questions", questions));
    let ask_required: [&str; 1] = ["questions"];
    proof {
        reveal_strlit("questions");
        lemma_member_at(ask_props@, 0, "questions"@);
        assert(ask_props@.map_values(|m: JsonMember| m.key@) =~= seq!["questions"@]);
        assert(ask_required@.map_values(|s: &str| s@) =~= seq!["questions"@]);
    }
    let ask = object_schema(ask_props, &ask_required, false);
    proof {
        assert(array_prop_of(q, it, QUESTIONS_DESCRIPTION@));
    }
    tools.push(tool("ask_user", ASK_USER_DESCRIPTION, ask));

    let mut summary_props: Vec<JsonMember> = Vec::new();
    summary_props.push(
        entry("summary", string_prop("一句话说明已分析的内容，例如「你的 2025 年阅读数据已经分析完毕」")),
    );
    let summary_required: [&str; 1] = ["summary"];
    proof {
        assert(summary_props@.map_values(|m: JsonMember| m.key@) =~= seq!["summary"@]);
        assert(summary_required@.map_values(|s: &str| s@) =~= seq!["summary"@]);
    }
    tools.push(
        tool("suggest_report", SUGGEST_REPORT_DESCRIPTION, object_schema(summary_props, &summary_required, false)),
    );

    let mut skill_props: Vec<JsonMember> = Vec::new();
    skill_props.push(entry("skill_name", string_prop("要加载的能力名称，必须是系统提示词中列出的可用能力之一")));
    let skill_required: [&str; 1] = ["skill_name"];
    proof {
        assert(skill_props@.map_values(|m: JsonMember| m.key@) =~= seq!["skill_name"@]);
        assert(skill_required@.map_values(|s: &str| s@) =~= seq!["skill_name"@]);
    }
    tools.push(tool("load_skill", LOAD_SKILL_DESCRIPTION, object_schema(skill_props, &skill_required, false)));
    tools
}

} // verus!
