//! The AI service the chat talks to: reading its settings, the address of
//! its chat completions, and testing the connection.
use crate::chat::{first_chars, take_chars};
use crate::json::{is_text, member_is, members, member_of, text_json, text_member, text_member_of, Json, JsonMember};
use crate::text::{back_char, chars_of, owned, push_chars, push_str, push_u64, string_of};
use crate::types::AppConfig;
use vstd::prelude::*;

verus! {

/// Where and how to reach the AI service.
pub struct LlmEndpoint {
    pub base_url: String,
    pub api_key: String,
    pub model: String,
}

/// The model used when none is set.
pub const DEFAULT_MODEL: &'static str = "gpt-4o";

pub const CHAT_NO_BASE_URL: &'static str = "请先配置 AI 服务 Base URL";

pub const CHAT_NO_API_KEY: &'static str = "请先配置 AI 服务 API Key";

pub const TEST_NO_BASE_URL: &'static str = "请先配置 LLM Base URL";

pub const TEST_NO_API_KEY: &'static str = "请先配置 LLM API Key";

/// The service settings: the address is needed first, then the key; the
/// model defaults to `gpt-4o`.
pub open spec fn endpoint_ok(config: AppConfig, e: LlmEndpoint) -> bool {
    &&& config.llm_base_url matches Some(b) && e.base_url@ == b@
    &&& config.llm_api_key matches Some(k) && e.api_key@ == k@
    &&& e.model@ == match config.llm_model {
        Some(m) => m@,
        None => DEFAULT_MODEL@,
    }
}

fn endpoint(config: &AppConfig, no_base_url: &str, no_api_key: &str) -> (r: Result<LlmEndpoint, String>)
    ensures
        config.llm_base_url is None ==> (r matches Err(m) && m@ == no_base_url@),
        config.llm_base_url is Some && config.llm_api_key is None ==> (r matches Err(m) && m@
            == no_api_key@),
        config.llm_base_url is Some && config.llm_api_key is Some ==> (r matches Ok(e) && endpoint_ok(
            *config,
            e,
        )),
{
    let base_url = match &config.llm_base_url {
        Some(b) => b.clone(),
        None => return Err(owned(no_base_url)),
    };
    let api_key = match &config.llm_api_key {
        Some(k) => k.clone(),
        None => return Err(owned(no_api_key)),
    };
    let model = match &config.llm_model {
        Some(m) => m.clone(),
        None => owned(DEFAULT_MODEL),
    };
    Ok(LlmEndpoint { base_url, api_key, model })
}

/// The service a chat is run against.
pub fn chat_endpoint(config: &AppConfig) -> (r: Result<LlmEndpoint, String>)
    ensures
        config.llm_base_url is None ==> (r matches Err(m) && m@ == CHAT_NO_BASE_URL@),
        config.llm_base_url is Some && config.llm_api_key is None ==> (r matches Err(m) && m@
            == CHAT_NO_API_KEY@),
        config.llm_base_url is Some && config.llm_api_key is Some ==> (r matches Ok(e) && endpoint_ok(
            *config,
            e,
        )),
{
    endpoint(config, CHAT_NO_BASE_URL, CHAT_NO_API_KEY)
}

/// The service a connection test is run against.
pub fn test_endpoint(config: &AppConfig) -> (r: Result<LlmEndpoint, String>)
    ensures
        config.llm_base_url is None ==> (r matches Err(m) && m@ == TEST_NO_BASE_URL@),
        config.llm_base_url is Some && config.llm_api_key is None ==> (r matches Err(m) && m@
            == TEST_NO_API_KEY@),
        config.llm_base_url is Some && config.llm_api_key is Some ==> (r matches Ok(e) && endpoint_ok(
            *config,
            e,
        )),
{
    endpoint(config, TEST_NO_BASE_URL, TEST_NO_API_KEY)
}

/// The chat completions address: the base address without its trailing
/// slashes, then `/chat/completions`.
pub open spec fn completions_url(base_url: Seq<char>) -> Seq<char> {
    base_url.take(back_char(base_url, '/', 0, base_url.len() as int)) + "/chat/completions"@
}

pub fn chat_completions_url(base_url: &str) -> (r: String)
    ensures
        r@ == completions_url(base_url@),
{
    let v = chars_of(base_url);
    let mut j = v.len();
    while j > 0 && v[j - 1] == '/'
        invariant
            j <= v@.len(),
            back_char(v@, '/', 0, j as int) == back_char(v@, '/', 0, v@.len() as int),
        decreases j,
    {
        j = j - 1;
    }
    let head = crate::text::slice_chars(&v, 0, j);
    assert(head@ == v@.take(j as int));
    let mut r = string_of(&head);
    push_str(&mut r, "/chat/completions");
    r
}

/// The smallest request that shows the service answers: one `Hi` from the
/// user, at most five tokens back.
pub open spec fn test_request(j: Json, model: Seq<char>) -> bool {
    let ms = members(j);
    &&& j is Object
    &&& ms.len() == 3
    &&& text_member(ms[0], "model"@, model)
    &&& ms[1].key@ == "messages"@ && (ms[1].value matches Json::Array(v) && v@.len() == 1 && v@[0] is Object
        && members(v@[0]).len() == 2 && text_member(members(v@[0])[0], "role"@, "user"@) && text_member(
        members(v@[0])[1],
        "content"@,
        "Hi"@,
    ))
    &&& member_is(ms[2], "max_tokens"@, Json::Int(5))
}

pub fn test_request_body(model: &str) -> (j: Json)
    ensures
        test_request(j, model@),
{
    let mut message: Vec<JsonMember> = Vec::new();
    message.push(text_member_of("role", "user"));
    message.push(text_member_of("content", "Hi"));
    let mut messages: Vec<Json> = Vec::new();
    messages.push(Json::Object(message));
    let mut ms: Vec<JsonMember> = Vec::new();
    ms.push(text_member_of("model", model));
    ms.push(member_of("messages", Json::Array(messages)));
    ms.push(member_of("max_tokens", Json::Int(5)));
    Json::Object(ms)
}

/// The outcome of testing the AI service.
pub struct LlmTestResult {
    pub ok: bool,
    pub message: String,
    pub model: Option<String>,
}

/// A test succeeds on status 200 or 201, naming the model; otherwise it
/// reports the status and the first 300 characters of the answer.
pub fn llm_test_result(status: u16, model: &str, body: &str) -> (r: LlmTestResult)
    ensures
        r.ok == (status == 200 || status == 201),
        r.ok ==> r.message@ == "连接成功 (模型: "@ + model@ + ")"@ && (r.model matches Some(m) && m@
            == model@),
        !r.ok ==> r.message@ == "连接失败 (HTTP "@ + crate::text::nat_decimal(status as nat) + "): "@
            + first_chars(body@, 300) && r.model is None,
{
    if status == 200 || status == 201 {
        let mut m = owned("连接成功 (模型: ");
        push_str(&mut m, model);
        push_str(&mut m, ")");
        LlmTestResult { ok: true, message: m, model: Some(owned(model)) }
    } else {
        let head = take_chars(body, 300);
        let mut m = owned("连接失败 (HTTP ");
        push_u64(&mut m, status as u64);
        push_str(&mut m, "): ");
        push_chars(&mut m, &head);
        LlmTestResult { ok: false, message: m, model: None }
    }
}

} // verus!
