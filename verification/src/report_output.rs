//! What a finished job hands back: warnings about its metadata, exporting
//! its report, and the record kept of a failed data gateway call.
use crate::gateway::GatewayResult;
use crate::json::{is_text, member_is, members, member_of, text_json, text_member, text_member_of, Json, JsonMember};
use crate::tasks::opt_view;
use crate::text::{is_blank, owned, push_str, trim};
use vstd::prelude::*;

verus! {

pub const META_WARNING_HEAD: &'static str = "附加信息读取失败：report.meta.json 格式不完整（";

pub const META_WARNING_TAIL: &'static str = "）。这不影响打开 HTML 报告；如果再次生成，可以让 AI 修正报告元数据 JSON 格式。";

/// The warning for report metadata that could not be parsed, quoting the
/// parser's error.
pub fn meta_parse_warning(error: &str) -> (r: String)
    ensures
        r@ == META_WARNING_HEAD@ + error@ + META_WARNING_TAIL@,
{
    let mut r = owned(META_WARNING_HEAD);
    push_str(&mut r, error);
    push_str(&mut r, META_WARNING_TAIL);
    r
}

pub const NO_EXPORT_DIR: &'static str = "请选择导出目录";

pub const REPORT_NOT_READY: &'static str = "智能体报告尚未生成";

pub const REPORT_EXPORTED: &'static str = "智能体报告已导出";

/// Exporting a job's report needs a chosen folder, then the report itself.
pub open spec fn export_refusal(output_dir: Seq<char>, report_exists: bool) -> Option<Seq<char>> {
    if trim(output_dir).len() == 0 {
        Some(NO_EXPORT_DIR@)
    } else if !report_exists {
        Some(REPORT_NOT_READY@)
    } else {
        None
    }
}

/// Checks an export of a job's report, after the job id was accepted.
pub fn check_report_export(output_dir: &str, report_exists: bool) -> (r: Result<(), String>)
    ensures
        match export_refusal(output_dir@, report_exists) {
            Some(e) => r matches Err(m) && m@ == e,
            None => r is Ok,
        },
{
    if is_blank(output_dir) {
        return Err(owned(NO_EXPORT_DIR));
    }
    if !report_exists {
        return Err(owned(REPORT_NOT_READY));
    }
    Ok(())
}

/// The file a job's report is exported as.
pub fn export_file_name(job_id: &str) -> (r: String)
    ensures
        r@ == job_id@ + ".html"@,
{
    let mut r = owned(job_id);
    push_str(&mut r, ".html");
    r
}

/// A request to copy a job's report into a chosen folder.
pub struct AdvancedReportExportRequest {
    pub job_id: String,
    pub output_dir: String,
}

/// The outcome of exporting a job's report.
pub struct AdvancedReportExportResult {
    pub success: bool,
    pub file_path: String,
    pub message: String,
}

pub fn export_result(file_path: String) -> (r: AdvancedReportExportResult)
    ensures
        r.success,
        r.file_path == file_path,
        r.message@ == REPORT_EXPORTED@,
{
    AdvancedReportExportResult { success: true, file_path, message: owned(REPORT_EXPORTED) }
}

/// An optional text as JSON: the text, or null.
pub open spec fn opt_text_is(j: Json, o: Option<Seq<char>>) -> bool {
    match o {
        Some(t) => is_text(j, t),
        None => j is Null,
    }
}

fn opt_text_json(o: &Option<String>) -> (j: Json)
    ensures
        opt_text_is(j, opt_view(*o)),
{
    match o {
        Some(t) => text_json(t.as_str()),
        None => Json::Null,
    }
}

/// The record kept of a failed gateway call: when, which call and API,
/// what was asked, and why it failed.
pub open spec fn failure_record(
    j: Json,
    time: Seq<char>,
    call_id: Seq<char>,
    api_name: Seq<char>,
    params: Json,
    result: GatewayResult,
) -> bool {
    let ms = members(j);
    &&& j is Object
    &&& ms.len() == 8
    &&& text_member(ms[0], "time"@, time)
    &&& text_member(ms[1], "callId"@, call_id)
    &&& text_member(ms[2], "apiName"@, api_name)
    &&& member_is(ms[3], "requestParams"@, params)
    &&& ms[4].key@ == "error"@ && opt_text_is(ms[4].value, opt_view(result.error))
    &&& ms[5].key@ == "requiresConsent"@ && ms[5].value == match result.requires_consent {
        Some(b) => Json::Bool(b),
        None => Json::Null,
    }
    &&& ms[6].key@ == "consentApi"@ && opt_text_is(ms[6].value, opt_view(result.consent_api))
    &&& ms[7].key@ == "privacyLevel"@ && opt_text_is(ms[7].value, opt_view(result.privacy_level))
}

/// The record of a gateway call to keep: none for a call that succeeded.
pub fn gateway_failure_record(
    time: &str,
    call_id: Option<&str>,
    api_name: &str,
    params: Json,
    result: &GatewayResult,
) -> (r: Option<Json>)
    ensures
        result.success ==> r is None,
        !result.success ==> (r matches Some(j) && failure_record(
            j,
            time@,
            match call_id {
                Some(c) => c@,
                None => Seq::empty(),
            },
            api_name@,
            params,
            *result,
        )),
{
    if result.success {
        return None;
    }
    proof {
        reveal_strlit("");
        assert(""@ =~= Seq::<char>::empty());
    }
    let call = match call_id {
        Some(c) => c,
        None => "",
    };
    let consent_needed = match result.requires_consent {
        Some(b) => Json::Bool(b),
        None => Json::Null,
    };
    let mut ms: Vec<JsonMember> = Vec::new();
    ms.push(text_member_of("time", time));
    ms.push(text_member_of("callId", call));
    ms.push(text_member_of("apiName", api_name));
    ms.push(member_of("requestParams", params));
    ms.push(member_of("error", opt_text_json(&result.error)));
    ms.push(member_of("requiresConsent", consent_needed));
    ms.push(member_of("consentApi", opt_text_json(&result.consent_api)));
    ms.push(member_of("privacyLevel", opt_text_json(&result.privacy_level)));
    Some(Json::Object(ms))
}

} // verus!
