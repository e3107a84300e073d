//! The data gateway the chat assistant reads through: which calls it
//! answers itself, which need the user's consent first, and what it
//! reports back.
use crate::consent::{
    build_access_record, build_consent_request, consent_key, consent_key_for_api, descriptor_for,
    privacy_descriptor, ConsentRequest, DataAccessRecord, EXPORT_REPORT_API,
};
use crate::skills::{find_api, first_missing, validate_request, SkillRegistry};
use crate::tasks::opt_view;
use crate::templates::opt_str_view;
use crate::text::{is_blank, owned, push_str, text_eq, texts, trim};
use vstd::prelude::*;

verus! {

/// What a gateway call returned besides its status.
#[derive(Clone, Debug)]
pub enum GatewayData {
    /// The JSON text of what the WeRead service answered.
    Json { text: String },
    /// A report saved on this machine.
    SavedReport { file_path: String, title: String },
}

/// The answer to a gateway call.
#[derive(Clone, Debug)]
pub struct GatewayResult {
    pub success: bool,
    pub api_name: String,
    pub data: Option<GatewayData>,
    pub error: Option<String>,
    pub requires_consent: Option<bool>,
    pub consent_api: Option<String>,
    pub privacy_level: Option<String>,
    pub access_record: Option<DataAccessRecord>,
    pub consent_request: Option<ConsentRequest>,
}

/// What to do about a gateway call.
pub enum GatewayPlan {
    /// Answer at once.
    Answer { result: GatewayResult },
    /// Save the report the call carries on this machine.
    ExportHtml,
    /// Fetch the data from WeRead.
    Fetch { purpose: String, privacy_level: String },
}

pub const DEFAULT_PURPOSE: &'static str = "读取相关阅读数据";

pub const NO_API_KEY: &'static str = "微信读书 API Key 未配置，无法获取数据";

/// The purpose shown for a call: the one given unless it is blank.
pub open spec fn purpose_text(p: Option<Seq<char>>) -> Seq<char> {
    match p {
        Some(s) => if trim(s).len() > 0 {
            s
        } else {
            DEFAULT_PURPOSE@
        },
        None => DEFAULT_PURPOSE@,
    }
}

/// A failed answer with nothing but its error.
pub open spec fn plain_failure(r: GatewayResult, api: Seq<char>, error: Seq<char>) -> bool {
    &&& !r.success
    &&& r.api_name@ == api
    &&& r.data is None
    &&& opt_view(r.error) == Some(error)
    &&& r.requires_consent is None
    &&& r.consent_api is None
    &&& r.privacy_level is None
    &&& r.access_record is None
    &&& r.consent_request is None
}

fn failure(api_name: &str, error: String) -> (r: GatewayResult)
    ensures
        plain_failure(r, api_name@, error@),
{
    GatewayResult {
        success: false,
        api_name: owned(api_name),
        data: None,
        error: Some(error),
        requires_consent: None,
        consent_api: None,
        privacy_level: None,
        access_record: None,
        consent_request: None,
    }
}

fn listed(v: &Vec<String>, s: &str) -> (b: bool)
    ensures
        b == texts(v@).contains(s@),
{
    let mut j: usize = 0;
    while j < v.len()
        invariant
            j <= v@.len(),
            forall|k: int| 0 <= k < j ==> v@[k]@ != s@,
        decreases v@.len() - j,
    {
        if text_eq(v[j].as_str(), s) {
            assert(texts(v@)[j as int] == s@);
            return true;
        }
        j = j + 1;
    }
    false
}

/// The call needs a consent that was not granted, neither by its key nor
/// by its bare name.
pub open spec fn consent_missing(needs: bool, granted: Seq<Seq<char>>, api: Seq<char>) -> bool {
    needs && !granted.contains(consent_key(api)) && !granted.contains(api)
}

/// The answer asking for consent to a call: a pending record of the read
/// and the prompt to show.
pub open spec fn consent_answer(r: GatewayResult, api: Seq<char>, purpose: Seq<char>, level: Seq<char>) -> bool {
    &&& !r.success
    &&& r.api_name@ == api
    &&& r.data is None
    &&& opt_view(r.error) == Some("「"@ + api + "」需要用户授权后才能继续。"@)
    &&& r.requires_consent == Some(true)
    &&& opt_view(r.consent_api) == Some(api)
    &&& opt_view(r.privacy_level) == Some(level)
    &&& (r.access_record matches Some(rec) && rec.status@ == "pending"@ && rec.purpose@ == purpose
        && rec.call_id@ == Seq::<char>::empty() && rec.privacy_level@ == level
        && rec.display_name@ == descriptor_for(api).display_name)
    &&& (r.consent_request matches Some(req) && req.purpose@ == purpose)
}

/// Decides what to do about a gateway call, in this order: a call the
/// manifest does not allow, or that lacks a required parameter, is refused;
/// a call that needs a consent not yet granted asks for it; saving a report
/// is done on this machine; without a WeRead API key nothing can be
/// fetched; anything else is fetched. `present` names the parameters given
/// a value other than null, `granted` the consent keys granted for the run.
pub fn plan_gateway_call(
    reg: &SkillRegistry,
    api_name: &str,
    purpose: Option<&str>,
    present: &Vec<String>,
    granted: &Vec<String>,
    has_client: bool,
) -> (plan: GatewayPlan)
    ensures
        match find_api(reg.manifest.apis@, api_name@) {
            None => plan matches GatewayPlan::Answer { result } && plain_failure(
                result,
                api_name@,
                "接口「"@ + api_name@ + "」不在允许的技能列表中"@,
            ),
            Some(a) => match first_missing(a.required@, present@) {
                Some(m) => plan matches GatewayPlan::Answer { result } && plain_failure(
                    result,
                    api_name@,
                    "缺少必填参数: "@ + m,
                ),
                None => if consent_missing(a.requires_consent, texts(granted@), api_name@) {
                    plan matches GatewayPlan::Answer { result } && consent_answer(
                        result,
                        api_name@,
                        purpose_text(opt_str_view(purpose)),
                        a.privacy_level@,
                    )
                } else if api_name@ == EXPORT_REPORT_API@ {
                    plan is ExportHtml
                } else if !has_client {
                    plan matches GatewayPlan::Answer { result } && plain_failure(
                        result,
                        api_name@,
                        NO_API_KEY@,
                    )
                } else {
                    plan matches GatewayPlan::Fetch { purpose: p, privacy_level: l } && (p@
                        == purpose_text(opt_str_view(purpose)) && l@ == a.privacy_level@)
                },
            },
        },
{
    let shown_purpose = match purpose {
        Some(p) => if is_blank(p) {
            owned(DEFAULT_PURPOSE)
        } else {
            owned(p)
        },
        None => owned(DEFAULT_PURPOSE),
    };
    let api = match validate_request(reg, api_name, present) {
        Ok(a) => a,
        Err(e) => return GatewayPlan::Answer { result: failure(api_name, e) },
    };
    let descriptor = privacy_descriptor(api_name);
    let key = consent_key_for_api(api_name);
    let has_key = listed(granted, key.as_str());
    let has_name = listed(granted, api_name);
    if api.requires_consent && !has_key && !has_name {
        let record = build_access_record(
            "",
            api_name,
            shown_purpose.as_str(),
            api.privacy_level.as_str(),
            "pending",
            &descriptor,
        );
        let request = build_consent_request(shown_purpose.as_str(), &descriptor);
        let mut error = owned("「");
        push_str(&mut error, api_name);
        push_str(&mut error, "」需要用户授权后才能继续。");
        proof {
            reveal_strlit("");
        }
        let result = GatewayResult {
                success: false,
                api_name: owned(api_name),
                data: None,
                error: Some(error),
                requires_consent: Some(true),
                consent_api: Some(owned(api_name)),
                privacy_level: Some(api.privacy_level.clone()),
                access_record: Some(record),
                consent_request: Some(request),
            };
        assert(find_api(reg.manifest.apis@, api_name@) == Some(*api));
        assert(consent_missing(api.requires_consent, texts(granted@), api_name@));
        assert(shown_purpose@ == purpose_text(opt_str_view(purpose)));
        assert(opt_view(result.error) == Some("「"@ + api_name@ + "」需要用户授权后才能继续。"@));
        assert(result.access_record matches Some(rec) && rec.status@ == "pending"@);
        assert(result.access_record matches Some(rec) && rec.call_id@ == Seq::<char>::empty());
        assert(result.access_record matches Some(rec) && rec.display_name@ == descriptor_for(api_name@).display_name);
        assert(consent_answer(result, api_name@, purpose_text(opt_str_view(purpose)), api.privacy_level@));
        return GatewayPlan::Answer { result };
    }
    if text_eq(api_name, EXPORT_REPORT_API) {
        return GatewayPlan::ExportHtml;
    }
    if !has_client {
        return GatewayPlan::Answer { result: failure(api_name, owned(NO_API_KEY)) };
    }
    GatewayPlan::Fetch { purpose: shown_purpose, privacy_level: api.privacy_level.clone() }
}

/// The answer to a call that was fetched: the data and a completed record,
/// or the error and a failed record.
pub fn fetch_result(
    api_name: &str,
    purpose: &str,
    privacy_level: &str,
    outcome: Result<String, String>,
) -> (r: GatewayResult)
    ensures
        r.success == outcome is Ok,
        r.api_name@ == api_name@,
        r.requires_consent is None,
        r.consent_api is None,
        r.consent_request is None,
        r.access_record matches Some(rec) && rec.purpose@ == purpose@ && rec.privacy_level@
            == privacy_level@ && rec.call_id@ == Seq::<char>::empty() && rec.status@ == (if outcome is Ok {
            "completed"@
        } else {
            "failed"@
        }),
        match outcome {
            Ok(data) => r.data == Some(GatewayData::Json { text: data }) && r.error is None
                && opt_view(r.privacy_level) == Some(privacy_level@),
            Err(e) => r.data is None && r.error == Some(e) && r.privacy_level is None,
        },
{
    let descriptor = privacy_descriptor(api_name);
    proof {
        reveal_strlit("");
    }
    match outcome {
        Ok(data) => GatewayResult {
            success: true,
            api_name: owned(api_name),
            data: Some(GatewayData::Json { text: data }),
            error: None,
            requires_consent: None,
            consent_api: None,
            privacy_level: Some(owned(privacy_level)),
            access_record: Some(
                build_access_record("", api_name, purpose, privacy_level, "completed", &descriptor),
            ),
            consent_request: None,
        },
        Err(e) => GatewayResult {
            success: false,
            api_name: owned(api_name),
            data: None,
            error: Some(e),
            requires_consent: None,
            consent_api: None,
            privacy_level: None,
            access_record: Some(
                build_access_record("", api_name, purpose, privacy_level, "failed", &descriptor),
            ),
            consent_request: None,
        },
    }
}

pub const EMPTY_REPORT_HTML: &'static str = "报告 HTML 内容不能为空";

pub const DEFAULT_REPORT_TITLE: &'static str = "阅读报告";

pub const SAVE_REPORT_PURPOSE: &'static str = "保存阅读报告到本机";

/// Checks a report to save: its HTML must not be blank; the title
/// defaults to `阅读报告`. Returns the title, or the answer refusing it.
pub fn export_html_check(html: Option<&str>, title: Option<&str>) -> (r: Result<String, GatewayResult>)
    ensures
        match html {
            Some(h) if trim(h@).len() > 0 => r matches Ok(t) && t@ == (match title {
                Some(x) => x@,
                None => DEFAULT_REPORT_TITLE@,
            }),
            _ => r matches Err(res) && plain_failure(res, EXPORT_REPORT_API@, EMPTY_REPORT_HTML@),
        },
{
    let ok = match html {
        Some(h) => !is_blank(h),
        None => false,
    };
    if !ok {
        return Err(failure(EXPORT_REPORT_API, owned(EMPTY_REPORT_HTML)));
    }
    Ok(
        match title {
            Some(t) => owned(t),
            None => owned(DEFAULT_REPORT_TITLE),
        },
    )
}

/// The answer to saving a report: where it went, or why it failed.
pub fn export_html_result(title: String, outcome: Result<String, String>) -> (r: GatewayResult)
    ensures
        r.success == outcome is Ok,
        r.api_name@ == EXPORT_REPORT_API@,
        r.requires_consent is None,
        r.consent_api is None,
        r.consent_request is None,
        r.access_record matches Some(rec) && rec.purpose@ == SAVE_REPORT_PURPOSE@
            && rec.privacy_level@ == "local-write"@ && rec.destination@ == "local_only"@
            && rec.status@ == (if outcome is Ok {
            "completed"@
        } else {
            "failed"@
        }),
        match outcome {
            Ok(path) => r.data == Some(GatewayData::SavedReport { file_path: path, title })
                && r.error is None && opt_view(r.privacy_level) == Some("local-write"@),
            Err(e) => r.data is None && r.error == Some(e) && r.privacy_level is None,
        },
{
    let descriptor = privacy_descriptor(EXPORT_REPORT_API);
    match outcome {
        Ok(path) => GatewayResult {
            success: true,
            api_name: owned(EXPORT_REPORT_API),
            data: Some(GatewayData::SavedReport { file_path: path, title }),
            error: None,
            requires_consent: None,
            consent_api: None,
            privacy_level: Some(owned("local-write")),
            access_record: Some(
                build_access_record(
                    "",
                    EXPORT_REPORT_API,
                    SAVE_REPORT_PURPOSE,
                    "local-write",
                    "completed",
                    &descriptor,
                ),
            ),
            consent_request: None,
        },
        Err(e) => GatewayResult {
            success: false,
            api_name: owned(EXPORT_REPORT_API),
            data: None,
            error: Some(e),
            requires_consent: None,
            consent_api: None,
            privacy_level: None,
            access_record: Some(
                build_access_record(
                    "",
                    EXPORT_REPORT_API,
                    SAVE_REPORT_PURPOSE,
                    "local-write",
                    "failed",
                    &descriptor,
                ),
            ),
            consent_request: None,
        },
    }
}

} // verus!
