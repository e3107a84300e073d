//! Anonymous installation counting: where the ping goes, the installation
//! id it carries, and what the user is told about it.
use crate::tasks::opt_view;
use crate::templates::opt_str_view;
use crate::text::{begins_with, chars_of, is_blank, owned, push_str, starts_with, string_of, trim, trim_chars};
use crate::types::AppConfig;
use vstd::prelude::*;

verus! {

pub const DEFAULT_ENDPOINT: &'static str = "https://duosl.dpdns.org/v1/installations/ping";

/// The endpoint pings go to: the configured one, trimmed, when it is an
/// `https://` address, else the default.
pub open spec fn endpoint_for(configured: Option<Seq<char>>) -> Seq<char> {
    match configured {
        Some(c) => if starts_with(trim(c), "https://"@) {
            trim(c)
        } else {
            DEFAULT_ENDPOINT@
        },
        None => DEFAULT_ENDPOINT@,
    }
}

/// The endpoint pings go to, given the one configured when the application
/// was built; there always is one.
pub fn telemetry_endpoint(configured: Option<&str>) -> (r: Option<String>)
    ensures
        r matches Some(e) && e@ == endpoint_for(opt_str_view(configured)),
{
    match configured {
        Some(c) => {
            let t = trim_chars(&chars_of(c));
            if begins_with(&t, "https://") {
                Some(string_of(&t))
            } else {
                Some(owned(DEFAULT_ENDPOINT))
            }
        },
        None => Some(owned(DEFAULT_ENDPOINT)),
    }
}

/// Whether pings have somewhere to go: always, as the default endpoint
/// stands in for a missing one.
pub fn endpoint_configured(configured: Option<&str>) -> (b: bool)
    ensures
        b,
{
    telemetry_endpoint(configured).is_some()
}

/// An installation id as `Uuid::new_v4().to_string()` writes one: 36
/// characters, hyphens at 8, 13, 18 and 23, lower-case hexadecimal digits
/// elsewhere, the version digit `4` at 14 and the variant digit (`8`, `9`,
/// `a` or `b`) at 19.
pub open spec fn is_uuid_text(s: Seq<char>) -> bool {
    &&& s.len() == 36
    &&& forall|i: int|
        0 <= i < 36 ==> if i == 8 || i == 13 || i == 18 || i == 23 {
            #[trigger] s[i] == '-'
        } else {
            ('0' <= s[i] <= '9') || ('a' <= s[i] <= 'f')
        }
    &&& s[14] == '4'
    &&& (s[19] == '8' || s[19] == '9' || s[19] == 'a' || s[19] == 'b')
}

/// `Uuid::new_v4().to_string()`: a fresh random installation id. Only its
/// form is stated (a version 4 UUID, hyphenated); its other digits are random.
#[verifier::external_body]
fn new_installation_id() -> (id: String)
    ensures
        is_uuid_text(id@),
{
    uuid::Uuid::new_v4().to_string()
}

/// The settings with counting turned on or off; the caller saves them.
pub fn set_enabled(config: &mut AppConfig, enabled: bool)
    ensures
        final(config).telemetry_enabled == Some(enabled),
        *final(config) == (AppConfig { telemetry_enabled: Some(enabled), ..*old(config) }),
{
    config.telemetry_enabled = Some(enabled);
}

/// The settings with a fresh installation id; the caller saves them.
pub fn reset_installation_id(config: &mut AppConfig)
    ensures
        final(config).telemetry_installation_id matches Some(id) && is_uuid_text(id@),
        *final(config) == (AppConfig {
            telemetry_installation_id: final(config).telemetry_installation_id,
            ..*old(config)
        }),
{
    config.telemetry_installation_id = Some(new_installation_id());
}

/// Whether a ping was sent, and what the user is told.
#[derive(Clone, Debug)]
pub struct TelemetryPingResult {
    pub sent: bool,
    pub message: String,
}

/// What to do at start-up about the ping.
pub enum PingPlan {
    /// Send nothing; tell the user this.
    Skip { result: TelemetryPingResult },
    /// Send the ping with this installation id to this endpoint.
    Send { installation_id: String, endpoint: String },
}

pub const PING_DISABLED: &'static str = "匿名统计已关闭";

pub const PING_SENT: &'static str = "匿名统计已发送";

/// Decides about the start-up ping. Nothing is sent when counting is off;
/// an installation without an id (or with a blank one) gets a fresh one,
/// and then the settings must be saved (the second result says so).
pub fn plan_startup_ping(config: &mut AppConfig, configured_endpoint: Option<&str>) -> (r: (
    PingPlan,
    bool,
))
    ensures
        old(config).telemetry_enabled == Some(false) ==> (r.0 matches PingPlan::Skip { result }
            && !result.sent && result.message@ == PING_DISABLED@) && !r.1 && *final(config) == *old(
            config,
        ),
        old(config).telemetry_enabled != Some(false) ==> (r.0 matches PingPlan::Send {
            installation_id,
            endpoint,
        } && endpoint@ == endpoint_for(opt_str_view(configured_endpoint)) && match old(
            config,
        ).telemetry_installation_id {
            Some(id) if trim(id@).len() > 0 => installation_id == id && !r.1 && *final(config)
                == *old(config),
            _ => is_uuid_text(installation_id@) && r.1 && *final(config) == (AppConfig {
                telemetry_installation_id: Some(installation_id),
                ..*old(config)
            }),
        }),
{
    if !config.telemetry_enabled() {
        return (
            PingPlan::Skip { result: TelemetryPingResult { sent: false, message: owned(PING_DISABLED) } },
            false,
        );
    }
    let existing = match &config.telemetry_installation_id {
        Some(id) => if is_blank(id.as_str()) {
            None
        } else {
            Some(id.clone())
        },
        None => None,
    };
    let (installation_id, save) = match existing {
        Some(id) => (id, false),
        None => {
            let id = new_installation_id();
            config.telemetry_installation_id = Some(id.clone());
            (id, true)
        },
    };
    let endpoint = match telemetry_endpoint(configured_endpoint) {
        Some(e) => e,
        None => owned(DEFAULT_ENDPOINT),
    };
    (PingPlan::Send { installation_id, endpoint }, save)
}

/// What the user is told after a ping: sent on a successful status;
/// otherwise the status (`Ok((false, status))`) or the request's error.
pub fn ping_result(outcome: Result<(bool, String), String>) -> (r: TelemetryPingResult)
    ensures
        match outcome {
            Ok((true, _)) => r.sent && r.message@ == PING_SENT@,
            Ok((false, status)) => !r.sent && r.message@ == "统计端点返回 "@ + status@,
            Err(e) => !r.sent && r.message@ == "统计请求失败: "@ + e@,
        },
{
    match outcome {
        Ok((true, _)) => TelemetryPingResult { sent: true, message: owned(PING_SENT) },
        Ok((false, status)) => {
            let mut m = owned("统计端点返回 ");
            push_str(&mut m, status.as_str());
            TelemetryPingResult { sent: false, message: m }
        },
        Err(e) => {
            let mut m = owned("统计请求失败: ");
            push_str(&mut m, e.as_str());
            TelemetryPingResult { sent: false, message: m }
        },
    }
}

/// What a start-up ping tells the counting service: the schema, the
/// application and its channel, the random installation id, the version,
/// platform, architecture and locale; nothing of the user's reading.
pub struct TelemetryPingPayload {
    pub schema_version: u8,
    pub app_name: String,
    pub installation_id: String,
    pub app_version: String,
    pub app_channel: String,
    pub platform: String,
    pub arch: String,
    pub locale: Option<String>,
}

/// The ping's content, as schema 1.
pub fn ping_payload(
    app_name: &str,
    installation_id: String,
    app_version: &str,
    app_channel: &str,
    platform: &str,
    arch: &str,
    locale: Option<String>,
) -> (p: TelemetryPingPayload)
    ensures
        p.schema_version == 1,
        p.app_name@ == app_name@,
        p.installation_id == installation_id,
        p.app_version@ == app_version@,
        p.app_channel@ == app_channel@,
        p.platform@ == platform@,
        p.arch@ == arch@,
        p.locale == locale,
{
    TelemetryPingPayload {
        schema_version: 1,
        app_name: owned(app_name),
        installation_id,
        app_version: owned(app_version),
        app_channel: owned(app_channel),
        platform: owned(platform),
        arch: owned(arch),
        locale,
    }
}

} // verus!
