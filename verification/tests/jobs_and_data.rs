use weread_desktop::custom_templates::{
    create_custom_template, infer_intent, sort_templates_newest_first, template_missing_message,
    update_custom_template, CreateCustomTemplateRequest, CustomTemplate,
};
use weread_desktop::gateway::GatewayResult;
use weread_desktop::ima::{skipped_book, sync_summary, synced_book};
use weread_desktop::job_files::{
    build_agent_brief, build_agent_prompt, cache_index_json, capabilities_json, data_index_entry_json,
    generation_settings_json, template_manifest_json, user_policy_json, AGENT_PROMPT,
};
use weread_desktop::jobs::{job_id_for, normalize_job_id};
use weread_desktop::json::{Json, JsonMember};
use weread_desktop::large_result::truncate_large_result;
use weread_desktop::json::compact_json;
use weread_desktop::period::{report_period_bounds, timestamp_in_period};
use weread_desktop::profile::NotebooksResult;
use weread_desktop::report_output::{check_report_export, export_result, gateway_failure_record};
use weread_desktop::scoping::{chosen_book_ids, keeps_raw_notes, plan_prefetch, scope_book, scoped_notebooks, NotebookPager};
use weread_desktop::templates::{find_template, output_shapes};
use weread_desktop::tools::build_tools;
use weread_desktop::types::NotebookBook;

fn text(s: &str) -> Json {
    Json::Str(s.to_string())
}

fn member(k: &str, v: Json) -> JsonMember {
    JsonMember { key: k.to_string(), value: v }
}

fn get<'a>(j: &'a Json, key: &str) -> Option<&'a Json> {
    match j {
        Json::Object(ms) => ms.iter().find(|m| m.key == key).map(|m| &m.value),
        _ => None,
    }
}

fn as_text(j: Option<&Json>) -> Option<&str> {
    match j {
        Some(Json::Str(s)) => Some(s.as_str()),
        _ => None,
    }
}

fn keys(j: &Json) -> Vec<String> {
    match j {
        Json::Object(ms) => ms.iter().map(|m| m.key.clone()).collect(),
        _ => Vec::new(),
    }
}

fn book(id: &str, notes: i32, reviews: i32, bookmarks: i32, sort: i64) -> NotebookBook {
    NotebookBook {
        book_id: id.to_string(),
        title: format!("书{id}"),
        author: String::new(),
        cover: String::new(),
        review_count: reviews,
        note_count: notes,
        bookmark_count: bookmarks,
        marked_status: 0,
        sort,
    }
}

fn request(name: &str, prompt: &str) -> CreateCustomTemplateRequest {
    CreateCustomTemplateRequest {
        name: name.to_string(),
        description: "  用途  ".to_string(),
        style_md: None,
        prompt_md: prompt.to_string(),
        default_output_shape: None,
        output_shapes: None,
        requires_raw_notes_consent: None,
        intent: None,
    }
}

#[test]
fn tools_offered_to_the_model() {
    let tools = build_tools();
    let names: Vec<&str> = tools.iter().map(|t| t.name.as_str()).collect();
    assert_eq!(names, vec!["invoke_data_gateway", "ask_user", "suggest_report", "load_skill"]);
    let gateway = &tools[0].parameters;
    assert_eq!(as_text(get(gateway, "type")), Some("object"));
    assert!(matches!(get(gateway, "additionalProperties"), Some(Json::Bool(true))));
    assert_eq!(keys(get(gateway, "properties").unwrap()), vec!["api_name", "purpose"]);
    assert!(matches!(get(&tools[1].parameters, "additionalProperties"), Some(Json::Bool(false))));
}

#[test]
fn small_results_pass_unchanged_and_large_lists_are_summarised() {
    let small = truncate_large_result(text("x"));
    assert!(matches!(small, Json::Str(ref s) if s == "x"));
    let long = "x".repeat(400);
    let items: Vec<Json> = (0..30).map(|_| text(&long)).collect();
    let summary = truncate_large_result(Json::Array(items));
    assert_eq!(keys(&summary), vec!["truncated", "total_count", "showing", "items"]);
    assert!(matches!(get(&summary, "total_count"), Some(Json::Int(30))));
    assert!(matches!(get(&summary, "showing"), Some(Json::Int(20))));
    match get(&summary, "items") {
        Some(Json::Array(v)) => assert_eq!(v.len(), 20),
        _ => panic!("items"),
    }
    let obj = Json::Object(vec![
        member("books", Json::Array((0..25).map(|_| text(&long)).collect())),
        member("few", Json::Array(vec![Json::Int(1)])),
        member("name", text("n")),
    ]);
    let shrunk = truncate_large_result(obj);
    assert_eq!(keys(&shrunk), vec!["books", "few", "name"]);
    assert!(matches!(get(get(&shrunk, "books").unwrap(), "total_count"), Some(Json::Int(25))));
    assert!(matches!(get(&shrunk, "few"), Some(Json::Array(v)) if v.len() == 1));
    let raw = truncate_large_result(text(&"字".repeat(9000)));
    assert!(matches!(get(&raw, "raw"), Some(Json::Str(s)) if s.chars().count() == 8000));
    assert_eq!(as_text(get(&raw, "note")), Some("数据过大已截断，请减少查询范围或分页查询"));
}

#[test]
fn compact_json_writes_values_as_serde_json_does() {
    let v = Json::Object(vec![
        member("a", Json::Array(vec![Json::Int(-3), Json::UInt(18446744073709551615), Json::Null])),
        member("b\"q", text("x\ny")),
        member("f", Json::Float { whole: 8, text: "8.7".to_string() }),
        member("t", Json::Bool(true)),
    ]);
    assert_eq!(
        compact_json(&v),
        "{\"a\":[-3,18446744073709551615,null],\"b\\\"q\":\"x\\ny\",\"f\":8.7,\"t\":true}"
    );
    assert_eq!(compact_json(&Json::Array(vec![])), "[]");
}

#[test]
fn job_ids_made_by_the_app_are_accepted() {
    let id = job_id_for("growth-path", 1_700_000_000_123);
    assert_eq!(id, "growth-path-1700000000123");
    assert_eq!(normalize_job_id(&id).unwrap(), id);
    assert_eq!(job_id_for("top-books", -5), "top-books-0");
    assert_eq!(normalize_job_id("  ").unwrap_err(), "jobId 不能为空");
    assert_eq!(normalize_job_id("../x").unwrap_err(), "jobId 不合法");
}

#[test]
fn last_month_ends_where_this_month_begins() {
    let (lm_start, lm_end) = report_period_bounds("last_month", 2026, 1);
    let (cm_start, cm_end) = report_period_bounds("current_month", 2026, 1);
    assert_eq!(lm_start, Some(1_764_547_200));
    assert_eq!(lm_end, cm_start);
    assert_eq!(cm_end, None);
    let edge = cm_start.unwrap();
    assert!(!timestamp_in_period(edge, lm_start, lm_end));
    assert!(timestamp_in_period(edge, cm_start, cm_end));
    assert!(timestamp_in_period(edge - 1, lm_start, lm_end));
}

#[test]
fn custom_templates_are_checked_built_and_edited() {
    assert_eq!(create_custom_template(request(" ", "p"), "1", "now").err().unwrap(), "模板名称不能为空");
    assert_eq!(create_custom_template(request("n", "\n"), "1", "now").err().unwrap(), "提示词不能为空");
    let t = create_custom_template(request("  My Plan ", "写一份报告"), "20260101000000", "2026-01-01T00:00:00Z")
        .ok()
        .unwrap();
    assert_eq!(t.id, "custom-my-plan-20260101000000");
    assert_eq!(t.name, "My Plan");
    assert_eq!(t.description, "用途");
    assert_eq!(t.category, "custom");
    assert_eq!(t.default_output_shape, "report");
    assert_eq!(t.output_shapes, vec!["report", "slides", "xiaohongshu", "free"]);
    assert_eq!(t.default_capabilities, vec!["profile.summary", "shelf.sync", "notes.notebooks", "reading.stats"]);
    assert_eq!(t.source, "manual");
    let intent = t.intent.clone().unwrap();
    assert_eq!(intent.raw_text_policy, "optional");
    assert_eq!(intent.question, "写一份报告");
    let mut edit = request("新名字", "新提示");
    edit.requires_raw_notes_consent = Some(true);
    let u = update_custom_template(t, edit).ok().unwrap();
    assert_eq!(u.id, "custom-my-plan-20260101000000");
    assert_eq!(u.created_at, "2026-01-01T00:00:00Z");
    assert_eq!(u.name, "新名字");
    assert!(u.requires_raw_notes_consent);
    assert_eq!(u.intent.unwrap().raw_text_policy, "required");
    assert_eq!(template_missing_message("x"), "模板 x 不存在");
    let r = request("n", " p ");
    assert_eq!(infer_intent(&r).output_use, "report");
}

fn saved(id: &str, created_at: &str) -> CustomTemplate {
    let mut t = create_custom_template(request(id, "p"), "1", created_at).ok().unwrap();
    t.id = id.to_string();
    t
}

#[test]
fn templates_are_listed_newest_first() {
    let list = vec![saved("a", "2026-01-01"), saved("b", "2026-03-01"), saved("c", "2026-02-01")];
    let sorted = sort_templates_newest_first(list);
    let ids: Vec<&str> = sorted.iter().map(|t| t.id.as_str()).collect();
    assert_eq!(ids, vec!["b", "c", "a"]);
}

#[test]
fn notebooks_are_scoped_to_a_period() {
    assert_eq!(scope_book(book("1", 5, 2, 3, 10), 1, 0).map(|b| (b.note_count, b.review_count, b.bookmark_count)), Some((1, 0, 0)));
    assert!(scope_book(book("1", 5, 2, 3, 10), 0, 0).is_none());
    let all = NotebooksResult { books: vec![], total_book_count: 9, total_note_count: 9, has_more: 1 };
    let r = scoped_notebooks(all, vec![book("1", 2, 1, 0, 1), book("2", 0, 4, 0, 2)]);
    assert_eq!(r.total_book_count, 2);
    assert_eq!(r.total_note_count, 7);
    assert_eq!(r.has_more, 0);
    assert!(keeps_raw_notes(0, 1));
    assert!(!keeps_raw_notes(0, 0));
}

#[test]
fn notebook_pages_are_walked() {
    let mut pager = NotebookPager::new(true);
    let page = NotebooksResult {
        books: vec![book("a", 1, 0, 0, 50), book("b", 0, 0, 0, 40), book("c", 0, 1, 0, 30)],
        total_book_count: 3,
        total_note_count: 2,
        has_more: 1,
    };
    assert!(pager.on_page(&page));
    assert_eq!(pager.book_ids, vec!["a", "c"]);
    assert_eq!(pager.last_sort, 30);
    let last = NotebooksResult { books: vec![], total_book_count: 0, total_note_count: 0, has_more: 0 };
    assert!(!pager.on_page(&last));
    assert_eq!(pager.book_ids, vec!["a", "c"]);
    let mut every = NotebookPager::new(false);
    assert!(every.on_page(&page));
    assert_eq!(every.book_ids, vec!["a", "b", "c"]);
    assert_eq!(chosen_book_ids(&vec!["x".to_string()]), Some(vec!["x".to_string()]));
    assert_eq!(chosen_book_ids(&Vec::new()), None);
}

#[test]
fn job_files_describe_the_template_and_data() {
    let template = find_template("growth-path").ok().unwrap();
    let shape = output_shapes().into_iter().next().unwrap();
    let manifest = template_manifest_json(&template, &shape);
    assert_eq!(
        keys(&manifest),
        vec!["id", "name", "kind", "version", "description", "style", "prompt", "outputShape", "dataPolicy", "outputs"]
    );
    assert_eq!(as_text(get(&manifest, "id")), Some("growth-path"));
    assert_eq!(as_text(get(&manifest, "kind")), Some("advanced"));
    let caps = capabilities_json(&template);
    assert!(matches!(get(&caps, "capabilities"), Some(Json::Array(v)) if v.len() == 5));
    let policy = user_policy_json(true, "");
    assert!(matches!(get(&policy, "customRequirementProvided"), Some(Json::Bool(false))));
    let settings = generation_settings_json(Json::Null, "last_year", &shape, "多写书单");
    assert_eq!(as_text(get(get(&settings, "reportPeriod").unwrap(), "label")), Some("去年"));
    assert_eq!(as_text(get(&settings, "userPromptPath")), Some("input/user-prompt.md"));
    let entry = data_index_entry_json("shelf.context.json", 12);
    assert_eq!(as_text(get(&entry, "path")), Some("data/shelf.context.json"));
    let index = cache_index_json("2026-01-01T00:00:00Z", vec![entry]);
    let local = Json::Object(vec![member("display", text("2026-01-01 08:00:00 +08:00"))]);
    let brief = build_agent_brief(
        &template,
        &shape,
        "{}",
        &policy,
        &settings,
        "{\"v\":1}",
        "第一行\r\n第二行\n",
        "[]",
        &index,
        &local,
    );
    assert!(brief.starts_with("# 智能体报告任务书\n"));
    assert!(brief.contains("数据范围：去年"));
    assert!(brief.contains("当前电脑时间：2026-01-01 08:00:00 +08:00"));
    assert!(brief.contains("本机日期：未知"));
    assert!(brief.contains("本机时区：本机时区"));
    assert!(brief.contains("- `data/shelf.context.json`"));
    assert!(brief.contains("- rawNotesConsent: true"));
    assert!(brief.contains("> 第一行\n> 第二行\n\n## 输出文件"));
    assert!(brief.contains("```json\n{\"v\":1}\n```"));
    assert_eq!(build_agent_prompt(), AGENT_PROMPT);
}

#[test]
fn prefetch_follows_the_template_and_consent() {
    let template = find_template("growth-path").ok().unwrap();
    let plan = plan_prefetch(&template, false, "all");
    assert!(!plan.overall_stats);
    assert!(!plan.raw_notes);
    let with_consent = plan_prefetch(&template, true, "current_year");
    assert_eq!(with_consent.overall_stats, with_consent.stats);
}

#[test]
fn finished_jobs_and_failed_calls() {
    assert_eq!(check_report_export("", true).unwrap_err(), "请选择导出目录");
    assert_eq!(check_report_export("/o", false).unwrap_err(), "智能体报告尚未生成");
    assert!(check_report_export("/o", true).is_ok());
    let r = export_result("/o/reports/x.html".to_string());
    assert!(r.success);
    assert_eq!(r.message, "智能体报告已导出");
    let failed = GatewayResult {
        success: false,
        api_name: "/shelf/sync".to_string(),
        data: None,
        error: Some("超时".to_string()),
        requires_consent: Some(false),
        consent_api: None,
        privacy_level: None,
        access_record: None,
        consent_request: None,
    };
    let rec = gateway_failure_record("t0", None, "/shelf/sync", Json::Null, &failed).unwrap();
    assert_eq!(
        keys(&rec),
        vec!["time", "callId", "apiName", "requestParams", "error", "requiresConsent", "consentApi", "privacyLevel"]
    );
    assert_eq!(as_text(get(&rec, "callId")), Some(""));
    assert_eq!(as_text(get(&rec, "error")), Some("超时"));
    assert!(matches!(get(&rec, "consentApi"), Some(Json::Null)));
    let mut ok = failed;
    ok.success = true;
    assert!(gateway_failure_record("t0", Some("c"), "/shelf/sync", Json::Null, &ok).is_none());
}

#[test]
fn ima_counts_add_up() {
    let results = vec![
        skipped_book("1".to_string(), "a".to_string()),
        synced_book("2".to_string(), "b".to_string(), Ok(("n".to_string(), "m".to_string(), true))),
        synced_book("3".to_string(), "c".to_string(), Err("网络错误".to_string())),
        synced_book("4".to_string(), "d".to_string(), Ok(("n".to_string(), "m".to_string(), false))),
    ];
    assert_eq!(results[1].message, "已将已有 ima 笔记重新加入知识库");
    let s = sync_summary(results);
    assert_eq!((s.success_count, s.skipped_count, s.failed_count), (2, 1, 1));
    assert_eq!(s.success_count + s.skipped_count + s.failed_count, s.results.len());
}
