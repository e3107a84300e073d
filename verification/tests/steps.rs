use weread_desktop::chat::{chat_step, ChatAction, ChatEvent, ChatMessage, ChatRun, ToolCallDraft};
use weread_desktop::consent::DataAccessRecord;
use weread_desktop::custom_templates::{new_custom_template, CreateCustomTemplateRequest};
use weread_desktop::gateway::{GatewayData, GatewayResult};
use weread_desktop::ima::{book_sync_step, skipped_book, synced_book, BookSyncStep, ImaSyncRun};
use weread_desktop::job_files::local_time_context_json;
use weread_desktop::json::{compact_json, Json, JsonMember};
use weread_desktop::markdown::ExportBook;
use weread_desktop::tasks::{settle_runtime_tasks, AdvancedReportTask, AdvancedReportTaskStatus};
use weread_desktop::types::Review;

fn book(title: &str, reviews: Vec<Review>) -> ExportBook {
    ExportBook {
        book_id: "b1".to_string(),
        isbn: String::new(),
        title: title.to_string(),
        author: "作者".to_string(),
        cover: String::new(),
        bookmarks: vec![],
        reviews,
        chapters: vec![],
        progress: None,
    }
}

#[test]
fn a_book_without_notes_is_skipped_and_one_with_notes_is_sent() {
    match book_sync_step(&book("  书名 ", vec![]), false, "2026-05-21 10:00") {
        BookSyncStep::Skip { result } => {
            assert_eq!(result.book_id, "b1");
            assert_eq!(result.title, "书名");
            assert_eq!(result.status, "skipped");
            assert_eq!(result.message, "这本书没有可同步的划线或想法");
        }
        BookSyncStep::Send { .. } => panic!("a book without notes is sent"),
    }
    let review = Review {
        review_id: "r1".to_string(),
        content: "想法".to_string(),
        create_time: 0,
        star: 0,
        chapter_name: None,
        range: None,
    };
    match book_sync_step(&book("书名", vec![review]), false, "2026-05-21 10:00") {
        BookSyncStep::Send { title, markdown } => {
            assert_eq!(title, "书名");
            assert!(markdown.starts_with("# 书名\n\n---\nbookId: \"b1\"\n"));
            assert!(markdown.contains("**我的思考：** 想法"));
        }
        BookSyncStep::Skip { .. } => panic!("a book with a thought is skipped"),
    }
}

fn record(status: &str) -> DataAccessRecord {
    DataAccessRecord {
        call_id: String::new(),
        api_name: "/review/list/mine".to_string(),
        display_name: "想法".to_string(),
        purpose: "p".to_string(),
        data_categories: vec![],
        data_category_labels: vec![],
        privacy_level: "sensitive".to_string(),
        contains_raw_text: true,
        destination: "llm".to_string(),
        scope: None,
        status: status.to_string(),
        denial_effect: String::new(),
        summary_text: String::new(),
    }
}

fn result(success: bool, consent: bool, data: Option<GatewayData>, error: Option<&str>) -> GatewayResult {
    GatewayResult {
        success,
        api_name: "/review/list/mine".to_string(),
        data,
        error: error.map(|e| e.to_string()),
        requires_consent: if consent { Some(true) } else { None },
        consent_api: if consent { Some("/review/list/mine".to_string()) } else { None },
        privacy_level: None,
        access_record: Some(record(if consent { "pending" } else if success { "completed" } else { "failed" })),
        consent_request: None,
    }
}

#[test]
fn chat_steps_follow_the_run() {
    let mut run = ChatRun::new();
    assert!(matches!(chat_step(&mut run, "j", ChatEvent::Canceled), ChatAction::EmitCanceled));
    match chat_step(&mut run, "j", ChatEvent::Reply { content: String::new(), drafts: vec![] }) {
        ChatAction::Finish { summary } => assert!(summary.is_none()),
        _ => panic!("a reply without calls ends the run"),
    }
    let draft = ToolCallDraft { id: "c1".to_string(), name: "ask_user".to_string(), arguments: "{}".to_string() };
    match chat_step(&mut run, "j", ChatEvent::Reply { content: "hi".to_string(), drafts: vec![draft] }) {
        ChatAction::RunTools { assistant: ChatMessage::Assistant { content, tool_calls } } => {
            assert_eq!(content.as_deref(), Some("hi"));
            assert_eq!(tool_calls.unwrap()[0].id, "c1");
        }
        _ => panic!("a reply with calls runs them"),
    }
    let ok = result(true, false, Some(GatewayData::Json { text: "{}".to_string() }), None);
    match chat_step(&mut run, "j", ChatEvent::GatewayDone { call_id: "c1".to_string(), result: ok }) {
        ChatAction::ToolResult { text } => assert_eq!(text, "{}"),
        _ => panic!("a read answers the call"),
    }
    assert_eq!(run.access_records.len(), 1);
    assert_eq!(run.access_records[0].call_id, "c1");
    let saved = result(
        true,
        false,
        Some(GatewayData::SavedReport { file_path: "/r.html".to_string(), title: "报告".to_string() }),
        None,
    );
    match chat_step(&mut run, "j", ChatEvent::GatewayDone { call_id: "c2".to_string(), result: saved }) {
        ChatAction::ToolResult { text } => assert_eq!(text, "{\n  \"filePath\": \"/r.html\",\n  \"title\": \"报告\"\n}"),
        _ => panic!("a saved report answers the call"),
    }
    let pending = result(false, true, None, Some("需要授权"));
    match chat_step(&mut run, "j", ChatEvent::GatewayDone { call_id: "c3".to_string(), result: pending.clone() }) {
        ChatAction::AwaitConsent { consent_api } => assert_eq!(consent_api, "/review/list/mine"),
        _ => panic!("a read that needs consent waits"),
    }
    assert_eq!(run.access_records.len(), 2);
    let denied = ChatEvent::ConsentAnswer {
        call_id: "c3".to_string(),
        pending: pending.clone(),
        granted: false,
        consents: vec![],
    };
    match chat_step(&mut run, "j", denied) {
        ChatAction::ToolResult { text } => assert_eq!(text, "{\"error\":\"用户拒绝授权，已跳过本次数据读取。\"}"),
        _ => panic!("a refusal answers the call"),
    }
    assert_eq!(run.access_records[2].status, "denied");
    assert_eq!(run.access_records[2].summary_text, "未读取：想法");
    let granted = ChatEvent::ConsentAnswer {
        call_id: "c3".to_string(),
        pending,
        granted: true,
        consents: vec!["k".to_string()],
    };
    match chat_step(&mut run, "j", granted) {
        ChatAction::Retry { consent_api, consents } => {
            assert_eq!(consent_api, "/review/list/mine");
            assert_eq!(consents, vec!["k".to_string(), "/review/list/mine".to_string()]);
        }
        _ => panic!("a consent reads again"),
    }
    let failed = result(false, false, None, None);
    match chat_step(&mut run, "j", ChatEvent::RetryDone { call_id: "c3".to_string(), result: failed }) {
        ChatAction::ToolResult { text } => assert_eq!(text, "{\"error\":\"授权后执行失败\"}"),
        _ => panic!("the second read answers the call"),
    }
    assert_eq!(run.access_records.len(), 4);
    match chat_step(&mut run, "j", ChatEvent::Reply { content: String::new(), drafts: vec![] }) {
        ChatAction::Finish { summary } => assert_eq!(summary.unwrap().kind, "data_access_summary"),
        _ => panic!("the run ends with a summary"),
    }
}

fn task(job_id: &str, status: AdvancedReportTaskStatus) -> AdvancedReportTask {
    AdvancedReportTask {
        job_id: job_id.to_string(),
        template_id: "t".to_string(),
        template_name: "T".to_string(),
        status,
        message: Some("出错".to_string()),
        output_shape: None,
        output_shape_name: None,
        report_period: None,
        report_period_label: None,
        agent: None,
        model: None,
        job_dir: String::new(),
        report_path: String::new(),
        created_at: String::new(),
        updated_at: String::new(),
    }
}

#[test]
fn failed_tasks_with_a_report_are_settled_as_completed() {
    let tasks = vec![
        task("a", AdvancedReportTaskStatus::Failed),
        task("b", AdvancedReportTaskStatus::Failed),
        task("c", AdvancedReportTaskStatus::Running),
    ];
    let settled = settle_runtime_tasks(tasks, vec![true, false, true]);
    assert_eq!(settled[0].status, AdvancedReportTaskStatus::Completed);
    assert!(settled[0].message.as_deref().unwrap().contains("出错"));
    assert_eq!(settled[1].status, AdvancedReportTaskStatus::Failed);
    assert_eq!(settled[2].status, AdvancedReportTaskStatus::Running);
}

fn text_of<'a>(j: &'a Json, key: &str) -> &'a str {
    match j {
        Json::Object(ms) => ms
            .iter()
            .find(|m: &&JsonMember| m.key == key)
            .and_then(|m| match &m.value {
                Json::Str(s) => Some(s.as_str()),
                _ => None,
            })
            .unwrap(),
        _ => panic!("not an object"),
    }
}

#[test]
fn the_local_time_context_has_the_documented_forms() {
    let j = local_time_context_json();
    let date = text_of(&j, "date");
    assert_eq!(date.len(), 10);
    assert!(text_of(&j, "iso").starts_with(date));
    assert!(text_of(&j, "display").starts_with(date));
    let z: Vec<char> = text_of(&j, "timezone").chars().collect();
    assert_eq!(z.len(), 6);
    assert!(z[0] == '+' || z[0] == '-');
    assert_eq!(z[3], ':');
}

#[test]
fn a_new_template_is_stamped_with_utc_times() {
    let t = new_custom_template(CreateCustomTemplateRequest {
        name: "Year Review".to_string(),
        description: " d ".to_string(),
        style_md: None,
        prompt_md: "写一份".to_string(),
        default_output_shape: None,
        output_shapes: None,
        requires_raw_notes_consent: None,
        intent: None,
    })
    .unwrap();
    assert!(t.id.starts_with("custom-year-review-"));
    assert_eq!(t.id.len(), "custom-year-review-".len() + 14);
    assert!(t.created_at.ends_with("+00:00"));
    assert_eq!(t.description, "d");
    assert_eq!(t.output_shapes, vec!["report", "slides", "xiaohongshu", "free"]);
}

#[test]
fn a_sync_keeps_one_result_per_chosen_book() {
    let mut run = ImaSyncRun::new(vec!["a".to_string(), "b".to_string()]);
    assert_eq!(run.next_book(), Some(0));
    run.record(skipped_book("a".to_string(), "A".to_string()));
    assert_eq!(run.next_book(), Some(1));
    run.record(synced_book("b".to_string(), "B".to_string(), Err("网络错误".to_string())));
    assert_eq!(run.next_book(), None);
    let r = run.finish();
    assert_eq!(r.results.len(), 2);
    assert_eq!((r.success_count, r.skipped_count, r.failed_count), (0, 1, 1));
}

use weread_desktop::preview::check_output_dir;
use weread_desktop::skills::{
    allowed_apis, build_registry, render_full_skills_prompt, Manifest, ManifestApi, ManifestApiEntry, SkillDir,
    SkillDoc,
};

fn api(name: &str, doc: &str) -> ManifestApiEntry {
    ManifestApiEntry {
        api_name: name.to_string(),
        api: ManifestApi {
            handler: "gateway".to_string(),
            doc: doc.to_string(),
            privacy_level: "basic".to_string(),
            requires_consent: false,
            required: vec![],
        },
    }
}

#[test]
fn the_full_skill_prompt_holds_skill_md_and_every_doc() {
    let manifest = Manifest {
        name: "weread".to_string(),
        version: "1".to_string(),
        gateway_tool: None,
        apis: vec![api("/shelf/sync", "shelf.md"), api("/book/info", "book.md")],
    };
    let docs = vec![
        SkillDoc { doc: "shelf.md".to_string(), content: "书架文档".to_string() },
        SkillDoc { doc: "book.md".to_string(), content: "书籍文档".to_string() },
    ];
    let dirs = vec![SkillDir { dir_name: "xhs".to_string(), content: "---\nname: xhs\n---\n正文".to_string() }];
    let reg = build_registry(manifest, docs, "核心 SKILL".to_string(), "/s/SKILL.md".to_string(), dirs);
    let prompt = render_full_skills_prompt(&reg);
    assert!(prompt.starts_with("## 可用能力（L1 元数据）"));
    assert!(prompt.contains("- **xhs**"));
    assert!(prompt.ends_with("\n\n核心 SKILL\n\n书架文档\n\n书籍文档"));
    assert_eq!(allowed_apis(&reg), vec!["/shelf/sync", "/book/info"]);
}

#[test]
fn exports_need_a_chosen_folder() {
    assert_eq!(check_output_dir("  ").unwrap_err(), "请选择导出目录");
    assert!(check_output_dir("~/Notes").is_ok());
}

#[test]
fn strings_are_escaped_as_serde_json_writes_them() {
    let s = Json::Str("a\u{1}\u{8}\u{c}\t\"\\/é".to_string());
    assert_eq!(compact_json(&s), "\"a\\u0001\\b\\f\\t\\\"\\\\/é\"");
}
