use weread_desktop::chat::{ask_user_result, read_result_text, ReadOutcome};
use weread_desktop::llm::{chat_completions_url, chat_endpoint, llm_test_result, test_endpoint};
use weread_desktop::preview::{
    check_report_export, check_report_preview, http_response_head, parse_report_preview_request_path,
    preview_route, PreviewRoute,
};
use weread_desktop::sessions::{image_bytes_from_data_url, order_newest_first, pick_session_to_load, pick_session_to_save, session_message_lines};
use weread_desktop::system_prompt::{
    build_time_context, parse_month, parse_year, prompt_template, render_at, render_prompt, replace_text, tidy_prompt,
    weekday_of, FALLBACK_PROMPT_TEMPLATE,
};
use weread_desktop::telemetry::{ping_payload, reset_installation_id};
use weread_desktop::types::AppConfig;
use weread_desktop::validation::validate_output;

fn empty_config() -> AppConfig {
    AppConfig {
        api_key: None,
        last_export_dir: None,
        default_format: None,
        cache_ttl_seconds: None,
        ima_client_id: None,
        ima_api_key: None,
        ima_knowledge_base_id: None,
        ima_knowledge_base_name: None,
        telemetry_enabled: None,
        telemetry_installation_id: None,
        llm_base_url: None,
        llm_api_key: None,
        llm_model: None,
        config_path: "/tmp/config.json".to_string(),
    }
}

#[test]
fn replace_takes_occurrences_from_the_left() {
    assert_eq!(replace_text("aaa", "aa", "b"), "ba");
    assert_eq!(replace_text("x{{A}}y{{A}}", "{{A}}", "1"), "x1y1");
    assert_eq!(replace_text("none", "zz", "1"), "none");
}

#[test]
fn tidy_prompt_cleans_lines_and_blank_runs() {
    assert_eq!(tidy_prompt("  a  \r\nb\t\n\n\n\n\nc  \n"), "a\nb\n\nc");
    assert_eq!(tidy_prompt("\n\n\n"), "");
    let t = tidy_prompt("x\n\n\n\ny\n \n \n \nz");
    assert!(!t.contains("\n\n\n"));
    assert_eq!(t, "x\n\ny\n\nz");
}

#[test]
fn render_fills_the_slots_in_order() {
    let r = render_prompt(
        "你好\n\n{{TIME_CONTEXT}}\n\n{{REPORT_DESIGN}}\n\n{{SKILL_PROMPT}}",
        "T".to_string(),
        "D",
        "S".to_string(),
    );
    assert_eq!(r.system_text, "你好\n\nT\n\nD\n\nS");
    assert_eq!(r.time_context, "T");
    assert_eq!(r.skill_prompt, "S");
    assert_eq!(prompt_template(None), FALLBACK_PROMPT_TEMPLATE);
    assert_eq!(prompt_template(Some("mine".to_string())), "mine");
}

#[test]
fn time_context_names_the_periods() {
    assert_eq!(weekday_of("1"), "周一");
    assert_eq!(weekday_of("7"), "周日");
    assert_eq!(weekday_of("8"), "");
    assert_eq!(parse_year("2026"), 2026);
    assert_eq!(parse_year("x"), 2026);
    assert_eq!(parse_year("1999"), 1999);
    assert_eq!(parse_month("05"), 5);
    assert_eq!(parse_month("-1"), 1);
    let t = build_time_context("2026", "05", "29", "周五", 1767196800, 2025, 1776254400);
    assert!(t.starts_with("今天是 2026年05月29日（周五）。\n- 用户提到“今年” → `mode=annually`, `baseTime=1767196800`。"));
    assert!(t.contains("`baseTime` 取 2025 年内时间戳"));
    assert!(t.contains("`mode=monthly`, `baseTime=1776254400`"));
    assert!(t.ends_with("- 不要用 `mode=overall` 回答明确指定年份的问题。"));
}

#[test]
fn preview_requests_are_routed() {
    assert_eq!(parse_report_preview_request_path("GET /report/1-2 HTTP/1.1").as_deref(), Some("/report/1-2"));
    assert_eq!(parse_report_preview_request_path("HEAD /x HTTP/1.1").as_deref(), Some("/x"));
    assert_eq!(parse_report_preview_request_path("POST /x HTTP/1.1"), None);
    assert_eq!(parse_report_preview_request_path("GET"), None);
    match preview_route("GET /report/170-3 HTTP/1.1\r\nHost: x\r\n\r\n") {
        PreviewRoute::Report { token } => assert_eq!(token, "170-3"),
        _ => panic!("expected a report"),
    }
    assert!(matches!(preview_route("GET /other HTTP/1.1\r\n"), PreviewRoute::NotFound));
    assert!(matches!(preview_route(""), PreviewRoute::BadRequest));
    assert!(matches!(preview_route("\r\n"), PreviewRoute::BadRequest));
}

#[test]
fn preview_answers_have_a_fixed_head() {
    assert_eq!(
        http_response_head(404, "text/plain; charset=utf-8", 9),
        "HTTP/1.1 404 Not Found\r\nContent-Type: text/plain; charset=utf-8\r\nContent-Length: 9\r\nCache-Control: no-store\r\nConnection: close\r\n\r\n"
    );
    assert!(http_response_head(500, "x", 0).starts_with("HTTP/1.1 500 Error\r\n"));
}

#[test]
fn report_exports_need_a_folder_and_content() {
    assert_eq!(check_report_export(" ", "<html>").unwrap_err(), "请选择导出目录");
    assert_eq!(check_report_export("/out", "  ").unwrap_err(), "报告内容为空，无法导出");
    assert!(check_report_export("/out", "<html>").is_ok());
    assert_eq!(check_report_preview("\n").unwrap_err(), "报告内容为空，无法预览");
    assert!(check_report_preview("<p>").is_ok());
}

#[test]
fn sessions_are_found_by_id_or_recency() {
    let names = vec![
        "rollout-b.jsonl".to_string(),
        "rollout-a.jsonl".to_string(),
        "rollout-b.jsonl".to_string(),
    ];
    assert_eq!(pick_session_to_load(&names, Some("rollout-a")), Some(1));
    assert_eq!(pick_session_to_load(&names, Some("rollout-b")), Some(0));
    assert_eq!(pick_session_to_load(&names, Some("")), Some(0));
    assert_eq!(pick_session_to_load(&names, None), Some(0));
    assert_eq!(pick_session_to_load(&Vec::new(), None), None);
    assert_eq!(pick_session_to_load(&names, Some("missing")), None);
    assert_eq!(pick_session_to_save(&names, ""), None);
    assert_eq!(pick_session_to_save(&names, "rollout-a"), Some(1));
    assert_eq!(
        session_message_lines("{\"a\":1}\n  \n {\"b\":2} \r\n"),
        vec!["{\"a\":1}".to_string(), "{\"b\":2}".to_string()]
    );
}

#[test]
fn session_files_sort_newest_first_and_keep_ties() {
    assert_eq!(order_newest_first(&vec![5, 9, 5, 1, 9]), vec![1, 4, 0, 2, 3]);
    assert_eq!(order_newest_first(&Vec::new()), Vec::<usize>::new());
}

#[test]
fn images_are_decoded_from_data_urls() {
    assert_eq!(image_bytes_from_data_url("data:image/png;base64,aGk=").unwrap(), b"hi".to_vec());
    assert_eq!(image_bytes_from_data_url("no comma").unwrap_err(), "图片数据格式不正确");
    assert!(image_bytes_from_data_url("data:,***").unwrap_err().starts_with("图片数据解码失败: "));
}

#[test]
fn llm_settings_and_test_results() {
    let mut c = empty_config();
    assert_eq!(chat_endpoint(&c).err().unwrap(), "请先配置 AI 服务 Base URL");
    assert_eq!(test_endpoint(&c).err().unwrap(), "请先配置 LLM Base URL");
    c.llm_base_url = Some("https://api.x/v1/".to_string());
    assert_eq!(chat_endpoint(&c).err().unwrap(), "请先配置 AI 服务 API Key");
    assert_eq!(test_endpoint(&c).err().unwrap(), "请先配置 LLM API Key");
    c.llm_api_key = Some("k".to_string());
    let e = chat_endpoint(&c).ok().unwrap();
    assert_eq!(e.model, "gpt-4o");
    assert_eq!(chat_completions_url(&e.base_url), "https://api.x/v1/chat/completions");
    assert_eq!(chat_completions_url("https://a//"), "https://a/chat/completions");
    let ok = llm_test_result(201, "m1", "");
    assert!(ok.ok);
    assert_eq!(ok.message, "连接成功 (模型: m1)");
    assert_eq!(ok.model.as_deref(), Some("m1"));
    let body = "错".repeat(400);
    let bad = llm_test_result(500, "m1", &body);
    assert!(!bad.ok);
    assert_eq!(bad.message, format!("连接失败 (HTTP 500): {}", "错".repeat(300)));
    assert_eq!(bad.model, None);
}

#[test]
fn tool_results_are_json() {
    assert_eq!(
        read_result_text(ReadOutcome::Failed { message: Some("a\"b".to_string()) }),
        "{\"error\":\"a\\\"b\"}"
    );
    assert_eq!(
        ask_user_result(&vec!["x".to_string(), "y".to_string()]),
        "[\n  \"x\",\n  \"y\"\n]"
    );
}

#[test]
fn telemetry_sends_only_the_installation_facts() {
    let p = ping_payload("app", "id-1".to_string(), "1.0.0", "release", "linux", "x86_64", None);
    assert_eq!(p.schema_version, 1);
    assert_eq!(p.installation_id, "id-1");
    assert_eq!(p.platform, "linux");
    let mut c = empty_config();
    reset_installation_id(&mut c);
    let id = c.telemetry_installation_id.clone().unwrap();
    assert_eq!(id.len(), 36);
    assert_eq!(id.matches('-').count(), 4);
    assert_eq!(id.chars().nth(14), Some('4'));
    assert!(matches!(id.chars().nth(19), Some('8' | '9' | 'a' | 'b')));
}

#[test]
fn validation_reads_markup_case_insensitively() {
    let upper = validate_output(Some("<IFRAME src=x></IFRAME>"));
    assert!(upper.warnings.iter().any(|w| w == "报告 HTML 包含嵌入式 frame/object/embed，本地 file 打开时容易触发安全限制"));
    let none = validate_output(Some("<p>plain</p>"));
    assert!(!none.warnings.iter().any(|w| w == "报告 HTML 包含嵌入式 frame/object/embed，本地 file 打开时容易触发安全限制"));
    let missing = validate_output(None);
    assert!(!missing.ok);
    assert_eq!(missing.warnings, vec!["缺少报告".to_string()]);
}

#[test]
fn render_at_needs_both_local_times() {
    assert!(render_at("{{TIME_CONTEXT}}", "", String::new(), "2026", "05", "01", "5", None, Some(7)).is_none());
    assert!(render_at("{{TIME_CONTEXT}}", "", String::new(), "2026", "05", "01", "5", Some(3), None).is_none());
    let p = render_at("A {{TIME_CONTEXT}}", "", String::from("S"), "2026", "05", "01", "5", Some(3), Some(7)).unwrap();
    assert_eq!(p.time_context, build_time_context("2026", "05", "01", "周五", 3, 2025, 7));
    assert!(p.time_context.starts_with("今天是 2026年05月01日（周五）"));
    assert!(p.system_text.starts_with("A 今天是 2026年05月01日（周五）"));
    assert_eq!(p.skill_prompt, "S");
}
