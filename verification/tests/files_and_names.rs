use weread_desktop::cache::{join_path, ApiCache};
use weread_desktop::custom_templates::generate_id;
use weread_desktop::filenames::{report_candidate, resolve_output_dir, safe_file_name, safe_report_file_name};
use weread_desktop::markdown::{format_date, format_datetime, format_duration, yaml_escape};
use weread_desktop::period::timestamp_for_ymd;
use weread_desktop::preview::{preview_file_name, preview_token, preview_url};
use weread_desktop::report_output::{export_file_name, meta_parse_warning};
use weread_desktop::sessions::{date_from_filename, session_file_name, session_id_of, weread_url};

#[test]
fn safe_names_keep_letters_and_replace_the_rest() {
    assert_eq!(safe_report_file_name("  我的/报告:2025 "), "我的_报告_2025");
    assert_eq!(safe_report_file_name("???"), "阅读报告");
    assert_eq!(safe_file_name("a\tb   c", "x"), "a_b c");
    assert_eq!(safe_file_name("", "未知书籍"), "未知书籍");
}

#[test]
fn safe_names_are_cut_at_eighty_characters() {
    let long = "书".repeat(100);
    assert_eq!(safe_report_file_name(&long).chars().count(), 80);
}

#[test]
fn report_candidates_count_up_then_fall_back() {
    assert_eq!(report_candidate("年度", 1), "年度.html");
    assert_eq!(report_candidate("年度", 2), "年度-2.html");
    assert_eq!(report_candidate("年度", 999), "年度-999.html");
    assert_eq!(report_candidate("年度", 1000), "年度-report.html");
}

#[test]
fn output_dirs_resolve_from_home() {
    assert_eq!(resolve_output_dir("~", Some("/home/u")), "/home/u");
    assert_eq!(resolve_output_dir("~/Docs", Some("/home/u")), "/home/u/Docs");
    assert_eq!(resolve_output_dir("~/Docs", None), "~/Docs");
    assert_eq!(resolve_output_dir("/tmp/out", Some("/home/u")), "/tmp/out");
    assert_eq!(join_path("/a/", "b"), "/a/b");
    assert_eq!(join_path("/a", "/b"), "/b");
}

#[test]
fn cache_paths_live_under_the_root() {
    assert_eq!(ApiCache::api_cache_dir("/root/.c"), "/root/.c/cache/api");
    assert!(ApiCache::is_fresh(1000, 900, 200));
    assert!(ApiCache::is_fresh(1000, 800, 200));
    assert!(!ApiCache::is_fresh(1000, 700, 200));
}

#[test]
fn dates_are_written_in_utc() {
    assert_eq!(format_datetime(0), "1970-01-01 00:00:00");
    assert_eq!(format_datetime(1_700_000_000), "2023-11-14 22:13:20");
    assert_eq!(format_date(1_700_000_000), "2023-11-14");
    assert_eq!(timestamp_for_ymd(2024, 1, 1), 1_704_067_200);
    assert_eq!(timestamp_for_ymd(2024, 2, 30), 0);
}

#[test]
fn midnights_follow_the_gregorian_calendar() {
    assert_eq!(timestamp_for_ymd(2024, 2, 29), 1_709_164_800);
    assert_eq!(timestamp_for_ymd(2023, 2, 29), 0);
    assert_eq!(timestamp_for_ymd(1969, 12, 31), -86_400);
    assert_eq!(timestamp_for_ymd(2000, 3, 1), 951_868_800);
    assert_eq!(timestamp_for_ymd(1900, 2, 29), 0);
    assert_eq!(timestamp_for_ymd(2024, 13, 1), 0);
    assert_eq!(timestamp_for_ymd(262_143, 1, 1), 0);
}

#[test]
fn durations_in_hours_and_minutes() {
    assert_eq!(format_duration(0), "0分钟");
    assert_eq!(format_duration(59), "0分钟");
    assert_eq!(format_duration(3600), "1小时");
    assert_eq!(format_duration(3660), "1小时1分钟");
    assert_eq!(format_duration(12_000), "3小时20分钟");
}

#[test]
fn yaml_values_are_quoted_when_needed() {
    assert_eq!(yaml_escape("书名"), "书名");
    assert_eq!(yaml_escape("a: b"), "\"a: b\"");
}

#[test]
fn template_ids_from_names_and_stamps() {
    assert_eq!(generate_id("My Report!", "20260101120000"), "custom-my-report-20260101120000");
    assert_eq!(generate_id("--阅读  Radar--", "1"), "custom-阅读-radar-1");
    assert_eq!(generate_id("", "1"), "custom--1");
    let long = "a".repeat(40);
    assert_eq!(generate_id(&long, "9"), format!("custom-{}-9", "a".repeat(24)));
}

#[test]
fn templates_stamped_apart_get_different_ids() {
    let a = generate_id("同一个名字", "20260101120000");
    let b = generate_id("同一个名字", "20260101120001");
    assert_ne!(a, b);
}

#[test]
fn session_files_and_their_ids() {
    let name = session_file_name("2026-05-29T14-30-00", "abc");
    assert_eq!(name, "rollout-2026-05-29T14-30-00-abc.jsonl");
    assert_eq!(session_id_of(&name), "rollout-2026-05-29T14-30-00-abc");
    assert_eq!(session_id_of(".hidden"), ".hidden");
    assert_eq!(session_id_of("a.tar.gz"), "a.tar");
    assert_eq!(date_from_filename(&name).as_deref(), Some("2026-05-29"));
    assert_eq!(date_from_filename("other-2026-05-29.jsonl"), None);
    assert_eq!(date_from_filename("rollout-2026"), None);
    assert_eq!(date_from_filename("rollout-书书书书"), None);
}

#[test]
fn links_and_names_for_reports() {
    assert_eq!(weread_url("b1", None), "weread://reading?bId=b1");
    assert_eq!(weread_url("b1", Some(7)), "weread://reading?bId=b1&chapterUid=7");
    assert_eq!(preview_token(1700000000123, 4), "1700000000123-4");
    assert_eq!(preview_url("http://127.0.0.1:5000", "t-1"), "http://127.0.0.1:5000/report/t-1");
    assert_eq!(preview_file_name("月报"), "月报.html");
    assert_eq!(export_file_name("growth-path-1"), "growth-path-1.html");
    assert_eq!(
        meta_parse_warning("EOF"),
        "附加信息读取失败：report.meta.json 格式不完整（EOF）。这不影响打开 HTML 报告；如果再次生成，可以让 AI 修正报告元数据 JSON 格式。"
    );
}

use weread_desktop::markdown::{build_markdown, ExportBook};
use weread_desktop::types::BookProgress;

#[test]
fn markdown_export_starts_with_the_documented_frontmatter() {
    let book = ExportBook {
        book_id: "123456".to_string(),
        isbn: "9780000000000".to_string(),
        title: "书名".to_string(),
        author: "作者".to_string(),
        cover: "https://img/c.jpg".to_string(),
        bookmarks: vec![],
        reviews: vec![],
        chapters: vec![],
        progress: Some(BookProgress {
            book_id: "123456".to_string(),
            progress: 100,
            chapter_uid: 0,
            chapter_offset: 0,
            update_time: 1_779_312_600,
            record_reading_time: 12_000,
            finish_time: Some(1_779_315_000),
            is_start_reading: 1,
        }),
    };
    let md = build_markdown(&book, false, "2026-05-21 10:00");
    assert!(md.starts_with(
        "---\nbookId: \"123456\"\nisbn: \"9780000000000\"\ntitle: 书名\nauthor: 作者\ncover: https://img/c.jpg\nlastReadDate: 2026-05-20 21:30:00\nfinishedDate: 2026-05-20 22:10:00\nreading-time: 3小时20分钟\nprogress: 100%\n---\n\n# 书名 - 作者\n\n> 导出时间：2026-05-21 10:00\n"
    ));
    assert!(md.contains("> 暂无可导出的划线或想法。"));
    assert!(md.ends_with("---\n*由「书迹」桌面端导出*\n"));
}
