use weread_desktop::tasks::{
    merge_advanced_report_tasks, normalize_task_with_report_file, report_available_warning_message,
    AdvancedReportTask, AdvancedReportTaskStatus, TaskRegistry,
};
use weread_desktop::jobs::check_job_deletable;

fn task(job_id: &str, template_id: &str, status: AdvancedReportTaskStatus, updated_at: &str) -> AdvancedReportTask {
    AdvancedReportTask {
        job_id: job_id.to_string(),
        template_id: template_id.to_string(),
        template_name: "模板".to_string(),
        status,
        message: None,
        output_shape: None,
        output_shape_name: None,
        report_period: None,
        report_period_label: None,
        agent: None,
        model: None,
        job_dir: format!("/jobs/{job_id}"),
        report_path: format!("/jobs/{job_id}/output/report.html"),
        created_at: "2025-01-01T00:00:00Z".to_string(),
        updated_at: updated_at.to_string(),
    }
}

#[test]
fn merge_prefers_running_tasks_and_sorts_newest_first() {
    let persisted = vec![
        task("a", "t1", AdvancedReportTaskStatus::Failed, "2025-01-02T00:00:00Z"),
        task("b", "t2", AdvancedReportTaskStatus::Completed, "2025-01-05T00:00:00Z"),
    ];
    let runtime = vec![task("a", "t1", AdvancedReportTaskStatus::Running, "2025-01-09T00:00:00Z")];
    let merged = merge_advanced_report_tasks(persisted, runtime);
    assert_eq!(merged.len(), 2);
    assert_eq!(merged[0].job_id, "a");
    assert_eq!(merged[0].status, AdvancedReportTaskStatus::Running);
    assert_eq!(merged[1].job_id, "b");
}

#[test]
fn failed_task_with_report_is_completed() {
    let mut t = task("x", "t", AdvancedReportTaskStatus::Failed, "2025-01-01T00:00:00Z");
    t.message = Some("  解析智能体报告元数据失败  ".to_string());
    let r = normalize_task_with_report_file(t, true);
    assert_eq!(r.status, AdvancedReportTaskStatus::Completed);
    assert_eq!(
        r.message.unwrap(),
        "报告已生成，但附加信息读取失败。可以先打开 HTML 报告；再次生成时可让 AI 修正 report.meta.json 格式。原始错误：解析智能体报告元数据失败"
    );
}

#[test]
fn warning_message_defaults() {
    assert_eq!(report_available_warning_message(None), "报告已生成，但附加信息读取失败。可以先打开 HTML 报告。");
    assert_eq!(report_available_warning_message(Some("磁盘满了")), "报告已生成，但仍有附加问题：磁盘满了");
}

#[test]
fn registry_tracks_active_templates() {
    let mut reg = TaskRegistry::new();
    reg.upsert_advanced_report_task(task("j1", "tpl", AdvancedReportTaskStatus::Running, "2025-01-01T00:00:00Z"));
    assert!(reg.has_active_advanced_report_template("tpl"));
    assert!(reg.has_active_advanced_report_job("j1"));
    let updated = reg.update_advanced_report_task_status(
        "j1",
        AdvancedReportTaskStatus::Completed,
        Some("报告已生成".to_string()),
        "2025-01-02T00:00:00Z".to_string(),
    );
    assert!(updated.is_some());
    assert!(!reg.has_active_advanced_report_template("tpl"));
    reg.remove_advanced_report_task("j1");
    assert!(reg.advanced_report_tasks().is_empty());
}

#[test]
fn a_running_job_cannot_be_deleted() {
    let mut reg = TaskRegistry::new();
    reg.upsert_advanced_report_task(task("j1", "tpl", AdvancedReportTaskStatus::Running, "2025-01-01T00:00:00Z"));
    reg.upsert_advanced_report_task(task("j2", "tpl2", AdvancedReportTaskStatus::Completed, "2025-01-01T00:00:00Z"));
    assert_eq!(check_job_deletable(&reg, "j1").unwrap_err(), "任务正在生成中，请先取消后再删除。");
    assert!(check_job_deletable(&reg, "j2").is_ok());
    assert!(check_job_deletable(&reg, "j3").is_ok());
}
