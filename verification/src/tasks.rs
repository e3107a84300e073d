//! Report tasks: their status, how a task read back from disk or left
//! failed is settled, and the registry of the tasks of a session.
use crate::templates::opt_str_view;
use crate::text::{
    chars_of, contains_seq, has_text, lemma_text_less_irreflexive, lemma_text_less_transitive, owned, push_chars, str_less,
    text_less, trim, trim_chars,
};
use vstd::prelude::*;

verus! {

/// Where a report task stands.
#[derive(Clone, Copy, Debug, PartialEq, Eq, Structural)]
pub enum AdvancedReportTaskStatus {
    Preparing,
    Running,
    Completed,
    Failed,
    Canceled,
}

/// A task that is still preparing or running.
pub open spec fn is_active(s: AdvancedReportTaskStatus) -> bool {
    s == AdvancedReportTaskStatus::Preparing || s == AdvancedReportTaskStatus::Running
}

/// Whether a task with this status is still preparing or running.
pub fn status_is_active(status: AdvancedReportTaskStatus) -> (b: bool)
    ensures
        b == is_active(status),
{
    match status {
        AdvancedReportTaskStatus::Preparing => true,
        AdvancedReportTaskStatus::Running => true,
        _ => false,
    }
}

/// A report task as the task list shows it.
#[derive(Clone, Debug)]
pub struct AdvancedReportTask {
    pub job_id: String,
    pub template_id: String,
    pub template_name: String,
    pub status: AdvancedReportTaskStatus,
    pub message: Option<String>,
    pub output_shape: Option<String>,
    pub output_shape_name: Option<String>,
    pub report_period: Option<String>,
    pub report_period_label: Option<String>,
    pub agent: Option<String>,
    pub model: Option<String>,
    pub job_dir: String,
    pub report_path: String,
    pub created_at: String,
    pub updated_at: String,
}

/// A task as it is saved beside its job.
#[derive(Clone, Debug)]
pub struct AdvancedReportTaskSnapshot {
    pub job_id: String,
    pub template_id: String,
    pub template_name: String,
    pub status: AdvancedReportTaskStatus,
    pub message: Option<String>,
    pub output_shape: Option<String>,
    pub output_shape_name: Option<String>,
    pub report_period: Option<String>,
    pub report_period_label: Option<String>,
    pub agent: Option<String>,
    pub model: Option<String>,
    pub job_dir: String,
    pub report_path: String,
    pub created_at: String,
    pub updated_at: String,
}

/// A prepared report job as saved in its directory.
#[derive(Clone, Debug)]
pub struct AdvancedReportJob {
    pub job_id: String,
    pub template_id: String,
    pub template_name: String,
    pub job_dir: String,
    pub input_dir: String,
    pub data_dir: String,
    pub output_dir: String,
    pub prompt_path: String,
    pub status: String,
    pub created_at: String,
}

/// The settings a job was prepared with, as far as they could be read.
pub struct GenerationSettings {
    pub output_shape: Option<String>,
    pub output_shape_name: Option<String>,
    pub report_period: Option<String>,
    pub report_period_label: Option<String>,
}

/// A change of a task's status, as announced to the window.
#[derive(Clone, Debug)]
pub struct AdvancedReportTaskEvent {
    pub job_id: String,
    pub status: AdvancedReportTaskStatus,
    pub message: Option<String>,
}

/// One line of a job's generation log.
#[derive(Clone, Debug)]
pub struct AdvancedReportLogEvent {
    pub job_id: String,
    pub kind: String,
    pub text: String,
    pub created_at: String,
}

fn clone_opt(o: &Option<String>) -> (r: Option<String>)
    ensures
        r == *o,
{
    match o {
        Some(s) => Some(s.clone()),
        None => None,
    }
}

/// A field-by-field copy of a task.
pub fn clone_task(t: &AdvancedReportTask) -> (r: AdvancedReportTask)
    ensures
        r == *t,
{
    AdvancedReportTask {
        job_id: t.job_id.clone(),
        template_id: t.template_id.clone(),
        template_name: t.template_name.clone(),
        status: t.status,
        message: clone_opt(&t.message),
        output_shape: clone_opt(&t.output_shape),
        output_shape_name: clone_opt(&t.output_shape_name),
        report_period: clone_opt(&t.report_period),
        report_period_label: clone_opt(&t.report_period_label),
        agent: clone_opt(&t.agent),
        model: clone_opt(&t.model),
        job_dir: t.job_dir.clone(),
        report_path: t.report_path.clone(),
        created_at: t.created_at.clone(),
        updated_at: t.updated_at.clone(),
    }
}

// ---------------------------------------------------------------------
// Settling a task whose report exists
// ---------------------------------------------------------------------

pub const REPORT_READY_META_WARNING: &'static str = "报告已生成，但附加信息读取失败。可以先打开 HTML 报告；再次生成时可让 AI 修正 report.meta.json 格式。原始错误：";

pub const REPORT_READY_OTHER_WARNING: &'static str = "报告已生成，但仍有附加问题：";

pub const REPORT_READY_DEFAULT_WARNING: &'static str = "报告已生成，但附加信息读取失败。可以先打开 HTML 报告。";

pub const TASK_INTERRUPTED_MESSAGE: &'static str = "应用退出或任务中断，未生成报告";

pub const REPORT_READY_MESSAGE: &'static str = "报告已生成";

/// A message that blames the report's metadata.
pub open spec fn about_metadata(m: Seq<char>) -> bool {
    contains_seq(m, "解析智能体报告元数据失败"@) || contains_seq(m, "report.meta.json"@)
        || contains_seq(m, "元数据"@)
}

/// The message of a task whose report exists although the task failed:
/// the trimmed earlier message is kept behind a prefix that depends on
/// whether it concerns the metadata; without one a default note stands.
pub open spec fn available_warning(message: Option<Seq<char>>) -> Seq<char> {
    let m = match message {
        Some(raw) => trim(raw),
        None => Seq::empty(),
    };
    if m.len() == 0 {
        REPORT_READY_DEFAULT_WARNING@
    } else if about_metadata(m) {
        REPORT_READY_META_WARNING@ + m
    } else {
        REPORT_READY_OTHER_WARNING@ + m
    }
}

/// The message shown for a task whose report was written despite a failure.
pub fn report_available_warning_message(message: Option<&str>) -> (r: String)
    ensures
        r@ == available_warning(opt_str_view(message)),
{
    let m: Vec<char> = match message {
        Some(raw) => trim_chars(&chars_of(raw)),
        None => Vec::new(),
    };
    if m.len() == 0 {
        return owned(REPORT_READY_DEFAULT_WARNING);
    }
    let a = has_text(&m, "解析智能体报告元数据失败");
    let b = has_text(&m, "report.meta.json");
    let c = has_text(&m, "元数据");
    let mut r = if a || b || c {
        owned(REPORT_READY_META_WARNING)
    } else {
        owned(REPORT_READY_OTHER_WARNING)
    };
    push_chars(&mut r, &m);
    r
}

pub open spec fn opt_view(o: Option<String>) -> Option<Seq<char>> {
    match o {
        Some(s) => Some(s@),
        None => None,
    }
}

/// Every field but the status and the message agrees.
pub open spec fn same_but_status(a: AdvancedReportTask, b: AdvancedReportTask) -> bool {
    &&& a.job_id == b.job_id
    &&& a.template_id == b.template_id
    &&& a.template_name == b.template_name
    &&& a.output_shape == b.output_shape
    &&& a.output_shape_name == b.output_shape_name
    &&& a.report_period == b.report_period
    &&& a.report_period_label == b.report_period_label
    &&& a.agent == b.agent
    &&& a.model == b.model
    &&& a.job_dir == b.job_dir
    &&& a.report_path == b.report_path
    &&& a.created_at == b.created_at
    &&& a.updated_at == b.updated_at
}

/// A task as it is listed once its report file was looked for: a failed
/// task whose report exists counts as completed, with a note on what went
/// wrong; any other stays as it is.
pub open spec fn settled(task: AdvancedReportTask, report_exists: bool, r: AdvancedReportTask) -> bool {
    if task.status == AdvancedReportTaskStatus::Failed && report_exists {
        &&& r.status == AdvancedReportTaskStatus::Completed
        &&& opt_view(r.message) == Some(available_warning(opt_view(task.message)))
        &&& same_but_status(r, task)
    } else {
        r == task
    }
}

/// A failed task whose report file exists counts as completed, with a
/// note on what went wrong; every other task stays as it is. The caller
/// saves the task again when its status changed.
pub fn normalize_task_with_report_file(task: AdvancedReportTask, report_exists: bool) -> (r:
    AdvancedReportTask)
    ensures
        settled(task, report_exists, r),
{
    let mut task = task;
    if task.status == AdvancedReportTaskStatus::Failed && report_exists {
        let note = match &task.message {
            Some(m) => report_available_warning_message(Some(m.as_str())),
            None => report_available_warning_message(None),
        };
        task.status = AdvancedReportTaskStatus::Completed;
        task.message = Some(note);
    }
    task
}

// ---------------------------------------------------------------------
// Restoring tasks saved on disk
// ---------------------------------------------------------------------

/// The status of a saved task on restart: an existing report means it
/// completed, and a task that was still under way was cut off.
pub open spec fn restored_status(saved: AdvancedReportTaskStatus, report_exists: bool) -> AdvancedReportTaskStatus {
    if report_exists {
        AdvancedReportTaskStatus::Completed
    } else if is_active(saved) {
        AdvancedReportTaskStatus::Failed
    } else {
        saved
    }
}

/// The message of a saved task on restart.
pub open spec fn restored_message(
    saved: AdvancedReportTaskStatus,
    message: Option<Seq<char>>,
    report_exists: bool,
) -> Option<Seq<char>> {
    if report_exists {
        if saved == AdvancedReportTaskStatus::Failed {
            Some(available_warning(message))
        } else {
            match message {
                Some(m) => Some(m),
                None => Some(Seq::empty()),
            }
        }
    } else if is_active(saved) {
        Some(TASK_INTERRUPTED_MESSAGE@)
    } else {
        message
    }
}

pub open spec fn or_setting(saved: Option<String>, fallback: Option<String>) -> Option<String> {
    match saved {
        Some(s) => Some(s),
        None => fallback,
    }
}

/// Rebuilds a task from its saved snapshot, whether its report file exists,
/// the path of that file and the job's generation settings, which fill in
/// what the snapshot lacks.
pub fn task_from_snapshot(
    snapshot: AdvancedReportTaskSnapshot,
    report_exists: bool,
    report_path: String,
    settings: GenerationSettings,
) -> (r: AdvancedReportTask)
    ensures
        r.job_id == snapshot.job_id,
        r.template_id == snapshot.template_id,
        r.template_name == snapshot.template_name,
        r.status == restored_status(snapshot.status, report_exists),
        opt_view(r.message) == restored_message(
            snapshot.status,
            opt_view(snapshot.message),
            report_exists,
        ),
        r.output_shape == or_setting(snapshot.output_shape, settings.output_shape),
        r.output_shape_name == or_setting(snapshot.output_shape_name, settings.output_shape_name),
        r.report_period == or_setting(snapshot.report_period, settings.report_period),
        r.report_period_label == or_setting(
            snapshot.report_period_label,
            settings.report_period_label,
        ),
        r.agent == snapshot.agent,
        r.model == snapshot.model,
        r.job_dir == snapshot.job_dir,
        r.report_path == report_path,
        r.created_at == snapshot.created_at,
        r.updated_at == snapshot.updated_at,
{
    let saved = snapshot.status;
    let active = status_is_active(saved);
    let status = if report_exists {
        AdvancedReportTaskStatus::Completed
    } else if active {
        AdvancedReportTaskStatus::Failed
    } else {
        saved
    };
    let message = if report_exists {
        if saved == AdvancedReportTaskStatus::Failed {
            match &snapshot.message {
                Some(m) => Some(report_available_warning_message(Some(m.as_str()))),
                None => Some(report_available_warning_message(None)),
            }
        } else {
            match snapshot.message {
                Some(m) => Some(m),
                None => Some(String::new()),
            }
        }
    } else if active {
        Some(owned(TASK_INTERRUPTED_MESSAGE))
    } else {
        snapshot.message
    };
    AdvancedReportTask {
        job_id: snapshot.job_id,
        template_id: snapshot.template_id,
        template_name: snapshot.template_name,
        status,
        message,
        output_shape: match snapshot.output_shape {
            Some(s) => Some(s),
            None => settings.output_shape,
        },
        output_shape_name: match snapshot.output_shape_name {
            Some(s) => Some(s),
            None => settings.output_shape_name,
        },
        report_period: match snapshot.report_period {
            Some(s) => Some(s),
            None => settings.report_period,
        },
        report_period_label: match snapshot.report_period_label {
            Some(s) => Some(s),
            None => settings.report_period_label,
        },
        agent: snapshot.agent,
        model: snapshot.model,
        job_dir: snapshot.job_dir,
        report_path,
        created_at: snapshot.created_at,
        updated_at: snapshot.updated_at,
    }
}

/// Rebuilds a task for a job that left no snapshot: it completed exactly
/// when its report file exists, and it was last updated when it was created.
pub fn task_from_job(
    job: AdvancedReportJob,
    report_exists: bool,
    report_path: String,
    settings: GenerationSettings,
) -> (r: AdvancedReportTask)
    ensures
        r.job_id == job.job_id,
        r.template_id == job.template_id,
        r.template_name == job.template_name,
        r.status == (if report_exists {
            AdvancedReportTaskStatus::Completed
        } else {
            AdvancedReportTaskStatus::Failed
        }),
        opt_view(r.message) == Some(
            if report_exists {
                REPORT_READY_MESSAGE@
            } else {
                TASK_INTERRUPTED_MESSAGE@
            },
        ),
        r.output_shape == settings.output_shape,
        r.output_shape_name == settings.output_shape_name,
        r.report_period == settings.report_period,
        r.report_period_label == settings.report_period_label,
        r.agent is None,
        r.model is None,
        r.job_dir == job.job_dir,
        r.report_path == report_path,
        r.created_at == job.created_at,
        r.updated_at == job.created_at,
{
    let updated_at = job.created_at.clone();
    AdvancedReportTask {
        job_id: job.job_id,
        template_id: job.template_id,
        template_name: job.template_name,
        status: if report_exists {
            AdvancedReportTaskStatus::Completed
        } else {
            AdvancedReportTaskStatus::Failed
        },
        message: Some(
            if report_exists {
                owned(REPORT_READY_MESSAGE)
            } else {
                owned(TASK_INTERRUPTED_MESSAGE)
            },
        ),
        output_shape: settings.output_shape,
        output_shape_name: settings.output_shape_name,
        report_period: settings.report_period,
        report_period_label: settings.report_period_label,
        agent: None,
        model: None,
        job_dir: job.job_dir,
        report_path,
        created_at: job.created_at,
        updated_at,
    }
}

/// The snapshot saved for a task: the same fields.
pub fn task_snapshot(task: &AdvancedReportTask) -> (s: AdvancedReportTaskSnapshot)
    ensures
        s.job_id == task.job_id,
        s.template_id == task.template_id,
        s.template_name == task.template_name,
        s.status == task.status,
        s.message == task.message,
        s.output_shape == task.output_shape,
        s.output_shape_name == task.output_shape_name,
        s.report_period == task.report_period,
        s.report_period_label == task.report_period_label,
        s.agent == task.agent,
        s.model == task.model,
        s.job_dir == task.job_dir,
        s.report_path == task.report_path,
        s.created_at == task.created_at,
        s.updated_at == task.updated_at,
{
    let t = clone_task(task);
    AdvancedReportTaskSnapshot {
        job_id: t.job_id,
        template_id: t.template_id,
        template_name: t.template_name,
        status: t.status,
        message: t.message,
        output_shape: t.output_shape,
        output_shape_name: t.output_shape_name,
        report_period: t.report_period,
        report_period_label: t.report_period_label,
        agent: t.agent,
        model: t.model,
        job_dir: t.job_dir,
        report_path: t.report_path,
        created_at: t.created_at,
        updated_at: t.updated_at,
    }
}

// ---------------------------------------------------------------------
// The tasks of a session
// ---------------------------------------------------------------------

/// No two tasks share a job id.
pub open spec fn distinct_ids(s: Seq<AdvancedReportTask>) -> bool {
    forall|a: int, b: int|
        0 <= a < s.len() && 0 <= b < s.len() && a != b ==> #[trigger] s[a].job_id@
            != #[trigger] s[b].job_id@
}

/// `s` lists the tasks of `m` (keyed by job id), each exactly once.
pub open spec fn lists_exactly(s: Seq<AdvancedReportTask>, m: Map<Seq<char>, AdvancedReportTask>) -> bool {
    &&& distinct_ids(s)
    &&& forall|j: int|
        0 <= j < s.len() ==> m.contains_key(#[trigger] s[j].job_id@) && m[s[j].job_id@] == s[j]
    &&& forall|k: Seq<char>|
        #[trigger] m.contains_key(k) ==> exists|j: int| 0 <= j < s.len() && s[j].job_id@ == k
}

/// Newer tasks first: no task was updated before a task listed after it.
pub open spec fn newest_first(s: Seq<AdvancedReportTask>) -> bool {
    forall|a: int, b: int|
        0 <= a < b < s.len() ==> !text_less(#[trigger] s[a].updated_at@, #[trigger] s[b].updated_at@)
}

/// Inserts a task into a list kept newest first, after every task updated
/// at the same time or later; returns where it went.
fn insert_newest_first(out: &mut Vec<AdvancedReportTask>, t: AdvancedReportTask) -> (p: usize)
    requires
        newest_first(old(out)@),
    ensures
        p <= old(out)@.len(),
        final(out)@ == old(out)@.insert(p as int, t),
        newest_first(final(out)@),
{
    let n = out.len();
    let mut p: usize = 0;
    while p < n
        invariant
            n == out@.len(),
            p <= n,
            forall|a: int| 0 <= a < p ==> !text_less(#[trigger] out@[a].updated_at@, t.updated_at@),
        ensures
            p <= n,
            forall|a: int| 0 <= a < p ==> !text_less(#[trigger] out@[a].updated_at@, t.updated_at@),
            p < n ==> text_less(out@[p as int].updated_at@, t.updated_at@),
        decreases n - p,
    {
        if str_less(out[p].updated_at.as_str(), t.updated_at.as_str()) {
            break;
        }
        p = p + 1;
    }
    let ghost before = out@;
    out.insert(p, t);
    proof {
        let s = out@;
        assert forall|a: int, b: int| 0 <= a < b < s.len() implies !text_less(
            #[trigger] s[a].updated_at@,
            #[trigger] s[b].updated_at@,
        ) by {
            if b < p {
                assert(s[a] == before[a] && s[b] == before[b]);
            } else if b == p {
                assert(s[a] == before[a]);
            } else if a == p {
                // before[p] < t, and no later task is newer than before[p]
                assert(s[b] == before[b - 1]);
                assert(text_less(before[p as int].updated_at@, t.updated_at@));
                if text_less(t.updated_at@, before[b - 1].updated_at@) {
                    lemma_text_less_transitive(
                        before[p as int].updated_at@,
                        t.updated_at@,
                        before[b - 1].updated_at@,
                    );
                    if b - 1 == p {
                        lemma_text_less_irreflexive(before[p as int].updated_at@);
                    }
                }
            } else if a < p {
                assert(s[a] == before[a] && s[b] == before[b - 1]);
            } else {
                assert(s[a] == before[a - 1] && s[b] == before[b - 1]);
            }
        }
    }
    p
}

/// `out` holds copies of the first `i` tasks of `src`: `pos` says where
/// each entry of `out` came from and `at` where each task of `src` went.
pub open spec fn tracks(
    out: Seq<AdvancedReportTask>,
    src: Seq<AdvancedReportTask>,
    i: int,
    pos: Seq<int>,
    at: Seq<int>,
) -> bool {
    &&& distinct_ids(out)
    &&& pos.len() == out.len()
    &&& at.len() == i
    &&& forall|j: int| 0 <= j < out.len() ==> 0 <= #[trigger] pos[j] < i && out[j] == src[pos[j]]
    &&& forall|o: int|
        0 <= o < i ==> 0 <= #[trigger] at[o] < out.len() && out[at[o]].job_id@ == src[o].job_id@
}

/// Positions at or after `p` move one place on.
pub open spec fn shifted(at: Seq<int>, p: int) -> Seq<int> {
    Seq::new(
        at.len(),
        |o: int|
            if at[o] >= p {
                at[o] + 1
            } else {
                at[o]
            },
    )
}

proof fn lemma_tracks_insert(
    src: Seq<AdvancedReportTask>,
    before: Seq<AdvancedReportTask>,
    s: Seq<AdvancedReportTask>,
    pos: Seq<int>,
    at: Seq<int>,
    i: int,
    p: int,
)
    requires
        distinct_ids(src),
        0 <= i < src.len(),
        0 <= p <= before.len(),
        s == before.insert(p, src[i]),
        tracks(before, src, i, pos, at),
    ensures
        tracks(s, src, i + 1, pos.insert(p, i), shifted(at, p).push(p)),
{
    let pos2 = pos.insert(p, i);
    let at2 = shifted(at, p).push(p);
    assert forall|a: int, b: int|
        0 <= a < s.len() && 0 <= b < s.len() && a != b implies #[trigger] s[a].job_id@
        != #[trigger] s[b].job_id@ by {
        if a != p && b != p {
            let oa = if a < p { a } else { a - 1 };
            let ob = if b < p { b } else { b - 1 };
            assert(s[a] == before[oa] && s[b] == before[ob]);
        } else if a == p {
            let ob = if b < p { b } else { b - 1 };
            assert(s[b] == before[ob] && before[ob] == src[pos[ob]]);
        } else {
            let oa = if a < p { a } else { a - 1 };
            assert(s[a] == before[oa] && before[oa] == src[pos[oa]]);
        }
    }
    assert forall|j: int| 0 <= j < s.len() implies 0 <= #[trigger] pos2[j] < i + 1 && s[j]
        == src[pos2[j]] by {
        if j < p {
            assert(pos2[j] == pos[j] && s[j] == before[j]);
        } else if j > p {
            assert(pos2[j] == pos[j - 1] && s[j] == before[j - 1]);
        }
    }
    assert forall|o: int| 0 <= o < i + 1 implies 0 <= #[trigger] at2[o] < s.len() && s[at2[o]].job_id@
        == src[o].job_id@ by {
        if o < i {
            assert(before[at[o]].job_id@ == src[o].job_id@);
            if at[o] >= p {
                assert(s[at[o] + 1] == before[at[o]]);
            } else {
                assert(s[at[o]] == before[at[o]]);
            }
        }
    }
}

/// The report tasks started in this session, by job id.
pub struct TaskRegistry {
    tasks: Vec<AdvancedReportTask>,
    index: Ghost<Map<Seq<char>, AdvancedReportTask>>,
}

impl View for TaskRegistry {
    type V = Map<Seq<char>, AdvancedReportTask>;

    closed spec fn view(&self) -> Map<Seq<char>, AdvancedReportTask> {
        self.index@
    }
}

/// The map after storing a task under its job id.
pub open spec fn stored(m: Map<Seq<char>, AdvancedReportTask>, t: AdvancedReportTask) -> Map<
    Seq<char>,
    AdvancedReportTask,
> {
    m.insert(t.job_id@, t)
}

/// Every task is filed under its own job id.
pub open spec fn keyed_by_id(m: Map<Seq<char>, AdvancedReportTask>) -> bool {
    forall|k: Seq<char>| #[trigger] m.contains_key(k) ==> m[k].job_id@ == k
}

impl TaskRegistry {
    /// The registry keeps one entry per job id, and its map is that list.
    pub closed spec fn wf(&self) -> bool {
        lists_exactly(self.tasks@, self.index@)
    }

    /// A registry with no tasks.
    pub fn new() -> (r: Self)
        ensures
            r.wf(),
            r@ == Map::<Seq<char>, AdvancedReportTask>::empty(),
    {
        TaskRegistry { tasks: Vec::new(), index: Ghost(Map::empty()) }
    }

    /// Every task of a well-formed registry is filed under its job id.
    pub proof fn lemma_keyed(&self)
        requires
            self.wf(),
        ensures
            keyed_by_id(self@),
    {
        assert forall|k: Seq<char>| #[trigger] self@.contains_key(k) implies self@[k].job_id@ == k by {
            let j = choose|j: int| 0 <= j < self.tasks@.len() && self.tasks@[j].job_id@ == k;
            assert(self.index@[self.tasks@[j].job_id@] == self.tasks@[j]);
        }
    }

    fn position(&self, job_id: &str) -> (r: Option<usize>)
        requires
            self.wf(),
        ensures
            match r {
                Some(j) => j < self.tasks@.len() && self.tasks@[j as int].job_id@ == job_id@,
                None => !self@.contains_key(job_id@),
            },
    {
        let n = self.tasks.len();
        let mut j: usize = 0;
        while j < n
            invariant
                n == self.tasks@.len(),
                j <= n,
                forall|k: int| 0 <= k < j ==> #[trigger] self.tasks@[k].job_id@ != job_id@,
            decreases n - j,
        {
            if crate::text::text_eq(self.tasks[j].job_id.as_str(), job_id) {
                return Some(j);
            }
            j = j + 1;
        }
        None
    }

    /// Adds a task, or replaces the task with the same job id.
    pub fn upsert_advanced_report_task(&mut self, task: AdvancedReportTask)
        requires
            old(self).wf(),
        ensures
            final(self).wf(),
            final(self)@ == stored(old(self)@, task),
    {
        let ghost old_tasks = self.tasks@;
        let ghost m = self.index@;
        let ghost key = task.job_id@;
        match self.position(task.job_id.as_str()) {
            Some(j) => {
                self.tasks.set(j, task);
                proof {
                    let s = self.tasks@;
                    let m2 = m.insert(key, task);
                    assert forall|a: int, b: int|
                        0 <= a < s.len() && 0 <= b < s.len() && a != b implies #[trigger] s[a].job_id@
                        != #[trigger] s[b].job_id@ by {
                        assert(old_tasks[a].job_id@ != old_tasks[b].job_id@);
                    }
                    assert forall|i: int| 0 <= i < s.len() implies m2.contains_key(
                        #[trigger] s[i].job_id@,
                    ) && m2[s[i].job_id@] == s[i] by {
                        if i != j {
                            assert(old_tasks[i].job_id@ != old_tasks[j as int].job_id@);
                            assert(m.contains_key(old_tasks[i].job_id@));
                        }
                    }
                    assert forall|k: Seq<char>| #[trigger] m2.contains_key(k) implies exists|i: int|
                        0 <= i < s.len() && s[i].job_id@ == k by {
                        if k == key {
                            assert(s[j as int].job_id@ == k);
                        } else {
                            let i = choose|i: int| 0 <= i < old_tasks.len() && old_tasks[i].job_id@ == k;
                            assert(s[i].job_id@ == k);
                        }
                    }
                    self.index = Ghost(m2);
                }
            },
            None => {
                self.tasks.push(task);
                proof {
                    let s = self.tasks@;
                    let m2 = m.insert(key, task);
                    let last = (s.len() - 1) as int;
                    assert forall|a: int, b: int|
                        0 <= a < s.len() && 0 <= b < s.len() && a != b implies #[trigger] s[a].job_id@
                        != #[trigger] s[b].job_id@ by {
                        if a == last {
                            assert(m.contains_key(old_tasks[b].job_id@));
                        } else if b == last {
                            assert(m.contains_key(old_tasks[a].job_id@));
                        } else {
                            assert(old_tasks[a].job_id@ != old_tasks[b].job_id@);
                        }
                    }
                    assert forall|i: int| 0 <= i < s.len() implies m2.contains_key(
                        #[trigger] s[i].job_id@,
                    ) && m2[s[i].job_id@] == s[i] by {
                        if i != last {
                            assert(s[i] == old_tasks[i]);
                            assert(m.contains_key(old_tasks[i].job_id@));
                        }
                    }
                    assert forall|k: Seq<char>| #[trigger] m2.contains_key(k) implies exists|i: int|
                        0 <= i < s.len() && s[i].job_id@ == k by {
                        if k == key {
                            assert(s[last].job_id@ == k);
                        } else {
                            let i = choose|i: int| 0 <= i < old_tasks.len() && old_tasks[i].job_id@ == k;
                            assert(s[i].job_id@ == k);
                        }
                    }
                    self.index = Ghost(m2);
                }
            },
        }
    }

    /// Sets the status and message of a task and stamps it with `now`;
    /// returns the updated task so that it can be saved, or `None` when no
    /// task has this job id.
    pub fn update_advanced_report_task_status(
        &mut self,
        job_id: &str,
        status: AdvancedReportTaskStatus,
        message: Option<String>,
        now: String,
    ) -> (r: Option<AdvancedReportTask>)
        requires
            old(self).wf(),
        ensures
            final(self).wf(),
            if old(self)@.contains_key(job_id@) {
                let before = old(self)@[job_id@];
                &&& r matches Some(t) && t.status == status && t.message == message && t.updated_at
                    == now && t.job_id == before.job_id && t.template_id == before.template_id
                    && t.template_name == before.template_name && t.output_shape
                    == before.output_shape && t.output_shape_name == before.output_shape_name
                    && t.report_period == before.report_period && t.report_period_label
                    == before.report_period_label && t.agent == before.agent && t.model
                    == before.model && t.job_dir == before.job_dir && t.report_path
                    == before.report_path && t.created_at == before.created_at
                    && final(self)@ == old(self)@.insert(job_id@, t)
            } else {
                r is None && final(self)@ == old(self)@
            },
    {
        match self.position(job_id) {
            None => None,
            Some(j) => {
                proof {
                    assert(self.index@.contains_key(self.tasks@[j as int].job_id@));
                }
                let mut t = clone_task(&self.tasks[j]);
                t.status = status;
                t.message = message;
                t.updated_at = now;
                let copy = clone_task(&t);
                self.upsert_advanced_report_task(t);
                Some(copy)
            },
        }
    }

    /// Forgets the task with this job id.
    pub fn remove_advanced_report_task(&mut self, job_id: &str)
        requires
            old(self).wf(),
        ensures
            final(self).wf(),
            final(self)@ == old(self)@.remove(job_id@),
    {
        let ghost old_tasks = self.tasks@;
        let ghost m = self.index@;
        match self.position(job_id) {
            None => {
                assert(m.remove(job_id@) == m);
            },
            Some(j) => {
                self.tasks.remove(j);
                proof {
                    let s = self.tasks@;
                    let m2 = m.remove(job_id@);
                    assert forall|a: int, b: int|
                        0 <= a < s.len() && 0 <= b < s.len() && a != b implies #[trigger] s[a].job_id@
                        != #[trigger] s[b].job_id@ by {
                        let oa = if a < j { a } else { a + 1 };
                        let ob = if b < j { b } else { b + 1 };
                        assert(s[a] == old_tasks[oa] && s[b] == old_tasks[ob]);
                        assert(old_tasks[oa].job_id@ != old_tasks[ob].job_id@);
                    }
                    assert forall|i: int| 0 <= i < s.len() implies m2.contains_key(
                        #[trigger] s[i].job_id@,
                    ) && m2[s[i].job_id@] == s[i] by {
                        let oi = if i < j { i } else { i + 1 };
                        assert(s[i] == old_tasks[oi]);
                        assert(old_tasks[oi].job_id@ != old_tasks[j as int].job_id@);
                        assert(m.contains_key(old_tasks[oi].job_id@));
                    }
                    assert forall|k: Seq<char>| #[trigger] m2.contains_key(k) implies exists|i: int|
                        0 <= i < s.len() && s[i].job_id@ == k by {
                        let oi = choose|i: int| 0 <= i < old_tasks.len() && old_tasks[i].job_id@ == k;
                        assert(oi != j);
                        let i = if oi < j { oi } else { oi - 1 };
                        assert(s[i] == old_tasks[oi]);
                    }
                    self.index = Ghost(m2);
                }
            },
        }
    }

    /// Whether a task of this template is still preparing or running.
    pub fn has_active_advanced_report_template(&self, template_id: &str) -> (b: bool)
        requires
            self.wf(),
        ensures
            b == exists|k: Seq<char>|
                #[trigger] self@.contains_key(k) && self@[k].template_id@ == template_id@
                    && is_active(self@[k].status),
    {
        let n = self.tasks.len();
        let mut j: usize = 0;
        while j < n
            invariant
                n == self.tasks@.len(),
                j <= n,
                lists_exactly(self.tasks@, self.index@),
                forall|i: int|
                    0 <= i < j ==> !(#[trigger] self.tasks@[i].template_id@ == template_id@
                        && is_active(self.tasks@[i].status)),
            decreases n - j,
        {
            let same = crate::text::text_eq(self.tasks[j].template_id.as_str(), template_id);
            if same && status_is_active(self.tasks[j].status) {
                assert(self.index@.contains_key(self.tasks@[j as int].job_id@));
                return true;
            }
            j = j + 1;
        }
        assert forall|k: Seq<char>| #[trigger] self@.contains_key(k) implies !(self@[k].template_id@
            == template_id@ && is_active(self@[k].status)) by {
            let i = choose|i: int| 0 <= i < self.tasks@.len() && self.tasks@[i].job_id@ == k;
            assert(self.index@[self.tasks@[i].job_id@] == self.tasks@[i]);
        }
        false
    }

    /// Whether the task with this job id is still preparing or running.
    pub fn has_active_advanced_report_job(&self, job_id: &str) -> (b: bool)
        requires
            self.wf(),
        ensures
            b == (self@.contains_key(job_id@) && is_active(self@[job_id@].status)),
    {
        match self.position(job_id) {
            None => false,
            Some(j) => {
                assert(self.index@[self.tasks@[j as int].job_id@] == self.tasks@[j as int]);
                status_is_active(self.tasks[j].status)
            },
        }
    }

    /// The tasks, newest first, each once.
    pub fn advanced_report_tasks(&self) -> (r: Vec<AdvancedReportTask>)
        requires
            self.wf(),
        ensures
            lists_exactly(r@, self@),
            newest_first(r@),
    {
        let ghost src = self.tasks@;
        let ghost mut pos: Seq<int> = Seq::empty();
        let ghost mut at: Seq<int> = Seq::empty();
        let n = self.tasks.len();
        let mut out: Vec<AdvancedReportTask> = Vec::new();
        for i in 0..n
            invariant
                n == src.len(),
                src == self.tasks@,
                lists_exactly(src, self.index@),
                newest_first(out@),
                tracks(out@, src, i as int, pos, at),
        {
            let t = clone_task(&self.tasks[i]);
            let ghost before = out@;
            let p = insert_newest_first(&mut out, t);
            proof {
                lemma_tracks_insert(src, before, out@, pos, at, i as int, p as int);
                pos = pos.insert(p as int, i as int);
                at = shifted(at, p as int).push(p as int);
            }
        }
        proof {
            let s = out@;
            let m = self.index@;
            assert forall|j: int| 0 <= j < s.len() implies m.contains_key(#[trigger] s[j].job_id@)
                && m[s[j].job_id@] == s[j] by {
                assert(s[j] == src[pos[j]]);
                assert(m.contains_key(src[pos[j]].job_id@));
            }
            assert forall|k: Seq<char>| #[trigger] m.contains_key(k) implies exists|j: int|
                0 <= j < s.len() && s[j].job_id@ == k by {
                let o = choose|o: int| 0 <= o < src.len() && src[o].job_id@ == k;
                assert(s[at[o]].job_id@ == src[o].job_id@);
            }
        }
        out
    }
}

// ---------------------------------------------------------------------
// Merging saved and running tasks
// ---------------------------------------------------------------------

/// The tasks after storing each of `s` in turn: a later task with the same
/// job id replaces an earlier one.
pub open spec fn stored_all(m: Map<Seq<char>, AdvancedReportTask>, s: Seq<AdvancedReportTask>) -> Map<
    Seq<char>,
    AdvancedReportTask,
>
    decreases s.len(),
{
    if s.len() == 0 {
        m
    } else {
        stored(stored_all(m, s.drop_last()), s.last())
    }
}

/// The task list of the window: the tasks saved on disk and those of this
/// session, one per job id with the session's own version winning, newest
/// first. The caller settles the session's tasks against their report
/// files first (`settle_runtime_tasks`).
pub fn merge_advanced_report_tasks(
    persisted: Vec<AdvancedReportTask>,
    runtime_tasks: Vec<AdvancedReportTask>,
) -> (r: Vec<AdvancedReportTask>)
    ensures
        lists_exactly(
            r@,
            stored_all(Map::<Seq<char>, AdvancedReportTask>::empty(), persisted@ + runtime_tasks@),
        ),
        newest_first(r@),
{
    let ghost p0 = persisted@;
    let ghost r0 = runtime_tasks@;
    let ghost e = Map::<Seq<char>, AdvancedReportTask>::empty();
    let mut reg = TaskRegistry::new();
    for t in it: persisted.into_iter()
        invariant
            it.seq() == p0,
            reg.wf(),
            reg@ == stored_all(e, p0.take(it.index() as int)),
    {
        let ghost idx = it.index();
        assert(p0.take(idx + 1).drop_last() == p0.take(idx as int));
        reg.upsert_advanced_report_task(t);
    }
    assert(p0.take(p0.len() as int) == p0);
    for t in it: runtime_tasks.into_iter()
        invariant
            it.seq() == r0,
            reg.wf(),
            reg@ == stored_all(e, p0 + r0.take(it.index() as int)),
    {
        let ghost idx = it.index();
        assert((p0 + r0.take(idx + 1)).drop_last() == p0 + r0.take(idx as int));
        assert((p0 + r0.take(idx + 1)).last() == r0[idx as int]);
        reg.upsert_advanced_report_task(t);
    }
    assert(r0.take(r0.len() as int) == r0);
    reg.advanced_report_tasks()
}

/// The session's tasks settled against their report files:
/// `report_exists[i]` tells whether the report of `tasks[i]` is on disk.
pub fn settle_runtime_tasks(tasks: Vec<AdvancedReportTask>, report_exists: Vec<bool>) -> (r: Vec<
    AdvancedReportTask,
>)
    requires
        report_exists@.len() == tasks@.len(),
    ensures
        r@.len() == tasks@.len(),
        forall|i: int| 0 <= i < tasks@.len() ==> settled(tasks@[i], report_exists@[i], #[trigger] r@[i]),
{
    let ghost t0 = tasks@;
    let mut r: Vec<AdvancedReportTask> = Vec::new();
    for t in it: tasks.into_iter()
        invariant
            it.seq() == t0,
            report_exists@.len() == t0.len(),
            r@.len() == it.index(),
            forall|i: int| 0 <= i < r@.len() ==> settled(t0[i], report_exists@[i], #[trigger] r@[i]),
    {
        let k = r.len();
        let n = normalize_task_with_report_file(t, report_exists[k]);
        r.push(n);
    }
    r
}

/// Of the tasks stored in turn, the last one with a job id is kept.
pub proof fn lemma_last_stored_wins(m: Map<Seq<char>, AdvancedReportTask>, s: Seq<AdvancedReportTask>, j: int)
    requires
        0 <= j < s.len(),
        forall|k: int| j < k < s.len() ==> #[trigger] s[k].job_id@ != s[j].job_id@,
    ensures
        stored_all(m, s).contains_key(s[j].job_id@),
        stored_all(m, s)[s[j].job_id@] == s[j],
    decreases s.len(),
{
    if j < s.len() - 1 {
        lemma_last_stored_wins(m, s.drop_last(), j);
        assert(s[s.len() - 1].job_id@ != s[j].job_id@);
    }
}

/// The job ids stored are those of the map and of the tasks.
pub proof fn lemma_stored_keys(m: Map<Seq<char>, AdvancedReportTask>, s: Seq<AdvancedReportTask>, k: Seq<char>)
    ensures
        stored_all(m, s).contains_key(k) <==> (m.contains_key(k) || exists|j: int|
            0 <= j < s.len() && #[trigger] s[j].job_id@ == k),
    decreases s.len(),
{
    if s.len() > 0 {
        lemma_stored_keys(m, s.drop_last(), k);
        if exists|j: int| 0 <= j < s.len() && #[trigger] s[j].job_id@ == k {
            let j = choose|j: int| 0 <= j < s.len() && #[trigger] s[j].job_id@ == k;
            if j < s.len() - 1 {
                assert(s.drop_last()[j].job_id@ == k);
            }
        }
        if exists|j: int| 0 <= j < s.drop_last().len() && #[trigger] s.drop_last()[j].job_id@ == k {
            let j = choose|j: int|
                0 <= j < s.drop_last().len() && #[trigger] s.drop_last()[j].job_id@ == k;
            assert(s[j].job_id@ == k);
        }
    }
}

/// A task of this session replaces a saved task with the same job id in
/// the merged list (unless a later task of the session has that id too).
pub proof fn law_running_task_wins(
    persisted: Seq<AdvancedReportTask>,
    runtime_tasks: Seq<AdvancedReportTask>,
    j: int,
)
    requires
        0 <= j < runtime_tasks.len(),
        forall|k: int| j < k < runtime_tasks.len() ==> #[trigger] runtime_tasks[k].job_id@ != runtime_tasks[j].job_id@,
    ensures
        ({
            let merged = stored_all(Map::empty(), persisted + runtime_tasks);
            merged.contains_key(runtime_tasks[j].job_id@) && merged[runtime_tasks[j].job_id@]
                == runtime_tasks[j]
        }),
{
    let all = persisted + runtime_tasks;
    let i = persisted.len() + j;
    assert(all[i] == runtime_tasks[j]);
    assert forall|k: int| i < k < all.len() implies #[trigger] all[k].job_id@ != all[i].job_id@ by {
        assert(all[k] == runtime_tasks[k - persisted.len()]);
    }
    lemma_last_stored_wins(Map::empty(), all, i);
}

/// A saved task whose job id no task of this session has stays in the
/// merged list as saved (unless a later saved task has that id too).
pub proof fn law_saved_task_kept(
    persisted: Seq<AdvancedReportTask>,
    runtime_tasks: Seq<AdvancedReportTask>,
    j: int,
)
    requires
        0 <= j < persisted.len(),
        forall|k: int| j < k < persisted.len() ==> #[trigger] persisted[k].job_id@ != persisted[j].job_id@,
        forall|k: int| 0 <= k < runtime_tasks.len() ==> #[trigger] runtime_tasks[k].job_id@ != persisted[j].job_id@,
    ensures
        ({
            let merged = stored_all(Map::empty(), persisted + runtime_tasks);
            merged.contains_key(persisted[j].job_id@) && merged[persisted[j].job_id@] == persisted[j]
        }),
{
    let all = persisted + runtime_tasks;
    assert(all[j] == persisted[j]);
    assert forall|k: int| j < k < all.len() implies #[trigger] all[k].job_id@ != all[j].job_id@ by {
        if k < persisted.len() {
            assert(all[k] == persisted[k]);
        } else {
            assert(all[k] == runtime_tasks[k - persisted.len()]);
        }
    }
    lemma_last_stored_wins(Map::empty(), all, j);
}

/// The merged list has a task for exactly the job ids saved or running.
pub proof fn law_merge_keeps_every_job(
    persisted: Seq<AdvancedReportTask>,
    runtime_tasks: Seq<AdvancedReportTask>,
    k: Seq<char>,
)
    ensures
        stored_all(Map::empty(), persisted + runtime_tasks).contains_key(k) <==> (exists|j: int|
            0 <= j < persisted.len() && #[trigger] persisted[j].job_id@ == k) || (exists|j: int|
            0 <= j < runtime_tasks.len() && #[trigger] runtime_tasks[j].job_id@ == k),
{
    let all = persisted + runtime_tasks;
    lemma_stored_keys(Map::empty(), all, k);
    if exists|j: int| 0 <= j < all.len() && #[trigger] all[j].job_id@ == k {
        let j = choose|j: int| 0 <= j < all.len() && #[trigger] all[j].job_id@ == k;
        if j < persisted.len() {
            assert(persisted[j].job_id@ == k);
        } else {
            assert(runtime_tasks[j - persisted.len()].job_id@ == k);
        }
    }
    if exists|j: int| 0 <= j < persisted.len() && #[trigger] persisted[j].job_id@ == k {
        let j = choose|j: int| 0 <= j < persisted.len() && #[trigger] persisted[j].job_id@ == k;
        assert(all[j].job_id@ == k);
    }
    if exists|j: int| 0 <= j < runtime_tasks.len() && #[trigger] runtime_tasks[j].job_id@ == k {
        let j = choose|j: int| 0 <= j < runtime_tasks.len() && #[trigger] runtime_tasks[j].job_id@ == k;
        assert(all[persisted.len() + j].job_id@ == k);
    }
}

/// After a restart no task is shown as preparing or running: a task that
/// was under way when the application stopped was cut off.
pub proof fn law_restored_task_is_settled(saved: AdvancedReportTaskStatus, report_exists: bool)
    ensures
        !is_active(restored_status(saved, report_exists)),
        report_exists ==> restored_status(saved, report_exists) == AdvancedReportTaskStatus::Completed,
{
}

/// Storing a task and looking its job id up gives that task back, and
/// removing a job id forgets it; other job ids are untouched by both.
pub proof fn law_store_then_lookup(
    m: Map<Seq<char>, AdvancedReportTask>,
    t: AdvancedReportTask,
    other: Seq<char>,
)
    requires
        other != t.job_id@,
    ensures
        stored(m, t).contains_key(t.job_id@),
        stored(m, t)[t.job_id@] == t,
        !m.remove(t.job_id@).contains_key(t.job_id@),
        stored(m, t).contains_key(other) == m.contains_key(other),
        m.contains_key(other) ==> stored(m, t)[other] == m[other],
        m.remove(t.job_id@).contains_key(other) == m.contains_key(other),
{
}

} // verus!
