//! Preparing a report job: checking the request, naming the job and the
//! prompts handed to the local agent.
use crate::period::{canonical_period, normalize_report_period, period_request};
use crate::tasks::{
    is_active, opt_view, AdvancedReportJob, AdvancedReportTask, AdvancedReportTaskStatus,
    GenerationSettings, TaskRegistry,
};
use crate::templates::{
    builtin_template_view, find_template, is_shape_for, is_template_for, known_shape,
    default_capabilities_view, known_template, lists_shape, lists_template, opt_str_view,
    optional_capabilities_view, output_shape_view, requested_shape_id, resolve_output_shape,
    AdvancedReportTemplate, SHAPE_COUNT,
    BuiltinAdvancedTemplate, BuiltinOutputShape, TemplateView, TEMPLATE_COUNT,
};
use crate::text::{
    chars_of, contains_seq, has_text, int_decimal, is_blank, join_lines, join_lines_of, nat_decimal,
    owned, push_char, push_i64, push_str, push_u64, string_of, texts, trim, trim_chars,
};
use crate::agents::AgentEvent;
use crate::validation::AdvancedReportValidation;
use vstd::prelude::*;

verus! {

// ---------------------------------------------------------------------
// Job ids
// ---------------------------------------------------------------------

pub const JOB_ID_EMPTY: &'static str = "jobId 不能为空";

pub const JOB_ID_INVALID: &'static str = "jobId 不合法";

/// A job id as given is trimmed; it must not be blank nor reach outside
/// its directory (`/`, `\` or `..`).
pub open spec fn job_id_check(raw: Seq<char>) -> Result<Seq<char>, Seq<char>> {
    let t = trim(raw);
    if t.len() == 0 {
        Err(JOB_ID_EMPTY@)
    } else if contains_seq(t, "/"@) || contains_seq(t, "\\"@) || contains_seq(t, ".."@) {
        Err(JOB_ID_INVALID@)
    } else {
        Ok(t)
    }
}

pub open spec fn result_view(r: Result<String, String>) -> Result<Seq<char>, Seq<char>> {
    match r {
        Ok(s) => Ok(s@),
        Err(e) => Err(e@),
    }
}

/// Checks a job id before it is used as a directory name.
pub fn normalize_job_id(job_id: &str) -> (r: Result<String, String>)
    ensures
        result_view(r) == job_id_check(job_id@),
{
    let t = trim_chars(&chars_of(job_id));
    if t.len() == 0 {
        return Err(owned(JOB_ID_EMPTY));
    }
    let a = has_text(&t, "/");
    let b = has_text(&t, "\\");
    let c = has_text(&t, "..");
    if a || b || c {
        return Err(owned(JOB_ID_INVALID));
    }
    Ok(string_of(&t))
}

/// The trimmed text, when there is one that is not blank.
pub open spec fn nonblank_trimmed(o: Option<Seq<char>>) -> Option<Seq<char>> {
    match o {
        Some(s) => if trim(s).len() > 0 {
            Some(trim(s))
        } else {
            None
        },
        None => None,
    }
}

/// The job id an agent call is registered under, if it names one.
pub fn normalized_job_id(job_id: &Option<String>) -> (r: Option<String>)
    ensures
        opt_view(r) == nonblank_trimmed(opt_view(*job_id)),
{
    match job_id {
        Some(id) => {
            let t = trim_chars(&chars_of(id.as_str()));
            if t.len() > 0 {
                Some(string_of(&t))
            } else {
                None
            }
        },
        None => None,
    }
}

/// The id of a new job: the template id, a hyphen and the time in
/// milliseconds (a time before 1970 counting as zero).
pub open spec fn job_id_text(template_id: Seq<char>, millis: i64) -> Seq<char> {
    template_id + seq!['-'] + int_decimal(
        if millis < 0 {
            0
        } else {
            millis as int
        },
    )
}

/// A character a template id is made of: an ASCII letter, digit or `-`.
pub open spec fn id_char(c: char) -> bool {
    ('a' <= c && c <= 'z') || ('A' <= c && c <= 'Z') || ('0' <= c && c <= '9') || c == '-'
}

proof fn lemma_decimal_digits(n: nat)
    ensures
        nat_decimal(n).len() > 0,
        forall|k: int| 0 <= k < nat_decimal(n).len() ==> '0' <= #[trigger] nat_decimal(n)[k] <= '9',
    decreases n,
{
    if n >= 10 {
        lemma_decimal_digits(n / 10);
    }
}

/// The id of a job the app creates is accepted, unchanged, where a job id
/// is read back (to find its folder, logs, output or task): for any
/// template id of letters, digits and dashes, and any time.
pub proof fn law_new_job_id_is_accepted(template_id: Seq<char>, millis: i64)
    requires
        template_id.len() > 0,
        forall|k: int| 0 <= k < template_id.len() ==> id_char(#[trigger] template_id[k]),
    ensures
        job_id_check(job_id_text(template_id, millis)) == Ok::<Seq<char>, Seq<char>>(
            job_id_text(template_id, millis),
        ),
{
    let n: nat = if millis < 0 {
        0
    } else {
        millis as nat
    };
    lemma_decimal_digits(n);
    let d = nat_decimal(n);
    let t = job_id_text(template_id, millis);
    assert(int_decimal(if millis < 0 {
        0
    } else {
        millis as int
    }) == d);
    assert(t =~= template_id + seq!['-'] + d);
    assert forall|k: int| 0 <= k < t.len() implies id_char(#[trigger] t[k]) by {
        if k < template_id.len() {
            assert(t[k] == template_id[k]);
        } else if k > template_id.len() {
            assert(t[k] == d[k - template_id.len() - 1]);
        }
    }
    assert(!crate::text::is_ws(t[0]));
    assert(crate::text::skip_ws(t, 0) == 0);
    assert(!crate::text::is_ws(t[t.len() - 1]));
    assert(crate::text::back_ws(t, 0, t.len() as int) == t.len());
    assert(trim(t) =~= t);
    reveal(contains_seq);
    reveal_strlit("/");
    reveal_strlit("\\");
    reveal_strlit("..");
    assert(!contains_seq(t, "/"@)) by {
        if exists|i: int| crate::text::occurs_at(t, "/"@, i) {
            let i = choose|i: int| crate::text::occurs_at(t, "/"@, i);
            assert(t.subrange(i, i + 1)[0] == t[i]);
            assert(id_char(t[i]));
        }
    }
    assert(!contains_seq(t, "\\"@)) by {
        if exists|i: int| crate::text::occurs_at(t, "\\"@, i) {
            let i = choose|i: int| crate::text::occurs_at(t, "\\"@, i);
            assert(t.subrange(i, i + 1)[0] == t[i]);
            assert(id_char(t[i]));
        }
    }
    assert(!contains_seq(t, ".."@)) by {
        if exists|i: int| crate::text::occurs_at(t, ".."@, i) {
            let i = choose|i: int| crate::text::occurs_at(t, ".."@, i);
            assert(t.subrange(i, i + 2)[0] == t[i]);
            assert(id_char(t[i]));
        }
    }
}

/// Names a new job.
pub fn job_id_for(template_id: &str, millis: i64) -> (r: String)
    ensures
        r@ == job_id_text(template_id@, millis),
{
    let mut r = owned(template_id);
    push_char(&mut r, '-');
    push_i64(
        &mut r,
        if millis < 0 {
            0
        } else {
            millis
        },
    );
    r
}

// ---------------------------------------------------------------------
// The user's own requirements
// ---------------------------------------------------------------------

/// Line breaks written as `\r\n` or `\r` become `\n`.
pub open spec fn unify_newlines(s: Seq<char>) -> Seq<char>
    decreases s.len(),
{
    if s.len() == 0 {
        s
    } else if s[0] == '\r' && s.len() > 1 && s[1] == '\n' {
        seq!['\n'] + unify_newlines(s.skip(2))
    } else if s[0] == '\r' {
        seq!['\n'] + unify_newlines(s.skip(1))
    } else {
        seq![s[0]] + unify_newlines(s.skip(1))
    }
}

/// The user's requirements as stored: trimmed, with unified line breaks;
/// empty when there are none.
pub open spec fn prompt_text(o: Option<Seq<char>>) -> Seq<char> {
    match o {
        Some(s) => unify_newlines(trim(s)),
        None => Seq::empty(),
    }
}

/// Normalizes the requirements a user typed for a report.
pub fn normalize_user_prompt(user_prompt: Option<&str>) -> (r: String)
    ensures
        r@ == prompt_text(opt_str_view(user_prompt)),
{
    let v = match user_prompt {
        Some(p) => trim_chars(&chars_of(p)),
        None => Vec::new(),
    };
    let ghost s = v@;
    let n = v.len();
    let mut out = String::new();
    let mut i: usize = 0;
    assert(s.skip(0) == s);
    while i < n
        invariant
            n == s.len(),
            v@ == s,
            i <= n,
            unify_newlines(s) == out@ + unify_newlines(s.skip(i as int)),
        decreases n - i,
    {
        let ghost rest = s.skip(i as int);
        assert(rest[0] == s[i as int]);
        if v[i] == '\r' && i + 1 < n && v[i + 1] == '\n' {
            assert(rest[1] == s[i + 1]);
            assert(rest.skip(2) == s.skip(i + 2));
            push_char(&mut out, '\n');
            i = i + 2;
        } else if v[i] == '\r' {
            assert(rest.skip(1) == s.skip(i + 1));
            push_char(&mut out, '\n');
            i = i + 1;
        } else {
            assert(rest.skip(1) == s.skip(i + 1));
            push_char(&mut out, v[i]);
            i = i + 1;
        }
    }
    assert(s.skip(n as int).len() == 0);
    out
}

// ---------------------------------------------------------------------
// Checking a job request
// ---------------------------------------------------------------------

/// What a report job is asked to produce.
#[derive(Clone, Debug)]
pub struct AdvancedReportJobRequest {
    pub template_id: String,
    pub raw_notes_consent: bool,
    pub force_refresh: Option<bool>,
    pub output_shape: Option<String>,
    pub user_prompt: Option<String>,
    pub report_period: Option<String>,
}

/// A job request together with the local agent that is to run it.
#[derive(Clone, Debug)]
pub struct StartAdvancedReportRequest {
    pub template_id: String,
    pub raw_notes_consent: bool,
    pub force_refresh: Option<bool>,
    pub output_shape: Option<String>,
    pub user_prompt: Option<String>,
    pub report_period: Option<String>,
    pub agent: String,
    pub model: Option<String>,
    pub bin_override: Option<String>,
}

/// A job request once checked: what the job will be prepared with.
pub struct JobPlan {
    pub template: BuiltinAdvancedTemplate,
    pub output_shape: BuiltinOutputShape,
    pub user_prompt: String,
    pub report_period: &'static str,
    pub force_refresh: bool,
}

pub const CONSENT_REQUIRED: &'static str = "该智能体模板需要读取原文摘录，请先确认隐私授权。";

/// The built-in template with this id.
pub open spec fn template_view_for(id: Seq<char>) -> TemplateView {
    builtin_template_view(
        choose|i: int| 0 <= i < TEMPLATE_COUNT && #[trigger] builtin_template_view(i).id == id,
    )
}

/// Every built-in template is found again by its id, and the output shape
/// and period it defaults to are accepted.
pub proof fn law_builtin_templates_are_usable(i: int)
    requires
        0 <= i < TEMPLATE_COUNT,
    ensures
        known_template(builtin_template_view(i).id),
        template_view_for(builtin_template_view(i).id) == builtin_template_view(i),
        known_shape(builtin_template_view(i).default_output_shape),
        canonical_period(builtin_template_view(i).default_report_period) == Some(
            builtin_template_view(i).default_report_period,
        ),
{
    lemma_template_ids_distinct();
    let t = builtin_template_view(i);
    assert(builtin_template_view(i).id == t.id);
    let j = choose|j: int| 0 <= j < TEMPLATE_COUNT && #[trigger] builtin_template_view(j).id == t.id;
    assert(j == i);
    reveal_strlit("report");
    reveal_strlit("slides");
    reveal_strlit("xiaohongshu");
    reveal_strlit("all");
    reveal_strlit("last_year");
    reveal_strlit("month");
    reveal_strlit("current_month");
    reveal_strlit("year");
    reveal_strlit("current_year");
    reveal_strlit("last_month");
    if t.default_output_shape == "report"@ {
        assert(output_shape_view(0).id == t.default_output_shape);
    } else if t.default_output_shape == "slides"@ {
        assert(output_shape_view(1).id == t.default_output_shape);
    } else {
        assert(output_shape_view(2).id == t.default_output_shape);
    }
}

/// Every built-in template reads the profile, the bookshelf, the notebooks
/// and the reading statistics by default, and may read books' details,
/// highlights and thoughts besides.
pub proof fn law_builtin_template_capabilities(i: int)
    requires
        0 <= i < TEMPLATE_COUNT,
    ensures
        builtin_template_view(i).default_capabilities == default_capabilities_view(),
        builtin_template_view(i).default_capabilities.contains("shelf.sync"@),
        builtin_template_view(i).default_capabilities.contains("notes.notebooks"@),
        builtin_template_view(i).default_capabilities.contains("reading.stats"@),
        builtin_template_view(i).optional_capabilities == optional_capabilities_view(),
        builtin_template_view(i).optional_capabilities.contains("notes.bookmarks"@),
        builtin_template_view(i).optional_capabilities.contains("notes.reviews"@),
{
    let d = default_capabilities_view();
    let o = optional_capabilities_view();
    assert(d[1] == "shelf.sync"@);
    assert(d[2] == "notes.notebooks"@);
    assert(d[3] == "reading.stats"@);
    assert(o[2] == "notes.bookmarks"@);
    assert(o[3] == "notes.reviews"@);
}

/// The template list the picker shows agrees with the built-in templates
/// one by one: the ids are distinct, every template offers the four output
/// shapes in order, defaults to one of them, and covers the whole history
/// or the last year.
pub proof fn law_template_list_is_builtin(r: Seq<AdvancedReportTemplate>)
    requires
        r.len() == TEMPLATE_COUNT,
        forall|i: int| 0 <= i < TEMPLATE_COUNT ==> lists_template(#[trigger] r[i], i),
    ensures
        forall|i: int, j: int|
            0 <= i < r.len() && 0 <= j < r.len() && i != j ==> (#[trigger] r[i]).id@ != (#[trigger] r[j]).id@,
        forall|i: int, j: int|
            0 <= i < r.len() && 0 <= j < SHAPE_COUNT ==> (#[trigger] r[i].output_shapes@[j]).id@
                == seq!["report"@, "slides"@, "xiaohongshu"@, "free"@][j],
        forall|i: int| 0 <= i < r.len() ==> known_shape(#[trigger] r[i].default_output_shape@),
        forall|i: int|
            0 <= i < r.len() ==> (#[trigger] r[i]).default_report_period@ == "all"@
                || r[i].default_report_period@ == "last_year"@,
{
    lemma_template_ids_distinct();
    assert forall|i: int, j: int| 0 <= i < r.len() && 0 <= j < SHAPE_COUNT implies (
    #[trigger] r[i].output_shapes@[j]).id@ == seq!["report"@, "slides"@, "xiaohongshu"@, "free"@][j] by {
        assert(lists_template(r[i], i));
        assert(lists_shape(r[i].output_shapes@[j], j));
    }
    assert forall|i: int| 0 <= i < r.len() implies known_shape(#[trigger] r[i].default_output_shape@) by {
        assert(lists_template(r[i], i));
        law_builtin_templates_are_usable(i);
    }
    assert forall|i: int| 0 <= i < r.len() implies (#[trigger] r[i]).default_report_period@ == "all"@
        || r[i].default_report_period@ == "last_year"@ by {
        assert(lists_template(r[i], i));
    }
    assert forall|i: int, j: int| 0 <= i < r.len() && 0 <= j < r.len() && i != j implies (
    #[trigger] r[i]).id@ != (#[trigger] r[j]).id@ by {
        assert(lists_template(r[i], i));
        assert(lists_template(r[j], j));
    }
}

/// No two built-in templates share an id.
pub proof fn lemma_template_ids_distinct()
    ensures
        forall|i: int, j: int|
            0 <= i < TEMPLATE_COUNT && 0 <= j < TEMPLATE_COUNT && i != j
                ==> #[trigger] builtin_template_view(i).id != #[trigger] builtin_template_view(j).id,
{
    reveal_strlit("reading-personality");
    reveal_strlit("knowledge-map");
    reveal_strlit("growth-path");
    reveal_strlit("annual-keywords");
    reveal_strlit("top-books");
    reveal_strlit("reading-radar");
    reveal_strlit("spirit-bookshelf");
    assert("reading-personality"@[1] != "knowledge-map"@[1]);
    assert("reading-personality"@[0] != "growth-path"@[0]);
    assert("reading-personality"@[0] != "annual-keywords"@[0]);
    assert("reading-personality"@[0] != "top-books"@[0]);
    assert("reading-personality"@.len() != "reading-radar"@.len());
    assert("reading-personality"@[0] != "spirit-bookshelf"@[0]);
    assert("knowledge-map"@[0] != "growth-path"@[0]);
    assert("knowledge-map"@[0] != "annual-keywords"@[0]);
    assert("knowledge-map"@[0] != "top-books"@[0]);
    assert("knowledge-map"@[0] != "reading-radar"@[0]);
    assert("knowledge-map"@[0] != "spirit-bookshelf"@[0]);
    assert("growth-path"@[0] != "annual-keywords"@[0]);
    assert("growth-path"@[0] != "top-books"@[0]);
    assert("growth-path"@[0] != "reading-radar"@[0]);
    assert("growth-path"@[0] != "spirit-bookshelf"@[0]);
    assert("annual-keywords"@[0] != "top-books"@[0]);
    assert("annual-keywords"@[0] != "reading-radar"@[0]);
    assert("annual-keywords"@[0] != "spirit-bookshelf"@[0]);
    assert("top-books"@[0] != "reading-radar"@[0]);
    assert("top-books"@[0] != "spirit-bookshelf"@[0]);
    assert("reading-radar"@[0] != "spirit-bookshelf"@[0]);
}

/// The template found for an id is the one `template_view_for` names.
pub proof fn lemma_template_for(t: TemplateView, id: Seq<char>)
    requires
        is_template_for(t, id),
    ensures
        known_template(id),
        t == template_view_for(id),
{
    lemma_template_ids_distinct();
    let i = choose|i: int| 0 <= i < TEMPLATE_COUNT && #[trigger] builtin_template_view(i) == t && t.id == id;
    assert(builtin_template_view(i).id == id);
    let j = choose|j: int| 0 <= j < TEMPLATE_COUNT && #[trigger] builtin_template_view(j).id == id;
    assert(i == j);
}

/// Why a job request is refused, checked in this order: an unknown
/// template, an unknown output shape, an unknown period, and missing
/// consent to read the notes' original text where the template needs it.
pub open spec fn plan_refusal(
    template_id: Seq<char>,
    shape: Option<Seq<char>>,
    period: Option<Seq<char>>,
    consent: bool,
) -> Option<Seq<char>> {
    if !known_template(template_id) {
        Some("未知智能体模板: "@ + template_id)
    } else {
        let t = template_view_for(template_id);
        let sid = requested_shape_id(shape, t.default_output_shape);
        if !known_shape(sid) {
            Some("未知报告形态: "@ + sid)
        } else if canonical_period(period_request(period)) is None {
            Some("未知报告数据范围: "@ + period_request(period))
        } else if t.requires_raw_notes_consent && !consent {
            Some(CONSENT_REQUIRED@)
        } else {
            None
        }
    }
}

fn as_str_opt(o: &Option<String>) -> (r: Option<&str>)
    ensures
        opt_str_view(r) == opt_view(*o),
{
    match o {
        Some(s) => Some(s.as_str()),
        None => None,
    }
}

/// Checks a job request and settles what the job is prepared with.
pub fn plan_advanced_report_job(request: &AdvancedReportJobRequest) -> (r: Result<JobPlan, String>)
    ensures
        match plan_refusal(
            request.template_id@,
            opt_view(request.output_shape),
            opt_view(request.report_period),
            request.raw_notes_consent,
        ) {
            Some(e) => r matches Err(x) && x@ == e,
            None => r matches Ok(p) && p.template.view() == template_view_for(request.template_id@)
                && is_shape_for(
                p.output_shape.view(),
                requested_shape_id(opt_view(request.output_shape), p.template.default_output_shape@),
            ) && p.user_prompt@ == prompt_text(opt_view(request.user_prompt)) && Some(
                p.report_period@,
            ) == canonical_period(period_request(opt_view(request.report_period)))
                && p.force_refresh == (request.force_refresh == Some(true)),
        },
{
    let template = match find_template(request.template_id.as_str()) {
        Ok(t) => t,
        Err(e) => return Err(e),
    };
    proof {
        lemma_template_for(template.view(), request.template_id@);
    }
    let output_shape = match resolve_output_shape(as_str_opt(&request.output_shape), &template) {
        Ok(s) => s,
        Err(e) => return Err(e),
    };
    let user_prompt = normalize_user_prompt(as_str_opt(&request.user_prompt));
    let report_period = match normalize_report_period(as_str_opt(&request.report_period)) {
        Ok(p) => p,
        Err(e) => return Err(e),
    };
    if template.requires_raw_notes_consent && !request.raw_notes_consent {
        return Err(owned(CONSENT_REQUIRED));
    }
    let force_refresh = match request.force_refresh {
        Some(b) => b,
        None => false,
    };
    Ok(JobPlan { template, output_shape, user_prompt, report_period, force_refresh })
}

// ---------------------------------------------------------------------
// Starting a task
// ---------------------------------------------------------------------

pub const AGENT_REQUIRED: &'static str = "请选择本地 Agent";

pub const TEMPLATE_BUSY: &'static str = "这个模板已经在生成中，请等待完成后再重新生成。";

pub const TASK_RUNNING_MESSAGE: &'static str = "正在生成报告";

/// A task may start unless no agent is chosen or a task of the same
/// template is still under way.
pub fn check_task_start(registry: &TaskRegistry, request: &StartAdvancedReportRequest) -> (r: Result<
    (),
    String,
>)
    requires
        registry.wf(),
    ensures
        trim(request.agent@).len() == 0 ==> (r matches Err(e) && e@ == AGENT_REQUIRED@),
        trim(request.agent@).len() > 0 ==> (r is Ok <==> !(exists|k: Seq<char>|
            #[trigger] registry@.contains_key(k) && registry@[k].template_id@
                == request.template_id@ && is_active(registry@[k].status))),
        trim(request.agent@).len() > 0 ==> (r matches Err(e) ==> e@ == TEMPLATE_BUSY@),
{
    if is_blank(request.agent.as_str()) {
        return Err(owned(AGENT_REQUIRED));
    }
    if registry.has_active_advanced_report_template(request.template_id.as_str()) {
        return Err(owned(TEMPLATE_BUSY));
    }
    Ok(())
}

pub const JOB_STILL_RUNNING: &'static str = "任务正在生成中，请先取消后再删除。";

/// A job may be deleted unless its task is still under way.
pub fn check_job_deletable(registry: &TaskRegistry, job_id: &str) -> (r: Result<(), String>)
    requires
        registry.wf(),
    ensures
        r is Err <==> (registry@.contains_key(job_id@) && is_active(registry@[job_id@].status)),
        r matches Err(e) ==> e@ == JOB_STILL_RUNNING@,
{
    if registry.has_active_advanced_report_job(job_id) {
        return Err(owned(JOB_STILL_RUNNING));
    }
    Ok(())
}

/// The task shown while a freshly prepared job runs.
pub fn running_task(
    job: &AdvancedReportJob,
    agent: &str,
    model: Option<String>,
    settings: GenerationSettings,
    report_path: String,
    now: String,
) -> (t: AdvancedReportTask)
    ensures
        t.job_id == job.job_id,
        t.template_id == job.template_id,
        t.template_name == job.template_name,
        t.status == AdvancedReportTaskStatus::Running,
        opt_view(t.message) == Some(TASK_RUNNING_MESSAGE@),
        t.output_shape == settings.output_shape,
        t.output_shape_name == settings.output_shape_name,
        t.report_period == settings.report_period,
        t.report_period_label == settings.report_period_label,
        opt_view(t.agent) == Some(agent@),
        t.model == model,
        t.job_dir == job.job_dir,
        t.report_path == report_path,
        t.created_at == job.created_at,
        t.updated_at == now,
{
    AdvancedReportTask {
        job_id: job.job_id.clone(),
        template_id: job.template_id.clone(),
        template_name: job.template_name.clone(),
        status: AdvancedReportTaskStatus::Running,
        message: Some(owned(TASK_RUNNING_MESSAGE)),
        output_shape: settings.output_shape,
        output_shape_name: settings.output_shape_name,
        report_period: settings.report_period,
        report_period_label: settings.report_period_label,
        agent: Some(owned(agent)),
        model,
        job_dir: job.job_dir.clone(),
        report_path,
        created_at: job.created_at.clone(),
        updated_at: now,
    }
}

// ---------------------------------------------------------------------
// Prompts for the local agent
// ---------------------------------------------------------------------

fn line(prefix: &str, value: &str) -> (r: String)
    ensures
        r@ == prefix@ + value@,
{
    let mut r = owned(prefix);
    push_str(&mut r, value);
    r
}

pub const RUN_INTRO: &'static str = "请在当前工作目录执行高级微信读书报告任务。";

pub const RUN_READ_FIRST: &'static str = "请先读取 input/agent-prompt.md，然后读取 input/brief.md；brief.md 是唯一任务入口。";

pub const RUN_OUTPUTS: &'static str = "必须生成 output/report.html、output/report.meta.json。";

pub const RUN_SELF_CONTAINED: &'static str = "HTML 必须是完整单文件，不依赖远程脚本、远程字体、远程图片或任何 file:// 本地资源。";

pub const RUN_NO_LOCAL_PATHS: &'static str = "不要在 HTML 中写入本地绝对路径，不要用 iframe/fetch/XHR/window.open/location 读取或跳转本地文件。";

pub const RUN_WRITE_FILES: &'static str = "不要只在对话里输出报告内容；最终结果必须写入 output/ 文件。";

pub const FIX_INTRO: &'static str = "请在当前工作目录修正高级微信读书报告。";

pub const FIX_READ_FIRST: &'static str = "请先读取 input/quality-fix.md，然后读取当前 output/report.html。";

pub const FIX_SCOPE: &'static str = "你只需要根据质量提醒修正 output/report.html 和必要的 output/report.meta.json。";

pub const FIX_WRITE_FILES: &'static str = "不要只在对话里输出修正说明；最终结果必须写回 output/ 文件。";

pub const LOCAL_TIME_LINE: &'static str = "当前电脑时间: ";

pub const WORK_DIR_LINE: &'static str = "工作目录: ";

pub const PROMPT_FILE_LINE: &'static str = "任务提示词文件: ";

pub const FIX_PROMPT_FILE_LINE: &'static str = "质量修正提示词文件: ";

/// The prompt that starts a job's agent.
pub open spec fn runtime_prompt(local_time: Seq<char>, job_dir: Seq<char>, prompt_path: Seq<char>) -> Seq<char> {
    join_lines(
        seq![
            RUN_INTRO@,
            Seq::empty(),
            LOCAL_TIME_LINE@ + local_time,
            WORK_DIR_LINE@ + job_dir,
            PROMPT_FILE_LINE@ + prompt_path,
            Seq::empty(),
            RUN_READ_FIRST@,
            RUN_OUTPUTS@,
            RUN_SELF_CONTAINED@,
            RUN_NO_LOCAL_PATHS@,
            RUN_WRITE_FILES@,
        ],
    )
}

/// The prompt that starts the agent of a prepared job, given the local time.
pub fn build_runtime_prompt(job: &AdvancedReportJob, local_time: &str) -> (r: String)
    ensures
        r@ == runtime_prompt(local_time@, job.job_dir@, job.prompt_path@),
{
    let mut lines: Vec<String> = Vec::new();
    lines.push(owned(RUN_INTRO));
    lines.push(String::new());
    lines.push(line(LOCAL_TIME_LINE, local_time));
    lines.push(line(WORK_DIR_LINE, job.job_dir.as_str()));
    lines.push(line(PROMPT_FILE_LINE, job.prompt_path.as_str()));
    lines.push(String::new());
    lines.push(owned(RUN_READ_FIRST));
    lines.push(owned(RUN_OUTPUTS));
    lines.push(owned(RUN_SELF_CONTAINED));
    lines.push(owned(RUN_NO_LOCAL_PATHS));
    lines.push(owned(RUN_WRITE_FILES));
    let r = join_lines_of(&lines);
    assert(texts(lines@) == seq![
        RUN_INTRO@,
        Seq::<char>::empty(),
        LOCAL_TIME_LINE@ + local_time@,
        WORK_DIR_LINE@ + job.job_dir@,
        PROMPT_FILE_LINE@ + job.prompt_path@,
        Seq::<char>::empty(),
        RUN_READ_FIRST@,
        RUN_OUTPUTS@,
        RUN_SELF_CONTAINED@,
        RUN_NO_LOCAL_PATHS@,
        RUN_WRITE_FILES@,
    ]);
    r
}

/// The prompt that starts the agent on a quality fix.
pub open spec fn quality_fix_runtime_prompt(
    local_time: Seq<char>,
    job_dir: Seq<char>,
    fix_prompt_path: Seq<char>,
) -> Seq<char> {
    join_lines(
        seq![
            FIX_INTRO@,
            Seq::empty(),
            LOCAL_TIME_LINE@ + local_time,
            WORK_DIR_LINE@ + job_dir,
            FIX_PROMPT_FILE_LINE@ + fix_prompt_path,
            Seq::empty(),
            FIX_READ_FIRST@,
            FIX_SCOPE@,
            RUN_SELF_CONTAINED@,
            RUN_NO_LOCAL_PATHS@,
            FIX_WRITE_FILES@,
        ],
    )
}

/// The prompt that starts the agent on fixing a report, given the job
/// directory, the path of the fix instructions in it and the local time.
pub fn build_quality_fix_runtime_prompt(job_dir: &str, fix_prompt_path: &str, local_time: &str) -> (r:
    String)
    ensures
        r@ == quality_fix_runtime_prompt(local_time@, job_dir@, fix_prompt_path@),
{
    let mut lines: Vec<String> = Vec::new();
    lines.push(owned(FIX_INTRO));
    lines.push(String::new());
    lines.push(line(LOCAL_TIME_LINE, local_time));
    lines.push(line(WORK_DIR_LINE, job_dir));
    lines.push(line(FIX_PROMPT_FILE_LINE, fix_prompt_path));
    lines.push(String::new());
    lines.push(owned(FIX_READ_FIRST));
    lines.push(owned(FIX_SCOPE));
    lines.push(owned(RUN_SELF_CONTAINED));
    lines.push(owned(RUN_NO_LOCAL_PATHS));
    lines.push(owned(FIX_WRITE_FILES));
    let r = join_lines_of(&lines);
    assert(texts(lines@) == seq![
        FIX_INTRO@,
        Seq::<char>::empty(),
        LOCAL_TIME_LINE@ + local_time@,
        WORK_DIR_LINE@ + job_dir@,
        FIX_PROMPT_FILE_LINE@ + fix_prompt_path@,
        Seq::<char>::empty(),
        FIX_READ_FIRST@,
        FIX_SCOPE@,
        RUN_SELF_CONTAINED@,
        RUN_NO_LOCAL_PATHS@,
        FIX_WRITE_FILES@,
    ]);
    r
}

pub const QUALITY_FIX_HEAD: &'static str = "# 报告质量修正\n\n刚才生成的 `output/report.html` 已存在，但自动质量检查发现以下问题：\n\n";

pub const QUALITY_FIX_TAIL: &'static str = "\n\n请基于当前工作目录直接修正 `output/report.html` 和必要的 `output/report.meta.json`。\n\n要求：\n- 不要重新发明报告主题，不要删除已有有效内容。\n- 只针对上述质量提醒补齐或调整。\n- 修正后仍保持单文件 HTML，不依赖远程脚本、远程字体、远程图片或任何 file:// 本地资源。\n- 不要在 HTML 中写入本地绝对路径，不要用 iframe/fetch/XHR/window.open/location 读取或跳转本地文件。\n- 底部必须保留 `数据来源：微信读书官方 Skill`、大模型风险提示和 GitHub 项目地址 `https://github.com/Duosl/weread-skill-desktop`。\n- 不要只在对话里说明修正方案，必须写回 `output/report.html`。\n";

/// The warnings numbered from 1, as `1. …`.
pub open spec fn numbered(ws: Seq<Seq<char>>) -> Seq<Seq<char>> {
    Seq::new(ws.len(), |i: int| nat_decimal((i + 1) as nat) + ". "@ + ws[i])
}

/// The instructions for fixing a report: the quality warnings, numbered,
/// between a fixed head and tail.
pub open spec fn quality_fix_text(ws: Seq<Seq<char>>) -> Seq<char> {
    QUALITY_FIX_HEAD@ + join_lines(numbered(ws)) + QUALITY_FIX_TAIL@
}

/// The instructions written for the agent when a report needs fixing.
pub fn quality_fix_prompt(validation: &AdvancedReportValidation) -> (r: String)
    ensures
        r@ == quality_fix_text(validation.warning_views()),
{
    let ws = &validation.warnings;
    let mut lines: Vec<String> = Vec::new();
    for i in 0..ws.len()
        invariant
            texts(lines@) == numbered(validation.warning_views()).take(i as int),
            ws@ == validation.warnings@,
    {
        let mut l = String::new();
        push_u64(&mut l, (i as u64) + 1);
        push_str(&mut l, ". ");
        push_str(&mut l, ws[i].as_str());
        let ghost before = texts(lines@);
        assert(validation.warning_views()[i as int] == ws@[i as int]@);
        assert(l@ == numbered(validation.warning_views())[i as int]);
        lines.push(l);
        assert(texts(lines@) == before.push(l@));
        assert(texts(lines@) == numbered(validation.warning_views()).take(i + 1));
    }
    assert(numbered(validation.warning_views()).take(ws@.len() as int) == numbered(
        validation.warning_views(),
    ));
    let mut r = owned(QUALITY_FIX_HEAD);
    let body = join_lines_of(&lines);
    push_str(&mut r, body.as_str());
    push_str(&mut r, QUALITY_FIX_TAIL);
    r
}

// ---------------------------------------------------------------------
// Running a job's agent
// ---------------------------------------------------------------------

/// A line of the generation log.
pub struct RunLog {
    pub kind: &'static str,
    pub text: String,
}

/// A new status and message for the task.
pub struct TaskUpdate {
    pub status: AdvancedReportTaskStatus,
    pub message: String,
}

/// How the run goes on after an event.
pub enum RunOutcome {
    Continue,
    Canceled,
    Failed { message: String },
}

/// What to do about one event of a running agent.
pub struct RunStep {
    pub log: RunLog,
    pub task_update: Option<TaskUpdate>,
    pub outcome: RunOutcome,
}

/// What a job's agent run has gathered so far.
pub struct ReportRun {
    pub stderr: Vec<String>,
    pub exit_code: Option<i32>,
}

pub const HTML_LOG: &'static str = "正在生成 HTML 报告...";

pub const DONE_LOG: &'static str = "任务已结束: ";

pub const CANCELED_LOG: &'static str = "任务已取消";

pub const CANCELED_MESSAGE: &'static str = "已取消";

pub const NO_REPORT: &'static str = "任务失败，未生成报告";

/// An optional exit code as Rust's debug format writes it.
pub open spec fn code_text(code: Option<i32>) -> Seq<char> {
    match code {
        Some(c) => "Some("@ + int_decimal(c as int) + ")"@,
        None => "None"@,
    }
}

fn push_code(s: &mut String, code: Option<i32>)
    ensures
        final(s)@ == old(s)@ + code_text(code),
{
    match code {
        Some(c) => {
            push_str(s, "Some(");
            push_i64(s, c as i64);
            push_str(s, ")");
        },
        None => push_str(s, "None"),
    }
}

/// The log line written for an event.
pub open spec fn event_log(event: AgentEvent, start_message: Seq<char>) -> (Seq<char>, Seq<char>) {
    match event {
        AgentEvent::Start { .. } => ("start"@, start_message),
        AgentEvent::Delta { text } => ("delta"@, text@),
        AgentEvent::Raw { text } => ("raw"@, text@),
        AgentEvent::Html { .. } => ("html"@, HTML_LOG@),
        AgentEvent::Meta { key, value } => ("meta"@, key@ + ": "@ + value@),
        AgentEvent::Stderr { text } => ("stderr"@, text@),
        AgentEvent::Done { code } => ("done"@, DONE_LOG@ + code_text(code)),
        AgentEvent::Canceled => ("canceled"@, CANCELED_LOG@),
        AgentEvent::Error { message } => ("error"@, message@),
    }
}

impl ReportRun {
    /// Nothing gathered yet.
    pub fn new() -> (r: Self)
        ensures
            r.stderr@.len() == 0,
            r.exit_code is None,
    {
        ReportRun { stderr: Vec::new(), exit_code: None }
    }

    /// Handles one event: logs it; the start of the agent marks the task
    /// running with `start_message`, a cancelation marks it canceled and
    /// ends the run, an error ends the run with its message; stderr lines
    /// and the exit code are kept for the end.
    pub fn on_event(&mut self, event: &AgentEvent, start_message: &str) -> (step: RunStep)
        ensures
            (step.log.kind@, step.log.text@) == event_log(*event, start_message@),
            final(self).stderr@ == (match *event {
                AgentEvent::Stderr { text } => old(self).stderr@.push(text),
                _ => old(self).stderr@,
            }),
            final(self).exit_code == (match *event {
                AgentEvent::Done { code } => code,
                _ => old(self).exit_code,
            }),
            match *event {
                AgentEvent::Start { .. } => step.task_update matches Some(u) && u.status
                    == AdvancedReportTaskStatus::Running && u.message@ == start_message@
                    && step.outcome is Continue,
                AgentEvent::Canceled => step.task_update matches Some(u) && u.status
                    == AdvancedReportTaskStatus::Canceled && u.message@ == CANCELED_MESSAGE@
                    && step.outcome is Canceled,
                AgentEvent::Error { message } => step.task_update is None && (step.outcome matches RunOutcome::Failed { message: m } && m == message),
                _ => step.task_update is None && step.outcome is Continue,
            },
    {
        match event {
            AgentEvent::Start { .. } => RunStep {
                log: RunLog { kind: "start", text: owned(start_message) },
                task_update: Some(
                    TaskUpdate {
                        status: AdvancedReportTaskStatus::Running,
                        message: owned(start_message),
                    },
                ),
                outcome: RunOutcome::Continue,
            },
            AgentEvent::Delta { text } => RunStep {
                log: RunLog { kind: "delta", text: text.clone() },
                task_update: None,
                outcome: RunOutcome::Continue,
            },
            AgentEvent::Raw { text } => RunStep {
                log: RunLog { kind: "raw", text: text.clone() },
                task_update: None,
                outcome: RunOutcome::Continue,
            },
            AgentEvent::Html { .. } => RunStep {
                log: RunLog { kind: "html", text: owned(HTML_LOG) },
                task_update: None,
                outcome: RunOutcome::Continue,
            },
            AgentEvent::Meta { key, value } => {
                let mut t = key.clone();
                push_str(&mut t, ": ");
                push_str(&mut t, value.as_str());
                RunStep {
                    log: RunLog { kind: "meta", text: t },
                    task_update: None,
                    outcome: RunOutcome::Continue,
                }
            },
            AgentEvent::Stderr { text } => {
                self.stderr.push(text.clone());
                RunStep {
                    log: RunLog { kind: "stderr", text: text.clone() },
                    task_update: None,
                    outcome: RunOutcome::Continue,
                }
            },
            AgentEvent::Done { code } => {
                self.exit_code = *code;
                let mut t = owned(DONE_LOG);
                push_code(&mut t, *code);
                RunStep {
                    log: RunLog { kind: "done", text: t },
                    task_update: None,
                    outcome: RunOutcome::Continue,
                }
            },
            AgentEvent::Canceled => RunStep {
                log: RunLog { kind: "canceled", text: owned(CANCELED_LOG) },
                task_update: Some(
                    TaskUpdate {
                        status: AdvancedReportTaskStatus::Canceled,
                        message: owned(CANCELED_MESSAGE),
                    },
                ),
                outcome: RunOutcome::Canceled,
            },
            AgentEvent::Error { message } => RunStep {
                log: RunLog { kind: "error", text: message.clone() },
                task_update: None,
                outcome: RunOutcome::Failed { message: message.clone() },
            },
        }
    }

    /// Settles a run whose agent ended: without a report the run failed
    /// (with what the agent wrote to stderr); a non-zero exit code adds a
    /// warning to the report's checks.
    pub fn finish(&self, report_found: bool, validation: AdvancedReportValidation) -> (r: Result<
        AdvancedReportValidation,
        String,
    >)
        ensures
            !report_found ==> (r matches Err(e) && e@ == (if self.stderr@.len() == 0 {
                NO_REPORT@
            } else {
                NO_REPORT@ + "。"@ + join_lines(texts(self.stderr@))
            })),
            report_found ==> (r matches Ok(v) && if (match self.exit_code {
                Some(c) => c != 0,
                None => false,
            }) {
                &&& !v.ok
                &&& v.warnings@.len() == validation.warnings@.len() + 1
                &&& v.warning_views() == validation.warning_views().push(
                    exit_warning(self.exit_code, texts(self.stderr@)),
                )
            } else {
                v.ok == validation.ok && v.warning_views() == validation.warning_views()
            }),
    {
        if !report_found {
            let mut e = owned(NO_REPORT);
            if self.stderr.len() > 0 {
                push_str(&mut e, "。");
                let joined = join_lines_of(&self.stderr);
                push_str(&mut e, joined.as_str());
            }
            return Err(e);
        }
        let abnormal = match self.exit_code {
            Some(c) => c != 0,
            None => false,
        };
        let mut v = validation;
        if abnormal {
            let mut w = owned("报告已生成，但任务结束时返回异常状态 ");
            push_code(&mut w, self.exit_code);
            push_str(&mut w, "。这不影响打开 HTML 报告。");
            if self.stderr.len() > 0 {
                push_str(&mut w, " 结束信息：");
                let joined = join_lines_of(&self.stderr);
                push_str(&mut w, joined.as_str());
            }
            let ghost before = v.warnings@;
            assert(w@ == exit_warning(self.exit_code, texts(self.stderr@)));
            v.warnings.push(w);
            v.ok = false;
            assert(v.warning_views() == before.map_values(|s: String| s@).push(
                exit_warning(self.exit_code, texts(self.stderr@)),
            ));
        }
        Ok(v)
    }
}

/// The warning added when the agent ended with a non-zero exit code.
pub open spec fn exit_warning(code: Option<i32>, stderr: Seq<Seq<char>>) -> Seq<char> {
    "报告已生成，但任务结束时返回异常状态 "@ + code_text(code) + "。这不影响打开 HTML 报告。"@ + if stderr.len() == 0 {
        Seq::empty()
    } else {
        " 结束信息："@ + join_lines(stderr)
    }
}

/// A report with quality warnings gets one automatic fixing round.
pub fn needs_quality_fix(validation: &AdvancedReportValidation) -> (b: bool)
    ensures
        b == !validation.ok,
{
    !validation.ok
}

/// The log line announcing the fixing round for `count` warnings.
pub fn quality_fix_log_message(count: usize) -> (r: String)
    ensures
        r@ == "报告已生成，但发现 "@ + nat_decimal(count as nat) + " 条质量提醒，正在自动修正..."@,
{
    let mut r = owned("报告已生成，但发现 ");
    push_u64(&mut r, count as u64);
    push_str(&mut r, " 条质量提醒，正在自动修正...");
    r
}

/// The task message during the fixing round for `count` warnings.
pub fn quality_fix_task_message(count: usize) -> (r: String)
    ensures
        r@ == "发现 "@ + nat_decimal(count as nat) + " 条质量提醒，正在自动修正..."@,
{
    let mut r = owned("发现 ");
    push_u64(&mut r, count as u64);
    push_str(&mut r, " 条质量提醒，正在自动修正...");
    r
}

/// The message of a completed task: plain, or with the number of
/// quality warnings left.
pub fn completion_message(validation: &AdvancedReportValidation) -> (r: String)
    ensures
        r@ == (if validation.ok {
            crate::tasks::REPORT_READY_MESSAGE@
        } else {
            "报告已生成，有 "@ + nat_decimal(validation.warnings@.len()) + " 条质量提醒"@
        }),
{
    if validation.ok {
        owned(crate::tasks::REPORT_READY_MESSAGE)
    } else {
        let mut r = owned("报告已生成，有 ");
        push_u64(&mut r, validation.warnings.len() as u64);
        push_str(&mut r, " 条质量提醒");
        r
    }
}

/// Adds the warning about the report's metadata, if reading it failed.
pub fn with_meta_warning(validation: AdvancedReportValidation, warning: Option<String>) -> (v:
    AdvancedReportValidation)
    ensures
        match warning {
            Some(w) => !v.ok && v.warnings@ == validation.warnings@.push(w),
            None => v.ok == validation.ok && v.warnings@ == validation.warnings@,
        },
{
    let mut v = validation;
    match warning {
        Some(w) => {
            v.warnings.push(w);
            v.ok = false;
        },
        None => {},
    }
    v
}

} // verus!
