//! The files an agent's job starts from: the brief it reads first, the
//! prompt it runs with, and the JSON settings, policies and indexes beside
//! them.
use crate::json::{as_array, as_bool, as_str, get, is_text, is_texts, member_is, members, member_of, text_json, text_member, text_member_of, texts_json, Json, JsonMember};
use crate::templates::{strs_view, BuiltinAdvancedTemplate, BuiltinOutputShape, ShapeView, TemplateView};
use crate::text::{join_sep, join_with, lemma_texts_push, owned, push_str, texts};
use chrono::Datelike;
use vstd::prelude::*;

verus! {

pub const BRIEF_0: &'static str = "# 智能体报告任务书\n\n## 你要为谁写\n\n报告的主语是“你”。\n\n请直接对读者说话，使用“你”的二人称表达，例如“你更常把阅读当作……”。不要把读者称为“这个用户”“该用户”“他/她/TA”。标题、摘要、结论都遵守这个规则。\n\n## 任务目标\n\n模板：";

pub const BRIEF_1: &'static str = "\n\n";

pub const BRIEF_2: &'static str = "\n\n数据范围：";

pub const BRIEF_3: &'static str = "\n\n## 当前电脑时间\n\n当前电脑时间：";

pub const BRIEF_4: &'static str = "\n\n本机日期：";

pub const BRIEF_5: &'static str = "\n\n本机时区：";

pub const BRIEF_6: &'static str = "\n\n你必须按这个本机时间理解“今天”“本月”“上个月”“今年”“去年”等相对时间，不要按模型知识截止时间、训练时间或其他默认时区推断。报告中解释数据范围时，也以这里的本机日期为参照。\n\n你不是在填固定模板。请根据数据特征决定报告结构、叙事、视觉和模块。\n\n## 输出形态\n\n形态：";

pub const BRIEF_7: &'static str = "\n\n";

pub const BRIEF_8: &'static str = "\n\n形态要求：\n";

pub const BRIEF_9: &'static str = "\n\n## 可用数据\n\n默认能力：";

pub const BRIEF_10: &'static str = "\n\n可选能力：";

pub const BRIEF_11: &'static str = "\n\n当前已预取文件：\n";

pub const BRIEF_12: &'static str = "\n\n数据文件口径：\n- `profile.summary.json` 是关键数字的权威摘要，报告封面、指标卡、摘要文案中的书架数、读过数、读完数、阅读时长、阅读天数、笔记数必须优先使用它，不要从其他 JSON 重新推算。\n- `reading-stats.*` 使用本次选择的数据范围，文件中的阅读时长已转换为中文展示值。\n- `notebooks.selected.json` 只保留本次数据范围内有新笔记活动的书。\n- `notes.raw.json` 只包含本次数据范围内创建的划线和想法。\n- `shelf.context.json` 是完整书架上下文，只能用于理解长期阅读背景，不要把它当作本次数据范围内的书单或排行依据。\n- 严禁把 `notebooks.selected.json` 的书本数写成“书架藏书 / 书架在册 / 书架总数”。书架总数只使用 `profile.summary.json` 的 `canonicalMetrics.bookshelfTotal` 或 `shelf.totalItems`。\n- `profile.summary.json` 里的 `canonicalMetrics.readingTime`、`selectedPeriodMetrics.readingTime` 已经是转换后的真实中文时长，不是秒数；报告封面和指标卡直接照抄这个值。\n- 不要尝试把 `reading-stats.*` 里的中文阅读时长再换算成小时、小数小时或分钟。\n- 阅读时长禁止写成 `a.b 小时`、`8218 小时` 这类小数或错位单位；必须写成 `xx小时xx分钟`、`xx小时` 或 `xx分钟`。\n- 指标卡上的单位优先使用 `profile.summary.json` 里的 `canonicalDisplay` / `selectedPeriodDisplay`，例如 `184本`、`112本`、`136小时52分钟`、`565天`、`624条`。\n\n如果数据不足以支撑完整判断，不要硬编。可以在 `output/data-requests.json` 写出你还需要的数据。\n\n## 隐私\n\n- rawNotesConsent: ";

pub const BRIEF_13: &'static str = "\n- 不要编造不存在的书、笔记、阅读行为或个人经历。\n- 不要在 `report.html` 中出现用户本地绝对路径、工作区路径、缓存路径或 `file://` URL。\n- 不要在 `report.html` 中用 iframe、object、embed、fetch、XMLHttpRequest、window.open 或 location 跳转读取/加载本地 HTML、JSON、图片或其他文件；报告必须是自包含单文件，直接双击或浏览器打开都能运行。\n- 不要在 `report.html` 中承诺“没有任何虚构内容”“完全真实”“绝对准确”等绝对化结论。报告可以说明“基于已导出的微信读书数据生成”，但必须承认大模型可能会出错，分析结论建议结合原始阅读数据自行判断。\n- `report.html` 底部必须同时出现三类信息：`数据来源：微信读书官方 Skill`；大模型风险提示；面向分享读者的开源项目入口。建议文案为“大模型可能会出错，本报告基于已导出的微信读书数据生成，分析结论请结合原始数据判断。”、“也想生成自己的阅读报告？”、“这份报告由开源桌面工具整理生成，你可以在 GitHub 获取项目。”，并展示仓库地址 `https://github.com/Duosl/weread-skill-desktop`。不要只写软件名或只裸露 URL。\n\n## 本次自定义要求\n\n";

pub const BRIEF_14: &'static str = "\n\n## 输出文件\n\n必须生成：\n\n生成完成后只写入下列文件，不要自动打开浏览器，不要预览 HTML，也不要调用任何系统打开命令。\n\n1. `output/report.html`\n   - 完整分析版，内容要完整。\n   - 至少包含：开场摘要、核心结论、证据数据、解释分析、可分享摘要或关键句、下一阶段建议（如果模板适用）。\n   - 不能只有概览卡片，必须有成段分析。\n   - 每个主要结论都要能追溯到至少一种证据：阅读统计、分类占比、书目、笔记数量、划线或想法。\n   - 不要输出泛泛的“你很热爱阅读”“继续保持”等空话；建议必须具体到主题、节奏、书目方向或使用场景。\n2. `output/report.meta.json`\n   - 必须记录使用的数据文件、核心结论列表、是否包含品牌标识、是否遵守二人称。\n\n## 视觉约束\n\n";

pub const BRIEF_15: &'static str = "\n\n## 具体任务\n\n";

pub const BRIEF_16: &'static str = "\n\n## 机器索引附录\n\n除本任务书外，`input/` 中的 JSON 文件只是机器索引和策略备份，不需要逐个阅读后再开始。需要时再查。\n\n### template.json\n\n```json\n";

pub const BRIEF_17: &'static str = "\n```\n\n### generation-settings.json\n\n```json\n";

pub const BRIEF_18: &'static str = "\n```\n\n### capabilities.json\n\n```json\n";

pub const BRIEF_19: &'static str = "\n```\n";

/// The pieces of a brief, in the order they appear.
pub struct BriefView {
    pub name: Seq<char>,
    pub description: Seq<char>,
    pub report_period: Seq<char>,
    pub local_now_display: Seq<char>,
    pub local_date: Seq<char>,
    pub local_timezone: Seq<char>,
    pub shape_name: Seq<char>,
    pub shape_description: Seq<char>,
    pub shape_brief: Seq<char>,
    pub default_capabilities: Seq<char>,
    pub optional_capabilities: Seq<char>,
    pub data_files: Seq<char>,
    pub raw_notes_consent: Seq<char>,
    pub user_prompt_section: Seq<char>,
    pub style: Seq<char>,
    pub prompt: Seq<char>,
    pub template_json: Seq<char>,
    pub generation_settings_json: Seq<char>,
    pub capabilities_json: Seq<char>,
}

/// The brief an agent reads first: who the report is for, the template,
/// the period and local time, the output shape, the data, privacy rules,
/// the user's requirements, the files to write, style and task, and the
/// machine-readable appendix.
pub open spec fn brief_text(p: BriefView) -> Seq<char> {
    BRIEF_0@ + p.name + BRIEF_1@ + p.description + BRIEF_2@ + p.report_period + BRIEF_3@ + p.local_now_display + BRIEF_4@ + p.local_date + BRIEF_5@ + p.local_timezone + BRIEF_6@ + p.shape_name + BRIEF_7@ + p.shape_description + BRIEF_8@ + p.shape_brief + BRIEF_9@ + p.default_capabilities + BRIEF_10@ + p.optional_capabilities + BRIEF_11@ + p.data_files + BRIEF_12@ + p.raw_notes_consent + BRIEF_13@ + p.user_prompt_section + BRIEF_14@ + p.style + BRIEF_15@ + p.prompt + BRIEF_16@ + p.template_json + BRIEF_17@ + p.generation_settings_json + BRIEF_18@ + p.capabilities_json + BRIEF_19@
}

/// The pieces of a brief as texts.
pub struct BriefParts {
    pub name: String,
    pub description: String,
    pub report_period: String,
    pub local_now_display: String,
    pub local_date: String,
    pub local_timezone: String,
    pub shape_name: String,
    pub shape_description: String,
    pub shape_brief: String,
    pub default_capabilities: String,
    pub optional_capabilities: String,
    pub data_files: String,
    pub raw_notes_consent: String,
    pub user_prompt_section: String,
    pub style: String,
    pub prompt: String,
    pub template_json: String,
    pub generation_settings_json: String,
    pub capabilities_json: String,
}

impl BriefParts {
    pub open spec fn view(&self) -> BriefView {
        BriefView {
            name: self.name@,
            description: self.description@,
            report_period: self.report_period@,
            local_now_display: self.local_now_display@,
            local_date: self.local_date@,
            local_timezone: self.local_timezone@,
            shape_name: self.shape_name@,
            shape_description: self.shape_description@,
            shape_brief: self.shape_brief@,
            default_capabilities: self.default_capabilities@,
            optional_capabilities: self.optional_capabilities@,
            data_files: self.data_files@,
            raw_notes_consent: self.raw_notes_consent@,
            user_prompt_section: self.user_prompt_section@,
            style: self.style@,
            prompt: self.prompt@,
            template_json: self.template_json@,
            generation_settings_json: self.generation_settings_json@,
            capabilities_json: self.capabilities_json@,
        }
    }
}

pub fn render_brief(p: &BriefParts) -> (r: String)
    ensures
        r@ == brief_text(p.view()),
{
    let mut r = owned(BRIEF_0);
    push_str(&mut r, p.name.as_str());
    push_str(&mut r, BRIEF_1);
    push_str(&mut r, p.description.as_str());
    push_str(&mut r, BRIEF_2);
    push_str(&mut r, p.report_period.as_str());
    push_str(&mut r, BRIEF_3);
    push_str(&mut r, p.local_now_display.as_str());
    push_str(&mut r, BRIEF_4);
    push_str(&mut r, p.local_date.as_str());
    push_str(&mut r, BRIEF_5);
    push_str(&mut r, p.local_timezone.as_str());
    push_str(&mut r, BRIEF_6);
    push_str(&mut r, p.shape_name.as_str());
    push_str(&mut r, BRIEF_7);
    push_str(&mut r, p.shape_description.as_str());
    push_str(&mut r, BRIEF_8);
    push_str(&mut r, p.shape_brief.as_str());
    push_str(&mut r, BRIEF_9);
    push_str(&mut r, p.default_capabilities.as_str());
    push_str(&mut r, BRIEF_10);
    push_str(&mut r, p.optional_capabilities.as_str());
    push_str(&mut r, BRIEF_11);
    push_str(&mut r, p.data_files.as_str());
    push_str(&mut r, BRIEF_12);
    push_str(&mut r, p.raw_notes_consent.as_str());
    push_str(&mut r, BRIEF_13);
    push_str(&mut r, p.user_prompt_section.as_str());
    push_str(&mut r, BRIEF_14);
    push_str(&mut r, p.style.as_str());
    push_str(&mut r, BRIEF_15);
    push_str(&mut r, p.prompt.as_str());
    push_str(&mut r, BRIEF_16);
    push_str(&mut r, p.template_json.as_str());
    push_str(&mut r, BRIEF_17);
    push_str(&mut r, p.generation_settings_json.as_str());
    push_str(&mut r, BRIEF_18);
    push_str(&mut r, p.capabilities_json.as_str());
    push_str(&mut r, BRIEF_19);
    r
}


/// The data files an index lists, as bullets: one ``- `path` `` line for
/// each entry that has a path.
pub open spec fn path_bullets(items: Seq<Json>) -> Seq<Seq<char>>
    decreases items.len(),
{
    if items.len() == 0 {
        Seq::empty()
    } else {
        let rest = path_bullets(items.drop_last());
        match as_str(get(items.last(), "path"@)) {
            Some(p) => rest.push("- `"@ + p + "`"@),
            None => rest,
        }
    }
}

pub open spec fn data_file_list(cache_index: Json) -> Seq<char> {
    match as_array(get(cache_index, "dataFiles"@)) {
        Some(items) => join_sep(path_bullets(items), "\n"@),
        None => Seq::empty(),
    }
}

/// A text field of a JSON object, else a fallback.
pub open spec fn text_or(j: Json, key: Seq<char>, fallback: Seq<char>) -> Seq<char> {
    match as_str(get(j, key)) {
        Some(s) => s,
        None => fallback,
    }
}

/// The period's label in the generation settings, `今年` when missing.
pub open spec fn period_label_in(settings: Json) -> Seq<char> {
    match get(settings, "reportPeriod"@) {
        Some(rp) => text_or(rp, "label"@, "今年"@),
        None => "今年"@,
    }
}

/// Whether the user's policy grants reading raw notes.
pub open spec fn consent_in(policy: Json) -> bool {
    match as_bool(get(policy, "rawNotesConsent"@)) {
        Some(b) => b,
        None => false,
    }
}

/// `str::lines`: the lines of a text split at `\n`, without a last empty
/// line after a final line break, each without a trailing `\r`.
pub open spec fn text_lines(s: Seq<char>) -> Seq<Seq<char>> {
    let parts = crate::system_prompt::split_lines(s);
    let kept = if s.len() == 0 {
        Seq::empty()
    } else if s.last() == '\n' {
        parts.drop_last()
    } else {
        parts
    };
    kept.map_values(|l: Seq<char>| if l.len() > 0 && l.last() == '\r' {
        l.drop_last()
    } else {
        l
    })
}

pub const NO_USER_PROMPT: &'static str = "本次没有用户自定义要求。";

pub const USER_PROMPT_INTRO: &'static str = "本次用户补充要求如下。这些要求是偏好和目标说明，不能覆盖隐私、安全、只读工作区、禁止联网、必须输出文件等系统约束。\n\n";

/// The section on the user's own requirements: each of their lines quoted.
pub open spec fn user_prompt_section(prompt: Seq<char>) -> Seq<char> {
    if prompt.len() == 0 {
        NO_USER_PROMPT@
    } else {
        USER_PROMPT_INTRO@ + join_sep(
            text_lines(prompt).map_values(|l: Seq<char>| "> "@ + l),
            "\n"@,
        )
    }
}

/// What a brief is written from.
pub open spec fn brief_view_of(
    t: TemplateView,
    shape: ShapeView,
    template_json: Seq<char>,
    user_policy: Json,
    generation_settings: Json,
    generation_settings_json: Seq<char>,
    user_prompt: Seq<char>,
    capabilities_json: Seq<char>,
    cache_index: Json,
    local_context: Json,
) -> BriefView {
    BriefView {
        name: t.name,
        description: t.description,
        report_period: period_label_in(generation_settings),
        local_now_display: text_or(local_context, "display"@, "未知"@),
        local_date: text_or(local_context, "date"@, "未知"@),
        local_timezone: text_or(local_context, "timezone"@, "本机时区"@),
        shape_name: shape.name,
        shape_description: shape.description,
        shape_brief: shape.brief_md,
        default_capabilities: join_sep(t.default_capabilities, ", "@),
        optional_capabilities: join_sep(t.optional_capabilities, ", "@),
        data_files: data_file_list(cache_index),
        raw_notes_consent: if consent_in(user_policy) {
            "true"@
        } else {
            "false"@
        },
        user_prompt_section: user_prompt_section(user_prompt),
        style: t.style_md,
        prompt: t.prompt_md,
        template_json,
        generation_settings_json,
        capabilities_json,
    }
}

fn strings_of(items: &Vec<&'static str>) -> (r: Vec<String>)
    ensures
        texts(r@) == strs_view(items@),
{
    let mut r: Vec<String> = Vec::new();
    for i in 0..items.len()
        invariant
            texts(r@) == strs_view(items@.take(i as int)),
    {
        let ghost old_r = r@;
        let t = owned(items[i]);
        r.push(t);
        proof {
            lemma_texts_push(old_r, t);
            assert(strs_view(items@.take(i + 1)) =~= strs_view(items@.take(i as int)).push(items@[i as int]@));
        }
    }
    assert(items@.take(items@.len() as int) == items@);
    r
}

fn text_field_or(j: &Json, key: &str, fallback: &str) -> (r: String)
    ensures
        r@ == text_or(*j, key@, fallback@),
{
    match j.get(key) {
        Some(v) => match v.as_str() {
            Some(s) => owned(s),
            None => owned(fallback),
        },
        None => owned(fallback),
    }
}

fn data_files_text(cache_index: &Json) -> (r: String)
    ensures
        r@ == data_file_list(*cache_index),
{
    let items = match cache_index.get("dataFiles") {
        Some(d) => match d.as_array() {
            Some(items) => items,
            None => return String::new(),
        },
        None => return String::new(),
    };
    let mut lines: Vec<String> = Vec::new();
    for i in 0..items.len()
        invariant
            texts(lines@) == path_bullets(items@.take(i as int)),
    {
        assert(items@.take(i + 1).drop_last() == items@.take(i as int));
        assert(items@.take(i + 1).last() == items@[i as int]);
        match items[i].get("path") {
            Some(p) => match p.as_str() {
                Some(path) => {
                    let mut l = owned("- `");
                    push_str(&mut l, path);
                    push_str(&mut l, "`");
                    let ghost old_lines = lines@;
                    lines.push(l);
                    proof {
                        lemma_texts_push(old_lines, l);
                    }
                },
                None => {},
            },
            None => {},
        }
    }
    assert(items@.take(items@.len() as int) == items@);
    join_with(&lines, "\n")
}

fn quoted_lines(prompt: &str) -> (r: String)
    ensures
        r@ == join_sep(text_lines(prompt@).map_values(|l: Seq<char>| "> "@ + l), "\n"@),
{
    let parts = crate::system_prompt::split_lines_of(prompt);
    let v = crate::text::chars_of(prompt);
    proof {
        crate::system_prompt::lemma_split_lines_len(prompt@);
    }
    let n: usize = if v.len() == 0 {
        0
    } else if v[v.len() - 1] == '\n' {
        parts.len() - 1
    } else {
        parts.len()
    };
    let ghost kept = if prompt@.len() == 0 {
        Seq::<Seq<char>>::empty()
    } else if prompt@.last() == '\n' {
        texts(parts@).drop_last()
    } else {
        texts(parts@)
    };
    assert(kept.len() == n);
    let mut lines: Vec<String> = Vec::new();
    for i in 0..n
        invariant
            n == kept.len(),
            n <= parts@.len(),
            forall|k: int| 0 <= k < n ==> kept[k] == (#[trigger] parts@[k])@,
            texts(lines@) == kept.take(i as int).map_values(|l: Seq<char>| if l.len() > 0 && l.last() == '\r' {
                l.drop_last()
            } else {
                l
            }).map_values(|l: Seq<char>| "> "@ + l),
    {
        let c = crate::text::chars_of(parts[i].as_str());
        let end = if c.len() > 0 && c[c.len() - 1] == '\r' {
            c.len() - 1
        } else {
            c.len()
        };
        let mut l = owned("> ");
        let ghost head = l@;
        let body = crate::text::slice_chars(&c, 0, end);
        crate::text::push_chars(&mut l, &body);
        let ghost old_lines = lines@;
        lines.push(l);
        proof {
            lemma_texts_push(old_lines, l);
            let line = kept[i as int];
            assert(c@ == line);
            if line.len() > 0 && line.last() == '\r' {
                assert(body@ == line.drop_last());
            } else {
                assert(body@ == line);
            }
            assert(kept.take(i + 1) == kept.take(i as int).push(line));
            assert(texts(lines@) =~= kept.take(i + 1).map_values(|l: Seq<char>| if l.len() > 0 && l.last() == '\r' {
                l.drop_last()
            } else {
                l
            }).map_values(|l: Seq<char>| "> "@ + l));
        }
    }
    assert(kept.take(n as int) == kept);
    assert(kept.map_values(|l: Seq<char>| if l.len() > 0 && l.last() == '\r' {
        l.drop_last()
    } else {
        l
    }).map_values(|l: Seq<char>| "> "@ + l) =~= text_lines(prompt@).map_values(|l: Seq<char>| "> "@ + l));
    join_with(&lines, "\n")
}

fn prompt_section(user_prompt: &str) -> (r: String)
    ensures
        r@ == user_prompt_section(user_prompt@),
{
    if crate::text::chars_of(user_prompt).len() == 0 {
        return owned(NO_USER_PROMPT);
    }
    let mut r = owned(USER_PROMPT_INTRO);
    let q = quoted_lines(user_prompt);
    push_str(&mut r, q.as_str());
    r
}

/// Writes the brief of a job from its template, output shape, settings
/// and data index; the JSON texts of the appendix come pretty-printed.
pub fn build_agent_brief(
    template: &BuiltinAdvancedTemplate,
    output_shape: &BuiltinOutputShape,
    template_json: &str,
    user_policy: &Json,
    generation_settings: &Json,
    generation_settings_json: &str,
    user_prompt: &str,
    capabilities_json: &str,
    cache_index: &Json,
    local_context: &Json,
) -> (r: String)
    ensures
        r@ == brief_text(
            brief_view_of(
                template.view(),
                output_shape.view(),
                template_json@,
                *user_policy,
                *generation_settings,
                generation_settings_json@,
                user_prompt@,
                capabilities_json@,
                *cache_index,
                *local_context,
            ),
        ),
{
    let report_period = match generation_settings.get("reportPeriod") {
        Some(rp) => text_field_or(rp, "label", "今年"),
        None => owned("今年"),
    };
    let consent = match user_policy.get("rawNotesConsent") {
        Some(b) => match b.as_bool() {
            Some(v) => v,
            None => false,
        },
        None => false,
    };
    let defaults = strings_of(&template.default_capabilities);
    let optionals = strings_of(&template.optional_capabilities);
    let parts = BriefParts {
        name: owned(template.name),
        description: owned(template.description),
        report_period,
        local_now_display: text_field_or(local_context, "display", "未知"),
        local_date: text_field_or(local_context, "date", "未知"),
        local_timezone: text_field_or(local_context, "timezone", "本机时区"),
        shape_name: owned(output_shape.name),
        shape_description: owned(output_shape.description),
        shape_brief: owned(output_shape.brief_md),
        default_capabilities: join_with(&defaults, ", "),
        optional_capabilities: join_with(&optionals, ", "),
        data_files: data_files_text(cache_index),
        raw_notes_consent: if consent {
            owned("true")
        } else {
            owned("false")
        },
        user_prompt_section: prompt_section(user_prompt),
        style: owned(template.style_md),
        prompt: owned(template.prompt_md),
        template_json: owned(template_json),
        generation_settings_json: owned(generation_settings_json),
        capabilities_json: owned(capabilities_json),
    };
    render_brief(&parts)
}

pub const AGENT_PROMPT: &'static str = "# 高级微信读书报告任务\n\n你正在一个本地 job 工作区中运行。请先读取 `input/brief.md`，并以它作为唯一任务入口。\n\n关键要求：\n- 只读取当前工作区内的文件。\n- 不要访问网络。\n- 不要加载远程脚本、远程字体或远程图片。\n- 不要在 HTML 中引用 `file://`，不要写入 `/Users/...`、工作区目录、缓存目录等本地绝对路径。\n- 不要使用 iframe、object、embed、fetch、XMLHttpRequest、window.open 或 location 跳转去读取/加载本地 HTML、JSON、图片或其他文件；报告必须是自包含单文件。\n- 不要只在对话里输出报告内容；最终结果必须写入 output/ 文件。\n- 必须生成 `output/report.html`、`output/report.meta.json`。\n- 生成完成后不要打开浏览器、不要预览 HTML、不要调用 `open` / `xdg-open` / `start` / `open_report_file` 等系统打开命令；只写入文件。\n";

/// The prompt the agent is started with.
pub fn build_agent_prompt() -> (r: String)
    ensures
        r@ == AGENT_PROMPT@,
{
    owned(AGENT_PROMPT)
}

// ---------------------------------------------------------------------
// The JSON files of a job
// ---------------------------------------------------------------------

/// An object of three texts under `id`, `name` and `description`.
pub open spec fn named_object(j: Json, id: Seq<char>, name: Seq<char>, description: Seq<char>) -> bool {
    let ms = members(j);
    &&& j is Object
    &&& ms.len() == 3
    &&& text_member(ms[0], "id"@, id)
    &&& text_member(ms[1], "name"@, name)
    &&& text_member(ms[2], "description"@, description)
}

fn shape_json(shape: &BuiltinOutputShape) -> (j: Json)
    ensures
        named_object(j, shape.id@, shape.name@, shape.description@),
{
    let mut ms: Vec<JsonMember> = Vec::new();
    ms.push(text_member_of("id", shape.id));
    ms.push(text_member_of("name", shape.name));
    ms.push(text_member_of("description", shape.description));
    Json::Object(ms)
}

/// The template manifest of a job (`template.json`).
pub open spec fn template_manifest(j: Json, t: TemplateView, shape: ShapeView) -> bool {
    let ms = members(j);
    &&& j is Object
    &&& ms.len() == 10
    &&& text_member(ms[0], "id"@, t.id)
    &&& text_member(ms[1], "name"@, t.name)
    &&& text_member(ms[2], "kind"@, "advanced"@)
    &&& text_member(ms[3], "version"@, "0.1.0"@)
    &&& text_member(ms[4], "description"@, t.description)
    &&& text_member(ms[5], "style"@, "style.md"@)
    &&& text_member(ms[6], "prompt"@, "prompt.md"@)
    &&& ms[7].key@ == "outputShape"@ && named_object(ms[7].value, shape.id, shape.name, shape.description)
    &&& ms[8].key@ == "dataPolicy"@ && ms[8].value is Object && members(ms[8].value).len() == 3 && {
        let d = members(ms[8].value);
        &&& d[0].key@ == "defaultCapabilities"@ && is_texts(d[0].value, t.default_capabilities)
        &&& d[1].key@ == "optionalCapabilities"@ && is_texts(d[1].value, t.optional_capabilities)
        &&& member_is(d[2], "requiresRawNotesConsent"@, Json::Bool(t.requires_raw_notes_consent))
    }
    &&& ms[9].key@ == "outputs"@ && is_texts(ms[9].value, seq!["report.html"@, "report.meta.json"@])
}

pub fn template_manifest_json(template: &BuiltinAdvancedTemplate, output_shape: &BuiltinOutputShape) -> (j:
    Json)
    ensures
        template_manifest(j, template.view(), output_shape.view()),
{
    let mut policy: Vec<JsonMember> = Vec::new();
    policy.push(member_of("defaultCapabilities", texts_json(&template.default_capabilities)));
    policy.push(member_of("optionalCapabilities", texts_json(&template.optional_capabilities)));
    policy.push(member_of("requiresRawNotesConsent", Json::Bool(template.requires_raw_notes_consent)));
    let outputs_list: Vec<&str> = vec!["report.html", "report.meta.json"];
    let outputs = texts_json(&outputs_list);
    proof {
        assert(outputs_list@.map_values(|s: &str| s@) =~= seq!["report.html"@, "report.meta.json"@]);
    }
    let mut ms: Vec<JsonMember> = Vec::new();
    ms.push(text_member_of("id", template.id));
    ms.push(text_member_of("name", template.name));
    ms.push(text_member_of("kind", "advanced"));
    ms.push(text_member_of("version", "0.1.0"));
    ms.push(text_member_of("description", template.description));
    ms.push(text_member_of("style", "style.md"));
    ms.push(text_member_of("prompt", "prompt.md"));
    ms.push(member_of("outputShape", shape_json(output_shape)));
    ms.push(member_of("dataPolicy", Json::Object(policy)));
    ms.push(member_of("outputs", outputs));
    Json::Object(ms)
}

/// One kind of data an agent may read: what it is, how it is cached and
/// how sensitive it is.
pub open spec fn capability_entry(
    j: Json,
    id: Seq<char>,
    title: Seq<char>,
    description: Seq<char>,
    sensitivity: Seq<char>,
) -> bool {
    let ms = members(j);
    &&& j is Object
    &&& ms.len() == 5
    &&& text_member(ms[0], "id"@, id)
    &&& text_member(ms[1], "title"@, title)
    &&& text_member(ms[2], "description"@, description)
    &&& text_member(ms[3], "cache"@, "prefer"@)
    &&& text_member(ms[4], "sensitivity"@, sensitivity)
}

fn capability_json(id: &str, title: &str, description: &str, sensitivity: &str) -> (j: Json)
    ensures
        capability_entry(j, id@, title@, description@, sensitivity@),
{
    let mut ms: Vec<JsonMember> = Vec::new();
    ms.push(text_member_of("id", id));
    ms.push(text_member_of("title", title));
    ms.push(text_member_of("description", description));
    ms.push(text_member_of("cache", "prefer"));
    ms.push(text_member_of("sensitivity", sensitivity));
    Json::Object(ms)
}

pub const FIRST_PASS: &'static str = "Use available files in data/. If more detail is required, write output/data-requests.json for a follow-up run.";

pub const SHELF_DESCRIPTION: &'static str = "完整书架概览，适合识别阅读范围、主题和完成状态。";

pub const NOTEBOOKS_DESCRIPTION: &'static str = "所有有笔记的书及笔记数量，适合判断投入深度。";

pub const STATS_DESCRIPTION: &'static str = "年度和整体阅读时长、天数、分类偏好和排行。";

pub const BOOKMARKS_DESCRIPTION: &'static str = "单本书划线原文，需要用户确认后才能用于智能体报告。";

pub const REVIEWS_DESCRIPTION: &'static str = "单本书个人想法和点评，需要用户确认后才能用于智能体报告。";

/// The data an agent may read (`capabilities.json`): the template's
/// default and optional capabilities and the five kinds of data.
pub open spec fn capabilities_file(j: Json, t: TemplateView) -> bool {
    let ms = members(j);
    &&& j is Object
    &&& ms.len() == 5
    &&& member_is(ms[0], "version"@, Json::Int(1))
    &&& ms[1].key@ == "progressiveDisclosure"@ && ms[1].value is Object && {
        let pd = members(ms[1].value);
        &&& pd.len() == 3
        &&& text_member(pd[0], "mode"@, "file-workspace"@)
        &&& text_member(pd[1], "cache"@, "prefer"@)
        &&& text_member(pd[2], "firstPass"@, FIRST_PASS@)
    }
    &&& ms[2].key@ == "defaultCapabilities"@ && is_texts(ms[2].value, t.default_capabilities)
    &&& ms[3].key@ == "optionalCapabilities"@ && is_texts(ms[3].value, t.optional_capabilities)
    &&& ms[4].key@ == "capabilities"@ && (ms[4].value matches Json::Array(cs) && cs@.len() == 5
        && capability_entry(cs@[0], "shelf.sync"@, "书架"@, SHELF_DESCRIPTION@, "medium"@)
        && capability_entry(cs@[1], "notes.notebooks"@, "笔记本概览"@, NOTEBOOKS_DESCRIPTION@, "medium"@)
        && capability_entry(cs@[2], "reading.stats"@, "阅读统计"@, STATS_DESCRIPTION@, "low"@)
        && capability_entry(cs@[3], "notes.bookmarks"@, "划线"@, BOOKMARKS_DESCRIPTION@, "high"@)
        && capability_entry(cs@[4], "notes.reviews"@, "想法和点评"@, REVIEWS_DESCRIPTION@, "high"@))
}

pub fn capabilities_json(template: &BuiltinAdvancedTemplate) -> (j: Json)
    ensures
        capabilities_file(j, template.view()),
{
    let mut pd: Vec<JsonMember> = Vec::new();
    pd.push(text_member_of("mode", "file-workspace"));
    pd.push(text_member_of("cache", "prefer"));
    pd.push(text_member_of("firstPass", FIRST_PASS));
    let mut cs: Vec<Json> = Vec::new();
    cs.push(capability_json("shelf.sync", "书架", SHELF_DESCRIPTION, "medium"));
    cs.push(capability_json("notes.notebooks", "笔记本概览", NOTEBOOKS_DESCRIPTION, "medium"));
    cs.push(capability_json("reading.stats", "阅读统计", STATS_DESCRIPTION, "low"));
    cs.push(capability_json("notes.bookmarks", "划线", BOOKMARKS_DESCRIPTION, "high"));
    cs.push(capability_json("notes.reviews", "想法和点评", REVIEWS_DESCRIPTION, "high"));
    let mut ms: Vec<JsonMember> = Vec::new();
    ms.push(member_of("version", Json::Int(1)));
    ms.push(member_of("progressiveDisclosure", Json::Object(pd)));
    ms.push(member_of("defaultCapabilities", texts_json(&template.default_capabilities)));
    ms.push(member_of("optionalCapabilities", texts_json(&template.optional_capabilities)));
    ms.push(member_of("capabilities", Json::Array(cs)));
    Json::Object(ms)
}

/// The user's policy for a job (`user-policy.json`).
pub open spec fn user_policy(j: Json, raw_notes_consent: bool, user_prompt: Seq<char>) -> bool {
    let ms = members(j);
    &&& j is Object
    &&& ms.len() == 3
    &&& member_is(ms[0], "rawNotesConsent"@, Json::Bool(raw_notes_consent))
    &&& member_is(ms[1], "customRequirementProvided"@, Json::Bool(user_prompt.len() > 0))
    &&& ms[2].key@ == "privacy"@ && ms[2].value is Object && members(ms[2].value).len() == 1
        && member_is(members(ms[2].value)[0], "doNotInventUserData"@, Json::Bool(true))
}

pub fn user_policy_json(raw_notes_consent: bool, user_prompt: &str) -> (j: Json)
    ensures
        user_policy(j, raw_notes_consent, user_prompt@),
{
    let given = crate::text::chars_of(user_prompt).len() > 0;
    let mut privacy: Vec<JsonMember> = Vec::new();
    privacy.push(member_of("doNotInventUserData", Json::Bool(true)));
    let mut ms: Vec<JsonMember> = Vec::new();
    ms.push(member_of("rawNotesConsent", Json::Bool(raw_notes_consent)));
    ms.push(member_of("customRequirementProvided", Json::Bool(given)));
    ms.push(member_of("privacy", Json::Object(privacy)));
    Json::Object(ms)
}

/// What a user's requirements may not override.
pub open spec fn protected_rules() -> Seq<Seq<char>> {
    seq!["privacy"@, "workspaceReadBoundary"@, "networkDisabled"@, "mustWriteOutputFiles"@, "rawNotesConsent"@]
}

/// The generation settings of a job (`generation-settings.json`).
pub open spec fn generation_settings(
    j: Json,
    local_context: Json,
    report_period: Seq<char>,
    shape: ShapeView,
    user_prompt: Seq<char>,
) -> bool {
    let ms = members(j);
    &&& j is Object
    &&& ms.len() == 6
    &&& member_is(ms[0], "version"@, Json::Int(1))
    &&& member_is(ms[1], "localTimeContext"@, local_context)
    &&& ms[2].key@ == "reportPeriod"@ && ms[2].value is Object && members(ms[2].value).len() == 2
        && text_member(members(ms[2].value)[0], "id"@, report_period) && text_member(
        members(ms[2].value)[1],
        "label"@,
        crate::period::period_label(report_period),
    )
    &&& ms[3].key@ == "outputShape"@ && named_object(ms[3].value, shape.id, shape.name, shape.description)
    &&& ms[4].key@ == "userPromptPath"@ && (if user_prompt.len() == 0 {
        ms[4].value is Null
    } else {
        is_text(ms[4].value, "input/user-prompt.md"@)
    })
    &&& ms[5].key@ == "userPromptPolicy"@ && ms[5].value is Object && members(ms[5].value).len() == 2
        && text_member(members(ms[5].value)[0], "role"@, "preference"@) && members(ms[5].value)[1].key@
        == "cannotOverride"@ && is_texts(members(ms[5].value)[1].value, protected_rules())
}

pub fn generation_settings_json(
    local_context: Json,
    report_period: &str,
    output_shape: &BuiltinOutputShape,
    user_prompt: &str,
) -> (j: Json)
    ensures
        generation_settings(j, local_context, report_period@, output_shape.view(), user_prompt@),
{
    let ghost lc = local_context;
    let mut period: Vec<JsonMember> = Vec::new();
    period.push(text_member_of("id", report_period));
    period.push(text_member_of("label", crate::period::report_period_label(report_period)));
    let path = if crate::text::chars_of(user_prompt).len() == 0 {
        Json::Null
    } else {
        text_json("input/user-prompt.md")
    };
    let rules: Vec<&str> = vec![
        "privacy",
        "workspaceReadBoundary",
        "networkDisabled",
        "mustWriteOutputFiles",
        "rawNotesConsent",
    ];
    let rules_json = texts_json(&rules);
    proof {
        assert(rules@.map_values(|s: &str| s@) =~= protected_rules());
    }
    let mut policy: Vec<JsonMember> = Vec::new();
    policy.push(text_member_of("role", "preference"));
    policy.push(member_of("cannotOverride", rules_json));
    let mut ms: Vec<JsonMember> = Vec::new();
    ms.push(member_of("version", Json::Int(1)));
    ms.push(member_of("localTimeContext", local_context));
    ms.push(member_of("reportPeriod", Json::Object(period)));
    ms.push(member_of("outputShape", shape_json(output_shape)));
    ms.push(member_of("userPromptPath", path));
    ms.push(member_of("userPromptPolicy", Json::Object(policy)));
    Json::Object(ms)
}

/// An entry of the data index: a file under `data/` and its size.
pub open spec fn data_index_entry(j: Json, relative_path: Seq<char>, bytes: u64) -> bool {
    let ms = members(j);
    &&& j is Object
    &&& ms.len() == 2
    &&& text_member(ms[0], "path"@, "data/"@ + relative_path)
    &&& member_is(ms[1], "bytes"@, crate::large_result::count_value(bytes as nat))
}

pub fn data_index_entry_json(relative_path: &str, bytes: u64) -> (j: Json)
    ensures
        data_index_entry(j, relative_path@, bytes),
{
    let mut path = owned("data/");
    push_str(&mut path, relative_path);
    let size = if bytes <= i64::MAX as u64 {
        Json::Int(bytes as i64)
    } else {
        Json::UInt(bytes)
    };
    let mut ms: Vec<JsonMember> = Vec::new();
    ms.push(member_of("path", Json::Str(path)));
    ms.push(member_of("bytes", size));
    Json::Object(ms)
}

/// The cache index of a job (`cache-index.json`).
pub open spec fn cache_index(j: Json, created_at: Seq<char>, data_files: Seq<Json>) -> bool {
    let ms = members(j);
    &&& j is Object
    &&& ms.len() == 4
    &&& member_is(ms[0], "version"@, Json::Int(1))
    &&& text_member(ms[1], "strategy"@, "prefer-cache"@)
    &&& text_member(ms[2], "generatedAt"@, created_at)
    &&& ms[3].key@ == "dataFiles"@ && (ms[3].value matches Json::Array(v) && v@ == data_files)
}

pub fn cache_index_json(created_at: &str, data_files: Vec<Json>) -> (j: Json)
    ensures
        cache_index(j, created_at@, data_files@),
{
    let mut ms: Vec<JsonMember> = Vec::new();
    ms.push(member_of("version", Json::Int(1)));
    ms.push(text_member_of("strategy", "prefer-cache"));
    ms.push(text_member_of("generatedAt", created_at));
    ms.push(member_of("dataFiles", Json::Array(data_files)));
    Json::Object(ms)
}

/// The local time as a job records it.
pub struct LocalTime {
    pub iso: String,
    pub display: String,
    pub date: String,
    pub year: i64,
    pub month: i64,
    pub day: i64,
    pub timezone: String,
}

pub const TIME_REFERENCE: &'static str = "Use this local computer time to interpret today, this month, last month, this year, and last year.";

/// The local time context of a job.
pub open spec fn local_time_context(j: Json, t: LocalTime) -> bool {
    let ms = members(j);
    &&& j is Object
    &&& ms.len() == 8
    &&& text_member(ms[0], "iso"@, t.iso@)
    &&& text_member(ms[1], "display"@, t.display@)
    &&& text_member(ms[2], "date"@, t.date@)
    &&& member_is(ms[3], "year"@, Json::Int(t.year))
    &&& member_is(ms[4], "month"@, Json::Int(t.month))
    &&& member_is(ms[5], "day"@, Json::Int(t.day))
    &&& text_member(ms[6], "timezone"@, t.timezone@)
    &&& text_member(ms[7], "relativeTimeReference"@, TIME_REFERENCE@)
}

pub fn local_time_context_of(t: &LocalTime) -> (j: Json)
    ensures
        local_time_context(j, *t),
{
    let mut ms: Vec<JsonMember> = Vec::new();
    ms.push(text_member_of("iso", t.iso.as_str()));
    ms.push(text_member_of("display", t.display.as_str()));
    ms.push(text_member_of("date", t.date.as_str()));
    ms.push(member_of("year", Json::Int(t.year)));
    ms.push(member_of("month", Json::Int(t.month)));
    ms.push(member_of("day", Json::Int(t.day)));
    ms.push(text_member_of("timezone", t.timezone.as_str()));
    ms.push(text_member_of("relativeTimeReference", TIME_REFERENCE));
    Json::Object(ms)
}

/// The last decimal digit of a number, as a character.
pub open spec fn digit_char(n: int) -> char {
    ((n % 10) + 48) as char
}

/// A number's last `width` decimal digits, zero-padded.
pub open spec fn padded(n: int, width: nat) -> Seq<char>
    decreases width,
{
    if width == 0 {
        Seq::empty()
    } else {
        padded(n / 10, (width - 1) as nat).push(digit_char(n))
    }
}

/// A date as `%Y-%m-%d` writes it for a year of four digits.
pub open spec fn ymd_text(year: int, month: int, day: int) -> Seq<char> {
    padded(year, 4) + "-"@ + padded(month, 2) + "-"@ + padded(day, 2)
}

/// An offset from UTC as `%:z` writes it: a sign, two digits of hours, a
/// colon and two digits of minutes.
pub open spec fn offset_form(z: Seq<char>) -> bool {
    &&& z.len() == 6
    &&& (z[0] == '+' || z[0] == '-')
    &&& crate::text::is_digit(z[1])
    &&& crate::text::is_digit(z[2])
    &&& z[3] == ':'
    &&& crate::text::is_digit(z[4])
    &&& crate::text::is_digit(z[5])
}

/// What holds of every local time chrono gives: a real month and day, an
/// offset of the form `±HH:MM`, and, for a year of four digits, the date
/// written as `YYYY-MM-DD` and both full texts beginning with it.
pub open spec fn valid_local_time(t: LocalTime) -> bool {
    &&& 1 <= t.month <= 12
    &&& 1 <= t.day <= 31
    &&& offset_form(t.timezone@)
    &&& (0 <= t.year <= 9999 ==> {
        &&& t.date@ == ymd_text(t.year as int, t.month as int, t.day as int)
        &&& t.iso@.len() >= 10
        &&& t.iso@.take(10) == t.date@
        &&& t.display@.len() >= 10
        &&& t.display@.take(10) == t.date@
    })
}

/// `chrono::Local::now()` as a job records it: RFC 3339, `%Y-%m-%d
/// %H:%M:%S %:z`, `%Y-%m-%d`, year, month, day and `%:z`. Which moment it
/// is and in which time zone is not stated; the forms chrono writes are.
#[verifier::external_body]
fn local_time_now() -> (t: LocalTime)
    ensures
        valid_local_time(t),
{
    let now = chrono::Local::now();
    LocalTime {
        iso: now.to_rfc3339(),
        display: now.format("%Y-%m-%d %H:%M:%S %:z").to_string(),
        date: now.format("%Y-%m-%d").to_string(),
        year: i64::from(now.year()),
        month: i64::from(now.month()),
        day: i64::from(now.day()),
        timezone: now.format("%:z").to_string(),
    }
}

/// The local time context now: a valid local time in the job's layout.
pub fn local_time_context_json() -> (j: Json)
    ensures
        exists|t: LocalTime| local_time_context(j, t) && valid_local_time(t),
{
    let t = local_time_now();
    local_time_context_of(&t)
}

/// A text two levels down in the generation settings, when it is there.
pub open spec fn nested_text(settings: Option<Json>, outer: Seq<char>, inner: Seq<char>) -> Option<Seq<char>> {
    match settings {
        Some(v) => match get(v, outer) {
            Some(o) => as_str(get(o, inner)),
            None => None,
        },
        None => None,
    }
}

fn nested_text_of(settings: Option<&Json>, outer: &str, inner: &str) -> (r: Option<String>)
    ensures
        crate::tasks::opt_view(r) == nested_text(
            match settings {
                Some(v) => Some(*v),
                None => None,
            },
            outer@,
            inner@,
        ),
{
    match settings {
        Some(v) => match v.get(outer) {
            Some(o) => match o.get(inner) {
                Some(t) => match t.as_str() {
                    Some(x) => Some(owned(x)),
                    None => None,
                },
                None => None,
            },
            None => None,
        },
        None => None,
    }
}

/// What a job's generation settings say of its shape and period (`None`
/// for settings that could not be read).
pub fn read_generation_settings(settings: Option<&Json>) -> (g: crate::tasks::GenerationSettings)
    ensures
        ({
            let s = match settings {
                Some(v) => Some(*v),
                None => None,
            };
            &&& crate::tasks::opt_view(g.output_shape) == nested_text(s, "outputShape"@, "id"@)
            &&& crate::tasks::opt_view(g.output_shape_name) == nested_text(s, "outputShape"@, "name"@)
            &&& crate::tasks::opt_view(g.report_period) == nested_text(s, "reportPeriod"@, "id"@)
            &&& crate::tasks::opt_view(g.report_period_label) == nested_text(s, "reportPeriod"@, "label"@)
        }),
{
    crate::tasks::GenerationSettings {
        output_shape: nested_text_of(settings, "outputShape", "id"),
        output_shape_name: nested_text_of(settings, "outputShape", "name"),
        report_period: nested_text_of(settings, "reportPeriod", "id"),
        report_period_label: nested_text_of(settings, "reportPeriod", "label"),
    }
}

} // verus!
