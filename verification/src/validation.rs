//! Quality checks run on a generated advanced report before it is shown.
use crate::text::{chars_of, contains_seq, has_text, owned};
use vstd::prelude::*;

verus! {

/// The outcome of the quality checks on one generated report.
pub struct AdvancedReportValidation {
    pub ok: bool,
    pub warnings: Vec<String>,
}

impl AdvancedReportValidation {
    /// The warnings as character sequences.
    pub open spec fn warning_views(&self) -> Seq<Seq<char>> {
        self.warnings@.map_values(|w: String| w@)
    }
}

/// What `str::to_lowercase` returns for a string: its lower-case form as
/// Unicode defines it (a final capital sigma depends on its neighbours).
pub uninterp spec fn lowercase(s: Seq<char>) -> Seq<char>;

/// `str::to_lowercase`: the string in lower case.
#[verifier::external_body]
fn to_lowercase_chars(s: &str) -> (r: Vec<char>)
    ensures
        r@ == lowercase(s@),
{
    s.to_lowercase().chars().collect()
}

pub const W_MISSING: &'static str = "缺少报告";
pub const W_SHORT: &'static str = "分析版内容偏短，可能不完整";
pub const W_NO_YOU: &'static str = "分析版没有使用“你”作为报告主语";
pub const W_THIRD_PERSON: &'static str = "分析版仍包含第三人称用户称呼";
pub const W_NO_GITHUB: &'static str = "分析版缺少开源项目 GitHub 地址";
pub const W_NO_SOURCE: &'static str = "分析版缺少微信读书官方 Skill 数据来源说明";
pub const W_WEAK_EVIDENCE: &'static str = "分析版证据链偏弱，主要结论可能缺少数据依据";
pub const W_LOCAL_PATH: &'static str = "报告 HTML 暴露或引用了本地文件路径，可能触发浏览器 file 安全限制";
pub const W_EMBED: &'static str = "报告 HTML 包含嵌入式 frame/object/embed，本地 file 打开时容易触发安全限制";
pub const W_SCRIPT_LOAD: &'static str = "报告 HTML 可能通过脚本读取或跳转本地文件，需改为自包含单文件";
pub const W_XHS_CARDS: &'static str = "小红书图文风格缺少卡片化或截图友好的结构提示";
pub const W_XHS_GRID: &'static str = "小红书图文风格缺少多列卡片画廊，容易退化成单列长页面";
pub const W_XHS_RATIO: &'static str = "小红书图文风格缺少 3:4 截图卡片比例，单张卡片不够稳定";
pub const W_XHS_COVER: &'static str = "小红书图文风格缺少封面卡或页码，截图成组后不利于传播";
pub const W_SLIDE_MARKERS: &'static str = "PPT 风格缺少演示页式结构提示";
pub const W_SLIDE_CLICK: &'static str = "PPT 风格只检测到键盘切换，缺少鼠标点击翻页绑定";
pub const W_SLIDE_WHEEL: &'static str = "PPT 风格缺少鼠标滚轮或触控板滑动翻页支持";
pub const W_SLIDE_THROTTLE: &'static str = "PPT 风格的滚轮/触控板翻页缺少节流，容易一次滑动连续翻多页";
pub const W_SLIDE_DIRECTION: &'static str = "PPT 风格滚轮方向反直觉，应向下滑动进入下一页、向上滑动回到上一页";
pub const W_SLIDE_STAGE: &'static str = "PPT 风格缺少固定 16:9 舞台，容易在不同屏幕尺寸下溢出";
pub const W_SLIDE_HIDDEN: &'static str = "PPT 风格缺少非当前页隐藏态，上一页/下一页内容可能残留叠在当前页上";
pub const W_SLIDE_CLEANUP: &'static str = "PPT 风格切页逻辑缺少全量清理 slide 状态，容易只做单向动画导致页面叠层";
pub const W_SLIDE_ENTRY: &'static str = "PPT 风格缺少统一切页入口，键盘/按钮/滚轮分散更新状态时容易出现上一页或下一页残影";
pub const W_SLIDE_EXIT: &'static str = "PPT 风格使用了离场动画状态，但缺少动画结束后的清理逻辑，可能留下上一页残影";
pub const W_SLIDE_LAYOUT: &'static str = "PPT 风格缺少明确版式池，模型容易逐页自由发挥导致风格漂移";
pub const W_SLIDE_CALC: &'static str = "PPT 风格舞台尺寸 CSS 使用了浏览器不兼容的 calc 写法，应改为合法空格和无乘除法表达式";
pub const W_SLIDE_SAFE_AREA: &'static str = "PPT 风格底部控制条缺少内容安全区，可能遮挡最后一行内容";
pub const W_SLIDE_KEYS: &'static str = "PPT 风格快捷键提示和实际按键绑定不一致";
pub const W_SLIDE_SCROLL: &'static str = "PPT 风格主要内容依赖滚动阅读，应拆成更多固定比例页面";

/// A one-element list holding `m` when `c` holds, else the empty list.
pub open spec fn pick(c: bool, m: &str) -> Seq<Seq<char>> {
    if c {
        seq![m@]
    } else {
        seq![]
    }
}

/// Shorthand for `contains_seq` with a literal pattern.
pub open spec fn c(h: Seq<char>, p: &str) -> bool {
    contains_seq(h, p@)
}

pub open spec fn hit(h: Seq<char>, p: &str) -> int {
    if c(h, p) {
        1
    } else {
        0
    }
}

/// How many of the evidence words the report uses.
pub open spec fn evidence_hits(h: Seq<char>) -> int {
    hit(h, "证据") + hit(h, "依据") + hit(h, "来自") + hit(h, "数据") + hit(h, "阅读时长") + hit(
        h,
        "笔记",
    ) + hit(h, "划线") + hit(h, "想法")
}

pub open spec fn has_local_path(h: Seq<char>) -> bool {
    c(h, "file://") || c(h, "/Users/") || c(h, "/.weread-desktop/") || c(h, "\\Users\\") || c(
        h,
        "C:\\",
    )
}

pub open spec fn has_embedded_frame(lower: Seq<char>) -> bool {
    c(lower, "<iframe") || c(lower, "<object") || c(lower, "<embed")
}

pub open spec fn has_loading_script(h: Seq<char>) -> bool {
    c(h, "fetch(") || c(h, "XMLHttpRequest") || c(h, "window.open(") || c(h, "location.href") || c(
        h,
        "location.assign",
    ) || c(h, "location.replace")
}

/// The first checks every report goes through, in order.
pub open spec fn base_first(h: Seq<char>) -> Seq<Seq<char>> {
    Seq::<Seq<char>>::empty() + pick(h.len() < 12000, W_SHORT) + pick(!c(h, "你"), W_NO_YOU) + pick(
        c(h, "这个用户") || c(h, "该用户"),
        W_THIRD_PERSON,
    ) + pick(!c(h, "https://github.com/Duosl/weread-skill-desktop"), W_NO_GITHUB) + pick(
        !c(h, "微信读书官方 Skill"),
        W_NO_SOURCE,
    ) + pick(evidence_hits(h) < 3, W_WEAK_EVIDENCE)
}

/// The checks for local paths and embedded or loaded local content.
pub open spec fn base_second(h: Seq<char>, lower: Seq<char>) -> Seq<Seq<char>> {
    Seq::<Seq<char>>::empty() + pick(has_local_path(h), W_LOCAL_PATH) + pick(has_embedded_frame(lower), W_EMBED) + pick(
        has_loading_script(h) && has_local_path(h),
        W_SCRIPT_LOAD,
    )
}

pub open spec fn has_xhs_output(h: Seq<char>) -> bool {
    c(h, "小红书") || c(h, "xiaohongshu") || c(h, "xhs") || c(h, "图文卡") || c(h, "轮播")
}

pub open spec fn has_xhs_markers(h: Seq<char>) -> bool {
    c(h, "卡片") || c(h, "截图") || c(h, "图文") || c(h, "轮播")
}

pub open spec fn has_xhs_grid(h: Seq<char>) -> bool {
    c(h, "grid-template-columns") || c(h, "columns:") || c(h, "column-count") || c(h, "masonry")
}

pub open spec fn has_xhs_ratio(h: Seq<char>) -> bool {
    c(h, "aspect-ratio: 3 / 4") || c(h, "aspect-ratio:3/4") || c(h, "1080") || c(h, "1440")
}

pub open spec fn has_xhs_cover(h: Seq<char>) -> bool {
    c(h, "封面") || c(h, "cover") || c(h, "Cover")
}

pub open spec fn has_xhs_page_number(h: Seq<char>) -> bool {
    c(h, "页码") || c(h, "page") || c(h, "Page") || c(h, "card-index")
}

/// The checks on the shareable card-gallery style, in order.
pub open spec fn xhs_warnings(h: Seq<char>) -> Seq<Seq<char>> {
    Seq::<Seq<char>>::empty() + pick(c(h, "小红书") && !has_xhs_markers(h), W_XHS_CARDS) + pick(
        has_xhs_output(h) && !has_xhs_grid(h),
        W_XHS_GRID,
    ) + pick(has_xhs_output(h) && !has_xhs_ratio(h), W_XHS_RATIO) + pick(
        has_xhs_output(h) && (!has_xhs_cover(h) || !has_xhs_page_number(h)),
        W_XHS_COVER,
    )
}

pub open spec fn has_slide_markers(h: Seq<char>) -> bool {
    c(h, "PPT") || c(h, "演示") || c(h, "第 1 屏") || c(h, "第一屏") || c(h, "Slide") || c(h, "slide")
        || c(h, "全屏") || c(h, "下一页") || c(h, "上一页") || c(h, "keydown") || c(
        h,
        "requestFullscreen",
    ) || c(h, "aspect-ratio")
}

pub open spec fn has_slide_output(h: Seq<char>) -> bool {
    c(h, "PPT 风格") || c(h, "全屏演示") || c(h, "上一页") || c(h, "下一页") || c(h, "requestFullscreen")
}

pub open spec fn has_wheel_turning(h: Seq<char>) -> bool {
    c(h, "wheel") || c(h, "deltaY") || c(h, "deltaX") || c(h, "onwheel")
}

pub open spec fn has_wheel_throttle(h: Seq<char>) -> bool {
    c(h, "throttle") || c(h, "wheelLock") || c(h, "lastWheel") || c(h, "setTimeout") || c(
        h,
        "Date.now()",
    )
}

pub open spec fn has_reversed_wheel(h: Seq<char>) -> bool {
    c(h, "deltaY < 0) next") || c(h, "deltaY<0)next") || c(h, "deltaY < 0 ? next") || c(
        h,
        "deltaY<0?next",
    )
}

pub open spec fn has_hidden_state(h: Seq<char>) -> bool {
    (c(h, "display: none") || c(h, "display:none")) || ((c(h, "visibility: hidden") || c(
        h,
        "visibility:hidden",
    )) && (c(h, "opacity: 0") || c(h, "opacity:0")))
}

pub open spec fn has_pointer_guard(h: Seq<char>) -> bool {
    c(h, "pointer-events: none") || c(h, "pointer-events:none")
}

pub open spec fn has_state_cleanup(h: Seq<char>) -> bool {
    (c(h, "slides.forEach") || c(h, ".forEach((slide") || c(h, "classList.remove")) && c(
        h,
        "aria-hidden",
    ) && (c(h, "classList.toggle") || c(h, "classList.remove") || c(h, "className"))
}

pub open spec fn has_single_entry(h: Seq<char>) -> bool {
    c(h, "goTo(") || c(h, "renderSlides(") || c(h, "showSlide(") || c(h, "updateSlide(")
}

pub open spec fn has_exit_cleanup(h: Seq<char>) -> bool {
    c(h, "animationend") || c(h, "transitionend") || c(h, "setTimeout")
}

pub open spec fn has_layout_pool(h: Seq<char>) -> bool {
    c(h, "版式") || c(h, "layout") || c(h, "Layout") || c(h, "data-layout") || c(h, "slide-type")
}

pub open spec fn has_bad_calc(h: Seq<char>) -> bool {
    ((c(h, "100vh-") || c(h, "100vw-") || c(h, "-96px") || c(h, "- 96px")) && !c(
        h,
        "100vh - 96px",
    )) || (c(h, "*16/9") || c(h, "* 16/9") || c(h, "*16 / 9") || c(h, "* 16 / 9") || c(h, "/9)")
        || c(h, "/ 9)"))
}

pub open spec fn has_fixed_controls(h: Seq<char>) -> bool {
    c(h, "position:fixed") || c(h, "position: fixed") || c(h, "position:sticky") || c(
        h,
        "position: sticky",
    )
}

pub open spec fn has_safe_area(h: Seq<char>) -> bool {
    c(h, "padding-bottom") || c(h, "calc(100vh") || c(h, "safe-area") || c(h, "bottom-spacer")
}

pub open spec fn mentions_down_key(h: Seq<char>) -> bool {
    c(h, "下键") || c(h, "ArrowDown") || c(h, "↓") || c(h, "向下")
}

pub open spec fn handles_down_key(h: Seq<char>) -> bool {
    c(h, "ArrowDown") || c(h, "key === 'Down'") || c(h, "key===\"Down\"") || c(h, "keyCode === 40")
        || c(h, "keyCode==40")
}

pub open spec fn depends_on_scrolling(h: Seq<char>) -> bool {
    (c(h, "overflow-y: auto") || c(h, "overflow: auto")) && !c(h, "speaker-notes") && !c(
        h,
        "appendix",
    )
}

/// The first half of the checks on the slide-deck style, in order.
pub open spec fn slide_first(h: Seq<char>) -> Seq<Seq<char>> {
    let s = has_slide_output(h);
    Seq::<Seq<char>>::empty() + pick(c(h, "PPT 风格") && !has_slide_markers(h), W_SLIDE_MARKERS) + pick(
        s && c(h, "keydown") && !c(h, "click"),
        W_SLIDE_CLICK,
    ) + pick(s && !has_wheel_turning(h), W_SLIDE_WHEEL) + pick(
        s && has_wheel_turning(h) && !has_wheel_throttle(h),
        W_SLIDE_THROTTLE,
    ) + pick(s && has_reversed_wheel(h), W_SLIDE_DIRECTION) + pick(
        s && !c(h, "aspect-ratio"),
        W_SLIDE_STAGE,
    ) + pick(s && (!has_hidden_state(h) || !has_pointer_guard(h)), W_SLIDE_HIDDEN) + pick(
        s && !has_state_cleanup(h),
        W_SLIDE_CLEANUP,
    )
}

/// The second half of the checks on the slide-deck style, in order.
pub open spec fn slide_second(h: Seq<char>) -> Seq<Seq<char>> {
    let s = has_slide_output(h);
    Seq::<Seq<char>>::empty() + pick(s && !has_single_entry(h), W_SLIDE_ENTRY) + pick(
        s && c(h, "is-exiting") && !has_exit_cleanup(h),
        W_SLIDE_EXIT,
    ) + pick(s && !has_layout_pool(h), W_SLIDE_LAYOUT) + pick(s && has_bad_calc(h), W_SLIDE_CALC)
        + pick(s && has_fixed_controls(h) && !has_safe_area(h), W_SLIDE_SAFE_AREA) + pick(
        s && mentions_down_key(h) && !handles_down_key(h),
        W_SLIDE_KEYS,
    ) + pick(s && depends_on_scrolling(h), W_SLIDE_SCROLL)
}

/// All warnings for a report given by its text and its lower-cased text.
pub open spec fn report_warnings(h: Seq<char>, lower: Seq<char>) -> Seq<Seq<char>> {
    base_first(h) + base_second(h, lower) + xhs_warnings(h) + slide_first(h) + slide_second(h)
}

/// The warnings `validate_output` gives for an optional report.
pub open spec fn output_warnings(report: Option<Seq<char>>) -> Seq<Seq<char>> {
    match report {
        Some(h) => report_warnings(h, lowercase(h)),
        None => seq![W_MISSING@],
    }
}

/// Every message of a list is longer than the missing-report warning.
pub open spec fn all_long(ws: Seq<Seq<char>>) -> bool {
    forall|i: int| 0 <= i < ws.len() ==> #[trigger] ws[i].len() > 4
}

proof fn lemma_long_concat(a: Seq<Seq<char>>, b: Seq<Seq<char>>)
    requires
        all_long(a),
        all_long(b),
    ensures
        all_long(a + b),
{
    assert forall|i: int| 0 <= i < (a + b).len() implies #[trigger] (a + b)[i].len() > 4 by {
        if i < a.len() {
            assert((a + b)[i] == a[i]);
        } else {
            assert((a + b)[i] == b[i - a.len()]);
        }
    }
}

proof fn lemma_base_first_long(h: Seq<char>)
    ensures
        all_long(base_first(h)),
{
    reveal_strlit("分析版内容偏短，可能不完整");
    reveal_strlit("分析版没有使用“你”作为报告主语");
    reveal_strlit("分析版仍包含第三人称用户称呼");
    reveal_strlit("分析版缺少开源项目 GitHub 地址");
    reveal_strlit("分析版缺少微信读书官方 Skill 数据来源说明");
    reveal_strlit("分析版证据链偏弱，主要结论可能缺少数据依据");
    assert forall|i: int| 0 <= i < base_first(h).len() implies #[trigger] base_first(h)[i].len() > 4 by {
    }
}

proof fn lemma_base_second_long(h: Seq<char>, lower: Seq<char>)
    ensures
        all_long(base_second(h, lower)),
{
    reveal_strlit("报告 HTML 暴露或引用了本地文件路径，可能触发浏览器 file 安全限制");
    reveal_strlit("报告 HTML 包含嵌入式 frame/object/embed，本地 file 打开时容易触发安全限制");
    reveal_strlit("报告 HTML 可能通过脚本读取或跳转本地文件，需改为自包含单文件");
    assert forall|i: int| 0 <= i < base_second(h, lower).len() implies #[trigger] base_second(h, lower)[i].len() > 4 by {
    }
}

proof fn lemma_xhs_warnings_long(h: Seq<char>)
    ensures
        all_long(xhs_warnings(h)),
{
    reveal_strlit("小红书图文风格缺少卡片化或截图友好的结构提示");
    reveal_strlit("小红书图文风格缺少多列卡片画廊，容易退化成单列长页面");
    reveal_strlit("小红书图文风格缺少 3:4 截图卡片比例，单张卡片不够稳定");
    reveal_strlit("小红书图文风格缺少封面卡或页码，截图成组后不利于传播");
    assert forall|i: int| 0 <= i < xhs_warnings(h).len() implies #[trigger] xhs_warnings(h)[i].len() > 4 by {
    }
}

proof fn lemma_slide_first_long(h: Seq<char>)
    ensures
        all_long(slide_first(h)),
{
    reveal_strlit("PPT 风格缺少演示页式结构提示");
    reveal_strlit("PPT 风格只检测到键盘切换，缺少鼠标点击翻页绑定");
    reveal_strlit("PPT 风格缺少鼠标滚轮或触控板滑动翻页支持");
    reveal_strlit("PPT 风格的滚轮/触控板翻页缺少节流，容易一次滑动连续翻多页");
    reveal_strlit("PPT 风格滚轮方向反直觉，应向下滑动进入下一页、向上滑动回到上一页");
    reveal_strlit("PPT 风格缺少固定 16:9 舞台，容易在不同屏幕尺寸下溢出");
    reveal_strlit("PPT 风格缺少非当前页隐藏态，上一页/下一页内容可能残留叠在当前页上");
    reveal_strlit("PPT 风格切页逻辑缺少全量清理 slide 状态，容易只做单向动画导致页面叠层");
    assert forall|i: int| 0 <= i < slide_first(h).len() implies #[trigger] slide_first(h)[i].len() > 4 by {
    }
}

proof fn lemma_slide_second_long(h: Seq<char>)
    ensures
        all_long(slide_second(h)),
{
    reveal_strlit("PPT 风格缺少统一切页入口，键盘/按钮/滚轮分散更新状态时容易出现上一页或下一页残影");
    reveal_strlit("PPT 风格使用了离场动画状态，但缺少动画结束后的清理逻辑，可能留下上一页残影");
    reveal_strlit("PPT 风格缺少明确版式池，模型容易逐页自由发挥导致风格漂移");
    reveal_strlit("PPT 风格舞台尺寸 CSS 使用了浏览器不兼容的 calc 写法，应改为合法空格和无乘除法表达式");
    reveal_strlit("PPT 风格底部控制条缺少内容安全区，可能遮挡最后一行内容");
    reveal_strlit("PPT 风格快捷键提示和实际按键绑定不一致");
    reveal_strlit("PPT 风格主要内容依赖滚动阅读，应拆成更多固定比例页面");
    assert forall|i: int| 0 <= i < slide_second(h).len() implies #[trigger] slide_second(h)[i].len() > 4 by {
    }
}

/// The warning that no report was written comes exactly when there is no
/// report: alone then, and never for a report that exists.
pub proof fn law_missing_report_warning(h: Seq<char>)
    ensures
        output_warnings(None) == seq![W_MISSING@],
        !output_warnings(Some(h)).contains(W_MISSING@),
{
    reveal_strlit("缺少报告");
    let l = lowercase(h);
    lemma_base_first_long(h);
    lemma_base_second_long(h, l);
    lemma_xhs_warnings_long(h);
    lemma_slide_first_long(h);
    lemma_slide_second_long(h);
    lemma_long_concat(base_first(h), base_second(h, l));
    lemma_long_concat(base_first(h) + base_second(h, l), xhs_warnings(h));
    lemma_long_concat(base_first(h) + base_second(h, l) + xhs_warnings(h), slide_first(h));
    lemma_long_concat(base_first(h) + base_second(h, l) + xhs_warnings(h) + slide_first(h), slide_second(h));
    let w = output_warnings(Some(h));
    if w.contains(W_MISSING@) {
        let i = choose|i: int| 0 <= i < w.len() && w[i] == W_MISSING@;
        assert(w[i].len() > 4);
    }
}

/// The message of the check at position `k`, in the order the checks run.
pub open spec fn check_message(k: int) -> Seq<char> {
    if k == 0 {
        W_SHORT@
    } else if k == 1 {
        W_NO_YOU@
    } else if k == 2 {
        W_THIRD_PERSON@
    } else if k == 3 {
        W_NO_GITHUB@
    } else if k == 4 {
        W_NO_SOURCE@
    } else if k == 5 {
        W_WEAK_EVIDENCE@
    } else if k == 6 {
        W_LOCAL_PATH@
    } else if k == 7 {
        W_EMBED@
    } else if k == 8 {
        W_SCRIPT_LOAD@
    } else if k == 9 {
        W_XHS_CARDS@
    } else if k == 10 {
        W_XHS_GRID@
    } else if k == 11 {
        W_XHS_RATIO@
    } else if k == 12 {
        W_XHS_COVER@
    } else if k == 13 {
        W_SLIDE_MARKERS@
    } else if k == 14 {
        W_SLIDE_CLICK@
    } else if k == 15 {
        W_SLIDE_WHEEL@
    } else if k == 16 {
        W_SLIDE_THROTTLE@
    } else if k == 17 {
        W_SLIDE_DIRECTION@
    } else if k == 18 {
        W_SLIDE_STAGE@
    } else if k == 19 {
        W_SLIDE_HIDDEN@
    } else if k == 20 {
        W_SLIDE_CLEANUP@
    } else if k == 21 {
        W_SLIDE_ENTRY@
    } else if k == 22 {
        W_SLIDE_EXIT@
    } else if k == 23 {
        W_SLIDE_LAYOUT@
    } else if k == 24 {
        W_SLIDE_CALC@
    } else if k == 25 {
        W_SLIDE_SAFE_AREA@
    } else if k == 26 {
        W_SLIDE_KEYS@
    } else {
        W_SLIDE_SCROLL@
    }
}

/// The messages of a report's checks, in the order the checks run.
pub open spec fn check_messages() -> Seq<Seq<char>> {
    Seq::new(28, |k: int| check_message(k))
}

/// Whether the check at position `k` raises its warning for a report.
pub open spec fn check_result(h: Seq<char>, lower: Seq<char>, k: int) -> bool {
    if k == 0 {
        h.len() < 12000
    } else if k == 1 {
        !c(h, "你")
    } else if k == 2 {
        c(h, "这个用户") || c(h, "该用户")
    } else if k == 3 {
        !c(h, "https://github.com/Duosl/weread-skill-desktop")
    } else if k == 4 {
        !c(h, "微信读书官方 Skill")
    } else if k == 5 {
        evidence_hits(h) < 3
    } else if k == 6 {
        has_local_path(h)
    } else if k == 7 {
        has_embedded_frame(lower)
    } else if k == 8 {
        has_loading_script(h) && has_local_path(h)
    } else if k == 9 {
        c(h, "小红书") && !has_xhs_markers(h)
    } else if k == 10 {
        has_xhs_output(h) && !has_xhs_grid(h)
    } else if k == 11 {
        has_xhs_output(h) && !has_xhs_ratio(h)
    } else if k == 12 {
        has_xhs_output(h) && (!has_xhs_cover(h) || !has_xhs_page_number(h))
    } else if k == 13 {
        c(h, "PPT 风格") && !has_slide_markers(h)
    } else if k == 14 {
        has_slide_output(h) && c(h, "keydown") && !c(h, "click")
    } else if k == 15 {
        has_slide_output(h) && !has_wheel_turning(h)
    } else if k == 16 {
        has_slide_output(h) && has_wheel_turning(h) && !has_wheel_throttle(h)
    } else if k == 17 {
        has_slide_output(h) && has_reversed_wheel(h)
    } else if k == 18 {
        has_slide_output(h) && !c(h, "aspect-ratio")
    } else if k == 19 {
        has_slide_output(h) && (!has_hidden_state(h) || !has_pointer_guard(h))
    } else if k == 20 {
        has_slide_output(h) && !has_state_cleanup(h)
    } else if k == 21 {
        has_slide_output(h) && !has_single_entry(h)
    } else if k == 22 {
        has_slide_output(h) && c(h, "is-exiting") && !has_exit_cleanup(h)
    } else if k == 23 {
        has_slide_output(h) && !has_layout_pool(h)
    } else if k == 24 {
        has_slide_output(h) && has_bad_calc(h)
    } else if k == 25 {
        has_slide_output(h) && has_fixed_controls(h) && !has_safe_area(h)
    } else if k == 26 {
        has_slide_output(h) && mentions_down_key(h) && !handles_down_key(h)
    } else {
        has_slide_output(h) && depends_on_scrolling(h)
    }
}

/// Which of a report's checks raise their warning, in check order.
pub open spec fn check_results(h: Seq<char>, lower: Seq<char>) -> Seq<bool> {
    Seq::new(28, |k: int| check_result(h, lower, k))
}

/// The messages of the first `n` checks that raised, in check order.
pub open spec fn raised(flags: Seq<bool>, msgs: Seq<Seq<char>>, n: nat) -> Seq<Seq<char>>
    decreases n,
{
    if n == 0 {
        Seq::empty()
    } else {
        raised(flags, msgs, (n - 1) as nat) + if flags[n - 1] {
            seq![msgs[n - 1]]
        } else {
            Seq::empty()
        }
    }
}

/// The positions of the first `n` checks that raised.
pub open spec fn raised_at(flags: Seq<bool>, n: nat) -> Seq<int>
    decreases n,
{
    if n == 0 {
        Seq::empty()
    } else {
        raised_at(flags, (n - 1) as nat) + if flags[n - 1] {
            seq![n - 1]
        } else {
            Seq::empty()
        }
    }
}

proof fn lemma_raised_at(flags: Seq<bool>, msgs: Seq<Seq<char>>, n: nat)
    ensures
        raised_at(flags, n).len() == raised(flags, msgs, n).len(),
        forall|i: int|
            0 <= i < raised_at(flags, n).len() ==> 0 <= #[trigger] raised_at(flags, n)[i] < n
                && raised(flags, msgs, n)[i] == msgs[raised_at(flags, n)[i]],
        forall|i: int, j: int|
            0 <= i < j < raised_at(flags, n).len() ==> #[trigger] raised_at(flags, n)[i]
                < #[trigger] raised_at(flags, n)[j],
    decreases n,
{
    if n > 0 {
        lemma_raised_at(flags, msgs, (n - 1) as nat);
        let a = raised_at(flags, (n - 1) as nat);
        let w = raised(flags, msgs, (n - 1) as nat);
        assert forall|i: int| 0 <= i < a.len() implies #[trigger] raised_at(flags, n)[i] == a[i]
            && raised(flags, msgs, n)[i] == w[i] by {}
    }
}

proof fn lemma_raised_part_0(h: Seq<char>, lower: Seq<char>)
    ensures
        raised(check_results(h, lower), check_messages(), 6) =~= raised(check_results(h, lower), check_messages(), 0) + base_first(h),
{
    let f = check_results(h, lower);
    let m = check_messages();
    assert(raised(f, m, 1) == raised(f, m, 0) + pick(h.len() < 12000, W_SHORT));
    assert(raised(f, m, 2) == raised(f, m, 1) + pick(!c(h, "你"), W_NO_YOU));
    assert(raised(f, m, 3) == raised(f, m, 2) + pick(c(h, "这个用户") || c(h, "该用户"), W_THIRD_PERSON));
    assert(raised(f, m, 4) == raised(f, m, 3) + pick(!c(h, "https://github.com/Duosl/weread-skill-desktop"), W_NO_GITHUB));
    assert(raised(f, m, 5) == raised(f, m, 4) + pick(!c(h, "微信读书官方 Skill"), W_NO_SOURCE));
    assert(raised(f, m, 6) == raised(f, m, 5) + pick(evidence_hits(h) < 3, W_WEAK_EVIDENCE));
}

proof fn lemma_raised_part_1(h: Seq<char>, lower: Seq<char>)
    ensures
        raised(check_results(h, lower), check_messages(), 9) =~= raised(check_results(h, lower), check_messages(), 6) + base_second(h, lower),
{
    let f = check_results(h, lower);
    let m = check_messages();
    assert(raised(f, m, 7) == raised(f, m, 6) + pick(has_local_path(h), W_LOCAL_PATH));
    assert(raised(f, m, 8) == raised(f, m, 7) + pick(has_embedded_frame(lower), W_EMBED));
    assert(raised(f, m, 9) == raised(f, m, 8) + pick(has_loading_script(h) && has_local_path(h), W_SCRIPT_LOAD));
}

proof fn lemma_raised_part_2(h: Seq<char>, lower: Seq<char>)
    ensures
        raised(check_results(h, lower), check_messages(), 13) =~= raised(check_results(h, lower), check_messages(), 9) + xhs_warnings(h),
{
    let f = check_results(h, lower);
    let m = check_messages();
    assert(raised(f, m, 10) == raised(f, m, 9) + pick(c(h, "小红书") && !has_xhs_markers(h), W_XHS_CARDS));
    assert(raised(f, m, 11) == raised(f, m, 10) + pick(has_xhs_output(h) && !has_xhs_grid(h), W_XHS_GRID));
    assert(raised(f, m, 12) == raised(f, m, 11) + pick(has_xhs_output(h) && !has_xhs_ratio(h), W_XHS_RATIO));
    assert(raised(f, m, 13) == raised(f, m, 12) + pick(has_xhs_output(h) && (!has_xhs_cover(h) || !has_xhs_page_number(h)), W_XHS_COVER));
}

#[verifier::rlimit(100)]
proof fn lemma_raised_part_3(h: Seq<char>, lower: Seq<char>)
    ensures
        raised(check_results(h, lower), check_messages(), 21) =~= raised(check_results(h, lower), check_messages(), 13) + slide_first(h),
{
    let f = check_results(h, lower);
    let m = check_messages();
    assert(raised(f, m, 14) == raised(f, m, 13) + pick(c(h, "PPT 风格") && !has_slide_markers(h), W_SLIDE_MARKERS));
    assert(raised(f, m, 15) == raised(f, m, 14) + pick(has_slide_output(h) && c(h, "keydown") && !c(h, "click"), W_SLIDE_CLICK));
    assert(raised(f, m, 16) == raised(f, m, 15) + pick(has_slide_output(h) && !has_wheel_turning(h), W_SLIDE_WHEEL));
    assert(raised(f, m, 17) == raised(f, m, 16) + pick(has_slide_output(h) && has_wheel_turning(h) && !has_wheel_throttle(h), W_SLIDE_THROTTLE));
    assert(raised(f, m, 18) == raised(f, m, 17) + pick(has_slide_output(h) && has_reversed_wheel(h), W_SLIDE_DIRECTION));
    assert(raised(f, m, 19) == raised(f, m, 18) + pick(has_slide_output(h) && !c(h, "aspect-ratio"), W_SLIDE_STAGE));
    assert(raised(f, m, 20) == raised(f, m, 19) + pick(has_slide_output(h) && (!has_hidden_state(h) || !has_pointer_guard(h)), W_SLIDE_HIDDEN));
    assert(raised(f, m, 21) == raised(f, m, 20) + pick(has_slide_output(h) && !has_state_cleanup(h), W_SLIDE_CLEANUP));
}

#[verifier::rlimit(100)]
proof fn lemma_raised_part_4(h: Seq<char>, lower: Seq<char>)
    ensures
        raised(check_results(h, lower), check_messages(), 28) =~= raised(check_results(h, lower), check_messages(), 21) + slide_second(h),
{
    let f = check_results(h, lower);
    let m = check_messages();
    assert(raised(f, m, 22) == raised(f, m, 21) + pick(has_slide_output(h) && !has_single_entry(h), W_SLIDE_ENTRY));
    assert(raised(f, m, 23) == raised(f, m, 22) + pick(has_slide_output(h) && c(h, "is-exiting") && !has_exit_cleanup(h), W_SLIDE_EXIT));
    assert(raised(f, m, 24) == raised(f, m, 23) + pick(has_slide_output(h) && !has_layout_pool(h), W_SLIDE_LAYOUT));
    assert(raised(f, m, 25) == raised(f, m, 24) + pick(has_slide_output(h) && has_bad_calc(h), W_SLIDE_CALC));
    assert(raised(f, m, 26) == raised(f, m, 25) + pick(has_slide_output(h) && has_fixed_controls(h) && !has_safe_area(h), W_SLIDE_SAFE_AREA));
    assert(raised(f, m, 27) == raised(f, m, 26) + pick(has_slide_output(h) && mentions_down_key(h) && !handles_down_key(h), W_SLIDE_KEYS));
    assert(raised(f, m, 28) == raised(f, m, 27) + pick(has_slide_output(h) && depends_on_scrolling(h), W_SLIDE_SCROLL));
}

proof fn lemma_report_warnings_raised(h: Seq<char>, lower: Seq<char>)
    ensures
        report_warnings(h, lower) == raised(check_results(h, lower), check_messages(), 28),
{
    let f = check_results(h, lower);
    let m = check_messages();
    lemma_raised_part_0(h, lower);
    lemma_raised_part_1(h, lower);
    lemma_raised_part_2(h, lower);
    lemma_raised_part_3(h, lower);
    lemma_raised_part_4(h, lower);
    assert(raised(f, m, 0) == Seq::<Seq<char>>::empty());
    assert(report_warnings(h, lower) =~= raised(f, m, 28));
}

proof fn lemma_check_messages_distinct()
    ensures
        check_messages().no_duplicates(),
{
    reveal_strlit("分析版内容偏短，可能不完整");
    reveal_strlit("分析版没有使用“你”作为报告主语");
    reveal_strlit("分析版仍包含第三人称用户称呼");
    reveal_strlit("分析版缺少开源项目 GitHub 地址");
    reveal_strlit("分析版缺少微信读书官方 Skill 数据来源说明");
    reveal_strlit("分析版证据链偏弱，主要结论可能缺少数据依据");
    reveal_strlit("报告 HTML 暴露或引用了本地文件路径，可能触发浏览器 file 安全限制");
    reveal_strlit("报告 HTML 包含嵌入式 frame/object/embed，本地 file 打开时容易触发安全限制");
    reveal_strlit("报告 HTML 可能通过脚本读取或跳转本地文件，需改为自包含单文件");
    reveal_strlit("小红书图文风格缺少卡片化或截图友好的结构提示");
    reveal_strlit("小红书图文风格缺少多列卡片画廊，容易退化成单列长页面");
    reveal_strlit("小红书图文风格缺少 3:4 截图卡片比例，单张卡片不够稳定");
    reveal_strlit("小红书图文风格缺少封面卡或页码，截图成组后不利于传播");
    reveal_strlit("PPT 风格缺少演示页式结构提示");
    reveal_strlit("PPT 风格只检测到键盘切换，缺少鼠标点击翻页绑定");
    reveal_strlit("PPT 风格缺少鼠标滚轮或触控板滑动翻页支持");
    reveal_strlit("PPT 风格的滚轮/触控板翻页缺少节流，容易一次滑动连续翻多页");
    reveal_strlit("PPT 风格滚轮方向反直觉，应向下滑动进入下一页、向上滑动回到上一页");
    reveal_strlit("PPT 风格缺少固定 16:9 舞台，容易在不同屏幕尺寸下溢出");
    reveal_strlit("PPT 风格缺少非当前页隐藏态，上一页/下一页内容可能残留叠在当前页上");
    reveal_strlit("PPT 风格切页逻辑缺少全量清理 slide 状态，容易只做单向动画导致页面叠层");
    reveal_strlit("PPT 风格缺少统一切页入口，键盘/按钮/滚轮分散更新状态时容易出现上一页或下一页残影");
    reveal_strlit("PPT 风格使用了离场动画状态，但缺少动画结束后的清理逻辑，可能留下上一页残影");
    reveal_strlit("PPT 风格缺少明确版式池，模型容易逐页自由发挥导致风格漂移");
    reveal_strlit("PPT 风格舞台尺寸 CSS 使用了浏览器不兼容的 calc 写法，应改为合法空格和无乘除法表达式");
    reveal_strlit("PPT 风格底部控制条缺少内容安全区，可能遮挡最后一行内容");
    reveal_strlit("PPT 风格快捷键提示和实际按键绑定不一致");
    reveal_strlit("PPT 风格主要内容依赖滚动阅读，应拆成更多固定比例页面");
    let m = check_messages();
    assert forall|a: int, b: int| 0 <= a < m.len() && 0 <= b < m.len() && a != b implies m[a] != m[b] by {
        assert(m[a].len() >= 13 && m[b].len() >= 13);
        if m[a].len() == m[b].len() {
            assert(m[a][0] != m[b][0] || m[a][6] != m[b][6] || m[a][9] != m[b][9]);
        }
    }
}

/// A report's warnings come in the order its checks run, each at most once:
/// they are the messages of the checks that raised, taken in check order.
pub proof fn law_warnings_in_check_order(h: Seq<char>)
    ensures
        ({
            let w = output_warnings(Some(h));
            let m = check_messages();
            &&& exists|at: Seq<int>|
                at.len() == w.len() && (forall|i: int| 0 <= i < w.len() ==> 0 <= #[trigger] at[i] < m.len() && w[i]
                    == m[at[i]]) && (forall|i: int, j: int| 0 <= i < j < w.len() ==> #[trigger] at[i] < #[trigger] at[j])
            &&& forall|i: int, j: int| 0 <= i < j < w.len() ==> #[trigger] w[i] != #[trigger] w[j]
        }),
{
    let l = lowercase(h);
    let flags = check_results(h, l);
    let m = check_messages();
    lemma_report_warnings_raised(h, l);
    lemma_raised_at(flags, m, 28);
    lemma_check_messages_distinct();
    let at = raised_at(flags, 28);
    let w = output_warnings(Some(h));
    assert(w == raised(flags, m, 28));
    assert forall|i: int, j: int| 0 <= i < j < w.len() implies #[trigger] w[i] != #[trigger] w[j] by {
        assert(at[i] < at[j]);
    }
}

spec fn views(w: Seq<String>) -> Seq<Seq<char>> {
    w.map_values(|s: String| s@)
}

fn add_warning(
    w: &mut Vec<String>,
    Ghost(w0): Ghost<Seq<Seq<char>>>,
    Ghost(acc): Ghost<Seq<Seq<char>>>,
    cond: bool,
    msg: &str,
)
    requires
        views(old(w)@) == w0 + acc,
    ensures
        views(final(w)@) == w0 + (acc + pick(cond, msg)),
{
    if cond {
        let ghost before = w@;
        let m = owned(msg);
        w.push(m);
        assert(views(w@) =~= views(before).push(msg@));
        assert(views(w@) =~= w0 + (acc + seq![msg@]));
    } else {
        assert(w0 + (acc + pick(cond, msg)) =~= w0 + acc);
    }
}

fn count_hit(h: &Vec<char>, p: &str) -> (n: u8)
    ensures
        n == hit(h@, p),
{
    if has_text(h, p) {
        1
    } else {
        0
    }
}

fn evidence_count(h: &Vec<char>) -> (n: u8)
    ensures
        n == evidence_hits(h@),
{
    let a = count_hit(h, "证据");
    let b = count_hit(h, "依据");
    let c = count_hit(h, "来自");
    let d = count_hit(h, "数据");
    let e = count_hit(h, "阅读时长");
    let f = count_hit(h, "笔记");
    let g = count_hit(h, "划线");
    let k = count_hit(h, "想法");
    a + b + c + d + e + f + g + k
}

proof fn lemma_assoc(a: Seq<Seq<char>>, b: Seq<Seq<char>>, c: Seq<Seq<char>>)
    ensures
        (a + b) + c == a + (b + c),
{
    assert((a + b) + c =~= a + (b + c));
}

proof fn lemma_empty_right(a: Seq<Seq<char>>)
    ensures
        a + Seq::<Seq<char>>::empty() == a,
{
    assert(a + Seq::<Seq<char>>::empty() =~= a);
}

fn base_checks_first(
    w: &mut Vec<String>,
    Ghost(w0): Ghost<Seq<Seq<char>>>,
    Ghost(acc): Ghost<Seq<Seq<char>>>,
    h: &Vec<char>,
)
    requires
        views(old(w)@) == w0 + acc,
    ensures
        views(final(w)@) == w0 + (acc + base_first(h@)),
{
    let ghost f = w0 + acc;
    let ghost e = Seq::<Seq<char>>::empty();
    proof {
        lemma_empty_right(f);
    }
    add_warning(w, Ghost(f), Ghost(e), h.len() < 12000, W_SHORT);
    let ghost a1 = e + pick(h@.len() < 12000, W_SHORT);
    let you = has_text(h, "你");
    add_warning(w, Ghost(f), Ghost(a1), !you, W_NO_YOU);
    let ghost a2 = a1 + pick(!c(h@, "你"), W_NO_YOU);
    let third_a = has_text(h, "这个用户");
    let third_b = has_text(h, "该用户");
    add_warning(w, Ghost(f), Ghost(a2), third_a || third_b, W_THIRD_PERSON);
    let ghost a3 = a2 + pick(c(h@, "这个用户") || c(h@, "该用户"), W_THIRD_PERSON);
    let github = has_text(h, "https://github.com/Duosl/weread-skill-desktop");
    add_warning(w, Ghost(f), Ghost(a3), !github, W_NO_GITHUB);
    let ghost a4 = a3 + pick(!c(h@, "https://github.com/Duosl/weread-skill-desktop"), W_NO_GITHUB);
    let source = has_text(h, "微信读书官方 Skill");
    add_warning(w, Ghost(f), Ghost(a4), !source, W_NO_SOURCE);
    let ghost a5 = a4 + pick(!c(h@, "微信读书官方 Skill"), W_NO_SOURCE);
    let hits = evidence_count(h);
    add_warning(w, Ghost(f), Ghost(a5), hits < 3, W_WEAK_EVIDENCE);
    proof {
        lemma_assoc(w0, acc, base_first(h@));
    }
}

fn base_checks_second(
    w: &mut Vec<String>,
    Ghost(w0): Ghost<Seq<Seq<char>>>,
    Ghost(acc): Ghost<Seq<Seq<char>>>,
    h: &Vec<char>,
    lower: &Vec<char>,
)
    requires
        views(old(w)@) == w0 + acc,
    ensures
        views(final(w)@) == w0 + (acc + base_second(h@, lower@)),
{
    let ghost f = w0 + acc;
    let ghost e = Seq::<Seq<char>>::empty();
    proof {
        lemma_empty_right(f);
    }
    let p1 = has_text(h, "file://");
    let p2 = has_text(h, "/Users/");
    let p3 = has_text(h, "/.weread-desktop/");
    let p4 = has_text(h, "\\Users\\");
    let p5 = has_text(h, "C:\\");
    let local_path = p1 || p2 || p3 || p4 || p5;
    add_warning(w, Ghost(f), Ghost(e), local_path, W_LOCAL_PATH);
    let ghost a1 = e + pick(has_local_path(h@), W_LOCAL_PATH);
    let f1 = has_text(lower, "<iframe");
    let f2 = has_text(lower, "<object");
    let f3 = has_text(lower, "<embed");
    add_warning(w, Ghost(f), Ghost(a1), f1 || f2 || f3, W_EMBED);
    let ghost a2 = a1 + pick(has_embedded_frame(lower@), W_EMBED);
    let s1 = has_text(h, "fetch(");
    let s2 = has_text(h, "XMLHttpRequest");
    let s3 = has_text(h, "window.open(");
    let s4 = has_text(h, "location.href");
    let s5 = has_text(h, "location.assign");
    let s6 = has_text(h, "location.replace");
    let script = s1 || s2 || s3 || s4 || s5 || s6;
    add_warning(w, Ghost(f), Ghost(a2), script && local_path, W_SCRIPT_LOAD);
    proof {
        lemma_assoc(w0, acc, base_second(h@, lower@));
    }
}

fn xhs_checks(
    w: &mut Vec<String>,
    Ghost(w0): Ghost<Seq<Seq<char>>>,
    Ghost(acc): Ghost<Seq<Seq<char>>>,
    h: &Vec<char>,
)
    requires
        views(old(w)@) == w0 + acc,
    ensures
        views(final(w)@) == w0 + (acc + xhs_warnings(h@)),
{
    let ghost f = w0 + acc;
    let ghost e = Seq::<Seq<char>>::empty();
    proof {
        lemma_empty_right(f);
    }
    let m1 = has_text(h, "卡片");
    let m2 = has_text(h, "截图");
    let m3 = has_text(h, "图文");
    let m4 = has_text(h, "轮播");
    let red = has_text(h, "小红书");
    add_warning(w, Ghost(f), Ghost(e), red && !(m1 || m2 || m3 || m4), W_XHS_CARDS);
    let ghost a1 = e + pick(c(h@, "小红书") && !has_xhs_markers(h@), W_XHS_CARDS);
    let o2 = has_text(h, "xiaohongshu");
    let o3 = has_text(h, "xhs");
    let o4 = has_text(h, "图文卡");
    let output = red || o2 || o3 || o4 || m4;
    let g1 = has_text(h, "grid-template-columns");
    let g2 = has_text(h, "columns:");
    let g3 = has_text(h, "column-count");
    let g4 = has_text(h, "masonry");
    add_warning(w, Ghost(f), Ghost(a1), output && !(g1 || g2 || g3 || g4), W_XHS_GRID);
    let ghost a2 = a1 + pick(has_xhs_output(h@) && !has_xhs_grid(h@), W_XHS_GRID);
    let r1 = has_text(h, "aspect-ratio: 3 / 4");
    let r2 = has_text(h, "aspect-ratio:3/4");
    let r3 = has_text(h, "1080");
    let r4 = has_text(h, "1440");
    add_warning(w, Ghost(f), Ghost(a2), output && !(r1 || r2 || r3 || r4), W_XHS_RATIO);
    let ghost a3 = a2 + pick(has_xhs_output(h@) && !has_xhs_ratio(h@), W_XHS_RATIO);
    let c1 = has_text(h, "封面");
    let c2 = has_text(h, "cover");
    let c3 = has_text(h, "Cover");
    let n1 = has_text(h, "页码");
    let n2 = has_text(h, "page");
    let n3 = has_text(h, "Page");
    let n4 = has_text(h, "card-index");
    let cover = c1 || c2 || c3;
    let page = n1 || n2 || n3 || n4;
    add_warning(w, Ghost(f), Ghost(a3), output && (!cover || !page), W_XHS_COVER);
    proof {
        lemma_assoc(w0, acc, xhs_warnings(h@));
    }
}

fn slide_checks_first(
    w: &mut Vec<String>,
    Ghost(w0): Ghost<Seq<Seq<char>>>,
    Ghost(acc): Ghost<Seq<Seq<char>>>,
    h: &Vec<char>,
    s: bool,
)
    requires
        views(old(w)@) == w0 + acc,
        s == has_slide_output(h@),
    ensures
        views(final(w)@) == w0 + (acc + slide_first(h@)),
{
    let ghost f = w0 + acc;
    let ghost e = Seq::<Seq<char>>::empty();
    proof {
        lemma_empty_right(f);
    }
    let k1 = has_text(h, "PPT");
    let k2 = has_text(h, "演示");
    let k3 = has_text(h, "第 1 屏");
    let k4 = has_text(h, "第一屏");
    let k5 = has_text(h, "Slide");
    let k6 = has_text(h, "slide");
    let k7 = has_text(h, "全屏");
    let k8 = has_text(h, "下一页");
    let k9 = has_text(h, "上一页");
    let k10 = has_text(h, "keydown");
    let k11 = has_text(h, "requestFullscreen");
    let k12 = has_text(h, "aspect-ratio");
    let markers = k1 || k2 || k3 || k4 || k5 || k6 || k7 || k8 || k9 || k10 || k11 || k12;
    let ppt = has_text(h, "PPT 风格");
    add_warning(w, Ghost(f), Ghost(e), ppt && !markers, W_SLIDE_MARKERS);
    let ghost a1 = e + pick(c(h@, "PPT 风格") && !has_slide_markers(h@), W_SLIDE_MARKERS);
    let click = has_text(h, "click");
    add_warning(w, Ghost(f), Ghost(a1), s && k10 && !click, W_SLIDE_CLICK);
    let ghost a2 = a1 + pick(s && c(h@, "keydown") && !c(h@, "click"), W_SLIDE_CLICK);
    let w1 = has_text(h, "wheel");
    let w2 = has_text(h, "deltaY");
    let w3 = has_text(h, "deltaX");
    let w4 = has_text(h, "onwheel");
    let wheel = w1 || w2 || w3 || w4;
    add_warning(w, Ghost(f), Ghost(a2), s && !wheel, W_SLIDE_WHEEL);
    let ghost a3 = a2 + pick(s && !has_wheel_turning(h@), W_SLIDE_WHEEL);
    let t1 = has_text(h, "throttle");
    let t2 = has_text(h, "wheelLock");
    let t3 = has_text(h, "lastWheel");
    let t4 = has_text(h, "setTimeout");
    let t5 = has_text(h, "Date.now()");
    let throttle = t1 || t2 || t3 || t4 || t5;
    add_warning(w, Ghost(f), Ghost(a3), s && wheel && !throttle, W_SLIDE_THROTTLE);
    let ghost a4 = a3 + pick(s && has_wheel_turning(h@) && !has_wheel_throttle(h@), W_SLIDE_THROTTLE);
    let d1 = has_text(h, "deltaY < 0) next");
    let d2 = has_text(h, "deltaY<0)next");
    let d3 = has_text(h, "deltaY < 0 ? next");
    let d4 = has_text(h, "deltaY<0?next");
    add_warning(w, Ghost(f), Ghost(a4), s && (d1 || d2 || d3 || d4), W_SLIDE_DIRECTION);
    let ghost a5 = a4 + pick(s && has_reversed_wheel(h@), W_SLIDE_DIRECTION);
    add_warning(w, Ghost(f), Ghost(a5), s && !k12, W_SLIDE_STAGE);
    let ghost a6 = a5 + pick(s && !c(h@, "aspect-ratio"), W_SLIDE_STAGE);
    let h1 = has_text(h, "display: none");
    let h2 = has_text(h, "display:none");
    let h3 = has_text(h, "visibility: hidden");
    let h4 = has_text(h, "visibility:hidden");
    let h5 = has_text(h, "opacity: 0");
    let h6 = has_text(h, "opacity:0");
    let hidden = (h1 || h2) || ((h3 || h4) && (h5 || h6));
    let g1 = has_text(h, "pointer-events: none");
    let g2 = has_text(h, "pointer-events:none");
    add_warning(w, Ghost(f), Ghost(a6), s && (!hidden || !(g1 || g2)), W_SLIDE_HIDDEN);
    let ghost a7 = a6 + pick(s && (!has_hidden_state(h@) || !has_pointer_guard(h@)), W_SLIDE_HIDDEN);
    let l1 = has_text(h, "slides.forEach");
    let l2 = has_text(h, ".forEach((slide");
    let l3 = has_text(h, "classList.remove");
    let l4 = has_text(h, "aria-hidden");
    let l5 = has_text(h, "classList.toggle");
    let l6 = has_text(h, "className");
    let cleanup = (l1 || l2 || l3) && l4 && (l5 || l3 || l6);
    add_warning(w, Ghost(f), Ghost(a7), s && !cleanup, W_SLIDE_CLEANUP);
    proof {
        lemma_assoc(w0, acc, slide_first(h@));
    }
}

fn slide_checks_second(
    w: &mut Vec<String>,
    Ghost(w0): Ghost<Seq<Seq<char>>>,
    Ghost(acc): Ghost<Seq<Seq<char>>>,
    h: &Vec<char>,
    s: bool,
)
    requires
        views(old(w)@) == w0 + acc,
        s == has_slide_output(h@),
    ensures
        views(final(w)@) == w0 + (acc + slide_second(h@)),
{
    let ghost f = w0 + acc;
    let ghost e = Seq::<Seq<char>>::empty();
    proof {
        lemma_empty_right(f);
    }
    let e1 = has_text(h, "goTo(");
    let e2 = has_text(h, "renderSlides(");
    let e3 = has_text(h, "showSlide(");
    let e4 = has_text(h, "updateSlide(");
    add_warning(w, Ghost(f), Ghost(e), s && !(e1 || e2 || e3 || e4), W_SLIDE_ENTRY);
    let ghost a1 = e + pick(s && !has_single_entry(h@), W_SLIDE_ENTRY);
    let x0 = has_text(h, "is-exiting");
    let x1 = has_text(h, "animationend");
    let x2 = has_text(h, "transitionend");
    let x3 = has_text(h, "setTimeout");
    add_warning(w, Ghost(f), Ghost(a1), s && x0 && !(x1 || x2 || x3), W_SLIDE_EXIT);
    let ghost a2 = a1 + pick(s && c(h@, "is-exiting") && !has_exit_cleanup(h@), W_SLIDE_EXIT);
    let y1 = has_text(h, "版式");
    let y2 = has_text(h, "layout");
    let y3 = has_text(h, "Layout");
    let y4 = has_text(h, "data-layout");
    let y5 = has_text(h, "slide-type");
    add_warning(w, Ghost(f), Ghost(a2), s && !(y1 || y2 || y3 || y4 || y5), W_SLIDE_LAYOUT);
    let ghost a3 = a2 + pick(s && !has_layout_pool(h@), W_SLIDE_LAYOUT);
    let q1 = has_text(h, "100vh-");
    let q2 = has_text(h, "100vw-");
    let q3 = has_text(h, "-96px");
    let q4 = has_text(h, "- 96px");
    let q5 = has_text(h, "100vh - 96px");
    let m1 = has_text(h, "*16/9");
    let m2 = has_text(h, "* 16/9");
    let m3 = has_text(h, "*16 / 9");
    let m4 = has_text(h, "* 16 / 9");
    let m5 = has_text(h, "/9)");
    let m6 = has_text(h, "/ 9)");
    let bad = ((q1 || q2 || q3 || q4) && !q5) || (m1 || m2 || m3 || m4 || m5 || m6);
    add_warning(w, Ghost(f), Ghost(a3), s && bad, W_SLIDE_CALC);
    let ghost a4 = a3 + pick(s && has_bad_calc(h@), W_SLIDE_CALC);
    let z1 = has_text(h, "position:fixed");
    let z2 = has_text(h, "position: fixed");
    let z3 = has_text(h, "position:sticky");
    let z4 = has_text(h, "position: sticky");
    let v1 = has_text(h, "padding-bottom");
    let v2 = has_text(h, "calc(100vh");
    let v3 = has_text(h, "safe-area");
    let v4 = has_text(h, "bottom-spacer");
    add_warning(
        w,
        Ghost(f),
        Ghost(a4),
        s && (z1 || z2 || z3 || z4) && !(v1 || v2 || v3 || v4),
        W_SLIDE_SAFE_AREA,
    );
    let ghost a5 = a4 + pick(s && has_fixed_controls(h@) && !has_safe_area(h@), W_SLIDE_SAFE_AREA);
    let u1 = has_text(h, "下键");
    let u2 = has_text(h, "ArrowDown");
    let u3 = has_text(h, "↓");
    let u4 = has_text(h, "向下");
    let b2 = has_text(h, "key === 'Down'");
    let b3 = has_text(h, "key===\"Down\"");
    let b4 = has_text(h, "keyCode === 40");
    let b5 = has_text(h, "keyCode==40");
    add_warning(
        w,
        Ghost(f),
        Ghost(a5),
        s && (u1 || u2 || u3 || u4) && !(u2 || b2 || b3 || b4 || b5),
        W_SLIDE_KEYS,
    );
    let ghost a6 = a5 + pick(s && mentions_down_key(h@) && !handles_down_key(h@), W_SLIDE_KEYS);
    let o1 = has_text(h, "overflow-y: auto");
    let o2 = has_text(h, "overflow: auto");
    let o3 = has_text(h, "speaker-notes");
    let o4 = has_text(h, "appendix");
    add_warning(w, Ghost(f), Ghost(a6), s && ((o1 || o2) && !o3 && !o4), W_SLIDE_SCROLL);
    proof {
        lemma_assoc(w0, acc, slide_second(h@));
    }
}

/// Runs the quality checks on a generated report (`None` when no report was
/// written). `ok` holds exactly when no check raised a warning.
pub fn validate_output(report_html: Option<&str>) -> (v: AdvancedReportValidation)
    ensures
        v.warning_views() == output_warnings(
            match report_html {
                Some(h) => Some(h@),
                None => None,
            },
        ),
        v.ok == (v.warnings@.len() == 0),
{
    let mut warnings: Vec<String> = Vec::new();
    match report_html {
        Some(html) => {
            let h = chars_of(html);
            let lower = to_lowercase_chars(html);
            let ghost e = Seq::<Seq<char>>::empty();
            assert(views(warnings@) =~= e + e);
            base_checks_first(&mut warnings, Ghost(e), Ghost(e), &h);
            let ghost a1 = e + base_first(h@);
            base_checks_second(&mut warnings, Ghost(e), Ghost(a1), &h, &lower);
            let ghost a2 = a1 + base_second(h@, lower@);
            xhs_checks(&mut warnings, Ghost(e), Ghost(a2), &h);
            let ghost a3 = a2 + xhs_warnings(h@);
            let s1 = has_text(&h, "PPT 风格");
            let s2 = has_text(&h, "全屏演示");
            let s3 = has_text(&h, "上一页");
            let s4 = has_text(&h, "下一页");
            let s5 = has_text(&h, "requestFullscreen");
            let s = s1 || s2 || s3 || s4 || s5;
            slide_checks_first(&mut warnings, Ghost(e), Ghost(a3), &h, s);
            let ghost a4 = a3 + slide_first(h@);
            slide_checks_second(&mut warnings, Ghost(e), Ghost(a4), &h, s);
            assert(e + (a4 + slide_second(h@)) =~= report_warnings(h@, lower@));
        },
        None => {
            warnings.push(owned(W_MISSING));
            assert(views(warnings@) =~= seq![W_MISSING@]);
        },
    }
    let ok = warnings.len() == 0;
    AdvancedReportValidation { ok, warnings }
}

} // verus!
