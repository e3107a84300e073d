//! The shared design rules of generated reports, used by the chat
//! assistant and by report agents alike.
use crate::text::{owned, push_str};
use vstd::prelude::*;

verus! {

/// The visual style: a quiet, printed reading ledger.
pub const AESTHETIC: &'static str = "**视觉风格：Quiet Reading Ledger（安静的私人阅读账本）**\n- 像一本精心排版的阅读档案，不是营销页面，不是数据仪表盘\n- 纸面、墨色、克制的色彩，不使用大面积渐变或花哨装饰\n- 数据是主角，装饰服务于数据\n- 不使用 emoji 作为图标或装饰\n- 整体品质要求：排版清晰、层次分明、重点突出";

/// How a report speaks: to "you", driven by the data, restrained.
pub const NARRATIVE: &'static str = "**叙事方式：**\n- 用\"你\"说话，不要用\"用户\"\"读者\"\"您\"\n- 像写给一个认识很久的朋友的私人信件，不是写分析报告\n- 开头直接说你发现的最有趣的事，不要用\"根据数据显示\"开头\n- 每个数字背后给一个判断，不要只列数字\n- 不说\"太棒了\"\"非常好\"\"你真是个爱读书的人\"，也不说\"让我们一起\"\"让我们深入\"\n- 不用\"首先…其次…最后…\"的排列，用自然段落推进";

/// The parts of a report, from title to closing summary.
pub const STRUCTURE: &'static str = "**内容结构：**\n- 报告标题：简洁有力，体现报告核心主题\n- 核心发现（1-3 个）：最值得用户注意的阅读特征\n- 分类分析：阅读偏好、时间习惯、笔记密度等维度\n- 书籍亮点：挑出几本最有代表性的书深入分析\n- 结尾：一个有温度的总结，不空洞";

/// How durations, dates, numbers and charts are shown.
pub const DATA_DISPLAY: &'static str = "**数据展示：**\n- 时长统一转为\"X小时Y分钟\"格式\n- 时间戳转为 YYYY-MM-DD 格式\n- 列表用编号，方便引用\n- 引用数据时标注来源（如\"来自阅读统计\"\"来自书架\"）\n- 统计数字放大展示：font-size: 2em; font-weight: 700\n- 数字下方加小字说明：font-size: 0.85em; color: #888\n- 图表使用内联 SVG 或纯 CSS 实现，不引入外部库\n- 柱状图颜色使用低饱和色系，不要彩虹色\n- 进度条/比例使用 linear-gradient + 固定高度";

/// Phrasings a report must avoid.
pub const ANTI_AI_STYLE: &'static str = "**去 AI 味（必须遵守）：**\n\n以下写法是大模型生成的典型痕迹，禁止出现在报告中：\n- 禁止使用过渡词串联：「值得注意的是」「总的来说」「让我们来看看」「接下来」「首先…其次…最后…」「综上所述」「不难发现」「由此可见」\n- 禁止使用空洞总结句：「这充分说明了…」「这反映了…的重要性」「让我们拭目以待」「相信在未来」\n- 禁止使用过度修饰：「丰富多样」「琳琅满目」「举足轻重」「不可或缺」「令人印象深刻」\n- 禁止使用假客套：「感谢你的阅读」「希望这份报告对你有帮助」「如果你有任何疑问」\n- 禁止使用 AI 常见开头：「在这个…的时代」「随着…的发展」「在当今社会」\n- 禁止使用列表+粗体小标题的万能模板结构，用自然段落代替\n- 禁止在每个段落末尾加一句空洞的升华\n- 写法参考：像写给一个你认识很久的朋友的私人信件，不像写给领导的工作汇报";

/// Fonts, colours, layout and motion.
pub const VISUAL_SPECS: &'static str = "**字体规格：**\n- 正文：Georgia, \"Noto Serif SC\", \"Source Han Serif SC\", serif\n- 标题：无衬线对比，\"Helvetica Neue\", \"PingFang SC\", sans-serif\n- 数字/统计：等宽，\"SF Mono\", \"Fira Code\", monospace\n- 禁止使用 Inter、Roboto、Arial 做正文\n- 不超过 3 种字体\n- 中文正文字号 15-16px，标题 20-28px，注释 12-13px\n\n**配色规格：**\n- 背景：#faf8f5 或 #f5f0eb（温暖纸色）\n- 正文：#2c2c2c 或 #1a1a1a（深墨色）\n- 辅助色：#b8860b、#8b7355（低饱和琥珀/赭石）\n- 强调色：#2d6a4f（克制的绿）或 #4a6fa5（蓝灰）\n- 禁止：紫色渐变、霓虹色、大面积高饱和色、玻璃拟态、漂浮光球\n\n**布局：**\n- 单栏，最大宽度 720px，左右留白充足\n- 段落间距 1.5em，行高 1.7-1.8\n- 卡片/数据块：border: 1px solid rgba(0,0,0,0.08) + border-radius: 8px\n- 不使用多列网格布局\n- 移动端：max-width: 100%; padding: 16px\n\n**动效：**\n- 页面加载交错淡入：每块内容延迟 100-200ms\n- @keyframes fadeInUp: opacity 0→1, transform translateY(12px)→0\n- 过渡时间 0.4-0.6s, ease-out\n- 不使用：滚动触发动画、视差效果、3D 变换\n- 图表可用 stroke-dashoffset 描边动画\n\n**禁止的 HTML 用法：**\n- 不使用 iframe、object、embed\n- 不引用外部 CDN、字体库、JS 库\n- 不使用 position: fixed 做导航栏\n- 不使用渐变文字（background-clip: text）做标题\n- 不使用卡片阴影叠加超过 2 层\n- 不使用毛玻璃效果\n- 不使用超过 3 种字体";

/// A self-contained HTML file with the required footer.
pub const HTML_REQUIREMENTS: &'static str = "**HTML 要求：**\n- 自包含单文件 HTML，所有 CSS 内联，不引用外部资源\n- 移动端适配（max-width + 响应式）\n\n**报告底部 Footer（必须包含）：**\n\n报告底部必须同时出现以下三类信息，缺一不可：\n1. 数据来源：`数据来源：微信读书官方 Skill`\n2. 大模型风险提示：`大模型可能会出错，本报告基于已导出的微信读书数据生成，分析结论请结合原始数据判断。`\n3. 开源项目入口：`也想生成自己的阅读报告？这份报告由开源桌面工具-「书迹」使用大模型进行整理生成，你可以在 GitHub 获取项目。` 并展示仓库地址 `https://github.com/Duosl/weread-skill-desktop`，不要只写软件名或只裸露 URL。";

/// All design rules, in order, separated by blank lines.
pub open spec fn design_guidelines() -> Seq<char> {
    AESTHETIC@ + "\n\n"@ + NARRATIVE@ + "\n\n"@ + STRUCTURE@ + "\n\n"@ + DATA_DISPLAY@ + "\n\n"@ + ANTI_AI_STYLE@ + "\n\n"@ + VISUAL_SPECS@ + "\n\n"@ + HTML_REQUIREMENTS@
}

/// The design rules a report must follow, as one text.
pub fn full_design_guidelines() -> (s: String)
    ensures
        s@ == design_guidelines(),
{
    let mut s = owned(AESTHETIC);
    push_str(&mut s, "\n\n");
    push_str(&mut s, NARRATIVE);
    push_str(&mut s, "\n\n");
    push_str(&mut s, STRUCTURE);
    push_str(&mut s, "\n\n");
    push_str(&mut s, DATA_DISPLAY);
    push_str(&mut s, "\n\n");
    push_str(&mut s, ANTI_AI_STYLE);
    push_str(&mut s, "\n\n");
    push_str(&mut s, VISUAL_SPECS);
    push_str(&mut s, "\n\n");
    push_str(&mut s, HTML_REQUIREMENTS);
    s
}

} // verus!
