//! The skills the chat assistant can load, and the calls the data gateway
//! allows, as the bundled skill files declare them.
use crate::tasks::opt_view;
use crate::templates::opt_str_view;
use crate::text::{
    begins_with, chars_of, find_chars, find_from, join_lines, join_lines_of, lemma_line_end_bounds,
    line_end, line_end_of, matches_at, occurs_at, owned, push_str, slice_chars, starts_with, strip_char,
    strip_char_chars, string_of, text_eq, texts, trim, trim_chars,
};
use vstd::prelude::*;

verus! {

/// A bundled skill besides the core one, with its full text.
pub struct SupplementarySkill {
    pub name: String,
    pub description: String,
    pub content: String,
}

/// A skill as the window lists it.
#[derive(Clone, Debug)]
pub struct SkillSummary {
    pub name: String,
    pub description: String,
}

/// Where a skill's full text is: a file read when needed, or at hand.
#[derive(Clone, Debug)]
pub enum LazySkillContent {
    File { path: String },
    Inline { content: String },
}

/// A skill in the catalogue.
#[derive(Clone, Debug)]
pub struct SkillEntry {
    pub name: String,
    pub description: String,
    pub is_core: bool,
    pub lazy_content: LazySkillContent,
}

/// How the gateway treats one call.
#[derive(Clone, Debug)]
pub struct ManifestApi {
    pub handler: String,
    pub doc: String,
    pub privacy_level: String,
    pub requires_consent: bool,
    pub required: Vec<String>,
}

/// A call the gateway allows, by name.
#[derive(Clone, Debug)]
pub struct ManifestApiEntry {
    pub api_name: String,
    pub api: ManifestApi,
}

/// The core skill's manifest.
#[derive(Clone, Debug)]
pub struct Manifest {
    pub name: String,
    pub version: String,
    pub gateway_tool: Option<String>,
    pub apis: Vec<ManifestApiEntry>,
}

/// A document of the core skill, by its file name.
#[derive(Clone, Debug)]
pub struct SkillDoc {
    pub doc: String,
    pub content: String,
}

/// A bundled skill directory with the text of its `SKILL.md`.
#[derive(Clone, Debug)]
pub struct SkillDir {
    pub dir_name: String,
    pub content: String,
}

/// Everything the bundled skills declare.
pub struct SkillRegistry {
    pub manifest: Manifest,
    pub docs: Vec<SkillDoc>,
    pub skill_md: String,
    pub supplementary_skills: Vec<SupplementarySkill>,
    pub entries: Vec<SkillEntry>,
}

impl SkillRegistry {
    /// A catalogue is well formed when no two calls of its manifest share a
    /// name, as the keys of the map the manifest is read from never do.
    pub open spec fn wf(&self) -> bool {
        distinct_api_names(self.manifest.apis@)
    }
}

// ---------------------------------------------------------------------
// Front matter
// ---------------------------------------------------------------------

/// The front matter of a skill file: what stands between a leading `---`
/// (after trimming) and the next `---`; nothing when either is missing.
pub open spec fn frontmatter(s: Seq<char>) -> Seq<char> {
    let t = trim(s);
    if !starts_with(t, "---"@) {
        Seq::empty()
    } else {
        let rest = t.skip(3);
        match find_from(rest, "---"@, 0) {
            Some(k) => rest.take(k),
            None => Seq::empty(),
        }
    }
}

/// The value of a trimmed line `key value`: trimmed, without surrounding quotes.
pub open spec fn line_value(l: Seq<char>, key: Seq<char>) -> Option<Seq<char>> {
    if starts_with(l, key) {
        Some(strip_char(trim(l.skip(key.len() as int)), '"'))
    } else {
        None
    }
}

pub open spec fn or_later(later: Option<Seq<char>>, earlier: Option<Seq<char>>) -> Option<Seq<char>> {
    match later {
        Some(v) => Some(v),
        None => earlier,
    }
}

/// The value of `key` in the lines of `fm` from index `start` on: the last
/// line that has it decides.
pub open spec fn field_from(fm: Seq<char>, key: Seq<char>, start: int) -> Option<Seq<char>>
    decreases fm.len() - start,
{
    if start < 0 || start > fm.len() {
        None
    } else {
        let e = line_end(fm, start);
        proof {
            lemma_line_end_bounds(fm, start);
        }
        let later = if e < fm.len() {
            field_from(fm, key, e + 1)
        } else {
            None
        };
        or_later(later, line_value(trim(fm.subrange(start, e)), key))
    }
}

/// The value of a field of a skill file's front matter.
pub open spec fn frontmatter_field(content: Seq<char>, key: Seq<char>) -> Option<Seq<char>> {
    field_from(frontmatter(content), key, 0)
}

fn value_of(line: &Vec<char>, key: &str) -> (r: Option<String>)
    ensures
        opt_view(r) == line_value(line@, key@),
{
    let k = chars_of(key);
    if begins_with(line, key) {
        let rest = slice_chars(line, k.len(), line.len());
        assert(rest@ == line@.skip(key@.len() as int));
        Some(string_of(&strip_char_chars(&trim_chars(&rest), '"')))
    } else {
        None
    }
}

fn front_block(content: &str) -> (fm: Vec<char>)
    ensures
        fm@ == frontmatter(content@),
{
    let t = trim_chars(&chars_of(content));
    let dash = chars_of("---");
    proof {
        reveal_strlit("---");
    }
    if t.len() >= 3 && matches_at(&t, &dash, 0) {
        let rest = slice_chars(&t, 3, t.len());
        assert(rest@ == t@.skip(3));
        assert(starts_with(t@, "---"@));
        assert(trim(content@) == t@);
        match find_chars(&rest, &dash, 0) {
            Some(k) => {
                let r = slice_chars(&rest, 0, k);
                assert(r@ == rest@.take(k as int));
                assert(find_from(t@.skip(3), "---"@, 0) == Some(k as int));
                assert(r@ == frontmatter(content@));
                r
            },
            None => {
                assert(find_from(t@.skip(3), "---"@, 0) is None);
                Vec::new()
            },
        }
    } else {
        assert(!starts_with(t@, "---"@));
        proof {
            if t.len() < 3 {
                assert(!crate::text::occurs_at(t@, "---"@, 0));
            }
        }
        Vec::new()
    }
}

/// Reads `name:` and `description:` from the front matter of a skill file.
pub fn parse_frontmatter(content: &str) -> (r: (Option<String>, Option<String>))
    ensures
        opt_view(r.0) == frontmatter_field(content@, "name:"@),
        opt_view(r.1) == frontmatter_field(content@, "description:"@),
{
    let fm = front_block(content);
    let ghost s = fm@;
    let n = fm.len();
    let mut name: Option<String> = None;
    let mut description: Option<String> = None;
    let mut start: usize = 0;
    let mut done = false;
    while !done
        invariant
            s == fm@,
            n == s.len(),
            start <= n,
            !done ==> field_from(s, "name:"@, 0) == or_later(
                field_from(s, "name:"@, start as int),
                opt_view(name),
            ),
            !done ==> field_from(s, "description:"@, 0) == or_later(
                field_from(s, "description:"@, start as int),
                opt_view(description),
            ),
            done ==> field_from(s, "name:"@, 0) == opt_view(name),
            done ==> field_from(s, "description:"@, 0) == opt_view(description),
        decreases n - start + (if done {
            0int
        } else {
            1int
        }),
    {
        let e = line_end_of(&fm, start);
        let line = trim_chars(&slice_chars(&fm, start, e));
        let nv = value_of(&line, "name:");
        let dv = value_of(&line, "description:");
        match nv {
            Some(v) => {
                name = Some(v);
            },
            None => {},
        }
        match dv {
            Some(v) => {
                description = Some(v);
            },
            None => {},
        }
        if e == n {
            done = true;
        } else {
            start = e + 1;
        }
    }
    (name, description)
}

// ---------------------------------------------------------------------
// Building the catalogue
// ---------------------------------------------------------------------

pub const CORE_DESCRIPTION: &'static str = "应用内置核心数据能力声明。Skill 文档定义接口语义、参数、返回值和工作流；实际数据获取通过统一数据网关执行。";

pub const CORE_DIR: &'static str = "weread";

/// The skill directories besides the core one, in their order.
pub open spec fn other_dirs(dirs: Seq<SkillDir>) -> Seq<SkillDir>
    decreases dirs.len(),
{
    if dirs.len() == 0 {
        dirs
    } else if dirs.last().dir_name@ == CORE_DIR@ {
        other_dirs(dirs.drop_last())
    } else {
        other_dirs(dirs.drop_last()).push(dirs.last())
    }
}

/// A skill's name: from its front matter, else its directory's name.
pub open spec fn dir_skill_name(d: SkillDir) -> Seq<char> {
    match frontmatter_field(d.content@, "name:"@) {
        Some(n) => n,
        None => d.dir_name@,
    }
}

/// A skill's description: from its front matter, else `<name> 能力`.
pub open spec fn dir_skill_description(d: SkillDir) -> Seq<char> {
    match frontmatter_field(d.content@, "description:"@) {
        Some(x) => x,
        None => dir_skill_name(d) + " 能力"@,
    }
}

/// The catalogue entry of the core skill.
pub open spec fn core_entry_ok(e: SkillEntry, manifest: Manifest, skill_md: Seq<char>, path: Seq<char>) -> bool {
    &&& e.name@ == (match frontmatter_field(skill_md, "name:"@) {
        Some(n) => n,
        None => manifest.name@,
    })
    &&& e.description@ == (match frontmatter_field(skill_md, "description:"@) {
        Some(x) => x,
        None => CORE_DESCRIPTION@,
    })
    &&& e.is_core
    &&& e.lazy_content matches LazySkillContent::File { path: p } && p@ == path
}

/// The catalogue entry and the supplementary skill made of a directory.
pub open spec fn dir_entry_ok(e: SkillEntry, s: SupplementarySkill, d: SkillDir) -> bool {
    &&& e.name@ == dir_skill_name(d)
    &&& e.description@ == dir_skill_description(d)
    &&& !e.is_core
    &&& e.lazy_content matches LazySkillContent::Inline { content: c } && c == d.content
    &&& s.name@ == dir_skill_name(d)
    &&& s.description@ == dir_skill_description(d)
    &&& s.content == d.content
}

/// Builds the catalogue from what was read of the bundled skills: the core
/// skill first, then every other skill directory in its order.
pub fn build_registry(
    manifest: Manifest,
    docs: Vec<SkillDoc>,
    skill_md: String,
    skill_md_path: String,
    dirs: Vec<SkillDir>,
) -> (r: SkillRegistry)
    requires
        distinct_api_names(manifest.apis@),
    ensures
        r.wf(),
        r.manifest == manifest,
        r.docs == docs,
        r.skill_md == skill_md,
        r.entries@.len() == other_dirs(dirs@).len() + 1,
        r.supplementary_skills@.len() == other_dirs(dirs@).len(),
        core_entry_ok(r.entries@[0], manifest, skill_md@, skill_md_path@),
        forall|i: int|
            0 <= i < other_dirs(dirs@).len() ==> dir_entry_ok(
                #[trigger] r.entries@[i + 1],
                r.supplementary_skills@[i],
                other_dirs(dirs@)[i],
            ),
{
    let (core_name, core_description) = parse_frontmatter(skill_md.as_str());
    let name = match core_name {
        Some(n) => n,
        None => manifest.name.clone(),
    };
    let description = match core_description {
        Some(d) => d,
        None => owned(CORE_DESCRIPTION),
    };
    let mut entries: Vec<SkillEntry> = Vec::new();
    entries.push(
        SkillEntry {
            name,
            description,
            is_core: true,
            lazy_content: LazySkillContent::File { path: skill_md_path },
        },
    );
    let mut supplementary: Vec<SupplementarySkill> = Vec::new();
    let ghost all = dirs@;
    for d in it: dirs.into_iter()
        invariant
            it.seq() == all,
            entries@.len() == supplementary@.len() + 1,
            supplementary@.len() == other_dirs(all.take(it.index() as int)).len(),
            core_entry_ok(entries@[0], manifest, skill_md@, skill_md_path@),
            forall|i: int|
                0 <= i < supplementary@.len() ==> dir_entry_ok(
                    #[trigger] entries@[i + 1],
                    supplementary@[i],
                    other_dirs(all.take(it.index() as int))[i],
                ),
    {
        let ghost idx = it.index();
        assert(all.take(idx + 1).drop_last() == all.take(idx as int));
        assert(all.take(idx + 1).last() == d);
        if !text_eq(d.dir_name.as_str(), CORE_DIR) {
            let (n, x) = parse_frontmatter(d.content.as_str());
            let skill_name = match n {
                Some(v) => v,
                None => d.dir_name.clone(),
            };
            let skill_description = match x {
                Some(v) => v,
                None => {
                    let mut t = skill_name.clone();
                    push_str(&mut t, " 能力");
                    t
                },
            };
            supplementary.push(
                SupplementarySkill {
                    name: skill_name.clone(),
                    description: skill_description.clone(),
                    content: d.content.clone(),
                },
            );
            entries.push(
                SkillEntry {
                    name: skill_name,
                    description: skill_description,
                    is_core: false,
                    lazy_content: LazySkillContent::Inline { content: d.content },
                },
            );
        }
    }
    assert(all.take(all.len() as int) == all);
    SkillRegistry { manifest, docs, skill_md, supplementary_skills: supplementary, entries }
}

// ---------------------------------------------------------------------
// Looking calls up
// ---------------------------------------------------------------------

/// The first declaration of a call with this name.
pub open spec fn find_api(apis: Seq<ManifestApiEntry>, name: Seq<char>) -> Option<ManifestApi>
    decreases apis.len(),
{
    if apis.len() == 0 {
        None
    } else if apis[0].api_name@ == name {
        Some(apis[0].api)
    } else {
        find_api(apis.drop_first(), name)
    }
}

fn api_position(reg: &SkillRegistry, api_name: &str) -> (r: Option<usize>)
    ensures
        match r {
            Some(i) => i < reg.manifest.apis@.len() && find_api(reg.manifest.apis@, api_name@)
                == Some(reg.manifest.apis@[i as int].api),
            None => find_api(reg.manifest.apis@, api_name@) is None,
        },
{
    let apis = &reg.manifest.apis;
    let n = apis.len();
    let mut i: usize = 0;
    assert(apis@.skip(0) == apis@);
    while i < n
        invariant
            apis@ == reg.manifest.apis@,
            n == apis@.len(),
            i <= n,
            find_api(apis@.skip(i as int), api_name@) == find_api(apis@, api_name@),
        decreases n - i,
    {
        assert(apis@.skip(i as int)[0] == apis@[i as int]);
        assert(apis@.skip(i as int).drop_first() == apis@.skip(i + 1));
        if text_eq(apis[i].api_name.as_str(), api_name) {
            return Some(i);
        }
        i = i + 1;
    }
    assert(apis@.skip(n as int).len() == 0);
    None
}

/// Whether a call needs the user's consent; unknown calls need none.
pub fn requires_consent(reg: &SkillRegistry, api_name: &str) -> (b: bool)
    ensures
        b == (match find_api(reg.manifest.apis@, api_name@) {
            Some(a) => a.requires_consent,
            None => false,
        }),
{
    match api_position(reg, api_name) {
        Some(i) => reg.manifest.apis[i].api.requires_consent,
        None => false,
    }
}

/// The privacy level of a call, if it is declared.
pub fn privacy_level<'a>(reg: &'a SkillRegistry, api_name: &str) -> (r: Option<&'a str>)
    ensures
        opt_str_view(r) == (match find_api(reg.manifest.apis@, api_name@) {
            Some(a) => Some(a.privacy_level@),
            None => None,
        }),
{
    match api_position(reg, api_name) {
        Some(i) => Some(reg.manifest.apis[i].api.privacy_level.as_str()),
        None => None,
    }
}

/// No two calls of a manifest share a name, as the keys of the map it is
/// read from.
pub open spec fn distinct_api_names(apis: Seq<ManifestApiEntry>) -> bool {
    forall|i: int, j: int|
        0 <= i < apis.len() && 0 <= j < apis.len() && i != j ==> (#[trigger] apis[i]).api_name@ != (
        #[trigger] apis[j]).api_name@
}

/// The names of all calls the gateway allows, one per call, none twice.
pub fn allowed_apis<'a>(reg: &'a SkillRegistry) -> (r: Vec<&'a str>)
    requires
        reg.wf(),
    ensures
        r@.len() == reg.manifest.apis@.len(),
        forall|i: int| 0 <= i < r@.len() ==> (#[trigger] r@[i])@ == reg.manifest.apis@[i].api_name@,
        forall|i: int, j: int|
            0 <= i < r@.len() && 0 <= j < r@.len() && i != j ==> (#[trigger] r@[i])@ != (#[trigger] r@[j])@,
{
    let apis = &reg.manifest.apis;
    let mut r: Vec<&'a str> = Vec::new();
    for i in 0..apis.len()
        invariant
            r@.len() == i,
            forall|k: int| 0 <= k < i ==> (#[trigger] r@[k])@ == apis@[k].api_name@,
    {
        r.push(apis[i].api_name.as_str());
    }
    r
}

/// A call is found in the manifest exactly when one of its calls has that
/// name; so `privacy_level` gives a level exactly for the names
/// `allowed_apis` lists, and a call that `requires_consent` is one of them.
pub proof fn law_api_lookups_agree(apis: Seq<ManifestApiEntry>, name: Seq<char>)
    ensures
        find_api(apis, name) is Some <==> exists|i: int| 0 <= i < apis.len() && #[trigger] apis[i].api_name@ == name,
        (match find_api(apis, name) {
            Some(a) => a.requires_consent,
            None => false,
        }) ==> exists|i: int| 0 <= i < apis.len() && #[trigger] apis[i].api_name@ == name,
    decreases apis.len(),
{
    if apis.len() > 0 {
        law_api_lookups_agree(apis.drop_first(), name);
        if exists|i: int| 0 <= i < apis.len() && #[trigger] apis[i].api_name@ == name {
            let i = choose|i: int| 0 <= i < apis.len() && #[trigger] apis[i].api_name@ == name;
            if i > 0 {
                assert(apis.drop_first()[i - 1].api_name@ == name);
            }
        }
        if exists|i: int| 0 <= i < apis.len() - 1 && #[trigger] apis.drop_first()[i].api_name@ == name {
            let i = choose|i: int| 0 <= i < apis.len() - 1 && #[trigger] apis.drop_first()[i].api_name@ == name;
            assert(apis[i + 1].api_name@ == name);
        }
    }
}

/// The first required parameter that is not among those given.
pub open spec fn first_missing(required: Seq<String>, present: Seq<String>) -> Option<Seq<char>>
    decreases required.len(),
{
    if required.len() == 0 {
        None
    } else if exists|j: int| 0 <= j < present.len() && #[trigger] present[j]@ == required[0]@ {
        first_missing(required.drop_first(), present)
    } else {
        Some(required[0]@)
    }
}

fn is_present(present: &Vec<String>, name: &str) -> (b: bool)
    ensures
        b == exists|j: int| 0 <= j < present@.len() && #[trigger] present@[j]@ == name@,
{
    let mut j: usize = 0;
    while j < present.len()
        invariant
            j <= present@.len(),
            forall|k: int| 0 <= k < j ==> #[trigger] present@[k]@ != name@,
        decreases present@.len() - j,
    {
        if text_eq(present[j].as_str(), name) {
            return true;
        }
        j = j + 1;
    }
    false
}

/// Checks a gateway call against the manifest: the call must be declared,
/// and every parameter it requires must be given (`present` names the
/// parameters that were given a value other than null).
pub fn validate_request<'a>(reg: &'a SkillRegistry, api_name: &str, present: &Vec<String>) -> (r: Result<
    &'a ManifestApi,
    String,
>)
    ensures
        match find_api(reg.manifest.apis@, api_name@) {
            None => r matches Err(e) && e@ == "接口「"@ + api_name@ + "」不在允许的技能列表中"@,
            Some(a) => match first_missing(a.required@, present@) {
                Some(m) => r matches Err(e) && e@ == "缺少必填参数: "@ + m,
                None => r matches Ok(x) && *x == a,
            },
        },
{
    let i = match api_position(reg, api_name) {
        Some(i) => i,
        None => {
            let mut e = owned("接口「");
            push_str(&mut e, api_name);
            push_str(&mut e, "」不在允许的技能列表中");
            return Err(e);
        },
    };
    let api = &reg.manifest.apis[i].api;
    let required = &api.required;
    let n = required.len();
    let mut k: usize = 0;
    assert(required@.skip(0) == required@);
    while k < n
        invariant
            find_api(reg.manifest.apis@, api_name@) == Some(*api),
            required@ == api.required@,
            n == required@.len(),
            k <= n,
            first_missing(required@.skip(k as int), present@) == first_missing(required@, present@),
        decreases n - k,
    {
        assert(required@.skip(k as int)[0] == required@[k as int]);
        assert(required@.skip(k as int).drop_first() == required@.skip(k + 1));
        if !is_present(present, required[k].as_str()) {
            let mut e = owned("缺少必填参数: ");
            push_str(&mut e, required[k].as_str());
            return Err(e);
        }
        k = k + 1;
    }
    assert(required@.skip(n as int).len() == 0);
    Ok(api)
}

// ---------------------------------------------------------------------
// The catalogue in the system prompt
// ---------------------------------------------------------------------

pub const CATALOGUE_TITLE: &'static str = "## 可用能力（L1 元数据）";

pub const CATALOGUE_INTRO: &'static str = "启动时只加载元数据，不预载完整 Skill 指令。当用户意图明确命中某个能力时，再调用 `load_skill` 加载完整文档；当需要真实数据时，再调用 `invoke_data_gateway`。";

pub const CATALOGUE_RULE: &'static str = "命中规则：优先根据用户意图匹配 name / description；只有在即将使用该能力时，才加载完整 Skill 正文。";

/// The catalogue line of a skill.
pub open spec fn entry_line(e: SkillEntry) -> Seq<char> {
    "- **"@ + e.name@ + "**："@ + e.description@
}

/// The catalogue of skills as the system prompt lists it.
pub open spec fn catalogue(entries: Seq<SkillEntry>) -> Seq<char> {
    join_lines(
        seq![CATALOGUE_TITLE@, Seq::empty(), CATALOGUE_INTRO@, Seq::empty()] + Seq::new(
            entries.len(),
            |i: int| entry_line(entries[i]),
        ) + seq![Seq::empty(), CATALOGUE_RULE@],
    )
}

/// Lists the skills' names and descriptions for the system prompt.
pub fn render_skills_prompt(reg: &SkillRegistry) -> (r: String)
    ensures
        r@ == catalogue(reg.entries@),
{
    let entries = &reg.entries;
    let mut lines: Vec<String> = Vec::new();
    lines.push(owned(CATALOGUE_TITLE));
    lines.push(String::new());
    lines.push(owned(CATALOGUE_INTRO));
    lines.push(String::new());
    let ghost head = seq![CATALOGUE_TITLE@, Seq::<char>::empty(), CATALOGUE_INTRO@, Seq::<char>::empty()];
    assert(texts(lines@) == head);
    for i in 0..entries.len()
        invariant
            texts(lines@) == head + Seq::new(i as nat, |k: int| entry_line(entries@[k])),
    {
        let mut l = owned("- **");
        push_str(&mut l, entries[i].name.as_str());
        push_str(&mut l, "**：");
        push_str(&mut l, entries[i].description.as_str());
        let ghost before = texts(lines@);
        lines.push(l);
        assert(texts(lines@) == before.push(entry_line(entries@[i as int])));
        assert(head + Seq::new((i + 1) as nat, |k: int| entry_line(entries@[k])) == (head + Seq::new(
            i as nat,
            |k: int| entry_line(entries@[k]),
        )).push(entry_line(entries@[i as int])));
    }
    lines.push(String::new());
    lines.push(owned(CATALOGUE_RULE));
    let r = join_lines_of(&lines);
    assert(texts(lines@) == seq![CATALOGUE_TITLE@, Seq::<char>::empty(), CATALOGUE_INTRO@, Seq::<char>::empty()]
        + Seq::new(entries@.len(), |k: int| entry_line(entries@[k])) + seq![Seq::<char>::empty(), CATALOGUE_RULE@]);
    r
}

/// The capability documents one after another, each after a blank line.
pub open spec fn docs_text(docs: Seq<SkillDoc>) -> Seq<char>
    decreases docs.len(),
{
    if docs.len() == 0 {
        Seq::empty()
    } else {
        docs_text(docs.drop_last()) + "\n\n"@ + docs.last().content@
    }
}

/// The full skill prompt: the catalogue, then the core skill's `SKILL.md`,
/// then every capability document.
pub open spec fn full_skills_prompt(reg: SkillRegistry) -> Seq<char> {
    catalogue(reg.entries@) + "\n\n"@ + reg.skill_md@ + docs_text(reg.docs@)
}

/// Every capability document stands somewhere in the documents' text.
pub proof fn lemma_docs_text_holds(docs: Seq<SkillDoc>, i: int)
    requires
        0 <= i < docs.len(),
    ensures
        exists|k: int| occurs_at(docs_text(docs), docs[i].content@, k),
    decreases docs.len(),
{
    reveal_strlit("\n\n");
    let t = docs_text(docs);
    let pre = docs_text(docs.drop_last());
    if i == docs.len() - 1 {
        let k: int = (pre.len() + 2) as int;
        assert(t.subrange(k, k + docs[i].content@.len()) =~= docs[i].content@);
        assert(occurs_at(t, docs[i].content@, k));
    } else {
        lemma_docs_text_holds(docs.drop_last(), i);
        let k = choose|k: int| occurs_at(pre, docs.drop_last()[i].content@, k);
        assert(t.subrange(k, k + docs[i].content@.len()) =~= pre.subrange(k, k + docs[i].content@.len()));
        assert(occurs_at(t, docs[i].content@, k));
    }
}

/// A text stands somewhere in another.
pub open spec fn holds_text(s: Seq<char>, t: Seq<char>) -> bool {
    exists|k: int| occurs_at(s, t, k)
}

/// The full skill prompt for the model: the catalogue of skills, the core
/// skill's `SKILL.md` and every capability document it refers to.
pub fn render_full_skills_prompt(reg: &SkillRegistry) -> (r: String)
    ensures
        r@ == full_skills_prompt(*reg),
        holds_text(r@, reg.skill_md@),
        forall|i: int| 0 <= i < reg.docs@.len() ==> holds_text(r@, #[trigger] reg.docs@[i].content@),
{
    let mut r = render_skills_prompt(reg);
    push_str(&mut r, "\n\n");
    let ghost head = r@;
    push_str(&mut r, reg.skill_md.as_str());
    let ghost with_md = r@;
    let docs = &reg.docs;
    for i in 0..docs.len()
        invariant
            r@ == with_md + docs_text(docs@.take(i as int)),
            with_md == head + reg.skill_md@,
    {
        assert(docs@.take(i + 1).drop_last() == docs@.take(i as int));
        assert(docs@.take(i + 1).last() == docs@[i as int]);
        push_str(&mut r, "\n\n");
        push_str(&mut r, docs[i].content.as_str());
    }
    assert(docs@.take(docs@.len() as int) == docs@);
    proof {
        let d = docs_text(reg.docs@);
        let k0 = head.len() as int;
        assert(r@.subrange(k0, k0 + reg.skill_md@.len()) =~= reg.skill_md@);
        assert(occurs_at(r@, reg.skill_md@, k0));
        assert forall|i: int| 0 <= i < reg.docs@.len() implies holds_text(r@, #[trigger] reg.docs@[i].content@) by {
            lemma_docs_text_holds(reg.docs@, i);
            let k = choose|k: int| occurs_at(d, reg.docs@[i].content@, k);
            let m = with_md.len() as int;
            assert(r@.subrange(m + k, m + k + reg.docs@[i].content@.len()) =~= d.subrange(k, k + reg.docs@[i].content@.len()));
            assert(occurs_at(r@, reg.docs@[i].content@, m + k));
        }
    }
    r
}

/// The skills' names and descriptions, in catalogue order.
pub fn skill_summaries(reg: &SkillRegistry) -> (r: Vec<SkillSummary>)
    ensures
        r@.len() == reg.entries@.len(),
        forall|i: int|
            0 <= i < r@.len() ==> (#[trigger] r@[i]).name == reg.entries@[i].name && r@[i].description
                == reg.entries@[i].description,
{
    let entries = &reg.entries;
    let mut r: Vec<SkillSummary> = Vec::new();
    for i in 0..entries.len()
        invariant
            r@.len() == i,
            forall|k: int|
                0 <= k < i ==> (#[trigger] r@[k]).name == entries@[k].name && r@[k].description
                    == entries@[k].description,
    {
        r.push(
            SkillSummary {
                name: entries[i].name.clone(),
                description: entries[i].description.clone(),
            },
        );
    }
    r
}

/// The first skill with this name.
pub open spec fn find_skill(entries: Seq<SkillEntry>, name: Seq<char>) -> Option<SkillEntry>
    decreases entries.len(),
{
    if entries.len() == 0 {
        None
    } else if entries[0].name@ == name {
        Some(entries[0])
    } else {
        find_skill(entries.drop_first(), name)
    }
}

/// Where the full text of the skill with this name is, if there is one.
pub fn skill_content<'a>(reg: &'a SkillRegistry, skill_name: &str) -> (r: Option<&'a LazySkillContent>)
    ensures
        match find_skill(reg.entries@, skill_name@) {
            Some(e) => r matches Some(c) && *c == e.lazy_content,
            None => r is None,
        },
{
    let entries = &reg.entries;
    let n = entries.len();
    let mut i: usize = 0;
    assert(entries@.skip(0) == entries@);
    while i < n
        invariant
            entries@ == reg.entries@,
            n == entries@.len(),
            i <= n,
            find_skill(entries@.skip(i as int), skill_name@) == find_skill(entries@, skill_name@),
        decreases n - i,
    {
        assert(entries@.skip(i as int)[0] == entries@[i as int]);
        assert(entries@.skip(i as int).drop_first() == entries@.skip(i + 1));
        if text_eq(entries[i].name.as_str(), skill_name) {
            return Some(&entries[i].lazy_content);
        }
        i = i + 1;
    }
    assert(entries@.skip(n as int).len() == 0);
    None
}

} // verus!
