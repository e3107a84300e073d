//! Privacy around the data gateway: what each call reads, the consent it
//! needs, the records of what was read, and the consents a user granted.
use crate::text::{join_sep, join_with, owned, push_str, text_eq, texts};
use vstd::prelude::*;

verus! {

/// What a consent prompt tells the user.
#[derive(Clone, Debug)]
pub struct ConsentRequest {
    pub title: String,
    pub purpose: String,
    pub read_description: String,
    pub destination_description: String,
    pub denial_effect: String,
}

/// A record of one read through the gateway, as the user sees it.
#[derive(Clone, Debug)]
pub struct DataAccessRecord {
    pub call_id: String,
    pub api_name: String,
    pub display_name: String,
    pub purpose: String,
    pub data_categories: Vec<String>,
    pub data_category_labels: Vec<String>,
    pub privacy_level: String,
    pub contains_raw_text: bool,
    pub destination: String,
    pub scope: Option<String>,
    pub status: String,
    pub denial_effect: String,
    pub summary_text: String,
}

/// What a call reads, in the user's words.
pub struct PrivacyDescriptor {
    pub display_name: &'static str,
    pub data_categories: Vec<&'static str>,
    pub data_category_labels: Vec<&'static str>,
    pub contains_raw_text: bool,
    pub denial_effect: &'static str,
}

/// A descriptor by the characters of its fields.
pub struct DescriptorView {
    pub display_name: Seq<char>,
    pub data_categories: Seq<Seq<char>>,
    pub data_category_labels: Seq<Seq<char>>,
    pub contains_raw_text: bool,
    pub denial_effect: Seq<char>,
}

impl PrivacyDescriptor {
    pub open spec fn view(&self) -> DescriptorView {
        DescriptorView {
            display_name: self.display_name@,
            data_categories: self.data_categories@.map_values(|s: &'static str| s@),
            data_category_labels: self.data_category_labels@.map_values(|s: &'static str| s@),
            contains_raw_text: self.contains_raw_text,
            denial_effect: self.denial_effect@,
        }
    }
}

pub open spec fn descriptor(
    display_name: Seq<char>,
    category: Seq<char>,
    label: Seq<char>,
    raw: bool,
    denial: Seq<char>,
) -> DescriptorView {
    DescriptorView {
        display_name,
        data_categories: seq![category],
        data_category_labels: seq![label],
        contains_raw_text: raw,
        denial_effect: denial,
    }
}

pub const EXPORT_REPORT_API: &'static str = "/export/report_html";

/// What each call reads. Highlights and thoughts are the user's own
/// text; everything not listed counts as reading data.
pub open spec fn descriptor_for(api: Seq<char>) -> DescriptorView {
    if api == "/shelf/sync"@ {
        descriptor("书架"@, "bookshelf"@, "书架"@, false, "跳过后，我会少一些关于书籍范围的判断。"@)
    } else if api == "/readdata/detail"@ {
        descriptor("阅读统计"@, "reading_stats"@, "阅读统计"@, false, "跳过后，我会少一些关于阅读时长和节奏的判断。"@)
    } else if api == "/user/notebooks"@ {
        descriptor("笔记概览"@, "note_overview"@, "笔记概览"@, false, "跳过后，我会少一些关于笔记分布的判断。"@)
    } else if api == "/book/bookmarklist"@ || api == "/book/bestbookmarks"@ {
        descriptor("划线内容"@, "bookmark_raw_text"@, "划线内容"@, true, "跳过后，我会只用统计和笔记概览继续分析。"@)
    } else if api == "/review/list/mine"@ || api == "/review/single"@ {
        descriptor("个人想法"@, "review_raw_text"@, "个人想法"@, true, "跳过后，我会只用统计和笔记概览继续分析。"@)
    } else if api == EXPORT_REPORT_API@ {
        descriptor("本地报告文件"@, "local_report"@, "本地报告"@, false, "跳过后，不会保存这份报告。"@)
    } else if api == "/store/search"@ || api == "/book/info"@ || api == "/book/chapterinfo"@ || api
        == "/book/getprogress"@ {
        descriptor("书籍信息"@, "book_info"@, "书籍信息"@, false, "跳过后，我会少一些关于具体书籍的判断。"@)
    } else {
        descriptor("阅读数据"@, "reading_data"@, "阅读数据"@, false, "跳过后，我会基于已有信息继续分析。"@)
    }
}

fn make_descriptor(
    display_name: &'static str,
    category: &'static str,
    label: &'static str,
    raw: bool,
    denial: &'static str,
) -> (d: PrivacyDescriptor)
    ensures
        d.view() == descriptor(display_name@, category@, label@, raw, denial@),
{
    let mut data_categories: Vec<&'static str> = Vec::new();
    data_categories.push(category);
    let mut data_category_labels: Vec<&'static str> = Vec::new();
    data_category_labels.push(label);
    let d = PrivacyDescriptor {
        display_name,
        data_categories,
        data_category_labels,
        contains_raw_text: raw,
        denial_effect: denial,
    };
    assert(d.view().data_categories == seq![category@]);
    assert(d.view().data_category_labels == seq![label@]);
    d
}

/// What a call reads.
pub fn privacy_descriptor(api_name: &str) -> (d: PrivacyDescriptor)
    ensures
        d.view() == descriptor_for(api_name@),
{
    if text_eq(api_name, "/shelf/sync") {
        make_descriptor("书架", "bookshelf", "书架", false, "跳过后，我会少一些关于书籍范围的判断。")
    } else if text_eq(api_name, "/readdata/detail") {
        make_descriptor("阅读统计", "reading_stats", "阅读统计", false, "跳过后，我会少一些关于阅读时长和节奏的判断。")
    } else if text_eq(api_name, "/user/notebooks") {
        make_descriptor("笔记概览", "note_overview", "笔记概览", false, "跳过后，我会少一些关于笔记分布的判断。")
    } else if text_eq(api_name, "/book/bookmarklist") || text_eq(api_name, "/book/bestbookmarks") {
        make_descriptor("划线内容", "bookmark_raw_text", "划线内容", true, "跳过后，我会只用统计和笔记概览继续分析。")
    } else if text_eq(api_name, "/review/list/mine") || text_eq(api_name, "/review/single") {
        make_descriptor("个人想法", "review_raw_text", "个人想法", true, "跳过后，我会只用统计和笔记概览继续分析。")
    } else if text_eq(api_name, EXPORT_REPORT_API) {
        make_descriptor("本地报告文件", "local_report", "本地报告", false, "跳过后，不会保存这份报告。")
    } else if text_eq(api_name, "/store/search") || text_eq(api_name, "/book/info") || text_eq(
        api_name,
        "/book/chapterinfo",
    ) || text_eq(api_name, "/book/getprogress") {
        make_descriptor("书籍信息", "book_info", "书籍信息", false, "跳过后，我会少一些关于具体书籍的判断。")
    } else {
        make_descriptor("阅读数据", "reading_data", "阅读数据", false, "跳过后，我会基于已有信息继续分析。")
    }
}

pub open spec fn bool_text(b: bool) -> Seq<char> {
    if b {
        "true"@
    } else {
        "false"@
    }
}

/// The key a consent for a call is remembered by: the call, what it reads
/// and whether that is the user's own text.
pub open spec fn consent_key(api: Seq<char>) -> Seq<char> {
    let d = descriptor_for(api);
    api + "|"@ + join_sep(d.data_categories, "+"@) + "|raw:"@ + bool_text(d.contains_raw_text)
}

fn push_text(v: &mut Vec<String>, s: &str)
    ensures
        texts(final(v)@) == texts(old(v)@).push(s@),
{
    v.push(owned(s));
    assert(texts(v@) == texts(old(v)@).push(s@));
}

/// The key a consent for a call is remembered by.
pub fn consent_key_for_api(api_name: &str) -> (k: String)
    ensures
        k@ == consent_key(api_name@),
{
    let d = privacy_descriptor(api_name);
    let mut categories: Vec<String> = Vec::new();
    for i in 0..d.data_categories.len()
        invariant
            texts(categories@) == d.view().data_categories.take(i as int),
            d.view() == descriptor_for(api_name@),
    {
        push_text(&mut categories, d.data_categories[i]);
        assert(d.view().data_categories[i as int] == d.data_categories@[i as int]@);
        assert(d.view().data_categories.take(i + 1) == d.view().data_categories.take(i as int).push(
            d.data_categories@[i as int]@,
        ));
    }
    assert(d.view().data_categories.take(d.data_categories@.len() as int) == d.view().data_categories);
    let mut k = owned(api_name);
    push_str(&mut k, "|");
    let joined = join_with(&categories, "+");
    push_str(&mut k, joined.as_str());
    push_str(&mut k, "|raw:");
    push_str(
        &mut k,
        if d.contains_raw_text {
            "true"
        } else {
            "false"
        },
    );
    k
}

pub const CONSENT_TITLE: &'static str = "确认读取笔记内容";

pub const RAW_DESTINATION: &'static str = "内容会发送到你配置的 AI 服务用于分析，不会发送到书迹服务器。";

pub const OVERVIEW_DESTINATION: &'static str = "这次读取主要用于整理你的阅读概览。";

/// The consent prompt for a read.
pub fn build_consent_request(purpose: &str, descriptor: &PrivacyDescriptor) -> (r: ConsentRequest)
    ensures
        r.title@ == CONSENT_TITLE@,
        r.purpose@ == purpose@,
        r.read_description@ == "书迹 AI 需要读取"@ + descriptor.display_name@ + "，用于回答这次问题。"@,
        r.destination_description@ == (if descriptor.contains_raw_text {
            RAW_DESTINATION@
        } else {
            OVERVIEW_DESTINATION@
        }),
        r.denial_effect@ == descriptor.denial_effect@,
{
    let mut read = owned("书迹 AI 需要读取");
    push_str(&mut read, descriptor.display_name);
    push_str(&mut read, "，用于回答这次问题。");
    ConsentRequest {
        title: owned(CONSENT_TITLE),
        purpose: owned(purpose),
        read_description: read,
        destination_description: if descriptor.contains_raw_text {
            owned(RAW_DESTINATION)
        } else {
            owned(OVERVIEW_DESTINATION)
        },
        denial_effect: owned(descriptor.denial_effect),
    }
}

/// How a read's status is shown.
pub open spec fn status_label(status: Seq<char>) -> Seq<char> {
    if status == "completed"@ {
        "已读取"@
    } else if status == "denied"@ {
        "未读取"@
    } else if status == "failed"@ {
        "读取失败"@
    } else if status == "pending"@ {
        "等待确认"@
    } else {
        "已处理"@
    }
}

fn status_label_of(status: &str) -> (r: &'static str)
    ensures
        r@ == status_label(status@),
{
    if text_eq(status, "completed") {
        "已读取"
    } else if text_eq(status, "denied") {
        "未读取"
    } else if text_eq(status, "failed") {
        "读取失败"
    } else if text_eq(status, "pending") {
        "等待确认"
    } else {
        "已处理"
    }
}

fn strings_of(v: &Vec<&'static str>) -> (r: Vec<String>)
    ensures
        texts(r@) == v@.map_values(|s: &'static str| s@),
{
    let mut r: Vec<String> = Vec::new();
    for i in 0..v.len()
        invariant
            texts(r@) == v@.map_values(|s: &'static str| s@).take(i as int),
    {
        push_text(&mut r, v[i]);
        assert(v@.map_values(|s: &'static str| s@).take(i + 1) == v@.map_values(
            |s: &'static str| s@,
        ).take(i as int).push(v@[i as int]@));
    }
    assert(v@.map_values(|s: &'static str| s@).take(v@.len() as int) == v@.map_values(
        |s: &'static str| s@,
    ));
    r
}

/// The record of a read through the gateway. A saved report stays on this
/// machine; everything else goes to the AI service the user configured.
pub fn build_access_record(
    call_id: &str,
    api_name: &str,
    purpose: &str,
    privacy_level: &str,
    status: &str,
    descriptor: &PrivacyDescriptor,
) -> (r: DataAccessRecord)
    ensures
        r.call_id@ == call_id@,
        r.api_name@ == api_name@,
        r.display_name@ == descriptor.display_name@,
        r.purpose@ == purpose@,
        texts(r.data_categories@) == descriptor.view().data_categories,
        texts(r.data_category_labels@) == descriptor.view().data_category_labels,
        r.privacy_level@ == privacy_level@,
        r.contains_raw_text == descriptor.contains_raw_text,
        r.destination@ == (if api_name@ == EXPORT_REPORT_API@ {
            "local_only"@
        } else {
            "user_configured_llm"@
        }),
        r.scope is None,
        r.status@ == status@,
        r.denial_effect@ == descriptor.denial_effect@,
        r.summary_text@ == status_label(status@) + "："@ + descriptor.display_name@,
{
    let mut summary = owned(status_label_of(status));
    push_str(&mut summary, "：");
    push_str(&mut summary, descriptor.display_name);
    DataAccessRecord {
        call_id: owned(call_id),
        api_name: owned(api_name),
        display_name: owned(descriptor.display_name),
        purpose: owned(purpose),
        data_categories: strings_of(&descriptor.data_categories),
        data_category_labels: strings_of(&descriptor.data_category_labels),
        privacy_level: owned(privacy_level),
        contains_raw_text: descriptor.contains_raw_text,
        destination: if text_eq(api_name, EXPORT_REPORT_API) {
            owned("local_only")
        } else {
            owned("user_configured_llm")
        },
        scope: None,
        status: owned(status),
        denial_effect: owned(descriptor.denial_effect),
        summary_text: summary,
    }
}

/// The record filed under the tool call that made the read.
pub fn with_call_id(record: DataAccessRecord, call_id: &str) -> (r: DataAccessRecord)
    ensures
        r.call_id@ == call_id@,
        r == (DataAccessRecord { call_id: r.call_id, ..record }),
{
    let mut record = record;
    record.call_id = owned(call_id);
    record
}

/// The record of a read the user refused.
pub fn denied_record(record: DataAccessRecord, call_id: &str) -> (r: DataAccessRecord)
    ensures
        r.call_id@ == call_id@,
        r.status@ == "denied"@,
        r.summary_text@ == "未读取："@ + record.display_name@,
        r == (DataAccessRecord {
            call_id: r.call_id,
            status: r.status,
            summary_text: r.summary_text,
            ..record
        }),
{
    let mut record = record;
    record.call_id = owned(call_id);
    record.status = owned("denied");
    let mut summary = owned("未读取：");
    push_str(&mut summary, record.display_name.as_str());
    record.summary_text = summary;
    record
}

// ---------------------------------------------------------------------
// What a chat turn read
// ---------------------------------------------------------------------

/// `acc` with those of `labels` it lacks appended, in their order.
pub open spec fn add_new(acc: Seq<Seq<char>>, labels: Seq<Seq<char>>) -> Seq<Seq<char>>
    decreases labels.len(),
{
    if labels.len() == 0 {
        acc
    } else {
        let a = add_new(acc, labels.drop_last());
        if a.contains(labels.last()) {
            a
        } else {
            a.push(labels.last())
        }
    }
}

/// The labels of what the completed reads read, each once, in the order
/// they first came.
pub open spec fn read_labels(records: Seq<DataAccessRecord>) -> Seq<Seq<char>>
    decreases records.len(),
{
    if records.len() == 0 {
        Seq::empty()
    } else {
        let prev = read_labels(records.drop_last());
        if records.last().status@ == "completed"@ {
            add_new(prev, texts(records.last().data_category_labels@))
        } else {
            prev
        }
    }
}

/// Some read of the user's own text has this status.
pub open spec fn raw_with_status(records: Seq<DataAccessRecord>, status: Seq<char>) -> bool {
    exists|i: int|
        0 <= i < records.len() && (#[trigger] records[i]).contains_raw_text && records[i].status@
            == status
}

pub const NOTHING_READ_DENIED: &'static str = "本轮未读取划线或想法原文，仅基于已有信息继续。";

pub const NOTHING_READ: &'static str = "本轮没有读取新的阅读数据。";

pub const READ_RAW_NOTE: &'static str = "；包含你确认读取的划线或想法";

pub const NO_RAW_NOTE: &'static str = "；未读取划线或想法原文";

/// The summary of what a chat turn read.
pub open spec fn access_summary(records: Seq<DataAccessRecord>) -> Seq<char> {
    let labels = read_labels(records);
    if labels.len() == 0 {
        if raw_with_status(records, "denied"@) {
            NOTHING_READ_DENIED@
        } else {
            NOTHING_READ@
        }
    } else {
        "本轮读取："@ + join_sep(labels, "、"@) + if raw_with_status(records, "completed"@) {
            READ_RAW_NOTE@
        } else {
            NO_RAW_NOTE@
        }
    }
}

proof fn lemma_add_new(acc: Seq<Seq<char>>, labels: Seq<Seq<char>>)
    ensures
        forall|x: Seq<char>| #[trigger] add_new(acc, labels).contains(x) <==> acc.contains(x) || labels.contains(x),
        acc.no_duplicates() ==> add_new(acc, labels).no_duplicates(),
    decreases labels.len(),
{
    if labels.len() > 0 {
        let rest = labels.drop_last();
        lemma_add_new(acc, rest);
        let a = add_new(acc, rest);
        assert forall|x: Seq<char>| #[trigger] labels.contains(x) <==> rest.contains(x) || x == labels.last() by {
            if labels.contains(x) {
                let k = choose|k: int| 0 <= k < labels.len() && labels[k] == x;
                if k < labels.len() - 1 {
                    assert(rest[k] == x);
                }
            }
            if rest.contains(x) {
                let k = choose|k: int| 0 <= k < rest.len() && rest[k] == x;
                assert(labels[k] == x);
            }
            if x == labels.last() {
                assert(labels[labels.len() - 1] == x);
            }
        }
        if !a.contains(labels.last()) {
            assert forall|x: Seq<char>| #[trigger] a.push(labels.last()).contains(x) <==> a.contains(x) || x
                == labels.last() by {
                if a.push(labels.last()).contains(x) {
                    let k = choose|k: int| 0 <= k < a.len() + 1 && a.push(labels.last())[k] == x;
                    if k < a.len() {
                        assert(a[k] == x);
                    }
                }
                if a.contains(x) {
                    let k = choose|k: int| 0 <= k < a.len() && a[k] == x;
                    assert(a.push(labels.last())[k] == x);
                }
                if x == labels.last() {
                    assert(a.push(labels.last())[a.len() as int] == x);
                }
            }
        }
    }
}

/// A read of these records that completed and named this label.
pub open spec fn completed_read_of(records: Seq<DataAccessRecord>, label: Seq<char>) -> bool {
    exists|i: int|
        0 <= i < records.len() && (#[trigger] records[i]).status@ == "completed"@ && texts(
            records[i].data_category_labels@,
        ).contains(label)
}

proof fn lemma_read_labels(records: Seq<DataAccessRecord>)
    ensures
        forall|l: Seq<char>| #[trigger] read_labels(records).contains(l) <==> completed_read_of(records, l),
        read_labels(records).no_duplicates(),
    decreases records.len(),
{
    if records.len() > 0 {
        let rest = records.drop_last();
        lemma_read_labels(rest);
        let last = records.last();
        lemma_add_new(read_labels(rest), texts(last.data_category_labels@));
        assert forall|l: Seq<char>| #[trigger] completed_read_of(records, l) <==> completed_read_of(rest, l) || (
        last.status@ == "completed"@ && texts(last.data_category_labels@).contains(l)) by {
            if completed_read_of(records, l) {
                let i = choose|i: int|
                    0 <= i < records.len() && (#[trigger] records[i]).status@ == "completed"@ && texts(
                        records[i].data_category_labels@,
                    ).contains(l);
                if i < records.len() - 1 {
                    assert(rest[i] == records[i]);
                }
            }
            if completed_read_of(rest, l) {
                let i = choose|i: int|
                    0 <= i < rest.len() && (#[trigger] rest[i]).status@ == "completed"@ && texts(
                        rest[i].data_category_labels@,
                    ).contains(l);
                assert(records[i] == rest[i]);
            }
            if last.status@ == "completed"@ && texts(last.data_category_labels@).contains(l) {
                assert(records[records.len() - 1] == last);
            }
        }
    }
}

/// The summary of a chat turn names exactly what its completed reads read:
/// a label follows `本轮读取：` exactly when some read with status
/// `completed` carried it, each label once; a turn whose reads all failed,
/// were refused or are pending says that nothing new was read.
pub proof fn law_summary_names_completed_reads(records: Seq<DataAccessRecord>)
    ensures
        forall|l: Seq<char>| #[trigger] read_labels(records).contains(l) <==> completed_read_of(records, l),
        read_labels(records).no_duplicates(),
        (forall|l: Seq<char>| !#[trigger] completed_read_of(records, l)) ==> (access_summary(records)
            == NOTHING_READ@ || access_summary(records) == NOTHING_READ_DENIED@),
        (exists|l: Seq<char>| #[trigger] completed_read_of(records, l)) ==> access_summary(records)
            == "本轮读取："@ + join_sep(read_labels(records), "、"@) + (if raw_with_status(
            records,
            "completed"@,
        ) {
            READ_RAW_NOTE@
        } else {
            NO_RAW_NOTE@
        }),
{
    lemma_read_labels(records);
    let labels = read_labels(records);
    if labels.len() > 0 {
        assert(labels.contains(labels[0]));
        assert(completed_read_of(records, labels[0]));
    } else {
        assert forall|l: Seq<char>| completed_read_of(records, l) implies false by {
            assert(read_labels(records).contains(l));
        }
    }
}

fn contains_text(v: &Vec<String>, s: &String) -> (b: bool)
    ensures
        b == texts(v@).contains(s@),
{
    let mut j: usize = 0;
    while j < v.len()
        invariant
            j <= v@.len(),
            forall|k: int| 0 <= k < j ==> v@[k]@ != s@,
        decreases v@.len() - j,
    {
        if text_eq(v[j].as_str(), s.as_str()) {
            assert(texts(v@)[j as int] == s@);
            return true;
        }
        j = j + 1;
    }
    false
}

/// Summarizes what a chat turn read, for the user.
pub fn access_summary_text(records: &Vec<DataAccessRecord>) -> (r: String)
    ensures
        r@ == access_summary(records@),
        (forall|l: Seq<char>| !#[trigger] completed_read_of(records@, l)) ==> (r@ == NOTHING_READ@ || r@
            == NOTHING_READ_DENIED@),
{
    proof {
        law_summary_names_completed_reads(records@);
    }
    let mut labels: Vec<String> = Vec::new();
    let mut denied_raw = false;
    let mut read_raw = false;
    for i in 0..records.len()
        invariant
            texts(labels@) == read_labels(records@.take(i as int)),
            denied_raw == raw_with_status(records@.take(i as int), "denied"@),
            read_raw == raw_with_status(records@.take(i as int), "completed"@),
    {
        let ghost before = records@.take(i as int);
        let ghost now = records@.take(i + 1);
        assert(now.drop_last() == before);
        assert(now.last() == records@[i as int]);
        let record = &records[i];
        let is_denied = text_eq(record.status.as_str(), "denied");
        let is_completed = text_eq(record.status.as_str(), "completed");
        proof {
            assert forall|s: Seq<char>| raw_with_status(now, s) == (raw_with_status(before, s) || (
            records@[i as int].contains_raw_text && records@[i as int].status@ == s)) by {
                if raw_with_status(now, s) {
                    let k = choose|k: int|
                        0 <= k < now.len() && (#[trigger] now[k]).contains_raw_text && now[k].status@
                            == s;
                    if k < i {
                        assert(before[k] == now[k]);
                    }
                }
                if raw_with_status(before, s) {
                    let k = choose|k: int|
                        0 <= k < before.len() && (#[trigger] before[k]).contains_raw_text
                            && before[k].status@ == s;
                    assert(now[k] == before[k]);
                }
                if records@[i as int].contains_raw_text && records@[i as int].status@ == s {
                    assert(now[i as int] == records@[i as int]);
                }
            }
        }
        if record.contains_raw_text && is_denied {
            denied_raw = true;
        }
        if record.contains_raw_text && is_completed {
            read_raw = true;
        }
        if is_completed {
            let ls = &record.data_category_labels;
            let ghost start = texts(labels@);
            for j in 0..ls.len()
                invariant
                    texts(labels@) == add_new(start, texts(ls@.take(j as int))),
            {
                assert(texts(ls@.take(j + 1)).drop_last() == texts(ls@.take(j as int)));
                assert(texts(ls@.take(j + 1)).last() == ls@[j as int]@);
                if !contains_text(&labels, &ls[j]) {
                    labels.push(ls[j].clone());
                    assert(texts(labels@) == add_new(start, texts(ls@.take(j as int))).push(ls@[j as int]@));
                }
            }
            assert(ls@.take(ls@.len() as int) == ls@);
        }
    }
    assert(records@.take(records@.len() as int) == records@);
    if labels.len() == 0 {
        if denied_raw {
            return owned(NOTHING_READ_DENIED);
        }
        return owned(NOTHING_READ);
    }
    let mut r = owned("本轮读取：");
    let joined = join_with(&labels, "、");
    push_str(&mut r, joined.as_str());
    push_str(
        &mut r,
        if read_raw {
            READ_RAW_NOTE
        } else {
            NO_RAW_NOTE
        },
    );
    r
}

// ---------------------------------------------------------------------
// Granted consents
// ---------------------------------------------------------------------

/// How long a consent lasts: for one chat run, for the conversation, or
/// until the application restarts.
#[derive(Clone, Debug)]
pub enum ConsentLevel {
    Job { job_id: String },
    Conversation,
    App,
}

/// A consent's reach by the characters of the run it belongs to.
pub enum GrantScope {
    Job(Seq<char>),
    Conversation,
    App,
}

pub open spec fn scope_of(level: ConsentLevel) -> GrantScope {
    match level {
        ConsentLevel::Job { job_id } => GrantScope::Job(job_id@),
        ConsentLevel::Conversation => GrantScope::Conversation,
        ConsentLevel::App => GrantScope::App,
    }
}

/// One consent: its reach and the key of what it allows.
#[derive(Clone, Debug)]
pub struct ConsentGrant {
    pub level: ConsentLevel,
    pub key: String,
}

pub open spec fn grant_view(g: ConsentGrant) -> (GrantScope, Seq<char>) {
    (scope_of(g.level), g.key@)
}

/// The consents the user granted in this session.
pub struct ConsentStore {
    grants: Vec<ConsentGrant>,
}

/// The grants a list holds.
pub open spec fn grant_set(v: Seq<ConsentGrant>) -> Set<(GrantScope, Seq<char>)> {
    Set::new(|g: (GrantScope, Seq<char>)| exists|i: int| 0 <= i < v.len() && #[trigger] grant_view(v[i]) == g)
}

impl View for ConsentStore {
    type V = Set<(GrantScope, Seq<char>)>;

    closed spec fn view(&self) -> Set<(GrantScope, Seq<char>)> {
        grant_set(self.grants@)
    }
}

/// A key counts as granted for a run when it was granted for that run, for
/// the conversation, or for the application.
pub open spec fn granted_for(s: Set<(GrantScope, Seq<char>)>, job_id: Seq<char>, key: Seq<char>) -> bool {
    s.contains((GrantScope::Job(job_id), key)) || s.contains((GrantScope::Conversation, key))
        || s.contains((GrantScope::App, key))
}

/// The grants after consenting to a call for a run; `scope` `session`
/// extends it to the conversation and `app` to the application.
pub open spec fn after_grant(
    s: Set<(GrantScope, Seq<char>)>,
    job_id: Seq<char>,
    api: Seq<char>,
    scope: Option<Seq<char>>,
) -> Set<(GrantScope, Seq<char>)> {
    let key = consent_key(api);
    let s1 = s.insert((GrantScope::Job(job_id), key));
    if scope == Some("session"@) {
        s1.insert((GrantScope::Conversation, key))
    } else if scope == Some("app"@) {
        s1.insert((GrantScope::App, key))
    } else {
        s1
    }
}

pub open spec fn is_app(g: (GrantScope, Seq<char>)) -> bool {
    g.0 is App
}

pub open spec fn of_job(g: (GrantScope, Seq<char>), job_id: Seq<char>) -> bool {
    g.0 == GrantScope::Job(job_id)
}

/// A grant counts for a run.
pub open spec fn applies_to(g: ConsentGrant, job_id: Seq<char>) -> bool {
    match g.level {
        ConsentLevel::Job { job_id: j } => j@ == job_id,
        _ => true,
    }
}

/// The keys that count for a run, each once, in the order first granted.
pub open spec fn keys_for(v: Seq<ConsentGrant>, job_id: Seq<char>) -> Seq<Seq<char>>
    decreases v.len(),
{
    if v.len() == 0 {
        Seq::empty()
    } else {
        let p = keys_for(v.drop_last(), job_id);
        if applies_to(v.last(), job_id) && !p.contains(v.last().key@) {
            p.push(v.last().key@)
        } else {
            p
        }
    }
}

proof fn lemma_keys_for(v: Seq<ConsentGrant>, job_id: Seq<char>, k: Seq<char>)
    ensures
        keys_for(v, job_id).contains(k) == exists|i: int|
            0 <= i < v.len() && applies_to(#[trigger] v[i], job_id) && v[i].key@ == k,
    decreases v.len(),
{
    if v.len() > 0 {
        let w = v.drop_last();
        let x = v.last();
        lemma_keys_for(w, job_id, k);
        let p = keys_for(w, job_id);
        if applies_to(x, job_id) && !p.contains(x.key@) {
            let q = p.push(x.key@);
            if q.contains(k) {
                let m = choose|m: int| 0 <= m < q.len() && q[m] == k;
                if m < p.len() {
                    assert(p[m] == k);
                }
            }
            if p.contains(k) {
                let m = choose|m: int| 0 <= m < p.len() && p[m] == k;
                assert(q[m] == k);
            }
            if x.key@ == k {
                assert(q[p.len() as int] == k);
            }
        }
        if exists|i: int| 0 <= i < v.len() && applies_to(#[trigger] v[i], job_id) && v[i].key@ == k {
            let i = choose|i: int| 0 <= i < v.len() && applies_to(#[trigger] v[i], job_id) && v[i].key@ == k;
            if i < w.len() {
                assert(w[i] == v[i]);
            } else {
                assert(v[i] == x);
            }
        }
        if exists|i: int| 0 <= i < w.len() && applies_to(#[trigger] w[i], job_id) && w[i].key@ == k {
            let i = choose|i: int| 0 <= i < w.len() && applies_to(#[trigger] w[i], job_id) && w[i].key@ == k;
            assert(v[i] == w[i]);
        }
        if applies_to(x, job_id) && x.key@ == k {
            assert(v[v.len() - 1] == x);
        }
    }
}

proof fn lemma_keys_for_distinct(v: Seq<ConsentGrant>, job_id: Seq<char>)
    ensures
        forall|a: int, b: int|
            0 <= a < b < keys_for(v, job_id).len() ==> #[trigger] keys_for(v, job_id)[a]
                != #[trigger] keys_for(v, job_id)[b],
    decreases v.len(),
{
    if v.len() > 0 {
        let w = v.drop_last();
        let x = v.last();
        lemma_keys_for_distinct(w, job_id);
        let p = keys_for(w, job_id);
        if applies_to(x, job_id) && !p.contains(x.key@) {
            let q = p.push(x.key@);
            assert forall|a: int, b: int| 0 <= a < b < q.len() implies #[trigger] q[a] != #[trigger] q[b] by {
                if b == p.len() {
                    if q[a] == q[b] {
                        assert(p[a] == x.key@);
                        assert(p.contains(x.key@));
                    }
                } else {
                    assert(q[a] == p[a] && q[b] == p[b]);
                }
            }
        }
    }
}

/// The grants of a list as a set, one element more.
proof fn lemma_grant_set_last(v: Seq<ConsentGrant>)
    requires
        v.len() > 0,
    ensures
        grant_set(v) == grant_set(v.drop_last()).insert(grant_view(v.last())),
{
    let w = v.drop_last();
    assert forall|x: (GrantScope, Seq<char>)| #![auto] grant_set(v).contains(x)
        == grant_set(w).insert(grant_view(v.last())).contains(x) by {
        if grant_set(v).contains(x) {
            let i = choose|i: int| 0 <= i < v.len() && #[trigger] grant_view(v[i]) == x;
            if i < w.len() {
                assert(w[i] == v[i]);
            }
        }
        if grant_set(w).contains(x) {
            let i = choose|i: int| 0 <= i < w.len() && #[trigger] grant_view(w[i]) == x;
            assert(v[i] == w[i]);
        }
        if x == grant_view(v.last()) {
            assert(grant_view(v[v.len() - 1]) == x);
        }
    }
    assert(grant_set(v) =~= grant_set(w).insert(grant_view(v.last())));
}

proof fn lemma_granted_for(v: Seq<ConsentGrant>, job_id: Seq<char>, k: Seq<char>)
    ensures
        granted_for(grant_set(v), job_id, k) == exists|i: int|
            0 <= i < v.len() && applies_to(#[trigger] v[i], job_id) && v[i].key@ == k,
{
    if granted_for(grant_set(v), job_id, k) {
        let g = if grant_set(v).contains((GrantScope::Job(job_id), k)) {
            (GrantScope::Job(job_id), k)
        } else if grant_set(v).contains((GrantScope::Conversation, k)) {
            (GrantScope::Conversation, k)
        } else {
            (GrantScope::App, k)
        };
        let i = choose|i: int| 0 <= i < v.len() && #[trigger] grant_view(v[i]) == g;
        assert(applies_to(v[i], job_id));
    }
    if exists|i: int| 0 <= i < v.len() && applies_to(#[trigger] v[i], job_id) && v[i].key@ == k {
        let i = choose|i: int| 0 <= i < v.len() && applies_to(#[trigger] v[i], job_id) && v[i].key@ == k;
        assert(grant_set(v).contains(grant_view(v[i])));
    }
}

/// Which grants stay: only the application's, or all but a run's.
pub open spec fn keeps_view(g: (GrantScope, Seq<char>), app_only: bool, job_id: Seq<char>) -> bool {
    if app_only {
        is_app(g)
    } else {
        !of_job(g, job_id)
    }
}

pub open spec fn kept(v: Seq<ConsentGrant>, app_only: bool, job_id: Seq<char>) -> Seq<ConsentGrant>
    decreases v.len(),
{
    if v.len() == 0 {
        v
    } else {
        let p = kept(v.drop_last(), app_only, job_id);
        let keep = match v.last().level {
            ConsentLevel::App => true,
            ConsentLevel::Conversation => !app_only,
            ConsentLevel::Job { job_id: j } => !app_only && j@ != job_id,
        };
        if keep {
            p.push(v.last())
        } else {
            p
        }
    }
}

proof fn lemma_kept(v: Seq<ConsentGrant>, app_only: bool, job_id: Seq<char>)
    ensures
        grant_set(kept(v, app_only, job_id)) == grant_set(v).filter(
            |g: (GrantScope, Seq<char>)| keeps_view(g, app_only, job_id),
        ),
    decreases v.len(),
{
    let f = |g: (GrantScope, Seq<char>)| keeps_view(g, app_only, job_id);
    if v.len() == 0 {
        assert(grant_set(kept(v, app_only, job_id)) =~= grant_set(v).filter(f));
    } else {
        lemma_kept(v.drop_last(), app_only, job_id);
        lemma_grant_set_last(v);
        let p = kept(v.drop_last(), app_only, job_id);
        let keep = f(grant_view(v.last()));
        if keep {
            let q = p.push(v.last());
            assert(q.drop_last() == p);
            lemma_grant_set_last(q);
        }
        assert(grant_set(kept(v, app_only, job_id)) =~= grant_set(v).filter(f));
    }
}

impl ConsentStore {
    /// No consents.
    pub fn new() -> (s: Self)
        ensures
            s@ == Set::<(GrantScope, Seq<char>)>::empty(),
    {
        let s = ConsentStore { grants: Vec::new() };
        assert(s@ =~= Set::<(GrantScope, Seq<char>)>::empty());
        s
    }

    fn add(&mut self, level: ConsentLevel, key: String)
        ensures
            final(self)@ == old(self)@.insert((scope_of(level), key@)),
    {
        let ghost before = self.grants@;
        let g = ConsentGrant { level, key };
        self.grants.push(g);
        proof {
            let s = self.grants@;
            assert forall|x: (GrantScope, Seq<char>)| #![auto] grant_set(s).contains(x)
                == grant_set(before).insert((scope_of(level), key@)).contains(x) by {
                if grant_set(before).contains(x) {
                    let i = choose|i: int| 0 <= i < before.len() && #[trigger] grant_view(before[i]) == x;
                    assert(s[i] == before[i]);
                }
                if x == (scope_of(level), key@) {
                    assert(grant_view(s[before.len() as int]) == x);
                }
                if grant_set(s).contains(x) {
                    let i = choose|i: int| 0 <= i < s.len() && #[trigger] grant_view(s[i]) == x;
                    if i < before.len() {
                        assert(s[i] == before[i]);
                    }
                }
            }
            assert(grant_set(s) =~= grant_set(before).insert((scope_of(level), key@)));
        }
    }

    /// Remembers a consent to a call for a run, and, by `scope`, for the
    /// conversation (`session`) or the application (`app`).
    pub fn grant_api_consent(&mut self, job_id: &str, api_name: &str, scope: Option<&str>)
        ensures
            final(self)@ == after_grant(
                old(self)@,
                job_id@,
                api_name@,
                crate::templates::opt_str_view(scope),
            ),
    {
        let key = consent_key_for_api(api_name);
        self.add(ConsentLevel::Job { job_id: owned(job_id) }, key.clone());
        match scope {
            Some(s) => {
                if text_eq(s, "session") {
                    self.add(ConsentLevel::Conversation, key);
                } else if text_eq(s, "app") {
                    self.add(ConsentLevel::App, key);
                }
            },
            None => {},
        }
    }

    /// The keys granted for a run, each once.
    pub fn get_granted_consents(&self, job_id: &str) -> (r: Vec<String>)
        ensures
            forall|k: Seq<char>| texts(r@).contains(k) == granted_for(self@, job_id@, k),
            forall|a: int, b: int|
                0 <= a < b < r@.len() ==> (#[trigger] r@[a])@ != (#[trigger] r@[b])@,
    {
        let ghost v = self.grants@;
        let mut r: Vec<String> = Vec::new();
        for i in 0..self.grants.len()
            invariant
                v == self.grants@,
                texts(r@) == keys_for(v.take(i as int), job_id@),
        {
            assert(v.take(i + 1).drop_last() == v.take(i as int));
            assert(v.take(i + 1).last() == v[i as int]);
            let applies = match &self.grants[i].level {
                ConsentLevel::Job { job_id: j } => text_eq(j.as_str(), job_id),
                _ => true,
            };
            if applies && !contains_text(&r, &self.grants[i].key) {
                let ghost before = texts(r@);
                r.push(self.grants[i].key.clone());
                assert(texts(r@) == before.push(v[i as int].key@));
            }
        }
        proof {
            assert(v.take(v.len() as int) == v);
            lemma_keys_for_distinct(v, job_id@);
            assert forall|k: Seq<char>| texts(r@).contains(k) == granted_for(self@, job_id@, k) by {
                lemma_keys_for(v, job_id@, k);
                lemma_granted_for(v, job_id@, k);
            }
            assert forall|a: int, b: int| 0 <= a < b < r@.len() implies (#[trigger] r@[a])@ != (#[trigger] r@[b])@ by {
                assert(texts(r@)[a] == r@[a]@ && texts(r@)[b] == r@[b]@);
            }
        }
        r
    }

    fn retain_where(&mut self, app_only: bool, job_id: &str)
        ensures
            final(self)@ == old(self)@.filter(|g: (GrantScope, Seq<char>)| keeps_view(g, app_only, job_id@)),
    {
        let ghost before = self.grants@;
        let mut out: Vec<ConsentGrant> = Vec::new();
        let n = self.grants.len();
        for i in 0..n
            invariant
                n == before.len(),
                before == self.grants@,
                out@ == kept(before.take(i as int), app_only, job_id@),
        {
            assert(before.take(i + 1).drop_last() == before.take(i as int));
            assert(before.take(i + 1).last() == before[i as int]);
            let keep_it = match &self.grants[i].level {
                ConsentLevel::App => true,
                ConsentLevel::Conversation => !app_only,
                ConsentLevel::Job { job_id: j } => !app_only && !text_eq(j.as_str(), job_id),
            };
            if keep_it {
                out.push(self.grants[i].clone_grant());
            }
        }
        assert(before.take(n as int) == before);
        self.grants = out;
        proof {
            lemma_kept(before, app_only, job_id@);
        }
    }

    /// Starts a new conversation: only the consents for the application stay.
    pub fn clear_conversation_consents(&mut self)
        ensures
            final(self)@ == old(self)@.filter(|g: (GrantScope, Seq<char>)| is_app(g)),
    {
        self.retain_where(true, "");
        assert(old(self)@.filter(|g: (GrantScope, Seq<char>)| keeps_view(g, true, ""@)) =~= old(self)@.filter(
            |g: (GrantScope, Seq<char>)| is_app(g),
        ));
    }

    /// Forgets the consents of a finished run; wider ones stay.
    pub fn cleanup_consent(&mut self, job_id: &str)
        ensures
            final(self)@ == old(self)@.filter(|g: (GrantScope, Seq<char>)| !of_job(g, job_id@)),
    {
        self.retain_where(false, job_id);
        assert(old(self)@.filter(|g: (GrantScope, Seq<char>)| keeps_view(g, false, job_id@)) =~= old(
            self,
        )@.filter(|g: (GrantScope, Seq<char>)| !of_job(g, job_id@)));
    }
}

impl ConsentGrant {
    /// A field-by-field copy.
    pub fn clone_grant(&self) -> (r: ConsentGrant)
        ensures
            r == *self,
    {
        ConsentGrant {
            level: match &self.level {
                ConsentLevel::Job { job_id } => ConsentLevel::Job { job_id: job_id.clone() },
                ConsentLevel::Conversation => ConsentLevel::Conversation,
                ConsentLevel::App => ConsentLevel::App,
            },
            key: self.key.clone(),
        }
    }
}

/// A consent just granted counts for its run, and for every run when it
/// was granted for the conversation or the application.
pub proof fn law_grant_is_remembered(
    s: Set<(GrantScope, Seq<char>)>,
    job_id: Seq<char>,
    api: Seq<char>,
    scope: Option<Seq<char>>,
    other_job: Seq<char>,
)
    ensures
        granted_for(after_grant(s, job_id, api, scope), job_id, consent_key(api)),
        scope == Some("session"@) || scope == Some("app"@) ==> granted_for(
            after_grant(s, job_id, api, scope),
            other_job,
            consent_key(api),
        ),
        forall|k: Seq<char>| granted_for(s, other_job, k) ==> granted_for(after_grant(s, job_id, api, scope), other_job, k),
{
    reveal_strlit("session");
    reveal_strlit("app");
    let key = consent_key(api);
    assert(after_grant(s, job_id, api, scope).contains((GrantScope::Job(job_id), key)));
}

/// A new conversation keeps exactly the consents granted for the
/// application: for any run, a key counts as granted afterwards exactly
/// when it was granted for the application.
pub proof fn law_new_conversation_keeps_app_consents(
    s: Set<(GrantScope, Seq<char>)>,
    job_id: Seq<char>,
    key: Seq<char>,
)
    ensures
        granted_for(s.filter(|g: (GrantScope, Seq<char>)| is_app(g)), job_id, key) == s.contains(
            (GrantScope::App, key),
        ),
{
}

/// Forgetting a run's consents leaves the conversation's and the
/// application's, and other runs' consents untouched.
pub proof fn law_cleanup_keeps_wider_consents(
    s: Set<(GrantScope, Seq<char>)>,
    job_id: Seq<char>,
    other_job: Seq<char>,
    key: Seq<char>,
)
    requires
        other_job != job_id,
    ensures
        granted_for(s.filter(|g: (GrantScope, Seq<char>)| !of_job(g, job_id)), other_job, key)
            == granted_for(s, other_job, key),
        granted_for(s.filter(|g: (GrantScope, Seq<char>)| !of_job(g, job_id)), job_id, key) == (s.contains(
            (GrantScope::Conversation, key),
        ) || s.contains((GrantScope::App, key))),
{
}

} // verus!
