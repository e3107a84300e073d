//! Keeping a data gateway result small enough for the model's context.
use crate::chat::{first_chars, take_chars};
use crate::config::byte_len;
use crate::json::{compact_json, compact_json_text, Json, JsonMember};
use crate::text::{owned, push_chars};
use vstd::prelude::*;
use vstd::string::StringSliceAdditionalSpecFns;

verus! {

/// A result serialised to more bytes than this is shortened.
pub const MAX_RESULT_BYTES: usize = 8000;

/// At most this many items of a long list are kept.
pub const KEPT_ITEMS: usize = 20;

pub const TOO_LARGE_NOTE: &'static str = "数据过大已截断，请减少查询范围或分页查询";

/// A count as a JSON number.
pub open spec fn count_value(n: nat) -> Json {
    if n <= i64::MAX {
        Json::Int(n as i64)
    } else {
        Json::UInt(n as u64)
    }
}

fn count_json(n: usize) -> (j: Json)
    ensures
        j == count_value(n as nat),
{
    if n as u64 <= i64::MAX as u64 {
        Json::Int(n as i64)
    } else {
        Json::UInt(n as u64)
    }
}

/// `{"truncated": true, "total_count": n, "showing": k, "items": [first k]}`
/// for a list of `n` items, of which the first (at most 20) are kept.
pub open spec fn is_summary(j: Json, items: Seq<Json>) -> bool {
    let kept = if items.len() <= KEPT_ITEMS {
        items
    } else {
        items.take(KEPT_ITEMS as int)
    };
    j matches Json::Object(ms) && ms@.len() == 4 && ms@[0].key@ == "truncated"@ && ms@[0].value
        == Json::Bool(true) && ms@[1].key@ == "total_count"@ && ms@[1].value == count_value(items.len()) && ms@[2].key@ == "showing"@ && ms@[2].value == count_value(kept.len())
        && ms@[3].key@ == "items"@ && (ms@[3].value matches Json::Array(v) && v@ == kept)
}

/// `{"truncated": true, "raw": …, "note": …}` with the first 8000
/// characters of the serialised result.
pub open spec fn is_raw_note(j: Json, serialized: Seq<char>) -> bool {
    j matches Json::Object(ms) && ms@.len() == 3 && ms@[0].key@ == "truncated"@ && ms@[0].value
        == Json::Bool(true) && ms@[1].key@ == "raw"@ && (ms@[1].value matches Json::Str(s) && s@
        == first_chars(serialized, MAX_RESULT_BYTES as int)) && ms@[2].key@ == "note"@ && (
    ms@[2].value matches Json::Str(n) && n@ == TOO_LARGE_NOTE@)
}

/// A member of an object result, with a list of more than 20 items
/// summarised and anything else kept.
pub open spec fn member_shrunk(before: JsonMember, after: JsonMember) -> bool {
    &&& after.key@ == before.key@
    &&& match before.value {
        Json::Array(a) => if a@.len() > KEPT_ITEMS {
            is_summary(after.value, a@)
        } else {
            after.value == before.value
        },
        _ => after.value == before.value,
    }
}

/// What the gateway hands the model for a result `data` that serialises to
/// `serialized`: the result itself when it takes at most 8000 bytes; else
/// a summary of a list, an object with its long lists summarised, or the
/// first 8000 characters of anything else with a note.
pub open spec fn shrunk(data: Json, serialized: Seq<char>, r: Json) -> bool {
    if byte_len(serialized) <= MAX_RESULT_BYTES {
        r == data
    } else {
        match data {
            Json::Array(v) => is_summary(r, v@),
            Json::Object(ms) => r matches Json::Object(out) && out@.len() == ms@.len() && forall|i: int|
                0 <= i < ms@.len() ==> member_shrunk(ms@[i], #[trigger] out@[i]),
            _ => is_raw_note(r, serialized),
        }
    }
}

fn entry(key: &str, value: Json) -> (m: JsonMember)
    ensures
        m.key@ == key@,
        m.value == value,
{
    JsonMember { key: owned(key), value }
}

/// The summary of a list of items.
fn summarize(items: Vec<Json>) -> (j: Json)
    ensures
        is_summary(j, items@),
{
    let count = items.len();
    let ghost all = items@;
    let mut kept = items;
    if kept.len() > KEPT_ITEMS {
        kept.truncate(KEPT_ITEMS);
    }
    let showing = kept.len();
    let mut ms: Vec<JsonMember> = Vec::new();
    ms.push(entry("truncated", Json::Bool(true)));
    ms.push(entry("total_count", count_json(count)));
    ms.push(entry("showing", count_json(showing)));
    ms.push(entry("items", Json::Array(kept)));
    proof {
        reveal_strlit("truncated");
        reveal_strlit("total_count");
        reveal_strlit("showing");
        reveal_strlit("items");
        if all.len() > KEPT_ITEMS {
            assert(kept@ =~= all.take(KEPT_ITEMS as int));
        }
    }
    Json::Object(ms)
}

fn text_value(s: &str) -> (j: Json)
    ensures
        j matches Json::Str(t) && t@ == s@,
{
    Json::Str(owned(s))
}

/// Shortens a data gateway result that is too large for the model, going
/// by the length of its compact JSON text.
pub fn truncate_large_result(data: Json) -> (r: Json)
    ensures
        shrunk(data, compact_json_text(data), r),
{
    let text = compact_json(&data);
    let serialized = text.as_str();
    assert(serialized.spec_bytes() == vstd::utf8::encode_utf8(serialized@));
    if serialized.len() <= MAX_RESULT_BYTES {
        return data;
    }
    match data {
        Json::Array(items) => summarize(items),
        Json::Object(members) => {
            let ghost before = members@;
            let mut rest = members;
            let mut out: Vec<JsonMember> = Vec::new();
            let n = rest.len();
            while rest.len() > 0
                invariant
                    out@.len() + rest@.len() == n == before.len(),
                    rest@ == before.skip(out@.len() as int),
                    forall|i: int| 0 <= i < out@.len() ==> member_shrunk(before[i], #[trigger] out@[i]),
                decreases rest@.len(),
            {
                let k = out.len();
                let m = rest.remove(0);
                assert(m == before[k as int]);
                assert(rest@ =~= before.skip(k + 1));
                let JsonMember { key, value } = m;
                let shrunk_value = match value {
                    Json::Array(a) => {
                        if a.len() > KEPT_ITEMS {
                            summarize(a)
                        } else {
                            Json::Array(a)
                        }
                    },
                    other => other,
                };
                out.push(JsonMember { key, value: shrunk_value });
            }
            Json::Object(out)
        },
        other => {
            let head = take_chars(serialized, MAX_RESULT_BYTES);
            let mut raw = String::new();
            push_chars(&mut raw, &head);
            let mut ms: Vec<JsonMember> = Vec::new();
            ms.push(entry("truncated", Json::Bool(true)));
            ms.push(entry("raw", Json::Str(raw)));
            ms.push(entry("note", text_value(TOO_LARGE_NOTE)));
            Json::Object(ms)
        },
    }
}

} // verus!
