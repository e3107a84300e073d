//! JSON values as the services answer them, and reading fields out of them
//! the way the rest of the library does.
use crate::tasks::opt_view;
use crate::templates::opt_str_view;
use crate::chat::{json_quoted, quote_json};
use crate::text::{
    all_digits, chars_of, decimal_value, digit_value, int_decimal, is_digit, lemma_decimal_value_grows, nat_decimal,
    owned, push_i64, push_str, push_u64, text_eq,
};
use vstd::prelude::*;

verus! {

/// A JSON value. Numbers are kept as the field readers see them: a whole
/// number within `i64`, a whole number above it, or any other number by
/// its value truncated toward zero (saturating at the `i64` bounds) beside
/// its JSON text, which keeps it whole.
#[derive(Debug)]
pub enum Json {
    Null,
    Bool(bool),
    Int(i64),
    UInt(u64),
    Float { whole: i64, text: String },
    Str(String),
    Array(Vec<Json>),
    Object(Vec<JsonMember>),
}

/// A member of a JSON object.
#[derive(Debug)]
pub struct JsonMember {
    pub key: String,
    pub value: Json,
}

/// The value of the first member with this key.
pub open spec fn member(ms: Seq<JsonMember>, key: Seq<char>) -> Option<Json>
    decreases ms.len(),
{
    if ms.len() == 0 {
        None
    } else if ms[0].key@ == key {
        Some(ms[0].value)
    } else {
        member(ms.drop_first(), key)
    }
}

/// The first member with a key is the one found under it.
pub proof fn lemma_member_at(ms: Seq<JsonMember>, i: int, key: Seq<char>)
    requires
        0 <= i < ms.len(),
        ms[i].key@ == key,
        forall|k: int| 0 <= k < i ==> (#[trigger] ms[k]).key@ != key,
    ensures
        member(ms, key) == Some(ms[i].value),
    decreases i,
{
    if i > 0 {
        assert forall|k: int| 0 <= k < i - 1 implies (#[trigger] ms.drop_first()[k]).key@ != key by {
            assert(ms.drop_first()[k] == ms[k + 1]);
        }
        assert(ms[0].key@ != key);
        lemma_member_at(ms.drop_first(), i - 1, key);
    }
}

/// `Value::get`: the member with this key, for an object.
pub open spec fn get(j: Json, key: Seq<char>) -> Option<Json> {
    match j {
        Json::Object(ms) => member(ms@, key),
        _ => None,
    }
}

/// The first of the keys that the value has (`get(a).or_else(|| get(b))…`).
pub open spec fn get_any(j: Json, keys: Seq<Seq<char>>) -> Option<Json>
    decreases keys.len(),
{
    if keys.len() == 0 {
        None
    } else {
        match get(j, keys[0]) {
            Some(v) => Some(v),
            None => get_any(j, keys.drop_first()),
        }
    }
}

pub open spec fn as_str(j: Option<Json>) -> Option<Seq<char>> {
    match j {
        Some(Json::Str(s)) => Some(s@),
        _ => None,
    }
}

pub open spec fn as_i64(j: Option<Json>) -> Option<i64> {
    match j {
        Some(Json::Int(n)) => Some(n),
        _ => None,
    }
}

pub open spec fn as_bool(j: Option<Json>) -> Option<bool> {
    match j {
        Some(Json::Bool(b)) => Some(b),
        _ => None,
    }
}

pub open spec fn as_array(j: Option<Json>) -> Option<Seq<Json>> {
    match j {
        Some(Json::Array(v)) => Some(v@),
        _ => None,
    }
}

impl Json {
    /// `Value::get`.
    pub fn get<'a>(&'a self, key: &str) -> (r: Option<&'a Json>)
        ensures
            match r {
                Some(x) => get(*self, key@) == Some(*x),
                None => get(*self, key@) is None,
            },
    {
        match self {
            Json::Object(ms) => {
                let n = ms.len();
                let mut i: usize = 0;
                assert(ms@.skip(0) == ms@);
                while i < n
                    invariant
                        *self == Json::Object(*ms),
                        n == ms@.len(),
                        i <= n,
                        member(ms@.skip(i as int), key@) == member(ms@, key@),
                    decreases n - i,
                {
                    assert(ms@.skip(i as int)[0] == ms@[i as int]);
                    assert(ms@.skip(i as int).drop_first() == ms@.skip(i + 1));
                    if text_eq(ms[i].key.as_str(), key) {
                        return Some(&ms[i].value);
                    }
                    i = i + 1;
                }
                assert(ms@.skip(n as int).len() == 0);
                None
            },
            _ => None,
        }
    }

    /// The first of the keys that the value has.
    pub fn get_any<'a>(&'a self, keys: &[&str]) -> (r: Option<&'a Json>)
        ensures
            match r {
                Some(x) => get_any(*self, keys@.map_values(|k: &str| k@)) == Some(*x),
                None => get_any(*self, keys@.map_values(|k: &str| k@)) is None,
            },
    {
        let ghost ks = keys@.map_values(|k: &str| k@);
        let mut i: usize = 0;
        assert(ks.skip(0) == ks);
        while i < keys.len()
            invariant
                ks == keys@.map_values(|k: &str| k@),
                i <= keys@.len(),
                get_any(*self, ks.skip(i as int)) == get_any(*self, ks),
            decreases keys@.len() - i,
        {
            assert(ks.skip(i as int)[0] == keys@[i as int]@);
            assert(ks.skip(i as int).drop_first() == ks.skip(i + 1));
            match self.get(keys[i]) {
                Some(v) => return Some(v),
                None => {},
            }
            i = i + 1;
        }
        assert(ks.skip(i as int).len() == 0);
        None
    }

    /// `Value::as_str`.
    pub fn as_str(&self) -> (r: Option<&str>)
        ensures
            opt_str_view(r) == as_str(Some(*self)),
    {
        match self {
            Json::Str(s) => Some(s.as_str()),
            _ => None,
        }
    }

    /// `Value::as_i64`.
    pub fn as_i64(&self) -> (r: Option<i64>)
        ensures
            r == as_i64(Some(*self)),
    {
        match self {
            Json::Int(n) => Some(*n),
            _ => None,
        }
    }

    /// `Value::as_bool`.
    pub fn as_bool(&self) -> (r: Option<bool>)
        ensures
            r == as_bool(Some(*self)),
    {
        match self {
            Json::Bool(b) => Some(*b),
            _ => None,
        }
    }

    /// `Value::as_array`.
    pub fn as_array(&self) -> (r: Option<&Vec<Json>>)
        ensures
            match r {
                Some(v) => as_array(Some(*self)) == Some(v@),
                None => as_array(Some(*self)) is None,
            },
    {
        match self {
            Json::Array(v) => Some(v),
            _ => None,
        }
    }

    /// `Value::is_null`.
    pub fn is_null(&self) -> (b: bool)
        ensures
            b == (*self is Null),
    {
        match self {
            Json::Null => true,
            _ => false,
        }
    }
}

// ---------------------------------------------------------------------
// Numbers
// ---------------------------------------------------------------------

/// `str::parse::<i64>`: an optional sign, then one or more ASCII digits,
/// within range.
pub open spec fn parse_i64(s: Seq<char>) -> Option<i64> {
    if s.len() > 0 && s[0] == '-' {
        let d = s.skip(1);
        if d.len() > 0 && all_digits(d) && decimal_value(d) <= 0x8000_0000_0000_0000 {
            Some((-(decimal_value(d) as int)) as i64)
        } else {
            None
        }
    } else {
        let d = if s.len() > 0 && s[0] == '+' {
            s.skip(1)
        } else {
            s
        };
        if d.len() > 0 && all_digits(d) && decimal_value(d) <= i64::MAX {
            Some(decimal_value(d) as i64)
        } else {
            None
        }
    }
}

/// The value of the digits `d[..k]`, stopping early (`None`) once it is
/// past `limit`.
fn digits_value(d: &Vec<char>, start: usize, limit: u64) -> (r: Option<u64>)
    requires
        start <= d@.len(),
        limit >= 9,
    ensures
        match r {
            Some(v) => all_digits(d@.skip(start as int)) && v == decimal_value(d@.skip(start as int))
                && v <= limit,
            None => !all_digits(d@.skip(start as int)) || decimal_value(d@.skip(start as int)) > limit,
        },
{
    let ghost s = d@.skip(start as int);
    let n = d.len();
    let mut i = start;
    let mut acc: u64 = 0;
    assert(s.take(0) =~= Seq::<char>::empty());
    while i < n
        invariant
            start <= i <= n == d@.len(),
            s == d@.skip(start as int),
            all_digits(s.take(i - start)),
            acc == decimal_value(s.take(i - start)),
            acc <= limit,
            limit >= 9,
        decreases n - i,
    {
        let c = d[i];
        if !('0' <= c && c <= '9') {
            proof {
                assert(s[i - start] == c);
                assert(!is_digit(s[i - start]));
            }
            return None;
        }
        let dv: u64 = (c as u32 - '0' as u32) as u64;
        assert(s.take(i - start + 1).drop_last() == s.take(i - start));
        assert(s.take(i - start + 1).last() == c);
        if acc > (limit - dv) / 10 {
            proof {
                assert(acc * 10 + dv > limit) by (nonlinear_arith)
                    requires
                        acc > (limit - dv) / 10,
                        dv <= 9,
                        limit >= 9,
                ;
            }
            proof {
                let full = s;
                assert(decimal_value(s.take(i - start + 1)) == acc * 10 + dv);
                if all_digits(full) {
                    assert(full.take(i - start + 1) == s.take(i - start + 1));
                    lemma_decimal_value_grows(full, i - start + 1);
                }
            }
            return None;
        }
        assert(acc * 10 + dv <= limit) by (nonlinear_arith)
            requires
                acc <= (limit - dv) / 10,
                dv <= 9,
                limit >= 9,
        ;
        acc = acc * 10 + dv;
        i = i + 1;
    }
    assert(s.take(n - start) == s);
    Some(acc)
}

/// Parses a whole number the way `str::parse::<i64>` does.
pub fn parse_i64_text(t: &str) -> (r: Option<i64>)
    ensures
        r == parse_i64(t@),
{
    let v = chars_of(t);
    if v.len() > 0 && v[0] == '-' {
        assert(v@.skip(1).len() == v@.len() - 1);
        if v.len() == 1 {
            return None;
        }
        match digits_value(&v, 1, 0x8000_0000_0000_0000) {
            Some(x) => {
                if x == 0x8000_0000_0000_0000 {
                    Some(i64::MIN)
                } else {
                    Some(-(x as i64))
                }
            },
            None => None,
        }
    } else {
        let start: usize = if v.len() > 0 && v[0] == '+' {
            1
        } else {
            0
        };
        assert(start == 0 ==> v@.skip(0) == v@);
        if v.len() == start {
            return None;
        }
        match digits_value(&v, start, i64::MAX as u64) {
            Some(x) => Some(x as i64),
            None => None,
        }
    }
}

/// A value read as a whole number: integers as they are, larger whole
/// numbers wrapped, other numbers truncated, text parsed (0 when it is
/// not a number), anything else 0.
pub open spec fn to_i64(j: Json) -> i64 {
    match j {
        Json::Int(n) => n,
        Json::UInt(n) => n as i64,
        Json::Float { whole, .. } => whole,
        Json::Str(s) => match parse_i64(s@) {
            Some(n) => n,
            None => 0,
        },
        _ => 0,
    }
}

/// Reads a value as a whole number.
pub fn value_to_i64(value: &Json) -> (n: i64)
    ensures
        n == to_i64(*value),
{
    match value {
        Json::Int(n) => *n,
        Json::UInt(n) => *n as i64,
        Json::Float { whole, .. } => *whole,
        Json::Str(s) => match parse_i64_text(s.as_str()) {
            Some(n) => n,
            None => 0,
        },
        _ => 0,
    }
}

/// A text field, empty when missing or not text.
pub open spec fn str_field(j: Json, key: Seq<char>) -> Seq<char> {
    match as_str(get(j, key)) {
        Some(s) => s,
        None => Seq::empty(),
    }
}

/// A number field, 0 when missing.
pub open spec fn int_field(j: Json, key: Seq<char>) -> i64 {
    match get(j, key) {
        Some(v) => to_i64(v),
        None => 0,
    }
}

/// A number field when it is present and positive.
pub open spec fn int_optional(j: Json, key: Seq<char>) -> Option<i64> {
    match get(j, key) {
        Some(v) => if to_i64(v) > 0 {
            Some(to_i64(v))
        } else {
            None
        },
        None => None,
    }
}

/// The first of the number fields that is positive, else 0.
pub open spec fn first_int(j: Json, keys: Seq<Seq<char>>) -> i64
    decreases keys.len(),
{
    if keys.len() == 0 {
        0
    } else if int_field(j, keys[0]) > 0 {
        int_field(j, keys[0])
    } else {
        first_int(j, keys.drop_first())
    }
}

/// Reads a text field.
pub fn str_field_of(value: &Json, key: &str) -> (r: String)
    ensures
        r@ == str_field(*value, key@),
{
    match value.get(key) {
        Some(v) => match v.as_str() {
            Some(s) => owned(s),
            None => String::new(),
        },
        None => String::new(),
    }
}

/// Reads a number field.
pub fn int_field_of(value: &Json, key: &str) -> (n: i64)
    ensures
        n == int_field(*value, key@),
{
    match value.get(key) {
        Some(v) => value_to_i64(v),
        None => 0,
    }
}

/// Reads a number field when it is positive.
pub fn int_optional_of(value: &Json, key: &str) -> (r: Option<i64>)
    ensures
        r == int_optional(*value, key@),
{
    match value.get(key) {
        Some(v) => {
            let n = value_to_i64(v);
            if n > 0 {
                Some(n)
            } else {
                None
            }
        },
        None => None,
    }
}

/// Reads the first positive number field of the keys.
pub fn first_int_of(value: &Json, keys: &[&str]) -> (n: i64)
    ensures
        n == first_int(*value, keys@.map_values(|k: &str| k@)),
{
    let ghost ks = keys@.map_values(|k: &str| k@);
    let mut i: usize = 0;
    assert(ks.skip(0) == ks);
    while i < keys.len()
        invariant
            ks == keys@.map_values(|k: &str| k@),
            i <= keys@.len(),
            first_int(*value, ks.skip(i as int)) == first_int(*value, ks),
        decreases keys@.len() - i,
    {
        assert(ks.skip(i as int)[0] == keys@[i as int]@);
        assert(ks.skip(i as int).drop_first() == ks.skip(i + 1));
        let n = int_field_of(value, keys[i]);
        if n > 0 {
            return n;
        }
        i = i + 1;
    }
    assert(ks.skip(i as int).len() == 0);
    0
}

// ---------------------------------------------------------------------
// Building values
// ---------------------------------------------------------------------

/// The members of an object, in order (none for anything else).
pub open spec fn members(j: Json) -> Seq<JsonMember> {
    match j {
        Json::Object(ms) => ms@,
        _ => Seq::empty(),
    }
}

/// `j` is this text.
pub open spec fn is_text(j: Json, t: Seq<char>) -> bool {
    j matches Json::Str(s) && s@ == t
}

/// `j` is an array of these texts, in order.
pub open spec fn is_texts(j: Json, ts: Seq<Seq<char>>) -> bool {
    j matches Json::Array(v) && v@.len() == ts.len() && forall|k: int|
        0 <= k < ts.len() ==> is_text(#[trigger] v@[k], ts[k])
}

/// A member with this key whose value is this text.
pub open spec fn text_member(m: JsonMember, key: Seq<char>, t: Seq<char>) -> bool {
    m.key@ == key && is_text(m.value, t)
}

/// A member with this key and value.
pub open spec fn member_is(m: JsonMember, key: Seq<char>, v: Json) -> bool {
    m.key@ == key && m.value == v
}

/// A JSON text.
pub fn text_json(s: &str) -> (j: Json)
    ensures
        is_text(j, s@),
{
    Json::Str(owned(s))
}

/// A member of an object.
pub fn member_of(key: &str, value: Json) -> (m: JsonMember)
    ensures
        m.key@ == key@,
        m.value == value,
{
    JsonMember { key: owned(key), value }
}

/// A member whose value is a text.
pub fn text_member_of(key: &str, text: &str) -> (m: JsonMember)
    ensures
        text_member(m, key@, text@),
{
    member_of(key, text_json(text))
}

/// An array of texts.
pub fn texts_json(items: &Vec<&str>) -> (j: Json)
    ensures
        is_texts(j, items@.map_values(|s: &str| s@)),
{
    let mut v: Vec<Json> = Vec::new();
    for i in 0..items.len()
        invariant
            v@.len() == i,
            forall|k: int| 0 <= k < i ==> is_text(#[trigger] v@[k], items@[k]@),
    {
        v.push(text_json(items[i]));
    }
    Json::Array(v)
}

// ---------------------------------------------------------------------
// Writing JSON text
// ---------------------------------------------------------------------

/// A value as compact JSON text: no spaces, strings quoted and escaped as
/// `serde_json` writes them, members in their order.
pub open spec fn compact_json_text(j: Json) -> Seq<char>
    decreases j, 1nat,
{
    match j {
        Json::Null => "null"@,
        Json::Bool(b) => if b {
            "true"@
        } else {
            "false"@
        },
        Json::Int(n) => int_decimal(n as int),
        Json::UInt(n) => nat_decimal(n as nat),
        Json::Float { text, .. } => text@,
        Json::Str(t) => json_quoted(t@),
        Json::Array(items) => "["@ + items_text(items@) + "]"@,
        Json::Object(ms) => "{"@ + members_text(ms@) + "}"@,
    }
}

/// The items of a list, written and joined by commas.
pub open spec fn items_text(items: Seq<Json>) -> Seq<char>
    decreases items, 0nat,
{
    if items.len() == 0 {
        Seq::empty()
    } else {
        let last = compact_json_text(items.last());
        if items.len() == 1 {
            last
        } else {
            items_text(items.drop_last()) + ","@ + last
        }
    }
}

/// The members of an object, each as its quoted key, a colon and its
/// value, joined by commas.
pub open spec fn members_text(ms: Seq<JsonMember>) -> Seq<char>
    decreases ms, 0nat,
{
    if ms.len() == 0 {
        Seq::empty()
    } else {
        let last = json_quoted(ms.last().key@) + ":"@ + compact_json_text(ms.last().value);
        if ms.len() == 1 {
            last
        } else {
            members_text(ms.drop_last()) + ","@ + last
        }
    }
}

/// Appends a value's compact JSON text.
#[verifier::rlimit(40)]
pub fn write_compact_json(j: &Json, out: &mut String)
    ensures
        final(out)@ == old(out)@ + compact_json_text(*j),
    decreases *j,
{
    match j {
        Json::Null => push_str(out, "null"),
        Json::Bool(b) => if *b {
            push_str(out, "true")
        } else {
            push_str(out, "false")
        },
        Json::Int(n) => push_i64(out, *n),
        Json::UInt(n) => push_u64(out, *n),
        Json::Float { text, .. } => push_str(out, text.as_str()),
        Json::Str(t) => {
            let q = quote_json(t.as_str());
            push_str(out, q.as_str());
        },
        Json::Array(items) => {
            push_str(out, "[");
            let ghost start = out@;
            let mut i: usize = 0;
            while i < items.len()
                invariant
                    i <= items@.len(),
                    *j == Json::Array(*items),
                    out@ == start + items_text(items@.take(i as int)),
                decreases items@.len() - i,
            {
                assert(items@.take(i + 1).drop_last() == items@.take(i as int));
                assert(items@.take(i + 1).last() == items@[i as int]);
                if i > 0 {
                    push_str(out, ",");
                }
                assert(decreases_to!(*j => (*j)->Array_0));
                assert(decreases_to!(*items => items@));
                assert(decreases_to!(items@ => items@[i as int]));
                write_compact_json(&items[i], out);
                i = i + 1;
            }
            assert(items@.take(items@.len() as int) == items@);
            push_str(out, "]");
        },
        Json::Object(ms) => {
            push_str(out, "{");
            let ghost start = out@;
            let mut i: usize = 0;
            while i < ms.len()
                invariant
                    i <= ms@.len(),
                    *j == Json::Object(*ms),
                    out@ == start + members_text(ms@.take(i as int)),
                decreases ms@.len() - i,
            {
                assert(ms@.take(i + 1).drop_last() == ms@.take(i as int));
                assert(ms@.take(i + 1).last() == ms@[i as int]);
                if i > 0 {
                    push_str(out, ",");
                }
                let q = quote_json(ms[i].key.as_str());
                push_str(out, q.as_str());
                push_str(out, ":");
                assert(decreases_to!(*j => (*j)->Object_0));
                assert(decreases_to!(*ms => ms@));
                assert(decreases_to!(ms@ => ms@[i as int]));
                assert(decreases_to!(ms@[i as int] => ms@[i as int].value));
                write_compact_json(&ms[i].value, out);
                i = i + 1;
            }
            assert(ms@.take(ms@.len() as int) == ms@);
            push_str(out, "}");
        },
    }
}

/// A value's compact JSON text.
pub fn compact_json(j: &Json) -> (s: String)
    ensures
        s@ == compact_json_text(*j),
{
    let mut s = String::new();
    write_compact_json(j, &mut s);
    s
}

} // verus!
