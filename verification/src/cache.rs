//! The on-disk cache of WeRead answers: where entries and the request log
//! live, how an entry is named, and when it is fresh enough to use.
use crate::text::{owned, push_char, push_str};
use vstd::prelude::*;
use vstd::string::StringSliceAdditionalSpecFns;

verus! {

// ---------------------------------------------------------------------
// Paths
// ---------------------------------------------------------------------

/// `Path::join` on Unix paths: an absolute part replaces the base, and a
/// separator is put between them unless the base is empty or ends in one.
pub open spec fn joined(base: Seq<char>, part: Seq<char>) -> Seq<char> {
    if part.len() > 0 && part[0] == '/' {
        part
    } else if base.len() == 0 {
        part
    } else if base.last() == '/' {
        base + part
    } else {
        base + seq!['/'] + part
    }
}

/// Joins a relative or absolute path onto a base path.
pub fn join_path(base: &str, part: &str) -> (r: String)
    ensures
        r@ == joined(base@, part@),
{
    let b = crate::text::chars_of(base);
    let p = crate::text::chars_of(part);
    if p.len() > 0 && p[0] == '/' {
        return owned(part);
    }
    if b.len() == 0 {
        return owned(part);
    }
    let mut r = owned(base);
    if b[b.len() - 1] != '/' {
        push_char(&mut r, '/');
    }
    push_str(&mut r, part);
    r
}

pub const API_CACHE_DIR: &'static str = "cache/api";

pub const API_LOG_DIR: &'static str = "logs";

pub const API_LOG_FILE: &'static str = "api-requests.ndjson";

/// A path lies in a directory: it is the directory or starts with it and
/// a separator.
pub open spec fn inside(path: Seq<char>, dir: Seq<char>) -> bool {
    &&& path.len() >= dir.len()
    &&& path.take(dir.len() as int) == dir
    &&& (path.len() == dir.len() || path[dir.len() as int] == '/')
}

/// The request log never lies in the directory of cached answers, so
/// clearing the cache keeps the log.
pub proof fn law_request_log_outside_cache(root: Seq<char>)
    ensures
        !inside(joined(joined(root, API_LOG_DIR@), API_LOG_FILE@), joined(root, API_CACHE_DIR@)),
{
    reveal_strlit("cache/api");
    reveal_strlit("logs");
    reveal_strlit("api-requests.ndjson");
    let log = joined(joined(root, API_LOG_DIR@), API_LOG_FILE@);
    let dir = joined(root, API_CACHE_DIR@);
    let k: int = if root.len() == 0 {
        0
    } else if root.last() == '/' {
        root.len() as int
    } else {
        (root.len() + 1) as int
    };
    assert(log[k] == 'l');
    assert(dir[k] == 'c');
    if log.len() >= dir.len() && log.take(dir.len() as int) == dir {
        assert(log.take(dir.len() as int)[k] == log[k]);
    }
}

/// The cache of WeRead answers; its root is the application's private
/// directory in the user's home.
pub struct ApiCache;

impl ApiCache {
    /// Where cached answers are kept.
    pub fn api_cache_dir(root: &str) -> (r: String)
        ensures
            r@ == joined(root@, API_CACHE_DIR@),
    {
        join_path(root, API_CACHE_DIR)
    }

    /// Where every request is logged.
    pub fn request_log_path(root: &str) -> (r: String)
        ensures
            r@ == joined(joined(root@, API_LOG_DIR@), API_LOG_FILE@),
    {
        let dir = join_path(root, API_LOG_DIR);
        join_path(dir.as_str(), API_LOG_FILE)
    }

    /// The file a request's answer is cached in: named by the request's key.
    pub fn entry_path(root: &str, api_name: &str, request_body: &str) -> (r: String)
        ensures
            r@ == joined(joined(root@, API_CACHE_DIR@), key_text(api_name@, request_body@) + ".json"@),
    {
        let dir = ApiCache::api_cache_dir(root);
        let mut name = cache_key(api_name, request_body);
        push_str(&mut name, ".json");
        join_path(dir.as_str(), name.as_str())
    }

    /// A cached answer is used while it is no older than the time to live;
    /// the age is `now - fetched_at`, kept within `i64`.
    pub fn is_fresh(now: i64, fetched_at: i64, ttl_seconds: i64) -> (b: bool)
        ensures
            b == (saturating_age(now, fetched_at) <= ttl_seconds),
    {
        let d: i128 = now as i128 - fetched_at as i128;
        let age: i128 = if d > i64::MAX as i128 {
            i64::MAX as i128
        } else if d < i64::MIN as i128 {
            i64::MIN as i128
        } else {
            d
        };
        age <= ttl_seconds as i128
    }
}

/// `i64::saturating_sub`.
pub open spec fn saturating_age(now: i64, fetched_at: i64) -> int {
    let d = now - fetched_at;
    if d > i64::MAX {
        i64::MAX as int
    } else if d < i64::MIN {
        i64::MIN as int
    } else {
        d
    }
}

// ---------------------------------------------------------------------
// Cache keys
// ---------------------------------------------------------------------

pub const FNV_OFFSET: u64 = 0xcbf29ce484222325;

pub const FNV_PRIME: u64 = 0x100000001b3;

/// The 64-bit FNV-1a hash of some bytes.
pub open spec fn fnv(bytes: Seq<u8>) -> u64
    decreases bytes.len(),
{
    if bytes.len() == 0 {
        FNV_OFFSET
    } else {
        (fnv(bytes.drop_last()) ^ (bytes.last() as u64)).wrapping_mul(FNV_PRIME)
    }
}

/// Hashes bytes with 64-bit FNV-1a.
pub fn fnv1a64(bytes: &[u8]) -> (h: u64)
    ensures
        h == fnv(bytes@),
{
    let mut hash: u64 = FNV_OFFSET;
    for i in 0..bytes.len()
        invariant
            hash == fnv(bytes@.take(i as int)),
    {
        assert(bytes@.take(i + 1).drop_last() == bytes@.take(i as int));
        hash = hash ^ (bytes[i] as u64);
        hash = hash.wrapping_mul(FNV_PRIME);
    }
    assert(bytes@.take(bytes@.len() as int) == bytes@);
    hash
}

pub open spec fn hex_char(d: int) -> char {
    if d < 10 {
        ((d + 48) as u8) as char
    } else {
        ((d - 10 + 97) as u8) as char
    }
}

/// The last `n` hexadecimal digits of `v`, lower case, most significant first.
pub open spec fn hex_digits(v: nat, n: nat) -> Seq<char>
    decreases n,
{
    if n == 0 {
        Seq::empty()
    } else {
        hex_digits(v / 16, (n - 1) as nat).push(hex_char((v % 16) as int))
    }
}

fn hex_digit(d: u64) -> (c: char)
    requires
        d < 16,
    ensures
        c == hex_char(d as int),
{
    if d < 10 {
        ((d + 48) as u8) as char
    } else {
        ((d - 10 + 97) as u8) as char
    }
}

/// `format!("{:016x}", v)`: sixteen lower-case hexadecimal digits.
pub fn hex16(v: u64) -> (s: String)
    ensures
        s@ == hex_digits(v as nat, 16),
{
    proof {
        lemma_hex_digits_len(v as nat, 16);
        vstd::arithmetic::div_mod::lemma_div_basics(v as int);
        assert(pow16(0) == 1);
    }
    let mut digits: Vec<char> = Vec::new();
    let mut rest: u64 = v;
    let mut k: u64 = 0;
    while k < 16
        invariant
            k <= 16,
            hex_digits(v as nat, 16).len() == 16,
            digits@.len() == k,
            forall|j: int|
                0 <= j < k ==> #[trigger] digits@[j] == hex_digits(v as nat, 16)[15 - j],
            rest as nat == (v as nat) / pow16(k as nat),
        decreases 16 - k,
    {
        proof {
            lemma_hex_digit_at(v as nat, k as nat);
        }
        digits.push(hex_digit(rest % 16));
        rest = rest / 16;
        proof {
            lemma_pow16_step(v as nat, k as nat);
        }
        k = k + 1;
    }
    let mut s = String::new();
    let mut j: usize = 16;
    while j > 0
        invariant
            j <= 16,
            hex_digits(v as nat, 16).len() == 16,
            digits@.len() == 16,
            forall|i: int| 0 <= i < 16 ==> #[trigger] digits@[i] == hex_digits(v as nat, 16)[15 - i],
            s@ == hex_digits(v as nat, 16).subrange(0, 16 - j as int),
        decreases j,
    {
        j = j - 1;
        push_char(&mut s, digits[j]);
        assert(hex_digits(v as nat, 16).subrange(0, 16 - j as int) == hex_digits(v as nat, 16).subrange(
            0,
            15 - j as int,
        ).push(hex_digits(v as nat, 16)[15 - j as int]));
    }
    assert(hex_digits(v as nat, 16).subrange(0, 16) == hex_digits(v as nat, 16));
    s
}

pub open spec fn pow16(k: nat) -> nat
    decreases k,
{
    if k == 0 {
        1
    } else {
        16 * pow16((k - 1) as nat)
    }
}

proof fn lemma_pow16_positive(k: nat)
    ensures
        pow16(k) > 0,
    decreases k,
{
    if k > 0 {
        lemma_pow16_positive((k - 1) as nat);
    }
}

proof fn lemma_pow16_step(v: nat, k: nat)
    ensures
        v / pow16(k + 1) == (v / pow16(k)) / 16,
{
    lemma_pow16_positive(k);
    assert(pow16(k + 1) == pow16(k) * 16);
    vstd::arithmetic::div_mod::lemma_div_denominator(v as int, pow16(k) as int, 16);
}

/// Digit `15 - k` of the sixteen is the `k`-th from the end.
proof fn lemma_hex_digit_at(v: nat, k: nat)
    requires
        k < 16,
    ensures
        hex_digits(v, 16)[15 - k] == hex_char(((v / pow16(k)) % 16) as int),
{
    lemma_hex_digits_index(v, 16, k);
}

proof fn lemma_hex_digits_index(v: nat, n: nat, k: nat)
    requires
        k < n,
    ensures
        hex_digits(v, n).len() == n,
        hex_digits(v, n)[n - 1 - k] == hex_char(((v / pow16(k)) % 16) as int),
    decreases n,
{
    lemma_hex_digits_len(v, n);
    if k == 0 {
        vstd::arithmetic::div_mod::lemma_div_basics(v as int);
        assert(pow16(0) == 1);
    } else {
        lemma_hex_digits_index(v / 16, (n - 1) as nat, (k - 1) as nat);
        lemma_hex_digits_len(v / 16, (n - 1) as nat);
        lemma_pow16_positive((k - 1) as nat);
        assert(pow16(k) == 16 * pow16((k - 1) as nat));
        vstd::arithmetic::div_mod::lemma_div_denominator(v as int, 16, pow16((k - 1) as nat) as int);
        assert(hex_digits(v, n)[n - 1 - k] == hex_digits(v / 16, (n - 1) as nat)[n - 1 - k]);
    }
}

proof fn lemma_hex_digits_len(v: nat, n: nat)
    ensures
        hex_digits(v, n).len() == n,
    decreases n,
{
    if n > 0 {
        lemma_hex_digits_len(v / 16, (n - 1) as nat);
    }
}

/// The key a request is cached under: the FNV-1a hash of `api:body`
/// (the body as JSON text) in sixteen hexadecimal digits.
pub open spec fn key_text(api_name: Seq<char>, request_body: Seq<char>) -> Seq<char> {
    hex_digits(fnv(vstd::utf8::encode_utf8(api_name + ":"@ + request_body)) as nat, 16)
}

/// The key a request is cached under.
pub fn cache_key(api_name: &str, request_body: &str) -> (k: String)
    ensures
        k@ == key_text(api_name@, request_body@),
{
    let mut source = owned(api_name);
    push_str(&mut source, ":");
    push_str(&mut source, request_body);
    let s = source.as_str();
    let bytes = s.as_bytes();
    hex16(fnv1a64(bytes))
}

} // verus!
