//! Settings: masking of secrets, the settings view, and the edits the
//! settings page makes.
use crate::text::{owned, push_str, trim, trimmed};
use crate::types::{AppConfig, AppSettings};
use vstd::prelude::*;
use vstd::string::StringSliceAdditionalSpecFns;
use vstd::utf8::{decode_utf8, encode_utf8, encode_utf8_decode_utf8, is_char_boundary};

verus! {

/// How long cached service responses stay fresh unless configured otherwise: one day.
pub const DEFAULT_CACHE_TTL_SECONDS: i64 = 24 * 60 * 60;

/// The shortest freshness the settings accept: half an hour.
pub const MIN_CACHE_TTL_SECONDS: i64 = 30 * 60;

/// The export format used when none is configured.
pub const DEFAULT_FORMAT: &'static str = "markdown";

/// The UTF-8 length of a text, as `str::len` reports it.
pub open spec fn byte_len(s: Seq<char>) -> usize {
    encode_utf8(s).len() as usize
}

/// Masking cuts the UTF-8 bytes of a long secret after its first four and
/// before its last four; both cuts must fall on character boundaries.
pub open spec fn mask_ok(k: Seq<char>) -> bool {
    let b = encode_utf8(k);
    let n = byte_len(k);
    n <= 8 || (is_char_boundary(b, 4) && is_char_boundary(b, n - 4))
}

/// A secret as the settings page shows it: `****` for up to eight bytes,
/// otherwise the first four bytes, `****` and the last four bytes.
pub open spec fn masked_view(k: Seq<char>) -> Seq<char> {
    let b = encode_utf8(k);
    let n = byte_len(k);
    if n <= 8 {
        "****"@
    } else {
        decode_utf8(b.subrange(0, 4)) + "****"@ + decode_utf8(b.subrange(n - 4, b.len() as int))
    }
}

/// Masking of an optional secret.
pub open spec fn masked_option(k: Option<String>) -> Option<Seq<char>> {
    match k {
        Some(s) => Some(masked_view(s@)),
        None => None,
    }
}

pub open spec fn option_mask_ok(k: Option<String>) -> bool {
    match k {
        Some(s) => mask_ok(s@),
        None => true,
    }
}

pub open spec fn option_view(o: Option<String>) -> Option<Seq<char>> {
    match o {
        Some(s) => Some(s@),
        None => None,
    }
}

pub open spec fn same_text(a: Option<String>, b: Option<String>) -> bool {
    option_view(a) == option_view(b)
}

/// `Option<String>::clone`, keeping the text.
pub fn clone_text(o: &Option<String>) -> (r: Option<String>)
    ensures
        option_view(r) == option_view(*o),
{
    match o {
        Some(s) => Some(s.clone()),
        None => None,
    }
}

fn mask_text(key: &str) -> (r: String)
    requires
        mask_ok(key@),
    ensures
        r@ == masked_view(key@),
{
    let n = key.len();
    if n <= 8 {
        owned("****")
    } else {
        proof {
            assert(key.spec_bytes() == encode_utf8(key@));
        }
        let (head, _) = key.split_at(4);
        let (_, tail) = key.split_at(n - 4);
        proof {
            encode_utf8_decode_utf8(head@);
            encode_utf8_decode_utf8(tail@);
        }
        let mut r = owned(head);
        push_str(&mut r, "****");
        push_str(&mut r, tail);
        r
    }
}

/// Shows a long secret by its first and last four bytes only.
pub fn masked_secret(value: &Option<String>) -> (r: Option<String>)
    requires
        option_mask_ok(*value),
    ensures
        option_view(r) == masked_option(*value),
{
    match value {
        Some(key) => Some(mask_text(key.as_str())),
        None => None,
    }
}

/// The settings with text fields compared by their characters.
pub open spec fn settings_shape(
    s: AppSettings,
    c: AppConfig,
    default_export_dir: Seq<char>,
) -> bool {
    &&& s.api_key_set == c.api_key is Some
    &&& option_view(s.api_key_masked) == masked_option(c.api_key)
    &&& same_text(s.api_key_full, c.api_key)
    &&& s.last_export_dir@ == (match c.last_export_dir {
        Some(d) => d@,
        None => default_export_dir,
    })
    &&& s.default_format@ == (match c.default_format {
        Some(f) => f@,
        None => DEFAULT_FORMAT@,
    })
    &&& s.cache_ttl_seconds == c.spec_cache_ttl_seconds()
    &&& s.ima_client_id_set == c.ima_client_id is Some
    &&& option_view(s.ima_client_id_masked) == masked_option(c.ima_client_id)
    &&& same_text(s.ima_client_id_full, c.ima_client_id)
    &&& s.ima_api_key_set == c.ima_api_key is Some
    &&& option_view(s.ima_api_key_masked) == masked_option(c.ima_api_key)
    &&& same_text(s.ima_api_key_full, c.ima_api_key)
    &&& same_text(s.ima_knowledge_base_id, c.ima_knowledge_base_id)
    &&& same_text(s.ima_knowledge_base_name, c.ima_knowledge_base_name)
}

/// The trimmed text of an input, as `Some`.
pub open spec fn trimmed_some(s: Seq<char>) -> Option<Seq<char>> {
    Some(trim(s))
}

impl AppConfig {
    /// The configured freshness of cached responses, never below the minimum.
    pub open spec fn spec_cache_ttl_seconds(&self) -> i64 {
        let v = match self.cache_ttl_seconds {
            Some(t) => t,
            None => DEFAULT_CACHE_TTL_SECONDS,
        };
        if v < MIN_CACHE_TTL_SECONDS {
            MIN_CACHE_TTL_SECONDS
        } else {
            v
        }
    }

    /// The secrets can be masked.
    pub open spec fn secrets_maskable(&self) -> bool {
        &&& option_mask_ok(self.api_key)
        &&& option_mask_ok(self.ima_client_id)
        &&& option_mask_ok(self.ima_api_key)
    }

    /// The configured freshness of cached responses, never below half an hour.
    pub fn cache_ttl_seconds(&self) -> (t: i64)
        ensures
            t == self.spec_cache_ttl_seconds(),
            t >= MIN_CACHE_TTL_SECONDS,
    {
        let v = match self.cache_ttl_seconds {
            Some(t) => t,
            None => DEFAULT_CACHE_TTL_SECONDS,
        };
        if v < MIN_CACHE_TTL_SECONDS {
            MIN_CACHE_TTL_SECONDS
        } else {
            v
        }
    }

    /// The reading-service key, masked.
    pub fn masked_api_key(&self) -> (r: Option<String>)
        requires
            option_mask_ok(self.api_key),
        ensures
            option_view(r) == masked_option(self.api_key),
    {
        masked_secret(&self.api_key)
    }

    /// The knowledge-base client id, masked.
    pub fn masked_ima_client_id(&self) -> (r: Option<String>)
        requires
            option_mask_ok(self.ima_client_id),
        ensures
            option_view(r) == masked_option(self.ima_client_id),
    {
        masked_secret(&self.ima_client_id)
    }

    /// The knowledge-base key, masked.
    pub fn masked_ima_api_key(&self) -> (r: Option<String>)
        requires
            option_mask_ok(self.ima_api_key),
        ensures
            option_view(r) == masked_option(self.ima_api_key),
    {
        masked_secret(&self.ima_api_key)
    }

    /// The settings view; `default_export_dir` stands in for an unset export folder.
    pub fn to_settings(&self, default_export_dir: &str) -> (s: AppSettings)
        requires
            self.secrets_maskable(),
        ensures
            settings_shape(s, *self, default_export_dir@),
    {
        let last_export_dir = match &self.last_export_dir {
            Some(d) => d.clone(),
            None => owned(default_export_dir),
        };
        let default_format = match &self.default_format {
            Some(f) => f.clone(),
            None => owned(DEFAULT_FORMAT),
        };
        AppSettings {
            api_key_set: self.api_key.is_some(),
            api_key_masked: self.masked_api_key(),
            api_key_full: clone_text(&self.api_key),
            last_export_dir,
            default_format,
            cache_ttl_seconds: self.cache_ttl_seconds(),
            ima_client_id_set: self.ima_client_id.is_some(),
            ima_client_id_masked: self.masked_ima_client_id(),
            ima_client_id_full: clone_text(&self.ima_client_id),
            ima_api_key_set: self.ima_api_key.is_some(),
            ima_api_key_masked: self.masked_ima_api_key(),
            ima_api_key_full: clone_text(&self.ima_api_key),
            ima_knowledge_base_id: clone_text(&self.ima_knowledge_base_id),
            ima_knowledge_base_name: clone_text(&self.ima_knowledge_base_name),
        }
    }

    /// Whether anonymous installation counting is on; it is unless turned off.
    pub fn telemetry_enabled(&self) -> (b: bool)
        ensures
            b == (self.telemetry_enabled != Some(false)),
    {
        match self.telemetry_enabled {
            Some(v) => v,
            None => true,
        }
    }

    /// Stores a reading-service key, trimmed; a key of under eight bytes is refused.
    pub fn save_api_key(&mut self, api_key: &str) -> (r: Result<(), String>)
        ensures
            r is Ok <==> byte_len(trim(api_key@)) >= 8,
            r is Ok ==> option_view(final(self).api_key) == trimmed_some(api_key@),
            r is Ok ==> final(self).config_path == old(self).config_path,
            r is Err ==> *final(self) == *old(self),
    {
        let key = trimmed(api_key);
        if key.as_str().len() < 8 {
            return Err(owned("API Key 格式不正确"));
        }
        self.api_key = Some(key);
        Ok(())
    }

    /// Forgets the reading-service key.
    pub fn clear_api_key(&mut self)
        ensures
            final(self).api_key is None,
            final(self).ima_client_id == old(self).ima_client_id,
            final(self).ima_api_key == old(self).ima_api_key,
            final(self).config_path == old(self).config_path,
    {
        self.api_key = None;
    }

    /// Stores the knowledge-base credentials, trimmed; a client id under four
    /// bytes or a key under eight bytes is refused.
    pub fn save_ima_credentials(&mut self, client_id: &str, api_key: &str) -> (r: Result<
        (),
        String,
    >)
        ensures
            r is Ok <==> (byte_len(trim(client_id@)) >= 4 && byte_len(trim(api_key@)) >= 8),
            r is Ok ==> option_view(final(self).ima_client_id) == trimmed_some(client_id@),
            r is Ok ==> option_view(final(self).ima_api_key) == trimmed_some(api_key@),
            r is Ok ==> final(self).api_key == old(self).api_key,
            r is Err ==> *final(self) == *old(self),
    {
        let id = trimmed(client_id);
        if id.as_str().len() < 4 {
            return Err(owned("ima Client ID 格式不正确"));
        }
        let key = trimmed(api_key);
        if key.as_str().len() < 8 {
            return Err(owned("ima API Key 格式不正确"));
        }
        self.ima_client_id = Some(id);
        self.ima_api_key = Some(key);
        Ok(())
    }

    /// Forgets the knowledge-base credentials and target.
    pub fn clear_ima_credentials(&mut self)
        ensures
            final(self).ima_client_id is None,
            final(self).ima_api_key is None,
            final(self).ima_knowledge_base_id is None,
            final(self).ima_knowledge_base_name is None,
            final(self).api_key == old(self).api_key,
    {
        self.ima_client_id = None;
        self.ima_api_key = None;
        self.ima_knowledge_base_id = None;
        self.ima_knowledge_base_name = None;
    }

    /// Chooses the knowledge base notes are sent to; a blank id is refused.
    pub fn save_ima_target(&mut self, knowledge_base_id: &str, knowledge_base_name: &str) -> (r:
        Result<(), String>)
        ensures
            r is Ok <==> trim(knowledge_base_id@).len() > 0,
            r is Ok ==> option_view(final(self).ima_knowledge_base_id) == trimmed_some(
                knowledge_base_id@,
            ),
            r is Ok ==> option_view(final(self).ima_knowledge_base_name) == trimmed_some(
                knowledge_base_name@,
            ),
            r is Err ==> *final(self) == *old(self),
    {
        let id = trimmed(knowledge_base_id);
        if id.as_str().is_empty() {
            return Err(owned("请选择 ima 知识库"));
        }
        self.ima_knowledge_base_id = Some(id);
        self.ima_knowledge_base_name = Some(trimmed(knowledge_base_name));
        Ok(())
    }

    /// Remembers the export folder and format.
    pub fn save_export_settings(&mut self, output_dir: String, default_format: String)
        ensures
            final(self).last_export_dir == Some(output_dir),
            final(self).default_format == Some(default_format),
            final(self).api_key == old(self).api_key,
    {
        self.last_export_dir = Some(output_dir);
        self.default_format = Some(default_format);
    }

    /// Sets the freshness of cached responses, raised to the minimum.
    pub fn save_cache_settings(&mut self, cache_ttl_seconds: i64)
        ensures
            final(self).cache_ttl_seconds == Some(
                if cache_ttl_seconds < MIN_CACHE_TTL_SECONDS {
                    MIN_CACHE_TTL_SECONDS
                } else {
                    cache_ttl_seconds
                },
            ),
            final(self).api_key == old(self).api_key,
    {
        let v = if cache_ttl_seconds < MIN_CACHE_TTL_SECONDS {
            MIN_CACHE_TTL_SECONDS
        } else {
            cache_ttl_seconds
        };
        self.cache_ttl_seconds = Some(v);
    }

    /// Stores the AI service settings, trimmed. The URL and model must not be
    /// blank; a blank key keeps the stored one, and is refused when none is stored.
    pub fn save_llm_config(&mut self, base_url: &str, api_key: &str, model: &str) -> (r: Result<
        (),
        String,
    >)
        ensures
            r is Ok <==> (trim(base_url@).len() > 0 && trim(model@).len() > 0 && (trim(
                api_key@,
            ).len() > 0 || old(self).llm_api_key is Some)),
            r is Ok ==> option_view(final(self).llm_base_url) == trimmed_some(base_url@),
            r is Ok ==> option_view(final(self).llm_model) == trimmed_some(model@),
            r is Ok ==> option_view(final(self).llm_api_key) == (if trim(api_key@).len() > 0 {
                trimmed_some(api_key@)
            } else {
                option_view(old(self).llm_api_key)
            }),
            r is Err ==> *final(self) == *old(self),
    {
        let url = trimmed(base_url);
        let key = trimmed(api_key);
        let model_name = trimmed(model);
        if url.as_str().is_empty() {
            return Err(owned("Base URL 不能为空"));
        }
        if model_name.as_str().is_empty() {
            return Err(owned("模型名称不能为空"));
        }
        if key.as_str().is_empty() && self.llm_api_key.is_none() {
            return Err(owned("API Key 不能为空"));
        }
        self.llm_base_url = Some(url);
        if !key.as_str().is_empty() {
            self.llm_api_key = Some(key);
        }
        self.llm_model = Some(model_name);
        Ok(())
    }

    /// Forgets the AI service settings.
    pub fn clear_llm_config(&mut self)
        ensures
            final(self).llm_base_url is None,
            final(self).llm_api_key is None,
            final(self).llm_model is None,
            final(self).api_key == old(self).api_key,
    {
        self.llm_base_url = None;
        self.llm_api_key = None;
        self.llm_model = None;
    }
}

} // verus!
