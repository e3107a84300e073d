//! Plain records exchanged with the reading service and the user interface.
use vstd::prelude::*;

verus! {

/// The persisted application settings.
pub struct AppConfig {
    pub api_key: Option<String>,
    pub last_export_dir: Option<String>,
    pub default_format: Option<String>,
    pub cache_ttl_seconds: Option<i64>,
    pub ima_client_id: Option<String>,
    pub ima_api_key: Option<String>,
    pub ima_knowledge_base_id: Option<String>,
    pub ima_knowledge_base_name: Option<String>,
    pub telemetry_enabled: Option<bool>,
    pub telemetry_installation_id: Option<String>,
    pub llm_base_url: Option<String>,
    pub llm_api_key: Option<String>,
    pub llm_model: Option<String>,
    /// Where the settings file lives.
    pub config_path: String,
}

/// The settings as the user interface shows them: secrets masked.
pub struct AppSettings {
    pub api_key_set: bool,
    pub api_key_masked: Option<String>,
    pub api_key_full: Option<String>,
    pub last_export_dir: String,
    pub default_format: String,
    pub cache_ttl_seconds: i64,
    pub ima_client_id_set: bool,
    pub ima_client_id_masked: Option<String>,
    pub ima_client_id_full: Option<String>,
    pub ima_api_key_set: bool,
    pub ima_api_key_masked: Option<String>,
    pub ima_api_key_full: Option<String>,
    pub ima_knowledge_base_id: Option<String>,
    pub ima_knowledge_base_name: Option<String>,
}

/// Where the response cache and the request log live, and how big the cache is.
pub struct ApiCacheInfo {
    pub cache_dir: String,
    pub request_log_path: String,
    pub entry_count: usize,
    pub total_bytes: u64,
}

pub struct ShelfBook {
    pub book_id: String,
    pub title: String,
    pub author: String,
    pub cover: String,
    pub category: String,
    pub read_update_time: i64,
    pub finish_reading: i32,
    pub update_time: i64,
    pub is_top: i32,
    pub secret: i32,
}

pub struct ShelfAlbum {
    pub album_id: String,
    pub name: String,
    pub author_name: String,
    pub cover: String,
    pub track_count: i32,
    pub finish_status: String,
    pub finish: i32,
    pub secret: i32,
}

pub struct ShelfSyncResult {
    pub books: Vec<ShelfBook>,
    pub albums: Vec<ShelfAlbum>,
    pub has_mp: bool,
    pub total_count: usize,
}

pub struct BookInfo {
    pub book_id: String,
    pub title: String,
    pub author: String,
    pub translator: String,
    pub cover: String,
    pub intro: String,
    pub category: String,
    pub publisher: String,
    pub publish_time: String,
    pub isbn: String,
    pub word_count: i64,
    pub new_rating: i32,
    pub new_rating_count: i32,
}

pub struct BookProgress {
    pub book_id: String,
    pub progress: i32,
    pub chapter_uid: i64,
    pub chapter_offset: i64,
    pub update_time: i64,
    pub record_reading_time: i64,
    pub finish_time: Option<i64>,
    pub is_start_reading: i32,
}

pub struct ChapterInfo {
    pub chapter_uid: i64,
    pub chapter_idx: i32,
    pub title: String,
}

/// One highlight.
pub struct Bookmark {
    pub bookmark_id: String,
    pub book_id: String,
    pub chapter_uid: i64,
    pub mark_text: String,
    pub create_time: i64,
    pub range: String,
    pub color_style: i32,
    pub chapter_title: Option<String>,
}

pub struct BookmarkListResult {
    pub bookmarks: Vec<Bookmark>,
    pub chapters: Vec<ChapterInfo>,
    pub book: Option<BookInfo>,
}

/// One personal thought or review.
pub struct Review {
    pub review_id: String,
    pub content: String,
    pub create_time: i64,
    pub star: i32,
    pub chapter_name: Option<String>,
    pub range: Option<String>,
}

pub struct ReviewListResult {
    pub reviews: Vec<Review>,
    pub total_count: i32,
    pub has_more: i32,
    pub synckey: i64,
}

/// A book that has notes, with its note counts (the reading progress, a
/// fraction, is kept by the caller).
pub struct NotebookBook {
    pub book_id: String,
    pub title: String,
    pub author: String,
    pub cover: String,
    pub review_count: i32,
    pub note_count: i32,
    pub bookmark_count: i32,
    pub marked_status: i32,
    pub sort: i64,
}

pub struct ReadLongestItem {
    pub book: Option<BookInfo>,
    pub read_time: i64,
    pub tags: Vec<String>,
}

/// One named statistic, such as the number of books read ("读过").
pub struct ReadStatItem {
    pub stat: String,
    pub counts: String,
    pub scheme: Option<String>,
}

pub struct ExportOptions {
    pub book_ids: Vec<String>,
    pub format: String,
    pub output_dir: String,
    pub include_bookmarks: bool,
    pub include_reviews: bool,
    pub group_by_chapter: bool,
}

pub struct ExportResult {
    pub success: bool,
    pub file_paths: Vec<String>,
    pub message: String,
}

pub struct ExportProgressPayload {
    pub current: usize,
    pub total: usize,
    pub title: String,
}

} // verus!
