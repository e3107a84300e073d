//! Reading-notes workspace: the verified core of a desktop tool that
//! organises WeRead highlights and notes into Markdown, reports and a
//! knowledge base.
use vstd::prelude::*;

pub mod text;
pub mod validation;
pub mod types;
pub mod config;
pub mod templates;
pub mod period;
pub mod profile;
pub mod tasks;
pub mod jobs;
pub mod agents;
pub mod skills;
pub mod consent;
pub mod gateway;
pub mod design;
pub mod telemetry;
pub mod cache;
pub mod chat;
pub mod markdown;
pub mod filenames;
pub mod json;
pub mod weread;
pub mod ima;
pub mod tools;
pub mod large_result;
pub mod custom_templates;
pub mod system_prompt;
pub mod preview;
pub mod scoping;
pub mod sessions;
pub mod job_files;
pub mod llm;
pub mod report_output;

verus! {

} // verus!
