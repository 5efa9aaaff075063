//! Resume analysis library: document text and metadata, section detection,
//! memory accounting, ATS format checks, industry and role-level signals,
//! scoring weights, prompt building, job search queries, user preferences
//! and schema migrations, each with verified contracts.
use vstd::prelude::*;

pub mod text;
pub mod unicode;
pub mod pattern;
pub mod limits;
pub mod memory;
pub mod formats;
pub mod document;
pub mod models;
pub mod errors;
pub mod format_checker;
pub mod migrations;
pub mod job_search;
pub mod keyword_db;
pub mod ml_engine;
pub mod ml_features;
pub mod scoring;
pub mod industry;
pub mod prompts;
pub mod signals;
pub mod fallback;
pub mod metadata;
pub mod timestamps;
pub mod streaming;
pub mod role_level;
pub mod industry_rules;

verus! {
}
