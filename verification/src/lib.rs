//! A parallel, ignore-aware, regex-capable file-content search engine.
//!
//! Given a textual pattern and a root directory, the engine enumerates
//! candidate files (honoring ignore rules, glob filters and size limits),
//! scans each file's content for per-line matches, and aggregates the
//! matches together with run statistics and error diagnostics into a
//! single result.

pub mod channel;
pub mod engine;
pub mod fmtout;
pub mod goto;
pub mod numfmt;
pub mod opts;
pub mod pattern;
pub mod scan;
pub mod simple;
pub mod strutil;
pub mod types;
pub mod walk;

pub use engine::search_parallel;
pub use fmtout::{format_duration, format_results_with_stats};
pub use opts::SearchOptions;
pub use pattern::build_matcher;
pub use types::{Match, SearchError, SearchResult, SearchStats};
