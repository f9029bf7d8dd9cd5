//! The data model of one search run: per-line matches, run statistics,
//! the final aggregate, and the configuration-time error taxonomy.

use vstd::prelude::*;

verus! {

/// One line-level hit: owning path, 1-based line number, 0-based byte
/// column of the first match on that line, and the line's text with the
/// trailing line ending stripped.
#[derive(Debug, Clone)]
pub struct Match {
    pub file: String,
    pub line_number: u64,
    pub column: usize,
    pub text: String,
}

/// Counters describing one finished search run.
#[derive(Debug, Clone)]
pub struct SearchStats {
    pub matches: usize,
    pub files_searched: usize,
    pub files_matched: usize,
    pub elapsed_ms: u64,
}

impl Default for SearchStats {
    fn default() -> (r: SearchStats)
        ensures
            r.matches == 0,
            r.files_searched == 0,
            r.files_matched == 0,
            r.elapsed_ms == 0,
    {
        SearchStats { matches: 0, files_searched: 0, files_matched: 0, elapsed_ms: 0 }
    }
}

/// The terminal, immutable aggregate of one search: the matches in worker
/// arrival order, a statistics snapshot, and the recorded error strings.
#[derive(Debug)]
pub struct SearchResult {
    pub matches: Vec<Match>,
    pub stats: SearchStats,
    pub errors: Vec<String>,
}

/// Internal consistency of a finished result: the match counter equals the
/// number of collected matches, and no more files matched than were
/// searched.
pub open spec fn result_wf(r: SearchResult) -> bool {
    &&& r.stats.matches == r.matches@.len()
    &&& r.stats.files_matched <= r.stats.files_searched
}

/// A configuration-time failure: the search aborts before any file is
/// touched and returns one of these to the caller.
#[derive(Debug, Clone)]
pub enum SearchError {
    /// The pattern failed to compile; carries the full diagnostic text.
    InvalidPattern(String),
    /// A glob was malformed or the glob set could not be assembled.
    InvalidGlob(String),
    /// A file-type name was not recognized or the type set could not be
    /// assembled.
    InvalidTypeFilter(String),
}

impl SearchError {
    /// The diagnostic text carried by this error.
    pub fn message(&self) -> (r: String)
        ensures
            r@ == self.spec_message(),
    {
        match self {
            SearchError::InvalidPattern(m) => m.clone(),
            SearchError::InvalidGlob(m) => m.clone(),
            SearchError::InvalidTypeFilter(m) => m.clone(),
        }
    }

    /// The diagnostic text carried by this error.
    pub open spec fn spec_message(self) -> Seq<char> {
        match self {
            SearchError::InvalidPattern(m) => m@,
            SearchError::InvalidGlob(m) => m@,
            SearchError::InvalidTypeFilter(m) => m@,
        }
    }
}

} // verus!
