//! The file searcher: scans one file's content against a compiled matcher
//! and produces the file's ordered match batch. The line tokenizer is an
//! external capability; every line it reports is recorded through one
//! verified transition.

use vstd::prelude::*;

use crate::pattern::{find_first, first_hit};
use crate::strutil::{trim_crlf, trim_line_end};
use crate::types::Match;

verus! {

/// The external line scanner, carried opaquely.
#[verifier::external_type_specification]
#[verifier::external_body]
pub struct ExSearcher(grep_searcher::Searcher);

/// The scanner settings this crate configures: whether scanning quits at
/// the first NUL byte, the context line counts, inverted matching,
/// line-number reporting, and multi-line scanning.
pub struct SearcherCfg {
    pub quit_on_nul: bool,
    pub context_before: usize,
    pub context_after: usize,
    pub invert: bool,
    pub line_numbers: bool,
    pub multi_line: bool,
}

/// The configuration recorded in a scanner.
pub uninterp spec fn searcher_cfg(s: grep_searcher::Searcher) -> SearcherCfg;

/// Relies on `grep_searcher::SearcherBuilder`: builds a scanner with line
/// numbers enabled (the default), single-line scanning (the default),
/// binary detection quitting at the first NUL byte, and the given context
/// and invert-match settings.
#[verifier::external_body]
pub(crate) fn build_searcher(before: usize, after: usize, invert: bool) -> (s:
    grep_searcher::Searcher)
    ensures
        searcher_cfg(s) == (SearcherCfg {
            quit_on_nul: true,
            context_before: before,
            context_after: after,
            invert,
            line_numbers: true,
            multi_line: false,
        }),
{
    let mut builder = grep_searcher::SearcherBuilder::new();
    builder
        .binary_detection(grep_searcher::BinaryDetection::quit(0u8))
        .before_context(before)
        .after_context(after)
        .invert_match(invert);
    builder.build()
}

/// A failed file scan: the error's text, and whether the error was the
/// invalid-data signal (which callers suppress rather than surface).
pub struct ScanFailure {
    pub invalid_data: bool,
    pub message: String,
}

/// The per-file accumulation state: the owning path, the scan settings,
/// and the matches recorded so far.
pub struct SinkBuf {
    pub path: String,
    pub invert: bool,
    pub max_count: Option<u64>,
    pub matches: Vec<Match>,
}

/// A batch respects the per-file cap, attributes every match to `path`
/// with a 1-based line number, keeps the file's line order (strictly
/// increasing line numbers, so no line is reported twice), and reports
/// column 0 under invert mode.
pub open spec fn batch_wf(
    ms: Seq<Match>,
    path: Seq<char>,
    invert: bool,
    max_count: Option<u64>,
) -> bool {
    &&& (max_count matches Some(k) ==> ms.len() <= k)
    &&& forall|i: int|
        0 <= i < ms.len() ==> {
            &&& (#[trigger] ms[i]).file@ == path
            &&& ms[i].line_number >= 1
            &&& (invert ==> ms[i].column == 0)
        }
    &&& forall|i: int, j: int|
        0 <= i < j < ms.len() ==> (#[trigger] ms[i]).line_number < (#[trigger] ms[j]).line_number
}

impl SinkBuf {
    /// The accumulated matches form a well-formed batch for this state.
    pub open spec fn wf(self) -> bool {
        batch_wf(self.matches@, self.path@, self.invert, self.max_count)
    }

    /// The per-file cap has been reached: no further match is recorded.
    pub open spec fn at_cap(self) -> bool {
        self.max_count matches Some(k) && self.matches@.len() >= k
    }

    /// The line number of the last recorded match; 0 before the first.
    pub open spec fn last_line(self) -> u64 {
        if self.matches@.len() == 0 {
            0
        } else {
            self.matches@.last().line_number
        }
    }

    /// Records one reported line: under the cap, appends a match carrying
    /// the owning path, the line number, the first-match column (0 under
    /// invert mode) and the line's text with the line ending stripped;
    /// at the cap, records nothing and stops the scan of this file.
    pub fn on_line(
        &mut self,
        matcher: &grep_regex::RegexMatcher,
        line_number: u64,
        line: &str,
    ) -> (more: bool)
        requires
            old(self).wf(),
            line_number >= 1,
            line_number > old(self).last_line(),
        ensures
            final(self).wf(),
            final(self).path == old(self).path,
            final(self).invert == old(self).invert,
            final(self).max_count == old(self).max_count,
            old(self).at_cap() ==> !more && final(self).matches@ == old(self).matches@,
            !old(self).at_cap() ==> {
                &&& more
                &&& final(self).matches@.len() == old(self).matches@.len() + 1
                &&& final(self).matches@.drop_last() == old(self).matches@
                &&& final(self).matches@.last().file@ == old(self).path@
                &&& final(self).matches@.last().line_number == line_number
                &&& final(self).matches@.last().text@ == trim_crlf(line@)
                &&& (old(self).invert ==> final(self).matches@.last().column == 0)
                &&& (!old(self).invert ==> final(self).matches@.last().column == (match first_hit(
                    *matcher,
                    line@,
                ) {
                    Option::Some(c) => c,
                    Option::None => 0,
                }))
            },
    {
        if let Some(max) = self.max_count {
            if self.matches.len() as u64 >= max {
                return false;
            }
        }
        let column: usize = if self.invert {
            0
        } else {
            match find_first(matcher, line) {
                Some(c) => c,
                None => 0,
            }
        };
        let m = Match {
            file: self.path.clone(),
            line_number,
            column,
            text: trim_line_end(line),
        };
        self.matches.push(m);
        proof {
            assert(final(self).matches@.drop_last() =~= old(self).matches@);
        }
        true
    }
}

/// Relies on `grep_searcher::Searcher::search_path` with the UTF-8 closure
/// sink: for a line-oriented scanner with line numbers on, the sink state
/// is touched only through `SinkBuf::on_line`, called once per reported
/// line with its 1-based line number, each line at most once and in file
/// order (strictly increasing line numbers); the scan leaves the
/// scanner's configuration unchanged; a failed scan is returned with its
/// text and its invalid-data classification.
#[verifier::external_body]
fn search_path_into(
    searcher: &mut grep_searcher::Searcher,
    matcher: &grep_regex::RegexMatcher,
    path: &str,
    sink: &mut SinkBuf,
) -> (r: Result<(), ScanFailure>)
    requires
        old(sink).wf(),
        searcher_cfg(*old(searcher)).line_numbers,
        !searcher_cfg(*old(searcher)).multi_line,
    ensures
        searcher_cfg(*final(searcher)) == searcher_cfg(*old(searcher)),
        final(sink).wf(),
        final(sink).path == old(sink).path,
        final(sink).invert == old(sink).invert,
        final(sink).max_count == old(sink).max_count,
{
    let result = searcher.search_path(
        matcher,
        std::path::Path::new(path),
        grep_searcher::sinks::UTF8(|ln, line| Ok(sink.on_line(matcher, ln, line))),
    );
    result.map_err(|e| ScanFailure {
        invalid_data: e.kind() == std::io::ErrorKind::InvalidData,
        message: e.to_string(),
    })
}

/// Scans one file and collects its ordered match batch. Every returned
/// batch respects the per-file cap, attributes each match to the scanned
/// path with 1-based strictly increasing line numbers, and reports
/// column 0 for every match under invert mode. A failed scan discards
/// the partial batch. The scanner must be line-oriented with line
/// numbers on, and its configuration is left unchanged.
pub fn search_file(
    matcher: &grep_regex::RegexMatcher,
    searcher: &mut grep_searcher::Searcher,
    path: &String,
    invert_match: bool,
    max_count: Option<u64>,
) -> (r: Result<Vec<Match>, ScanFailure>)
    requires
        searcher_cfg(*old(searcher)).line_numbers,
        !searcher_cfg(*old(searcher)).multi_line,
        searcher_cfg(*old(searcher)).invert == invert_match,
    ensures
        searcher_cfg(*final(searcher)) == searcher_cfg(*old(searcher)),
        r matches Ok(ms) ==> batch_wf(ms@, path@, invert_match, max_count),
{
    let mut sink = SinkBuf {
        path: path.clone(),
        invert: invert_match,
        max_count,
        matches: Vec::new(),
    };
    match search_path_into(searcher, matcher, path.as_str(), &mut sink) {
        Ok(()) => Ok(sink.matches),
        Err(f) => Err(f),
    }
}

} // verus!
