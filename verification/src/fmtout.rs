//! Rendering of a finished search as a human-readable report, verified
//! against character-level specifications.

use vstd::prelude::*;

use crate::numfmt::{dec_digits, u64_to_string, usize_to_string};
use crate::types::{Match, SearchResult};

verus! {

/// The rendering of an elapsed time: milliseconds under one second,
/// seconds under one minute (with one decimal, rounded to the nearest
/// tenth, under ten seconds), minutes and seconds under one hour, hours
/// and minutes otherwise.
pub open spec fn spec_duration(ms: u64) -> Seq<char> {
    if ms < 1000 {
        dec_digits(ms as nat) + " ms"@
    } else if ms < 60000 {
        if ms < 10000 {
            dec_digits((((ms + 50) / 100) / 10) as nat) + "."@ + dec_digits((((ms + 50) / 100)
                % 10) as nat) + " seconds"@
        } else {
            dec_digits((ms / 1000) as nat) + " seconds"@
        }
    } else if ms < 3600000 {
        if (ms % 60000) / 1000 > 0 {
            dec_digits((ms / 60000) as nat) + " minutes "@ + dec_digits(((ms % 60000) / 1000)
                as nat) + " seconds"@
        } else {
            dec_digits((ms / 60000) as nat) + " minutes"@
        }
    } else {
        dec_digits((ms / 3600000) as nat) + " hours "@ + dec_digits(((ms % 3600000) / 60000)
            as nat) + " minutes"@
    }
}

/// Renders an elapsed time in human-readable form.
pub fn format_duration(ms: u64) -> (r: String)
    ensures
        r@ == spec_duration(ms),
{
    let mut out = String::new();
    if ms < 1000 {
        out.append(u64_to_string(ms).as_str());
        out.append(" ms");
    } else if ms < 60000 {
        if ms < 10000 {
            let tenths = (ms + 50) / 100;
            out.append(u64_to_string(tenths / 10).as_str());
            out.append(".");
            out.append(u64_to_string(tenths % 10).as_str());
            out.append(" seconds");
        } else {
            out.append(u64_to_string(ms / 1000).as_str());
            out.append(" seconds");
        }
    } else if ms < 3600000 {
        if (ms % 60000) / 1000 > 0 {
            out.append(u64_to_string(ms / 60000).as_str());
            out.append(" minutes ");
            out.append(u64_to_string((ms % 60000) / 1000).as_str());
            out.append(" seconds");
        } else {
            out.append(u64_to_string(ms / 60000).as_str());
            out.append(" minutes");
        }
    } else {
        out.append(u64_to_string(ms / 3600000).as_str());
        out.append(" hours ");
        out.append(u64_to_string((ms % 3600000) / 60000).as_str());
        out.append(" minutes");
    }
    out
}

/// The report line for one match: `path:line:column: text`, newline
/// terminated.
pub open spec fn spec_match_line(m: Match) -> Seq<char> {
    m.file@ + ":"@ + dec_digits(m.line_number as nat) + ":"@ + dec_digits(m.column as nat)
        + ": "@ + m.text@ + "\n"@
}

/// The report lines for a sequence of matches, in order.
pub open spec fn spec_match_lines(ms: Seq<Match>) -> Seq<char>
    decreases ms.len(),
{
    if ms.len() == 0 {
        Seq::<char>::empty()
    } else {
        spec_match_lines(ms.drop_last()) + spec_match_line(ms.last())
    }
}

/// The indented report line for one recorded error.
pub open spec fn spec_error_line(e: Seq<char>) -> Seq<char> {
    "  "@ + e + "\n"@
}

/// The report lines for the recorded errors, in order.
pub open spec fn spec_error_lines(es: Seq<Seq<char>>) -> Seq<char>
    decreases es.len(),
{
    if es.len() == 0 {
        Seq::<char>::empty()
    } else {
        spec_error_lines(es.drop_last()) + spec_error_line(es.last())
    }
}

/// The word used for the match count: singular exactly for one match.
pub open spec fn spec_result_word(n: nat) -> Seq<char> {
    if n == 1 {
        "RESULT"@
    } else {
        "RESULTS"@
    }
}

/// The word used for the file count: singular exactly for one file.
pub open spec fn spec_file_word(n: nat) -> Seq<char> {
    if n == 1 {
        "FILE"@
    } else {
        "FILES"@
    }
}

/// The one-line summary heading the report.
pub open spec fn spec_summary(r: SearchResult) -> Seq<char> {
    dec_digits(r.stats.matches as nat) + " "@ + spec_result_word(r.stats.matches as nat)
        + " ACROSS "@ + dec_digits(r.stats.files_searched as nat) + " "@ + spec_file_word(
        r.stats.files_searched as nat,
    ) + ". Search completed in "@ + spec_duration(r.stats.elapsed_ms) + ".\n\n"@
}

/// The trailing error block: empty when no error was recorded.
pub open spec fn spec_error_block(r: SearchResult) -> Seq<char> {
    if r.errors@.len() == 0 {
        Seq::<char>::empty()
    } else {
        "\n"@ + dec_digits(r.errors@.len()) + " errors encountered:\n"@ + spec_error_lines(
            r.errors@.map_values(|e: String| e@),
        )
    }
}

/// The full report: summary, one line per match, then the error block.
pub open spec fn spec_report(r: SearchResult) -> Seq<char> {
    spec_summary(r) + spec_match_lines(r.matches@) + spec_error_block(r)
}

/// Renders a finished search as a report: a one-line summary, one line per
/// match, and a trailing error block when errors were recorded.
pub fn format_results_with_stats(result: &SearchResult) -> (r: String)
    ensures
        r@ == spec_report(*result),
{
    let mut out = String::new();
    out.append(usize_to_string(result.stats.matches).as_str());
    out.append(" ");
    if result.stats.matches == 1 {
        out.append("RESULT");
    } else {
        out.append("RESULTS");
    }
    out.append(" ACROSS ");
    out.append(usize_to_string(result.stats.files_searched).as_str());
    out.append(" ");
    if result.stats.files_searched == 1 {
        out.append("FILE");
    } else {
        out.append("FILES");
    }
    out.append(". Search completed in ");
    out.append(format_duration(result.stats.elapsed_ms).as_str());
    out.append(".\n\n");
    proof {
        assert(out@ =~= spec_summary(*result));
    }
    let ghost header: Seq<char> = out@;
    let mut i: usize = 0;
    while i < result.matches.len()
        invariant
            i <= result.matches@.len(),
            out@ == header + spec_match_lines(result.matches@.take(i as int)),
        decreases result.matches@.len() - i,
    {
        let ghost prev: Seq<char> = out@;
        let m = &result.matches[i];
        out.append(m.file.as_str());
        out.append(":");
        out.append(u64_to_string(m.line_number).as_str());
        out.append(":");
        out.append(usize_to_string(m.column).as_str());
        out.append(": ");
        out.append(m.text.as_str());
        out.append("\n");
        proof {
            assert(out@ =~= prev + spec_match_line(result.matches@[i as int]));
            assert(result.matches@.take(i + 1).drop_last() =~= result.matches@.take(i as int));
            assert(result.matches@.take(i + 1).last() == result.matches@[i as int]);
            assert(out@ =~= header + spec_match_lines(result.matches@.take(i + 1)));
        }
        i = i + 1;
    }
    proof {
        assert(result.matches@.take(result.matches@.len() as int) =~= result.matches@);
    }
    if result.errors.len() > 0 {
        out.append("\n");
        out.append(usize_to_string(result.errors.len()).as_str());
        out.append(" errors encountered:\n");
        let ghost before_errors: Seq<char> = out@;
        let ghost evs: Seq<Seq<char>> = result.errors@.map_values(|e: String| e@);
        let mut j: usize = 0;
        while j < result.errors.len()
            invariant
                j <= result.errors@.len(),
                evs == result.errors@.map_values(|e: String| e@),
                out@ =~= before_errors + spec_error_lines(evs.take(j as int)),
            decreases result.errors@.len() - j,
        {
            out.append("  ");
            out.append(result.errors[j].as_str());
            out.append("\n");
            proof {
                assert(evs.take(j + 1).drop_last() =~= evs.take(j as int));
                assert(evs.take(j + 1).last() == evs[j as int]);
                assert(evs[j as int] == result.errors@[j as int]@);
            }
            j = j + 1;
        }
        proof {
            assert(evs.take(evs.len() as int) =~= evs);
        }
    }
    out
}

} // verus!
