//! Pattern compilation: turns a textual pattern plus matching flags into
//! an executable matcher. The regex engine itself is an external
//! capability, consumed through a small trusted boundary.

use vstd::prelude::*;
use vstd::string::StringSliceAdditionalSpecFns;

use crate::opts::SearchOptions;
use crate::types::SearchError;

verus! {

/// The compiled pattern matcher of the regex engine, carried opaquely.
#[verifier::external_type_specification]
#[verifier::external_body]
pub struct ExRegexMatcher(grep_regex::RegexMatcher);

/// Whether the regex engine accepts `pattern` under the given flags.
/// Compilation is a pure function of the pattern text and the flags.
pub uninterp spec fn pattern_compiles(
    pattern: Seq<char>,
    case_insensitive: bool,
    case_smart: bool,
    word: bool,
    multi_line: bool,
    fixed: bool,
) -> bool;

/// The regex engine's diagnostic text for a rejected pattern, a pure
/// function of the pattern text and the flags.
pub uninterp spec fn compile_diag(
    pattern: Seq<char>,
    case_insensitive: bool,
    case_smart: bool,
    word: bool,
    multi_line: bool,
    fixed: bool,
) -> Seq<char>;

/// Relies on `grep_regex::RegexMatcherBuilder::build`: compilation succeeds
/// or fails as a function of the pattern text and the configured flags
/// alone; on failure the engine's diagnostic is returned as text.
#[verifier::external_body]
fn regex_build(
    pattern: &str,
    case_insensitive: bool,
    case_smart: bool,
    word: bool,
    multi_line: bool,
    fixed: bool,
) -> (r: Result<grep_regex::RegexMatcher, String>)
    ensures
        r is Ok <==> pattern_compiles(pattern@, case_insensitive, case_smart, word, multi_line,
            fixed),
        r matches Err(d) ==> d@ == compile_diag(pattern@, case_insensitive, case_smart, word,
            multi_line, fixed),
{
    let mut builder = grep_regex::RegexMatcherBuilder::new();
    builder
        .case_insensitive(case_insensitive)
        .case_smart(case_smart)
        .word(word)
        .multi_line(multi_line);
    if fixed {
        builder.fixed_strings(true);
    }
    builder.build(pattern).map_err(|e| e.to_string())
}

/// Relies on `grep_regex::RegexMatcher::new`, whose body delegates to
/// `RegexMatcherBuilder::build` with the all-default configuration.
#[verifier::external_body]
pub(crate) fn regex_new(pattern: &str) -> (r: Result<grep_regex::RegexMatcher, String>)
    ensures
        r is Ok <==> pattern_compiles(pattern@, false, false, false, false, false),
        r matches Err(d) ==> d@ == compile_diag(pattern@, false, false, false, false, false),
{
    grep_regex::RegexMatcher::new(pattern).map_err(|e| e.to_string())
}

/// The starting byte offset of the first match of a compiled matcher
/// within a line, or `None` when the line does not match — a pure
/// function of the matcher value and the line's text.
pub uninterp spec fn first_hit(m: grep_regex::RegexMatcher, line: Seq<char>) -> Option<usize>;

/// Relies on `grep_matcher::Matcher::find` for `grep_regex::RegexMatcher`:
/// returns the starting byte offset of the first match within the given
/// line (`None` when the line does not match), a function of the matcher
/// and the line alone; a reported offset lies within the line.
#[verifier::external_body]
pub(crate) fn find_first(matcher: &grep_regex::RegexMatcher, line: &str) -> (r: Option<usize>)
    ensures
        r == first_hit(*matcher, line@),
        r matches Some(c) ==> c <= line.spec_bytes().len(),
{
    match grep_matcher::Matcher::find(matcher, line.as_bytes()) {
        Ok(Some(m)) => Some(m.start()),
        _ => None,
    }
}

/// The compiled-pattern outcome for a pattern compiled under `opts`:
/// the case-smart flag applies only when case insensitivity is not forced.
pub open spec fn compiles_under(pattern: Seq<char>, opts: SearchOptions) -> bool {
    pattern_compiles(
        pattern,
        opts.case_insensitive,
        opts.spec_effective_smart_case(),
        opts.word_boundary,
        opts.multiline,
        opts.fixed_strings,
    )
}

/// The diagnostic of a pattern rejected under `opts`.
pub open spec fn diag_under(pattern: Seq<char>, opts: SearchOptions) -> Seq<char> {
    compile_diag(
        pattern,
        opts.case_insensitive,
        opts.spec_effective_smart_case(),
        opts.word_boundary,
        opts.multiline,
        opts.fixed_strings,
    )
}

/// Compiles `pattern` into a matcher, applying in order: the
/// case-insensitive flag, smart case (only when case insensitivity is not
/// already forced), whole-word wrapping, multiline mode and literal mode.
/// Fails with `InvalidPattern` exactly when the engine rejects the
/// pattern, carrying the engine's diagnostic.
pub fn build_matcher(pattern: &str, opts: &SearchOptions) -> (r: Result<
    grep_regex::RegexMatcher,
    SearchError,
>)
    ensures
        r is Ok <==> compiles_under(pattern@, *opts),
        r matches Err(e) ==> e matches SearchError::InvalidPattern(m) && m@ == "Invalid pattern: "@
            + diag_under(pattern@, *opts),
{
    let smart = opts.effective_smart_case();
    match regex_build(
        pattern,
        opts.case_insensitive,
        smart,
        opts.word_boundary,
        opts.multiline,
        opts.fixed_strings,
    ) {
        Ok(m) => Ok(m),
        Err(diag) => {
            let mut msg = String::new();
            msg.append("Invalid pattern: ");
            msg.append(diag.as_str());
            proof {
                assert(msg@ =~= "Invalid pattern: "@ + diag@);
            }
            Err(SearchError::InvalidPattern(msg))
        },
    }
}

} // verus!
