//! A single-threaded search variant: walks a directory sequentially with
//! the default ignore rules, skips likely-binary files by extension, and
//! collects matches with a per-line column lookup.

use vstd::prelude::*;

use vstd::string::StringSliceAdditionalSpecFns;

use crate::numfmt::{dec_digits, u64_to_string, usize_to_string};
use crate::pattern::{compile_diag, find_first, first_hit, pattern_compiles, regex_new};
use crate::strutil::{ascii_lowercase, extension_str, lower_chars, spec_extension, str_eq};
use crate::scan::{searcher_cfg, SearcherCfg};
use crate::walk::{entry_is_dir, entry_path_string, wb_settings, WalkSetting};

verus! {

/// One line-level hit of the sequential search: owning path, 1-based line
/// number, 0-based byte column of the first match, and the line's text
/// with trailing whitespace stripped.
#[derive(Debug, Clone)]
pub struct Match {
    pub file: String,
    pub line: u64,
    pub col: u64,
    pub text: String,
}

/// Whether a character has the Unicode white-space property, as decided
/// by the standard library.
pub uninterp spec fn is_unicode_ws(c: char) -> bool;

/// Relies on `char::is_whitespace`: the Unicode white-space property is a
/// function of the character alone.
pub assume_specification[ char::is_whitespace ](c: char) -> (r: bool)
    ensures
        r == is_unicode_ws(c),
;

/// Strips every trailing white-space character from `s`.
pub open spec fn trim_ws(s: Seq<char>) -> Seq<char>
    decreases s.len(),
{
    if s.len() > 0 && is_unicode_ws(s.last()) {
        trim_ws(s.drop_last())
    } else {
        s
    }
}

/// Returns `s` with every trailing white-space character removed.
pub fn trim_end_ws(s: &str) -> (r: String)
    ensures
        r@ == trim_ws(s@),
{
    let n = s.unicode_len();
    let mut end = n;
    proof {
        assert(s@.take(n as int) =~= s@);
    }
    loop
        invariant_except_break
            end <= n,
            n == s@.len(),
            trim_ws(s@) == trim_ws(s@.take(end as int)),
        ensures
            end <= n,
            n == s@.len(),
            trim_ws(s@) == trim_ws(s@.take(end as int)),
            end > 0 ==> !is_unicode_ws(s@[end - 1]),
        decreases end,
    {
        if end == 0 {
            break;
        }
        let c = s.get_char(end - 1);
        if c.is_whitespace() {
            proof {
                assert(s@.take(end as int).last() == c);
                assert(s@.take(end as int).drop_last() =~= s@.take(end - 1));
            }
            end = end - 1;
        } else {
            proof {
                assert(s@.take(end as int).last() == c);
            }
            break;
        }
    }
    proof {
        if end > 0 {
            assert(s@.take(end as int).last() == s@[end - 1]);
            assert(trim_ws(s@.take(end as int)) == s@.take(end as int));
        } else {
            assert(s@.take(0) =~= Seq::<char>::empty());
        }
    }
    let r = s.substring_char(0, end);
    proof {
        assert(s@.subrange(0, end as int) =~= s@.take(end as int));
    }
    r.to_owned()
}

/// Finds the 0-based byte column of the first match within a line:
/// exactly the matcher's first-hit offset, `None` when the matcher does
/// not match the line; a reported column lies within the line.
pub fn find_match_column(matcher: &grep_regex::RegexMatcher, line: &str) -> (r: Option<u64>)
    ensures
        r matches Some(c) ==> first_hit(*matcher, line@) matches Some(h) && c == h as u64,
        r is None <==> first_hit(*matcher, line@) is None,
        r matches Some(c) ==> c <= line.spec_bytes().len(),
{
    match find_first(matcher, line) {
        Some(c) => Some(c as u64),
        None => None,
    }
}

/// The per-file accumulation state of the sequential search.
pub struct SimpleSink {
    pub path: String,
    pub matches: Vec<Match>,
}

impl SimpleSink {
    /// Every recorded match carries the owning path and a 1-based line
    /// number, and the file's line order is kept (strictly increasing,
    /// so no line is reported twice).
    pub open spec fn wf(self) -> bool {
        &&& forall|i: int|
            0 <= i < self.matches@.len() ==> (#[trigger] self.matches@[i]).file@ == self.path@
                && self.matches@[i].line >= 1
        &&& forall|i: int, j: int|
            0 <= i < j < self.matches@.len() ==> (#[trigger] self.matches@[i]).line
                < (#[trigger] self.matches@[j]).line
    }

    /// The line number of the last recorded match; 0 before the first.
    pub open spec fn last_line(self) -> u64 {
        if self.matches@.len() == 0 {
            0
        } else {
            self.matches@.last().line
        }
    }

    /// Records one reported line: appends a match carrying the owning
    /// path, the line number, the best-effort first-match column (0 when
    /// the matcher cannot localize one) and the line's text with trailing
    /// whitespace stripped.
    pub fn on_line(
        &mut self,
        matcher: &grep_regex::RegexMatcher,
        line_number: u64,
        line: &str,
    ) -> (more: bool)
        requires
            old(self).wf(),
            line_number >= 1,
            line_number > old(self).last_line(),
        ensures
            final(self).wf(),
            final(self).path == old(self).path,
            more,
            final(self).matches@.len() == old(self).matches@.len() + 1,
            final(self).matches@.drop_last() == old(self).matches@,
            final(self).matches@.last().file@ == old(self).path@,
            final(self).matches@.last().line == line_number,
            final(self).matches@.last().text@ == trim_ws(line@),
            final(self).matches@.last().col == (match first_hit(*matcher, line@) {
                Option::Some(c) => c as u64,
                Option::None => 0,
            }),
    {
        let col: u64 = match find_match_column(matcher, line) {
            Some(c) => c,
            None => 0,
        };
        let m = Match { file: self.path.clone(), line: line_number, col, text: trim_end_ws(line) };
        self.matches.push(m);
        proof {
            assert(final(self).matches@.drop_last() =~= old(self).matches@);
        }
        true
    }
}

/// Relies on `grep_searcher::Searcher::new`: a scanner with the default
/// configuration — line numbers on, single-line scanning, no context,
/// no inverted matching, no binary detection.
#[verifier::external_body]
fn plain_searcher() -> (s: grep_searcher::Searcher)
    ensures
        searcher_cfg(s) == (SearcherCfg {
            quit_on_nul: false,
            context_before: 0,
            context_after: 0,
            invert: false,
            line_numbers: true,
            multi_line: false,
        }),
{
    grep_searcher::Searcher::new()
}

/// Relies on `grep_searcher::Searcher::search_path` with the UTF-8
/// closure sink: for a line-oriented scanner with line numbers on, the
/// sink state is touched only through `SimpleSink::on_line`, called once
/// per reported line with its 1-based line number, each line at most
/// once and in file order (strictly increasing line numbers); a failed
/// scan is reported without its diagnostic.
#[verifier::external_body]
fn search_path_simple(
    searcher: &mut grep_searcher::Searcher,
    matcher: &grep_regex::RegexMatcher,
    path: &str,
    sink: &mut SimpleSink,
) -> (r: Result<(), ()>)
    requires
        old(sink).wf(),
        searcher_cfg(*old(searcher)).line_numbers,
        !searcher_cfg(*old(searcher)).multi_line,
    ensures
        final(sink).wf(),
        final(sink).path == old(sink).path,
{
    searcher
        .search_path(
            matcher,
            std::path::Path::new(path),
            grep_searcher::sinks::UTF8(|ln, line| Ok(sink.on_line(matcher, ln, line))),
        )
        .map_err(|_| ())
}

/// Scans one file and collects its matches in the file's line order; a
/// file that cannot be read contributes an empty batch instead of an
/// error.
fn search_file(matcher: &grep_regex::RegexMatcher, path: &String) -> (r: Vec<Match>)
    ensures
        forall|i: int|
            0 <= i < r@.len() ==> (#[trigger] r@[i]).file@ == path@ && r@[i].line >= 1,
        forall|i: int, j: int|
            0 <= i < j < r@.len() ==> (#[trigger] r@[i]).line < (#[trigger] r@[j]).line,
{
    let mut searcher = plain_searcher();
    let mut sink = SimpleSink { path: path.clone(), matches: Vec::new() };
    match search_path_simple(&mut searcher, matcher, path.as_str(), &mut sink) {
        Ok(()) => sink.matches,
        Err(()) => Vec::new(),
    }
}

/// Whether a lower-cased extension is on the list of extensions treated
/// as binary.
pub open spec fn is_binary_ext(e: Seq<char>) -> bool {
    ||| e == "exe"@
    ||| e == "dll"@
    ||| e == "so"@
    ||| e == "dylib"@
    ||| e == "a"@
    ||| e == "o"@
    ||| e == "obj"@
    ||| e == "bin"@
    ||| e == "dat"@
    ||| e == "db"@
    ||| e == "sqlite"@
    ||| e == "png"@
    ||| e == "jpg"@
    ||| e == "jpeg"@
    ||| e == "gif"@
    ||| e == "bmp"@
    ||| e == "ico"@
    ||| e == "pdf"@
    ||| e == "zip"@
    ||| e == "tar"@
    ||| e == "gz"@
    ||| e == "bz2"@
    ||| e == "xz"@
    ||| e == "7z"@
    ||| e == "rar"@
    ||| e == "class"@
    ||| e == "pyc"@
    ||| e == "pyo"@
    ||| e == "wasm"@
    ||| e == "ttf"@
    ||| e == "otf"@
    ||| e == "woff"@
    ||| e == "woff2"@
    ||| e == "mp3"@
    ||| e == "mp4"@
    ||| e == "avi"@
    ||| e == "mov"@
    ||| e == "mkv"@
}

/// Decides membership on the binary-extension list.
fn is_binary_ext_exec(e: &String) -> (r: bool)
    ensures
        r == is_binary_ext(e@),
{
    let s = e.as_str();
    str_eq(s, "exe") || str_eq(s, "dll") || str_eq(s, "so") || str_eq(s, "dylib") || str_eq(
        s,
        "a",
    ) || str_eq(s, "o") || str_eq(s, "obj") || str_eq(s, "bin") || str_eq(s, "dat") || str_eq(
        s,
        "db",
    ) || str_eq(s, "sqlite") || str_eq(s, "png") || str_eq(s, "jpg") || str_eq(s, "jpeg")
        || str_eq(s, "gif") || str_eq(s, "bmp") || str_eq(s, "ico") || str_eq(s, "pdf") || str_eq(
        s,
        "zip",
    ) || str_eq(s, "tar") || str_eq(s, "gz") || str_eq(s, "bz2") || str_eq(s, "xz") || str_eq(
        s,
        "7z",
    ) || str_eq(s, "rar") || str_eq(s, "class") || str_eq(s, "pyc") || str_eq(s, "pyo") || str_eq(
        s,
        "wasm",
    ) || str_eq(s, "ttf") || str_eq(s, "otf") || str_eq(s, "woff") || str_eq(s, "woff2") || str_eq(
        s,
        "mp3",
    ) || str_eq(s, "mp4") || str_eq(s, "avi") || str_eq(s, "mov") || str_eq(s, "mkv")
}

/// A path is treated as likely binary when its extension, lower-cased,
/// is on the binary-extension list.
pub open spec fn spec_is_likely_binary(p: Seq<char>) -> bool {
    spec_extension(p) matches Some(e) && is_binary_ext(lower_chars(e))
}

/// Heuristic: whether a path names a likely-binary file, by extension.
pub fn is_likely_binary(path: &str) -> (r: bool)
    ensures
        r == spec_is_likely_binary(path@),
{
    match extension_str(path) {
        None => false,
        Some(e) => {
            let lowered = ascii_lowercase(e.as_str());
            is_binary_ext_exec(&lowered)
        },
    }
}

/// Relies on `<ignore::Walk as Iterator>::collect`: every entry of the
/// sequential walk, in traversal order.
#[verifier::external_body]
fn collect_entries(w: ignore::Walk) -> Vec<Result<ignore::DirEntry, ignore::Error>> {
    w.collect()
}

/// Builds the default sequential walker configuration: hidden files
/// included, all three git-ignore tiers honored, and nothing else set.
fn default_walker(root: &str) -> (b: ignore::WalkBuilder)
    ensures
        wb_settings(b) == seq![
            WalkSetting::SkipHidden(false),
            WalkSetting::GitIgnore(true),
            WalkSetting::GitGlobal(true),
            WalkSetting::GitExclude(true),
        ],
{
    let mut builder = crate::walk::wb_new(root);
    crate::walk::wb_hidden(&mut builder, false);
    crate::walk::wb_git_ignore(&mut builder, true);
    crate::walk::wb_git_global(&mut builder, true);
    crate::walk::wb_git_exclude(&mut builder, true);
    proof {
        assert(wb_settings(builder) =~= seq![
            WalkSetting::SkipHidden(false),
            WalkSetting::GitIgnore(true),
            WalkSetting::GitGlobal(true),
            WalkSetting::GitExclude(true),
        ]);
    }
    builder
}

/// Searches a directory recursively for a pattern with the default
/// options: honors git ignore rules, keeps hidden files, skips
/// directories and likely-binary files, and swallows per-file read
/// failures. Fails exactly when the pattern does not compile, carrying
/// the engine's diagnostic; no returned match names a path whose
/// lower-cased extension is on the binary-extension list.
pub fn search_directory(pattern: &str, path: &str) -> (r: Result<Vec<Match>, String>)
    ensures
        r is Ok <==> pattern_compiles(pattern@, false, false, false, false, false),
        r matches Err(m) ==> m@ == "Invalid pattern: "@ + compile_diag(pattern@, false, false,
            false, false, false),
        r matches Ok(ms) ==> forall|i: int|
            0 <= i < ms@.len() ==> (#[trigger] ms@[i]).line >= 1 && !spec_is_likely_binary(
                ms@[i].file@,
            ),
{
    let matcher = match regex_new(pattern) {
        Ok(m) => m,
        Err(diag) => {
            let mut msg = String::new();
            msg.append("Invalid pattern: ");
            msg.append(diag.as_str());
            proof {
                assert(msg@ =~= "Invalid pattern: "@ + diag@);
            }
            return Err(msg);
        },
    };
    let mut matches: Vec<Match> = Vec::new();
    let walker = default_walker(path);
    let entries = collect_entries(crate::walk::wb_build(&walker));
    let n = entries.len();
    let mut i: usize = 0;
    while i < n
        invariant
            i <= n,
            n == entries@.len(),
            forall|k: int|
                0 <= k < matches@.len() ==> (#[trigger] matches@[k]).line >= 1
                    && !spec_is_likely_binary(matches@[k].file@),
        decreases n - i,
    {
        match &entries[i] {
            Err(_) => {},
            Ok(entry) => {
                if !entry_is_dir(entry) {
                    let p = entry_path_string(entry);
                    if !is_likely_binary(p.as_str()) {
                        let mut file_matches = search_file(&matcher, &p);
                        matches.append(&mut file_matches);
                    }
                }
            },
        }
        i = i + 1;
    }
    Ok(matches)
}

/// The header of the sequential report.
pub open spec fn spec_simple_header(n: nat) -> Seq<char> {
    "=== "@ + dec_digits(n) + " matches ===\n"@
}

/// The report line for one sequential match.
pub open spec fn spec_simple_line(m: Match) -> Seq<char> {
    m.file@ + ":"@ + dec_digits(m.line as nat) + ":"@ + dec_digits(m.col as nat) + ": "@ + m.text@
        + "\n"@
}

/// The report lines for a sequence of sequential matches, in order.
pub open spec fn spec_simple_lines(ms: Seq<Match>) -> Seq<char>
    decreases ms.len(),
{
    if ms.len() == 0 {
        Seq::<char>::empty()
    } else {
        spec_simple_lines(ms.drop_last()) + spec_simple_line(ms.last())
    }
}

/// Renders the sequential matches for display: a match-count header, then
/// one `file:line:col: text` line per match.
pub fn format_results(matches: &Vec<Match>) -> (r: String)
    ensures
        r@ == spec_simple_header(matches@.len()) + spec_simple_lines(matches@),
{
    let mut out = String::new();
    out.append("=== ");
    out.append(usize_to_string(matches.len()).as_str());
    out.append(" matches ===\n");
    proof {
        assert(out@ =~= spec_simple_header(matches@.len()));
    }
    let ghost header: Seq<char> = out@;
    let mut i: usize = 0;
    while i < matches.len()
        invariant
            i <= matches@.len(),
            header == spec_simple_header(matches@.len()),
            out@ == header + spec_simple_lines(matches@.take(i as int)),
        decreases matches@.len() - i,
    {
        let ghost prev: Seq<char> = out@;
        let m = &matches[i];
        out.append(m.file.as_str());
        out.append(":");
        out.append(u64_to_string(m.line).as_str());
        out.append(":");
        out.append(u64_to_string(m.col).as_str());
        out.append(": ");
        out.append(m.text.as_str());
        out.append("\n");
        proof {
            assert(out@ =~= prev + spec_simple_line(matches@[i as int]));
            assert(matches@.take(i + 1).drop_last() =~= matches@.take(i as int));
            assert(matches@.take(i + 1).last() == matches@[i as int]);
            assert(out@ =~= header + spec_simple_lines(matches@.take(i + 1)));
        }
        i = i + 1;
    }
    proof {
        assert(matches@.take(matches@.len() as int) =~= matches@);
    }
    out
}

} // verus!
