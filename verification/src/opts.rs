//! The configuration surface of a search: every knob is independently
//! toggleable, and a started search never mutates its options.

use vstd::prelude::*;

verus! {

/// Options controlling pattern compilation, directory walking and file
/// scanning for one search run.
#[derive(Clone, Debug)]
pub struct SearchOptions {
    /// Force case-insensitive matching.
    pub case_insensitive: bool,
    /// Enable case-insensitive matching automatically when the pattern is
    /// all lowercase (ignored when `case_insensitive` is already set).
    pub smart_case: bool,
    /// Match whole words only.
    pub word_boundary: bool,
    /// Lines of context before each match, handed to the scanner.
    /// Context lines are not themselves reported as matches.
    pub context_before: usize,
    /// Lines of context after each match, handed to the scanner.
    /// Context lines are not themselves reported as matches.
    pub context_after: usize,
    /// Report the lines that do not match instead of those that do.
    pub invert_match: bool,
    /// Include hidden files and directories.
    pub hidden: bool,
    /// Traverse symbolic links.
    pub follow_symlinks: bool,
    /// Honor `.gitignore`, global git excludes and `.git/info/exclude`.
    pub git_ignore: bool,
    /// Recursion depth cap (`None` = unlimited).
    pub max_depth: Option<usize>,
    /// Worker thread count (0 = auto-detect).
    pub threads: usize,
    /// Allow-list of recognized file-type names.
    pub file_types: Vec<String>,
    /// Glob patterns restricting the walk to matching paths.
    pub glob_include: Vec<String>,
    /// Glob patterns excluding matching paths from the walk.
    pub glob_exclude: Vec<String>,
    /// Per-file byte-size ceiling (`None` = unlimited).
    pub max_filesize: Option<u64>,
    /// Permit memory-mapped reads for large files. This implementation
    /// always reads through ordinary I/O, so the flag does not change
    /// what a search returns.
    pub mmap: bool,
    /// Treat the pattern as literal text, not as a regex.
    pub fixed_strings: bool,
    /// Allow matches to span line breaks.
    pub multiline: bool,
    /// Per-file match cap (`None` = unlimited).
    pub max_count: Option<u64>,
}

/// The default option set: smart case on, git ignore rules honored,
/// memory mapping permitted, everything else off or unlimited.
pub open spec fn is_default_options(o: SearchOptions) -> bool {
    &&& !o.case_insensitive
    &&& o.smart_case
    &&& !o.word_boundary
    &&& o.context_before == 0
    &&& o.context_after == 0
    &&& !o.invert_match
    &&& !o.hidden
    &&& !o.follow_symlinks
    &&& o.git_ignore
    &&& o.max_depth is None
    &&& o.threads == 0
    &&& o.file_types@ =~= Seq::<String>::empty()
    &&& o.glob_include@ =~= Seq::<String>::empty()
    &&& o.glob_exclude@ =~= Seq::<String>::empty()
    &&& o.max_filesize is None
    &&& o.mmap
    &&& !o.fixed_strings
    &&& !o.multiline
    &&& o.max_count is None
}

impl Default for SearchOptions {
    fn default() -> (r: SearchOptions)
        ensures
            is_default_options(r),
    {
        SearchOptions {
            case_insensitive: false,
            smart_case: true,
            word_boundary: false,
            context_before: 0,
            context_after: 0,
            invert_match: false,
            hidden: false,
            follow_symlinks: false,
            git_ignore: true,
            max_depth: None,
            threads: 0,
            file_types: Vec::new(),
            glob_include: Vec::new(),
            glob_exclude: Vec::new(),
            max_filesize: None,
            mmap: true,
            fixed_strings: false,
            multiline: false,
            max_count: None,
        }
    }
}

impl SearchOptions {
    /// The case-smart flag actually handed to the pattern compiler:
    /// smart case applies only when case insensitivity was not forced.
    pub open spec fn spec_effective_smart_case(self) -> bool {
        self.smart_case && !self.case_insensitive
    }

    /// Computes the case-smart flag handed to the pattern compiler.
    pub fn effective_smart_case(&self) -> (r: bool)
        ensures
            r == self.spec_effective_smart_case(),
    {
        self.smart_case && !self.case_insensitive
    }
}

} // verus!
