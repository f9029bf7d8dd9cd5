//! Scenario tests for the parallel search engine and the report
//! formatters, run against real directories.

use pargrep::{
    format_duration, format_results_with_stats, search_parallel, Match, SearchError,
    SearchOptions, SearchResult, SearchStats,
};

fn tmpdir() -> tempfile::TempDir {
    tempfile::tempdir().expect("temp dir")
}

fn write_file(dir: &std::path::Path, name: &str, contents: &[u8]) {
    fs_err::write(dir.join(name), contents).expect("write file");
}

fn sorted_content(r: &SearchResult) -> Vec<(String, u64, usize, String)> {
    let mut v: Vec<(String, u64, usize, String)> = r
        .matches
        .iter()
        .map(|m| (m.file.clone(), m.line_number, m.column, m.text.clone()))
        .collect();
    v.sort();
    v
}

#[test]
fn test_default_options() {
    let opts = SearchOptions::default();
    assert!(!opts.case_insensitive);
    assert!(opts.smart_case);
    assert!(opts.git_ignore);
}

#[test]
fn test_build_matcher() {
    let opts = SearchOptions::default();
    let matcher = pargrep::build_matcher("test", &opts);
    assert!(matcher.is_ok());
}

#[test]
fn test_build_matcher_invalid() {
    let opts = SearchOptions::default();
    let matcher = pargrep::build_matcher("[invalid", &opts);
    assert!(matcher.is_err());
}

#[test]
fn empty_directory_yields_nothing() {
    let dir = tmpdir();
    let opts = SearchOptions::default();
    let r = search_parallel("foo", dir.path().to_str().unwrap(), &opts).unwrap();
    assert_eq!(r.matches.len(), 0);
    assert_eq!(r.errors.len(), 0);
    assert_eq!(r.stats.matches, 0);
    assert_eq!(r.stats.files_searched, 0);
    assert_eq!(r.stats.files_matched, 0);
}

#[test]
fn invalid_pattern_fails_before_io() {
    let dir = tmpdir();
    write_file(dir.path(), "a.txt", b"anything\n");
    let opts = SearchOptions::default();
    let r = search_parallel("[invalid", dir.path().to_str().unwrap(), &opts);
    match r {
        Err(SearchError::InvalidPattern(msg)) => {
            assert!(msg.starts_with("Invalid pattern: "));
        }
        _ => panic!("expected an invalid-pattern error"),
    }
}

#[test]
fn repeated_search_yields_identical_content() {
    let dir = tmpdir();
    write_file(dir.path(), "a.txt", b"needle one\nnothing\nneedle two\n");
    write_file(dir.path(), "b.txt", b"also a needle\n");
    let opts = SearchOptions::default();
    let r1 = search_parallel("needle", dir.path().to_str().unwrap(), &opts).unwrap();
    let r2 = search_parallel("needle", dir.path().to_str().unwrap(), &opts).unwrap();
    assert_eq!(sorted_content(&r1), sorted_content(&r2));
    assert_eq!(r1.stats.files_searched, r2.stats.files_searched);
    assert_eq!(r1.stats.files_matched, r2.stats.files_matched);
}

#[test]
fn max_count_caps_each_file() {
    let dir = tmpdir();
    write_file(dir.path(), "a.txt", b"x\nx\nx\nx\nx\n");
    write_file(dir.path(), "b.txt", b"x\nx\nx\n");
    let mut opts = SearchOptions::default();
    opts.max_count = Some(2);
    let r = search_parallel("x", dir.path().to_str().unwrap(), &opts).unwrap();
    assert_eq!(r.matches.len(), 4);
    let a_count = r.matches.iter().filter(|m| m.file.ends_with("a.txt")).count();
    let b_count = r.matches.iter().filter(|m| m.file.ends_with("b.txt")).count();
    assert_eq!(a_count, 2);
    assert_eq!(b_count, 2);
}

#[test]
fn invert_match_reports_nonmatching_lines_with_column_zero() {
    let dir = tmpdir();
    write_file(dir.path(), "a.txt", b"foo\nbar\nbaz\n");
    let mut opts = SearchOptions::default();
    opts.invert_match = true;
    let r = search_parallel("foo", dir.path().to_str().unwrap(), &opts).unwrap();
    let mut texts: Vec<String> = r.matches.iter().map(|m| m.text.clone()).collect();
    texts.sort();
    assert_eq!(texts, vec!["bar".to_string(), "baz".to_string()]);
    for m in &r.matches {
        assert_eq!(m.column, 0);
    }
}

#[test]
fn binary_file_contributes_nothing() {
    let dir = tmpdir();
    write_file(dir.path(), "bin.dat", b"foo\x00foo\nfoo\n");
    let opts = SearchOptions::default();
    let r = search_parallel("foo", dir.path().to_str().unwrap(), &opts).unwrap();
    assert_eq!(r.matches.len(), 0);
    assert_eq!(r.errors.len(), 0);
}

#[test]
fn gitignore_honored_only_when_enabled() {
    let dir = tmpdir();
    fs_err::create_dir(dir.path().join(".git")).expect("git dir");
    write_file(dir.path(), ".gitignore", b"ignored.txt\n");
    write_file(dir.path(), "ignored.txt", b"needle\n");
    write_file(dir.path(), "kept.txt", b"needle\n");
    let mut opts = SearchOptions::default();
    opts.hidden = true;
    opts.git_ignore = true;
    let r = search_parallel("needle", dir.path().to_str().unwrap(), &opts).unwrap();
    assert!(r.matches.iter().all(|m| !m.file.ends_with("ignored.txt")));
    assert!(r.matches.iter().any(|m| m.file.ends_with("kept.txt")));
    opts.git_ignore = false;
    let r = search_parallel("needle", dir.path().to_str().unwrap(), &opts).unwrap();
    assert!(r.matches.iter().any(|m| m.file.ends_with("ignored.txt")));
    assert!(r.matches.iter().any(|m| m.file.ends_with("kept.txt")));
}

#[test]
fn two_matches_at_lines_one_and_three() {
    let dir = tmpdir();
    write_file(dir.path(), "a.txt", b"foo\nbar\nfoo\n");
    let opts = SearchOptions::default();
    let r = search_parallel("foo", dir.path().to_str().unwrap(), &opts).unwrap();
    assert_eq!(r.matches.len(), 2);
    assert_eq!(r.stats.matches, 2);
    assert_eq!(r.stats.files_searched, 1);
    assert_eq!(r.stats.files_matched, 1);
    let mut lines: Vec<u64> = r.matches.iter().map(|m| m.line_number).collect();
    lines.sort();
    assert_eq!(lines, vec![1, 3]);
    for m in &r.matches {
        assert_eq!(m.column, 0);
        assert_eq!(m.text, "foo");
        assert!(m.file.ends_with("a.txt"));
    }
}

#[test]
fn case_insensitive_pattern_matches_like_default() {
    let dir = tmpdir();
    write_file(dir.path(), "a.txt", b"foo\nbar\nfoo\n");
    let mut opts = SearchOptions::default();
    opts.case_insensitive = true;
    let r = search_parallel("FOO", dir.path().to_str().unwrap(), &opts).unwrap();
    assert_eq!(r.matches.len(), 2);
    assert_eq!(r.stats.files_searched, 1);
    assert_eq!(r.stats.files_matched, 1);
    let mut lines: Vec<u64> = r.matches.iter().map(|m| m.line_number).collect();
    lines.sort();
    assert_eq!(lines, vec![1, 3]);
    for m in &r.matches {
        assert_eq!(m.column, 0);
    }
}

#[test]
fn max_filesize_excludes_larger_files() {
    let dir = tmpdir();
    write_file(dir.path(), "a.txt", b"foo\n");
    let mut opts = SearchOptions::default();
    opts.max_filesize = Some(1);
    let r = search_parallel("foo", dir.path().to_str().unwrap(), &opts).unwrap();
    assert_eq!(r.matches.len(), 0);
    assert_eq!(r.stats.files_searched, 0);
}

#[test]
fn column_is_byte_offset_of_first_match() {
    let dir = tmpdir();
    write_file(dir.path(), "a.txt", b"ab foo\n");
    let opts = SearchOptions::default();
    let r = search_parallel("foo", dir.path().to_str().unwrap(), &opts).unwrap();
    assert_eq!(r.matches.len(), 1);
    assert_eq!(r.matches[0].column, 3);
    assert_eq!(r.matches[0].line_number, 1);
}

#[test]
fn smart_case_enables_insensitivity_for_lowercase_patterns() {
    let dir = tmpdir();
    write_file(dir.path(), "a.txt", b"FOO\nfoo\n");
    let opts = SearchOptions::default();
    let r = search_parallel("foo", dir.path().to_str().unwrap(), &opts).unwrap();
    assert_eq!(r.matches.len(), 2);
    let r = search_parallel("Foo", dir.path().to_str().unwrap(), &opts).unwrap();
    assert_eq!(r.matches.len(), 0);
}

#[test]
fn word_boundary_restricts_to_whole_words() {
    let dir = tmpdir();
    write_file(dir.path(), "a.txt", b"foobar\nfoo bar\n");
    let mut opts = SearchOptions::default();
    opts.word_boundary = true;
    let r = search_parallel("foo", dir.path().to_str().unwrap(), &opts).unwrap();
    assert_eq!(r.matches.len(), 1);
    assert_eq!(r.matches[0].line_number, 2);
}

#[test]
fn fixed_strings_treats_pattern_literally() {
    let dir = tmpdir();
    write_file(dir.path(), "a.txt", b"a.b\naxb\n");
    let mut opts = SearchOptions::default();
    opts.fixed_strings = true;
    let r = search_parallel("a.b", dir.path().to_str().unwrap(), &opts).unwrap();
    assert_eq!(r.matches.len(), 1);
    assert_eq!(r.matches[0].line_number, 1);
    opts.fixed_strings = false;
    let r = search_parallel("a.b", dir.path().to_str().unwrap(), &opts).unwrap();
    assert_eq!(r.matches.len(), 2);
}

#[test]
fn glob_filters_restrict_and_exclude() {
    let dir = tmpdir();
    write_file(dir.path(), "a.rs", b"needle\n");
    write_file(dir.path(), "b.txt", b"needle\n");
    let mut opts = SearchOptions::default();
    opts.glob_include = vec!["*.rs".to_string()];
    let r = search_parallel("needle", dir.path().to_str().unwrap(), &opts).unwrap();
    assert_eq!(r.matches.len(), 1);
    assert!(r.matches[0].file.ends_with("a.rs"));
    let mut opts = SearchOptions::default();
    opts.glob_exclude = vec!["*.rs".to_string()];
    let r = search_parallel("needle", dir.path().to_str().unwrap(), &opts).unwrap();
    assert_eq!(r.matches.len(), 1);
    assert!(r.matches[0].file.ends_with("b.txt"));
}

#[test]
fn invalid_glob_is_rejected() {
    let dir = tmpdir();
    let mut opts = SearchOptions::default();
    opts.glob_include = vec!["a[".to_string()];
    let r = search_parallel("x", dir.path().to_str().unwrap(), &opts);
    match r {
        Err(SearchError::InvalidGlob(msg)) => {
            assert!(msg.starts_with("Invalid glob 'a['"));
        }
        _ => panic!("expected an invalid-glob error"),
    }
}

#[test]
fn unknown_file_type_is_rejected() {
    let dir = tmpdir();
    let mut opts = SearchOptions::default();
    opts.file_types = vec!["nosuchtype".to_string()];
    let r = search_parallel("x", dir.path().to_str().unwrap(), &opts);
    assert!(matches!(r, Err(SearchError::InvalidTypeFilter(_))));
}

#[test]
fn file_type_filter_selects_recognized_types() {
    let dir = tmpdir();
    write_file(dir.path(), "a.rs", b"needle\n");
    write_file(dir.path(), "b.txt", b"needle\n");
    let mut opts = SearchOptions::default();
    opts.file_types = vec!["rust".to_string()];
    let r = search_parallel("needle", dir.path().to_str().unwrap(), &opts).unwrap();
    assert_eq!(r.matches.len(), 1);
    assert!(r.matches[0].file.ends_with("a.rs"));
}

#[test]
fn max_depth_limits_recursion() {
    let dir = tmpdir();
    write_file(dir.path(), "a.txt", b"needle\n");
    fs_err::create_dir(dir.path().join("sub")).expect("subdir");
    write_file(&dir.path().join("sub"), "b.txt", b"needle\n");
    let mut opts = SearchOptions::default();
    opts.max_depth = Some(1);
    let r = search_parallel("needle", dir.path().to_str().unwrap(), &opts).unwrap();
    assert_eq!(r.matches.len(), 1);
    assert!(r.matches[0].file.ends_with("a.txt"));
}

#[test]
fn hidden_files_skipped_by_default() {
    let dir = tmpdir();
    write_file(dir.path(), ".hidden.txt", b"needle\n");
    write_file(dir.path(), "seen.txt", b"needle\n");
    let mut opts = SearchOptions::default();
    opts.git_ignore = false;
    let r = search_parallel("needle", dir.path().to_str().unwrap(), &opts).unwrap();
    assert_eq!(r.matches.len(), 1);
    assert!(r.matches[0].file.ends_with("seen.txt"));
    opts.hidden = true;
    let r = search_parallel("needle", dir.path().to_str().unwrap(), &opts).unwrap();
    assert_eq!(r.matches.len(), 2);
}

#[test]
fn trailing_line_ending_is_stripped() {
    let dir = tmpdir();
    write_file(dir.path(), "a.txt", b"foo  \r\n");
    let opts = SearchOptions::default();
    let r = search_parallel("foo", dir.path().to_str().unwrap(), &opts).unwrap();
    assert_eq!(r.matches.len(), 1);
    assert_eq!(r.matches[0].text, "foo  ");
}

#[test]
fn duration_rendering() {
    assert_eq!(format_duration(0), "0 ms");
    assert_eq!(format_duration(999), "999 ms");
    assert_eq!(format_duration(1000), "1.0 seconds");
    assert_eq!(format_duration(1234), "1.2 seconds");
    assert_eq!(format_duration(1949), "1.9 seconds");
    assert_eq!(format_duration(1990), "2.0 seconds");
    assert_eq!(format_duration(9949), "9.9 seconds");
    assert_eq!(format_duration(9950), "10.0 seconds");
    assert_eq!(format_duration(9999), "10.0 seconds");
    assert_eq!(format_duration(10000), "10 seconds");
    assert_eq!(format_duration(59999), "59 seconds");
    assert_eq!(format_duration(60000), "1 minutes");
    assert_eq!(format_duration(65000), "1 minutes 5 seconds");
    assert_eq!(format_duration(3599999), "59 minutes 59 seconds");
    assert_eq!(format_duration(3600000), "1 hours 0 minutes");
    assert_eq!(format_duration(3660000), "1 hours 1 minutes");
}

#[test]
fn report_rendering_without_errors() {
    let result = SearchResult {
        matches: vec![
            Match {
                file: "src/a.rs".to_string(),
                line_number: 3,
                column: 4,
                text: "let x = 1;".to_string(),
            },
            Match {
                file: "src/b.rs".to_string(),
                line_number: 10,
                column: 0,
                text: "x".to_string(),
            },
        ],
        stats: SearchStats { matches: 2, files_searched: 5, files_matched: 2, elapsed_ms: 42 },
        errors: Vec::new(),
    };
    let report = format_results_with_stats(&result);
    assert_eq!(
        report,
        "2 RESULTS ACROSS 5 FILES. Search completed in 42 ms.\n\n\
         src/a.rs:3:4: let x = 1;\nsrc/b.rs:10:0: x\n"
    );
}

#[test]
fn report_rendering_singular_and_errors() {
    let result = SearchResult {
        matches: vec![Match {
            file: "a".to_string(),
            line_number: 1,
            column: 0,
            text: "t".to_string(),
        }],
        stats: SearchStats { matches: 1, files_searched: 1, files_matched: 1, elapsed_ms: 1000 },
        errors: vec!["boom".to_string()],
    };
    let report = format_results_with_stats(&result);
    assert_eq!(
        report,
        "1 RESULT ACROSS 1 FILE. Search completed in 1.0 seconds.\n\n\
         a:1:0: t\n\n1 errors encountered:\n  boom\n"
    );
}

#[test]
fn error_message_carries_text() {
    let e = SearchError::InvalidPattern("Invalid pattern: boom".to_string());
    assert_eq!(e.message(), "Invalid pattern: boom");
}
