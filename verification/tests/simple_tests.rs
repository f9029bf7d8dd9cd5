//! Tests for the sequential search variant, its display formatting, and
//! the character-level string utilities.

use pargrep::goto::{parse_goto_line, parse_line_number};
use pargrep::numfmt::u64_to_string;
use pargrep::simple::{format_results, is_likely_binary, search_directory, trim_end_ws, Match};
use pargrep::strutil::{ascii_lowercase, extension_str, trim_line_end};

fn tmpdir() -> tempfile::TempDir {
    tempfile::tempdir().expect("temp dir")
}

fn write_file(dir: &std::path::Path, name: &str, contents: &[u8]) {
    fs_err::write(dir.join(name), contents).expect("write file");
}

#[test]
fn test_format_results() {
    let matches = vec![
        Match {
            file: "src/main.rs".to_string(),
            line: 10,
            col: 4,
            text: "fn main() {".to_string(),
        },
        Match {
            file: "src/lib.rs".to_string(),
            line: 5,
            col: 0,
            text: "pub fn test() {".to_string(),
        },
    ];

    let result = format_results(&matches);
    assert!(result.contains("2 matches"));
    assert!(result.contains("src/main.rs:10:4:"));
}

#[test]
fn format_results_exact_rendering() {
    let matches = vec![Match {
        file: "a.txt".to_string(),
        line: 1,
        col: 2,
        text: "hit".to_string(),
    }];
    assert_eq!(format_results(&matches), "=== 1 matches ===\na.txt:1:2: hit\n");
    assert_eq!(format_results(&Vec::new()), "=== 0 matches ===\n");
}

#[test]
fn search_directory_finds_matches() {
    let dir = tmpdir();
    write_file(dir.path(), "a.txt", b"hello\nab foo\n");
    let r = search_directory("foo", dir.path().to_str().unwrap()).unwrap();
    assert_eq!(r.len(), 1);
    assert!(r[0].file.ends_with("a.txt"));
    assert_eq!(r[0].line, 2);
    assert_eq!(r[0].col, 3);
    assert_eq!(r[0].text, "ab foo");
}

#[test]
fn search_directory_rejects_invalid_pattern() {
    let dir = tmpdir();
    let r = search_directory("[invalid", dir.path().to_str().unwrap());
    match r {
        Err(msg) => assert!(msg.starts_with("Invalid pattern: ")),
        Ok(_) => panic!("expected an error"),
    }
}

#[test]
fn search_directory_skips_binary_extensions() {
    let dir = tmpdir();
    write_file(dir.path(), "img.png", b"needle\n");
    write_file(dir.path(), "text.txt", b"needle\n");
    let r = search_directory("needle", dir.path().to_str().unwrap()).unwrap();
    assert_eq!(r.len(), 1);
    assert!(r[0].file.ends_with("text.txt"));
}

#[test]
fn search_directory_honors_gitignore() {
    let dir = tmpdir();
    fs_err::create_dir(dir.path().join(".git")).expect("git dir");
    write_file(dir.path(), ".gitignore", b"ignored.txt\n");
    write_file(dir.path(), "ignored.txt", b"needle\n");
    write_file(dir.path(), "kept.txt", b"needle\n");
    let r = search_directory("needle", dir.path().to_str().unwrap()).unwrap();
    assert!(r.iter().all(|m| !m.file.ends_with("ignored.txt")));
    assert!(r.iter().any(|m| m.file.ends_with("kept.txt")));
}

#[test]
fn search_directory_trims_trailing_whitespace() {
    let dir = tmpdir();
    write_file(dir.path(), "a.txt", b"foo  \n");
    let r = search_directory("foo", dir.path().to_str().unwrap()).unwrap();
    assert_eq!(r.len(), 1);
    assert_eq!(r[0].text, "foo");
}

#[test]
fn likely_binary_by_extension() {
    assert!(is_likely_binary("photo.PNG"));
    assert!(is_likely_binary("dir/archive.tar"));
    assert!(is_likely_binary("a.b/c.woff2"));
    assert!(!is_likely_binary("notes.txt"));
    assert!(!is_likely_binary("noextension"));
    assert!(!is_likely_binary(".gitignore"));
    assert!(!is_likely_binary("dir.png/file"));
    assert!(!is_likely_binary("trailingdot."));
}

#[test]
fn extension_extraction() {
    assert_eq!(extension_str("a/b/c.txt"), Some("txt".to_string()));
    assert_eq!(extension_str("c.tar.gz"), Some("gz".to_string()));
    assert_eq!(extension_str("noext"), None);
    assert_eq!(extension_str(".hidden"), None);
    assert_eq!(extension_str("dir.d/file"), None);
    assert_eq!(extension_str("x."), Some("".to_string()));
}

#[test]
fn ascii_case_folding() {
    assert_eq!(ascii_lowercase("PnG"), "png");
    assert_eq!(ascii_lowercase("already"), "already");
    assert_eq!(ascii_lowercase("A1-Z9"), "a1-z9");
}

#[test]
fn line_ending_trimming() {
    assert_eq!(trim_line_end("foo\r\n"), "foo");
    assert_eq!(trim_line_end("foo\n\n"), "foo");
    assert_eq!(trim_line_end("foo  \n"), "foo  ");
    assert_eq!(trim_line_end(""), "");
    assert_eq!(trim_end_ws("foo \t\r\n"), "foo");
    assert_eq!(trim_end_ws("  "), "");
}

#[test]
fn goto_line_parsing() {
    assert_eq!(
        parse_goto_line("src/main.rs:10:4: fn main() {"),
        Some(("src/main.rs".to_string(), 10))
    );
    assert_eq!(parse_goto_line("f:12"), Some(("f".to_string(), 12)));
    assert_eq!(parse_goto_line(":3:"), Some(("".to_string(), 3)));
    assert_eq!(parse_goto_line("=== 2 matches ==="), None);
    assert_eq!(parse_goto_line(""), None);
    assert_eq!(parse_goto_line("no separator"), None);
    assert_eq!(parse_goto_line("f:abc: x"), None);
    assert_eq!(parse_goto_line("f::"), None);
    assert_eq!(parse_goto_line("f:2147483647:"), Some(("f".to_string(), 2147483647)));
    assert_eq!(parse_goto_line("f:2147483648:"), None);
}

#[test]
fn line_number_parsing() {
    assert_eq!(parse_line_number("0"), Some(0));
    assert_eq!(parse_line_number("42"), Some(42));
    assert_eq!(parse_line_number(""), None);
    assert_eq!(parse_line_number("4x2"), None);
    assert_eq!(parse_line_number("99999999999"), None);
}

#[test]
fn decimal_rendering() {
    assert_eq!(u64_to_string(0), "0");
    assert_eq!(u64_to_string(7), "7");
    assert_eq!(u64_to_string(42), "42");
    assert_eq!(u64_to_string(1000000), "1000000");
    assert_eq!(u64_to_string(u64::MAX), "18446744073709551615");
}
