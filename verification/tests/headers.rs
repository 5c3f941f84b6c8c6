//! Tests for header-line parsing and trimming in the response assembler.

use tokio_request::{make_header_line, parse_header_line, parse_header_lines, trim_str};

#[test]
fn parses_a_plain_header_line() {
    assert_eq!(
        parse_header_line("Content-Type: text/html"),
        Some(("Content-Type".to_string(), "text/html".to_string()))
    );
}

#[test]
fn strips_surrounding_whitespace_from_both_sides() {
    assert_eq!(
        parse_header_line("  Name :  Value  "),
        Some(("Name".to_string(), "Value".to_string()))
    );
    assert_eq!(
        parse_header_line("\tX-Trim\t: \t v \t"),
        Some(("X-Trim".to_string(), "v".to_string()))
    );
}

#[test]
fn splits_only_at_the_first_delimiter() {
    assert_eq!(
        parse_header_line("A: B: C"),
        Some(("A".to_string(), "B: C".to_string()))
    );
}

#[test]
fn drops_lines_without_a_delimiter_or_with_an_empty_part() {
    assert_eq!(parse_header_line("NoSeparator"), None);
    assert_eq!(parse_header_line("NoSpaceAfter:Colon"), None);
    assert_eq!(parse_header_line("Name: "), None);
    assert_eq!(parse_header_line(": Value"), None);
    assert_eq!(parse_header_line(" : "), None);
    assert_eq!(parse_header_line(""), None);
}

#[test]
fn a_malformed_line_does_not_affect_other_headers() {
    let good = vec![
        "First: 1".to_string(),
        "Second: 2".to_string(),
    ];
    let with_bad = vec![
        "First: 1".to_string(),
        "garbage-without-separator".to_string(),
        "Second: 2".to_string(),
    ];
    assert_eq!(parse_header_lines(&good), parse_header_lines(&with_bad));
    assert_eq!(
        parse_header_lines(&with_bad),
        vec![
            ("First".to_string(), "1".to_string()),
            ("Second".to_string(), "2".to_string()),
        ]
    );
}

#[test]
fn trim_removes_unicode_whitespace() {
    assert_eq!(trim_str("  hello  "), "hello");
    assert_eq!(trim_str("\u{a0}hi\u{3000}"), "hi");
    assert_eq!(trim_str("\r\nline\t"), "line");
    assert_eq!(trim_str("   "), "");
    assert_eq!(trim_str(""), "");
    assert_eq!(trim_str("inner space kept"), "inner space kept");
}

#[test]
fn wire_header_lines_are_trimmed_name_colon_space_value() {
    assert_eq!(make_header_line(" Accept ", " text/plain "), "Accept: text/plain");
    assert_eq!(make_header_line("X-Empty", ""), "X-Empty: ");
}

#[test]
fn a_materialized_header_line_parses_back_to_the_same_pair() {
    let line = make_header_line("  X-Round ", " trip  ");
    assert_eq!(
        parse_header_line(&line),
        Some(("X-Round".to_string(), "trip".to_string()))
    );
}
