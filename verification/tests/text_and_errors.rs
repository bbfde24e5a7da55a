use lpnl::commands::{cmd_outcome, test_config};
use lpnl::error::{CommandErrorKind, LpnlError, ValidationErrorKind};
use lpnl::text::{
    any_line_contains, chars_of, find_line_trim_prefixed, i32_text, replace_all, split_bounds,
    trimmed, u64_text,
};

fn v(s: &str) -> Vec<char> {
    s.chars().collect()
}

#[test]
fn trimmed_drops_unicode_whitespace() {
    assert_eq!(trimmed(" \t example.com \r\n"), "example.com");
    assert_eq!(trimmed("\u{3000}a b\u{a0}"), "a b");
    assert_eq!(trimmed("   "), "");
}

#[test]
fn replace_all_is_left_to_right_without_overlap() {
    assert_eq!(replace_all("aaaa", "aa", "b"), "bb");
    assert_eq!(replace_all("aaa", "aa", "b"), "ba");
    assert_eq!(replace_all("xyz", "q", "b"), "xyz");
    assert_eq!(replace_all("a.b.c", ".", "--"), "a--b--c");
}

#[test]
fn lines_strip_carriage_return_before_line_feed() {
    let text = v("one\r\n  location / {\r\nthree\r");
    assert!(any_line_contains(&text, &v("location / {")));
    assert!(!any_line_contains(&text, &v("{\r")));
    assert!(any_line_contains(&text, &v("three\r")));
    assert_eq!(find_line_trim_prefixed(&text, &v("location / {")), Some((5, 19)));
    assert_eq!(find_line_trim_prefixed(&text, &v("nothing")), None);
}

#[test]
fn a_pattern_across_lines_is_in_no_line() {
    let text = v("ab\ncd");
    assert!(!any_line_contains(&text, &v("b\nc")));
    assert!(any_line_contains(&text, &v("cd")));
}

#[test]
fn decimal_text() {
    assert_eq!(u64_text(0), "0");
    assert_eq!(u64_text(8080), "8080");
    assert_eq!(u64_text(u64::MAX), u64::MAX.to_string());
    assert_eq!(i32_text(-1), "-1");
    assert_eq!(i32_text(i32::MIN), i32::MIN.to_string());
    assert_eq!(i32_text(255), "255");
}

#[test]
fn split_keeps_empty_pieces() {
    let s = v("1..2.");
    let b = split_bounds(&s, '.');
    assert_eq!(b, vec![(0, 1), (2, 2), (3, 4), (5, 5)]);
    let e = v("");
    assert_eq!(split_bounds(&e, '.'), vec![(0, 0)]);
}

#[test]
fn chars_of_keeps_every_character() {
    assert_eq!(chars_of("héllo"), vec!['h', 'é', 'l', 'l', 'o']);
}

#[test]
fn errors_report_kind_message_and_code() {
    let e = LpnlError::ValidationError {
        message: "bad".to_string(),
        kind: ValidationErrorKind::InvalidPort,
    };
    assert_eq!(e.report_line(), "[InvalidPort] bad");
    assert_eq!(e.exit_code(), 3);
    assert_eq!(e.kind_name(), "InvalidPort");
    assert_eq!(e.message(), "bad");
    let c = LpnlError::RemoveLocError {
        message: "m".to_string(),
        kind: lpnl::error::RemoveLocErrorKind::AlreadyExists,
    };
    assert_eq!(c.exit_code(), 11);
    assert_eq!(c.report_line(), "[AlreadyExists] m");
}

#[test]
fn test_config_wraps_in_http_block() {
    assert_eq!(test_config("server {}"), "events {  } http { server {} }");
}

#[test]
fn command_outcomes() {
    assert!(cmd_outcome(true, Some(0), "Config file testing").is_ok());
    match cmd_outcome(false, Some(1), "Config file testing") {
        Err(LpnlError::CommandError { message, kind }) => {
            assert_eq!(message, "Config file testing failed with status code: 1");
            assert!(matches!(kind, CommandErrorKind::InvalidCmdResult));
        }
        _ => panic!("expected a command error"),
    }
    match cmd_outcome(false, None, "Nginx downloading") {
        Err(e) => assert_eq!(e.message(), "Nginx downloading failed with status code: unknown"),
        _ => panic!("expected a command error"),
    }
}
