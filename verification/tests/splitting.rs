//! Command-line splitting.

use host_agent::command::parse_command;
use host_agent::command::split_command_line;

#[test]
fn splits_on_single_spaces() {
    assert_eq!(split_command_line("echo hi"), vec!["echo", "hi"]);
}

#[test]
fn runs_of_whitespace_count_once() {
    assert_eq!(
        split_command_line("  spaced \t  out\nwide  "),
        vec!["spaced", "out", "wide"]
    );
}

#[test]
fn empty_and_blank_lines_have_no_tokens() {
    assert_eq!(split_command_line(""), Vec::<String>::new());
    assert_eq!(split_command_line(" \t \r\n "), Vec::<String>::new());
}

#[test]
fn unicode_whitespace_separates_tokens() {
    assert_eq!(
        split_command_line("a\u{3000}b\u{a0}c\u{2003}d"),
        vec!["a", "b", "c", "d"]
    );
}

#[test]
fn non_ascii_tokens_survive() {
    assert_eq!(
        split_command_line("echo \u{3042}\u{3044}"),
        vec!["echo", "\u{3042}\u{3044}"]
    );
}

#[test]
fn program_and_args_come_apart() {
    let parts = parse_command("echo test one").unwrap();
    assert_eq!(parts.program, "echo");
    assert_eq!(parts.args, vec!["test", "one"]);
}

#[test]
fn lone_program_has_no_args() {
    let parts = parse_command("hostname").unwrap();
    assert_eq!(parts.program, "hostname");
    assert_eq!(parts.args, Vec::<String>::new());
}

#[test]
fn blank_command_line_has_no_program() {
    assert!(parse_command("").is_none());
    assert!(parse_command("   ").is_none());
}
