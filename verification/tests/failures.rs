use anerror::text::{emphasize, end_line, join_cause};
use anerror::{error, error_color, AnerrorPanic, FallibleExt};

#[test]
fn error_carries_the_message_verbatim() {
    let signal = error("Expected bad to contain a value");
    assert_eq!(signal.text(), "Expected bad to contain a value");
    assert_eq!(signal.into_text(), "Expected bad to contain a value");
}

#[test]
fn error_keeps_an_empty_message() {
    assert_eq!(error("").text(), "");
}

#[test]
fn error_color_wraps_in_bold_red() {
    let signal = error_color("boom");
    assert_eq!(signal.text(), "\x1b[38;5;1m\x1b[1mboom\x1b[0m");
}

#[test]
fn error_color_wraps_an_empty_message() {
    assert_eq!(error_color("").text(), "\x1b[38;5;1m\x1b[1m\x1b[0m");
}

#[test]
fn new_keeps_the_text() {
    let signal = AnerrorPanic::new(String::from("already rendered"));
    assert_eq!(signal.text(), "already rendered");
}

#[test]
fn emphasize_is_prefix_text_suffix() {
    assert_eq!(emphasize("a b"), "\x1b[38;5;1m\x1b[1ma b\x1b[0m");
    assert_eq!(emphasize("a b").chars().count(), 13 + 3 + 4);
}

#[test]
fn emphasize_keeps_text_beyond_ascii() {
    assert_eq!(emphasize("дa✓"), "\x1b[38;5;1m\x1b[1mдa✓\x1b[0m");
}

#[test]
fn join_cause_puts_context_first() {
    assert_eq!(join_cause("context", "cause"), "context: cause");
    assert_ne!(join_cause("context", "cause"), "cause: context");
}

#[test]
fn join_cause_keeps_empty_parts() {
    assert_eq!(join_cause("", "cause"), ": cause");
    assert_eq!(join_cause("context", ""), "context: ");
    assert_eq!(join_cause("", ""), ": ");
}

#[test]
fn end_line_appends_one_line_feed() {
    assert_eq!(end_line("text"), "text\n");
    assert_eq!(end_line(""), "\n");
    assert_eq!(end_line("two\n"), "two\n\n");
}

#[test]
fn option_present_is_handed_on() {
    let good: Option<i32> = Some(7);
    assert_eq!(good.fail("unused").unwrap(), 7);
    let good: Option<i32> = Some(7);
    assert_eq!(good.fail_color("unused").unwrap(), 7);
}

#[test]
fn option_absent_fails_as_error_does() {
    let bad: Option<i32> = None;
    let signal = bad.fail("Expected bad to contain a value").unwrap_err();
    assert_eq!(signal.text(), error("Expected bad to contain a value").text());
    assert_eq!(signal.text(), "Expected bad to contain a value");
}

#[test]
fn option_absent_fails_in_color() {
    let bad: Option<i32> = None;
    let signal = bad.fail_color("Expected bad to contain a value").unwrap_err();
    assert_eq!(signal.text(), error_color("Expected bad to contain a value").text());
    assert_eq!(
        signal.text(),
        "\x1b[38;5;1m\x1b[1mExpected bad to contain a value\x1b[0m"
    );
}

#[test]
fn result_success_is_handed_on() {
    let good: Result<&str, String> = Ok("value");
    assert_eq!(good.fail("unused").unwrap(), "value");
    let good: Result<&str, String> = Ok("value");
    assert_eq!(good.fail_color("unused").unwrap(), "value");
}

#[test]
fn result_failure_quotes_the_cause() {
    let bad: Result<i32, String> = Err(String::from("disk full"));
    let signal = bad.fail("Could not write config").unwrap_err();
    assert_eq!(signal.text(), "Could not write config: disk full");
}

#[test]
fn result_failure_keeps_an_empty_context() {
    let bad: Result<i32, String> = Err(String::from("disk full"));
    assert_eq!(bad.fail("").unwrap_err().text(), ": disk full");
}

#[test]
fn result_failure_in_color_wraps_context_and_cause() {
    let bad: Result<i32, String> = Err(String::from("disk full"));
    let signal = bad.fail_color("Could not write config").unwrap_err();
    assert_eq!(
        signal.text(),
        "\x1b[38;5;1m\x1b[1mCould not write config: disk full\x1b[0m"
    );
}

#[test]
fn result_failure_in_color_keeps_an_empty_context() {
    let bad: Result<i32, String> = Err(String::new());
    assert_eq!(bad.fail_color("").unwrap_err().text(), "\x1b[38;5;1m\x1b[1m: \x1b[0m");
}
