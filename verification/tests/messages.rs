use errata::{explain, render, AnerrorPanic, ErrataPanic, FallibleExt, Style};

#[test]
fn plain_text_is_left_as_it_is() {
    assert_eq!(render(Style::Plain, "disk is full"), "disk is full");
}

#[test]
fn plain_empty_text_stays_empty() {
    assert_eq!(render(Style::Plain, ""), "");
}

#[test]
fn colored_text_is_wrapped_in_escape_codes() {
    assert_eq!(
        render(Style::Color, "disk is full"),
        "\x1b[38;5;1m\x1b[1mdisk is full\x1b[0m"
    );
}

#[test]
fn colored_empty_text_keeps_both_codes() {
    assert_eq!(render(Style::Color, ""), "\x1b[38;5;1m\x1b[1m\x1b[0m");
}

#[test]
fn explain_joins_with_colon_and_space() {
    assert_eq!(explain("cannot open file", "permission denied"), "cannot open file: permission denied");
}

#[test]
fn explain_keeps_empty_parts() {
    assert_eq!(explain("", ""), ": ");
    assert_eq!(explain("ctx", ""), "ctx: ");
    assert_eq!(explain("", "cause"), ": cause");
}

#[test]
fn explain_keeps_non_ascii_text() {
    assert_eq!(explain("até", "não"), "até: não");
}

#[test]
fn marker_message_is_its_text() {
    let marker = ErrataPanic("stop here".to_string());
    assert_eq!(marker.message(), "stop here");
    assert_eq!(marker.0, "stop here");
}

#[test]
fn new_marker_is_dressed() {
    assert_eq!(ErrataPanic::new(Style::Plain, "stop").message(), "stop");
    assert_eq!(
        ErrataPanic::new(Style::Color, "stop").message(),
        "\x1b[38;5;1m\x1b[1mstop\x1b[0m"
    );
}

#[test]
fn cause_marker_keeps_the_text_of_its_error() {
    let marker = AnerrorPanic::new("connection refused".to_string());
    assert_eq!(marker.message(), "connection refused");
    assert_eq!(marker.into_panic().message(), "connection refused");
}

#[test]
fn option_with_a_value_hands_it_out() {
    assert_eq!(Some(7).fail("no number"), 7);
    let kept = Some(7).or_marker("no number", Style::Plain);
    assert!(matches!(kept, Ok(7)));
}

#[test]
fn missing_value_gives_the_context_alone() {
    let missing: Option<i32> = None;
    let marker = missing.or_marker("Expected bad to contain a value", Style::Plain).unwrap_err();
    assert_eq!(marker.message(), "Expected bad to contain a value");
}

#[test]
fn missing_value_in_color() {
    let missing: Option<i32> = None;
    let marker = missing.or_marker("no value", Style::Color).unwrap_err();
    assert_eq!(marker.message(), "\x1b[38;5;1m\x1b[1mno value\x1b[0m");
}

#[test]
fn result_with_a_value_hands_it_out() {
    let fine: Result<i32, String> = Ok(3);
    assert_eq!(fine.fail("never shown"), 3);
    let fine: Result<i32, String> = Ok(3);
    assert!(matches!(fine.or_marker("never shown", Style::Color), Ok(3)));
}

#[test]
fn error_value_is_explained() {
    let bad: Result<i32, String> = Err("2".to_string());
    let marker = bad.or_marker("foo failed", Style::Plain).unwrap_err();
    assert_eq!(marker.message(), "foo failed: 2");
}

#[test]
fn error_value_in_color_is_wrapped_whole() {
    let bad: Result<i32, String> = Err("2".to_string());
    let marker = bad.or_marker("foo failed", Style::Color).unwrap_err();
    assert_eq!(marker.message(), "\x1b[38;5;1m\x1b[1mfoo failed: 2\x1b[0m");
}
