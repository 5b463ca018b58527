use app_shell::external_open::{open_external_link, open_outcome_response};

#[test]
fn open_success_has_no_payload() {
    assert_eq!(open_outcome_response(Ok(())), Ok(()));
}

#[test]
fn open_failure_embeds_the_os_reason() {
    let r = open_outcome_response(Err(String::from("no handler found")));
    assert_eq!(r, Err(String::from("Failed to open link: no handler found")));
}

#[test]
fn unopenable_input_yields_diagnostic_error() {
    // No operating system accepts a NUL byte in a path or URL, so the
    // open request fails on every machine.
    let r = open_external_link("\u{0}");
    let message = r.expect_err("a NUL byte cannot be opened");
    assert!(!message.is_empty());
    assert!(message.starts_with("Failed to open link: "));
    assert!(message.len() > "Failed to open link: ".len());
}
