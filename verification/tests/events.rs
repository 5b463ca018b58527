use app_shell::events::{on_window_event, WindowEvent};

#[test]
fn close_request_asks_for_the_log_line() {
    let line = on_window_event(&WindowEvent::CloseRequested);
    assert_eq!(line, Some(String::from("Window closing...")));
}

#[test]
fn other_events_are_ignored() {
    assert_eq!(on_window_event(&WindowEvent::Other), None);
}
