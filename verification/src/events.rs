//! The window-close extension point: a hook the host calls on window
//! events, today a placeholder that only asks for a diagnostic log line.

use vstd::prelude::*;
use vstd::string::StringExecFns;

verus! {

/// A window event as the host reports it: a close request, or anything
/// else, which the hook ignores.
pub enum WindowEvent {
    CloseRequested,
    Other,
}

/// The diagnostic line logged when the window is about to close.
pub open spec fn close_log_line() -> Seq<char> {
    "Window closing..."@
}

/// The shutdown-request hook, a placeholder for future save-on-close
/// logic: on a close request it asks the host to log the diagnostic line,
/// and it does nothing on any other event.
pub fn on_window_event(event: &WindowEvent) -> (r: Option<String>)
    ensures
        event is CloseRequested ==> (r matches Some(line) && line@ == close_log_line()),
        event is Other ==> r is None,
{
    match event {
        WindowEvent::CloseRequested => Some(String::from_str("Window closing...")),
        WindowEvent::Other => None,
    }
}

} // verus!
