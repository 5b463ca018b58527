//! The `open_external_link` command: delegates a URL or path to the
//! operating system's default handler and reports failures as strings.

use vstd::prelude::*;
use vstd::string::StringExecFns;

verus! {

/// The fixed text that precedes the operating system's report in every
/// `open_external_link` error message.
pub open spec fn open_error_prefix() -> Seq<char> {
    "Failed to open link: "@
}

/// The error message built from the reason the operating system gave.
pub open spec fn open_failure_message(reason: Seq<char>) -> Seq<char> {
    open_error_prefix() + reason
}

/// True of a string that is the fixed prefix followed by some OS-reported
/// reason; every error `open_external_link` returns has this shape.
pub open spec fn is_open_failure_message(m: Seq<char>) -> bool {
    exists|reason: Seq<char>| m == open_failure_message(reason)
}

/// Relies on open::that: hands `url` to the operating system's default
/// handler, trying the platform's launchers in turn. Whether any launcher
/// accepts the request depends on the machine and its configuration, so
/// nothing is promised of the outcome; on failure the returned string is
/// the text of the last launcher's error.
#[verifier::external_body]
fn os_open(url: &str) -> Result<(), String> {
    match open::that(url) {
        Ok(()) => Ok(()),
        Err(e) => Err(format!("{}", e)),
    }
}

/// Turns the operating system's outcome of an open request into the
/// command's response: success passes through with no payload, and a
/// failure becomes the fixed prefix followed by the OS-reported reason.
pub fn open_outcome_response(outcome: Result<(), String>) -> (r: Result<(), String>)
    ensures
        outcome is Ok ==> r is Ok,
        outcome matches Err(reason) ==> r matches Err(m) && m@ == open_failure_message(reason@),
{
    match outcome {
        Ok(()) => Ok(()),
        Err(reason) => {
            let mut m = String::from_str("Failed to open link: ");
            m.append(reason.as_str());
            Err(m)
        },
    }
}

/// Asks the operating system to open `url` with its default handler. No
/// validation is performed first: whatever the OS makes of the string
/// decides the outcome. On failure the error message is non-empty and
/// embeds the OS-reported reason after the fixed prefix.
pub fn open_external_link(url: &str) -> (r: Result<(), String>)
    ensures
        r matches Err(m) ==> is_open_failure_message(m@),
        r matches Err(m) ==> m@.len() > 0,
{
    let outcome = os_open(url);
    let ghost pre = outcome;
    let r = open_outcome_response(outcome);
    proof {
        reveal_strlit("Failed to open link: ");
        if r is Err {
            assert(r->Err_0@ == open_failure_message(pre->Err_0@));
        }
    }
    r
}

} // verus!
