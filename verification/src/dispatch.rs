//! The command dispatcher: receives a named invocation from the front-end,
//! runs the matching handler, and returns a success or error string.

use vstd::prelude::*;
use crate::commands::{app_version, get_app_version, greet, greeting_of};
use crate::external_open::{is_open_failure_message, open_external_link};

verus! {

/// A named invocation from the front-end, with its string arguments.
pub enum CommandRequest {
    Greet { name: String },
    GetAppVersion,
    OpenExternalLink { url: String },
}

/// What a command hands back to the front-end: a success string or a
/// human-readable error string.
pub enum CommandResponse {
    Success { payload: String },
    Failure { message: String },
}

/// True of the two commands whose response is a pure function of the
/// request: `greet` and `get_app_version`.
pub open spec fn is_pure_request(req: CommandRequest) -> bool {
    req is Greet || req is GetAppVersion
}

/// The response owed to a pure request, determined by that request alone.
pub open spec fn pure_response(req: CommandRequest) -> Seq<char>
    recommends
        is_pure_request(req),
{
    match req {
        CommandRequest::Greet { name } => greeting_of(name@),
        CommandRequest::GetAppVersion => app_version(),
        CommandRequest::OpenExternalLink { .. } => Seq::<char>::empty(),
    }
}

/// Runs the handler named by `req` to completion and returns its response.
/// `greet` and `get_app_version` always succeed with their specified
/// string; `open_external_link` succeeds with an empty payload when the
/// operating system accepts the request, and otherwise fails with a
/// non-empty message carrying the OS-reported reason.
pub fn dispatch(req: &CommandRequest) -> (resp: CommandResponse)
    ensures
        is_pure_request(*req) ==> (resp matches CommandResponse::Success { payload }
            && payload@ == pure_response(*req)),
        req is OpenExternalLink ==> match resp {
            CommandResponse::Success { payload } => payload@ == Seq::<char>::empty(),
            CommandResponse::Failure { message } => is_open_failure_message(message@)
                && message@.len() > 0,
        },
{
    match req {
        CommandRequest::Greet { name } => CommandResponse::Success { payload: greet(name.as_str()) },
        CommandRequest::GetAppVersion => CommandResponse::Success { payload: get_app_version() },
        CommandRequest::OpenExternalLink { url } => match open_external_link(url.as_str()) {
            Ok(()) => CommandResponse::Success { payload: String::new() },
            Err(message) => CommandResponse::Failure { message },
        },
    }
}

/// Concurrent callers of the pure commands cannot interfere: the response
/// owed to each is fixed by its own request alone, so callers issuing
/// equal requests are owed equal responses, whatever else runs beside
/// them, and each response is the one the command owes on its own.
pub proof fn lemma_pure_commands_independent(a: CommandRequest, b: CommandRequest)
    requires
        is_pure_request(a),
        is_pure_request(b),
    ensures
        a == b ==> pure_response(a) == pure_response(b),
        a matches CommandRequest::Greet { name } ==> pure_response(a) == greeting_of(name@),
        a is GetAppVersion ==> pure_response(a) == app_version(),
{
}

} // verus!
