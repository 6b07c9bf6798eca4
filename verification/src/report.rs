//! The one line that the gateway prints for a request.

use vstd::prelude::*;
use vstd::string::*;

verus! {

/// The line for a request that ended with a response of the assistant:
/// status 200, the session's identifier as given, and the response as the
/// JSON text `result`.
pub open spec fn success_line(session_id: Seq<char>, result: Seq<char>) -> Seq<char> {
    "{\"status\": 200, \"sessionId\": \""@ + session_id + "\", \"result\": "@ + result + "}"@
}

/// The line for a request that ended without a response of the assistant.
pub open spec fn failure_line() -> Seq<char> {
    "{\"status\": 400}"@
}

/// The line for an invocation that gave no request.
pub open spec fn idle_line() -> Seq<char> {
    "{}"@
}

/// The line for a request that ended with a response of the assistant,
/// given that response as JSON text.
pub fn success(session_id: &str, result: &str) -> (line: String)
    ensures
        line@ == success_line(session_id@, result@),
{
    let mut line = String::from_str("{\"status\": 200, \"sessionId\": \"");
    line.append(session_id);
    line.append("\", \"result\": ");
    line.append(result);
    line.append("}");
    line
}

/// The line for a request that ended without a response of the assistant.
pub fn failure() -> (line: String)
    ensures
        line@ == failure_line(),
{
    String::from_str("{\"status\": 400}")
}

/// The line for an invocation that gave no request.
pub fn idle() -> (line: String)
    ensures
        line@ == idle_line(),
{
    String::from_str("{}")
}

} // verus!
