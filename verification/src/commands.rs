use vstd::prelude::*;

use crate::error::{CommandErrorKind, LpnlError};
use crate::text::{i32_text, int_text};

verus! {

broadcast use vstd::string::group_string_axioms;

/// A config wrapped so that `nginx -t -c` can test it on its own.
pub open spec fn test_config_text(contents: Seq<char>) -> Seq<char> {
    "events {  } http { "@ + contents + " }"@
}

/// A config wrapped so that `nginx -t -c` can test it on its own.
pub fn test_config(contents: &str) -> (r: String)
    ensures
        r@ == test_config_text(contents@),
{
    let mut r = String::from_str("events {  } http { ");
    r.append(contents);
    r.append(" }");
    r
}

/// The exit status of a command as the report shows it.
pub open spec fn status_code_text(code: Option<i32>) -> Seq<char> {
    match code {
        Some(c) => int_text(c as int),
        None => "unknown"@,
    }
}

/// The error for a command that ran and failed.
pub open spec fn cmd_failed(e: LpnlError, what: Seq<char>, code: Option<i32>) -> bool {
    &&& e matches LpnlError::CommandError { kind: CommandErrorKind::InvalidCmdResult, .. }
    &&& e.msg() == what + " failed with status code: "@ + status_code_text(code)
}

/// The outcome of a command that ran: success, or an error that names the
/// step (`what`) and the exit status (`code`, `None` when a signal ended it).
pub fn cmd_outcome(success: bool, code: Option<i32>, what: &str) -> (r: Result<(), LpnlError>)
    ensures
        r is Ok <==> success,
        r matches Err(e) ==> cmd_failed(e, what@, code),
{
    if success {
        return Ok(());
    }
    let status_code = match code {
        Some(c) => i32_text(c),
        None => String::from_str("unknown"),
    };
    let mut message = String::from_str(what);
    message.append(" failed with status code: ");
    message.append(status_code.as_str());
    Err(LpnlError::CommandError { message, kind: CommandErrorKind::InvalidCmdResult })
}

} // verus!
