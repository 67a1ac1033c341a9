//! The replies that go back to whoever asked for a start or a stop: one line
//! of text for success, one for each failure.

use crate::error::SupervisorError;
use vstd::prelude::*;

verus! {

/// The characters of a reply, on either side.
pub open spec fn reply_text(reply: Result<String, String>) -> Result<Seq<char>, Seq<char>> {
    match reply {
        Ok(line) => Ok(line@),
        Err(line) => Err(line@),
    }
}

/// The reply that a start request with the given result is owed.
pub open spec fn start_reply_text(result: Result<(), SupervisorError>) -> Result<
    Seq<char>,
    Seq<char>,
> {
    match result {
        Ok(()) => Ok("STT daemon started successfully"@),
        Err(error) => Err(error.text()),
    }
}

/// The reply that a stop request with the given result is owed.
pub open spec fn stop_reply_text(result: Result<(), SupervisorError>) -> Result<
    Seq<char>,
    Seq<char>,
> {
    match result {
        Ok(()) => Ok("STT daemon stopped successfully"@),
        Err(error) => Err(error.text()),
    }
}

/// Words the result of a start request.
pub fn start_reply(result: Result<(), SupervisorError>) -> (reply: Result<String, String>)
    ensures
        reply_text(reply) == start_reply_text(result),
{
    match result {
        Ok(()) => Ok(String::from_str("STT daemon started successfully")),
        Err(error) => Err(error.message()),
    }
}

/// Words the result of a stop request.
pub fn stop_reply(result: Result<(), SupervisorError>) -> (reply: Result<String, String>)
    ensures
        reply_text(reply) == stop_reply_text(result),
{
    match result {
        Ok(()) => Ok(String::from_str("STT daemon stopped successfully")),
        Err(error) => Err(error.message()),
    }
}

} // verus!
