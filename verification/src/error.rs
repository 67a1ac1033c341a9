//! The reasons for which a request is turned down, and their wording.

use vstd::prelude::*;

verus! {

/// Why a start or stop request failed.
#[derive(Debug, PartialEq, Eq)]
pub enum SupervisorError {
    /// A start request found a daemon already on record.
    AlreadyRunning,
    /// A stop request found no daemon on record.
    NotRunning,
    /// The operating system did not create the daemon process; the text is
    /// its own account of why.
    SpawnFailure(String),
    /// The operating system did not terminate the daemon process; the text is
    /// its own account of why.
    TerminationFailure(String),
}

impl SupervisorError {
    /// The wording of this error, as its callers display it.
    pub open spec fn text(self) -> Seq<char> {
        match self {
            SupervisorError::AlreadyRunning => "STT daemon is already running"@,
            SupervisorError::NotRunning => "STT daemon is not running"@,
            SupervisorError::SpawnFailure(detail) => "Failed to start STT daemon: "@ + detail@,
            SupervisorError::TerminationFailure(detail) => "Failed to stop STT daemon: "@
                + detail@,
        }
    }

    /// Renders this error for display.
    pub fn message(&self) -> (s: String)
        ensures
            s@ == self.text(),
    {
        match self {
            SupervisorError::AlreadyRunning => String::from_str("STT daemon is already running"),
            SupervisorError::NotRunning => String::from_str("STT daemon is not running"),
            SupervisorError::SpawnFailure(detail) => {
                String::from_str("Failed to start STT daemon: ").concat(detail.as_str())
            },
            SupervisorError::TerminationFailure(detail) => {
                String::from_str("Failed to stop STT daemon: ").concat(detail.as_str())
            },
        }
    }
}

} // verus!
