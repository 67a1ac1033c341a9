//! The daemon as the operating system is asked to run it.

use vstd::prelude::*;

verus! {

/// How the daemon process is created: an interpreter, the script it is given
/// as its only argument, and what becomes of the process's output.
#[derive(Debug, Clone, Copy, PartialEq, Eq)]
pub struct DaemonCommand {
    /// The interpreter to run.
    pub program: &'static str,
    /// The script handed to the interpreter.
    pub script: &'static str,
    /// Whether the process's standard output goes to a pipe that the parent
    /// holds.
    pub capture_stdout: bool,
    /// Whether the process's standard error goes to a pipe that the parent
    /// holds.
    pub capture_stderr: bool,
}

/// The one daemon that is supervised. Both of its output streams are
/// captured; nothing reads them afterwards.
pub fn daemon_command() -> (command: DaemonCommand)
    ensures
        command.program@ == "python3"@,
        command.script@ == "system_stt_daemon.py"@,
        command.capture_stdout,
        command.capture_stderr,
{
    DaemonCommand {
        program: "python3",
        script: "system_stt_daemon.py",
        capture_stdout: true,
        capture_stderr: true,
    }
}

} // verus!
