//! A supervisor for one external speech-to-text daemon process.
//!
//! The supervisor records at most one process handle and decides every start,
//! stop, status and quit request against that record. It never creates or
//! terminates a process itself: a caller performs those operating-system
//! calls while it holds the supervisor exclusively, and hands each outcome
//! back.
//!
//! - [`supervisor`]: the record and the decisions taken on it.
//! - [`error`]: why a request is turned down.
//! - [`reply`]: the wording of what a caller is told.
//! - [`daemon`]: the process that is supervised.
//! - [`tray`]: the tray menu's entries, and what the tray shows after a
//!   request made from it.
//! - [`history`]: what holds after every sequence of requests.

pub mod daemon;
pub mod error;
pub mod history;
pub mod reply;
pub mod supervisor;
pub mod tray;
