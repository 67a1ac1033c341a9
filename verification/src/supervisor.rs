//! The supervisor: one slot for a process handle, and the decisions taken on it.
//!
//! A request that needs the operating system is decided in two halves. The
//! first half looks at the record and tells the caller whether to go to the
//! operating system at all; the second half takes the operating system's
//! answer and settles the record and the result. The caller keeps the
//! supervisor to itself from the first half to the second (in a program, by
//! holding the lock around both), so nothing can come between them.
//!
//! A request that fails leaves the record as it found it: a start that could
//! not spawn leaves it empty, a stop that could not terminate leaves the
//! handle on it.

use crate::error::SupervisorError;
use vstd::prelude::*;

verus! {

/// The record of the daemon: a handle while a daemon is considered running,
/// nothing otherwise. With nothing on record the supervisor is stopped, with
/// a handle on record it is running, and it starts out stopped.
///
/// `H` is whatever reaches the process later, the operating system's child
/// handle in a program. The supervisor never looks inside it, so a handle
/// whose process has died on its own stays on record until a stop that
/// succeeds, or a quit, removes it.
#[derive(Debug)]
pub struct Supervisor<H> {
    slot: Option<H>,
}

impl<H> View for Supervisor<H> {
    type V = Option<H>;

    closed spec fn view(&self) -> Option<H> {
        self.slot
    }
}

/// The first half of a start request: whether the operating system is to be
/// asked for a new process. It is asked only while nothing is on record.
pub open spec fn start_decision<H>(record: Option<H>) -> Result<(), SupervisorError> {
    match record {
        Some(_) => Err(SupervisorError::AlreadyRunning),
        None => Ok(()),
    }
}

/// A whole start request: what becomes of the record and what the caller is
/// told, where `spawned` is what the operating system answers if it is asked
/// for a new process.
pub open spec fn start_call<H>(record: Option<H>, spawned: Result<H, String>) -> (
    Option<H>,
    Result<(), SupervisorError>,
) {
    match start_decision(record) {
        Err(error) => (record, Err(error)),
        Ok(()) => match spawned {
            Ok(handle) => (Some(handle), Ok(())),
            Err(detail) => (None, Err(SupervisorError::SpawnFailure(detail))),
        },
    }
}

/// The first half of a stop request: the handle whose process the operating
/// system is to be asked to terminate, if one is on record.
pub open spec fn stop_decision<H>(record: Option<H>) -> Result<H, SupervisorError> {
    match record {
        Some(handle) => Ok(handle),
        None => Err(SupervisorError::NotRunning),
    }
}

/// What the caller of a stop request is told once the operating system has
/// answered the termination request.
pub open spec fn kill_result(killed: Result<(), String>) -> Result<(), SupervisorError> {
    match killed {
        Ok(()) => Ok(()),
        Err(detail) => Err(SupervisorError::TerminationFailure(detail)),
    }
}

/// A whole stop request: what becomes of the record and what the caller is
/// told, where `killed` is what the operating system answers if it is asked
/// to terminate the recorded process. The record is emptied only when the
/// termination request is accepted; when it is refused, the same handle is
/// still on record, and a later stop can try it again.
pub open spec fn stop_call<H>(record: Option<H>, killed: Result<(), String>) -> (
    Option<H>,
    Result<(), SupervisorError>,
) {
    match stop_decision(record) {
        Ok(handle) => (
            match killed {
                Ok(()) => None,
                Err(_) => Some(handle),
            },
            kill_result(killed),
        ),
        Err(error) => (None, Err(error)),
    }
}

impl<H> Supervisor<H> {
    /// True when a handle is on record.
    pub open spec fn is_running(&self) -> bool {
        self@ is Some
    }

    /// A supervisor with nothing on record.
    pub fn new() -> (supervisor: Self)
        ensures
            supervisor@ is None,
    {
        Supervisor { slot: None }
    }

    /// Whether a daemon is considered running: exactly whether a handle is on
    /// record. The process behind the handle is not consulted.
    pub fn status(&self) -> (running: bool)
        ensures
            running == self.is_running(),
    {
        self.slot.is_some()
    }

    /// First half of a start request. `Ok` tells the caller to spawn the
    /// daemon and report the outcome to `finish_start`; with a handle on
    /// record the request ends here and nothing is to be spawned.
    pub fn begin_start(&self) -> (decision: Result<(), SupervisorError>)
        ensures
            decision == start_decision(self@),
    {
        if self.slot.is_some() {
            Err(SupervisorError::AlreadyRunning)
        } else {
            Ok(())
        }
    }

    /// Second half of a start request, for a caller whom `begin_start` told
    /// to spawn. A new handle goes on record; a failure to spawn leaves the
    /// record empty and is passed on with the operating system's account.
    ///
    /// A handle already on record is never replaced: should one be there,
    /// the request is turned down as `begin_start` would have done, and
    /// `spawned` is dropped unrecorded.
    pub fn finish_start(&mut self, spawned: Result<H, String>) -> (result: Result<
        (),
        SupervisorError,
    >)
        ensures
            (final(self)@, result) == start_call(old(self)@, spawned),
    {
        if self.slot.is_some() {
            return Err(SupervisorError::AlreadyRunning);
        }
        match spawned {
            Ok(handle) => {
                self.slot = Some(handle);
                Ok(())
            },
            Err(detail) => Err(SupervisorError::SpawnFailure(detail)),
        }
    }

    /// First half of a stop request. The recorded handle goes to the caller,
    /// who asks the operating system to terminate its process and brings the
    /// handle back to `finish_stop` with the answer. With nothing on record
    /// the request ends here.
    ///
    /// The handle is off the record only between the two halves, while the
    /// caller has the supervisor to itself.
    pub fn begin_stop(&mut self) -> (decision: Result<H, SupervisorError>)
        ensures
            decision == stop_decision(old(self)@),
            final(self)@ is None,
    {
        match self.slot.take() {
            Some(handle) => Ok(handle),
            None => Err(SupervisorError::NotRunning),
        }
    }

    /// Second half of a stop request, for a caller to whom `begin_stop` gave
    /// `handle`. When the operating system accepted the termination request
    /// the record stays empty; success means that the request was issued,
    /// not that the process has exited. When it refused, `handle` goes back
    /// on record, so that the daemon still counts as running and can be
    /// stopped again, and the refusal is passed on with the operating
    /// system's account.
    ///
    /// A handle on record is never replaced: should one be there, it stays,
    /// and `handle` is dropped unrecorded.
    pub fn finish_stop(&mut self, handle: H, killed: Result<(), String>) -> (result: Result<
        (),
        SupervisorError,
    >)
        ensures
            result == kill_result(killed),
            old(self)@ is None ==> (final(self)@, result) == stop_call(Some(handle), killed),
            old(self)@ is Some ==> final(self)@ == old(self)@,
    {
        match killed {
            Ok(()) => Ok(()),
            Err(detail) => {
                if self.slot.is_none() {
                    self.slot = Some(handle);
                }
                Err(SupervisorError::TerminationFailure(detail))
            },
        }
    }

    /// Empties the record when the application quits and hands over the
    /// handle, if there was one, so that its process can be terminated on the
    /// way out.
    pub fn quit(&mut self) -> (handle: Option<H>)
        ensures
            handle == old(self)@,
            final(self)@ is None,
    {
        self.slot.take()
    }
}

impl<H> Default for Supervisor<H> {
    /// A supervisor with nothing on record.
    fn default() -> (supervisor: Self)
        ensures
            supervisor@ is None,
    {
        Supervisor::new()
    }
}

} // verus!
