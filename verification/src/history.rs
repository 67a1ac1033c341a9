//! Histories of start and stop requests, and what holds of the record after
//! every one of them.
//!
//! The supervisor is used by one caller at a time, so whatever the callers
//! do comes down to some sequence of whole requests. A request is written
//! here with the answer that the operating system gives if the request gets
//! as far as asking.

use crate::error::SupervisorError;
use crate::supervisor::{start_call, start_decision, stop_call, stop_decision};
use vstd::prelude::*;

verus! {

/// One request, with the operating system's answer to it.
pub enum Call<H> {
    /// A start request; `spawned` is the answer to spawning the daemon.
    Start { spawned: Result<H, String> },
    /// A stop request; `killed` is the answer to terminating the daemon.
    Stop { killed: Result<(), String> },
}

/// The record after one request.
pub open spec fn record_after_call<H>(record: Option<H>, call: Call<H>) -> Option<H> {
    match call {
        Call::Start { spawned } => start_call(record, spawned).0,
        Call::Stop { killed } => stop_call(record, killed).0,
    }
}

/// The record after a history of requests made of a new supervisor.
pub open spec fn record_after<H>(calls: Seq<Call<H>>) -> Option<H>
    decreases calls.len(),
{
    if calls.len() == 0 {
        None
    } else {
        record_after_call(record_after(calls.drop_last()), calls.last())
    }
}

/// Whether a request, made with the given record, puts a new handle on
/// record.
pub open spec fn records_handle<H>(record: Option<H>, call: Call<H>) -> bool {
    call matches Call::Start { spawned } && start_decision(record) is Ok && spawned is Ok
}

/// Whether a request, made with the given record, takes the recorded handle
/// off the record for good: a stop whose termination request the operating
/// system accepts.
pub open spec fn releases_handle<H>(record: Option<H>, call: Call<H>) -> bool {
    call matches Call::Stop { killed } && stop_decision(record) is Ok && killed is Ok
}

/// How many handles a history has put on record.
pub open spec fn recorded<H>(calls: Seq<Call<H>>) -> nat
    decreases calls.len(),
{
    if calls.len() == 0 {
        0
    } else {
        let earlier = calls.drop_last();
        recorded(earlier) + if records_handle(record_after(earlier), calls.last()) {
            1nat
        } else {
            0nat
        }
    }
}

/// How many handles a history has taken off the record for good.
pub open spec fn released<H>(calls: Seq<Call<H>>) -> nat
    decreases calls.len(),
{
    if calls.len() == 0 {
        0
    } else {
        let earlier = calls.drop_last();
        released(earlier) + if releases_handle(record_after(earlier), calls.last()) {
            1nat
        } else {
            0nat
        }
    }
}

/// How many handles a record holds.
pub open spec fn held<H>(record: Option<H>) -> nat {
    if record is Some {
        1
    } else {
        0
    }
}

/// After any history of start and stop requests, the handles put on record
/// are those taken off again and the one still held, if any: no handle is
/// ever put on record while another is held, and none is lost. So the
/// supervisor never holds more than one handle.
pub proof fn lemma_at_most_one_handle<H>(calls: Seq<Call<H>>)
    ensures
        recorded(calls) == released(calls) + held(record_after(calls)),
        held(record_after(calls)) <= 1,
    decreases calls.len(),
{
    if calls.len() > 0 {
        lemma_at_most_one_handle(calls.drop_last());
    }
}

/// A start request made while a handle is on record is turned down as
/// already running, whatever the operating system would have answered, and
/// leaves that handle on record.
pub proof fn lemma_start_while_running<H>(record: Option<H>, spawned: Result<H, String>)
    requires
        record is Some,
    ensures
        start_call(record, spawned) == (record, Err::<(), _>(SupervisorError::AlreadyRunning)),
{
}

/// A stop request made while nothing is on record is turned down as not
/// running, and nothing is on record afterwards.
pub proof fn lemma_stop_while_stopped<H>(killed: Result<(), String>)
    ensures
        stop_call(None::<H>, killed) == (None::<H>, Err::<(), _>(SupervisorError::NotRunning)),
{
}

/// Two start requests made of a supervisor with nothing on record, in
/// whichever order they get hold of it, where the operating system spawns
/// the daemon for the one that comes first: that one succeeds and its handle
/// stays on record; the other is turned down as already running, whatever
/// the operating system would have answered it.
pub proof fn lemma_two_starts<H>(first: Result<H, String>, second: Result<H, String>)
    requires
        first is Ok,
    ensures
        ({
            let (between, first_result) = start_call(None::<H>, first);
            let (after, second_result) = start_call(between, second);
            &&& first_result is Ok
            &&& second_result == Err::<(), _>(SupervisorError::AlreadyRunning)
            &&& between == Some(first->Ok_0)
            &&& after == between
        }),
{
}

/// Of two start requests that follow one another, at most one succeeds,
/// whatever is on record before them and whatever the operating system
/// answers.
pub proof fn lemma_starts_do_not_both_succeed<H>(
    record: Option<H>,
    first: Result<H, String>,
    second: Result<H, String>,
)
    ensures
        ({
            let (between, first_result) = start_call(record, first);
            let (after, second_result) = start_call(between, second);
            !(first_result is Ok && second_result is Ok)
        }),
{
}

/// A stop request whose termination the operating system refuses fails with
/// the operating system's account and leaves the record as it was: the same
/// handle is on record, and a stop made next reaches the same handle again.
pub proof fn lemma_failed_stop_keeps_handle<H>(record: Option<H>, detail: String)
    requires
        record is Some,
    ensures
        stop_call(record, Err(detail)) == (
            record,
            Err::<(), _>(SupervisorError::TerminationFailure(detail)),
        ),
        stop_decision(stop_call(record, Err(detail)).0) == stop_decision(record),
{
}

/// A request that fails leaves the record as it found it, whichever request
/// it is and for whichever reason it fails.
pub proof fn lemma_failure_keeps_record<H>(
    record: Option<H>,
    spawned: Result<H, String>,
    killed: Result<(), String>,
)
    ensures
        start_call(record, spawned).1 is Err ==> start_call(record, spawned).0 == record,
        stop_call(record, killed).1 is Err ==> stop_call(record, killed).0 == record,
{
}

/// A start that succeeds and a stop right after it: the stop reaches the
/// very handle that the start put on record, and it succeeds exactly when
/// the operating system accepts the termination request. Then nothing is on
/// record; otherwise that handle still is.
pub proof fn lemma_start_then_stop<H>(handle: H, killed: Result<(), String>)
    ensures
        ({
            let (between, started) = start_call(None::<H>, Ok(handle));
            let (after, stopped) = stop_call(between, killed);
            &&& started is Ok
            &&& stop_decision(between) == Ok::<H, SupervisorError>(handle)
            &&& stopped is Ok <==> killed is Ok
            &&& killed is Ok ==> after is None
            &&& killed is Err ==> after == Some(handle)
        }),
{
}

} // verus!
