use stt_supervisor::error::SupervisorError;
use stt_supervisor::reply::{start_reply, stop_reply};
use stt_supervisor::supervisor::Supervisor;

/// A whole start request against a stand-in for the operating system.
fn start(supervisor: &mut Supervisor<u32>, spawned: Result<u32, String>) -> Result<String, String> {
    let result = match supervisor.begin_start() {
        Ok(()) => supervisor.finish_start(spawned),
        Err(error) => Err(error),
    };
    start_reply(result)
}

/// A whole stop request against a stand-in for the operating system. The
/// handle that was to be terminated comes back beside the reply.
fn stop(
    supervisor: &mut Supervisor<u32>,
    killed: Result<(), String>,
) -> (Option<u32>, Result<String, String>) {
    match supervisor.begin_stop() {
        Ok(handle) => {
            let result = supervisor.finish_stop(handle, killed);
            (Some(handle), stop_reply(result))
        }
        Err(error) => (None, stop_reply(Err(error))),
    }
}

#[test]
fn new_supervisor_is_stopped() {
    let supervisor: Supervisor<u32> = Supervisor::new();
    assert!(!supervisor.status());
}

#[test]
fn default_supervisor_is_stopped() {
    let mut supervisor: Supervisor<u32> = Supervisor::default();
    assert!(!supervisor.status());
    assert_eq!(supervisor.begin_stop(), Err(SupervisorError::NotRunning));
}

#[test]
fn start_from_stopped_succeeds_and_reports_running() {
    let mut supervisor = Supervisor::new();
    let reply = start(&mut supervisor, Ok(4711));
    assert_eq!(reply, Ok("STT daemon started successfully".to_string()));
    assert!(supervisor.status());
}

#[test]
fn second_start_is_turned_down() {
    let mut supervisor = Supervisor::new();
    assert!(start(&mut supervisor, Ok(1)).is_ok());
    let reply = start(&mut supervisor, Ok(2));
    assert_eq!(reply, Err("STT daemon is already running".to_string()));
    assert!(supervisor.status());
}

#[test]
fn second_start_leaves_the_first_handle_on_record() {
    let mut supervisor = Supervisor::new();
    assert!(start(&mut supervisor, Ok(1)).is_ok());
    assert!(start(&mut supervisor, Ok(2)).is_err());
    assert!(start(&mut supervisor, Err("no such file".to_string())).is_err());
    let (handle, reply) = stop(&mut supervisor, Ok(()));
    assert_eq!(handle, Some(1));
    assert!(reply.is_ok());
}

#[test]
fn begin_start_decides_on_the_record_alone() {
    let mut supervisor = Supervisor::new();
    assert_eq!(supervisor.begin_start(), Ok(()));
    assert_eq!(supervisor.begin_start(), Ok(()));
    assert!(!supervisor.status());
    assert_eq!(supervisor.finish_start(Ok(5)), Ok(()));
    assert_eq!(supervisor.begin_start(), Err(SupervisorError::AlreadyRunning));
    assert!(supervisor.status());
}

#[test]
fn finish_start_never_replaces_a_handle() {
    let mut supervisor = Supervisor::new();
    assert_eq!(supervisor.finish_start(Ok(5)), Ok(()));
    assert_eq!(supervisor.finish_start(Ok(6)), Err(SupervisorError::AlreadyRunning));
    assert_eq!(
        supervisor.finish_start(Err("denied".to_string())),
        Err(SupervisorError::AlreadyRunning)
    );
    assert_eq!(supervisor.begin_stop(), Ok(5));
}

#[test]
fn failed_spawn_leaves_the_supervisor_stopped() {
    let mut supervisor = Supervisor::new();
    let reply = start(&mut supervisor, Err("No such file or directory (os error 2)".to_string()));
    assert_eq!(
        reply,
        Err("Failed to start STT daemon: No such file or directory (os error 2)".to_string())
    );
    assert!(!supervisor.status());
    assert_eq!(
        supervisor.finish_start(Err("Permission denied (os error 13)".to_string())),
        Err(SupervisorError::SpawnFailure("Permission denied (os error 13)".to_string()))
    );
    assert!(!supervisor.status());
}

#[test]
fn start_succeeds_after_a_failed_spawn() {
    let mut supervisor = Supervisor::new();
    assert!(start(&mut supervisor, Err("busy".to_string())).is_err());
    assert_eq!(
        start(&mut supervisor, Ok(8)),
        Ok("STT daemon started successfully".to_string())
    );
    assert!(supervisor.status());
}

#[test]
fn stop_from_stopped_is_turned_down() {
    let mut supervisor = Supervisor::new();
    let (handle, reply) = stop(&mut supervisor, Ok(()));
    assert_eq!(handle, None);
    assert_eq!(reply, Err("STT daemon is not running".to_string()));
    assert!(!supervisor.status());
    assert_eq!(supervisor.begin_stop(), Err(SupervisorError::NotRunning));
}

#[test]
fn start_then_stop_succeeds_and_reports_stopped() {
    let mut supervisor = Supervisor::new();
    assert!(start(&mut supervisor, Ok(31)).is_ok());
    let (handle, reply) = stop(&mut supervisor, Ok(()));
    assert_eq!(handle, Some(31));
    assert_eq!(reply, Ok("STT daemon stopped successfully".to_string()));
    assert!(!supervisor.status());
}

#[test]
fn failed_termination_is_reported_and_keeps_the_handle() {
    let mut supervisor = Supervisor::new();
    assert!(start(&mut supervisor, Ok(31)).is_ok());
    let (handle, reply) = stop(&mut supervisor, Err("No such process (os error 3)".to_string()));
    assert_eq!(handle, Some(31));
    assert_eq!(
        reply,
        Err("Failed to stop STT daemon: No such process (os error 3)".to_string())
    );
    assert!(supervisor.status());
    assert_eq!(supervisor.begin_start(), Err(SupervisorError::AlreadyRunning));
}

#[test]
fn a_stop_that_failed_can_be_tried_again_on_the_same_handle() {
    let mut supervisor = Supervisor::new();
    assert!(start(&mut supervisor, Ok(7)).is_ok());
    for _ in 0..3 {
        let (handle, reply) = stop(&mut supervisor, Err("Operation not permitted".to_string()));
        assert_eq!(handle, Some(7));
        assert_eq!(
            reply,
            Err("Failed to stop STT daemon: Operation not permitted".to_string())
        );
        assert!(supervisor.status());
    }
    let (handle, reply) = stop(&mut supervisor, Ok(()));
    assert_eq!(handle, Some(7));
    assert_eq!(reply, Ok("STT daemon stopped successfully".to_string()));
    assert!(!supervisor.status());
    assert_eq!(
        stop(&mut supervisor, Ok(())).1,
        Err("STT daemon is not running".to_string())
    );
}

#[test]
fn the_record_is_empty_between_the_halves_of_a_stop() {
    let mut supervisor = Supervisor::new();
    assert_eq!(supervisor.finish_start(Ok(5)), Ok(()));
    assert_eq!(supervisor.begin_stop(), Ok(5));
    assert!(!supervisor.status());
    assert_eq!(
        supervisor.finish_stop(5, Err("busy".to_string())),
        Err(SupervisorError::TerminationFailure("busy".to_string()))
    );
    assert!(supervisor.status());
    assert_eq!(supervisor.begin_stop(), Ok(5));
    assert_eq!(supervisor.finish_stop(5, Ok(())), Ok(()));
    assert!(!supervisor.status());
}

#[test]
fn finish_stop_never_replaces_a_handle() {
    let mut supervisor = Supervisor::new();
    assert_eq!(supervisor.finish_start(Ok(5)), Ok(()));
    assert_eq!(
        supervisor.finish_stop(6, Err("gone".to_string())),
        Err(SupervisorError::TerminationFailure("gone".to_string()))
    );
    assert_eq!(supervisor.finish_stop(6, Ok(())), Ok(()));
    assert_eq!(supervisor.quit(), Some(5));
}

#[test]
fn finish_stop_passes_the_answer_on() {
    let mut supervisor = Supervisor::new();
    assert_eq!(supervisor.finish_stop(1, Ok(())), Ok(()));
    assert!(!supervisor.status());
    assert_eq!(
        supervisor.finish_stop(1, Err("gone".to_string())),
        Err(SupervisorError::TerminationFailure("gone".to_string()))
    );
    assert_eq!(supervisor.quit(), Some(1));
}

#[test]
fn status_follows_the_record_not_the_process() {
    // Nothing but a stop that succeeds, or a quit, takes the handle off the
    // record, however long ago its process may have died.
    let mut supervisor = Supervisor::new();
    assert!(start(&mut supervisor, Ok(77)).is_ok());
    for _ in 0..5 {
        assert!(supervisor.status());
        assert_eq!(supervisor.begin_start(), Err(SupervisorError::AlreadyRunning));
    }
    assert_eq!(stop(&mut supervisor, Err("already exited".to_string())).0, Some(77));
    assert!(supervisor.status());
    assert_eq!(stop(&mut supervisor, Ok(())).0, Some(77));
    assert!(!supervisor.status());
}

#[test]
fn restart_records_the_new_handle() {
    let mut supervisor = Supervisor::new();
    assert!(start(&mut supervisor, Ok(1)).is_ok());
    assert_eq!(stop(&mut supervisor, Ok(())).0, Some(1));
    assert!(start(&mut supervisor, Ok(2)).is_ok());
    assert_eq!(stop(&mut supervisor, Ok(())).0, Some(2));
    assert!(!supervisor.status());
}

#[test]
fn quit_while_running_hands_the_handle_over() {
    let mut supervisor = Supervisor::new();
    assert!(start(&mut supervisor, Ok(9)).is_ok());
    assert_eq!(supervisor.quit(), Some(9));
    assert!(!supervisor.status());
    assert_eq!(supervisor.quit(), None);
}

#[test]
fn quit_after_a_failed_stop_still_hands_the_handle_over() {
    let mut supervisor = Supervisor::new();
    assert!(start(&mut supervisor, Ok(9)).is_ok());
    assert!(stop(&mut supervisor, Err("refused".to_string())).1.is_err());
    assert_eq!(supervisor.quit(), Some(9));
    assert!(!supervisor.status());
}

#[test]
fn quit_while_stopped_hands_nothing_over() {
    let mut supervisor: Supervisor<u32> = Supervisor::new();
    assert_eq!(supervisor.quit(), None);
    assert!(!supervisor.status());
}

#[test]
fn of_two_starts_from_stopped_one_succeeds() {
    // Both callers would get a process from the operating system; whoever
    // has the supervisor first wins, and the other never spawns.
    for (first, second) in [(10u32, 20u32), (20u32, 10u32)] {
        let mut supervisor = Supervisor::new();
        let replies = [start(&mut supervisor, Ok(first)), start(&mut supervisor, Ok(second))];
        assert_eq!(replies.iter().filter(|reply| reply.is_ok()).count(), 1);
        assert_eq!(replies[0], Ok("STT daemon started successfully".to_string()));
        assert_eq!(replies[1], Err("STT daemon is already running".to_string()));
        assert_eq!(supervisor.quit(), Some(first));
    }
}

#[test]
fn handles_on_record_are_held_or_taken_off() {
    // A long run of requests with every kind of answer: at each point the
    // handles that went on record are the ones that a stop took off again
    // plus the one that is still there, and a request that fails changes
    // nothing.
    let mut supervisor = Supervisor::new();
    let mut recorded: u32 = 0;
    let mut released: u32 = 0;
    for round in 0u32..60 {
        let was_running = supervisor.status();
        if round % 3 != 2 {
            let spawned = if round % 5 == 0 { Err("refused".to_string()) } else { Ok(round) };
            let spawns = spawned.is_ok();
            let reply = start(&mut supervisor, spawned);
            assert_eq!(reply.is_ok(), !was_running && spawns);
            if reply.is_ok() {
                recorded += 1;
            } else {
                assert_eq!(supervisor.status(), was_running);
            }
        } else {
            let killed = if round % 2 == 0 { Ok(()) } else { Err("refused".to_string()) };
            let kills = killed.is_ok();
            let (handle, reply) = stop(&mut supervisor, killed);
            assert_eq!(handle.is_some(), was_running);
            assert_eq!(reply.is_ok(), was_running && kills);
            if reply.is_ok() {
                released += 1;
            } else {
                assert_eq!(supervisor.status(), was_running);
            }
        }
        let held: u32 = if supervisor.status() { 1 } else { 0 };
        assert_eq!(recorded, released + held);
    }
    assert!(recorded > 1);
    assert!(released > 1);
}
