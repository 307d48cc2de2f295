use serial2tcp::supervisor::{
    start_phase, stop_phase, supervisor_next, BindingPhase, StartError, SupAction, SupEvent,
    SupState,
};

#[test]
fn absent_device_backs_off_and_retries() {
    let mut st = SupState::Opening;
    for _ in 0..3 {
        let (next, action) = supervisor_next(st, true, SupEvent::OpenFailed);
        assert_eq!(next, SupState::Opening);
        assert_eq!(action, SupAction::Backoff);
        st = next;
    }
    let (next, action) = supervisor_next(st, true, SupEvent::Opened);
    assert_eq!(next, SupState::Waiting);
    assert_eq!(action, SupAction::AwaitClient);
}

#[test]
fn accept_starts_a_session() {
    let (next, action) = supervisor_next(SupState::Waiting, true, SupEvent::Accepted);
    assert_eq!(next, SupState::Relaying);
    assert_eq!(action, SupAction::StartSession);
}

#[test]
fn accept_failure_retries_from_open() {
    let (next, action) = supervisor_next(SupState::Waiting, true, SupEvent::AcceptFailed);
    assert_eq!(next, SupState::Opening);
    assert_eq!(action, SupAction::TryOpen);
    let (next, action) = supervisor_next(SupState::Waiting, true, SupEvent::CloneFailed);
    assert_eq!(next, SupState::Opening);
    assert_eq!(action, SupAction::TryOpen);
}

#[test]
fn client_disconnect_tears_down_and_resumes() {
    let (next, action) = supervisor_next(SupState::Relaying, true, SupEvent::SessionOver);
    assert_eq!(next, SupState::TearingDown);
    assert_eq!(action, SupAction::StopForward);
    let (next, action) = supervisor_next(next, true, SupEvent::Joined);
    assert_eq!(next, SupState::Opening);
    assert_eq!(action, SupAction::TryOpen);
    let (next, action) = supervisor_next(next, true, SupEvent::Opened);
    assert_eq!(next, SupState::Waiting);
    assert_eq!(action, SupAction::AwaitClient);
}

#[test]
fn cleared_flag_exits_within_three_steps() {
    // Mid-session stop: relay ends, pump joined, supervisor halts.
    let (s1, a1) = supervisor_next(SupState::Relaying, false, SupEvent::SessionOver);
    assert_eq!(s1, SupState::TearingDown);
    assert_eq!(a1, SupAction::StopForward);
    let (s2, a2) = supervisor_next(s1, false, SupEvent::Joined);
    assert_eq!(s2, SupState::Exited);
    assert_eq!(a2, SupAction::Halt);

    // Stop during a backoff.
    let (s, a) = supervisor_next(SupState::Opening, false, SupEvent::OpenFailed);
    assert_eq!(s, SupState::Exited);
    assert_eq!(a, SupAction::Halt);

    // Stop right after an accept: the fresh session ends at its first poll.
    let (s1, _) = supervisor_next(SupState::Waiting, false, SupEvent::Accepted);
    assert_eq!(s1, SupState::Relaying);
    let (s2, _) = supervisor_next(s1, false, SupEvent::SessionOver);
    let (s3, _) = supervisor_next(s2, false, SupEvent::Joined);
    assert_eq!(s3, SupState::Exited);

    // An exited supervisor stays exited.
    let (s, a) = supervisor_next(SupState::Exited, false, SupEvent::Joined);
    assert_eq!(s, SupState::Exited);
    assert_eq!(a, SupAction::Halt);
}

#[test]
fn reconnect_cycles_spawn_one_pump_each() {
    // Two full client visits: every StartSession is followed by exactly one
    // join before the next session can begin.
    let trace = [
        (true, SupEvent::Opened),
        (true, SupEvent::Accepted),
        (true, SupEvent::SessionOver),
        (true, SupEvent::Joined),
        (true, SupEvent::Opened),
        (true, SupEvent::Accepted),
        (true, SupEvent::SessionOver),
        (false, SupEvent::Joined),
    ];
    let mut st = SupState::Opening;
    let mut alive: i64 = 0;
    for (running, ev) in trace {
        let (next, action) = supervisor_next(st, running, ev);
        if action == SupAction::StartSession {
            alive += 1;
        }
        if st == SupState::TearingDown && ev == SupEvent::Joined {
            alive -= 1;
        }
        assert!(alive <= 1);
        assert!(alive >= 0);
        st = next;
    }
    assert_eq!(st, SupState::Exited);
    assert_eq!(alive, 0);
}

#[test]
fn start_succeeds_when_listener_binds() {
    let r = start_phase(true);
    assert!(matches!(r, Ok(BindingPhase::Running)));
}

#[test]
fn start_fails_only_on_listener_bind() {
    let r = start_phase(false);
    assert!(matches!(r, Err(StartError::ListenerBind)));
}

#[test]
fn stop_is_idempotent() {
    assert_eq!(stop_phase(BindingPhase::Running), BindingPhase::Stopped);
    assert_eq!(stop_phase(BindingPhase::Idle), BindingPhase::Stopped);
    assert_eq!(stop_phase(BindingPhase::Starting), BindingPhase::Stopped);
    assert_eq!(stop_phase(BindingPhase::Stopped), BindingPhase::Stopped);
}
