//! The supervisor's reconnect state machine and the binding lifecycle.
//!
//! One supervisor owns one binding's outer loop: open the serial device
//! (retrying with a fixed backoff), accept one TCP client, run a session
//! with a forward pump spawned beside it, tear the session down, and start
//! over — until the binding's shutdown flag is cleared.  The decisions of
//! that loop are the verified step function here; the shell performs each
//! returned action (open, accept, relay, join) and reports its outcome as
//! the next event.

use vstd::prelude::*;

verus! {

/// Where the supervisor stands in its reconnect cycle.
#[derive(Clone, Copy, PartialEq, Eq, Structural, Debug)]
pub enum SupState {
    /// Trying to open the serial device.
    Opening,
    /// Serial open; waiting to accept one TCP client.
    Waiting,
    /// A session is live: the forward pump runs and TCP bytes are relayed
    /// to the serial device.
    Relaying,
    /// The session is over; stopping and joining the forward pump.
    TearingDown,
    /// The binding is done; the supervisor returns.
    Exited,
}

/// The outcome of the action the supervisor last performed.
#[derive(Clone, Copy, PartialEq, Eq, Structural, Debug)]
pub enum SupEvent {
    /// The serial device opened at the configured baud rate.
    Opened,
    /// The serial device could not be opened.
    OpenFailed,
    /// A TCP client was accepted and both handles were duplicated.
    Accepted,
    /// Accepting a TCP client failed.
    AcceptFailed,
    /// The accepted stream or the serial handle could not be duplicated.
    CloneFailed,
    /// The relay loop ended: shutdown, a TCP read error, or a serial
    /// write error.
    SessionOver,
    /// The forward pump finished and was joined.
    Joined,
}

/// What the shell must do next.
#[derive(Clone, Copy, PartialEq, Eq, Structural, Debug)]
pub enum SupAction {
    /// Open the serial device with a short read timeout.
    TryOpen,
    /// Log the failure, sleep the fixed backoff interval, then report
    /// [`SupEvent::OpenFailed`]'s retry by polling again.
    Backoff,
    /// Block accepting one TCP client on the bound listener.
    AwaitClient,
    /// Duplicate the handles, spawn the forward pump, and run the relay
    /// loop until it ends.
    StartSession,
    /// Clear the session flag and join the forward pump.
    StopForward,
    /// Log the exit and return from the supervisor.
    Halt,
}

/// The supervisor's transition function.  `running` is the binding's
/// shutdown flag as read when the event came in; the flag is consulted at
/// the loop head (state [`SupState::Opening`]) and when a finished session
/// or a failed accept would start the next cycle, so a cleared flag leads
/// to [`SupState::Exited`] instead.
pub open spec fn spec_supervisor_next(s: SupState, running: bool, ev: SupEvent) -> (
    SupState,
    SupAction,
) {
    match s {
        SupState::Opening => if !running {
            (SupState::Exited, SupAction::Halt)
        } else {
            match ev {
                SupEvent::Opened => (SupState::Waiting, SupAction::AwaitClient),
                SupEvent::OpenFailed => (SupState::Opening, SupAction::Backoff),
                _ => (SupState::Opening, SupAction::TryOpen),
            }
        },
        SupState::Waiting => match ev {
            SupEvent::Accepted => (SupState::Relaying, SupAction::StartSession),
            SupEvent::AcceptFailed | SupEvent::CloneFailed => if !running {
                (SupState::Exited, SupAction::Halt)
            } else {
                (SupState::Opening, SupAction::TryOpen)
            },
            _ => (SupState::Waiting, SupAction::AwaitClient),
        },
        SupState::Relaying => match ev {
            SupEvent::SessionOver => (SupState::TearingDown, SupAction::StopForward),
            _ => (SupState::Relaying, SupAction::StopForward),
        },
        SupState::TearingDown => match ev {
            SupEvent::Joined => if !running {
                (SupState::Exited, SupAction::Halt)
            } else {
                (SupState::Opening, SupAction::TryOpen)
            },
            _ => (SupState::TearingDown, SupAction::StopForward),
        },
        SupState::Exited => (SupState::Exited, SupAction::Halt),
    }
}

/// One supervisor step: the next state and the action the shell performs
/// in it.
pub fn supervisor_next(s: SupState, running: bool, ev: SupEvent) -> (r: (SupState, SupAction))
    ensures
        r == spec_supervisor_next(s, running, ev),
{
    match s {
        SupState::Opening => if !running {
            (SupState::Exited, SupAction::Halt)
        } else {
            match ev {
                SupEvent::Opened => (SupState::Waiting, SupAction::AwaitClient),
                SupEvent::OpenFailed => (SupState::Opening, SupAction::Backoff),
                _ => (SupState::Opening, SupAction::TryOpen),
            }
        },
        SupState::Waiting => match ev {
            SupEvent::Accepted => (SupState::Relaying, SupAction::StartSession),
            SupEvent::AcceptFailed | SupEvent::CloneFailed => if !running {
                (SupState::Exited, SupAction::Halt)
            } else {
                (SupState::Opening, SupAction::TryOpen)
            },
            _ => (SupState::Waiting, SupAction::AwaitClient),
        },
        SupState::Relaying => match ev {
            SupEvent::SessionOver => (SupState::TearingDown, SupAction::StopForward),
            _ => (SupState::Relaying, SupAction::StopForward),
        },
        SupState::TearingDown => match ev {
            SupEvent::Joined => if !running {
                (SupState::Exited, SupAction::Halt)
            } else {
                (SupState::Opening, SupAction::TryOpen)
            },
            _ => (SupState::TearingDown, SupAction::StopForward),
        },
        SupState::Exited => (SupState::Exited, SupAction::Halt),
    }
}

/// The events that the action performed in state `s` can actually report.
pub open spec fn fits(s: SupState, ev: SupEvent) -> bool {
    match s {
        SupState::Opening => ev is Opened || ev is OpenFailed,
        SupState::Waiting => ev is Accepted || ev is AcceptFailed || ev is CloneFailed,
        SupState::Relaying => ev is SessionOver,
        SupState::TearingDown => ev is Joined,
        SupState::Exited => true,
    }
}

/// The state after running a trace of (flag value, event) steps from `s`.
pub open spec fn run_supervisor(s: SupState, steps: Seq<(bool, SupEvent)>) -> SupState
    decreases steps.len(),
{
    if steps.len() == 0 {
        s
    } else {
        run_supervisor(
            spec_supervisor_next(s, steps.first().0, steps.first().1).0,
            steps.drop_first(),
        )
    }
}

/// Every event of the trace fits the state in which it is consumed.
pub open spec fn trace_fits(s: SupState, steps: Seq<(bool, SupEvent)>) -> bool
    decreases steps.len(),
{
    steps.len() == 0 || {
        &&& fits(s, steps.first().1)
        &&& trace_fits(
            spec_supervisor_next(s, steps.first().0, steps.first().1).0,
            steps.drop_first(),
        )
    }
}

/// How many forward pumps are alive in a state: one from the moment a
/// session starts until its pump is joined, none otherwise.
pub open spec fn pumps_alive(s: SupState) -> nat {
    match s {
        SupState::Relaying | SupState::TearingDown => 1,
        _ => 0,
    }
}

/// Forward pumps spawned while running a trace: one per `StartSession`
/// action issued.
pub open spec fn pumps_spawned(s: SupState, steps: Seq<(bool, SupEvent)>) -> nat
    decreases steps.len(),
{
    if steps.len() == 0 {
        0
    } else {
        let (next, action) = spec_supervisor_next(s, steps.first().0, steps.first().1);
        (if action is StartSession {
            1nat
        } else {
            0
        }) + pumps_spawned(next, steps.drop_first())
    }
}

/// Forward pumps joined while running a trace: one per `Joined` event
/// consumed in `TearingDown`.
pub open spec fn pumps_joined(s: SupState, steps: Seq<(bool, SupEvent)>) -> nat
    decreases steps.len(),
{
    if steps.len() == 0 {
        0
    } else {
        (if s is TearingDown && steps.first().1 is Joined {
            1nat
        } else {
            0
        }) + pumps_joined(
            spec_supervisor_next(s, steps.first().0, steps.first().1).0,
            steps.drop_first(),
        )
    }
}

/// Law: no forward pump leaks.  Along any run of the supervisor from its
/// start, over any events that fit and whatever the shutdown flag does,
/// the pumps spawned so far never exceed the pumps joined by more than
/// one: at most one forward pump is alive at any time, and every spawned
/// pump is joined before the next session starts.
pub proof fn lemma_at_most_one_forward_pump(steps: Seq<(bool, SupEvent)>)
    requires
        trace_fits(SupState::Opening, steps),
    ensures
        pumps_spawned(SupState::Opening, steps) <= pumps_joined(SupState::Opening, steps) + 1,
        pumps_spawned(SupState::Opening, steps) == pumps_joined(SupState::Opening, steps)
            + pumps_alive(run_supervisor(SupState::Opening, steps)),
{
    lemma_pump_accounting(SupState::Opening, steps);
}

/// Pump accounting along a fitting trace: spawns minus joins equals the
/// change in the number of live pumps.
proof fn lemma_pump_accounting(s: SupState, steps: Seq<(bool, SupEvent)>)
    requires
        trace_fits(s, steps),
    ensures
        pumps_spawned(s, steps) + pumps_alive(s) == pumps_joined(s, steps) + pumps_alive(
            run_supervisor(s, steps),
        ),
    decreases steps.len(),
{
    if steps.len() > 0 {
        let next = spec_supervisor_next(s, steps.first().0, steps.first().1).0;
        lemma_pump_accounting(next, steps.drop_first());
    }
}

/// How many fitting steps a supervisor needs, at most, to reach `Exited`
/// once the shutdown flag stays cleared.
pub open spec fn exit_distance(s: SupState) -> nat {
    match s {
        SupState::Exited => 0,
        SupState::Opening => 1,
        SupState::TearingDown => 1,
        SupState::Relaying => 2,
        SupState::Waiting => 3,
    }
}

/// Law: stopping is prompt.  Once the shutdown flag stays cleared, the
/// supervisor reaches `Exited` within at most three further steps — from
/// any state, whether a session is live, a backoff is pending, or an
/// accept just returned.  Each step is one bounded operation, so the stop
/// completes within a delay proportional to the configured read timeout
/// (an accept that never returns is the design's documented limitation).
pub proof fn lemma_stop_is_prompt(s: SupState, steps: Seq<(bool, SupEvent)>)
    requires
        trace_fits(s, steps),
        forall|i: int| 0 <= i < steps.len() ==> !(#[trigger] steps[i]).0,
        steps.len() >= exit_distance(s),
    ensures
        run_supervisor(s, steps) == SupState::Exited,
    decreases steps.len(),
{
    if steps.len() > 0 {
        let next = spec_supervisor_next(s, steps.first().0, steps.first().1).0;
        assert(steps[0] == steps.first());
        assert(forall|i: int|
            0 <= i < steps.drop_first().len() ==> (#[trigger] steps.drop_first()[i]) == steps[i
                + 1]);
        lemma_stop_is_prompt(next, steps.drop_first());
    }
}

/// The lifecycle phase of one binding handle.
#[derive(Clone, Copy, PartialEq, Eq, Structural, Debug)]
pub enum BindingPhase {
    /// Configured, not yet started.
    Idle,
    /// Binding the TCP listener.
    Starting,
    /// The supervisor runs; sessions come and go inside it.
    Running,
    /// The flag is cleared and every owned thread is joined.
    Stopped,
}

/// A listener that could not be bound: the one failure that aborts a
/// binding's start instead of being retried.
#[derive(Clone, Copy, PartialEq, Eq, Structural, Debug)]
pub enum StartError {
    ListenerBind,
}

/// The start decision: with the TCP listener bound, a binding always
/// starts and its handle is `Running`; a listener that cannot be bound is
/// a configuration error, reported and never retried.
pub fn start_phase(listener_bound: bool) -> (r: Result<BindingPhase, StartError>)
    ensures
        (r is Ok) == listener_bound,
        r matches Ok(p) ==> p is Running,
        r matches Err(e) ==> e is ListenerBind,
{
    if listener_bound {
        Ok(BindingPhase::Running)
    } else {
        Err(StartError::ListenerBind)
    }
}

/// The stop decision: whatever phase the handle is in, after a stop it is
/// `Stopped` — stopping an already stopped handle is a no-op.
pub fn stop_phase(p: BindingPhase) -> (r: BindingPhase)
    ensures
        r is Stopped,
        p is Stopped ==> r == p,
{
    let _ = p;
    BindingPhase::Stopped
}

} // verus!

