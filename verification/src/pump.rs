//! Per-session pump decisions and the stream-preservation property.
//!
//! During one session two pumps run: the forward pump copies serial bytes
//! to the TCP client, and the supervisor's relay loop copies TCP bytes to
//! the serial device.  Each pump's loop body is a decision on the outcome
//! of one bounded read; the decision functions here are verified, and the
//! trace model proves that a pump delivers exactly the bytes it read, in
//! order.

use vstd::prelude::*;

verus! {

/// Outcome of one bounded read on the serial side, as the forward pump
/// sees it.
pub enum SerialRead {
    /// A read that returned no bytes; nothing to forward.
    Empty,
    /// A chunk of bytes arrived.
    Data(Vec<u8>),
    /// The bounded read timed out; not an error, merely the moment to
    /// re-poll the session flag.
    TimedOut,
    /// A genuine read error; logged, but the pump keeps polling — only the
    /// session flag ends it.
    Failed,
}

/// What the forward pump does with one read outcome.
pub enum ForwardStep {
    /// Write these bytes to the TCP client now.  A failure of that write
    /// is logged and tolerated; the paired direction notices a dead
    /// session from its own side.
    Forward(Vec<u8>),
    /// Nothing to do; poll again.
    Idle,
    /// Log the read error, then poll again.
    Warn,
    /// The session flag was cleared: return so the pump can be joined.
    Stop,
}

/// The bytes one serial read outcome carries.
pub open spec fn serial_payload(ev: SerialRead) -> Seq<u8> {
    match ev {
        SerialRead::Data(b) => b@,
        _ => Seq::empty(),
    }
}

/// The forward pump's decision for one iteration: it stops exactly when
/// the session flag is cleared, forwards every chunk it read unchanged,
/// and treats timeouts and read errors as reasons to keep polling.
pub fn forward_step(running: bool, ev: SerialRead) -> (r: ForwardStep)
    ensures
        !running ==> r is Stop,
        running ==> (ev matches SerialRead::Data(b) ==> r matches ForwardStep::Forward(out)
            && out@ == b@),
        running && (ev is Empty || ev is TimedOut) ==> r is Idle,
        running && ev is Failed ==> r is Warn,
{
    if !running {
        return ForwardStep::Stop;
    }
    match ev {
        SerialRead::Empty => ForwardStep::Idle,
        SerialRead::Data(b) => ForwardStep::Forward(b),
        SerialRead::TimedOut => ForwardStep::Idle,
        SerialRead::Failed => ForwardStep::Warn,
    }
}

/// Outcome of one bounded read on the TCP side during a session.
pub enum TcpRead {
    /// A read that returned no bytes; the session continues.
    Empty,
    /// A chunk of bytes arrived and is due on the serial side.
    Data(Vec<u8>),
    /// The bounded read timed out; re-poll the shutdown flag.
    TimedOut,
    /// A read error: the session is over.
    Failed,
}

/// What the supervisor's relay loop does with one read outcome.
pub enum SessionStep {
    /// Write these bytes to the serial device now.
    Relay(Vec<u8>),
    /// Nothing to do; poll again.
    Idle,
    /// The session ends: tear down and return to the reconnect loop.
    End,
}

/// The bytes one TCP read outcome carries.
pub open spec fn tcp_payload(ev: TcpRead) -> Seq<u8> {
    match ev {
        TcpRead::Data(b) => b@,
        _ => Seq::empty(),
    }
}

/// The relay loop's decision for one iteration: a cleared shutdown flag or
/// a read error ends the session, a chunk is relayed unchanged, and empty
/// or timed-out reads keep the session alive.
pub fn session_step(running: bool, ev: TcpRead) -> (r: SessionStep)
    ensures
        !running ==> r is End,
        running ==> (ev matches TcpRead::Data(b) ==> r matches SessionStep::Relay(out)
            && out@ == b@),
        running && (ev is Empty || ev is TimedOut) ==> r is Idle,
        running && ev is Failed ==> r is End,
{
    if !running {
        return SessionStep::End;
    }
    match ev {
        TcpRead::Empty => SessionStep::Idle,
        TcpRead::Data(b) => SessionStep::Relay(b),
        TcpRead::TimedOut => SessionStep::Idle,
        TcpRead::Failed => SessionStep::End,
    }
}

/// Whether the session survives the serial write that followed a relayed
/// chunk: a write error is session-fatal.
pub fn session_survives_write(write_ok: bool) -> (r: bool)
    ensures
        r == write_ok,
{
    write_ok
}

/// The bytes a trace of serial reads carries, in order.
pub open spec fn serial_chunks(evs: Seq<SerialRead>) -> Seq<u8>
    decreases evs.len(),
{
    if evs.len() == 0 {
        Seq::empty()
    } else {
        serial_chunks(evs.drop_last()) + serial_payload(evs.last())
    }
}

/// Executable model of one forward-pump session over a recorded trace of
/// reads with the session flag held up: the pump writes exactly the bytes
/// it read, in order — nothing lost, nothing reordered, nothing invented.
pub fn run_forward(evs: Vec<SerialRead>) -> (out: Vec<u8>)
    ensures
        out@ == serial_chunks(evs@),
{
    let ghost all = evs@;
    let mut queue = evs;
    let mut out: Vec<u8> = Vec::new();
    let ghost done: int = 0;
    proof {
        assert(all.subrange(0, 0) =~= Seq::<SerialRead>::empty());
        assert(queue@ =~= all.subrange(0, all.len() as int));
    }
    while queue.len() > 0
        invariant
            0 <= done <= all.len(),
            queue@ == all.subrange(done, all.len() as int),
            out@ == serial_chunks(all.subrange(0, done)),
        decreases queue.len(),
    {
        let ghost prev = queue@;
        let ev = queue.remove(0);
        let ghost evg = ev;
        proof {
            assert(evg == all[done]);
            assert(queue@ =~= all.subrange(done + 1, all.len() as int));
            assert(all.subrange(0, done + 1).drop_last() =~= all.subrange(0, done));
            assert(all.subrange(0, done + 1).last() == all[done]);
        }
        match forward_step(true, ev) {
            ForwardStep::Forward(mut b) => {
                out.append(&mut b);
            },
            _ => {
                proof {
                    assert(out@ + serial_payload(evg) =~= out@);
                }
            },
        }
        proof {
            done = done + 1;
        }
    }
    proof {
        assert(all.subrange(0, done) =~= all);
    }
    out
}

/// The bytes a session trace actually delivers to the serial device: each
/// chunk in order, up to the first read failure or failed serial write.
/// Each trace entry pairs a TCP read outcome with whether the serial write
/// that followed it (if any) succeeded.
pub open spec fn session_delivered(evs: Seq<(TcpRead, bool)>) -> Seq<u8>
    decreases evs.len(),
{
    if evs.len() == 0 {
        Seq::empty()
    } else {
        match evs.first().0 {
            TcpRead::Data(b) => if evs.first().1 {
                b@ + session_delivered(evs.drop_first())
            } else {
                b@
            },
            TcpRead::Failed => Seq::empty(),
            _ => session_delivered(evs.drop_first()),
        }
    }
}

/// Executable model of the supervisor's relay loop over a recorded trace
/// with the shutdown flag held up: the serial device receives exactly the
/// chunks read from the TCP client, in order, up to the first failure.
pub fn run_session(evs: Vec<(TcpRead, bool)>) -> (out: Vec<u8>)
    ensures
        out@ == session_delivered(evs@),
{
    let ghost all = evs@;
    let mut queue = evs;
    let mut out: Vec<u8> = Vec::new();
    proof {
        assert(Seq::<u8>::empty() + session_delivered(all) =~= session_delivered(all));
    }
    while queue.len() > 0
        invariant
            all == evs@,
            session_delivered(all) == out@ + session_delivered(queue@),
        decreases queue.len(),
    {
        let ghost prev = queue@;
        let ghost out_prev = out@;
        let (ev, write_ok) = queue.remove(0);
        let ghost evg = ev;
        proof {
            assert((evg, write_ok) == prev.first());
            assert(queue@ =~= prev.drop_first());
        }
        match session_step(true, ev) {
            SessionStep::Relay(mut b) => {
                let ghost bv = b@;
                out.append(&mut b);
                proof {
                    assert(evg is Data);
                }
                if !session_survives_write(write_ok) {
                    proof {
                        assert(session_delivered(prev) == bv);
                    }
                    return out;
                }
                proof {
                    assert(session_delivered(prev) == bv + session_delivered(queue@));
                    assert((out_prev + bv) + session_delivered(queue@) =~= out_prev + (bv
                        + session_delivered(queue@)));
                }
            },
            SessionStep::Idle => {},
            SessionStep::End => {
                proof {
                    assert(session_delivered(prev) =~= Seq::<u8>::empty());
                    assert(out@ + session_delivered(prev) =~= out@);
                }
                return out;
            },
        }
    }
    proof {
        assert(out@ + session_delivered(queue@) =~= out@);
    }
    out
}

/// The bytes a session trace's reads carry, in order, failures aside.
pub open spec fn tcp_chunks(evs: Seq<(TcpRead, bool)>) -> Seq<u8>
    decreases evs.len(),
{
    if evs.len() == 0 {
        Seq::empty()
    } else {
        tcp_chunks(evs.drop_last()) + tcp_payload(evs.last().0)
    }
}

/// Law: barring induced I/O failure, a session delivers to the serial
/// device every byte the TCP client sent, identical in content and order.
/// Together with [`run_forward`]'s contract this is the round-trip relay
/// property, one direction each.
pub proof fn lemma_session_delivers_all(evs: Seq<(TcpRead, bool)>)
    requires
        forall|i: int| 0 <= i < evs.len() ==> !((#[trigger] evs[i]).0 is Failed) && evs[i].1,
    ensures
        session_delivered(evs) == tcp_chunks(evs),
    decreases evs.len(),
{
    if evs.len() > 0 {
        assert(evs[0] == evs.first());
        lemma_session_delivers_all(evs.drop_first());
        lemma_tcp_chunks_first(evs);
    }
}

/// Reads `tcp_chunks` off the front instead of the back.
proof fn lemma_tcp_chunks_first(evs: Seq<(TcpRead, bool)>)
    requires
        evs.len() > 0,
    ensures
        tcp_chunks(evs) == tcp_payload(evs.first().0) + tcp_chunks(evs.drop_first()),
    decreases evs.len(),
{
    if evs.len() == 1 {
        assert(evs.drop_last() =~= Seq::<(TcpRead, bool)>::empty());
        assert(evs.drop_first() =~= Seq::<(TcpRead, bool)>::empty());
        assert(evs.last() == evs.first());
        assert(Seq::<u8>::empty() + tcp_payload(evs.first().0) =~= tcp_payload(evs.first().0)
            + Seq::<u8>::empty());
    } else {
        lemma_tcp_chunks_first(evs.drop_last());
        assert(evs.drop_last().drop_first() =~= evs.drop_first().drop_last());
        assert(evs.drop_last().first() == evs.first());
        assert(evs.drop_first().last() == evs.last());
        assert((tcp_payload(evs.first().0) + tcp_chunks(evs.drop_first().drop_last()))
            + tcp_payload(evs.drop_first().last().0) =~= tcp_payload(evs.first().0) + (tcp_chunks(
            evs.drop_first().drop_last(),
        ) + tcp_payload(evs.drop_first().last().0)));
    }
}

} // verus!
