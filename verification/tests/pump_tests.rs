use serial2tcp::pump::{
    forward_step, run_forward, run_session, session_step, session_survives_write, ForwardStep,
    SerialRead, SessionStep, TcpRead,
};

#[test]
fn serial_chunk_reaches_client_exactly() {
    let out = run_forward(vec![SerialRead::Data(vec![0xAA])]);
    assert_eq!(out, vec![0xAA]);
}

#[test]
fn tcp_chunk_reaches_serial_exactly() {
    let out = run_session(vec![(TcpRead::Data(vec![0x01, 0x02, 0x03]), true)]);
    assert_eq!(out, vec![0x01, 0x02, 0x03]);
}

#[test]
fn forward_keeps_order_and_content() {
    let out = run_forward(vec![
        SerialRead::Data(vec![1, 2]),
        SerialRead::Empty,
        SerialRead::TimedOut,
        SerialRead::Data(vec![3]),
        SerialRead::Failed,
        SerialRead::Data(vec![4, 5]),
    ]);
    assert_eq!(out, vec![1, 2, 3, 4, 5]);
}

#[test]
fn session_keeps_order_until_read_failure() {
    let out = run_session(vec![
        (TcpRead::Data(vec![1]), true),
        (TcpRead::Empty, true),
        (TcpRead::Data(vec![2, 3]), true),
        (TcpRead::Failed, true),
        (TcpRead::Data(vec![9]), true),
    ]);
    assert_eq!(out, vec![1, 2, 3]);
}

#[test]
fn session_stops_after_write_failure() {
    let out = run_session(vec![
        (TcpRead::Data(vec![1]), false),
        (TcpRead::Data(vec![9]), true),
    ]);
    assert_eq!(out, vec![1]);
}

#[test]
fn forward_step_decisions() {
    assert!(matches!(forward_step(false, SerialRead::Empty), ForwardStep::Stop));
    assert!(matches!(
        forward_step(false, SerialRead::Data(vec![7])),
        ForwardStep::Stop
    ));
    assert!(matches!(forward_step(true, SerialRead::Empty), ForwardStep::Idle));
    assert!(matches!(forward_step(true, SerialRead::TimedOut), ForwardStep::Idle));
    assert!(matches!(forward_step(true, SerialRead::Failed), ForwardStep::Warn));
    match forward_step(true, SerialRead::Data(vec![7, 8])) {
        ForwardStep::Forward(b) => assert_eq!(b, vec![7, 8]),
        _ => panic!("a chunk must be forwarded"),
    }
}

#[test]
fn session_step_decisions() {
    assert!(matches!(session_step(false, TcpRead::Empty), SessionStep::End));
    assert!(matches!(
        session_step(false, TcpRead::Data(vec![7])),
        SessionStep::End
    ));
    assert!(matches!(session_step(true, TcpRead::Empty), SessionStep::Idle));
    assert!(matches!(session_step(true, TcpRead::TimedOut), SessionStep::Idle));
    assert!(matches!(session_step(true, TcpRead::Failed), SessionStep::End));
    match session_step(true, TcpRead::Data(vec![4])) {
        SessionStep::Relay(b) => assert_eq!(b, vec![4]),
        _ => panic!("a chunk must be relayed"),
    }
    assert!(session_survives_write(true));
    assert!(!session_survives_write(false));
}
