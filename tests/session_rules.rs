use quic_send::session::{Role, Session, SessionError, SessionEvent, SessionPhase, StatsSnapshot};

fn snapshot(a: u64, b: u64, c: u64, d: u64) -> StatsSnapshot {
    StatsSnapshot { bytes_sent: a, bytes_received: b, frames_sent: c, frames_received: d }
}

#[test]
fn no_stream_before_established() {
    let mut s = Session::new(Role::Initiator);
    assert_eq!(
        s.open_stream(),
        Err(SessionError::NotPermitted(SessionPhase::Connecting, SessionEvent::OpenStream))
    );
    assert_eq!(s.handshake_finished(true), Ok(()));
    assert_eq!(s.phase(), SessionPhase::Established);
    assert_eq!(s.open_stream(), Ok(()));
    assert!(s.open_stream().is_err());
}

#[test]
fn acceptor_accepts_and_does_not_open() {
    let mut s = Session::new(Role::Acceptor);
    assert!(s.accept_stream().is_err());
    s.handshake_finished(true).unwrap();
    assert!(s.open_stream().is_err());
    assert_eq!(s.accept_stream(), Ok(()));
}

#[test]
fn failed_handshake_closes_for_good() {
    let mut s = Session::new(Role::Initiator);
    assert_eq!(s.handshake_finished(false), Ok(()));
    assert_eq!(s.phase(), SessionPhase::Closed);
    assert!(s.handshake_finished(true).is_err());
    assert!(s.open_stream().is_err());
    s.close();
    assert_eq!(s.phase(), SessionPhase::Closed);
}

#[test]
fn close_drains_then_closes() {
    let mut s = Session::new(Role::Initiator);
    s.handshake_finished(true).unwrap();
    s.close();
    assert_eq!(s.phase(), SessionPhase::Draining);
    s.close();
    assert_eq!(s.phase(), SessionPhase::Draining);
    assert_eq!(s.drained(), Ok(()));
    assert_eq!(s.phase(), SessionPhase::Closed);
    assert!(s.drained().is_err());
    assert!(s.apply(SessionEvent::HandshakeSucceeded).is_err());
}

#[test]
fn counters_never_go_down() {
    let mut s = Session::new(Role::Acceptor);
    assert_eq!(s.stats(), StatsSnapshot::zero());
    s.observe(snapshot(10, 20, 3, 4));
    s.observe(snapshot(5, 25, 3, 2));
    assert_eq!(s.stats(), snapshot(10, 25, 3, 4));
}

#[test]
fn closed_session_keeps_last_stats() {
    let mut s = Session::new(Role::Acceptor);
    s.observe(snapshot(1, 2, 3, 4));
    s.handshake_finished(false).unwrap();
    s.observe(snapshot(100, 100, 100, 100));
    assert_eq!(s.stats(), snapshot(1, 2, 3, 4));
}
