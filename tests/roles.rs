use quic_send::driver::{Receiver, ReceiverStep, Sender, SenderStep, TransferError};
use quic_send::session::{SessionPhase, StatsSnapshot};
use quic_send::trust::TrustError;

#[test]
fn sender_runs_through_its_steps() {
    let mut s = Sender::new();
    let steps = [
        SenderStep::OpenStream,
        SenderStep::CopyFile,
        SenderStep::FinishStream,
        SenderStep::Close,
        SenderStep::WaitIdle,
        SenderStep::Done,
    ];
    assert_eq!(s.step(), SenderStep::Connect);
    assert_eq!(s.exit_code(), None);
    for expected in steps {
        assert_eq!(s.advance(Ok(())), expected);
    }
    assert_eq!(s.session().phase(), SessionPhase::Closed);
    assert_eq!(s.exit_code(), Some(0));
}

#[test]
fn zero_byte_transfer_succeeds_on_both_sides() {
    let mut s = Sender::new();
    let mut r = Receiver::new();
    while s.exit_code().is_none() {
        s.advance(Ok(()));
    }
    while r.exit_code().is_none() {
        r.advance(Ok(()));
    }
    assert_eq!(s.exit_code(), Some(0));
    assert_eq!(r.exit_code(), Some(0));
    assert!(r.file_created());
    assert_eq!(r.session().phase(), SessionPhase::Draining);
}

#[test]
fn untrusted_root_fails_before_any_stream() {
    let mut s = Sender::new();
    let err = TransferError::Trust(TrustError::UntrustedChain);
    assert_eq!(s.advance(Err(err)), SenderStep::Failed(err));
    assert_eq!(s.session().phase(), SessionPhase::Closed);
    assert_eq!(s.exit_code(), Some(1));
    assert_eq!(s.advance(Ok(())), SenderStep::Failed(err));

    let mut r = Receiver::new();
    assert_eq!(r.advance(Ok(())), ReceiverStep::Accept);
    assert_eq!(r.advance(Err(TransferError::Handshake)), ReceiverStep::Failed(TransferError::Handshake));
    assert!(!r.file_created());
    assert_eq!(r.session().phase(), SessionPhase::Closed);
    assert_eq!(r.exit_code(), Some(1));
}

#[test]
fn receiver_without_sender_waits_without_a_file() {
    let mut r = Receiver::new();
    assert_eq!(r.advance(Ok(())), ReceiverStep::Accept);
    assert_eq!(r.step(), ReceiverStep::Accept);
    assert!(!r.file_created());
    assert_eq!(r.exit_code(), None);
    assert_eq!(r.session().phase(), SessionPhase::Connecting);
}

#[test]
fn bind_failure_is_fatal() {
    let mut r = Receiver::new();
    assert_eq!(r.advance(Err(TransferError::Bind)), ReceiverStep::Failed(TransferError::Bind));
    assert_eq!(r.exit_code(), Some(1));
    assert!(!r.file_created());
}

#[test]
fn copy_failure_after_file_creation_is_fatal() {
    let mut r = Receiver::new();
    for _ in 0..4 {
        r.advance(Ok(()));
    }
    assert_eq!(r.step(), ReceiverStep::CopyToFile);
    assert!(r.file_created());
    let err = TransferError::Io(quic_send::copier::CopyError::Read);
    assert_eq!(r.advance(Err(err)), ReceiverStep::Failed(err));
    assert_eq!(r.session().phase(), SessionPhase::Draining);
}

#[test]
fn role_session_counters_follow_samples() {
    let mut s = Sender::new();
    s.advance(Ok(()));
    s.observe(StatsSnapshot { bytes_sent: 7, bytes_received: 3, frames_sent: 2, frames_received: 1 });
    s.observe(StatsSnapshot { bytes_sent: 5, bytes_received: 9, frames_sent: 2, frames_received: 1 });
    assert_eq!(
        s.stats(),
        StatsSnapshot { bytes_sent: 7, bytes_received: 9, frames_sent: 2, frames_received: 1 }
    );
    assert_eq!(s.step(), SenderStep::OpenStream);

    let mut r = Receiver::new();
    r.advance(Err(TransferError::Bind));
    r.observe(StatsSnapshot { bytes_sent: 1, bytes_received: 1, frames_sent: 1, frames_received: 1 });
    assert_eq!(r.stats(), StatsSnapshot::zero());
}
