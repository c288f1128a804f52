use quic_send::copier::{CopyAction, CopyError, CopyPhase, Copier, TransferStats};
use quic_send::telemetry::{Telemetry, TelemetryAction};
use quic_send::session::StatsSnapshot;

fn copy_all(chunks: &[&[u8]]) -> (Vec<u8>, Copier) {
    let mut copier = Copier::new();
    let mut sink = Vec::new();
    for chunk in chunks {
        match copier.on_read(chunk) {
            CopyAction::WriteAll => sink.extend_from_slice(chunk),
            other => panic!("unexpected {:?}", other),
        }
    }
    assert_eq!(copier.on_read(&[]), CopyAction::Finish);
    (sink, copier)
}

#[test]
fn empty_payload_gives_empty_file() {
    let (sink, copier) = copy_all(&[]);
    assert!(sink.is_empty());
    assert_eq!(copier.bytes_copied(), 0);
    assert_eq!(copier.phase(), CopyPhase::Done);
    let stats = copier.transfer_stats(40);
    assert_eq!(stats, TransferStats { bytes_copied: 0, elapsed_micros: 40 });
    assert_eq!(stats.throughput(), 0);
}

#[test]
fn payload_arrives_byte_identical() {
    let payload: Vec<u8> = (0..=255u8).cycle().take(1000).collect();
    let sent: Vec<&[u8]> = payload.chunks(300).collect();
    let (wire, sender) = copy_all(&sent);
    assert_eq!(sender.bytes_copied(), 1000);
    let received: Vec<&[u8]> = wire.chunks(7).collect();
    let (file, receiver) = copy_all(&received);
    assert_eq!(file, payload);
    assert_eq!(receiver.bytes_copied(), 1000);
}

#[test]
fn read_failure_abandons_copy() {
    let mut copier = Copier::new();
    assert_eq!(copier.on_read(&[1, 2]), CopyAction::WriteAll);
    assert_eq!(copier.on_failure(CopyError::Read), CopyAction::Fail(CopyError::Read));
    assert_eq!(copier.phase(), CopyPhase::Failed);
    assert_eq!(copier.on_read(&[3]), CopyAction::Fail(CopyError::Ended));
    assert_eq!(copier.bytes_copied(), 2);
}

#[test]
fn throughput_values() {
    assert_eq!(TransferStats { bytes_copied: 1000, elapsed_micros: 500_000 }.throughput(), 2000);
    assert_eq!(TransferStats { bytes_copied: 3, elapsed_micros: 2 }.throughput(), 1_500_000);
    assert_eq!(TransferStats { bytes_copied: 0, elapsed_micros: 10 }.throughput(), 0);
    assert_eq!(TransferStats { bytes_copied: 10, elapsed_micros: 0 }.throughput(), 0);
    assert_eq!(
        TransferStats { bytes_copied: u64::MAX, elapsed_micros: 1 }.throughput(),
        u64::MAX as u128 * 1_000_000
    );
}

#[test]
fn telemetry_stops_quietly_after_close() {
    let mut t = Telemetry::new();
    let s = StatsSnapshot { bytes_sent: 5, bytes_received: 1, frames_sent: 2, frames_received: 1 };
    assert_eq!(t.tick(Some(s)), TelemetryAction::Report(s));
    assert_eq!(t.reports, 1);
    assert_eq!(t.tick(None), TelemetryAction::Stop);
    assert!(t.stopped);
    assert_eq!(t.tick(Some(s)), TelemetryAction::Stop);
    assert_eq!(t.reports, 1);
}

#[test]
fn telemetry_reports_never_go_down() {
    let mut t = Telemetry::new();
    let a = StatsSnapshot { bytes_sent: 9, bytes_received: 1, frames_sent: 2, frames_received: 1 };
    let b = StatsSnapshot { bytes_sent: 4, bytes_received: 8, frames_sent: 2, frames_received: 3 };
    t.tick(Some(a));
    let expected = StatsSnapshot { bytes_sent: 9, bytes_received: 8, frames_sent: 2, frames_received: 3 };
    assert_eq!(t.tick(Some(b)), TelemetryAction::Report(expected));
}
