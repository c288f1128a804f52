//! The telemetry loop's decisions: on each tick it reports the session's
//! counters, and it ends quietly once sampling fails.
use crate::session::{larger, merged, StatsSnapshot};
use vstd::prelude::*;

verus! {

/// What the telemetry task does after a tick.
#[derive(Clone, Copy, Debug, PartialEq, Eq, Structural)]
pub enum TelemetryAction {
    /// Print this report and wait for the next tick.
    Report(StatsSnapshot),
    /// End the loop; nothing is reported to the transfer.
    Stop,
}

/// The telemetry loop of one session.
pub struct Telemetry {
    pub last: StatsSnapshot,
    pub reports: u64,
    pub stopped: bool,
}

impl Telemetry {
    pub fn new() -> (r: Telemetry)
        ensures
            r.last == StatsSnapshot::spec_zero(),
            r.reports == 0,
            !r.stopped,
    {
        Telemetry { last: StatsSnapshot::zero(), reports: 0, stopped: false }
    }

    /// Takes one sample of the session's counters: `None` when sampling
    /// failed, as it does once the session is closed. A failed sample ends
    /// the loop for good; a stopped loop reports nothing more. Counters in a
    /// report never go down.
    pub fn tick(&mut self, sample: Option<StatsSnapshot>) -> (r: TelemetryAction)
        ensures
            old(self).stopped || sample is None ==> r == TelemetryAction::Stop && final(self).stopped
                && final(self).last == old(self).last && final(self).reports == old(self).reports,
            !old(self).stopped && sample is Some ==> ({
                let s = merged(old(self).last, sample->Some_0);
                &&& r == TelemetryAction::Report(s)
                &&& final(self).last == s
                &&& !final(self).stopped
                &&& final(self).reports == if old(self).reports == u64::MAX {
                    u64::MAX as int
                } else {
                    old(self).reports + 1
                }
            }),
            r == tick_action(*old(self), sample),
    {
        if self.stopped {
            return TelemetryAction::Stop;
        }
        match sample {
            None => {
                self.stopped = true;
                TelemetryAction::Stop
            },
            Some(s) => {
                let known = StatsSnapshot {
                    bytes_sent: larger(self.last.bytes_sent, s.bytes_sent),
                    bytes_received: larger(self.last.bytes_received, s.bytes_received),
                    frames_sent: larger(self.last.frames_sent, s.frames_sent),
                    frames_received: larger(self.last.frames_received, s.frames_received),
                };
                self.last = known;
                self.reports = self.reports.saturating_add(1);
                TelemetryAction::Report(known)
            },
        }
    }
}

/// Once a sample has failed, every later tick stops the loop, whatever it
/// samples, and the last report stays as it was.
pub proof fn stopped_telemetry_stays_stopped(t: Telemetry, samples: Seq<Option<StatsSnapshot>>)
    requires
        t.stopped,
    ensures
        forall|i: int| 0 <= i < samples.len() ==> tick_action(t, #[trigger] samples[i]) == TelemetryAction::Stop,
{
}

/// What a tick does, as a function of the loop's state and the sample.
pub open spec fn tick_action(t: Telemetry, sample: Option<StatsSnapshot>) -> TelemetryAction {
    if t.stopped || sample is None {
        TelemetryAction::Stop
    } else {
        TelemetryAction::Report(merged(t.last, sample->Some_0))
    }
}

} // verus!
