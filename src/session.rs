//! The lifecycle of one transport session:
//! `Connecting -> Established -> Draining -> Closed`, the single stream that
//! a transfer uses, and the session's cumulative statistics.
use vstd::prelude::*;

verus! {

/// Where a session stands in its lifecycle.
#[derive(Clone, Copy, Debug, PartialEq, Eq, Structural)]
pub enum SessionPhase {
    /// The handshake is under way.
    Connecting,
    /// The handshake completed: the peer's identity is established.
    Established,
    /// A close was initiated; in-flight data is still being acknowledged.
    Draining,
    /// Terminal.
    Closed,
}

/// Which side of the handshake this process is.
#[derive(Clone, Copy, Debug, PartialEq, Eq, Structural)]
pub enum Role {
    /// Connects, and opens the transfer's stream.
    Initiator,
    /// Accepts the connection, and the stream the peer opens.
    Acceptor,
}

/// What can happen to a session.
#[derive(Clone, Copy, Debug, PartialEq, Eq, Structural)]
pub enum SessionEvent {
    HandshakeSucceeded,
    HandshakeFailed,
    OpenStream,
    AcceptStream,
    Close,
    DrainComplete,
}

/// The session's state, as far as its rules are concerned.
pub struct SessionView {
    pub phase: SessionPhase,
    pub role: Role,
    pub stream_open: bool,
}

/// Whether the session's rules allow `e` in state `v`. Streams exist only on
/// an established session, one per session, opened by the initiator and
/// accepted by the acceptor; a handshake ends only while connecting; nothing
/// leaves `Closed`.
pub open spec fn permits(v: SessionView, e: SessionEvent) -> bool {
    match e {
        SessionEvent::HandshakeSucceeded => v.phase == SessionPhase::Connecting,
        SessionEvent::HandshakeFailed => v.phase == SessionPhase::Connecting,
        SessionEvent::OpenStream => v.phase == SessionPhase::Established && v.role == Role::Initiator
            && !v.stream_open,
        SessionEvent::AcceptStream => v.phase == SessionPhase::Established && v.role
            == Role::Acceptor && !v.stream_open,
        SessionEvent::Close => v.phase == SessionPhase::Connecting || v.phase
            == SessionPhase::Established,
        SessionEvent::DrainComplete => v.phase == SessionPhase::Draining,
    }
}

/// The state after a permitted event.
pub open spec fn after(v: SessionView, e: SessionEvent) -> SessionView {
    match e {
        SessionEvent::HandshakeSucceeded => SessionView { phase: SessionPhase::Established, ..v },
        SessionEvent::HandshakeFailed => SessionView { phase: SessionPhase::Closed, ..v },
        SessionEvent::OpenStream => SessionView { stream_open: true, ..v },
        SessionEvent::AcceptStream => SessionView { stream_open: true, ..v },
        SessionEvent::Close => if v.phase == SessionPhase::Connecting {
            SessionView { phase: SessionPhase::Closed, ..v }
        } else {
            SessionView { phase: SessionPhase::Draining, ..v }
        },
        SessionEvent::DrainComplete => SessionView { phase: SessionPhase::Closed, ..v },
    }
}

/// One step: a permitted event moves the state, any other is refused and
/// leaves it as it was.
pub open spec fn step(v: SessionView, e: SessionEvent) -> SessionView {
    if permits(v, e) {
        after(v, e)
    } else {
        v
    }
}

/// The state after a sequence of events, each applied by `step`.
pub open spec fn run(v: SessionView, events: Seq<SessionEvent>) -> SessionView
    decreases events.len(),
{
    if events.len() == 0 {
        v
    } else {
        run(step(v, events[0]), events.drop_first())
    }
}

/// A new session of the given role, in the middle of its handshake.
pub open spec fn initial(role: Role) -> SessionView {
    SessionView { phase: SessionPhase::Connecting, role, stream_open: false }
}

/// Closed is terminal: after it, every sequence of events leaves the session
/// closed, and no handshake can end in it (a new one can never begin).
pub proof fn closed_is_terminal(v: SessionView, events: Seq<SessionEvent>)
    requires
        v.phase == SessionPhase::Closed,
    ensures
        run(v, events).phase == SessionPhase::Closed,
        forall|e: SessionEvent| #![auto] permits(v, e) ==> false,
    decreases events.len(),
{
    if events.len() > 0 {
        closed_is_terminal(step(v, events[0]), events.drop_first());
    }
}

/// Streams wait for the handshake: in a session that started out connecting,
/// a stream may be opened or accepted only while it is established, and only
/// after a successful handshake was among the events it went through.
pub proof fn no_stream_before_established(role: Role, events: Seq<SessionEvent>)
    ensures
        ({
            let v = run(initial(role), events);
            (permits(v, SessionEvent::OpenStream) || permits(v, SessionEvent::AcceptStream)
                || v.phase == SessionPhase::Established) ==> v.phase == SessionPhase::Established
                && events.contains(SessionEvent::HandshakeSucceeded)
        }),
{
    connecting_needs_handshake(initial(role), events);
}

proof fn connecting_needs_handshake(v: SessionView, events: Seq<SessionEvent>)
    requires
        v.phase == SessionPhase::Connecting,
        !v.stream_open,
    ensures
        run(v, events).phase == SessionPhase::Established || run(v, events).phase
            == SessionPhase::Draining || run(v, events).stream_open ==> events.contains(
            SessionEvent::HandshakeSucceeded,
        ),
    decreases events.len(),
{
    if events.len() > 0 {
        let e = events[0];
        let next = step(v, e);
        if e == SessionEvent::HandshakeSucceeded {
            assert(events[0] == SessionEvent::HandshakeSucceeded);
        } else if next.phase == SessionPhase::Closed {
            closed_is_terminal(next, events.drop_first());
            stays_closed_without_stream(next, events.drop_first());
        } else {
            connecting_needs_handshake(next, events.drop_first());
            if events.drop_first().contains(SessionEvent::HandshakeSucceeded) {
                let i = choose|i: int|
                    0 <= i < events.drop_first().len() && events.drop_first()[i]
                        == SessionEvent::HandshakeSucceeded;
                assert(events[i + 1] == SessionEvent::HandshakeSucceeded);
            }
        }
    }
}

proof fn stays_closed_without_stream(v: SessionView, events: Seq<SessionEvent>)
    requires
        v.phase == SessionPhase::Closed,
    ensures
        run(v, events) == v,
    decreases events.len(),
{
    if events.len() > 0 {
        assert(step(v, events[0]) == v);
        stays_closed_without_stream(v, events.drop_first());
    }
}

/// Cumulative counters of a session, as one point-in-time copy.
#[derive(Clone, Copy, Debug, PartialEq, Eq, Structural)]
pub struct StatsSnapshot {
    pub bytes_sent: u64,
    pub bytes_received: u64,
    pub frames_sent: u64,
    pub frames_received: u64,
}

pub open spec fn max_u64(a: u64, b: u64) -> u64 {
    if a >= b {
        a
    } else {
        b
    }
}

/// Counters only grow: each of them keeps the larger of what was known and
/// what a new sample says.
pub open spec fn merged(known: StatsSnapshot, sample: StatsSnapshot) -> StatsSnapshot {
    StatsSnapshot {
        bytes_sent: max_u64(known.bytes_sent, sample.bytes_sent),
        bytes_received: max_u64(known.bytes_received, sample.bytes_received),
        frames_sent: max_u64(known.frames_sent, sample.frames_sent),
        frames_received: max_u64(known.frames_received, sample.frames_received),
    }
}

/// The larger of two counters.
pub fn larger(a: u64, b: u64) -> (r: u64)
    ensures
        r == max_u64(a, b),
{
    if a >= b {
        a
    } else {
        b
    }
}

impl StatsSnapshot {
    pub open spec fn spec_zero() -> StatsSnapshot {
        StatsSnapshot { bytes_sent: 0, bytes_received: 0, frames_sent: 0, frames_received: 0 }
    }

    /// All counters at zero.
    pub fn zero() -> (r: StatsSnapshot)
        ensures
            r == StatsSnapshot::spec_zero(),
    {
        StatsSnapshot { bytes_sent: 0, bytes_received: 0, frames_sent: 0, frames_received: 0 }
    }

    /// Whether every counter of `self` is at least the one of `other`.
    pub open spec fn dominates(self, other: StatsSnapshot) -> bool {
        &&& self.bytes_sent >= other.bytes_sent
        &&& self.bytes_received >= other.bytes_received
        &&& self.frames_sent >= other.frames_sent
        &&& self.frames_received >= other.frames_received
    }
}

/// Why a session refused an event.
#[derive(Clone, Copy, Debug, PartialEq, Eq, Structural)]
pub enum SessionError {
    /// The event is not allowed in the phase the session is in.
    NotPermitted(SessionPhase, SessionEvent),
}

/// One session: its phase, its role, whether its stream exists, and the
/// last known statistics.
pub struct Session {
    phase: SessionPhase,
    role: Role,
    stream_open: bool,
    stats: StatsSnapshot,
}

impl View for Session {
    type V = SessionView;

    closed spec fn view(&self) -> SessionView {
        SessionView { phase: self.phase, role: self.role, stream_open: self.stream_open }
    }
}

impl Session {
    /// The last known statistics.
    pub closed spec fn spec_stats(&self) -> StatsSnapshot {
        self.stats
    }

    /// A session whose handshake has begun.
    pub fn new(role: Role) -> (r: Session)
        ensures
            r@ == initial(role),
            r.spec_stats() == StatsSnapshot::spec_zero(),
    {
        Session {
            phase: SessionPhase::Connecting,
            role,
            stream_open: false,
            stats: StatsSnapshot { bytes_sent: 0, bytes_received: 0, frames_sent: 0, frames_received: 0 },
        }
    }

    pub fn phase(&self) -> (r: SessionPhase)
        ensures
            r == self@.phase,
    {
        self.phase
    }

    pub fn role(&self) -> (r: Role)
        ensures
            r == self@.role,
    {
        self.role
    }

    /// Applies `e` if the session's rules allow it; otherwise refuses it and
    /// changes nothing.
    pub fn apply(&mut self, e: SessionEvent) -> (r: Result<(), SessionError>)
        ensures
            r is Ok <==> permits(old(self)@, e),
            final(self)@ == step(old(self)@, e),
            r is Err ==> r == Err::<(), SessionError>(SessionError::NotPermitted(old(self)@.phase, e)),
            final(self).spec_stats() == old(self).spec_stats(),
    {
        let allowed = match e {
            SessionEvent::HandshakeSucceeded => self.phase == SessionPhase::Connecting,
            SessionEvent::HandshakeFailed => self.phase == SessionPhase::Connecting,
            SessionEvent::OpenStream => self.phase == SessionPhase::Established && self.role
                == Role::Initiator && !self.stream_open,
            SessionEvent::AcceptStream => self.phase == SessionPhase::Established && self.role
                == Role::Acceptor && !self.stream_open,
            SessionEvent::Close => self.phase == SessionPhase::Connecting || self.phase
                == SessionPhase::Established,
            SessionEvent::DrainComplete => self.phase == SessionPhase::Draining,
        };
        if !allowed {
            return Err(SessionError::NotPermitted(self.phase, e));
        }
        match e {
            SessionEvent::HandshakeSucceeded => self.phase = SessionPhase::Established,
            SessionEvent::HandshakeFailed => self.phase = SessionPhase::Closed,
            SessionEvent::OpenStream => self.stream_open = true,
            SessionEvent::AcceptStream => self.stream_open = true,
            SessionEvent::Close => {
                if self.phase == SessionPhase::Connecting {
                    self.phase = SessionPhase::Closed;
                } else {
                    self.phase = SessionPhase::Draining;
                }
            },
            SessionEvent::DrainComplete => self.phase = SessionPhase::Closed,
        }
        Ok(())
    }

    /// Records the end of the handshake, successful or not.
    pub fn handshake_finished(&mut self, succeeded: bool) -> (r: Result<(), SessionError>)
        ensures
            ({
                let e = if succeeded {
                    SessionEvent::HandshakeSucceeded
                } else {
                    SessionEvent::HandshakeFailed
                };
                &&& r is Ok <==> permits(old(self)@, e)
                &&& final(self)@ == step(old(self)@, e)
            }),
            final(self).spec_stats() == old(self).spec_stats(),
    {
        if succeeded {
            self.apply(SessionEvent::HandshakeSucceeded)
        } else {
            self.apply(SessionEvent::HandshakeFailed)
        }
    }

    /// Opens the transfer's stream (initiator side).
    pub fn open_stream(&mut self) -> (r: Result<(), SessionError>)
        ensures
            r is Ok <==> permits(old(self)@, SessionEvent::OpenStream),
            final(self)@ == step(old(self)@, SessionEvent::OpenStream),
            final(self).spec_stats() == old(self).spec_stats(),
    {
        self.apply(SessionEvent::OpenStream)
    }

    /// Accepts the transfer's stream (acceptor side).
    pub fn accept_stream(&mut self) -> (r: Result<(), SessionError>)
        ensures
            r is Ok <==> permits(old(self)@, SessionEvent::AcceptStream),
            final(self)@ == step(old(self)@, SessionEvent::AcceptStream),
            final(self).spec_stats() == old(self).spec_stats(),
    {
        self.apply(SessionEvent::AcceptStream)
    }

    /// Best-effort, idempotent close: a connecting session closes at once, an
    /// established one starts draining, one already draining or closed stays
    /// as it is.
    pub fn close(&mut self)
        ensures
            final(self)@ == step(old(self)@, SessionEvent::Close),
            final(self).spec_stats() == old(self).spec_stats(),
    {
        let _ = self.apply(SessionEvent::Close);
    }

    /// Records that all in-flight data was acknowledged (or the drain timed
    /// out).
    pub fn drained(&mut self) -> (r: Result<(), SessionError>)
        ensures
            r is Ok <==> permits(old(self)@, SessionEvent::DrainComplete),
            final(self)@ == step(old(self)@, SessionEvent::DrainComplete),
            final(self).spec_stats() == old(self).spec_stats(),
    {
        self.apply(SessionEvent::DrainComplete)
    }

    /// Takes in a sample of the transport's counters. Known counters never
    /// go down, and a closed session keeps its last known values.
    pub fn observe(&mut self, sample: StatsSnapshot)
        ensures
            final(self)@ == old(self)@,
            old(self)@.phase == SessionPhase::Closed ==> final(self).spec_stats() == old(self).spec_stats(),
            old(self)@.phase != SessionPhase::Closed ==> final(self).spec_stats() == merged(
                old(self).spec_stats(),
                sample,
            ),
            final(self).spec_stats().dominates(old(self).spec_stats()),
    {
        if self.phase != SessionPhase::Closed {
            self.stats = StatsSnapshot {
                bytes_sent: larger(self.stats.bytes_sent, sample.bytes_sent),
                bytes_received: larger(self.stats.bytes_received, sample.bytes_received),
                frames_sent: larger(self.stats.frames_sent, sample.frames_sent),
                frames_received: larger(self.stats.frames_received, sample.frames_received),
            };
        }
    }

    /// A copy of the last known statistics; never fails.
    pub fn stats(&self) -> (r: StatsSnapshot)
        ensures
            r == self.spec_stats(),
    {
        self.stats
    }
}

} // verus!
