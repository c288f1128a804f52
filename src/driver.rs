//! The two roles of a transfer as step machines. The caller performs each
//! step (connect, open the stream, copy, ...) and hands its outcome back; the
//! machine says what comes next and keeps the session's lifecycle in step.
//! Every failure is fatal: there is no retry.
use crate::copier::CopyError;
use crate::server_trust::ConfigError;
use crate::session::{
    Role, Session, SessionEvent, SessionPhase, SessionView, StatsSnapshot, initial, merged, permits,
};
use crate::trust::TrustError;
use vstd::prelude::*;

verus! {

/// Why a transfer failed.
#[derive(Clone, Copy, Debug, PartialEq, Eq, Structural)]
pub enum TransferError {
    /// Malformed trust material.
    Config(ConfigError),
    /// The local address is unavailable.
    Bind,
    /// The peer rejected, timed out or aborted the handshake.
    Handshake,
    /// The server's certificate was not accepted.
    Trust(TrustError),
    /// Local resources or the address stood in the way of connecting.
    Connect,
    /// Reading or writing the file or the stream failed.
    Io(CopyError),
}

/// The sender's steps, in order.
#[derive(Clone, Copy, Debug, PartialEq, Eq, Structural)]
pub enum SenderStep {
    /// Connect to the receiver (the handshake).
    Connect,
    /// Open the transfer's stream.
    OpenStream,
    /// Copy the file into the stream.
    CopyFile,
    /// Half-close the stream: no more data from this side.
    FinishStream,
    /// Close the session with the "done" reason.
    Close,
    /// Wait until the peer has acknowledged the close.
    WaitIdle,
    /// The transfer succeeded.
    Done,
    /// The transfer failed, with this error.
    Failed(TransferError),
}

/// The receiver's steps, in order.
#[derive(Clone, Copy, Debug, PartialEq, Eq, Structural)]
pub enum ReceiverStep {
    /// Bind the local endpoint.
    Listen,
    /// Wait for one incoming handshake to complete.
    Accept,
    /// Accept the stream the sender opens.
    AcceptStream,
    /// Create the output file.
    CreateFile,
    /// Copy the stream into the file.
    CopyToFile,
    /// The transfer succeeded.
    Done,
    /// The transfer failed, with this error.
    Failed(TransferError),
}

/// The sender's next step: success moves on by one, failure is final.
pub open spec fn sender_next(step: SenderStep, outcome: Result<(), TransferError>) -> SenderStep {
    match step {
        SenderStep::Done => step,
        SenderStep::Failed(_) => step,
        _ => match outcome {
            Err(e) => SenderStep::Failed(e),
            Ok(_) => match step {
                SenderStep::Connect => SenderStep::OpenStream,
                SenderStep::OpenStream => SenderStep::CopyFile,
                SenderStep::CopyFile => SenderStep::FinishStream,
                SenderStep::FinishStream => SenderStep::Close,
                SenderStep::Close => SenderStep::WaitIdle,
                _ => SenderStep::Done,
            },
        },
    }
}

/// The receiver's next step: success moves on by one, failure is final.
pub open spec fn receiver_next(step: ReceiverStep, outcome: Result<(), TransferError>) -> ReceiverStep {
    match step {
        ReceiverStep::Done => step,
        ReceiverStep::Failed(_) => step,
        _ => match outcome {
            Err(e) => ReceiverStep::Failed(e),
            Ok(_) => match step {
                ReceiverStep::Listen => ReceiverStep::Accept,
                ReceiverStep::Accept => ReceiverStep::AcceptStream,
                ReceiverStep::AcceptStream => ReceiverStep::CreateFile,
                ReceiverStep::CreateFile => ReceiverStep::CopyToFile,
                _ => ReceiverStep::Done,
            },
        },
    }
}

/// How the sender's step and its session's state go together.
pub open spec fn sender_consistent(step: SenderStep, v: SessionView) -> bool {
    &&& v.role == Role::Initiator
    &&& match step {
        SenderStep::Connect => v == initial(Role::Initiator),
        SenderStep::OpenStream => v.phase == SessionPhase::Established && !v.stream_open,
        SenderStep::CopyFile | SenderStep::FinishStream | SenderStep::Close => v.phase
            == SessionPhase::Established && v.stream_open,
        SenderStep::WaitIdle => v.phase == SessionPhase::Draining,
        SenderStep::Done => v.phase == SessionPhase::Closed,
        SenderStep::Failed(_) => v.phase == SessionPhase::Draining || v.phase
            == SessionPhase::Closed,
    }
}

/// How the receiver's step, its session's state and the output file go
/// together: the file exists only once the stream was accepted.
pub open spec fn receiver_consistent(step: ReceiverStep, v: SessionView, file_created: bool) -> bool {
    &&& v.role == Role::Acceptor
    &&& file_created ==> v.stream_open
    &&& match step {
        ReceiverStep::Listen | ReceiverStep::Accept => v == initial(Role::Acceptor)
            && !file_created,
        ReceiverStep::AcceptStream => v.phase == SessionPhase::Established && !v.stream_open
            && !file_created,
        ReceiverStep::CreateFile => v.phase == SessionPhase::Established && v.stream_open
            && !file_created,
        ReceiverStep::CopyToFile => v.phase == SessionPhase::Established && v.stream_open
            && file_created,
        ReceiverStep::Done => v.phase == SessionPhase::Draining && file_created,
        ReceiverStep::Failed(_) => v.phase == SessionPhase::Draining || v.phase
            == SessionPhase::Closed,
    }
}

/// Each role takes its stream only from an established session, at the step
/// where the session's rules allow it, and the receiver's file exists only
/// once that stream was accepted.
pub proof fn streams_follow_the_handshake(
    sender_step: SenderStep,
    sender_session: SessionView,
    receiver_step: ReceiverStep,
    receiver_session: SessionView,
    file_created: bool,
)
    requires
        sender_consistent(sender_step, sender_session),
        receiver_consistent(receiver_step, receiver_session, file_created),
    ensures
        sender_step == SenderStep::OpenStream ==> permits(sender_session, SessionEvent::OpenStream)
            && sender_session.phase == SessionPhase::Established,
        receiver_step == ReceiverStep::AcceptStream ==> permits(
            receiver_session,
            SessionEvent::AcceptStream,
        ) && receiver_session.phase == SessionPhase::Established,
        file_created ==> receiver_session.stream_open,
        sender_session.phase == SessionPhase::Connecting ==> sender_step == SenderStep::Connect,
{
}

/// The sending role: initiate a session, push the file, signal completion.
pub struct Sender {
    step: SenderStep,
    session: Session,
}

impl Sender {
    pub closed spec fn spec_step(&self) -> SenderStep {
        self.step
    }

    pub closed spec fn spec_session(&self) -> SessionView {
        self.session@
    }

    pub open spec fn wf(&self) -> bool {
        sender_consistent(self.spec_step(), self.spec_session())
    }

    pub fn new() -> (r: Sender)
        ensures
            r.wf(),
            r.spec_step() == SenderStep::Connect,
            r.spec_session() == initial(Role::Initiator),
    {
        Sender { step: SenderStep::Connect, session: Session::new(Role::Initiator) }
    }

    /// The session's last known statistics.
    pub closed spec fn spec_stats(&self) -> StatsSnapshot {
        self.session.spec_stats()
    }

    /// Takes in a sample of the transport's counters for the session; the
    /// step does not change.
    pub fn observe(&mut self, sample: StatsSnapshot)
        requires
            old(self).wf(),
        ensures
            final(self).wf(),
            final(self).spec_step() == old(self).spec_step(),
            final(self).spec_session() == old(self).spec_session(),
            old(self).spec_session().phase == SessionPhase::Closed ==> final(self).spec_stats()
                == old(self).spec_stats(),
            old(self).spec_session().phase != SessionPhase::Closed ==> final(self).spec_stats()
                == merged(old(self).spec_stats(), sample),
    {
        self.session.observe(sample);
    }

    /// The session's last known statistics.
    pub fn stats(&self) -> (r: StatsSnapshot)
        ensures
            r == self.spec_stats(),
    {
        self.session.stats()
    }

    /// The step to perform now.
    pub fn step(&self) -> (r: SenderStep)
        ensures
            r == self.spec_step(),
    {
        self.step
    }

    /// The session, as the sender's steps have left it.
    pub fn session(&self) -> (r: &Session)
        ensures
            r@ == self.spec_session(),
    {
        &self.session
    }

    /// Takes the outcome of the current step and moves on. A failed
    /// handshake closes the session at once; a failure after it starts the
    /// session's close.
    pub fn advance(&mut self, outcome: Result<(), TransferError>) -> (r: SenderStep)
        requires
            old(self).wf(),
        ensures
            final(self).wf(),
            r == final(self).spec_step(),
            r == sender_next(old(self).spec_step(), outcome),
            final(self).spec_stats() == old(self).spec_stats(),
    {
        match self.step {
            SenderStep::Done | SenderStep::Failed(_) => return self.step,
            _ => {},
        }
        match outcome {
            Err(e) => {
                if self.step == SenderStep::Connect {
                    let _ = self.session.handshake_finished(false);
                } else {
                    self.session.close();
                }
                self.step = SenderStep::Failed(e);
            },
            Ok(_) => {
                match self.step {
                    SenderStep::Connect => {
                        let _ = self.session.handshake_finished(true);
                        self.step = SenderStep::OpenStream;
                    },
                    SenderStep::OpenStream => {
                        let _ = self.session.open_stream();
                        self.step = SenderStep::CopyFile;
                    },
                    SenderStep::CopyFile => {
                        self.step = SenderStep::FinishStream;
                    },
                    SenderStep::FinishStream => {
                        self.step = SenderStep::Close;
                    },
                    SenderStep::Close => {
                        self.session.close();
                        self.step = SenderStep::WaitIdle;
                    },
                    _ => {
                        let _ = self.session.drained();
                        self.step = SenderStep::Done;
                    },
                }
            },
        }
        self.step
    }

    /// The process exit code, once the sender has ended: 0 after a
    /// successful transfer, 1 after a failure.
    pub fn exit_code(&self) -> (r: Option<i32>)
        ensures
            self.spec_step() == SenderStep::Done ==> r == Some(0i32),
            self.spec_step() is Failed ==> r == Some(1i32),
            !(self.spec_step() == SenderStep::Done) && !(self.spec_step() is Failed) ==> r is None,
    {
        match self.step {
            SenderStep::Done => Some(0),
            SenderStep::Failed(_) => Some(1),
            _ => None,
        }
    }
}

/// The receiving role: accept one session, pull its stream into a file.
pub struct Receiver {
    step: ReceiverStep,
    session: Session,
    file_created: bool,
}

impl Receiver {
    pub closed spec fn spec_step(&self) -> ReceiverStep {
        self.step
    }

    pub closed spec fn spec_session(&self) -> SessionView {
        self.session@
    }

    /// Whether the output file was created.
    pub closed spec fn spec_file_created(&self) -> bool {
        self.file_created
    }

    pub open spec fn wf(&self) -> bool {
        receiver_consistent(self.spec_step(), self.spec_session(), self.spec_file_created())
    }

    pub fn new() -> (r: Receiver)
        ensures
            r.wf(),
            r.spec_step() == ReceiverStep::Listen,
            r.spec_session() == initial(Role::Acceptor),
            !r.spec_file_created(),
    {
        Receiver { step: ReceiverStep::Listen, session: Session::new(Role::Acceptor), file_created: false }
    }

    /// The session's last known statistics.
    pub closed spec fn spec_stats(&self) -> StatsSnapshot {
        self.session.spec_stats()
    }

    /// Takes in a sample of the transport's counters for the session; the
    /// step does not change.
    pub fn observe(&mut self, sample: StatsSnapshot)
        requires
            old(self).wf(),
        ensures
            final(self).wf(),
            final(self).spec_step() == old(self).spec_step(),
            final(self).spec_session() == old(self).spec_session(),
            final(self).spec_file_created() == old(self).spec_file_created(),
            old(self).spec_session().phase == SessionPhase::Closed ==> final(self).spec_stats()
                == old(self).spec_stats(),
            old(self).spec_session().phase != SessionPhase::Closed ==> final(self).spec_stats()
                == merged(old(self).spec_stats(), sample),
    {
        self.session.observe(sample);
    }

    /// The session's last known statistics.
    pub fn stats(&self) -> (r: StatsSnapshot)
        ensures
            r == self.spec_stats(),
    {
        self.session.stats()
    }

    /// The step to perform now.
    pub fn step(&self) -> (r: ReceiverStep)
        ensures
            r == self.spec_step(),
    {
        self.step
    }

    /// The session, as the receiver's steps have left it.
    pub fn session(&self) -> (r: &Session)
        ensures
            r@ == self.spec_session(),
    {
        &self.session
    }

    /// Whether the output file was created.
    pub fn file_created(&self) -> (r: bool)
        ensures
            r == self.spec_file_created(),
    {
        self.file_created
    }

    /// Takes the outcome of the current step and moves on. The file is
    /// created only after the stream was accepted; the session starts to
    /// drain once the copy has ended, as the sender closes it.
    pub fn advance(&mut self, outcome: Result<(), TransferError>) -> (r: ReceiverStep)
        requires
            old(self).wf(),
        ensures
            final(self).wf(),
            r == final(self).spec_step(),
            r == receiver_next(old(self).spec_step(), outcome),
            final(self).spec_stats() == old(self).spec_stats(),
            final(self).spec_file_created() <==> old(self).spec_file_created() || (old(
                self,
            ).spec_step() == ReceiverStep::CreateFile && outcome is Ok),
    {
        match self.step {
            ReceiverStep::Done | ReceiverStep::Failed(_) => return self.step,
            _ => {},
        }
        match outcome {
            Err(e) => {
                if self.step == ReceiverStep::Accept {
                    let _ = self.session.handshake_finished(false);
                } else {
                    self.session.close();
                }
                self.step = ReceiverStep::Failed(e);
            },
            Ok(_) => {
                match self.step {
                    ReceiverStep::Listen => {
                        self.step = ReceiverStep::Accept;
                    },
                    ReceiverStep::Accept => {
                        let _ = self.session.handshake_finished(true);
                        self.step = ReceiverStep::AcceptStream;
                    },
                    ReceiverStep::AcceptStream => {
                        let _ = self.session.accept_stream();
                        self.step = ReceiverStep::CreateFile;
                    },
                    ReceiverStep::CreateFile => {
                        self.file_created = true;
                        self.step = ReceiverStep::CopyToFile;
                    },
                    _ => {
                        self.session.close();
                        self.step = ReceiverStep::Done;
                    },
                }
            },
        }
        self.step
    }

    /// The process exit code, once the receiver has ended: 0 after a
    /// successful transfer, 1 after a failure.
    pub fn exit_code(&self) -> (r: Option<i32>)
        ensures
            self.spec_step() == ReceiverStep::Done ==> r == Some(0i32),
            self.spec_step() is Failed ==> r == Some(1i32),
            !(self.spec_step() == ReceiverStep::Done) && !(self.spec_step() is Failed) ==> r is None,
    {
        match self.step {
            ReceiverStep::Done => Some(0),
            ReceiverStep::Failed(_) => Some(1),
            _ => None,
        }
    }
}

} // verus!
