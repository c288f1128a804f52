//! The stream copier: drains a byte source into a sink chunk by chunk until
//! end of input, counting what it hands on, and the transfer statistics it
//! reports.
use vstd::prelude::*;

verus! {

/// Where a copy stands.
#[derive(Clone, Copy, Debug, PartialEq, Eq, Structural)]
pub enum CopyPhase {
    Copying,
    /// The source signalled end of input; everything read was handed on.
    Done,
    /// A read or a write failed; the copy was abandoned.
    Failed,
}

/// Why a copy failed.
#[derive(Clone, Copy, Debug, PartialEq, Eq, Structural)]
pub enum CopyError {
    /// Reading from the source failed.
    Read,
    /// Writing to the sink failed.
    Write,
    /// The count of copied bytes would no longer fit in 64 bits.
    TooLarge,
    /// The copy had already ended.
    Ended,
}

/// What the driver of the copy does next.
#[derive(Clone, Copy, Debug, PartialEq, Eq, Structural)]
pub enum CopyAction {
    /// Write the chunk just read to the sink, whole.
    WriteAll,
    /// End of input: the copy is complete.
    Finish,
    /// Give up, with this error.
    Fail(CopyError),
}

/// A copy's state: its phase and every byte handed to the sink so far.
pub struct CopyView {
    pub phase: CopyPhase,
    pub delivered: Seq<u8>,
}

/// The state after a read that returned `chunk` (empty at end of input).
pub open spec fn after_read(v: CopyView, chunk: Seq<u8>) -> CopyView {
    if v.phase != CopyPhase::Copying {
        v
    } else if chunk.len() == 0 {
        CopyView { phase: CopyPhase::Done, ..v }
    } else if v.delivered.len() + chunk.len() > u64::MAX {
        CopyView { phase: CopyPhase::Failed, ..v }
    } else {
        CopyView { delivered: v.delivered + chunk, ..v }
    }
}

/// What the copier asks for after a read that returned `chunk`.
pub open spec fn action_after_read(v: CopyView, chunk: Seq<u8>) -> CopyAction {
    if v.phase != CopyPhase::Copying {
        CopyAction::Fail(CopyError::Ended)
    } else if chunk.len() == 0 {
        CopyAction::Finish
    } else if v.delivered.len() + chunk.len() > u64::MAX {
        CopyAction::Fail(CopyError::TooLarge)
    } else {
        CopyAction::WriteAll
    }
}

/// The bytes of the chunks, one after another.
pub open spec fn concat(chunks: Seq<Seq<u8>>) -> Seq<u8>
    decreases chunks.len(),
{
    if chunks.len() == 0 {
        Seq::empty()
    } else {
        chunks[0] + concat(chunks.drop_first())
    }
}

/// The state after reads that returned these chunks, in order.
pub open spec fn after_reads(v: CopyView, chunks: Seq<Seq<u8>>) -> CopyView
    decreases chunks.len(),
{
    if chunks.len() == 0 {
        v
    } else {
        after_reads(after_read(v, chunks[0]), chunks.drop_first())
    }
}

/// A copy that has not read anything yet.
pub open spec fn fresh() -> CopyView {
    CopyView { phase: CopyPhase::Copying, delivered: Seq::empty() }
}

proof fn reads_append(v: CopyView, chunks: Seq<Seq<u8>>)
    requires
        v.phase == CopyPhase::Copying,
        forall|i: int| 0 <= i < chunks.len() ==> (#[trigger] chunks[i]).len() > 0,
        v.delivered.len() + concat(chunks).len() <= u64::MAX,
    ensures
        after_reads(v, chunks) == (CopyView { delivered: v.delivered + concat(chunks), ..v }),
    decreases chunks.len(),
{
    if chunks.len() == 0 {
        assert(v.delivered + concat(chunks) =~= v.delivered);
    } else {
        let rest = chunks.drop_first();
        let next = after_read(v, chunks[0]);
        assert(next == (CopyView { delivered: v.delivered + chunks[0], ..v }));
        assert forall|i: int| 0 <= i < rest.len() implies (#[trigger] rest[i]).len() > 0 by {
            assert(rest[i] == chunks[i + 1]);
        }
        reads_append(next, rest);
        assert(v.delivered + chunks[0] + concat(rest) =~= v.delivered + concat(chunks));
    }
}

/// A transfer hands on its payload byte for byte. The sender reads the
/// payload `p` in some non-empty chunks and writes each on; the transport
/// delivers those bytes in order to the receiver, which reads them in chunks
/// of its own. When both have seen end of input, both copies are done and
/// each has handed on exactly `p` (also when `p` is empty).
pub proof fn transfer_is_byte_identical(
    p: Seq<u8>,
    sent_chunks: Seq<Seq<u8>>,
    received_chunks: Seq<Seq<u8>>,
)
    requires
        concat(sent_chunks) == p,
        forall|i: int| 0 <= i < sent_chunks.len() ==> (#[trigger] sent_chunks[i]).len() > 0,
        p.len() <= u64::MAX,
        concat(received_chunks) == after_reads(fresh(), sent_chunks).delivered,
        forall|i: int| 0 <= i < received_chunks.len() ==> (#[trigger] received_chunks[i]).len() > 0,
    ensures
        ({
            let sender = after_read(after_reads(fresh(), sent_chunks), Seq::empty());
            let receiver = after_read(after_reads(fresh(), received_chunks), Seq::empty());
            &&& sender.phase == CopyPhase::Done
            &&& sender.delivered == p
            &&& receiver.phase == CopyPhase::Done
            &&& receiver.delivered == p
        }),
{
    reads_append(fresh(), sent_chunks);
    assert(Seq::<u8>::empty() + p =~= p);
    reads_append(fresh(), received_chunks);
}

/// A copy in progress: its phase, how many bytes it has handed on, and
/// which.
pub struct Copier {
    phase: CopyPhase,
    bytes_copied: u64,
    delivered: Ghost<Seq<u8>>,
}

impl View for Copier {
    type V = CopyView;

    closed spec fn view(&self) -> CopyView {
        CopyView { phase: self.phase, delivered: self.delivered@ }
    }
}

impl Copier {
    pub closed spec fn wf(&self) -> bool {
        self.bytes_copied == self.delivered@.len()
    }

    pub fn new() -> (r: Copier)
        ensures
            r.wf(),
            r@ == fresh(),
    {
        Copier { phase: CopyPhase::Copying, bytes_copied: 0, delivered: Ghost(Seq::empty()) }
    }

    /// Takes the result of one read from the source: `chunk` is what was
    /// read, empty at end of input. Says what to do with it.
    pub fn on_read(&mut self, chunk: &[u8]) -> (r: CopyAction)
        requires
            old(self).wf(),
        ensures
            final(self).wf(),
            final(self)@ == after_read(old(self)@, chunk@),
            r == action_after_read(old(self)@, chunk@),
    {
        if self.phase != CopyPhase::Copying {
            return CopyAction::Fail(CopyError::Ended);
        }
        if chunk.len() == 0 {
            self.phase = CopyPhase::Done;
            return CopyAction::Finish;
        }
        if chunk.len() as u64 > u64::MAX - self.bytes_copied {
            self.phase = CopyPhase::Failed;
            return CopyAction::Fail(CopyError::TooLarge);
        }
        self.bytes_copied = self.bytes_copied + chunk.len() as u64;
        self.delivered = Ghost(self.delivered@ + chunk@);
        CopyAction::WriteAll
    }

    /// Takes a failed read or write: the copy is abandoned.
    pub fn on_failure(&mut self, error: CopyError) -> (r: CopyAction)
        requires
            old(self).wf(),
        ensures
            final(self).wf(),
            final(self)@ == (CopyView { phase: CopyPhase::Failed, ..old(self)@ }),
            r == CopyAction::Fail(error),
    {
        self.phase = CopyPhase::Failed;
        CopyAction::Fail(error)
    }

    pub fn phase(&self) -> (r: CopyPhase)
        ensures
            r == self@.phase,
    {
        self.phase
    }

    /// How many bytes were handed on so far.
    pub fn bytes_copied(&self) -> (r: u64)
        requires
            self.wf(),
        ensures
            r == self@.delivered.len(),
    {
        self.bytes_copied
    }

    /// The statistics of this copy, which took `elapsed_micros`.
    pub fn transfer_stats(&self, elapsed_micros: u64) -> (r: TransferStats)
        requires
            self.wf(),
        ensures
            r.bytes_copied == self@.delivered.len(),
            r.elapsed_micros == elapsed_micros,
    {
        TransferStats { bytes_copied: self.bytes_copied, elapsed_micros }
    }
}

/// What a finished transfer reports: bytes copied and wall-clock time.
#[derive(Clone, Copy, Debug, PartialEq, Eq, Structural)]
pub struct TransferStats {
    pub bytes_copied: u64,
    pub elapsed_micros: u64,
}

/// Throughput in bytes per second, rounded down: bytes over elapsed
/// seconds, and 0 when nothing was copied or no time was measured.
pub open spec fn throughput_of(bytes_copied: nat, elapsed_micros: nat) -> nat {
    if bytes_copied == 0 || elapsed_micros == 0 {
        0
    } else {
        (bytes_copied * 1_000_000) / elapsed_micros
    }
}

impl TransferStats {
    /// Bytes per second over the transfer; never divides by zero.
    pub fn throughput(&self) -> (r: u128)
        ensures
            r == throughput_of(self.bytes_copied as nat, self.elapsed_micros as nat),
    {
        if self.bytes_copied == 0 || self.elapsed_micros == 0 {
            return 0;
        }
        let b = self.bytes_copied as u128;
        assert(b * 1_000_000 <= u64::MAX * 1_000_000) by (nonlinear_arith)
            requires b <= u64::MAX;
        (b * 1_000_000) / (self.elapsed_micros as u128)
    }
}

/// Throughput is bytes over elapsed time when time was measured, and 0 when
/// nothing was copied.
pub proof fn throughput_formula(bytes_copied: nat, elapsed_micros: nat)
    ensures
        elapsed_micros > 0 ==> throughput_of(bytes_copied, elapsed_micros) == (bytes_copied
            * 1_000_000) / elapsed_micros,
        bytes_copied == 0 ==> throughput_of(bytes_copied, elapsed_micros) == 0,
{
    if elapsed_micros > 0 && bytes_copied == 0 {
        assert(0nat * 1_000_000 == 0);
    }
}

} // verus!
