use vstd::prelude::*;

verus! {

/// Most bytes taken from the source socket by one read.
pub const CHUNK_SIZE: usize = 4096;

/// Where a one-directional pump stands.
#[derive(Clone, Copy, Debug, PartialEq, Eq, Structural)]
pub enum PumpPhase {
    /// Waiting for the next read from the source.
    Reading,
    /// A chunk has been read and is being written to the destination.
    Writing,
    /// The source closed cleanly: the pump ended without error.
    Closed,
    /// A read failed, or a write failed after its retries: the pump ended with that error.
    Failed,
}

/// The result of one read from the source socket.
#[derive(Clone, Copy, Debug, PartialEq, Eq, Structural)]
pub enum ReadOutcome {
    /// This many bytes were placed at the start of the read buffer; zero means
    /// that the peer closed the stream.
    Bytes(usize),
    /// The read failed.
    Error,
}

/// What the driver of a pump does next.
#[derive(Debug)]
pub enum PumpAction {
    /// Write exactly these bytes to the destination, with the retry policy.
    Forward(Vec<u8>),
    /// Read the next chunk from the source.
    ReadNext,
    /// Stop: the source closed cleanly.
    Stop,
    /// Stop with the error of the last read or write.
    Fail,
}

/// Model of a pump: its phase, the non-empty chunks read from the source in
/// order (each one handed out once, unchanged, by `PumpAction::Forward`),
/// every byte read, every byte written to the destination, and the chunk
/// whose write is under way.
pub struct PumpView {
    pub phase: PumpPhase,
    pub reads: Seq<Seq<u8>>,
    pub received: Seq<u8>,
    pub delivered: Seq<u8>,
    pub pending: Seq<u8>,
}

/// A fresh pump: nothing read, nothing written.
pub open spec fn pump_start() -> PumpView {
    PumpView {
        phase: PumpPhase::Reading,
        reads: Seq::empty(),
        received: Seq::empty(),
        delivered: Seq::empty(),
        pending: Seq::empty(),
    }
}

/// The model after a read that returned `data` (empty for a clean close).
pub open spec fn after_read(v: PumpView, data: Seq<u8>) -> PumpView {
    if data.len() == 0 {
        PumpView { phase: PumpPhase::Closed, ..v }
    } else {
        PumpView {
            phase: PumpPhase::Writing,
            reads: v.reads.push(data),
            received: v.received + data,
            pending: data,
            ..v
        }
    }
}

/// The model after a failed read.
pub open spec fn after_read_error(v: PumpView) -> PumpView {
    PumpView { phase: PumpPhase::Failed, ..v }
}

/// The model after the write of the pending chunk succeeded or finally failed.
pub open spec fn after_write(v: PumpView, ok: bool) -> PumpView {
    if ok {
        PumpView {
            phase: PumpPhase::Reading,
            delivered: v.delivered + v.pending,
            pending: Seq::empty(),
            ..v
        }
    } else {
        PumpView { phase: PumpPhase::Failed, ..v }
    }
}

/// The model after each of `chunks` was read and then written successfully.
pub open spec fn relay_chunks(v: PumpView, chunks: Seq<Seq<u8>>) -> PumpView
    decreases chunks.len(),
{
    if chunks.len() == 0 {
        v
    } else {
        relay_chunks(after_write(after_read(v, chunks[0]), true), chunks.drop_first())
    }
}

/// What holds in every reachable state: the bytes read are the chunks read,
/// concatenated in order, and what was written is what was read, up to the
/// chunk whose write is under way (the last one read).
pub open spec fn pump_invariant(v: PumpView) -> bool {
    &&& v.received == v.reads.flatten()
    &&& match v.phase {
        PumpPhase::Reading | PumpPhase::Closed => v.delivered == v.received && v.pending.len()
            == 0,
        PumpPhase::Writing => {
            &&& v.received == v.delivered + v.pending
            &&& 0 < v.pending.len() <= CHUNK_SIZE
            &&& v.reads.len() > 0
            &&& v.pending == v.reads.last()
        },
        PumpPhase::Failed => v.delivered.is_prefix_of(v.received),
    }
}

/// One direction of a connection: reads chunks from a source and forwards
/// each one, unchanged and in order, before it reads the next.
pub struct Pump {
    phase: PumpPhase,
    reads: Ghost<Seq<Seq<u8>>>,
    received: Ghost<Seq<u8>>,
    delivered: Ghost<Seq<u8>>,
    pending: Ghost<Seq<u8>>,
}

impl View for Pump {
    type V = PumpView;

    closed spec fn view(&self) -> PumpView {
        PumpView {
            phase: self.phase,
            reads: self.reads@,
            received: self.received@,
            delivered: self.delivered@,
            pending: self.pending@,
        }
    }
}

/// The first `n` bytes of `buf`, as a vector of their own.
fn chunk_of(buf: &[u8], n: usize) -> (r: Vec<u8>)
    requires
        n <= buf@.len(),
    ensures
        r@ == buf@.subrange(0, n as int),
{
    let mut r: Vec<u8> = Vec::with_capacity(n);
    let mut i: usize = 0;
    while i < n
        invariant
            i <= n,
            n <= buf@.len(),
            r@ == buf@.subrange(0, i as int),
        decreases n - i,
    {
        r.push(buf[i]);
        i = i + 1;
    }
    r
}

impl Pump {
    pub open spec fn wf(&self) -> bool {
        pump_invariant(self@)
    }

    /// A pump that has read nothing yet.
    pub fn new() -> (p: Pump)
        ensures
            p.wf(),
            p@ == pump_start(),
    {
        Pump {
            phase: PumpPhase::Reading,
            reads: Ghost(Seq::empty()),
            received: Ghost(Seq::empty()),
            delivered: Ghost(Seq::empty()),
            pending: Ghost(Seq::empty()),
        }
    }

    pub fn phase(&self) -> (r: PumpPhase)
        ensures
            r == self@.phase,
    {
        self.phase
    }

    /// A zeroed buffer of one chunk, to read into.
    pub fn read_buffer() -> (r: Vec<u8>)
        ensures
            r@ == Seq::new(CHUNK_SIZE as nat, |i: int| 0u8),
    {
        let mut r: Vec<u8> = Vec::with_capacity(CHUNK_SIZE);
        let mut i: usize = 0;
        while i < CHUNK_SIZE
            invariant
                i <= CHUNK_SIZE,
                r@ == Seq::new(i as nat, |j: int| 0u8),
            decreases CHUNK_SIZE - i,
        {
            r.push(0u8);
            i = i + 1;
            assert(r@ =~= Seq::new(i as nat, |j: int| 0u8));
        }
        r
    }

    /// Takes the result of a read into `buf`. A clean close stops the pump; a
    /// failed read fails it; otherwise exactly the bytes read are handed out
    /// to be forwarded.
    pub fn on_read(&mut self, buf: &[u8], outcome: ReadOutcome) -> (action: PumpAction)
        requires
            old(self).wf(),
            old(self)@.phase == PumpPhase::Reading,
            buf@.len() <= CHUNK_SIZE,
            outcome matches ReadOutcome::Bytes(n) ==> n <= buf@.len(),
        ensures
            final(self).wf(),
            match outcome {
                ReadOutcome::Bytes(n) => {
                    &&& final(self)@ == after_read(old(self)@, buf@.subrange(0, n as int))
                    &&& n == 0 ==> action is Stop
                    &&& n > 0 ==> (action matches PumpAction::Forward(c) && c@ == buf@.subrange(
                        0,
                        n as int,
                    ))
                },
                ReadOutcome::Error => final(self)@ == after_read_error(old(self)@) && action is Fail,
            },
    {
        match outcome {
            ReadOutcome::Bytes(n) => {
                if n == 0 {
                    self.phase = PumpPhase::Closed;
                    assert(buf@.subrange(0, 0) =~= Seq::<u8>::empty());
                    PumpAction::Stop
                } else {
                    let c = chunk_of(buf, n);
                    proof {
                        self.reads@.lemma_flatten_push(c@);
                    }
                    self.phase = PumpPhase::Writing;
                    self.reads = Ghost(self.reads@.push(c@));
                    self.received = Ghost(self.received@ + c@);
                    self.pending = Ghost(c@);
                    PumpAction::Forward(c)
                }
            },
            ReadOutcome::Error => {
                self.phase = PumpPhase::Failed;
                assert(self.delivered@.is_prefix_of(self.received@));
                PumpAction::Fail
            },
        }
    }

    /// Takes the result of writing the pending chunk, after its retries.
    pub fn on_write(&mut self, ok: bool) -> (action: PumpAction)
        requires
            old(self).wf(),
            old(self)@.phase == PumpPhase::Writing,
        ensures
            final(self).wf(),
            final(self)@ == after_write(old(self)@, ok),
            ok ==> action is ReadNext,
            !ok ==> action is Fail,
    {
        if ok {
            self.phase = PumpPhase::Reading;
            self.delivered = Ghost(self.delivered@ + self.pending@);
            self.pending = Ghost(Seq::empty());
            PumpAction::ReadNext
        } else {
            self.phase = PumpPhase::Failed;
            assert(self.delivered@.is_prefix_of(self.received@));
            PumpAction::Fail
        }
    }
}

proof fn lemma_relay_chunks_from(v: PumpView, chunks: Seq<Seq<u8>>)
    requires
        v.phase == PumpPhase::Reading,
        v.delivered == v.received,
        v.pending.len() == 0,
        forall|i: int| 0 <= i < chunks.len() ==> #[trigger] chunks[i].len() > 0,
    ensures
        relay_chunks(v, chunks).phase == PumpPhase::Reading,
        relay_chunks(v, chunks).received == v.received + chunks.flatten(),
        relay_chunks(v, chunks).delivered == relay_chunks(v, chunks).received,
        relay_chunks(v, chunks).pending.len() == 0,
    decreases chunks.len(),
{
    if chunks.len() == 0 {
        assert(v.received + chunks.flatten() =~= v.received);
    } else {
        assert(chunks[0].len() > 0);
        let w = after_write(after_read(v, chunks[0]), true);
        let rest = chunks.drop_first();
        assert forall|i: int| 0 <= i < rest.len() implies #[trigger] rest[i].len() > 0 by {
            assert(rest[i] == chunks[i + 1]);
        }
        lemma_relay_chunks_from(w, rest);
        assert(w.received + rest.flatten() =~= v.received + chunks.flatten());
    }
}

/// Bytes are relayed unchanged and in order: whatever non-empty chunks a
/// source yields before it closes cleanly, once each has been forwarded the
/// pump ends without error, having written to the destination exactly the
/// concatenation of those chunks. The same pump serves each direction.
pub proof fn lemma_clean_close_delivers_stream(chunks: Seq<Seq<u8>>)
    requires
        forall|i: int| 0 <= i < chunks.len() ==> #[trigger] chunks[i].len() > 0,
    ensures
        ({
            let end = after_read(relay_chunks(pump_start(), chunks), Seq::empty());
            &&& end.phase == PumpPhase::Closed
            &&& end.delivered == chunks.flatten()
            &&& end.received == chunks.flatten()
        }),
{
    lemma_relay_chunks_from(pump_start(), chunks);
    assert(Seq::<u8>::empty() + chunks.flatten() =~= chunks.flatten());
}

/// Bytes are relayed unchanged and in order, whatever the chunks: once a
/// pump's source has closed cleanly, the destination has been written
/// exactly the concatenation of the chunks read, in the order read. Each of
/// those chunks is the payload of one `PumpAction::Forward` that `on_read`
/// handed out, and each was written in full before the next read. The same
/// pump serves each direction of a connection.
pub proof fn lemma_closed_pump_delivered_its_reads(p: Pump)
    requires
        p.wf(),
        p@.phase == PumpPhase::Closed,
    ensures
        p@.delivered == p@.reads.flatten(),
        p@.received == p@.reads.flatten(),
        p@.pending.len() == 0,
{
}

/// Every state a pump reaches through its operations keeps the invariant:
/// what has been written is a prefix of what has been read, and equals it
/// whenever no write is under way.
pub proof fn lemma_delivered_is_prefix_of_received(p: Pump)
    requires
        p.wf(),
    ensures
        p@.delivered.is_prefix_of(p@.received),
        p@.phase != PumpPhase::Writing ==> p@.phase == PumpPhase::Failed || p@.delivered == p@.received,
{
    if p@.phase == PumpPhase::Writing {
        assert(p@.delivered.is_prefix_of(p@.delivered + p@.pending));
    }
}

} // verus!
