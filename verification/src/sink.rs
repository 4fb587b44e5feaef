//! The one ordered byte stream that the layout and its windows write to.

use vstd::prelude::*;

verus! {

/// What a sink holds, as plain mathematics.
pub struct SinkState {
    /// Every byte written and not yet taken out, oldest first.
    pub written: Seq<u8>,
    /// How many of them, counted from the front, a flush has pushed out.
    pub flushed: nat,
}

impl SinkState {
    /// No more bytes are flushed than were written.
    pub open spec fn wf(self) -> bool {
        self.flushed <= self.written.len()
    }

    /// A sink that nothing was written to.
    pub open spec fn empty() -> SinkState {
        SinkState { written: Seq::empty(), flushed: 0 }
    }

    /// The bytes that a flush has pushed out and nobody has taken yet: what
    /// is due on the terminal.
    pub open spec fn visible(self) -> Seq<u8> {
        self.written.take(self.flushed as int)
    }

    /// The bytes written since the last flush.
    pub open spec fn pending(self) -> Seq<u8> {
        self.written.skip(self.flushed as int)
    }

    /// The sink after one write of `bytes`: they follow, unbroken, all that
    /// was written before, and nothing more is flushed than was.
    pub open spec fn write(self, bytes: Seq<u8>) -> SinkState {
        SinkState { written: self.written + bytes, flushed: self.flushed }
    }

    /// The sink after the writes of `chunks`, one after the other and with
    /// nothing written between them.
    pub open spec fn write_sequence(self, chunks: Seq<Seq<u8>>) -> SinkState
        decreases chunks.len(),
    {
        if chunks.len() == 0 {
            self
        } else {
            self.write_sequence(chunks.drop_last()).write(chunks.last())
        }
    }

    /// The sink after a flush: all that was written is pushed out.
    pub open spec fn flush(self) -> SinkState {
        SinkState { written: self.written, flushed: self.written.len() }
    }

    /// The sink after its flushed bytes were taken out: the pending ones stay.
    pub open spec fn drained(self) -> SinkState {
        SinkState { written: self.pending(), flushed: 0 }
    }
}

/// The byte runs that a list of buffers holds, in order.
pub open spec fn chunk_views(chunks: Seq<Vec<u8>>) -> Seq<Seq<u8>> {
    Seq::new(chunks.len(), |i: int| chunks[i]@)
}

/// An in-memory stand-in for the terminal's output stream. Writes queue up
/// in order, a flush marks all of them as due on the terminal, and whoever
/// owns the real terminal takes the due bytes out and sends them.
///
/// A write needs `&mut Sink`: while one writer holds it, no other can write,
/// so the bytes of two writers never mix.
#[derive(Debug)]
pub struct Sink {
    flushed: Vec<u8>,
    pending: Vec<u8>,
}

impl View for Sink {
    type V = SinkState;

    closed spec fn view(&self) -> SinkState {
        SinkState { written: self.flushed@ + self.pending@, flushed: self.flushed@.len() }
    }
}

impl Sink {
    /// Every sink is well formed.
    pub proof fn lemma_wf(self)
        ensures
            self@.wf(),
    {
    }

    /// A sink with nothing written.
    pub fn new() -> (sink: Sink)
        ensures
            sink@ == SinkState::empty(),
    {
        Sink { flushed: Vec::new(), pending: Vec::new() }
    }

    /// Appends `bytes` as one unbroken run.
    pub fn write(&mut self, bytes: &[u8])
        ensures
            final(self)@ == old(self)@.write(bytes@),
    {
        self.pending.extend_from_slice(bytes);
        assert(self@.written =~= old(self)@.written + bytes@);
    }

    /// Appends every chunk in turn, as one unbroken run of runs.
    pub fn write_sequence(&mut self, chunks: &[Vec<u8>])
        ensures
            final(self)@ == old(self)@.write_sequence(chunk_views(chunks@)),
    {
        let ghost runs = chunk_views(chunks@);
        let mut i: usize = 0;
        while i < chunks.len()
            invariant
                i <= chunks.len(),
                runs == chunk_views(chunks@),
                self@ == old(self)@.write_sequence(runs.take(i as int)),
            decreases chunks.len() - i,
        {
            self.write(chunks[i].as_slice());
            assert(runs.take(i + 1).drop_last() =~= runs.take(i as int));
            i += 1;
        }
        assert(runs.take(i as int) =~= runs);
    }

    /// Marks everything written so far as due on the terminal.
    pub fn flush(&mut self)
        ensures
            final(self)@ == old(self)@.flush(),
    {
        self.flushed.append(&mut self.pending);
    }

    /// Every byte held, oldest first.
    pub fn written(&self) -> (bytes: Vec<u8>)
        ensures
            bytes@ == self@.written,
    {
        let mut bytes: Vec<u8> = Vec::new();
        bytes.extend_from_slice(self.flushed.as_slice());
        bytes.extend_from_slice(self.pending.as_slice());
        bytes
    }

    /// The bytes that a flush has pushed out and nobody has taken yet.
    pub fn visible(&self) -> (bytes: &[u8])
        ensures
            bytes@ == self@.visible(),
    {
        self.flushed.as_slice()
    }

    /// The bytes written since the last flush.
    pub fn pending(&self) -> (bytes: &[u8])
        ensures
            bytes@ == self@.pending(),
    {
        self.pending.as_slice()
    }

    /// Takes the flushed bytes out, for sending to the terminal. The bytes
    /// written since the last flush stay.
    pub fn take_flushed(&mut self) -> (out: Vec<u8>)
        ensures
            out@ == old(self)@.visible(),
            final(self)@ == old(self)@.drained(),
    {
        let mut out: Vec<u8> = Vec::new();
        std::mem::swap(&mut self.flushed, &mut out);
        assert(self@.written =~= old(self)@.pending());
        out
    }
}

/// A write leaves what was flushed as it was and adds all of its bytes to
/// the pending ones; a flush after it pushes them out together with all
/// that came before. So the bytes of one write are never shown in part.
pub proof fn lemma_write_is_whole(s: SinkState, bytes: Seq<u8>)
    requires
        s.wf(),
    ensures
        s.write(bytes).wf(),
        s.write(bytes).visible() == s.visible(),
        s.write(bytes).pending() == s.pending() + bytes,
        s.write(bytes).flush().visible() == s.written + bytes,
        s.write(bytes).flush().pending() == Seq::<u8>::empty(),
{
}

/// Taking the flushed bytes out loses nothing and reorders nothing: what is
/// taken and what stays make up what was written, the sink that stays is
/// well formed with nothing flushed, a later write lands behind the bytes
/// that stayed, and the next flush makes exactly those due.
pub proof fn lemma_take_loses_nothing(s: SinkState, bytes: Seq<u8>)
    requires
        s.wf(),
    ensures
        s.visible() + s.drained().written == s.written,
        s.drained().wf(),
        s.drained().visible() == Seq::<u8>::empty(),
        s.drained().write(bytes) == s.write(bytes).drained(),
        s.drained().flush().visible() == s.pending(),
{
    assert(s.drained().write(bytes).written =~= s.write(bytes).drained().written);
}

/// Writing a sequence of chunks adds their bytes, chunk after chunk, behind
/// what was written before, and flushes nothing.
pub proof fn lemma_sequence_appends(s: SinkState, chunks: Seq<Seq<u8>>)
    ensures
        s.write_sequence(chunks).written == s.written + chunks.flatten(),
        s.write_sequence(chunks).flushed == s.flushed,
    decreases chunks.len(),
{
    if chunks.len() > 0 {
        let front = chunks.drop_last();
        lemma_sequence_appends(s, front);
        front.lemma_flatten_push(chunks.last());
        assert(front.push(chunks.last()) =~= chunks);
    }
}

/// Two writers, each with a sequence of writes, one after the other: in the
/// record the bytes of the first stand unbroken right behind what was there,
/// and the bytes of the second unbroken right behind those. No byte of one
/// lies among the bytes of the other.
pub proof fn lemma_writers_do_not_interleave(
    s: SinkState,
    first: Seq<Seq<u8>>,
    second: Seq<Seq<u8>>,
)
    ensures
        ({
            let record = s.write_sequence(first).write_sequence(second).written;
            let start = s.written.len() as int;
            let middle = start + first.flatten().len();
            &&& record == s.written + first.flatten() + second.flatten()
            &&& record.len() == middle + second.flatten().len()
            &&& record.subrange(0, start) == s.written
            &&& record.subrange(start, middle) == first.flatten()
            &&& record.subrange(middle, record.len() as int) == second.flatten()
        }),
{
    lemma_sequence_appends(s, first);
    lemma_sequence_appends(s.write_sequence(first), second);
}

} // verus!
