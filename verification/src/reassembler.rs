//! The audio reassembler: accumulates the payload chunks of audio frames,
//! in receipt order, into one buffer.  The buffer is always exactly the
//! concatenation of the appended chunks, and finalizing consumes the
//! reassembler, so a buffer is frozen exactly once.

use vstd::prelude::*;

verus! {

/// The concatenation of a sequence of chunks, in order.
pub open spec fn concat_chunks(chunks: Seq<Seq<u8>>) -> Seq<u8>
    decreases chunks.len(),
{
    if chunks.len() == 0 {
        Seq::empty()
    } else {
        concat_chunks(chunks.drop_last()) + chunks.last()
    }
}

/// An append-only audio buffer.  The ghost `chunks` field records every
/// chunk ever appended; well-formedness ties the buffer to their exact
/// concatenation.
pub struct AudioReassembler {
    buffer: Vec<u8>,
    chunks: Ghost<Seq<Seq<u8>>>,
}

impl AudioReassembler {
    /// The chunks appended so far, in order.
    pub closed spec fn chunks(&self) -> Seq<Seq<u8>> {
        self.chunks@
    }

    /// The accumulated bytes.
    pub closed spec fn buffer(&self) -> Seq<u8> {
        self.buffer@
    }

    /// The buffer holds exactly the concatenation of the appended chunks.
    pub open spec fn wf(&self) -> bool {
        self.buffer() == concat_chunks(self.chunks())
    }

    /// An empty reassembler.
    pub fn new() -> (r: AudioReassembler)
        ensures
            r.wf(),
            r.chunks() == Seq::<Seq<u8>>::empty(),
            r.buffer() == Seq::<u8>::empty(),
    {
        AudioReassembler { buffer: Vec::new(), chunks: Ghost(Seq::empty()) }
    }

    /// Appends one chunk (possibly empty) at the end of the buffer.
    pub fn append(&mut self, chunk: &[u8])
        requires
            old(self).wf(),
        ensures
            final(self).wf(),
            final(self).chunks() == old(self).chunks().push(chunk@),
            final(self).buffer() == old(self).buffer() + chunk@,
    {
        let ghost prev: Seq<Seq<u8>> = self.chunks@;
        self.buffer.extend_from_slice(chunk);
        proof {
            self.chunks@ = prev.push(chunk@);
            assert(prev.push(chunk@).drop_last() =~= prev);
            assert(self.buffer@ =~= concat_chunks(self.chunks@));
        }
    }

    /// Freezes and returns the buffer; consuming the reassembler makes
    /// this possible exactly once.
    pub fn finalize(self) -> (audio: Vec<u8>)
        requires
            self.wf(),
        ensures
            audio@ == self.buffer(),
            audio@ == concat_chunks(self.chunks()),
    {
        self.buffer
    }
}

/// Concatenation law of the reassembler: appending chunks `B1 .. Bn` in
/// order to an empty reassembler, the finalized buffer is exactly
/// `B1 + B2 + .. + Bn` — the flattening of the chunk sequence, with no
/// reordering and no deduplication.  Appending one more chunk appends
/// exactly its bytes at the end.
pub proof fn lemma_reassembly_is_concatenation(chunks: Seq<Seq<u8>>, chunk: Seq<u8>)
    ensures
        concat_chunks(chunks.push(chunk)) == concat_chunks(chunks) + chunk,
        concat_chunks(Seq::<Seq<u8>>::empty()) == Seq::<u8>::empty(),
        concat_chunks(chunks) == chunks.flatten(),
{
    assert(chunks.push(chunk).drop_last() =~= chunks);
    lemma_concat_chunks_is_flatten(chunks);
}

/// The buffer model coincides with sequence flattening.
proof fn lemma_concat_chunks_is_flatten(chunks: Seq<Seq<u8>>)
    ensures
        concat_chunks(chunks) == chunks.flatten(),
    decreases chunks.len(),
{
    chunks.lemma_flatten_and_flatten_alt_are_equivalent();
    if chunks.len() == 0 {
        assert(chunks.flatten_alt() =~= Seq::<u8>::empty());
    } else {
        lemma_concat_chunks_is_flatten(chunks.drop_last());
        chunks.drop_last().lemma_flatten_and_flatten_alt_are_equivalent();
    }
}

} // verus!
