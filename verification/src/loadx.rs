//! The chunk reader adapter: feeds a sequential byte source to the machine's
//! pull-based loader and decodes the loader's terminal status.
//!
//! The loader asks for input one chunk at a time and stops at the first chunk
//! of size zero. The adapter fills a fixed-capacity transfer buffer from the
//! source on each pull, treating a read failure as end of input, and reports
//! the byte count. When the loader returns, its terminal status is decoded:
//! success stays success; a syntax or memory failure carries the diagnostic
//! text the loader left on top of the value stack, which the adapter pops so
//! the stack depth ends where it began. Any status outside that closed set
//! breaks the loader's documented contract and is fatal to the caller.

use vstd::prelude::*;

use crate::status::{LError, Status};

verus! {

/// Capacity of the transfer buffer: the most bytes one pull hands the
/// loader.
pub const CHUNK_CAPACITY: usize = 4096;

/// The size the reader trampoline reports for one pull, given how many
/// bytes the source produced: a failed read is reported as zero, exactly
/// like a cleanly exhausted source — the adapter does not retry and does not
/// distinguish the two.
pub open spec fn spec_pull_size(read: Option<usize>) -> nat {
    match read {
        Some(n) => n as nat,
        None => 0,
    }
}

/// Decides what one pull reports to the loader from the outcome of one read
/// of the underlying source: the byte count on success, zero on failure.
pub fn pull_size(read: Option<usize>) -> (n: usize)
    ensures
        n == spec_pull_size(read),
{
    match read {
        Some(n) => n,
        None => 0,
    }
}

/// The chunk one pull produces from a source of the given bytes at the
/// given position: the next `CHUNK_CAPACITY` bytes, or whatever is left.
pub open spec fn spec_chunk(data: Seq<u8>, pos: int) -> Seq<u8> {
    if pos + CHUNK_CAPACITY <= data.len() {
        data.subrange(pos, pos + CHUNK_CAPACITY)
    } else {
        data.subrange(pos, data.len() as int)
    }
}

/// Every chunk pulled from `pos` onward, in order, as one byte sequence.
pub open spec fn spec_chunks_from(data: Seq<u8>, pos: int) -> Seq<u8>
    decreases data.len() - pos,
    when 0 <= pos <= data.len()
{
    if pos == data.len() {
        Seq::empty()
    } else {
        spec_chunk(data, pos) + spec_chunks_from(data, pos + spec_chunk(data, pos).len())
    }
}

/// An in-memory sequential byte source being fed to the loader chunk by
/// chunk: the bytes and the position of the next unread one.
pub struct ChunkSource {
    data: Vec<u8>,
    pos: usize,
}

impl ChunkSource {
    /// The bytes of the source.
    pub closed spec fn data(self) -> Seq<u8> {
        self.data@
    }

    /// How many bytes the loader has already pulled.
    pub closed spec fn pos(self) -> int {
        self.pos as int
    }

    /// Well-formedness: the position never passes the end of the source.
    pub closed spec fn wf(self) -> bool {
        0 <= self.pos <= self.data.len()
    }

    /// A source over the given bytes, with nothing pulled yet.
    pub fn new(data: Vec<u8>) -> (s: Self)
        ensures
            s.wf(),
            s.data() == data@,
            s.pos() == 0,
    {
        ChunkSource { data, pos: 0 }
    }

    /// Whether the source is exhausted: the next pull reports size zero,
    /// which ends the load.
    pub fn exhausted(&self) -> (b: bool)
        requires
            self.wf(),
        ensures
            b <==> self.pos() == self.data().len(),
    {
        self.pos == self.data.len()
    }

    /// One pull of the loader: hands over the next chunk — at most
    /// `CHUNK_CAPACITY` bytes — and advances past it. The chunk is empty
    /// exactly when the source was already exhausted, and a non-empty chunk
    /// strictly advances the position, so pulls cannot go on forever.
    pub fn next_chunk(&mut self) -> (chunk: Vec<u8>)
        requires
            old(self).wf(),
        ensures
            final(self).wf(),
            final(self).data() == old(self).data(),
            chunk@ == spec_chunk(old(self).data(), old(self).pos()),
            final(self).pos() == old(self).pos() + chunk@.len(),
            chunk@.len() <= CHUNK_CAPACITY,
            chunk@.len() == 0 <==> old(self).pos() == old(self).data().len(),
    {
        let start = self.pos;
        let end = if self.data.len() - start > CHUNK_CAPACITY {
            start + CHUNK_CAPACITY
        } else {
            self.data.len()
        };
        let mut chunk: Vec<u8> = Vec::new();
        while self.pos < end
            invariant
                start <= self.pos <= end <= self.data.len(),
                self.data@ == old(self).data(),
                start == old(self).pos(),
                chunk@ == self.data@.subrange(start as int, self.pos as int),
                end - start <= CHUNK_CAPACITY,
            decreases end - self.pos,
        {
            chunk.push(self.data[self.pos]);
            self.pos += 1;
            proof {
                assert(chunk@ =~= self.data@.subrange(start as int, self.pos as int));
            }
        }
        proof {
            assert(chunk@ =~= spec_chunk(self.data@, start as int));
        }
        chunk
    }

    /// Pulls chunk after chunk, as the loader does, until the source is
    /// exhausted, and returns everything delivered: the loop provably
    /// terminates — every pull strictly advances the position — and yields
    /// exactly the source's remaining bytes, in order.
    pub fn drain(&mut self) -> (all: Vec<u8>)
        requires
            old(self).wf(),
        ensures
            final(self).wf(),
            final(self).data() == old(self).data(),
            final(self).pos() == old(self).data().len(),
            all@ == old(self).data().subrange(old(self).pos(), old(self).data().len() as int),
    {
        let start = self.pos;
        let mut all: Vec<u8> = Vec::new();
        while self.pos < self.data.len()
            invariant
                self.wf(),
                self.data@ == old(self).data(),
                start == old(self).pos(),
                start <= self.pos,
                all@ == self.data@.subrange(start as int, self.pos as int),
            decreases self.data.len() - self.pos,
        {
            let mut chunk = self.next_chunk();
            all.append(&mut chunk);
            proof {
                assert(all@ =~= self.data@.subrange(start as int, self.pos as int));
            }
        }
        proof {
            assert(all@ =~= self.data@.subrange(start as int, self.data@.len() as int));
        }
        all
    }
}

/// Over an empty or exhausted source the very first pull reports size zero,
/// which terminates the load: no pull loop over such a source can spin.
pub proof fn lemma_exhausted_pull_is_empty(data: Seq<u8>, pos: int)
    requires
        0 <= pos <= data.len(),
        pos == data.len(),
    ensures
        spec_chunk(data, pos).len() == 0,
{
}

/// Pulls make progress: each one either reports size zero, ending the load,
/// or advances the position without passing the end of the source — so a
/// load over any finite source performs finitely many pulls.
pub proof fn lemma_pull_progress(data: Seq<u8>, pos: int)
    requires
        0 <= pos <= data.len(),
    ensures
        spec_chunk(data, pos).len() == 0 <==> pos == data.len(),
        pos + spec_chunk(data, pos).len() <= data.len(),
{
}

/// The loader sees the source unchanged: the chunks pulled from any
/// position, concatenated in order, are exactly the source's remaining
/// bytes — nothing reordered, dropped or duplicated.
pub proof fn lemma_chunks_reassemble(data: Seq<u8>, pos: int)
    requires
        0 <= pos <= data.len(),
    ensures
        spec_chunks_from(data, pos) == data.subrange(pos, data.len() as int),
    decreases data.len() - pos,
{
    if pos == data.len() {
        assert(spec_chunks_from(data, pos) =~= data.subrange(pos, data.len() as int));
    } else {
        let next = pos + spec_chunk(data, pos).len();
        lemma_chunks_reassemble(data, next as int);
        assert(spec_chunks_from(data, pos) =~= data.subrange(pos, data.len() as int));
    }
}

/// How many values the loader leaves on the value stack for each terminal
/// status it can produce: the diagnostic on failure, nothing on success.
pub open spec fn spec_loader_pushes(status: Status) -> int {
    match status {
        Status::Success => 0,
        _ => 1,
    }
}

/// Whether a terminal status is one the loader's documented contract can
/// produce at all: success, a syntax failure, or a memory failure.
pub open spec fn loader_status(status: Status) -> bool {
    status is Success || status is SyntaxError || status is MemoryError
}

/// How many values the adapter pops from the value stack after the loader
/// returns with this status: exactly what the loader pushed, so the stack
/// depth after the whole load equals the depth before it.
pub fn diagnostics_to_pop(status: Status) -> (n: usize)
    requires
        loader_status(status),
    ensures
        n == spec_loader_pushes(status),
{
    match status {
        Status::Success => 0,
        _ => 1,
    }
}

/// Decodes the loader's terminal status into the adapter's typed result.
/// Success is success; a syntax or memory failure carries the diagnostic
/// text recovered from the stack top, byte for byte. Statuses outside the
/// loader's documented closed set are an internal-consistency violation and
/// are excluded here: the caller must treat them as fatal, not decode them.
pub fn load_result(status: Status, diagnostic: String) -> (r: Result<(), LError>)
    requires
        loader_status(status),
    ensures
        r is Ok <==> status is Success,
        status is SyntaxError ==> (r matches Err(LError::SyntaxError(t)) && t@ == diagnostic@),
        status is MemoryError ==> (r matches Err(LError::MemoryError(t)) && t@ == diagnostic@),
{
    match status {
        Status::SyntaxError => Err(LError::SyntaxError(diagnostic)),
        Status::MemoryError => Err(LError::MemoryError(diagnostic)),
        _ => Ok(()),
    }
}

} // verus!
