//! The chunk writer adapter: feeds the machine's push-based serializer into
//! a sequential byte sink and decodes the serializer's terminal status.
//!
//! The serializer hands the writer trampoline one chunk at a time; the
//! trampoline reports zero when the sink took the whole chunk and one when
//! the sink refused it, and the serializer treats any non-zero report as
//! fatal to the whole dump — no further chunk is delivered. The terminal
//! status is decoded locally: zero is success, anything else is a typed
//! error carrying the numeric cause, since the serializer never produces a
//! diagnostic string.

use vstd::prelude::*;

use crate::loadx::{lemma_chunks_reassemble, spec_chunks_from};
use crate::status::LError;

verus! {

/// What the writer trampoline reports for one chunk: zero when the sink
/// took the whole chunk, one otherwise.
pub open spec fn spec_chunk_status(took_chunk: bool) -> int {
    if took_chunk {
        0
    } else {
        1
    }
}

/// Decides the status the writer trampoline reports for one chunk from
/// whether the sink took it in full: zero for a full write, one — which the
/// serializer treats as fatal — for anything less.
pub fn chunk_status(took_chunk: bool) -> (s: i32)
    ensures
        s == spec_chunk_status(took_chunk),
{
    if took_chunk {
        0
    } else {
        1
    }
}

/// The adapter's typed result for a terminal serializer status: zero is
/// success, any other code is a dump failure carrying that code.
pub open spec fn spec_dump_result(code: int, r: Result<(), LError>) -> bool {
    if code == 0 {
        r is Ok
    } else {
        r matches Err(LError::DumpError(c)) && c == code
    }
}

/// Decodes the serializer's terminal status: zero means every chunk reached
/// the sink; any non-zero code — the one the trampoline reported for the
/// refused chunk — becomes a dump error carrying exactly that code.
pub fn dump_result(code: i32) -> (r: Result<(), LError>)
    ensures
        spec_dump_result(code as int, r),
        r is Ok <==> code == 0,
{
    if code == 0 {
        Ok(())
    } else {
        Err(LError::DumpError(code))
    }
}

/// The bytes a sink holds after accepting the given chunks in order.
pub open spec fn spec_sink_bytes(accepted: Seq<Seq<u8>>) -> Seq<u8>
    decreases accepted.len(),
{
    if accepted.len() == 0 {
        Seq::empty()
    } else {
        spec_sink_bytes(accepted.drop_last()) + accepted.last()
    }
}

/// One dump in progress: the bytes the sink has accepted so far and whether
/// a refused chunk has aborted the dump, with the ghost record of every
/// chunk the sink took.
pub struct DumpSession {
    written: Vec<u8>,
    aborted: bool,
    accepted: Ghost<Seq<Seq<u8>>>,
}

impl DumpSession {
    /// The bytes the sink has accepted, in delivery order.
    pub closed spec fn written(self) -> Seq<u8> {
        self.written@
    }

    /// Every chunk the sink has taken, in delivery order.
    pub closed spec fn accepted(self) -> Seq<Seq<u8>> {
        self.accepted@
    }

    /// Whether a refused chunk has aborted the dump.
    pub closed spec fn spec_aborted(self) -> bool {
        self.aborted
    }

    /// Well-formedness: the sink holds exactly the accepted chunks, whole
    /// and in order.
    pub closed spec fn wf(self) -> bool {
        self.written@ == spec_sink_bytes(self.accepted@)
    }

    /// A dump that has not yet delivered anything.
    pub fn new() -> (d: Self)
        ensures
            d.wf(),
            !d.spec_aborted(),
            d.written() == Seq::<u8>::empty(),
            d.accepted() == Seq::<Seq<u8>>::empty(),
    {
        DumpSession { written: Vec::new(), aborted: false, accepted: Ghost(Seq::empty()) }
    }

    /// Delivers one chunk of the serializer to the sink. The serializer
    /// calls the trampoline only while no chunk has been refused: a refusal
    /// aborts the dump and stops further delivery. A taken chunk lands in
    /// the sink whole and in order; a refused chunk leaves the sink exactly
    /// as it was, and the reported status is the non-zero one the
    /// serializer returns as the terminal status.
    pub fn deliver(&mut self, chunk: &Vec<u8>, sink_takes_it: bool) -> (s: i32)
        requires
            old(self).wf(),
            !old(self).spec_aborted(),
        ensures
            final(self).wf(),
            s == spec_chunk_status(sink_takes_it),
            sink_takes_it ==> {
                &&& !final(self).spec_aborted()
                &&& final(self).accepted() == old(self).accepted().push(chunk@)
                &&& final(self).written() == old(self).written() + chunk@
            },
            !sink_takes_it ==> {
                &&& final(self).spec_aborted()
                &&& final(self).accepted() == old(self).accepted()
                &&& final(self).written() == old(self).written()
            },
    {
        if sink_takes_it {
            let ghost prior = self.accepted@;
            let mut i: usize = 0;
            while i < chunk.len()
                invariant
                    0 <= i <= chunk.len(),
                    self.written@ == spec_sink_bytes(prior) + chunk@.subrange(0, i as int),
                    self.accepted@ == prior,
                    self.aborted == old(self).spec_aborted(),
                decreases chunk.len() - i,
            {
                self.written.push(chunk[i]);
                i += 1;
                proof {
                    assert(self.written@ =~= spec_sink_bytes(prior) + chunk@.subrange(
                        0,
                        i as int,
                    ));
                }
            }
            self.accepted = Ghost(self.accepted@.push(chunk@));
            proof {
                assert(self.accepted@.drop_last() =~= prior);
                assert(chunk@.subrange(0, chunk@.len() as int) =~= chunk@);
            }
            chunk_status(true)
        } else {
            self.aborted = true;
            chunk_status(false)
        }
    }

    /// The terminal status the serializer returns for this dump: zero when
    /// every chunk was taken, the refused chunk's non-zero report when one
    /// was not.
    pub fn terminal_code(&self) -> (c: i32)
        ensures
            c == spec_terminal_code(*self),
    {
        if self.aborted {
            chunk_status(false)
        } else {
            chunk_status(true)
        }
    }

    /// Whether a refused chunk has aborted the dump.
    pub fn is_aborted(&self) -> (b: bool)
        ensures
            b == self.spec_aborted(),
    {
        self.aborted
    }

    /// The bytes the sink has accepted so far.
    pub fn bytes(&self) -> (b: &Vec<u8>)
        ensures
            b@ == self.written(),
    {
        &self.written
    }
}

/// The terminal status of a dump: zero only while no chunk was refused.
pub open spec fn spec_terminal_code(d: DumpSession) -> int {
    if d.spec_aborted() {
        1
    } else {
        0
    }
}

/// A refused chunk is fatal and visible: an aborted dump's terminal status
/// is non-zero, and it decodes to a dump error carrying that non-zero code
/// — never to success.
pub proof fn lemma_refusal_surfaces(d: DumpSession, r: Result<(), LError>)
    requires
        d.spec_aborted(),
        spec_dump_result(spec_terminal_code(d), r),
    ensures
        spec_terminal_code(d) != 0,
        r matches Err(LError::DumpError(c)) && c != 0,
{
}

/// A clean dump is faithful: when no chunk was refused, the sink holds the
/// accepted chunks whole and in order, and the terminal status decodes to
/// success.
pub proof fn lemma_clean_dump_succeeds(d: DumpSession, r: Result<(), LError>)
    requires
        d.wf(),
        !d.spec_aborted(),
        spec_dump_result(spec_terminal_code(d), r),
    ensures
        r is Ok,
        d.written() == spec_sink_bytes(d.accepted()),
{
}

/// The two stream adapters compose without loss at the byte level: the
/// bytes a clean dump left in the sink reach a loader that pulls them back
/// through a chunk source whole and in order — what was serialized is
/// exactly what is reloaded.
pub proof fn lemma_dump_feeds_reload(d: DumpSession)
    requires
        d.wf(),
        !d.spec_aborted(),
    ensures
        spec_chunks_from(d.written(), 0) == d.written(),
{
    lemma_chunks_reassemble(d.written(), 0);
    assert(d.written().subrange(0, d.written().len() as int) =~= d.written());
}

} // verus!
