//! The callback bridge: installs a native callback as a runtime-callable
//! value of the machine.
//!
//! A callback of non-zero representation size is moved into a closure-data
//! cell — a block of machine-managed memory with a one-entry finalizer table —
//! and that cell is bound as the sole upvalue of a fixed-signature trampoline.
//! A capture-free (zero-size) callback gets no cell at all: the trampoline is
//! registered without an upvalue, and an invocation rebuilds the callback from
//! its type, never from a stored address. The collector owns the cell once it
//! is installed; the cell's finalizer is the one place the callback's own
//! cleanup runs.
//!
//! This module holds every decision the bridge makes — what the installation
//! allocates and binds, how an invocation recovers the callback, and what the
//! trampoline does with the callback's outcome — together with the lifecycle
//! invariant of the closure-data cell: cleanup runs at most once, exactly once
//! for a collected non-zero-size callback, and never for a capture-free one.

use vstd::prelude::*;

verus! {

/// How an invocation of the trampoline recovers the native callback.
#[derive(Clone, Copy, PartialEq, Eq, Structural, Debug)]
pub enum Recovery {
    /// Read the closure-data cell bound as the trampoline's first upvalue.
    FromUpvalue,
    /// Rebuild a capture-free instance from its type; no stored data pointer
    /// is read, so a dangling cell address can never be dereferenced.
    FromType,
}

/// The recovery an invocation must use for a callback of the given
/// representation size: only a non-zero-size callback has a cell to read.
pub open spec fn spec_recovery(cell_bytes: nat) -> Recovery {
    if cell_bytes > 0 {
        Recovery::FromUpvalue
    } else {
        Recovery::FromType
    }
}

/// Whether installation attaches a finalizer table: exactly when a
/// closure-data cell exists whose contents must be cleaned up.
pub open spec fn spec_has_finalizer(cell_bytes: nat) -> bool {
    cell_bytes > 0
}

/// How many upvalues the trampoline is registered with: one for the
/// closure-data cell, none for a capture-free callback.
pub open spec fn spec_upvalues(cell_bytes: nat) -> int {
    if cell_bytes > 0 {
        1
    } else {
        0
    }
}

/// Decides, at invocation time, how the trampoline recovers the callback
/// from its representation size: through the bound upvalue when a
/// closure-data cell exists, from the type alone when none does — a
/// zero-size cell is a well-formed slot whose pointer must never be read.
pub fn recovery_for(cell_bytes: usize) -> (r: Recovery)
    ensures
        r == spec_recovery(cell_bytes as nat),
{
    if cell_bytes > 0 {
        Recovery::FromUpvalue
    } else {
        Recovery::FromType
    }
}

/// What one installation does to the machine, decided from the byte size of
/// the native callback's representation.
#[derive(Clone, Copy, PartialEq, Eq, Structural, Debug)]
pub struct InstallPlan {
    /// Bytes of machine-managed memory to allocate for the closure-data
    /// cell; zero means no allocation at all.
    pub cell_bytes: usize,
    /// Whether a one-entry finalizer table is attached to the cell.
    pub has_finalizer: bool,
    /// Number of upvalues bound to the trampoline at registration.
    pub upvalues: i32,
    /// How later invocations recover the callback.
    pub recovery: Recovery,
}

/// Decides the installation for a callback of the given representation
/// size. A non-zero-size callback is moved into a machine-owned cell with a
/// finalizer, bound as the trampoline's sole upvalue; a zero-size callback
/// skips allocation entirely and binds nothing.
pub fn install_plan(cell_bytes: usize) -> (p: InstallPlan)
    ensures
        p.cell_bytes == cell_bytes,
        p.has_finalizer == spec_has_finalizer(cell_bytes as nat),
        p.upvalues == spec_upvalues(cell_bytes as nat),
        p.recovery == spec_recovery(cell_bytes as nat),
{
    if cell_bytes > 0 {
        InstallPlan {
            cell_bytes,
            has_finalizer: true,
            upvalues: 1,
            recovery: Recovery::FromUpvalue,
        }
    } else {
        InstallPlan {
            cell_bytes,
            has_finalizer: false,
            upvalues: 0,
            recovery: Recovery::FromType,
        }
    }
}

/// The trampoline's final act for one invocation.
#[derive(Debug)]
pub enum CallVerdict {
    /// Hand this result count back to the machine and return normally.
    Return(i32),
    /// Push this text onto the value stack and invoke the machine's
    /// error-raise primitive, which jumps non-locally and never returns:
    /// nothing may be scheduled after it.
    Raise(String),
}

/// Decides what the trampoline does with the callback's outcome: a reported
/// result count is handed back unchanged; a failure is raised inside the
/// embedded language carrying the failure's textual representation byte for
/// byte — an empty message is raised empty, never padded or dropped.
pub fn call_verdict(outcome: Result<i32, String>) -> (v: CallVerdict)
    ensures
        v is Return <==> outcome is Ok,
        outcome matches Ok(n) ==> v matches CallVerdict::Return(k) && k == n,
        outcome matches Err(m) ==> v matches CallVerdict::Raise(t) && t@ == m@,
{
    match outcome {
        Ok(n) => CallVerdict::Return(n),
        Err(m) => CallVerdict::Raise(m),
    }
}

/// One observable event in the life of an installed callback value.
#[derive(Clone, Copy, PartialEq, Eq, Structural, Debug)]
pub enum BridgeEvent {
    /// The embedded language invoked the runtime-callable value.
    Invoke,
    /// The collector ran the closure-data cell's finalizer.
    Finalize,
}

/// How many finalizations a history holds.
pub open spec fn finalize_count(h: Seq<BridgeEvent>) -> nat
    decreases h.len(),
{
    if h.len() == 0 {
        0
    } else {
        finalize_count(h.drop_last()) + if h.last() is Finalize {
            1nat
        } else {
            0nat
        }
    }
}

/// Which event sequences can happen to one installed callback value. The
/// machine invokes the value only while it is reachable, and a finalized
/// value is unreachable, so every event presupposes that no finalization has
/// happened yet; and the collector finalizes only a value that owns a
/// closure-data cell.
pub open spec fn valid_history(cell_bytes: nat, h: Seq<BridgeEvent>) -> bool
    decreases h.len(),
{
    if h.len() == 0 {
        true
    } else {
        &&& valid_history(cell_bytes, h.drop_last())
        &&& finalize_count(h.drop_last()) == 0
        &&& (h.last() is Finalize ==> cell_bytes > 0)
    }
}

/// A history without finalizations holds no finalization anywhere.
proof fn lemma_count_zero_no_finalize(h: Seq<BridgeEvent>, i: int)
    requires
        finalize_count(h) == 0,
        0 <= i < h.len(),
    ensures
        h[i] !is Finalize,
    decreases h.len(),
{
    if i < h.len() - 1 {
        lemma_count_zero_no_finalize(h.drop_last(), i);
        assert(h.drop_last()[i] == h[i]);
    }
}

/// Cleanup is final: once the collector has finalized the closure-data
/// cell, the value is unreachable, so nothing follows — the callback can be
/// neither invoked again nor finalized a second time.
pub proof fn lemma_cleanup_is_last(cell_bytes: nat, h: Seq<BridgeEvent>, i: int)
    requires
        valid_history(cell_bytes, h),
        0 <= i < h.len(),
        h[i] is Finalize,
    ensures
        i == h.len() - 1,
{
    if i < h.len() - 1 {
        assert(h.drop_last()[i] == h[i]);
        lemma_count_zero_no_finalize(h.drop_last(), i);
    }
}

/// In any possible life of an installed callback, cleanup runs at most
/// once: no history the machine can produce finalizes the cell twice.
pub proof fn lemma_cleanup_at_most_once(cell_bytes: nat, h: Seq<BridgeEvent>)
    requires
        valid_history(cell_bytes, h),
    ensures
        finalize_count(h) <= 1,
    decreases h.len(),
{
    if h.len() > 0 {
        lemma_cleanup_at_most_once(cell_bytes, h.drop_last());
    }
}

/// A non-zero-size callback whose runtime value became unreachable and was
/// collected is cleaned up exactly once: the finalization the collector
/// drives is the first and the last one its history holds.
pub proof fn lemma_cleanup_exactly_once(cell_bytes: nat, h: Seq<BridgeEvent>)
    requires
        cell_bytes > 0,
        valid_history(cell_bytes, h),
        h.len() > 0,
        h.last() is Finalize,
    ensures
        finalize_count(h) == 1,
{
}

/// A capture-free callback owns no closure-data cell, so no cleanup ever
/// runs for it: there is no state to free.
pub proof fn lemma_zero_size_no_cleanup(h: Seq<BridgeEvent>)
    requires
        valid_history(0, h),
    ensures
        finalize_count(h) == 0,
    decreases h.len(),
{
    if h.len() > 0 {
        lemma_zero_size_no_cleanup(h.drop_last());
    }
}

/// A capture-free callback never touches a stored data pointer: its plan
/// allocates no cell, binds no upvalue, attaches no finalizer, and every
/// invocation recovers the callback from its type alone.
pub proof fn lemma_zero_size_reads_no_cell()
    ensures
        spec_recovery(0) is FromType,
        spec_upvalues(0) == 0,
        !spec_has_finalizer(0),
{
}

/// Native-side record of one installed callback's closure-data cell: how
/// large the cell is and whether the collector has finalized it, together
/// with the ghost history of every event the cell has seen.
pub struct CallbackCell {
    cell_bytes: usize,
    finalized: bool,
    history: Ghost<Seq<BridgeEvent>>,
}

impl CallbackCell {
    /// The byte size of the closure-data cell; zero for a capture-free
    /// callback, which owns no cell.
    pub closed spec fn size(self) -> nat {
        self.cell_bytes as nat
    }

    /// Whether the collector has finalized the cell.
    pub closed spec fn spec_finalized(self) -> bool {
        self.finalized
    }

    /// Every event the installed value has seen, in order.
    pub closed spec fn events(self) -> Seq<BridgeEvent> {
        self.history@
    }

    /// Well-formedness: the recorded events form a possible life of the
    /// value, and the finalized flag says whether cleanup has run.
    pub closed spec fn wf(self) -> bool {
        &&& valid_history(self.size(), self.history@)
        &&& (self.finalized <==> finalize_count(self.history@) > 0)
    }

    /// Installs a callback of the given representation size: a fresh value
    /// with an empty history, not yet finalized.
    pub fn install(cell_bytes: usize) -> (c: Self)
        ensures
            c.wf(),
            c.size() == cell_bytes,
            !c.spec_finalized(),
            c.events() == Seq::<BridgeEvent>::empty(),
    {
        CallbackCell { cell_bytes, finalized: false, history: Ghost(Seq::empty()) }
    }

    /// Records one invocation of the runtime-callable value. The machine
    /// reaches the value only while it is not finalized.
    pub fn record_invoke(&mut self)
        requires
            old(self).wf(),
            !old(self).spec_finalized(),
        ensures
            final(self).wf(),
            final(self).size() == old(self).size(),
            !final(self).spec_finalized(),
            final(self).events() == old(self).events().push(BridgeEvent::Invoke),
    {
        proof {
            assert(self.history@.push(BridgeEvent::Invoke).drop_last() =~= self.history@);
        }
        self.history = Ghost(self.history@.push(BridgeEvent::Invoke));
    }

    /// Records the collector running the cell's finalizer: only a non-empty
    /// cell has one, and the machine marks the value finalized so the hook
    /// cannot run again.
    pub fn record_finalize(&mut self)
        requires
            old(self).wf(),
            old(self).size() > 0,
            !old(self).spec_finalized(),
        ensures
            final(self).wf(),
            final(self).size() == old(self).size(),
            final(self).spec_finalized(),
            final(self).events() == old(self).events().push(BridgeEvent::Finalize),
            finalize_count(final(self).events()) == 1,
    {
        proof {
            assert(self.history@.push(BridgeEvent::Finalize).drop_last() =~= self.history@);
        }
        self.history = Ghost(self.history@.push(BridgeEvent::Finalize));
        self.finalized = true;
    }

    /// The byte size of the closure-data cell.
    pub fn size_bytes(&self) -> (n: usize)
        ensures
            n == self.size(),
    {
        self.cell_bytes
    }

    /// Whether the collector has finalized the cell.
    pub fn is_finalized(&self) -> (b: bool)
        ensures
            b == self.spec_finalized(),
    {
        self.finalized
    }
}

} // verus!
