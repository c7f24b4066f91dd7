//! Virtual-dispatch-table shimming.
//!
//! The bridge never patches the host's own table. It builds a private copy:
//! the implementation-defined header slot and the visible entries are taken
//! over, exactly one designated entry is replaced by the trampoline, and one
//! extra slot past the table's declared size is reserved as per-call context
//! storage. Each request clones the template and carries a fresh execution
//! context in the appended slot; the trampoline consumes that context
//! exactly once.

use vstd::prelude::*;

use crate::reply::ReplyChannel;

verus! {

/// Number of visible entries in the host's control-record dispatch table.
pub const VTABLE_ENTRIES: usize = 7;

/// Index (among the visible entries) of the slot the host's dispatch calls
/// to execute a control record; the shim replaces it with the trampoline.
pub const VTABLE_EXECUTE: usize = 3;

/// Everything the trampoline needs to drive the host's native entry points:
/// the discovered sizes and offsets, and the native addresses it calls
/// through (direct execute, stringify, the two destructors, buffer detach).
#[derive(Clone, Copy, PartialEq, Eq, Structural, Debug)]
pub struct ExecuteInfo {
    /// Byte size of the host's native control-record type.
    pub control_script_size: usize,
    /// Byte offset of the embedded script-text buffer inside the record.
    pub script_offset: usize,
    /// Byte offset of the script engine object inside the global game state.
    pub script_engine_offset: usize,
    /// Entry point that executes script text against the engine.
    pub direct_exec: u64,
    /// Entry point that converts the resulting value to text.
    pub get_data_string: u64,
    /// Destructor for the resulting value, called after the text is taken.
    pub c4value_destructor: u64,
    /// Destructor for the text buffer, called after its contents detach.
    pub stdstrbuf_destructor: u64,
    /// Routine that detaches ownership of the text buffer's contents.
    pub grab_pointer: u64,
}

/// Per-request transient state stored in the shim's appended slot: the
/// native-call descriptors and the one-shot channel the outcome flows back
/// through. Consumed exactly once, by the trampoline.
pub struct ExecutionContext {
    pub info: ExecuteInfo,
    pub reply: ReplyChannel,
}

/// The slots of the patched table copy: the original header and entries,
/// with the designated execute entry replaced by the trampoline address and
/// one empty slot appended for per-call context.
pub open spec fn spec_shim_slots(original: Seq<u64>, trampoline: u64) -> Seq<u64> {
    original.update(1 + VTABLE_EXECUTE as int, trampoline).push(0)
}

/// The process-wide patched copy of the host's dispatch table; read-only,
/// cloned once per request.
pub struct ShimTemplate {
    slots: Vec<u64>,
}

impl ShimTemplate {
    /// The table copy's slots, header first, appended context slot last.
    pub closed spec fn spec_slots(&self) -> Seq<u64> {
        self.slots@
    }

    /// The table copy's slots, for inspection.
    pub fn slots(&self) -> (r: &Vec<u64>)
        ensures
            r@ == self.spec_slots(),
    {
        &self.slots
    }
}

/// Builds the shim template from the original table's slots (the header
/// slot followed by the visible entries): every entry is copied, the
/// execute entry is overwritten with the trampoline address, and one empty
/// context slot is appended past the declared size.
pub fn prepare_vtable(original: &Vec<u64>, trampoline: u64) -> (r: ShimTemplate)
    requires
        original@.len() == VTABLE_ENTRIES + 1,
    ensures
        r.spec_slots() == spec_shim_slots(original@, trampoline),
{
    let mut slots: Vec<u64> = Vec::new();
    let mut i: usize = 0;
    while i < original.len()
        invariant
            0 <= i <= original@.len(),
            slots@ == original@.take(i as int),
        decreases original@.len() - i,
    {
        slots.push(original[i]);
        proof {
            assert(slots@ =~= original@.take(i as int + 1));
        }
        i = i + 1;
    }
    proof {
        assert(slots@ =~= original@);
    }
    slots.set(1 + VTABLE_EXECUTE, trampoline);
    slots.push(0);
    proof {
        assert(slots@ =~= spec_shim_slots(original@, trampoline));
    }
    ShimTemplate { slots }
}

/// One request's clone of the shim template, carrying that request's
/// execution context in the appended slot. Installed into exactly one
/// synthetic record.
pub struct ShimInstance {
    slots: Vec<u64>,
    context: Option<ExecutionContext>,
}

impl ShimInstance {
    /// The instance's table slots.
    pub closed spec fn spec_slots(&self) -> Seq<u64> {
        self.slots@
    }

    /// Well-formedness: a context still waiting in the appended slot
    /// carries a reply channel nothing has resolved yet. Instantiation
    /// establishes this, and only the trampoline, which empties the slot
    /// first, ever resolves the channel.
    pub open spec fn wf(&self) -> bool {
        self.spec_context() is Some ==> !self.spec_context()->0.reply.spec_resolved()
    }

    /// The instance's table slots, for inspection.
    pub fn slots(&self) -> (r: &Vec<u64>)
        ensures
            r@ == self.spec_slots(),
    {
        &self.slots
    }

    /// Whether the appended slot still carries its context.
    pub fn has_context(&self) -> (r: bool)
        ensures
            r == (self.spec_context() is Some),
    {
        self.context.is_some()
    }

    /// What the appended context slot holds: the request's context until
    /// the trampoline consumes it, nothing afterwards.
    pub closed spec fn spec_context(&self) -> Option<ExecutionContext> {
        self.context
    }

    /// Clones the template and stores the supplied execution context in the
    /// appended slot. The context's reply channel is still unresolved: it
    /// was created for this request and nothing has run yet.
    pub fn instantiate(template: &ShimTemplate, context: ExecutionContext) -> (r: ShimInstance)
        requires
            !context.reply.spec_resolved(),
        ensures
            r.spec_slots() == template.spec_slots(),
            r.spec_context() == Option::Some(context),
            r.wf(),
    {
        let slots = clone_slots(&template.slots);
        ShimInstance { slots, context: Option::Some(context) }
    }

    /// Reads the appended context slot, emptying it: the first read yields
    /// the request's context, every later read finds the slot already
    /// consumed and yields nothing, leaving the instance unchanged.
    pub fn take_context(&mut self) -> (r: Option<ExecutionContext>)
        ensures
            r == old(self).spec_context(),
            final(self).spec_context() is None,
            final(self).spec_slots() == old(self).spec_slots(),
            final(self).wf(),
    {
        self.context.take()
    }
}

/// Copies a template's slots for one request's instance.
fn clone_slots(slots: &Vec<u64>) -> (r: Vec<u64>)
    ensures
        r@ == slots@,
{
    let mut out: Vec<u64> = Vec::new();
    let mut i: usize = 0;
    while i < slots.len()
        invariant
            0 <= i <= slots@.len(),
            out@ == slots@.take(i as int),
        decreases slots@.len() - i,
    {
        out.push(slots[i]);
        proof {
            assert(out@ =~= slots@.take(i as int + 1));
        }
        i = i + 1;
    }
    proof {
        assert(out@ =~= slots@);
    }
    out
}

} // verus!
