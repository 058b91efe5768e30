use vstd::prelude::*;
use crate::error::VBoxError;

verus! {

/// Number of interrupt vectors the trap manager tracks.
pub const TRPM_VECTOR_COUNT: usize = 256;

/// One interrupt-descriptor-table entry.
#[derive(Debug, Clone, Copy, PartialEq, Eq, Structural)]
pub struct ExceptionEntry {
    pub vector: u8,
    pub handler: u64,
    pub type_attr: u8,
    pub segment: u16,
    pub present: bool,
}

/// State of the trap manager: the guest IDT and its entries.
#[derive(Debug, Clone)]
pub struct TRPMState {
    pub idt_base: u64,
    pub idt_limit: u16,
    pub idt_valid: bool,
    pub exceptions: Vec<ExceptionEntry>,
}

/// An IDT entry with every field zero and not present.
pub open spec fn exception_entry_empty() -> ExceptionEntry {
    ExceptionEntry { vector: 0, handler: 0, type_attr: 0, segment: 0, present: false }
}

impl TRPMState {
    /// A trap manager without an IDT and with `TRPM_VECTOR_COUNT` empty entries.
    pub fn new() -> (s: Self)
        ensures
            s.idt_base == 0,
            s.idt_limit == 0,
            !s.idt_valid,
            s.exceptions@ == Seq::new(TRPM_VECTOR_COUNT as nat, |i: int| exception_entry_empty()),
    {
        let mut exceptions: Vec<ExceptionEntry> = Vec::new();
        let mut i: usize = 0;
        while i < TRPM_VECTOR_COUNT
            invariant
                i <= TRPM_VECTOR_COUNT,
                exceptions@ == Seq::new(i as nat, |k: int| exception_entry_empty()),
            decreases TRPM_VECTOR_COUNT - i,
        {
            exceptions.push(ExceptionEntry { vector: 0, handler: 0, type_attr: 0, segment: 0, present: false });
            i = i + 1;
            assert(exceptions@ =~= Seq::new(i as nat, |k: int| exception_entry_empty()));
        }
        TRPMState { idt_base: 0, idt_limit: 0, idt_valid: false, exceptions }
    }
}

/// An operation on the trap manager's IDT record.
pub enum TrpmOp {
    SetIdt(u64, u16),
    InjectInterrupt(u8),
    GetIdt,
}

/// The IDT record of a trap manager: base, limit and whether it is valid.
pub open spec fn trpm_idt(s: TRPMState) -> (u64, u16, bool) {
    (s.idt_base, s.idt_limit, s.idt_valid)
}

/// The IDT record after `op`: setting the IDT records it and makes it valid;
/// the other operations leave the record as it is.
pub open spec fn trpm_idt_after(idt: (u64, u16, bool), op: TrpmOp) -> (u64, u16, bool) {
    match op {
        TrpmOp::SetIdt(base, limit) => (base, limit, true),
        _ => idt,
    }
}

/// The IDT record after the operations `ops`, in order.
pub open spec fn trpm_idt_after_all(idt: (u64, u16, bool), ops: Seq<TrpmOp>) -> (u64, u16, bool)
    decreases ops.len(),
{
    if ops.len() == 0 {
        idt
    } else {
        trpm_idt_after(trpm_idt_after_all(idt, ops.drop_last()), ops.last())
    }
}

/// Interrupts can be delivered exactly when the IDT has been set: starting
/// from an initialised trap manager, after any sequence of operations the IDT
/// is valid if and only if the sequence sets it at least once.
pub proof fn lemma_trpm_interrupts_iff_idt_set(ops: Seq<TrpmOp>)
    ensures
        trpm_idt_after_all((0, 0, false), ops).2 <==> exists|i: int| 0 <= i < ops.len() && #[trigger] ops[i] is SetIdt,
    decreases ops.len(),
{
    if ops.len() > 0 {
        let prev = ops.drop_last();
        lemma_trpm_interrupts_iff_idt_set(prev);
        if exists|i: int| 0 <= i < prev.len() && #[trigger] prev[i] is SetIdt {
            let i = choose|i: int| 0 <= i < prev.len() && #[trigger] prev[i] is SetIdt;
            assert(ops[i] is SetIdt);
        }
        if exists|i: int| 0 <= i < ops.len() && #[trigger] ops[i] is SetIdt {
            let i = choose|i: int| 0 <= i < ops.len() && #[trigger] ops[i] is SetIdt;
            if i < prev.len() {
                assert(prev[i] is SetIdt);
            }
        }
    }
}

/// Initialises the trap manager.
pub fn TRPM3Init() -> (r: Result<TRPMState, VBoxError>)
    ensures
        r matches Ok(s) && s.idt_base == 0 && s.idt_limit == 0 && !s.idt_valid && trpm_idt(s) == (0u64, 0u16, false)
            && s.exceptions@ == Seq::new(TRPM_VECTOR_COUNT as nat, |i: int| exception_entry_empty()),
{
    let state = TRPMState::new();
    Ok(state)
}

/// Records the guest IDT and marks it valid.
pub fn trpm_set_idt(state: &mut TRPMState, base: u64, limit: u16) -> (r: Result<(), VBoxError>)
    ensures
        r is Ok,
        final(state).idt_base == base,
        final(state).idt_limit == limit,
        final(state).idt_valid,
        trpm_idt(*final(state)) == trpm_idt_after(trpm_idt(*old(state)), TrpmOp::SetIdt(base, limit)),
        final(state).exceptions@ == old(state).exceptions@,
{
    state.idt_base = base;
    state.idt_limit = limit;
    state.idt_valid = true;
    Ok(())
}

/// Injects interrupt `vector`; the only effect is a log line, so the state is
/// left as it is.
pub fn trpm_inject_interrupt(state: &mut TRPMState, vector: u8) -> (r: Result<(), VBoxError>)
    ensures
        r is Ok,
        final(state).idt_base == old(state).idt_base,
        final(state).idt_limit == old(state).idt_limit,
        final(state).idt_valid == old(state).idt_valid,
        trpm_idt(*final(state)) == trpm_idt_after(trpm_idt(*old(state)), TrpmOp::InjectInterrupt(vector)),
        final(state).exceptions@ == old(state).exceptions@,
{
    Ok(())
}

/// The recorded IDT base and limit.
pub fn trpm_get_idt(state: &TRPMState) -> (r: (u64, u16))
    ensures
        r == (state.idt_base, state.idt_limit),
{
    (state.idt_base, state.idt_limit)
}

/// Whether an IDT has been set, so that interrupts can be delivered.
pub fn trpm_check_interrupts(state: &TRPMState) -> (r: bool)
    ensures
        r == state.idt_valid,
{
    state.idt_valid
}

} // verus!
