use vstd::prelude::*;
use crate::error::VBoxError;
use crate::em::EMState;
use crate::vm::VM;

verus! {

/// A watched guest address.
#[derive(Debug, Clone, Copy, PartialEq, Eq, Structural)]
pub struct Watchpoint {
    pub address: u64,
    pub size: u8,
    pub rw: u8,
}

/// State of the debugger.
#[derive(Debug, Clone)]
pub struct DbgState {
    pub halted: bool,
    pub breakpoint_count: u32,
    pub trace_enabled: bool,
    pub watchpoints: Vec<Watchpoint>,
}

impl DbgState {
    /// A debugger with nothing halted, traced or watched.
    pub fn new() -> (s: Self)
        ensures
            !s.halted,
            s.breakpoint_count == 0,
            !s.trace_enabled,
            s.watchpoints@.len() == 0,
    {
        DbgState { halted: false, breakpoint_count: 0, trace_enabled: false, watchpoints: Vec::new() }
    }
}

/// Initialises the debugger.
pub fn DBGR3Init() -> (r: Result<DbgState, VBoxError>)
    ensures
        r matches Ok(s) && !s.halted && s.breakpoint_count == 0 && !s.trace_enabled && s.watchpoints@.len() == 0,
{
    let state = DbgState::new();
    Ok(state)
}

/// Halts the VM in the debugger; `reason` is for the log only.
pub fn dbg_halt<H>(pVM: &mut VM<H>, reason: &str) -> (r: Result<(), VBoxError>)
    ensures
        r is Ok,
        *final(pVM) == (VM { enm_state: EMState::DebugState, ..*old(pVM) }),
{
    pVM.enm_state = EMState::DebugState;
    Ok(())
}

/// Lets the VM run again after a debugger halt.
pub fn dbg_continue<H>(pVM: &mut VM<H>) -> (r: Result<(), VBoxError>)
    ensures
        r is Ok,
        *final(pVM) == (VM { enm_state: EMState::Running, ..*old(pVM) }),
{
    pVM.enm_state = EMState::Running;
    Ok(())
}

/// Sets a breakpoint: a one-byte watchpoint at `addr`, counted.
pub fn dbg_set_breakpoint(state: &mut DbgState, addr: u64) -> (r: Result<(), VBoxError>)
    requires
        old(state).breakpoint_count < u32::MAX,
    ensures
        r is Ok,
        final(state).watchpoints@ == old(state).watchpoints@.push(Watchpoint { address: addr, size: 1, rw: 0 }),
        final(state).breakpoint_count == old(state).breakpoint_count + 1,
        final(state).halted == old(state).halted,
        final(state).trace_enabled == old(state).trace_enabled,
{
    state.watchpoints.push(Watchpoint { address: addr, size: 1, rw: 0 });
    state.breakpoint_count = state.breakpoint_count + 1;
    Ok(())
}

/// Reads `size` bytes of the VM's guest memory at `addr`; fails when the range
/// leaves guest memory.
pub fn dbg_read_memory<H>(pVM: &VM<H>, addr: u64, size: usize) -> (r: Result<Vec<u8>, VBoxError>)
    requires
        addr + size <= usize::MAX,
    ensures
        addr + size <= pVM.p_guest_memory@.len() ==> (r matches Ok(v)
            && v@ == pVM.p_guest_memory@.subrange(addr as int, addr + size)),
        addr + size > pVM.p_guest_memory@.len() ==> r == Err::<Vec<u8>, VBoxError>(VBoxError::Fail),
{
    let start = addr as usize;
    if start + size > pVM.p_guest_memory.len() {
        return Err(VBoxError::Fail);
    }
    let mut out: Vec<u8> = Vec::with_capacity(size);
    let mut i: usize = 0;
    while i < size
        invariant
            start == addr,
            start + size <= pVM.p_guest_memory.len(),
            i <= size,
            out@ =~= pVM.p_guest_memory@.subrange(start as int, start + i),
        decreases size - i,
    {
        out.push(pVM.p_guest_memory[start + i]);
        i = i + 1;
    }
    Ok(out)
}

/// Guest memory `mem` after `data` has been written at `addr`.
pub open spec fn memory_after_write(mem: Seq<u8>, addr: int, data: Seq<u8>) -> Seq<u8> {
    Seq::new(mem.len(), |i: int| if addr <= i < addr + data.len() { data[i - addr] } else { mem[i] })
}

/// Writes `data` into the VM's guest memory at `addr`; fails, changing
/// nothing, when the range leaves guest memory.
pub fn dbg_write_memory<H>(pVM: &mut VM<H>, addr: u64, data: &[u8]) -> (r: Result<(), VBoxError>)
    requires
        addr + data@.len() <= usize::MAX,
    ensures
        *final(pVM) == (VM { p_guest_memory: final(pVM).p_guest_memory, ..*old(pVM) }),
        addr + data@.len() <= old(pVM).p_guest_memory@.len() ==> r is Ok
            && final(pVM).p_guest_memory@ == memory_after_write(old(pVM).p_guest_memory@, addr as int, data@),
        addr + data@.len() > old(pVM).p_guest_memory@.len() ==> r == Err::<(), VBoxError>(VBoxError::Fail)
            && final(pVM).p_guest_memory@ == old(pVM).p_guest_memory@,
{
    let start = addr as usize;
    if start + data.len() > pVM.p_guest_memory.len() {
        return Err(VBoxError::Fail);
    }
    let mut i: usize = 0;
    while i < data.len()
        invariant
            start == addr,
            start + data@.len() <= pVM.p_guest_memory.len(),
            pVM.p_guest_memory@.len() == old(pVM).p_guest_memory@.len(),
            i <= data@.len(),
            *pVM == (VM { p_guest_memory: pVM.p_guest_memory, ..*old(pVM) }),
            forall|j: int| 0 <= j < pVM.p_guest_memory@.len() ==> #[trigger] pVM.p_guest_memory@[j] == if start <= j < start + i {
                data@[j - start]
            } else {
                old(pVM).p_guest_memory@[j]
            },
        decreases data@.len() - i,
    {
        pVM.p_guest_memory.set(start + i, data[i]);
        i = i + 1;
    }
    assert(pVM.p_guest_memory@ =~= memory_after_write(old(pVM).p_guest_memory@, addr as int, data@));
    Ok(())
}

/// What the debugger reads back is what it last wrote: after `data` is
/// written at `addr`, the bytes at `addr` are `data`.
pub proof fn lemma_debug_read_after_write(mem: Seq<u8>, addr: int, data: Seq<u8>)
    requires
        0 <= addr,
        addr + data.len() <= mem.len(),
    ensures
        memory_after_write(mem, addr, data).subrange(addr, addr + data.len()) == data,
{
    assert(memory_after_write(mem, addr, data).subrange(addr, addr + data.len()) =~= data);
}

/// A debugger write leaves every byte outside its range as it was.
pub proof fn lemma_debug_write_elsewhere(mem: Seq<u8>, addr: int, data: Seq<u8>, other: int, size: int)
    requires
        0 <= other,
        0 <= size,
        other + size <= mem.len(),
        other + size <= addr || addr + data.len() <= other,
    ensures
        memory_after_write(mem, addr, data).subrange(other, other + size) == mem.subrange(other, other + size),
{
    assert(memory_after_write(mem, addr, data).subrange(other, other + size) =~= mem.subrange(other, other + size));
}

} // verus!
