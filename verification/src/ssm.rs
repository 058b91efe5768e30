use vstd::prelude::*;
use crate::error::VBoxError;
use crate::cpu::{CpuState, cpu_state_reset};
use crate::vm::VM;

verus! {

/// A saved-state stream and the read position in it.
#[derive(Debug, Clone)]
pub struct SSMHandle {
    pub data: Vec<u8>,
    pub position: usize,
}

/// Everything that a saved state holds of a VM.
#[derive(Debug, Clone)]
pub struct SSMSavedState {
    pub cpu_state: CpuState,
    pub memory_snapshot: Vec<u8>,
    pub device_states: Vec<u8>,
    pub version: u32,
    pub pass: u32,
}

/// Format version written into every saved state.
pub const SSM_VERSION: u32 = 1;

impl SSMHandle {
    /// An empty stream positioned at its start.
    pub fn new() -> (h: Self)
        ensures
            h.data@.len() == 0,
            h.position == 0,
    {
        SSMHandle { data: Vec::new(), position: 0 }
    }
}

/// Initialises the saved-state manager.
pub fn SSMR3Init() -> (r: Result<SSMHandle, VBoxError>)
    ensures
        r matches Ok(h) && h.data@.len() == 0 && h.position == 0,
{
    let handle = SSMHandle::new();
    Ok(handle)
}

/// The register file that a saved state records for `vm`: that of its first
/// CPU, or the reset state when it has none.
pub open spec fn ssm_saved_cpu<H>(vm: VM<H>) -> CpuState {
    if vm.cpus@.len() > 0 {
        vm.cpus@[0]
    } else {
        cpu_state_reset()
    }
}

/// The CPU saved from a VM with at least one CPU is its first CPU: two such
/// VMs whose first CPUs agree save the same CPU state, whatever their other
/// CPUs hold. A VM without CPUs saves the reset state.
pub proof fn lemma_ssm_saves_first_cpu<H>(vm: VM<H>, other: VM<H>)
    ensures
        vm.cpus@.len() > 0 ==> ssm_saved_cpu(vm) == vm.cpus@[0],
        vm.cpus@.len() == 0 ==> ssm_saved_cpu(vm) == cpu_state_reset(),
        vm.cpus@.len() > 0 && other.cpus@.len() > 0 && vm.cpus@[0] == other.cpus@[0]
            ==> ssm_saved_cpu(vm) == ssm_saved_cpu(other),
{
}

/// Captures the saved state of `pVM`: its first CPU, a copy of guest memory,
/// no device state, the current format version and pass 0. Encoding the
/// result into bytes is left to the caller.
pub fn ssm_capture<H>(pVM: &VM<H>) -> (s: SSMSavedState)
    ensures
        s.cpu_state == ssm_saved_cpu(*pVM),
        pVM.cpus@.len() > 0 ==> s.cpu_state == pVM.cpus@[0],
        pVM.cpus@.len() == 0 ==> s.cpu_state == cpu_state_reset(),
        s.memory_snapshot@ == pVM.p_guest_memory@,
        s.device_states@.len() == 0,
        s.version == SSM_VERSION,
        s.pass == 0,
{
    let cpu_state = if pVM.cpus.len() > 0 {
        pVM.cpus[0]
    } else {
        CpuState::default()
    };
    let mut memory_snapshot: Vec<u8> = Vec::with_capacity(pVM.p_guest_memory.len());
    let mut i: usize = 0;
    while i < pVM.p_guest_memory.len()
        invariant
            i <= pVM.p_guest_memory@.len(),
            memory_snapshot@ =~= pVM.p_guest_memory@.subrange(0, i as int),
        decreases pVM.p_guest_memory@.len() - i,
    {
        memory_snapshot.push(pVM.p_guest_memory[i]);
        i = i + 1;
    }
    SSMSavedState { cpu_state, memory_snapshot, device_states: Vec::new(), version: SSM_VERSION, pass: 0 }
}

/// Registers a component with the saved-state manager; only logged.
pub fn SSMR3Register(name: &str) -> (r: Result<(), VBoxError>)
    ensures
        r is Ok,
{
    Ok(())
}

} // verus!
