use vstd::prelude::*;
use crate::error::VBoxError;
use crate::cpu::CpuState;
use crate::vm::VM;

verus! {

/// Scheduling state of the execution manager.
#[derive(Debug, Clone, Copy, PartialEq, Eq, Structural)]
pub enum EMState {
    Inactive,
    Running,
    Paused,
    DebugState,
    Resume,
    FatalError,
}

/// Execution-manager view of one virtual CPU.
#[derive(Debug, Clone, Copy)]
pub struct EMCPU {
    pub cpu_state: CpuState,
    pub enm_state: EMState,
    pub id: u32,
}

/// Strict status code of the execution manager.
pub type VBOXSTRICTRC = VBoxError;

/// Initialises the execution manager; it cannot fail.
pub fn EMR3Init() -> (r: Result<(), VBoxError>)
    ensures
        r is Ok,
{
    Ok(())
}

/// Shuts the execution manager down; it cannot fail.
pub fn EMR3Shutdown() -> (r: Result<(), VBoxError>)
    ensures
        r is Ok,
{
    Ok(())
}

/// `vm` with only its scheduling state changed to `s`.
pub open spec fn vm_with_state<H>(vm: VM<H>, s: EMState) -> VM<H> {
    VM { enm_state: s, ..vm }
}

/// Suspends the VM: it becomes paused.
pub fn EMR3Suspend<H>(pVM: &mut VM<H>) -> (r: Result<(), VBoxError>)
    ensures
        r is Ok,
        *final(pVM) == vm_with_state(*old(pVM), EMState::Paused),
{
    pVM.enm_state = EMState::Paused;
    Ok(())
}

/// Resumes the VM: it becomes running.
pub fn EMR3Resume<H>(pVM: &mut VM<H>) -> (r: Result<(), VBoxError>)
    ensures
        r is Ok,
        *final(pVM) == vm_with_state(*old(pVM), EMState::Running),
{
    pVM.enm_state = EMState::Running;
    Ok(())
}

/// Pauses the VM.
pub fn EMR3Pause<H>(pVM: &mut VM<H>) -> (r: Result<(), VBoxError>)
    ensures
        r is Ok,
        *final(pVM) == vm_with_state(*old(pVM), EMState::Paused),
{
    pVM.enm_state = EMState::Paused;
    Ok(())
}

/// Runs the VM for as long as it is in the running state. Nothing in the
/// loop changes that state, so a running VM never returns from here; the
/// call is only made on a VM that is not running, and returns at once.
pub fn em_execute_vm<H>(pVM: &mut VM<H>) -> (r: Result<(), VBoxError>)
    requires
        old(pVM).enm_state != EMState::Running,
    ensures
        r is Ok,
        *final(pVM) == *old(pVM),
{
    while pVM.enm_state == EMState::Running
        invariant
            pVM.enm_state != EMState::Running,
            *pVM == *old(pVM),
        decreases 0nat,
    {
    }
    Ok(())
}

} // verus!
