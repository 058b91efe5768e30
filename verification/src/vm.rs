use vstd::prelude::*;
use crate::error::{VBoxError, VBoxResult};
use crate::cpu::{CpuState, CpuMode, cpu_state_reset};
use crate::pgm::{PgmState, GUEST_RAM_SIZE};
use crate::iem::IemState;
use crate::em::EMState;

verus! {

/// A virtual CPU with its scheduling state.
#[derive(Debug, Clone, Copy)]
pub struct VMCPU {
    pub cpu_state: CpuState,
    pub id: u32,
    pub enm_state: EMState,
}

/// A virtual machine: its CPUs, guest memory and component states. The type
/// parameter is the kind of MMIO handler its page manager dispatches to.
#[derive(Debug)]
pub struct VM<H> {
    pub cpus: Vec<CpuState>,
    pub p_guest_memory: Vec<u8>,
    pub enm_state: EMState,
    pub p_pgm: Option<PgmState<H>>,
    pub p_iem: Option<IemState>,
    pub cCpus: u32,
}

/// The register file of a CPU of a freshly created VM: reset, with flat
/// protected-mode code and data selectors.
pub open spec fn cpu_state_boot() -> CpuState {
    CpuState { cs: 0x08, ds: 0x10, es: 0x10, ss: 0x10, mode: CpuMode::Protected, ..cpu_state_reset() }
}

impl<H> VM<H> {
    /// Creates a VM with `cCpus` CPUs in the boot state and zeroed guest RAM.
    pub fn new(cCpus: u32) -> (r: Result<Self, VBoxError>)
        ensures
            r matches Ok(vm) && vm.cCpus == cCpus && vm.cpus@ == Seq::new(cCpus as nat, |i: int| cpu_state_boot())
                && vm.p_guest_memory@ == Seq::new(GUEST_RAM_SIZE as nat, |i: int| 0u8)
                && vm.enm_state == EMState::Inactive && vm.p_pgm is None && vm.p_iem is None,
    {
        let guest_memory = vec![0u8; GUEST_RAM_SIZE];
        let mut cpus: Vec<CpuState> = Vec::new();
        let mut i: u32 = 0;
        while i < cCpus
            invariant
                i <= cCpus,
                cpus@ == Seq::new(i as nat, |k: int| cpu_state_boot()),
            decreases cCpus - i,
        {
            let mut cpu = CpuState::default();
            cpu.cs = 0x08;
            cpu.ds = 0x10;
            cpu.es = 0x10;
            cpu.ss = 0x10;
            cpu.mode = CpuMode::Protected;
            cpus.push(cpu);
            i = i + 1;
            assert(cpus@ =~= Seq::new(i as nat, |k: int| cpu_state_boot()));
        }
        assert(guest_memory@ =~= Seq::new(GUEST_RAM_SIZE as nat, |i: int| 0u8));
        Ok(VM {
            cpus,
            p_guest_memory: guest_memory,
            enm_state: EMState::Inactive,
            p_pgm: None,
            p_iem: None,
            cCpus,
        })
    }
}

/// Creates a VM with `cCpus` CPUs; see `VM::new`.
pub fn VMR3Create<H>(cCpus: u32) -> (r: Result<VM<H>, VBoxError>)
    ensures
        r matches Ok(vm) && vm.cCpus == cCpus && vm.cpus@ == Seq::new(cCpus as nat, |i: int| cpu_state_boot())
            && vm.p_guest_memory@ == Seq::new(GUEST_RAM_SIZE as nat, |i: int| 0u8)
            && vm.enm_state == EMState::Inactive && vm.p_pgm is None && vm.p_iem is None,
{
    let vm = VM::new(cCpus)?;
    Ok(vm)
}

/// Destroys the VM: its CPUs and guest memory are released.
pub fn VMR3Destroy<H>(pVM: &mut VM<H>) -> (r: Result<(), VBoxError>)
    ensures
        r is Ok,
        *final(pVM) == (VM { cpus: final(pVM).cpus, p_guest_memory: final(pVM).p_guest_memory, ..*old(pVM) }),
        final(pVM).cpus@.len() == 0,
        final(pVM).p_guest_memory@.len() == 0,
{
    pVM.cpus.clear();
    pVM.p_guest_memory = Vec::new();
    Ok(())
}

/// Puts every CPU back into the reset state.
fn reset_cpus<H>(pVM: &mut VM<H>)
    ensures
        final(pVM).cpus@ == Seq::new(old(pVM).cpus@.len(), |i: int| cpu_state_reset()),
        *final(pVM) == (VM { cpus: final(pVM).cpus, ..*old(pVM) }),
{
    let n = pVM.cpus.len();
    let mut i: usize = 0;
    while i < n
        invariant
            i <= n,
            n == pVM.cpus@.len(),
            n == old(pVM).cpus@.len(),
            forall|k: int| 0 <= k < i ==> #[trigger] pVM.cpus@[k] == cpu_state_reset(),
            *pVM == (VM { cpus: pVM.cpus, ..*old(pVM) }),
        decreases n - i,
    {
        pVM.cpus.set(i, CpuState::default());
        i = i + 1;
    }
    assert(pVM.cpus@ =~= Seq::new(old(pVM).cpus@.len(), |i: int| cpu_state_reset()));
}

/// Powers the VM off: it becomes inactive and every CPU is reset.
pub fn VMR3PowerOff<H>(pVM: &mut VM<H>) -> (r: Result<(), VBoxError>)
    ensures
        r is Ok,
        final(pVM).cpus@ == Seq::new(old(pVM).cpus@.len(), |i: int| cpu_state_reset()),
        *final(pVM) == (VM { cpus: final(pVM).cpus, enm_state: EMState::Inactive, ..*old(pVM) }),
{
    pVM.enm_state = EMState::Inactive;
    reset_cpus(pVM);
    Ok(())
}

/// Resets the VM: every CPU is reset and the VM becomes inactive.
pub fn VMR3Reset<H>(pVM: &mut VM<H>) -> (r: Result<(), VBoxError>)
    ensures
        r is Ok,
        final(pVM).cpus@ == Seq::new(old(pVM).cpus@.len(), |i: int| cpu_state_reset()),
        *final(pVM) == (VM { cpus: final(pVM).cpus, enm_state: EMState::Inactive, ..*old(pVM) }),
{
    reset_cpus(pVM);
    pVM.enm_state = EMState::Inactive;
    Ok(())
}

/// Initialises the VM: it becomes inactive.
pub fn VMR3Init<H>(pVM: &mut VM<H>) -> (r: Result<(), VBoxError>)
    ensures
        r is Ok,
        *final(pVM) == (VM { enm_state: EMState::Inactive, ..*old(pVM) }),
{
    pVM.enm_state = EMState::Inactive;
    Ok(())
}

/// Lifecycle state of a user-facing VM.
#[derive(Debug, Clone, Copy, PartialEq, Eq, Structural)]
pub enum VMState {
    PoweredOff,
    Running,
    Paused,
    Saved,
    Teleporting,
    FaultError,
    Stuck,
    PoweredOffLingering,
}

/// A user-facing VM: an id, a name and a lifecycle state.
pub struct VBoxVM {
    pub id: u32,
    pub name: String,
    pub state: VMState,
}

impl VBoxVM {
    /// A powered-off VM with id 0 and the given name.
    pub fn new(name: &str) -> (vm: Self)
        ensures
            vm.id == 0,
            vm.name@ == name@,
            vm.state == VMState::PoweredOff,
    {
        VBoxVM { id: 0, name: name.to_owned(), state: VMState::PoweredOff }
    }

    /// Starts the VM: it becomes running.
    pub fn start(&mut self) -> (r: VBoxResult<()>)
        ensures
            r is Ok,
            final(self).state == VMState::Running,
            final(self).id == old(self).id,
            final(self).name == old(self).name,
    {
        self.state = VMState::Running;
        Ok(())
    }

    /// Stops the VM: it becomes powered off.
    pub fn stop(&mut self) -> (r: VBoxResult<()>)
        ensures
            r is Ok,
            final(self).state == VMState::PoweredOff,
            final(self).id == old(self).id,
            final(self).name == old(self).name,
    {
        self.state = VMState::PoweredOff;
        Ok(())
    }

    /// Pauses the VM.
    pub fn pause(&mut self) -> (r: VBoxResult<()>)
        ensures
            r is Ok,
            final(self).state == VMState::Paused,
            final(self).id == old(self).id,
            final(self).name == old(self).name,
    {
        self.state = VMState::Paused;
        Ok(())
    }

    /// Saves the VM: it becomes saved.
    pub fn save(&mut self) -> (r: VBoxResult<()>)
        ensures
            r is Ok,
            final(self).state == VMState::Saved,
            final(self).id == old(self).id,
            final(self).name == old(self).name,
    {
        self.state = VMState::Saved;
        Ok(())
    }

    /// Resets the VM: it becomes powered off.
    pub fn reset(&mut self) -> (r: VBoxResult<()>)
        ensures
            r is Ok,
            final(self).state == VMState::PoweredOff,
            final(self).id == old(self).id,
            final(self).name == old(self).name,
    {
        self.state = VMState::PoweredOff;
        Ok(())
    }
}

impl Default for VBoxVM {
    fn default() -> (vm: Self)
        ensures
            vm.id == 0,
            vm.name@ == "default"@,
            vm.state == VMState::PoweredOff,
    {
        Self::new("default")
    }
}

} // verus!
