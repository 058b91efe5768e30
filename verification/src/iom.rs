use vstd::prelude::*;
use crate::error::VBoxError;
use crate::pgm::MmioRegion;

verus! {

/// An I/O port range: ports `base .. base + size` are served by `handler`,
/// called with the port and the value.
#[derive(Debug, Clone)]
pub struct IoPortRegion<P> {
    pub base: u16,
    pub size: u16,
    pub handler: P,
}

/// The I/O manager: registered MMIO regions and I/O port ranges.
#[derive(Debug, Clone)]
pub struct IomState<H, P> {
    pub mmio_regions: Vec<MmioRegion<H>>,
    pub io_port_regions: Vec<IoPortRegion<P>>,
}

impl<H, P> IomState<H, P> {
    /// An I/O manager with nothing registered.
    pub fn new() -> (s: Self)
        ensures
            s.mmio_regions@.len() == 0,
            s.io_port_regions@.len() == 0,
    {
        IomState { mmio_regions: Vec::new(), io_port_regions: Vec::new() }
    }
}

/// Initialises the I/O manager.
pub fn IOMR3Init<H, P>() -> (r: Result<IomState<H, P>, VBoxError>)
    ensures
        r matches Ok(s) && s.mmio_regions@.len() == 0 && s.io_port_regions@.len() == 0,
{
    let state = IomState::new();
    Ok(state)
}

/// Registers an MMIO region after those already registered.
pub fn iom_register_mmio<H, P>(state: &mut IomState<H, P>, region: MmioRegion<H>) -> (r: Result<(), VBoxError>)
    ensures
        r is Ok,
        final(state).mmio_regions@ == old(state).mmio_regions@.push(region),
        final(state).io_port_regions@ == old(state).io_port_regions@,
{
    state.mmio_regions.push(region);
    Ok(())
}

/// Registers an I/O port range after those already registered.
pub fn iom_register_io_port<H, P>(state: &mut IomState<H, P>, base: u16, size: u16, handler: P) -> (r: Result<(), VBoxError>)
    ensures
        r is Ok,
        final(state).io_port_regions@ == old(state).io_port_regions@.push(IoPortRegion { base, size, handler }),
        final(state).mmio_regions@ == old(state).mmio_regions@,
{
    let region = IoPortRegion { base, size, handler };
    state.io_port_regions.push(region);
    Ok(())
}

/// Whether MMIO region `r` covers `addr`.
pub open spec fn mmio_covers<H>(r: MmioRegion<H>, addr: u64) -> bool {
    r.base <= addr < r.base + r.size
}

/// Whether region `i` is the first of `regions` that covers `addr`.
pub open spec fn mmio_first_cover<H>(regions: Seq<MmioRegion<H>>, addr: u64, i: int) -> bool {
    &&& 0 <= i < regions.len()
    &&& mmio_covers(regions[i], addr)
    &&& forall|j: int| 0 <= j < i ==> !mmio_covers(#[trigger] regions[j], addr)
}

/// At most one region is the first to cover an address, so the region that
/// answers an access is fixed by the address and the order of registration.
pub proof fn lemma_mmio_first_cover_unique<H>(regions: Seq<MmioRegion<H>>, addr: u64, i: int, k: int)
    requires
        mmio_first_cover(regions, addr, i),
        mmio_first_cover(regions, addr, k),
    ensures
        i == k,
{
    if i < k {
        assert(!mmio_covers(regions[i], addr));
    } else if k < i {
        assert(!mmio_covers(regions[k], addr));
    }
}

/// Whether the lookup of `addr` computes `base + size` only where it fits in
/// 64 bits: it does so for every region it reaches whose base lies at or
/// below `addr`.
pub open spec fn mmio_lookup_fits<H>(regions: Seq<MmioRegion<H>>, addr: u64) -> bool {
    forall|i: int| 0 <= i < regions.len() && regions[i].base <= addr
        && (forall|j: int| 0 <= j < i ==> !mmio_covers(#[trigger] regions[j], addr))
        ==> #[trigger] regions[i].base + regions[i].size <= u64::MAX
}

/// Finds the first registered region that covers `addr`.
fn find_mmio<H, P>(state: &IomState<H, P>, addr: u64) -> (r: Option<usize>)
    requires
        mmio_lookup_fits(state.mmio_regions@, addr),
    ensures
        r matches Some(i) ==> mmio_first_cover(state.mmio_regions@, addr, i as int),
        r is None ==> forall|j: int| 0 <= j < state.mmio_regions@.len() ==> !mmio_covers(#[trigger] state.mmio_regions@[j], addr),
{
    let mut i: usize = 0;
    while i < state.mmio_regions.len()
        invariant
            i <= state.mmio_regions@.len(),
            mmio_lookup_fits(state.mmio_regions@, addr),
            forall|j: int| 0 <= j < i ==> !mmio_covers(#[trigger] state.mmio_regions@[j], addr),
        decreases state.mmio_regions@.len() - i,
    {
        let region = &state.mmio_regions[i];
        if addr >= region.base && addr < region.base + region.size {
            return Some(i);
        }
        i = i + 1;
    }
    None
}

/// Reads from MMIO: the first region covering `addr` answers through its
/// handler; fails when no region covers it.
pub fn iom_read_mmio<H: Fn(u64, u32) -> u32, P>(state: &IomState<H, P>, addr: u64, size: u32) -> (r: Result<u32, VBoxError>)
    requires
        mmio_lookup_fits(state.mmio_regions@, addr),
        forall|i: int| 0 <= i < state.mmio_regions@.len() ==> (#[trigger] state.mmio_regions@[i]).handler.requires((addr, size)),
    ensures
        (exists|i: int| mmio_first_cover(state.mmio_regions@, addr, i)) ==> (r matches Ok(v) && exists|i: int|
            mmio_first_cover(state.mmio_regions@, addr, i) && state.mmio_regions@[i].handler.ensures((addr, size), v)),
        !(exists|i: int| mmio_first_cover(state.mmio_regions@, addr, i)) ==> r == Err::<u32, VBoxError>(VBoxError::Fail),
{
    match find_mmio(state, addr) {
        Some(i) => {
            let v = (state.mmio_regions[i].handler)(addr, size);
            Ok(v)
        },
        None => {
            assert forall|i: int| !mmio_first_cover(state.mmio_regions@, addr, i) by {}
            Err(VBoxError::Fail)
        },
    }
}

/// Writes to MMIO: succeeds, without effect, when some region covers `addr`;
/// fails otherwise.
pub fn iom_write_mmio<H, P>(state: &mut IomState<H, P>, addr: u64, size: u32, value: u32) -> (r: Result<(), VBoxError>)
    requires
        mmio_lookup_fits(old(state).mmio_regions@, addr),
    ensures
        final(state).mmio_regions@ == old(state).mmio_regions@,
        final(state).io_port_regions@ == old(state).io_port_regions@,
        (exists|i: int| 0 <= i < old(state).mmio_regions@.len() && mmio_covers(#[trigger] old(state).mmio_regions@[i], addr)) ==> r is Ok,
        !(exists|i: int| 0 <= i < old(state).mmio_regions@.len() && mmio_covers(#[trigger] old(state).mmio_regions@[i], addr))
            ==> r == Err::<(), VBoxError>(VBoxError::Fail),
{
    match find_mmio(state, addr) {
        Some(_) => Ok(()),
        None => Err(VBoxError::Fail),
    }
}

} // verus!
