use vstd::prelude::*;
use crate::error::VBoxError;

verus! {

/// Size of guest RAM in bytes (2 GiB).
pub const GUEST_RAM_SIZE: usize = 2147483648;
/// Depth of the guest page-table walk.
pub const PAGE_TABLE_LEVELS: usize = 4;
/// Entries in one page-table level.
pub const PAGE_TABLE_ENTRIES: usize = 512;

/// One physical page of a RAM range.
#[derive(Debug, Clone)]
pub struct PGMPHYSPAGE {
    pub base: u64,
    pub size: u64,
    pub flags: u32,
    pub pData: Vec<u8>,
}

/// A range of guest RAM made of physical pages.
#[derive(Debug, Clone)]
pub struct PGMRAMRANGE {
    pub Base: u64,
    pub cb: u64,
    pub pPages: Vec<PGMPHYSPAGE>,
}

/// A memory-mapped I/O region: guest-physical addresses `base .. base + size`
/// are served by `handler`, called with the address and the access size.
#[derive(Debug, Clone)]
pub struct MmioRegion<H> {
    pub base: u64,
    pub size: u64,
    pub handler: H,
}

/// Guest physical memory: RAM, a flat page table and the MMIO regions.
#[derive(Debug)]
pub struct GuestMemory<H> {
    pub ram: Vec<u8>,
    pub page_table: Vec<u64>,
    pub mmio_regions: Vec<MmioRegion<H>>,
}

/// `ram` after `data` has been written at `gpa`.
pub open spec fn ram_after_write(ram: Seq<u8>, gpa: int, data: Seq<u8>) -> Seq<u8> {
    Seq::new(ram.len(), |i: int| if gpa <= i < gpa + data.len() { data[i - gpa] } else { ram[i] })
}

/// Whether the range `gpa .. gpa + size` lies inside guest RAM.
pub open spec fn ram_range_ok(gpa: int, size: int) -> bool {
    gpa + size <= GUEST_RAM_SIZE
}

impl<H> GuestMemory<H> {
    /// Allocates zeroed guest RAM and an all-absent page table of
    /// `PAGE_TABLE_ENTRIES * PAGE_TABLE_LEVELS` entries.
    pub fn new() -> (r: Result<Self, VBoxError>)
        ensures
            r matches Ok(m) && m.ram@ == Seq::new(GUEST_RAM_SIZE as nat, |i: int| 0u8)
                && m.page_table@ == Seq::new((PAGE_TABLE_ENTRIES * PAGE_TABLE_LEVELS) as nat, |i: int| 0u64)
                && m.mmio_regions@.len() == 0,
    {
        let ram = vec![0u8; GUEST_RAM_SIZE];
        let page_table = vec![0u64; PAGE_TABLE_ENTRIES * PAGE_TABLE_LEVELS];
        assert(ram@ =~= Seq::new(GUEST_RAM_SIZE as nat, |i: int| 0u8));
        assert(page_table@ =~= Seq::new((PAGE_TABLE_ENTRIES * PAGE_TABLE_LEVELS) as nat, |i: int| 0u64));
        Ok(GuestMemory { ram, page_table, mmio_regions: Vec::new() })
    }

    /// Reads `size` bytes of guest RAM at `gpa`; fails when the range leaves RAM.
    pub fn read(&self, gpa: u64, size: usize) -> (r: Result<Vec<u8>, VBoxError>)
        requires
            self.ram@.len() == GUEST_RAM_SIZE,
            gpa + size <= usize::MAX,
        ensures
            ram_range_ok(gpa as int, size as int) ==> (r matches Ok(v)
                && v@ == self.ram@.subrange(gpa as int, gpa + size)),
            !ram_range_ok(gpa as int, size as int) ==> r == Err::<Vec<u8>, VBoxError>(VBoxError::Fail),
    {
        let start = gpa as usize;
        if start + size > GUEST_RAM_SIZE {
            return Err(VBoxError::Fail);
        }
        let mut result: Vec<u8> = Vec::with_capacity(size);
        let mut i: usize = 0;
        while i < size
            invariant
                start == gpa,
                start + size <= GUEST_RAM_SIZE,
                self.ram@.len() == GUEST_RAM_SIZE,
                i <= size,
                result@ =~= self.ram@.subrange(start as int, start + i),
            decreases size - i,
        {
            result.push(self.ram[start + i]);
            i = i + 1;
        }
        Ok(result)
    }

    /// Writes `data` into guest RAM at `gpa`; fails, changing nothing, when the
    /// range leaves RAM.
    pub fn write(&mut self, gpa: u64, data: &[u8]) -> (r: Result<(), VBoxError>)
        requires
            old(self).ram@.len() == GUEST_RAM_SIZE,
            gpa + data@.len() <= usize::MAX,
        ensures
            final(self).page_table@ == old(self).page_table@,
            final(self).mmio_regions@ == old(self).mmio_regions@,
            ram_range_ok(gpa as int, data@.len() as int) ==> r is Ok
                && final(self).ram@ == ram_after_write(old(self).ram@, gpa as int, data@),
            !ram_range_ok(gpa as int, data@.len() as int) ==> r == Err::<(), VBoxError>(VBoxError::Fail)
                && final(self).ram@ == old(self).ram@,
    {
        let start = gpa as usize;
        if start + data.len() > GUEST_RAM_SIZE {
            return Err(VBoxError::Fail);
        }
        let mut i: usize = 0;
        while i < data.len()
            invariant
                start == gpa,
                start + data@.len() <= GUEST_RAM_SIZE,
                self.ram@.len() == GUEST_RAM_SIZE,
                i <= data@.len(),
                self.page_table@ == old(self).page_table@,
                self.mmio_regions@ == old(self).mmio_regions@,
                forall|j: int| 0 <= j < GUEST_RAM_SIZE ==> #[trigger] self.ram@[j] == if start <= j < start + i {
                    data@[j - start]
                } else {
                    old(self).ram@[j]
                },
            decreases data@.len() - i,
        {
            self.ram.set(start + i, data[i]);
            i = i + 1;
        }
        assert(self.ram@ =~= ram_after_write(old(self).ram@, gpa as int, data@));
        Ok(())
    }
}

/// Index into one page-table level for the address bits at `shift`.
pub open spec fn pt_index(gva: u64, shift: u64) -> int {
    ((gva >> shift) & 0x1FFu64) as int
}

/// Position in the flat page table where the level that `entry` points to starts.
pub open spec fn pt_base(entry: u64) -> int {
    (entry & !0xFFFu64) as int
}

/// Whether a page-table entry is present.
pub open spec fn pt_present(entry: u64) -> bool {
    entry & 1u64 != 0
}

/// Whether every entry that the walk for `gva` reads lies inside `pt`.
pub open spec fn pgm_walk_in_bounds(pt: Seq<u64>, gva: u64) -> bool {
    let i4 = pt_index(gva, 39);
    i4 < pt.len() && {
        let e4 = pt[i4];
        pt_present(e4) ==> {
            let i3 = pt_base(e4) + pt_index(gva, 30);
            i3 < pt.len() && {
                let e3 = pt[i3];
                pt_present(e3) ==> {
                    let i2 = pt_base(e3) + pt_index(gva, 21);
                    i2 < pt.len() && {
                        let e2 = pt[i2];
                        pt_present(e2) ==> pt_base(e2) + pt_index(gva, 12) < pt.len()
                    }
                }
            }
        }
    }
}

/// The four-level translation of `gva` through `pt`: `None` when an entry on
/// the way is absent, else the frame of the last entry with the page offset.
pub open spec fn pgm_walk(pt: Seq<u64>, gva: u64) -> Option<u64> {
    let e4 = pt[pt_index(gva, 39)];
    if !pt_present(e4) {
        None
    } else {
        let e3 = pt[pt_base(e4) + pt_index(gva, 30)];
        if !pt_present(e3) {
            None
        } else {
            let e2 = pt[pt_base(e3) + pt_index(gva, 21)];
            if !pt_present(e2) {
                None
            } else {
                let e1 = pt[pt_base(e2) + pt_index(gva, 12)];
                if !pt_present(e1) {
                    None
                } else {
                    Some((e1 & !0xFFFu64) | (gva & 0xFFFu64))
                }
            }
        }
    }
}

/// The last-level entry that the walk for `gva` reaches, following each
/// level's base to the next.
pub open spec fn pgm_leaf_entry(pt: Seq<u64>, gva: u64) -> u64 {
    let e4 = pt[pt_index(gva, 39)];
    let e3 = pt[pt_base(e4) + pt_index(gva, 30)];
    let e2 = pt[pt_base(e3) + pt_index(gva, 21)];
    pt[pt_base(e2) + pt_index(gva, 12)]
}

/// The physical address made of the frame of `entry` and the page offset of `gva`.
proof fn lemma_frame_with_offset(entry: u64, gva: u64)
    ensures
        ((entry & !0xFFFu64) | (gva & 0xFFFu64)) & 0xFFFu64 == gva & 0xFFFu64,
        ((entry & !0xFFFu64) | (gva & 0xFFFu64)) & !0xFFFu64 == entry & !0xFFFu64,
        ((entry & !0xFFFu64) | (gva & 0xFFFu64)) == (entry & !0xFFFu64) + gva % 0x1000,
{
    assert(((entry & !0xFFFu64) | (gva & 0xFFFu64)) & 0xFFFu64 == gva & 0xFFFu64) by (bit_vector);
    assert(((entry & !0xFFFu64) | (gva & 0xFFFu64)) & !0xFFFu64 == entry & !0xFFFu64) by (bit_vector);
    assert(((entry & !0xFFFu64) | (gva & 0xFFFu64)) == (entry & !0xFFFu64) + gva % 0x1000) by (bit_vector);
}

/// A translation that succeeds keeps the page offset of the virtual address
/// (its low twelve bits) and takes every higher bit from the frame of the
/// last-level entry, which is present: the physical address is that frame
/// plus the offset of `gva` within its page.
pub proof fn lemma_pgm_walk_keeps_page_offset(pt: Seq<u64>, gva: u64)
    ensures
        pgm_walk(pt, gva) matches Some(pa) ==> {
            &&& pa & 0xFFFu64 == gva & 0xFFFu64
            &&& pa & !0xFFFu64 == pgm_leaf_entry(pt, gva) & !0xFFFu64
            &&& pa as int == pt_base(pgm_leaf_entry(pt, gva)) + gva % 0x1000
            &&& pt_present(pgm_leaf_entry(pt, gva))
        },
{
    lemma_frame_with_offset(pgm_leaf_entry(pt, gva), gva);
}

/// Two addresses on the same virtual page (equal but for their low twelve
/// bits) walk the same entries: either both fail to translate, or both reach
/// the same frame, each keeping its own page offset.
pub proof fn lemma_pgm_same_page_same_frame(pt: Seq<u64>, g1: u64, g2: u64)
    requires
        g1 & !0xFFFu64 == g2 & !0xFFFu64,
    ensures
        pgm_walk(pt, g1) is Some <==> pgm_walk(pt, g2) is Some,
        pgm_leaf_entry(pt, g1) == pgm_leaf_entry(pt, g2),
        pgm_walk(pt, g1) matches Some(p1) ==> pgm_walk(pt, g2) matches Some(p2) && p1 & !0xFFFu64 == p2 & !0xFFFu64,
{
    assert(g1 & !0xFFFu64 == g2 & !0xFFFu64 ==> ((g1 >> 39u64) & 0x1FFu64) == ((g2 >> 39u64) & 0x1FFu64)
        && ((g1 >> 30u64) & 0x1FFu64) == ((g2 >> 30u64) & 0x1FFu64)
        && ((g1 >> 21u64) & 0x1FFu64) == ((g2 >> 21u64) & 0x1FFu64)
        && ((g1 >> 12u64) & 0x1FFu64) == ((g2 >> 12u64) & 0x1FFu64)) by (bit_vector);
    lemma_pgm_walk_keeps_page_offset(pt, g1);
    lemma_pgm_walk_keeps_page_offset(pt, g2);
}

proof fn lemma_index_bound(gva: u64, shift: u64)
    requires
        shift < 64,
    ensures
        0 <= pt_index(gva, shift) < 512,
{
    assert(((gva >> shift) & 0x1FFu64) <= 0x1FFu64) by (bit_vector);
}

impl<H> GuestMemory<H> {
    /// Translates a guest-virtual address through the page table.
    pub fn pgm_translate(&self, gva: u64) -> (r: Result<u64, VBoxError>)
        requires
            pgm_walk_in_bounds(self.page_table@, gva),
        ensures
            r == match pgm_walk(self.page_table@, gva) {
                Some(a) => Ok::<u64, VBoxError>(a),
                None => Err(VBoxError::Fail),
            },
            r matches Ok(pa) ==> pa & 0xFFFu64 == gva & 0xFFFu64,
            r matches Ok(pa) ==> pa & !0xFFFu64 == pgm_leaf_entry(self.page_table@, gva) & !0xFFFu64,
    {
        proof {
            lemma_pgm_walk_keeps_page_offset(self.page_table@, gva);
            lemma_index_bound(gva, 39);
            lemma_index_bound(gva, 30);
            lemma_index_bound(gva, 21);
            lemma_index_bound(gva, 12);
            assert(self.page_table@.len() == self.page_table.len());
        }
        let pml4_index = ((gva >> 39u64) & 0x1FF) as usize;
        let pdpt_index = ((gva >> 30u64) & 0x1FF) as usize;
        let pd_index = ((gva >> 21u64) & 0x1FF) as usize;
        let pte_index = ((gva >> 12u64) & 0x1FF) as usize;
        let offset = gva & 0xFFF;

        let pml4_entry = self.page_table[pml4_index];
        if pml4_entry & 1 == 0 {
            return Err(VBoxError::Fail);
        }
        let pdpt_base_bits = pml4_entry & !0xFFFu64;
        let pdpt_base = pdpt_base_bits as usize;
        let pdpt_entry = self.page_table[pdpt_base + pdpt_index];
        if pdpt_entry & 1 == 0 {
            return Err(VBoxError::Fail);
        }
        let pd_base_bits = pdpt_entry & !0xFFFu64;
        let pd_base = pd_base_bits as usize;
        let pd_entry = self.page_table[pd_base + pd_index];
        if pd_entry & 1 == 0 {
            return Err(VBoxError::Fail);
        }
        let pt_start_bits = pd_entry & !0xFFFu64;
        let pt_start = pt_start_bits as usize;
        let pt_entry = self.page_table[pt_start + pte_index];
        if pt_entry & 1 == 0 {
            return Err(VBoxError::Fail);
        }
        let frame_base = pt_entry & !0xFFFu64;
        Ok(frame_base | offset)
    }

    /// Adds an MMIO region to the guest memory map.
    pub fn pgm_map_mmio(&mut self, region: MmioRegion<H>)
        ensures
            final(self).mmio_regions@ == old(self).mmio_regions@.push(region),
            final(self).ram@ == old(self).ram@,
            final(self).page_table@ == old(self).page_table@,
    {
        self.mmio_regions.push(region);
    }

    /// Installs the page-fault handler; there is nothing to record.
    pub fn pgm_set_pf_handler(&mut self)
        ensures
            *final(self) == *old(self),
    {
    }
}

/// State of the page manager: the guest memory it owns.
#[derive(Debug)]
pub struct PgmState<H> {
    pub guest_memory: GuestMemory<H>,
}

/// Creates the page manager with freshly allocated guest memory.
pub fn pgm_init<H>() -> (r: Result<PgmState<H>, VBoxError>)
    ensures
        r matches Ok(s) && s.guest_memory.ram@ == Seq::new(GUEST_RAM_SIZE as nat, |i: int| 0u8)
            && s.guest_memory.page_table@ == Seq::new((PAGE_TABLE_ENTRIES * PAGE_TABLE_LEVELS) as nat, |i: int| 0u64)
            && s.guest_memory.mmio_regions@.len() == 0,
{
    let mem = GuestMemory::new()?;
    Ok(PgmState { guest_memory: mem })
}

/// Initialises physical memory management: the same as `pgm_init`.
pub fn PGMR3PhysInit<H>() -> (r: Result<PgmState<H>, VBoxError>)
    ensures
        r matches Ok(s) && s.guest_memory.ram@ == Seq::new(GUEST_RAM_SIZE as nat, |i: int| 0u8)
            && s.guest_memory.page_table@ == Seq::new((PAGE_TABLE_ENTRIES * PAGE_TABLE_LEVELS) as nat, |i: int| 0u64)
            && s.guest_memory.mmio_regions@.len() == 0,
{
    pgm_init()
}

/// Creates the heap for dynamic allocations; it cannot fail.
pub fn PGMR3HeapCreate() -> (r: Result<(), VBoxError>)
    ensures
        r is Ok,
{
    Ok(())
}

/// What is read back of guest RAM is what was last written there: after
/// `data` is written at `gpa`, the bytes at `gpa` are `data`.
pub proof fn lemma_guest_read_after_write(ram: Seq<u8>, gpa: int, data: Seq<u8>)
    requires
        ram.len() == GUEST_RAM_SIZE,
        0 <= gpa,
        ram_range_ok(gpa, data.len() as int),
    ensures
        ram_after_write(ram, gpa, data).subrange(gpa, gpa + data.len()) == data,
{
    assert(ram_after_write(ram, gpa, data).subrange(gpa, gpa + data.len()) =~= data);
}

/// A write leaves every byte outside its range as it was: reading a range
/// disjoint from the written one gives what it held before.
pub proof fn lemma_guest_write_elsewhere(ram: Seq<u8>, gpa: int, data: Seq<u8>, addr: int, size: int)
    requires
        ram.len() == GUEST_RAM_SIZE,
        0 <= addr,
        0 <= size,
        ram_range_ok(addr, size),
        addr + size <= gpa || gpa + data.len() <= addr,
    ensures
        ram_after_write(ram, gpa, data).subrange(addr, addr + size) == ram.subrange(addr, addr + size),
{
    assert(ram_after_write(ram, gpa, data).subrange(addr, addr + size) =~= ram.subrange(addr, addr + size));
}

} // verus!
