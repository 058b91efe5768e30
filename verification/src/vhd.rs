use vstd::prelude::*;
use std::collections::HashMap;
use crate::error::{VBoxError, VBoxResult};
use crate::bytes::{le16, le32, le64, read_le_u16, read_le_u32, read_le_u64, read_array, zeroed};
use crate::disk::{DiskFormat, DiskImageInfo, VhdImageType, disk_type_of};

verus! {

/// Sector size of VHD images.
pub const VHD_SECTOR_SIZE: u32 = 512;
/// Block size of dynamic VHD images (2 MiB).
pub const VHD_BLOCK_SIZE: u32 = 2097152;
/// Size of the VHD footer.
pub const VHD_FOOTER_SIZE: u32 = 512;
/// Largest VHD, in sectors (2 TiB).
pub const VHD_MAX_SECTORS: u64 = 4294967296;
/// Format version written into new footers.
pub const VHD_FOOTER_VERSION: u32 = 0x00010000;
/// Data offset of a footer without a dynamic header.
pub const VHD_NO_DATA_OFFSET: u64 = 0xFFFFFFFFFFFFFFFF;

/// The footer cookie, "conectix".
pub open spec fn vhd_cookie() -> Seq<u8> {
    seq![0x63u8, 0x6Fu8, 0x6Eu8, 0x65u8, 0x63u8, 0x74u8, 0x69u8, 0x78u8]
}

/// The VHD footer, laid out byte for byte as it is stored.
#[derive(Debug, Clone, Copy)]
pub struct VhdFooter {
    pub cookie: [u8; 8],
    pub features: u32,
    pub version: u32,
    pub data_offset: u64,
    pub timestamp: u32,
    pub creator_app: [u8; 4],
    pub creator_ver: u32,
    pub creator_os: u32,
    pub orig_size: u64,
    pub cur_size: u64,
    pub disk_geometry_cylinder: u16,
    pub disk_geometry_heads: u8,
    pub disk_geometry_sectors: u8,
    pub disk_type: u32,
    pub checksum: u32,
    pub unique_id: [u8; 16],
    pub saved_state: u8,
    pub reserved: [u8; 427],
}

/// The footer of a new image: cookie and version set, no dynamic header,
/// everything else zero.
pub open spec fn vhd_footer_is_default(f: VhdFooter) -> bool {
    &&& f.cookie@ == vhd_cookie()
    &&& f.features == 0
    &&& f.version == VHD_FOOTER_VERSION
    &&& f.data_offset == VHD_NO_DATA_OFFSET
    &&& f.timestamp == 0
    &&& f.creator_app@ == Seq::new(4, |i: int| 0u8)
    &&& f.creator_ver == 0
    &&& f.creator_os == 0
    &&& f.orig_size == 0
    &&& f.cur_size == 0
    &&& f.disk_geometry_cylinder == 0
    &&& f.disk_geometry_heads == 0
    &&& f.disk_geometry_sectors == 0
    &&& f.disk_type == 0
    &&& f.checksum == 0
    &&& f.unique_id@ == Seq::new(16, |i: int| 0u8)
    &&& f.saved_state == 0
    &&& f.reserved@ == Seq::new(427, |i: int| 0u8)
}

impl Default for VhdFooter {
    fn default() -> (f: Self)
        ensures
            vhd_footer_is_default(f),
    {
        let f = VhdFooter {
            cookie: [0x63u8, 0x6Fu8, 0x6Eu8, 0x65u8, 0x63u8, 0x74u8, 0x69u8, 0x78u8],
            features: 0,
            version: VHD_FOOTER_VERSION,
            data_offset: VHD_NO_DATA_OFFSET,
            timestamp: 0,
            creator_app: [0u8; 4],
            creator_ver: 0,
            creator_os: 0,
            orig_size: 0,
            cur_size: 0,
            disk_geometry_cylinder: 0,
            disk_geometry_heads: 0,
            disk_geometry_sectors: 0,
            disk_type: 0,
            checksum: 0,
            unique_id: [0u8; 16],
            saved_state: 0,
            reserved: [0u8; 427],
        };
        assert(f.cookie@ =~= vhd_cookie());
        assert(f.creator_app@ =~= Seq::new(4, |i: int| 0u8));
        assert(f.unique_id@ =~= Seq::new(16, |i: int| 0u8));
        assert(f.reserved@ =~= Seq::new(427, |i: int| 0u8));
        f
    }
}

/// An entry of the block array: where a block lies (0xFFFFFFFF = nowhere).
#[derive(Debug, Clone, Copy)]
pub struct VhdBlockArrayEntry {
    pub offset: u32,
    pub type_: u32,
    pub timestamp: u32,
    pub file_name: [u8; 256],
}

/// A block-array entry that points nowhere.
pub open spec fn vhd_block_entry_is_default(e: VhdBlockArrayEntry) -> bool {
    e.offset == 0xFFFFFFFF && e.type_ == 0 && e.timestamp == 0 && e.file_name@ == Seq::new(256, |i: int| 0u8)
}

impl Default for VhdBlockArrayEntry {
    fn default() -> (e: Self)
        ensures
            vhd_block_entry_is_default(e),
    {
        let e = VhdBlockArrayEntry { offset: 0xFFFFFFFF, type_: 0, timestamp: 0, file_name: [0u8; 256] };
        assert(e.file_name@ =~= Seq::new(256, |i: int| 0u8));
        e
    }
}

/// An entry of the block allocation table.
#[derive(Debug, Clone, Copy, PartialEq, Eq, Structural)]
pub struct VhdBatEntry {
    pub block_offset: u32,
    pub block_type: u32,
}

/// Block offset of a BAT entry whose block is not allocated.
pub const VHD_BAT_UNUSED: u32 = 0xFFFFFFFF;

impl Default for VhdBatEntry {
    /// An entry for a block that is not allocated.
    fn default() -> (e: Self)
        ensures
            e.block_offset == VHD_BAT_UNUSED,
            e.block_type == 0,
    {
        VhdBatEntry { block_offset: VHD_BAT_UNUSED, block_type: 0 }
    }
}

/// The parsed description of a VHD: footer, block array, allocation table
/// and geometry.
#[derive(Debug)]
pub struct VhdHeader {
    pub footer: VhdFooter,
    pub block_array: Vec<VhdBlockArrayEntry>,
    pub bat: Vec<VhdBatEntry>,
    pub block_size: u32,
    pub total_blocks: u64,
    pub disk_type: VhdImageType,
}

impl Default for VhdHeader {
    fn default() -> (h: Self)
        ensures
            vhd_footer_is_default(h.footer),
            h.block_array@.len() == 0,
            h.bat@.len() == 0,
            h.block_size == VHD_BLOCK_SIZE,
            h.total_blocks == 0,
            h.disk_type == VhdImageType::Dynamic,
    {
        VhdHeader {
            footer: VhdFooter::default(),
            block_array: Vec::new(),
            bat: Vec::new(),
            block_size: VHD_BLOCK_SIZE,
            total_blocks: 0,
            disk_type: VhdImageType::Dynamic,
        }
    }
}

/// A VHD image.
pub struct VhdImage {
    pub header: VhdHeader,
    pub data: HashMap<u64, Vec<u8>>,
    pub is_open: bool,
    pub info: DiskImageInfo,
}

/// Why a VHD image was refused.
#[derive(Debug, Clone, Copy, PartialEq, Eq, Structural)]
pub enum VhdError {
    InvalidCookie,
    InvalidChecksum,
    UnsupportedDiskType,
    Io,
}

/// The disk-type code that the footer stores for each image sub-type.
pub open spec fn vhd_type_code(t: VhdImageType) -> u32 {
    match t {
        VhdImageType::Fixed => 2,
        VhdImageType::Dynamic => 3,
        VhdImageType::Differencing => 4,
    }
}

/// The image sub-type that a footer disk-type code stands for.
pub open spec fn vhd_type_of_code(code: u32) -> Option<VhdImageType> {
    if code == 2 {
        Some(VhdImageType::Fixed)
    } else if code == 3 {
        Some(VhdImageType::Dynamic)
    } else if code == 4 {
        Some(VhdImageType::Differencing)
    } else {
        None
    }
}

/// The footer code of a disk sub-type.
pub fn vhd_disk_type_code(t: VhdImageType) -> (c: u32)
    ensures
        c == vhd_type_code(t),
{
    match t {
        VhdImageType::Fixed => 2,
        VhdImageType::Dynamic => 3,
        VhdImageType::Differencing => 4,
    }
}

/// Whether footer `f` is what the first 512 bytes of `data` hold, each
/// number little-endian.
pub open spec fn vhd_footer_of(f: VhdFooter, data: Seq<u8>) -> bool {
    &&& f.cookie@ == data.subrange(0, 8)
    &&& f.features == le32(data, 8)
    &&& f.version == le32(data, 12)
    &&& f.data_offset == le64(data, 16)
    &&& f.timestamp == le32(data, 24)
    &&& f.creator_app@ == data.subrange(28, 32)
    &&& f.creator_ver == le32(data, 32)
    &&& f.creator_os == le32(data, 36)
    &&& f.orig_size == le64(data, 40)
    &&& f.cur_size == le64(data, 48)
    &&& f.disk_geometry_cylinder == le16(data, 56)
    &&& f.disk_geometry_heads == data[58]
    &&& f.disk_geometry_sectors == data[59]
    &&& f.disk_type == le32(data, 60)
    &&& f.checksum == le32(data, 64)
    &&& f.unique_id@ == data.subrange(68, 84)
    &&& f.saved_state == data[84]
    &&& f.reserved@ == data.subrange(85, 512)
}

/// Number of blocks a VHD of `cur_size` bytes is taken to span: its size in
/// 2 MiB blocks, divided again by the sector size, and at least one.
pub open spec fn vhd_total_blocks(cur_size: u64) -> u64 {
    let n = cur_size / (VHD_BLOCK_SIZE as u64) / (VHD_SECTOR_SIZE as u64);
    if n > 1 { n } else { 1 }
}

impl VhdImage {
    /// Parses the footer at the start of `data`. Fails with a bad file when
    /// `data` is shorter than a footer or the cookie is not "conectix".
    /// The footer checksum is not checked.
    pub fn parse_footer(data: &[u8]) -> (r: VBoxResult<VhdFooter>)
        ensures
            data@.len() < VHD_FOOTER_SIZE ==> r == Err::<VhdFooter, VBoxError>(VBoxError::BadFile),
            data@.len() >= VHD_FOOTER_SIZE && data@.subrange(0, 8) != vhd_cookie()
                ==> r == Err::<VhdFooter, VBoxError>(VBoxError::BadFile),
            data@.len() >= VHD_FOOTER_SIZE && data@.subrange(0, 8) == vhd_cookie()
                ==> (r matches Ok(f) && vhd_footer_of(f, data@)),
    {
        if data.len() < VHD_FOOTER_SIZE as usize {
            return Err(VBoxError::BadFile);
        }
        let footer = VhdFooter {
            cookie: read_array::<8>(data, 0),
            features: read_le_u32(data, 8),
            version: read_le_u32(data, 12),
            data_offset: read_le_u64(data, 16),
            timestamp: read_le_u32(data, 24),
            creator_app: read_array::<4>(data, 28),
            creator_ver: read_le_u32(data, 32),
            creator_os: read_le_u32(data, 36),
            orig_size: read_le_u64(data, 40),
            cur_size: read_le_u64(data, 48),
            disk_geometry_cylinder: read_le_u16(data, 56),
            disk_geometry_heads: data[58],
            disk_geometry_sectors: data[59],
            disk_type: read_le_u32(data, 60),
            checksum: read_le_u32(data, 64),
            unique_id: read_array::<16>(data, 68),
            saved_state: data[84],
            reserved: read_array::<427>(data, 85),
        };
        let c = footer.cookie;
        if !(c[0] == 0x63 && c[1] == 0x6F && c[2] == 0x6E && c[3] == 0x65 && c[4] == 0x63 && c[5] == 0x74
            && c[6] == 0x69 && c[7] == 0x78) {
            assert(data@.subrange(0, 8) != vhd_cookie()) by {
                if data@.subrange(0, 8) == vhd_cookie() {
                    assert(c@[0] == vhd_cookie()[0]);
                    assert(c@[7] == vhd_cookie()[7]);
                }
            }
            return Err(VBoxError::BadFile);
        }
        assert(data@.subrange(0, 8) =~= vhd_cookie());
        Ok(footer)
    }

    /// Parses footer and description: the footer must carry a known disk
    /// type (2 fixed, 3 dynamic, 4 differencing), else the parameter is bad.
    pub fn parse_header(data: &[u8]) -> (r: VBoxResult<VhdHeader>)
        ensures
            (data@.len() < VHD_FOOTER_SIZE || data@.subrange(0, 8) != vhd_cookie())
                ==> r == Err::<VhdHeader, VBoxError>(VBoxError::BadFile),
            data@.len() >= VHD_FOOTER_SIZE && data@.subrange(0, 8) == vhd_cookie()
                && vhd_type_of_code(le32(data@, 60)) is None ==> r == Err::<VhdHeader, VBoxError>(VBoxError::BadParam),
            data@.len() >= VHD_FOOTER_SIZE && data@.subrange(0, 8) == vhd_cookie()
                && vhd_type_of_code(le32(data@, 60)) is Some ==> (r matches Ok(h)
                && vhd_footer_of(h.footer, data@)
                && vhd_type_of_code(le32(data@, 60)) == Some(h.disk_type)
                && h.block_size == VHD_BLOCK_SIZE
                && h.total_blocks == vhd_total_blocks(h.footer.cur_size)
                && h.block_array@.len() == 1 && vhd_block_entry_is_default(h.block_array@[0])
                && h.bat@.len() == 0),
    {
        let footer = Self::parse_footer(data)?;
        let disk_type = match footer.disk_type {
            2 => VhdImageType::Fixed,
            3 => VhdImageType::Dynamic,
            4 => VhdImageType::Differencing,
            _ => return Err(VBoxError::BadParam),
        };
        let total_blocks = footer.cur_size / (VHD_BLOCK_SIZE as u64) / (VHD_SECTOR_SIZE as u64);
        let mut header = VhdHeader::default();
        header.footer = footer;
        header.disk_type = disk_type;
        header.block_size = VHD_BLOCK_SIZE;
        header.total_blocks = if total_blocks > 1 { total_blocks } else { 1 };
        let num_array_entries = (VHD_FOOTER_SIZE + 511) / 512;
        let mut k: u32 = 0;
        while k < num_array_entries
            invariant
                num_array_entries == 1,
                k <= num_array_entries,
                header.block_array@.len() == k,
                forall|j: int| 0 <= j < k ==> vhd_block_entry_is_default(#[trigger] header.block_array@[j]),
                vhd_footer_of(header.footer, data@),
                header.bat@.len() == 0,
                header.block_size == VHD_BLOCK_SIZE,
                header.total_blocks == vhd_total_blocks(header.footer.cur_size),
                vhd_type_of_code(le32(data@, 60)) == Some(header.disk_type),
            decreases num_array_entries - k,
        {
            header.block_array.push(VhdBlockArrayEntry::default());
            k = k + 1;
        }
        Ok(header)
    }

    /// Builds the image from the contents `data` of the file at `path`.
    pub fn open_data(path: &str, data: &[u8]) -> (r: VBoxResult<VhdImage>)
        ensures
            (data@.len() < VHD_FOOTER_SIZE || data@.subrange(0, 8) != vhd_cookie())
                ==> r == Err::<VhdImage, VBoxError>(VBoxError::BadFile),
            data@.len() >= VHD_FOOTER_SIZE && data@.subrange(0, 8) == vhd_cookie()
                && vhd_type_of_code(le32(data@, 60)) is None ==> r == Err::<VhdImage, VBoxError>(VBoxError::BadParam),
            data@.len() >= VHD_FOOTER_SIZE && data@.subrange(0, 8) == vhd_cookie()
                && vhd_type_of_code(le32(data@, 60)) is Some ==> (r matches Ok(img)
                && vhd_footer_of(img.header.footer, data@)
                && vhd_type_of_code(le32(data@, 60)) == Some(img.header.disk_type)
                && img.header.total_blocks == vhd_total_blocks(img.header.footer.cur_size)
                && img.header.block_size == VHD_BLOCK_SIZE
                && img.header.bat@.len() == 0
                && img.is_open && img.info.path@ == path@ && img.info.format == disk_type_of(DiskFormat::VHD)
                && img.info.size == img.header.total_blocks && img.info.sector_size == VHD_SECTOR_SIZE),
    {
        let header = Self::parse_header(data)?;
        let total_blocks = header.total_blocks;
        let info = DiskImageInfo::new(path.to_owned(), DiskFormat::VHD, total_blocks, VHD_SECTOR_SIZE);
        Ok(VhdImage { header, data: HashMap::new(), is_open: true, info })
    }

    /// A new image of `size_bytes` of sub-type `disk_type`: a default footer
    /// with the type code and sizes, 2 MiB blocks, one unallocated
    /// block-array entry per whole block and an empty allocation table.
    pub fn create(path: &str, size_bytes: u64, disk_type: VhdImageType) -> (r: VBoxResult<VhdImage>)
        requires
            size_bytes / 512 / 4096 <= usize::MAX,
        ensures
            r matches Ok(img) && img.is_open
                && img.header.footer.cookie@ == vhd_cookie()
                && img.header.footer.disk_type == vhd_type_code(disk_type)
                && img.header.footer.orig_size == size_bytes && img.header.footer.cur_size == size_bytes
                && img.header.footer.version == VHD_FOOTER_VERSION
                && img.header.footer.data_offset == VHD_NO_DATA_OFFSET
                && img.header.disk_type == disk_type
                && img.header.block_size == VHD_BLOCK_SIZE
                && img.header.total_blocks == size_bytes / 512 / 4096
                && img.header.block_array@.len() == img.header.total_blocks
                && (forall|i: int| 0 <= i < img.header.block_array@.len()
                    ==> vhd_block_entry_is_default(#[trigger] img.header.block_array@[i]))
                && img.header.bat@.len() == 0
                && img.info.path@ == path@ && img.info.format == disk_type_of(DiskFormat::VHD)
                && img.info.size == size_bytes / 512 && img.info.sector_size == VHD_SECTOR_SIZE,
    {
        let total_sectors = size_bytes / (VHD_SECTOR_SIZE as u64);
        let block_size = VHD_BLOCK_SIZE;
        let num_blocks = total_sectors / ((block_size / VHD_SECTOR_SIZE) as u64);
        let mut footer = VhdFooter::default();
        footer.disk_type = vhd_disk_type_code(disk_type);
        footer.orig_size = size_bytes;
        footer.cur_size = size_bytes;
        footer.version = VHD_FOOTER_VERSION;
        footer.data_offset = VHD_NO_DATA_OFFSET;
        let info = DiskImageInfo::new(path.to_owned(), DiskFormat::VHD, total_sectors, VHD_SECTOR_SIZE);
        let mut header = VhdHeader::default();
        header.footer = footer;
        header.disk_type = disk_type;
        header.block_size = block_size;
        header.total_blocks = num_blocks;
        let mut block_array: Vec<VhdBlockArrayEntry> = Vec::new();
        let mut i: u64 = 0;
        while i < num_blocks
            invariant
                i <= num_blocks,
                block_array@.len() == i,
                forall|j: int| 0 <= j < i ==> vhd_block_entry_is_default(#[trigger] block_array@[j]),
            decreases num_blocks - i,
        {
            block_array.push(VhdBlockArrayEntry::default());
            i = i + 1;
        }
        header.block_array = block_array;
        Ok(VhdImage { header, data: HashMap::new(), is_open: true, info })
    }

    /// A new fixed-size image.
    pub fn create_fixed(path: &str, size_bytes: u64) -> (r: VBoxResult<VhdImage>)
        requires
            size_bytes / 512 / 4096 <= usize::MAX,
        ensures
            r matches Ok(img) && img.header.disk_type == VhdImageType::Fixed
                && img.header.footer.disk_type == 2 && img.header.footer.cur_size == size_bytes
                && img.header.total_blocks == size_bytes / 512 / 4096 && img.info.path@ == path@,
    {
        Self::create(path, size_bytes, VhdImageType::Fixed)
    }

    /// A new dynamically growing image.
    pub fn create_dynamic(path: &str, size_bytes: u64) -> (r: VBoxResult<VhdImage>)
        requires
            size_bytes / 512 / 4096 <= usize::MAX,
        ensures
            r matches Ok(img) && img.header.disk_type == VhdImageType::Dynamic
                && img.header.footer.disk_type == 3 && img.header.footer.cur_size == size_bytes
                && img.header.total_blocks == size_bytes / 512 / 4096 && img.info.path@ == path@,
    {
        Self::create(path, size_bytes, VhdImageType::Dynamic)
    }

    /// A new differencing image; the parent path is not recorded.
    pub fn create_differencing(path: &str, size_bytes: u64, parent_path: &str) -> (r: VBoxResult<VhdImage>)
        requires
            size_bytes / 512 / 4096 <= usize::MAX,
        ensures
            r matches Ok(img) && img.header.disk_type == VhdImageType::Differencing
                && img.header.footer.disk_type == 4 && img.header.footer.cur_size == size_bytes
                && img.header.total_blocks == size_bytes / 512 / 4096 && img.info.path@ == path@,
    {
        Self::create(path, size_bytes, VhdImageType::Differencing)
    }

    /// The data of block `block_index`: zeros of a block's size when the
    /// allocation table has the block, not found otherwise.
    fn read_block_data(&self, block_index: u64) -> (r: VBoxResult<Vec<u8>>)
        ensures
            block_index < self.header.bat@.len() ==> (r matches Ok(v)
                && v@ == Seq::new(self.header.block_size as nat, |i: int| 0u8)),
            block_index >= self.header.bat@.len() ==> r == Err::<Vec<u8>, VBoxError>(VBoxError::NotFound),
    {
        let block_size = self.header.block_size as usize;
        if block_index >= self.header.bat.len() as u64 {
            return Err(VBoxError::NotFound);
        }
        let entry = self.header.bat[block_index as usize];
        if entry.block_offset == VHD_BAT_UNUSED {
            return Ok(zeroed(block_size));
        }
        Ok(zeroed(block_size))
    }

    /// Reads sector `lba` of its block: zeros when the allocation table has
    /// the block, not found otherwise.
    pub fn read_sector(&self, lba: u64) -> (r: VBoxResult<Vec<u8>>)
        requires
            self.header.block_size >= VHD_SECTOR_SIZE,
        ensures
            lba / ((self.header.block_size / VHD_SECTOR_SIZE) as u64) < self.header.bat@.len()
                ==> (r matches Ok(v) && v@ == Seq::new(512, |i: int| 0u8)),
            lba / ((self.header.block_size / VHD_SECTOR_SIZE) as u64) >= self.header.bat@.len()
                ==> r == Err::<Vec<u8>, VBoxError>(VBoxError::NotFound),
    {
        let sectors_per_block = (self.header.block_size / VHD_SECTOR_SIZE) as u64;
        let block_index = lba / sectors_per_block;
        let offset_in_block = (lba % sectors_per_block) * (VHD_SECTOR_SIZE as u64);
        let block_data = self.read_block_data(block_index)?;
        let start = offset_in_block as usize;
        assert(offset_in_block + 512 <= self.header.block_size) by (nonlinear_arith)
            requires
                offset_in_block == (lba % sectors_per_block) * 512,
                sectors_per_block == self.header.block_size / 512,
                sectors_per_block >= 1,
        {
            assert(lba % sectors_per_block < sectors_per_block);
        }
        let end = start + VHD_SECTOR_SIZE as usize;
        if end > block_data.len() {
            return Err(VBoxError::BadParam);
        }
        let mut out: Vec<u8> = Vec::new();
        let mut i: usize = start;
        while i < end
            invariant
                start <= i <= end,
                end <= block_data@.len(),
                end == start + 512,
                block_data@ == Seq::new(self.header.block_size as nat, |k: int| 0u8),
                out@ =~= block_data@.subrange(start as int, i as int),
            decreases end - i,
        {
            out.push(block_data[i]);
            i = i + 1;
        }
        assert(out@ =~= Seq::new(512, |k: int| 0u8));
        Ok(out)
    }

    /// Writes sector `lba`: only a 512-byte sector is accepted; its block, if
    /// the allocation table has it, is marked allocated.
    pub fn write_sector(&mut self, lba: u64, data: &[u8]) -> (r: VBoxResult<()>)
        requires
            old(self).header.block_size >= VHD_SECTOR_SIZE,
        ensures
            data@.len() != 512 ==> r == Err::<(), VBoxError>(VBoxError::BadParam)
                && final(self).header.bat@ == old(self).header.bat@,
            data@.len() == 512 ==> r is Ok && {
                let b = lba / ((old(self).header.block_size / VHD_SECTOR_SIZE) as u64);
                final(self).header.bat@ == if b < old(self).header.bat@.len() {
                    old(self).header.bat@.update(b as int, VhdBatEntry { block_offset: 1, ..old(self).header.bat@[b as int] })
                } else {
                    old(self).header.bat@
                }
            },
            final(self).header.block_size == old(self).header.block_size,
            final(self).header.total_blocks == old(self).header.total_blocks,
            final(self).is_open == old(self).is_open,
    {
        if data.len() != VHD_SECTOR_SIZE as usize {
            return Err(VBoxError::BadParam);
        }
        let sectors_per_block = (self.header.block_size / VHD_SECTOR_SIZE) as u64;
        let block_index = lba / sectors_per_block;
        if block_index < self.header.bat.len() as u64 {
            let mut entry = self.header.bat[block_index as usize];
            entry.block_offset = 1;
            self.header.bat.set(block_index as usize, entry);
        }
        Ok(())
    }

    /// Number of sectors the image spans.
    pub fn get_sector_count(&self) -> (n: u64)
        requires
            self.header.total_blocks * (self.header.block_size / VHD_SECTOR_SIZE) <= u64::MAX,
        ensures
            n == self.header.total_blocks * (self.header.block_size / VHD_SECTOR_SIZE),
    {
        self.header.total_blocks * ((self.header.block_size / VHD_SECTOR_SIZE) as u64)
    }

    pub fn get_sector_size(&self) -> (s: u32)
        ensures
            s == VHD_SECTOR_SIZE,
    {
        VHD_SECTOR_SIZE
    }

    pub fn get_type(&self) -> (f: DiskFormat)
        ensures
            f == DiskFormat::VHD,
    {
        DiskFormat::VHD
    }

    /// Closes the image, dropping its allocation table.
    pub fn close(self) -> (r: VBoxResult<()>)
        ensures
            r is Ok,
    {
        let mut bat = self.header.bat;
        bat.clear();
        Ok(())
    }

    pub fn get_info(&self) -> (i: DiskImageInfo)
        ensures
            i.path@ == self.info.path@,
            i.format == self.info.format,
            i.size == self.info.size,
            i.sector_size == self.info.sector_size,
    {
        self.info.duplicate()
    }

    pub fn is_open(&self) -> (b: bool)
        ensures
            b == self.is_open,
    {
        self.is_open
    }
}

/// The footer's disk-type codes: 2 is a fixed disk, 3 a dynamic disk and 4
/// a differencing disk; every other code stands for no disk type.
pub proof fn lemma_vhd_type_codes(code: u32)
    ensures
        (vhd_type_of_code(code) == Some(VhdImageType::Fixed)) == (code == 2),
        (vhd_type_of_code(code) == Some(VhdImageType::Dynamic)) == (code == 3),
        (vhd_type_of_code(code) == Some(VhdImageType::Differencing)) == (code == 4),
        (vhd_type_of_code(code) is None) == (code < 2 || code > 4),
        vhd_type_code(VhdImageType::Fixed) == 2,
        vhd_type_code(VhdImageType::Dynamic) == 3,
        vhd_type_code(VhdImageType::Differencing) == 4,
{
}

/// The type code that `create` writes into a footer reads back, under
/// `parse_header`, as the sub-type it was written for.
pub proof fn lemma_vhd_type_code_round_trip(t: VhdImageType)
    ensures
        vhd_type_of_code(vhd_type_code(t)) == Some(t),
{
}

} // verus!
