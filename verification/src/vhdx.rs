use vstd::prelude::*;
use std::collections::HashMap;
use crate::error::{VBoxError, VBoxResult};
use crate::bytes::{le32, le64, read_le_u32, read_le_u64, zeroed};
use crate::disk::{DiskFormat, DiskImageInfo, disk_type_of};

verus! {

/// Sector size of VHDX images.
pub const VHDX_SECTOR_SIZE: u32 = 512;
/// Block size of VHDX images (1 MiB).
pub const VHDX_BLOCK_SIZE: u32 = 1048576;
/// Sector size of the VHDX log.
pub const VHDX_LOG_SECTOR_SIZE: u32 = 512;
/// Largest number of VHDX blocks.
pub const VHDX_MAX_BLOCKS: u64 = 4294967296;
/// Largest number of VHDX sectors.
pub const VHDX_MAX_SECTORS: u64 = 4294967296;
/// Block signature, the first signature that opens a fixed disk.
pub const VHDX_SIGNATURE_BLOCK: u64 = 0x424C4B464D545848;
/// Signature that opens a dynamic disk.
pub const VHDX_SIGNATURE_DYNAMIC_DISK: u64 = 0x4244495358484456;
/// Signature of the metadata region.
pub const VHDX_SIGNATURE_METADATA: u64 = 0x4D44444B544F4C45;
/// Signature of the region table.
pub const VHDX_SIGNATURE_REGION_TABLE: u64 = 0x414C474552544144;
/// Signature of the log.
pub const VHDX_SIGNATURE_LOG: u64 = 0x474F4C524547414C;
/// Bytes of a VHDX header that are required.
pub const VHDX_HEADER_MIN: usize = 128;

/// Kind of VHDX file.
#[derive(Debug, Clone, Copy, PartialEq, Eq, Structural)]
pub enum VhdxFileType {
    DynamicDisk,
    FixedDisk,
    DifferencingDisk,
    Backup,
}

/// The VHDX header.
#[derive(Debug, Clone, Copy)]
pub struct VhdxHeader {
    pub signature: u64,
    pub file_type: VhdxFileType,
    pub version: u32,
    pub log_page_offset: u32,
    pub max_log_size: u32,
    pub block_size: u32,
    pub data_offset: u64,
    pub log_offset: u64,
    pub total_blocks: u64,
    pub logical_block_size: u32,
    pub physical_block_size: u32,
    pub parent_locator_size: u32,
    pub reserved: [u8; 256],
    pub checksum: u32,
    pub encoded_checksum: u32,
    pub flags: u32,
}

/// Fields that a default header sets and parsing leaves as they are.
pub open spec fn vhdx_header_untouched_defaults(h: VhdxHeader) -> bool {
    &&& h.log_page_offset == 0
    &&& h.max_log_size == 0
    &&& h.log_offset == 0
    &&& h.parent_locator_size == 0
    &&& h.reserved@ == Seq::new(256, |i: int| 0u8)
}

impl Default for VhdxHeader {
    fn default() -> (h: Self)
        ensures
            vhdx_header_untouched_defaults(h),
            h.signature == VHDX_SIGNATURE_DYNAMIC_DISK,
            h.file_type == VhdxFileType::DynamicDisk,
            h.version == 1,
            h.block_size == VHDX_BLOCK_SIZE,
            h.data_offset == 0,
            h.total_blocks == 0,
            h.logical_block_size == VHDX_SECTOR_SIZE,
            h.physical_block_size == VHDX_BLOCK_SIZE,
            h.checksum == 0,
            h.encoded_checksum == 0,
            h.flags == 0,
    {
        let h = VhdxHeader {
            signature: VHDX_SIGNATURE_DYNAMIC_DISK,
            file_type: VhdxFileType::DynamicDisk,
            version: 1,
            log_page_offset: 0,
            max_log_size: 0,
            block_size: VHDX_BLOCK_SIZE,
            data_offset: 0,
            log_offset: 0,
            total_blocks: 0,
            logical_block_size: VHDX_SECTOR_SIZE,
            physical_block_size: VHDX_BLOCK_SIZE,
            parent_locator_size: 0,
            reserved: [0u8; 256],
            checksum: 0,
            encoded_checksum: 0,
            flags: 0,
        };
        assert(h.reserved@ =~= Seq::new(256, |i: int| 0u8));
        h
    }
}

/// An entry of the region table.
#[derive(Debug, Clone, Copy)]
pub struct VhdxRegionEntry {
    pub offset: u64,
    pub size: u64,
    pub guid: [u8; 16],
}

/// An entry of the block allocation table.
#[derive(Debug, Clone, Copy)]
pub struct VhdxBatEntry {
    pub block_offset: u64,
    pub block_type: u8,
    pub reserved: [u8; 7],
}

/// A BAT entry for an unallocated block.
pub open spec fn vhdx_bat_entry_is_default(e: VhdxBatEntry) -> bool {
    e.block_offset == 0 && e.block_type == 0 && e.reserved@ == Seq::new(7, |i: int| 0u8)
}

impl Default for VhdxBatEntry {
    fn default() -> (e: Self)
        ensures
            vhdx_bat_entry_is_default(e),
    {
        let e = VhdxBatEntry { block_offset: 0, block_type: 0, reserved: [0u8; 7] };
        assert(e.reserved@ =~= Seq::new(7, |i: int| 0u8));
        e
    }
}

/// An item of the metadata region.
#[derive(Debug, Clone)]
pub struct VhdxMetadataItem {
    pub item_id: u16,
    pub item_size: u32,
    pub data: Vec<u8>,
}

/// A VHDX image.
pub struct VhdxImage {
    pub header: VhdxHeader,
    pub region_table: Vec<VhdxRegionEntry>,
    pub bat: Vec<VhdxBatEntry>,
    pub metadata: Vec<VhdxMetadataItem>,
    pub blocks: HashMap<u64, Vec<u8>>,
    pub is_open: bool,
    pub info: DiskImageInfo,
}

/// Why a VHDX image was refused.
#[derive(Debug, Clone, Copy, PartialEq, Eq, Structural)]
pub enum VhdxError {
    InvalidSignature,
    UnsupportedVersion,
    Io,
}

/// Whether `data` opens with one of the two accepted VHDX signatures.
pub open spec fn vhdx_signature_ok(data: Seq<u8>) -> bool {
    le64(data, 0) == VHDX_SIGNATURE_DYNAMIC_DISK || le64(data, 0) == VHDX_SIGNATURE_BLOCK
}

/// Whether header `h` is what `data` holds.
pub open spec fn vhdx_header_of(h: VhdxHeader, data: Seq<u8>) -> bool {
    &&& h.signature == le64(data, 0)
    &&& h.file_type == if le64(data, 0) == VHDX_SIGNATURE_BLOCK {
        VhdxFileType::FixedDisk
    } else {
        VhdxFileType::DynamicDisk
    }
    &&& h.version == le32(data, 8)
    &&& h.block_size == le32(data, 32)
    &&& h.data_offset == le64(data, 40)
    &&& h.total_blocks == le64(data, 48)
    &&& h.logical_block_size == le32(data, 56)
    &&& h.physical_block_size == le32(data, 60)
    &&& h.flags == le32(data, 64)
    &&& h.checksum == le32(data, 68)
    &&& h.encoded_checksum == le32(data, 72)
    &&& vhdx_header_untouched_defaults(h)
}

/// Sectors in one VHDX block.
pub open spec fn vhdx_sectors_per_block() -> u64 {
    (VHDX_BLOCK_SIZE / VHDX_SECTOR_SIZE) as u64
}

/// Whether the block count of `h` fits a table in memory and its sector
/// count fits in 64 bits.
pub open spec fn vhdx_header_fits_spec(h: VhdxHeader) -> bool {
    h.total_blocks <= usize::MAX && h.total_blocks * (h.block_size / VHDX_SECTOR_SIZE) <= u64::MAX
}

/// Whether header `h` fits: what `VhdxImage::open_data` needs of the header
/// that `VhdxImage::parse_header` reads from its input.
pub fn vhdx_header_fits(h: &VhdxHeader) -> (b: bool)
    ensures
        b == vhdx_header_fits_spec(*h),
{
    (h.total_blocks as u128) <= (usize::MAX as u128)
        && h.total_blocks.checked_mul((h.block_size / VHDX_SECTOR_SIZE) as u64).is_some()
}

impl VhdxImage {
    /// Parses the VHDX header; a short file or an unknown signature is a bad file.
    pub fn parse_header(data: &[u8]) -> (r: VBoxResult<VhdxHeader>)
        ensures
            (data@.len() < VHDX_HEADER_MIN || !vhdx_signature_ok(data@))
                ==> r == Err::<VhdxHeader, VBoxError>(VBoxError::BadFile),
            data@.len() >= VHDX_HEADER_MIN && vhdx_signature_ok(data@)
                ==> (r matches Ok(h) && vhdx_header_of(h, data@)),
    {
        if data.len() < VHDX_HEADER_MIN {
            return Err(VBoxError::BadFile);
        }
        let signature = read_le_u64(data, 0);
        if signature != VHDX_SIGNATURE_DYNAMIC_DISK && signature != VHDX_SIGNATURE_BLOCK {
            return Err(VBoxError::BadFile);
        }
        let mut header = VhdxHeader::default();
        header.signature = signature;
        header.file_type = if signature == VHDX_SIGNATURE_BLOCK {
            VhdxFileType::FixedDisk
        } else {
            VhdxFileType::DynamicDisk
        };
        header.version = read_le_u32(data, 8);
        header.block_size = read_le_u32(data, 32);
        header.data_offset = read_le_u64(data, 40);
        header.total_blocks = read_le_u64(data, 48);
        header.logical_block_size = read_le_u32(data, 56);
        header.physical_block_size = read_le_u32(data, 60);
        header.flags = read_le_u32(data, 64);
        header.checksum = read_le_u32(data, 68);
        header.encoded_checksum = read_le_u32(data, 72);
        Ok(header)
    }

    /// Builds the image from the contents `data` of the file at `path`, with
    /// one unallocated BAT entry per block.
    pub fn open_data(path: &str, data: &[u8]) -> (r: VBoxResult<VhdxImage>)
        requires
            data@.len() >= VHDX_HEADER_MIN && vhdx_signature_ok(data@)
                ==> forall|h: VhdxHeader| vhdx_header_of(h, data@) ==> vhdx_header_fits_spec(h),
        ensures
            (data@.len() < VHDX_HEADER_MIN || !vhdx_signature_ok(data@))
                ==> r == Err::<VhdxImage, VBoxError>(VBoxError::BadFile),
            data@.len() >= VHDX_HEADER_MIN && vhdx_signature_ok(data@) ==> (r matches Ok(img)
                && vhdx_header_of(img.header, data@) && img.is_open
                && img.bat@.len() == img.header.total_blocks
                && (forall|i: int| 0 <= i < img.bat@.len() ==> vhdx_bat_entry_is_default(#[trigger] img.bat@[i]))
                && img.region_table@.len() == 0 && img.metadata@.len() == 0 && img.blocks@.len() == 0
                && img.info.path@ == path@ && img.info.format == disk_type_of(DiskFormat::VHDX)
                && img.info.size == img.header.total_blocks * (img.header.block_size / VHDX_SECTOR_SIZE)
                && img.info.sector_size == VHDX_SECTOR_SIZE),
    {
        let header = Self::parse_header(data)?;
        assert(vhdx_header_fits_spec(header));
        let total_blocks = header.total_blocks;
        let block_size = header.block_size;
        let info = DiskImageInfo::new(path.to_owned(), DiskFormat::VHDX,
            total_blocks * ((block_size / VHDX_SECTOR_SIZE) as u64), VHDX_SECTOR_SIZE);
        let bat = Self::empty_bat(total_blocks);
        Ok(VhdxImage {
            header,
            region_table: Vec::new(),
            bat,
            metadata: Vec::new(),
            blocks: HashMap::new(),
            is_open: true,
            info,
        })
    }

    /// A BAT of `n` unallocated entries.
    fn empty_bat(n: u64) -> (bat: Vec<VhdxBatEntry>)
        ensures
            bat@.len() == n,
            forall|i: int| 0 <= i < n ==> vhdx_bat_entry_is_default(#[trigger] bat@[i]),
    {
        let mut bat: Vec<VhdxBatEntry> = Vec::new();
        let mut i: u64 = 0;
        while i < n
            invariant
                i <= n,
                bat@.len() == i,
                forall|j: int| 0 <= j < i ==> vhdx_bat_entry_is_default(#[trigger] bat@[j]),
            decreases n - i,
        {
            bat.push(VhdxBatEntry::default());
            i = i + 1;
        }
        bat
    }

    /// A new image of `size_bytes` in 1 MiB blocks, all unallocated.
    pub fn create(path: &str, size_bytes: u64, file_type: VhdxFileType) -> (r: VBoxResult<VhdxImage>)
        ensures
            r matches Ok(img) && img.is_open && img.header.file_type == file_type
                && img.header.total_blocks == size_bytes / (VHDX_BLOCK_SIZE as u64)
                && img.header.block_size == VHDX_BLOCK_SIZE
                && img.header.logical_block_size == VHDX_SECTOR_SIZE
                && img.header.physical_block_size == VHDX_BLOCK_SIZE
                && img.header.signature == VHDX_SIGNATURE_DYNAMIC_DISK && img.header.version == 1
                && img.bat@.len() == img.header.total_blocks
                && (forall|i: int| 0 <= i < img.bat@.len() ==> vhdx_bat_entry_is_default(#[trigger] img.bat@[i]))
                && img.info.path@ == path@ && img.info.format == disk_type_of(DiskFormat::VHDX)
                && img.info.size == img.header.total_blocks * vhdx_sectors_per_block()
                && img.info.sector_size == VHDX_SECTOR_SIZE,
    {
        let block_size = VHDX_BLOCK_SIZE;
        let total_blocks = size_bytes / (block_size as u64);
        assert(total_blocks * 2048 <= u64::MAX) by (nonlinear_arith)
            requires
                total_blocks == size_bytes / 1048576,
        {
        }
        let mut header = VhdxHeader::default();
        header.file_type = file_type;
        header.total_blocks = total_blocks;
        header.block_size = block_size;
        header.logical_block_size = VHDX_SECTOR_SIZE;
        header.physical_block_size = block_size;
        let info = DiskImageInfo::new(path.to_owned(), DiskFormat::VHDX,
            total_blocks * ((block_size / VHDX_SECTOR_SIZE) as u64), VHDX_SECTOR_SIZE);
        let bat = Self::empty_bat(total_blocks);
        Ok(VhdxImage {
            header,
            region_table: Vec::new(),
            bat,
            metadata: Vec::new(),
            blocks: HashMap::new(),
            is_open: true,
            info,
        })
    }

    /// The stored data of block `block_index`, if any.
    fn get_block_data(&self, block_index: u64) -> (r: VBoxResult<Vec<u8>>)
        ensures
            self.blocks@.contains_key(block_index) ==> (r matches Ok(v) && v@ == self.blocks@[block_index]@),
            !self.blocks@.contains_key(block_index) ==> r == Err::<Vec<u8>, VBoxError>(VBoxError::NotFound),
    {
        match self.blocks.get(&block_index) {
            Some(v) => Ok(v.clone()),
            None => Err(VBoxError::NotFound),
        }
    }

    /// Reads sector `lba`: zeros inside the image, a bad parameter past its end.
    pub fn read_sector(&self, lba: u64) -> (r: VBoxResult<Vec<u8>>)
        requires
            self.header.total_blocks * vhdx_sectors_per_block() <= u64::MAX,
        ensures
            lba >= self.header.total_blocks * vhdx_sectors_per_block() ==> r == Err::<Vec<u8>, VBoxError>(VBoxError::BadParam),
            lba < self.header.total_blocks * vhdx_sectors_per_block() ==> (r matches Ok(v) && v@ == Seq::new(512, |i: int| 0u8)),
    {
        let sectors_per_block = (VHDX_BLOCK_SIZE / VHDX_SECTOR_SIZE) as u64;
        if lba >= self.header.total_blocks * sectors_per_block {
            return Err(VBoxError::BadParam);
        }
        Ok(zeroed(VHDX_SECTOR_SIZE as usize))
    }

    /// Accepts a 512-byte sector and discards it; other sizes are a bad parameter.
    pub fn write_sector(&mut self, lba: u64, data: &[u8]) -> (r: VBoxResult<()>)
        ensures
            data@.len() != 512 ==> r == Err::<(), VBoxError>(VBoxError::BadParam),
            data@.len() == 512 ==> r is Ok,
            final(self).header == old(self).header,
            final(self).bat@ == old(self).bat@,
            final(self).is_open == old(self).is_open,
    {
        if data.len() != VHDX_SECTOR_SIZE as usize {
            return Err(VBoxError::BadParam);
        }
        Ok(())
    }

    /// Number of sectors the image spans.
    pub fn get_sector_count(&self) -> (n: u64)
        requires
            self.header.total_blocks * vhdx_sectors_per_block() <= u64::MAX,
        ensures
            n == self.header.total_blocks * vhdx_sectors_per_block(),
    {
        self.header.total_blocks * ((VHDX_BLOCK_SIZE / VHDX_SECTOR_SIZE) as u64)
    }

    pub fn get_sector_size(&self) -> (s: u32)
        ensures
            s == VHDX_SECTOR_SIZE,
    {
        VHDX_SECTOR_SIZE
    }

    pub fn get_type(&self) -> (f: DiskFormat)
        ensures
            f == DiskFormat::VHDX,
    {
        DiskFormat::VHDX
    }

    /// Closes the image, dropping its block data.
    pub fn close(self) -> (r: VBoxResult<()>)
        ensures
            r is Ok,
    {
        let mut blocks = self.blocks;
        blocks.clear();
        Ok(())
    }

    pub fn get_info(&self) -> (i: DiskImageInfo)
        ensures
            i.path@ == self.info.path@,
            i.format == self.info.format,
            i.size == self.info.size,
            i.sector_size == self.info.sector_size,
    {
        self.info.duplicate()
    }

    pub fn is_open(&self) -> (b: bool)
        ensures
            b == self.is_open,
    {
        self.is_open
    }
}

} // verus!
