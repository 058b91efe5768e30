use vstd::prelude::*;
use std::collections::BTreeMap;
use crate::error::{VBoxError, VBoxResult};
use crate::bytes::{le32, le64, read_le_u32, read_le_u64, read_array, zeroed};
use crate::disk::{DiskFormat, DiskImageInfo, disk_type_of};

verus! {

/// Magic of the legacy VirtualBox disk format.
pub const VD_LEGACY_MAGIC: u32 = 0x42444944;
/// Version of the legacy format.
pub const VD_LEGACY_VERSION: u32 = 0x00010000;
/// Block size of legacy images (1 MiB).
pub const VD_LEGACY_BLOCK_SIZE: u32 = 1048576;
/// Sector size of legacy images.
pub const VD_LEGACY_SECTOR_SIZE: u32 = 512;
/// Size of the legacy header; shorter files are read as an empty header.
pub const VD_LEGACY_HEADER_SIZE: usize = 348;
/// Size of one block descriptor in a legacy image.
pub const VD_LEGACY_DESCRIPTOR_SIZE: u64 = 32;

/// The legacy VD header.
#[derive(Debug, Clone, Copy)]
pub struct VdLegacyHeader {
    pub magic: u32,
    pub version: u32,
    pub image_type: u32,
    pub flags: u32,
    pub image_size: u64,
    pub block_size: u32,
    pub total_blocks: u64,
    pub data_offset: u64,
    pub uuid_image: [u8; 16],
    pub uuid_modified: [u8; 16],
    pub uuid_parent: [u8; 16],
    pub reserved: [u8; 256],
}

/// A header with every field zero.
pub open spec fn vd_header_is_empty(h: VdLegacyHeader) -> bool {
    &&& h.magic == 0 && h.version == 0 && h.image_type == 0 && h.flags == 0
    &&& h.image_size == 0 && h.block_size == 0 && h.total_blocks == 0 && h.data_offset == 0
    &&& h.uuid_image@ == Seq::new(16, |i: int| 0u8)
    &&& h.uuid_modified@ == Seq::new(16, |i: int| 0u8)
    &&& h.uuid_parent@ == Seq::new(16, |i: int| 0u8)
    &&& h.reserved@ == Seq::new(256, |i: int| 0u8)
}

impl Default for VdLegacyHeader {
    fn default() -> (h: Self)
        ensures
            vd_header_is_empty(h),
    {
        let h = VdLegacyHeader {
            magic: 0,
            version: 0,
            image_type: 0,
            flags: 0,
            image_size: 0,
            block_size: 0,
            total_blocks: 0,
            data_offset: 0,
            uuid_image: [0u8; 16],
            uuid_modified: [0u8; 16],
            uuid_parent: [0u8; 16],
            reserved: [0u8; 256],
        };
        assert(h.uuid_image@ =~= Seq::new(16, |i: int| 0u8));
        assert(h.uuid_modified@ =~= Seq::new(16, |i: int| 0u8));
        assert(h.uuid_parent@ =~= Seq::new(16, |i: int| 0u8));
        assert(h.reserved@ =~= Seq::new(256, |i: int| 0u8));
        h
    }
}

/// Description of one block of a legacy image.
#[derive(Debug, Clone, Copy)]
pub struct VdBlockDescriptor {
    pub block_number: u64,
    pub offset: u64,
    pub size: u32,
    pub type_: u32,
    pub modified: bool,
}

/// A legacy VD image.
pub struct VdLegacyImage {
    pub header: VdLegacyHeader,
    pub blocks: BTreeMap<u64, VdBlockDescriptor>,
    pub block_size: u32,
    pub total_blocks: u64,
    pub is_open: bool,
    pub info: DiskImageInfo,
}

/// The header that the contents `data` of a legacy image yield: read field
/// by field when `data` covers a whole header, all zero otherwise.
pub open spec fn vd_header_of(h: VdLegacyHeader, data: Seq<u8>) -> bool {
    if data.len() >= VD_LEGACY_HEADER_SIZE {
        &&& h.magic == le32(data, 0)
        &&& h.version == le32(data, 4)
        &&& h.image_type == le32(data, 8)
        &&& h.flags == le32(data, 12)
        &&& h.image_size == le64(data, 16)
        &&& h.block_size == le32(data, 24)
        &&& h.total_blocks == le64(data, 28)
        &&& h.data_offset == le64(data, 36)
        &&& h.uuid_image@ == data.subrange(44, 60)
        &&& h.uuid_modified@ == data.subrange(60, 76)
        &&& h.uuid_parent@ == data.subrange(76, 92)
        &&& h.reserved@ == Seq::new(256, |i: int| 0u8)
    } else {
        vd_header_is_empty(h)
    }
}

/// Number of sectors that the header read from `data` spans.
pub open spec fn vd_data_sectors(data: Seq<u8>) -> int {
    if data.len() >= VD_LEGACY_HEADER_SIZE {
        le64(data, 28) * (le32(data, 24) / 512)
    } else {
        0
    }
}

/// Whether the header read from `data` spans a number of sectors that fits
/// in 64 bits: what `VdLegacyImage::open_data` needs of its input.
pub fn vd_data_fits(data: &[u8]) -> (b: bool)
    ensures
        b == (vd_data_sectors(data@) <= u64::MAX),
{
    if data.len() >= VD_LEGACY_HEADER_SIZE {
        let total_blocks = read_le_u64(data, 28);
        let sectors_per_block = (read_le_u32(data, 24) / VD_LEGACY_SECTOR_SIZE) as u64;
        total_blocks.checked_mul(sectors_per_block).is_some()
    } else {
        true
    }
}

impl VdLegacyImage {
    /// Builds the image from the contents `data` of the file at `path`.
    pub fn open_data(path: &str, data: &[u8]) -> (r: VBoxResult<VdLegacyImage>)
        requires
            vd_data_sectors(data@) <= u64::MAX,
        ensures
            r matches Ok(img) && vd_header_of(img.header, data@) && img.is_open
                && img.block_size == img.header.block_size && img.total_blocks == img.header.total_blocks
                && img.info.path@ == path@ && img.info.format == disk_type_of(DiskFormat::VD)
                && img.info.size == img.total_blocks * (img.block_size / 512)
                && img.info.sector_size == VD_LEGACY_SECTOR_SIZE,
    {
        let mut header = VdLegacyHeader::default();
        if data.len() >= VD_LEGACY_HEADER_SIZE {
            header.magic = read_le_u32(data, 0);
            header.version = read_le_u32(data, 4);
            header.image_type = read_le_u32(data, 8);
            header.flags = read_le_u32(data, 12);
            header.image_size = read_le_u64(data, 16);
            header.block_size = read_le_u32(data, 24);
            header.total_blocks = read_le_u64(data, 28);
            header.data_offset = read_le_u64(data, 36);
            header.uuid_image = read_array::<16>(data, 44);
            header.uuid_modified = read_array::<16>(data, 60);
            header.uuid_parent = read_array::<16>(data, 76);
        }
        assert(vd_header_of(header, data@));
        let info = DiskImageInfo::new(path.to_owned(), DiskFormat::VD,
            header.total_blocks * ((header.block_size / VD_LEGACY_SECTOR_SIZE) as u64), VD_LEGACY_SECTOR_SIZE);
        Ok(VdLegacyImage {
            header,
            blocks: BTreeMap::new(),
            block_size: header.block_size,
            total_blocks: header.total_blocks,
            is_open: true,
            info,
        })
    }

    /// A new image of `size_bytes` in 1 MiB blocks; block data starts after
    /// the header and one 32-byte descriptor per block.
    pub fn create(path: &str, size_bytes: u64) -> (r: VBoxResult<VdLegacyImage>)
        ensures
            r matches Ok(img) && img.is_open
                && img.header.magic == VD_LEGACY_MAGIC && img.header.version == VD_LEGACY_VERSION
                && img.header.image_size == size_bytes && img.header.block_size == VD_LEGACY_BLOCK_SIZE
                && img.header.total_blocks == size_bytes / (VD_LEGACY_BLOCK_SIZE as u64)
                && img.header.data_offset == VD_LEGACY_HEADER_SIZE + img.header.total_blocks * VD_LEGACY_DESCRIPTOR_SIZE
                && img.block_size == VD_LEGACY_BLOCK_SIZE && img.total_blocks == img.header.total_blocks
                && img.info.path@ == path@ && img.info.format == disk_type_of(DiskFormat::VD)
                && img.info.size == img.total_blocks * 2048 && img.info.sector_size == VD_LEGACY_SECTOR_SIZE,
    {
        let block_size = VD_LEGACY_BLOCK_SIZE;
        let total_blocks = size_bytes / (block_size as u64);
        assert(total_blocks * 2048 <= u64::MAX && 348 + total_blocks * 32 <= u64::MAX) by (nonlinear_arith)
            requires
                total_blocks == size_bytes / 1048576,
        {
        }
        let mut header = VdLegacyHeader::default();
        header.magic = VD_LEGACY_MAGIC;
        header.version = VD_LEGACY_VERSION;
        header.image_size = size_bytes;
        header.block_size = block_size;
        header.total_blocks = total_blocks;
        header.data_offset = VD_LEGACY_HEADER_SIZE as u64 + total_blocks * VD_LEGACY_DESCRIPTOR_SIZE;
        let info = DiskImageInfo::new(path.to_owned(), DiskFormat::VD,
            total_blocks * ((block_size / VD_LEGACY_SECTOR_SIZE) as u64), VD_LEGACY_SECTOR_SIZE);
        Ok(VdLegacyImage { header, blocks: BTreeMap::new(), block_size, total_blocks, is_open: true, info })
    }

    /// Reads sector `lba`: zeros inside the image, a bad parameter past its end.
    pub fn read_sector(&self, lba: u64) -> (r: VBoxResult<Vec<u8>>)
        requires
            self.total_blocks * (self.block_size / 512) <= u64::MAX,
        ensures
            lba >= self.total_blocks * (self.block_size / 512) ==> r == Err::<Vec<u8>, VBoxError>(VBoxError::BadParam),
            lba < self.total_blocks * (self.block_size / 512) ==> (r matches Ok(v) && v@ == Seq::new(512, |i: int| 0u8)),
    {
        let sectors_per_block = (self.block_size / VD_LEGACY_SECTOR_SIZE) as u64;
        if lba >= self.total_blocks * sectors_per_block {
            return Err(VBoxError::BadParam);
        }
        Ok(zeroed(VD_LEGACY_SECTOR_SIZE as usize))
    }

    /// Accepts a 512-byte sector and discards it; other sizes are a bad parameter.
    pub fn write_sector(&mut self, lba: u64, data: &[u8]) -> (r: VBoxResult<()>)
        ensures
            data@.len() != 512 ==> r == Err::<(), VBoxError>(VBoxError::BadParam),
            data@.len() == 512 ==> r is Ok,
            final(self).header == old(self).header,
            final(self).total_blocks == old(self).total_blocks,
            final(self).block_size == old(self).block_size,
            final(self).is_open == old(self).is_open,
    {
        if data.len() != VD_LEGACY_SECTOR_SIZE as usize {
            return Err(VBoxError::BadParam);
        }
        Ok(())
    }

    /// Number of sectors the image spans.
    pub fn get_sector_count(&self) -> (n: u64)
        requires
            self.total_blocks * (self.block_size / 512) <= u64::MAX,
        ensures
            n == self.total_blocks * (self.block_size / 512),
    {
        self.total_blocks * ((self.block_size / VD_LEGACY_SECTOR_SIZE) as u64)
    }

    pub fn get_sector_size(&self) -> (s: u32)
        ensures
            s == VD_LEGACY_SECTOR_SIZE,
    {
        VD_LEGACY_SECTOR_SIZE
    }

    pub fn get_type(&self) -> (f: DiskFormat)
        ensures
            f == DiskFormat::VD,
    {
        DiskFormat::VD
    }

    pub fn close(self) -> (r: VBoxResult<()>)
        ensures
            r is Ok,
    {
        Ok(())
    }

    pub fn get_info(&self) -> (i: DiskImageInfo)
        ensures
            i.path@ == self.info.path@,
            i.format == self.info.format,
            i.size == self.info.size,
            i.sector_size == self.info.sector_size,
    {
        self.info.duplicate()
    }

    pub fn is_open(&self) -> (b: bool)
        ensures
            b == self.is_open,
    {
        self.is_open
    }
}

} // verus!
