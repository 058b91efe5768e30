use vstd::prelude::*;
use std::collections::BTreeMap;
use crate::error::{VBoxError, VBoxResult};
use crate::bytes::{le32, le64, read_le_u32, read_le_u64, read_array, zeroed};
use crate::disk::{DiskFormat, DiskImageInfo, disk_type_of};

verus! {

/// DMG magic.
pub const DMG_MAGIC: u32 = 0x444D4721;
/// Version written into new DMG headers.
pub const DMG_VERSION: u32 = 4;
/// Sector size of DMG images.
pub const DMG_SECTOR_SIZE: u32 = 512;
/// Segment size of new DMG images (1 MiB).
pub const DMG_BLOCK_SIZE: u32 = 1048576;
/// Bytes of a DMG header that are required.
pub const DMG_HEADER_MIN: usize = 64;
/// Length from which the extended header fields are read.
pub const DMG_EXTENDED_MIN: usize = 84;
/// Length that the extended header fields need.
pub const DMG_EXTENDED_END: usize = 108;

/// The DMG header.
#[derive(Debug, Clone, Copy)]
pub struct DmgHeader {
    pub magic: u32,
    pub version: u32,
    pub table_of_contents: [u32; 4],
    pub reserved1: [u8; 16],
    pub segment_number: u32,
    pub segment_count: u32,
    pub segment_id: [u8; 16],
    pub data_checksum: [u8; 20],
    pub image_size: u64,
    pub segment_size: u32,
    pub reserved2: [u8; 12],
    pub partition_count: u32,
    pub reserved3: [u8; 16],
}

impl Default for DmgHeader {
    fn default() -> (h: Self)
        ensures
            h.magic == DMG_MAGIC,
            h.version == DMG_VERSION,
            h.table_of_contents@ == Seq::new(4, |i: int| 0u32),
            h.reserved1@ == Seq::new(16, |i: int| 0u8),
            h.segment_number == 0,
            h.segment_count == 0,
            h.segment_id@ == Seq::new(16, |i: int| 0u8),
            h.data_checksum@ == Seq::new(20, |i: int| 0u8),
            h.image_size == 0,
            h.segment_size == 0,
            h.reserved2@ == Seq::new(12, |i: int| 0u8),
            h.partition_count == 0,
            h.reserved3@ == Seq::new(16, |i: int| 0u8),
    {
        let h = DmgHeader {
            magic: DMG_MAGIC,
            version: DMG_VERSION,
            table_of_contents: [0u32; 4],
            reserved1: [0u8; 16],
            segment_number: 0,
            segment_count: 0,
            segment_id: [0u8; 16],
            data_checksum: [0u8; 20],
            image_size: 0,
            segment_size: 0,
            reserved2: [0u8; 12],
            partition_count: 0,
            reserved3: [0u8; 16],
        };
        assert(h.table_of_contents@ =~= Seq::new(4, |i: int| 0u32));
        assert(h.reserved1@ =~= Seq::new(16, |i: int| 0u8));
        assert(h.segment_id@ =~= Seq::new(16, |i: int| 0u8));
        assert(h.data_checksum@ =~= Seq::new(20, |i: int| 0u8));
        assert(h.reserved2@ =~= Seq::new(12, |i: int| 0u8));
        assert(h.reserved3@ =~= Seq::new(16, |i: int| 0u8));
        h
    }
}

/// A partition of a DMG image.
#[derive(Debug, Clone, Copy)]
pub struct DmgPartition {
    pub offset: u64,
    pub size: u64,
    pub name: [u8; 128],
    pub type_: [u8; 128],
    pub permissions: u32,
    pub reserved: [u8; 12],
}

/// A DMG image.
pub struct DmgImage {
    pub header: DmgHeader,
    pub partitions: Vec<DmgPartition>,
    pub blocks: BTreeMap<u64, Vec<u8>>,
    pub is_open: bool,
    pub info: DiskImageInfo,
}

/// Why a DMG image was refused.
#[derive(Debug, Clone, Copy, PartialEq, Eq, Structural)]
pub enum DmgError {
    InvalidMagic,
    UnsupportedVersion,
    Io,
}

/// Whether header `h` is what `data` holds. The extended fields (checksum,
/// size, segment size, partition count) are read only from data of at least
/// `DMG_EXTENDED_MIN` bytes; otherwise they keep their default values.
pub open spec fn dmg_header_of(h: DmgHeader, data: Seq<u8>) -> bool {
    &&& h.magic == le32(data, 0)
    &&& h.version == le32(data, 4)
    &&& h.table_of_contents@ == seq![le32(data, 8), le32(data, 12), le32(data, 16), le32(data, 20)]
    &&& h.reserved1@ == data.subrange(24, 40)
    &&& h.segment_number == le32(data, 40)
    &&& h.segment_count == le32(data, 44)
    &&& h.segment_id@ == data.subrange(48, 64)
    &&& h.reserved2@ == Seq::new(12, |i: int| 0u8)
    &&& h.reserved3@ == Seq::new(16, |i: int| 0u8)
    &&& if data.len() >= DMG_EXTENDED_MIN {
        &&& h.data_checksum@ == data.subrange(64, 84)
        &&& h.image_size == le64(data, 84)
        &&& h.segment_size == le32(data, 92)
        &&& h.partition_count == le32(data, 104)
    } else {
        &&& h.data_checksum@ == Seq::new(20, |i: int| 0u8)
        &&& h.image_size == 0
        &&& h.segment_size == 0
        &&& h.partition_count == 0
    }
}

/// Whether `data` can be parsed without running past its end: it is not
/// cut inside the extended fields, or its magic is wrong (which ends the parse).
pub open spec fn dmg_length_ok(data: Seq<u8>) -> bool {
    !(DMG_EXTENDED_MIN <= data.len() < DMG_EXTENDED_END) || le32(data, 0) != DMG_MAGIC
}

/// Whether `data` has a length that `DmgImage::parse_header` and
/// `DmgImage::open_data` accept.
pub fn dmg_length_fits(data: &[u8]) -> (b: bool)
    ensures
        b == dmg_length_ok(data@),
{
    if data.len() >= DMG_EXTENDED_MIN && data.len() < DMG_EXTENDED_END {
        read_le_u32(data, 0) != DMG_MAGIC
    } else {
        true
    }
}

impl DmgImage {
    /// Parses the DMG header: a short file or a wrong magic is a bad file.
    pub fn parse_header(data: &[u8]) -> (r: VBoxResult<DmgHeader>)
        requires
            dmg_length_ok(data@),
        ensures
            (data@.len() < DMG_HEADER_MIN || le32(data@, 0) != DMG_MAGIC)
                ==> r == Err::<DmgHeader, VBoxError>(VBoxError::BadFile),
            data@.len() >= DMG_HEADER_MIN && le32(data@, 0) == DMG_MAGIC
                ==> (r matches Ok(h) && dmg_header_of(h, data@)),
    {
        if data.len() < DMG_HEADER_MIN {
            return Err(VBoxError::BadFile);
        }
        let magic = read_le_u32(data, 0);
        if magic != DMG_MAGIC {
            return Err(VBoxError::BadFile);
        }
        let mut header = DmgHeader::default();
        header.magic = magic;
        header.version = read_le_u32(data, 4);
        header.table_of_contents = [read_le_u32(data, 8), read_le_u32(data, 12), read_le_u32(data, 16), read_le_u32(data, 20)];
        header.reserved1 = read_array::<16>(data, 24);
        header.segment_number = read_le_u32(data, 40);
        header.segment_count = read_le_u32(data, 44);
        header.segment_id = read_array::<16>(data, 48);
        if data.len() >= DMG_EXTENDED_MIN {
            header.data_checksum = read_array::<20>(data, 64);
            header.image_size = read_le_u64(data, 84);
            header.segment_size = read_le_u32(data, 92);
            header.partition_count = read_le_u32(data, 104);
        }
        assert(header.table_of_contents@ =~= seq![le32(data@, 8), le32(data@, 12), le32(data@, 16), le32(data@, 20)]);
        Ok(header)
    }

    /// Builds the image from the contents `data` of the file at `path`.
    pub fn open_data(path: &str, data: &[u8]) -> (r: VBoxResult<DmgImage>)
        requires
            dmg_length_ok(data@),
        ensures
            (data@.len() < DMG_HEADER_MIN || le32(data@, 0) != DMG_MAGIC)
                ==> r == Err::<DmgImage, VBoxError>(VBoxError::BadFile),
            data@.len() >= DMG_HEADER_MIN && le32(data@, 0) == DMG_MAGIC ==> (r matches Ok(img)
                && dmg_header_of(img.header, data@) && img.is_open && img.partitions@.len() == 0
                && img.info.path@ == path@ && img.info.format == disk_type_of(DiskFormat::DMG)
                && img.info.size == img.header.image_size / 512 && img.info.sector_size == DMG_SECTOR_SIZE),
    {
        let header = Self::parse_header(data)?;
        let info = DiskImageInfo::new(path.to_owned(), DiskFormat::DMG, header.image_size / (DMG_SECTOR_SIZE as u64), DMG_SECTOR_SIZE);
        Ok(DmgImage { header, partitions: Vec::new(), blocks: BTreeMap::new(), is_open: true, info })
    }

    /// A new image of `size_bytes` with 1 MiB segments.
    pub fn create(path: &str, size_bytes: u64) -> (r: VBoxResult<DmgImage>)
        ensures
            r matches Ok(img) && img.is_open && img.header.magic == DMG_MAGIC
                && img.header.version == DMG_VERSION && img.header.image_size == size_bytes
                && img.header.segment_size == DMG_BLOCK_SIZE && img.partitions@.len() == 0
                && img.info.path@ == path@ && img.info.format == disk_type_of(DiskFormat::DMG)
                && img.info.size == size_bytes / 512 && img.info.sector_size == DMG_SECTOR_SIZE,
    {
        let mut header = DmgHeader::default();
        header.magic = DMG_MAGIC;
        header.image_size = size_bytes;
        header.segment_size = DMG_BLOCK_SIZE;
        let info = DiskImageInfo::new(path.to_owned(), DiskFormat::DMG, size_bytes / (DMG_SECTOR_SIZE as u64), DMG_SECTOR_SIZE);
        Ok(DmgImage { header, partitions: Vec::new(), blocks: BTreeMap::new(), is_open: true, info })
    }

    /// Reads a sector: the data is not kept, so every sector reads as zeros.
    pub fn read_sector(&self, lba: u64) -> (r: VBoxResult<Vec<u8>>)
        ensures
            r matches Ok(v) && v@ == Seq::new(512, |i: int| 0u8),
    {
        Ok(zeroed(DMG_SECTOR_SIZE as usize))
    }

    /// Accepts a 512-byte sector and discards it; other sizes are a bad parameter.
    pub fn write_sector(&mut self, lba: u64, data: &[u8]) -> (r: VBoxResult<()>)
        ensures
            data@.len() != 512 ==> r == Err::<(), VBoxError>(VBoxError::BadParam),
            data@.len() == 512 ==> r is Ok,
            final(self).header == old(self).header,
            final(self).is_open == old(self).is_open,
    {
        if data.len() != DMG_SECTOR_SIZE as usize {
            return Err(VBoxError::BadParam);
        }
        Ok(())
    }

    /// Number of sectors the image spans.
    pub fn get_sector_count(&self) -> (n: u64)
        ensures
            n == self.header.image_size / 512,
    {
        self.header.image_size / (DMG_SECTOR_SIZE as u64)
    }

    pub fn get_sector_size(&self) -> (s: u32)
        ensures
            s == DMG_SECTOR_SIZE,
    {
        DMG_SECTOR_SIZE
    }

    pub fn get_type(&self) -> (f: DiskFormat)
        ensures
            f == DiskFormat::DMG,
    {
        DiskFormat::DMG
    }

    pub fn close(self) -> (r: VBoxResult<()>)
        ensures
            r is Ok,
    {
        Ok(())
    }

    pub fn get_info(&self) -> (i: DiskImageInfo)
        ensures
            i.path@ == self.info.path@,
            i.format == self.info.format,
            i.size == self.info.size,
            i.sector_size == self.info.sector_size,
    {
        self.info.duplicate()
    }

    pub fn is_open(&self) -> (b: bool)
        ensures
            b == self.is_open,
    {
        self.is_open
    }
}

} // verus!
