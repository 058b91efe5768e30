use vstd::prelude::*;
use crate::error::{VBoxError, VBoxResult};
use crate::bytes::{le32, le64, read_le_u32, read_le_u64, read_array, zeroed};
use crate::disk::{DiskFormat, DiskImageInfo, VdiImageType, disk_type_of};

verus! {

/// VDI signature, first form.
pub const VDI_MAGIC_V1: u32 = 0xBEEFCAFE;
/// VDI signature, second form.
pub const VDI_MAGIC_V2: u32 = 0xDEAD10CC;
/// VDI header version 1.1.
pub const VDI_HEADER_VERSION_V1: u32 = 0x00010001;
/// VDI header version 1.2.
pub const VDI_HEADER_VERSION_V2: u32 = 0x00010002;
/// Size of the descriptive text that opens a VDI file.
pub const VDI_PRE_HEADER_SIZE: usize = 64;
/// Offset of the header proper: after the descriptive text, the signature
/// and the pre-header version.
pub const VDI_HEADER_OFFSET: usize = 72;
/// Bytes a VDI file needs up to the end of the header fields that are read.
pub const VDI_HEADER_END: usize = 124;
/// Space reserved for the VDI header in a new image.
pub const VDI_HEADER_SIZE: usize = 65536;
/// Size of one image table entry.
pub const VDI_IMAGE_TABLE_ENTRY_SIZE: usize = 4;
/// Sector size of VDI images.
pub const VDI_SECTOR_SIZE: u32 = 512;

/// The block below the header: descriptive text, signature and version.
#[derive(Debug, Clone, Copy)]
pub struct VdiPreHeader {
    pub sz_file_info: [u8; 64],
    pub u32_signature: u32,
    pub u32_version: u32,
}

impl Default for VdiPreHeader {
    fn default() -> (h: Self)
        ensures
            h.sz_file_info@ == Seq::new(64, |i: int| 0u8),
            h.u32_signature == 0,
            h.u32_version == 0,
    {
        let h = VdiPreHeader { sz_file_info: [0u8; 64], u32_signature: 0, u32_version: 0 };
        assert(h.sz_file_info@ =~= Seq::new(64, |i: int| 0u8));
        h
    }
}

/// The VDI header.
#[derive(Debug, Clone, Copy)]
pub struct VdiHeader {
    pub pre_header: VdiPreHeader,
    pub version: u32,
    pub image_type: VdiImageType,
    pub flags: u32,
    pub image_size: u64,
    pub block_size: u32,
    pub drive_type: u32,
    pub image_format: u32,
    pub offset_type: u32,
    pub num_blocks: u64,
    pub block_data_offset: u64,
    pub block_extra_data_offset: u64,
    pub reserved1: [u8; 256],
    pub uuid_image: [u8; 16],
    pub uuid_modification: [u8; 16],
    pub uuid_link: [u8; 16],
    pub uuid_parent: [u8; 16],
    pub reserved2: [u8; 128],
    pub image_extra_data_offset: u64,
    pub image_extra_data_size: u64,
}

/// The parts of a header that default and parsed headers leave zero.
pub open spec fn vdi_header_zero_parts(h: VdiHeader) -> bool {
    &&& h.block_extra_data_offset == 0
    &&& h.reserved1@ == Seq::new(256, |i: int| 0u8)
    &&& h.uuid_image@ == Seq::new(16, |i: int| 0u8)
    &&& h.uuid_modification@ == Seq::new(16, |i: int| 0u8)
    &&& h.uuid_link@ == Seq::new(16, |i: int| 0u8)
    &&& h.uuid_parent@ == Seq::new(16, |i: int| 0u8)
    &&& h.reserved2@ == Seq::new(128, |i: int| 0u8)
    &&& h.image_extra_data_offset == 0
    &&& h.image_extra_data_size == 0
}

impl Default for VdiHeader {
    /// A version 1.2 header of a normal image with 1 MiB blocks and nothing else set.
    fn default() -> (h: Self)
        ensures
            h.pre_header.sz_file_info@ == Seq::new(64, |i: int| 0u8),
            h.pre_header.u32_signature == 0,
            h.pre_header.u32_version == 0,
            h.version == VDI_HEADER_VERSION_V2,
            h.image_type == VdiImageType::Normal,
            h.flags == 0,
            h.image_size == 0,
            h.block_size == 0x100000,
            h.drive_type == 0,
            h.image_format == 0,
            h.offset_type == 0,
            h.num_blocks == 0,
            h.block_data_offset == 0,
            vdi_header_zero_parts(h),
    {
        let h = VdiHeader {
            pre_header: VdiPreHeader::default(),
            version: VDI_HEADER_VERSION_V2,
            image_type: VdiImageType::Normal,
            flags: 0,
            image_size: 0,
            block_size: 0x100000,
            drive_type: 0,
            image_format: 0,
            offset_type: 0,
            num_blocks: 0,
            block_data_offset: 0,
            block_extra_data_offset: 0,
            reserved1: [0u8; 256],
            uuid_image: [0u8; 16],
            uuid_modification: [0u8; 16],
            uuid_link: [0u8; 16],
            uuid_parent: [0u8; 16],
            reserved2: [0u8; 128],
            image_extra_data_offset: 0,
            image_extra_data_size: 0,
        };
        assert(h.reserved1@ =~= Seq::new(256, |i: int| 0u8));
        assert(h.uuid_image@ =~= Seq::new(16, |i: int| 0u8));
        assert(h.uuid_modification@ =~= Seq::new(16, |i: int| 0u8));
        assert(h.uuid_link@ =~= Seq::new(16, |i: int| 0u8));
        assert(h.uuid_parent@ =~= Seq::new(16, |i: int| 0u8));
        assert(h.reserved2@ =~= Seq::new(128, |i: int| 0u8));
        h
    }
}

/// One entry of the image table: where a block's data lies (0 = unallocated).
#[derive(Debug, Clone, Copy, PartialEq, Eq, Structural)]
pub struct VdiImageTableEntry {
    pub offset: u32,
}

/// Why a VDI image was refused.
#[derive(Debug, Clone, Copy, PartialEq, Eq, Structural)]
pub enum VdiError {
    InvalidSignature,
    UnsupportedVersion,
    Io,
}

/// The image sub-type that a type code stands for.
pub open spec fn vdi_type_of_code(code: u32) -> Option<VdiImageType> {
    if code == 0 {
        Some(VdiImageType::Normal)
    } else if code == 1 {
        Some(VdiImageType::Difference)
    } else if code == 2 {
        Some(VdiImageType::Parent)
    } else {
        None
    }
}

/// The VDI type codes: 0 is a normal image, 1 a difference image and 2 a
/// parent image; every other code stands for no image type.
pub proof fn lemma_vdi_type_of_code_table(code: u32)
    ensures
        (vdi_type_of_code(code) == Some(VdiImageType::Normal)) == (code == 0),
        (vdi_type_of_code(code) == Some(VdiImageType::Difference)) == (code == 1),
        (vdi_type_of_code(code) == Some(VdiImageType::Parent)) == (code == 2),
        (vdi_type_of_code(code) is None) == (code > 2),
{
}

/// The image type of a header read from `data` is fixed by the type word
/// after the header's version: 0 is a normal image, 1 a difference image
/// and 2 a parent image; no other word gives a header.
pub proof fn lemma_vdi_image_type_codes(h: VdiHeader, data: Seq<u8>)
    requires
        vdi_header_of(h, data),
    ensures
        le32(data, VDI_HEADER_OFFSET + 4) <= 2,
        le32(data, VDI_HEADER_OFFSET + 4) == 0 <==> h.image_type == VdiImageType::Normal,
        le32(data, VDI_HEADER_OFFSET + 4) == 1 <==> h.image_type == VdiImageType::Difference,
        le32(data, VDI_HEADER_OFFSET + 4) == 2 <==> h.image_type == VdiImageType::Parent,
{
}

/// Whether `data` carries one of the two VDI signatures after the descriptive text.
pub open spec fn vdi_signature_ok(data: Seq<u8>) -> bool {
    le32(data, 64) == VDI_MAGIC_V1 || le32(data, 64) == VDI_MAGIC_V2
}

/// Whether header `h` is what `data` holds.
pub open spec fn vdi_header_of(h: VdiHeader, data: Seq<u8>) -> bool {
    let o = VDI_HEADER_OFFSET as int;
    &&& h.pre_header.sz_file_info@ == data.subrange(0, 64)
    &&& h.pre_header.u32_signature == le32(data, 64)
    &&& h.pre_header.u32_version == le32(data, 68)
    &&& h.version == le32(data, o)
    &&& vdi_type_of_code(le32(data, o + 4)) == Some(h.image_type)
    &&& h.flags == le32(data, o + 8)
    &&& h.image_size == le64(data, o + 12)
    &&& h.block_size == le32(data, o + 20)
    &&& h.drive_type == le32(data, o + 24)
    &&& h.image_format == le32(data, o + 28)
    &&& h.offset_type == le32(data, o + 32)
    &&& h.num_blocks == le64(data, o + 36)
    &&& h.block_data_offset == le64(data, o + 44)
    &&& vdi_header_zero_parts(h)
}

/// A VDI image: header, image table and geometry.
pub struct VdiImage {
    pub header: VdiHeader,
    pub image_table: Vec<VdiImageTableEntry>,
    pub block_size: u32,
    pub num_blocks: u64,
    pub is_open: bool,
    pub info: DiskImageInfo,
}

/// Position of the image table: it ends where the block data begins.
pub open spec fn vdi_table_offset(h: VdiHeader) -> int {
    h.block_data_offset - h.num_blocks * 4
}

/// Entry `i` of the image table stored in `data` for header `h`: the
/// little-endian word at the table position, 0 where that lies past the data.
pub open spec fn vdi_table_entry(data: Seq<u8>, h: VdiHeader, i: int) -> u32 {
    let pos = vdi_table_offset(h) + i * 4;
    if pos < data.len() {
        le32(data, pos)
    } else {
        0
    }
}

/// Whether reading the image table of `data` under header `h` stays within
/// bounds and free of overflow: the table position is computed without
/// underflow, and no entry starts inside the data but ends past it.
pub open spec fn vdi_table_readable(data: Seq<u8>, h: VdiHeader) -> bool {
    &&& h.num_blocks * 4 <= h.block_data_offset
    &&& h.block_data_offset <= usize::MAX
    &&& h.block_data_offset + 4 <= usize::MAX
    &&& h.num_blocks * (h.block_size / 512) <= u64::MAX
    &&& forall|i: int| 0 <= i < h.num_blocks && #[trigger] (vdi_table_offset(h) + i * 4) < data.len()
        ==> vdi_table_offset(h) + i * 4 + 4 <= data.len()
}

/// Whether `data` can be parsed without running past its end: shorter than
/// the descriptive text, or covering the signature and version words and
/// then either the header fields or a wrong signature (which ends the parse).
pub open spec fn vdi_length_ok(data: Seq<u8>) -> bool {
    data.len() < VDI_PRE_HEADER_SIZE
        || (data.len() >= VDI_HEADER_OFFSET && (data.len() >= VDI_HEADER_END || !vdi_signature_ok(data)))
}

/// Whether `data` has a length that `VdiImage::parse_header` and
/// `VdiImage::open_data` accept.
pub fn vdi_length_fits(data: &[u8]) -> (b: bool)
    ensures
        b == vdi_length_ok(data@),
{
    if data.len() < VDI_PRE_HEADER_SIZE {
        return true;
    }
    if data.len() < VDI_HEADER_OFFSET {
        return false;
    }
    if data.len() >= VDI_HEADER_END {
        return true;
    }
    let signature = read_le_u32(data, 64);
    signature != VDI_MAGIC_V1 && signature != VDI_MAGIC_V2
}

/// Whether the image table of `data` can be read under header `h`: what
/// `VdiImage::open_data` needs of its input, given the header that
/// `VdiImage::parse_header` reads from it.
pub fn vdi_table_fits(data: &[u8], h: &VdiHeader) -> (b: bool)
    ensures
        b == vdi_table_readable(data@, *h),
{
    if h.num_blocks > u64::MAX / 4 {
        return false;
    }
    let table_bytes = h.num_blocks * 4;
    if table_bytes > h.block_data_offset {
        return false;
    }
    if (h.block_data_offset as u128) + 4 > (usize::MAX as u128) {
        return false;
    }
    if h.num_blocks.checked_mul((h.block_size / 512) as u64).is_none() {
        return false;
    }
    let table_offset = h.block_data_offset - table_bytes;
    let len = data.len() as u64;
    let mut i: u64 = 0;
    while i < h.num_blocks
        invariant
            i <= h.num_blocks,
            h.num_blocks * 4 <= h.block_data_offset,
            table_offset == vdi_table_offset(*h),
            len == data@.len(),
            forall|k: int| 0 <= k < i && #[trigger] (vdi_table_offset(*h) + k * 4) < data@.len()
                ==> vdi_table_offset(*h) + k * 4 + 4 <= data@.len(),
        decreases h.num_blocks - i,
    {
        let pos = table_offset + i * 4;
        if pos < len && pos + 4 > len {
            return false;
        }
        i = i + 1;
    }
    true
}

impl VdiImage {
    /// Parses the VDI header. A file shorter than the descriptive text or
    /// without a VDI signature is a bad file; an unknown image type is a bad
    /// parameter.
    pub fn parse_header(data: &[u8]) -> (r: VBoxResult<VdiHeader>)
        requires
            vdi_length_ok(data@),
        ensures
            data@.len() < VDI_PRE_HEADER_SIZE ==> r == Err::<VdiHeader, VBoxError>(VBoxError::BadFile),
            data@.len() >= VDI_PRE_HEADER_SIZE && !vdi_signature_ok(data@)
                ==> r == Err::<VdiHeader, VBoxError>(VBoxError::BadFile),
            data@.len() >= VDI_PRE_HEADER_SIZE && vdi_signature_ok(data@)
                && vdi_type_of_code(le32(data@, VDI_HEADER_OFFSET + 4)) is None
                ==> r == Err::<VdiHeader, VBoxError>(VBoxError::BadParam),
            data@.len() >= VDI_PRE_HEADER_SIZE && vdi_signature_ok(data@)
                && vdi_type_of_code(le32(data@, VDI_HEADER_OFFSET + 4)) is Some
                ==> (r matches Ok(h) && vdi_header_of(h, data@)),
            r matches Ok(h) ==> (le32(data@, VDI_HEADER_OFFSET + 4) == 0 && h.image_type == VdiImageType::Normal
                || le32(data@, VDI_HEADER_OFFSET + 4) == 1 && h.image_type == VdiImageType::Difference
                || le32(data@, VDI_HEADER_OFFSET + 4) == 2 && h.image_type == VdiImageType::Parent),
    {
        if data.len() < VDI_PRE_HEADER_SIZE {
            return Err(VBoxError::BadFile);
        }
        let mut pre_header = VdiPreHeader::default();
        pre_header.sz_file_info = read_array::<64>(data, 0);
        pre_header.u32_signature = read_le_u32(data, 64);
        pre_header.u32_version = read_le_u32(data, 68);
        if pre_header.u32_signature != VDI_MAGIC_V1 && pre_header.u32_signature != VDI_MAGIC_V2 {
            return Err(VBoxError::BadFile);
        }
        let o = VDI_HEADER_OFFSET;
        let version = read_le_u32(data, o);
        let image_type_val = read_le_u32(data, o + 4);
        let flags = read_le_u32(data, o + 8);
        let image_size = read_le_u64(data, o + 12);
        let block_size = read_le_u32(data, o + 20);
        let drive_type = read_le_u32(data, o + 24);
        let image_format = read_le_u32(data, o + 28);
        let offset_type = read_le_u32(data, o + 32);
        let num_blocks = read_le_u64(data, o + 36);
        let block_data_offset = read_le_u64(data, o + 44);

        let mut header = VdiHeader::default();
        header.pre_header = pre_header;
        header.version = version;
        header.image_type = match image_type_val {
            0 => VdiImageType::Normal,
            1 => VdiImageType::Difference,
            2 => VdiImageType::Parent,
            _ => return Err(VBoxError::BadParam),
        };
        header.flags = flags;
        header.image_size = image_size;
        header.block_size = block_size;
        header.drive_type = drive_type;
        header.image_format = image_format;
        header.offset_type = offset_type;
        header.num_blocks = num_blocks;
        header.block_data_offset = block_data_offset;
        header.block_extra_data_offset = 0;
        Ok(header)
    }

    /// Builds the image from the contents `data` of the file at `path`: the
    /// header, then one image-table entry per block read from the table that
    /// ends where the block data begins.
    pub fn open_data(path: &str, data: &[u8]) -> (r: VBoxResult<VdiImage>)
        requires
            vdi_length_ok(data@),
            data@.len() >= VDI_HEADER_END && vdi_signature_ok(data@)
                ==> forall|h: VdiHeader| vdi_header_of(h, data@) ==> vdi_table_readable(data@, h),
        ensures
            match r {
                Ok(img) => {
                    &&& data@.len() >= VDI_PRE_HEADER_SIZE && vdi_signature_ok(data@)
                    &&& vdi_header_of(img.header, data@)
                    &&& img.num_blocks == img.header.num_blocks
                    &&& img.block_size == img.header.block_size
                    &&& img.is_open
                    &&& img.image_table@.len() == img.num_blocks
                    &&& forall|i: int| 0 <= i < img.num_blocks ==> (#[trigger] img.image_table@[i]).offset
                        == vdi_table_entry(data@, img.header, i)
                    &&& img.info.path@ == path@ && img.info.format == disk_type_of(DiskFormat::VDI)
                    &&& img.info.size == img.num_blocks * (img.block_size / 512) && img.info.sector_size == 512
                },
                Err(e) => e == VBoxError::BadFile && (data@.len() < VDI_PRE_HEADER_SIZE || !vdi_signature_ok(data@))
                    || e == VBoxError::BadParam && vdi_type_of_code(le32(data@, VDI_HEADER_OFFSET + 4)) is None,
            },
    {
        let header = Self::parse_header(data)?;
        assert(vdi_table_readable(data@, header));
        let block_size = header.block_size;
        let num_blocks = header.num_blocks;
        let table_offset: u64 = header.block_data_offset - num_blocks * 4;
        let mut image_table: Vec<VdiImageTableEntry> = Vec::new();
        let mut i: u64 = 0;
        while i < num_blocks
            invariant
                i <= num_blocks,
                num_blocks == header.num_blocks,
                table_offset == vdi_table_offset(header),
                vdi_table_readable(data@, header),
                image_table@.len() == i,
                forall|k: int| 0 <= k < i ==> (#[trigger] image_table@[k]).offset == vdi_table_entry(data@, header, k),
            decreases num_blocks - i,
        {
            let offset = if table_offset + i * 4 < data.len() as u64 {
                assert(vdi_table_offset(header) + i * 4 + 4 <= data@.len());
                read_le_u32(data, (table_offset + i * 4) as usize)
            } else {
                0
            };
            image_table.push(VdiImageTableEntry { offset });
            i = i + 1;
        }
        let info = DiskImageInfo::new(path.to_owned(), DiskFormat::VDI, num_blocks * ((block_size / 512) as u64), 512);
        Ok(VdiImage { header, image_table, block_size, num_blocks, is_open: true, info })
    }

    /// A new image of `size_bytes` in blocks of `block_size` bytes: the
    /// default header with the size, block size and block count filled in,
    /// block data placed after the header and the image table, and every
    /// block unallocated.
    pub fn create(path: &str, size_bytes: u64, block_size: u32) -> (r: VBoxResult<VdiImage>)
        requires
            block_size > 0,
            VDI_HEADER_SIZE + (size_bytes / block_size as u64) * 4 <= u64::MAX,
            (size_bytes / block_size as u64) * (block_size / 512) <= u64::MAX,
            size_bytes / block_size as u64 <= usize::MAX,
        ensures
            r matches Ok(img) && img.num_blocks == size_bytes / block_size as u64
                && img.block_size == block_size && img.is_open
                && img.header.image_size == size_bytes && img.header.block_size == block_size
                && img.header.num_blocks == img.num_blocks
                && img.header.block_data_offset == VDI_HEADER_SIZE + img.num_blocks * 4
                && img.header.version == VDI_HEADER_VERSION_V2 && img.header.image_type == VdiImageType::Normal
                && img.image_table@ == Seq::new(img.num_blocks as nat, |i: int| VdiImageTableEntry { offset: 0 })
                && img.info.path@ == path@ && img.info.format == disk_type_of(DiskFormat::VDI)
                && img.info.size == img.num_blocks * (block_size / 512) && img.info.sector_size == 512,
    {
        let num_blocks = size_bytes / (block_size as u64);
        let mut header = VdiHeader::default();
        header.image_size = size_bytes;
        header.block_size = block_size;
        header.num_blocks = num_blocks;
        header.block_data_offset = VDI_HEADER_SIZE as u64 + num_blocks * 4;
        let info = DiskImageInfo::new(path.to_owned(), DiskFormat::VDI, num_blocks * ((block_size / 512) as u64), 512);
        let image_table = vec![VdiImageTableEntry { offset: 0 }; num_blocks as usize];
        assert(image_table@ =~= Seq::new(num_blocks as nat, |i: int| VdiImageTableEntry { offset: 0 }));
        Ok(VdiImage { header, image_table, block_size, num_blocks, is_open: true, info })
    }

    /// The image-table entry of block `block_num`, if the table has one.
    fn get_image_table_entry(&self, block_num: u64) -> (r: VBoxResult<VdiImageTableEntry>)
        ensures
            block_num < self.image_table@.len() ==> r == Ok::<VdiImageTableEntry, VBoxError>(self.image_table@[block_num as int]),
            block_num >= self.image_table@.len() ==> r == Err::<VdiImageTableEntry, VBoxError>(VBoxError::NotFound),
    {
        if block_num < self.image_table.len() as u64 {
            Ok(self.image_table[block_num as usize])
        } else {
            Err(VBoxError::NotFound)
        }
    }

    /// Reads sector `lba`. Block data is not kept, so a sector of an existing
    /// block reads as zeros; a block past the image table is not found.
    pub fn read_sector(&self, lba: u64) -> (r: VBoxResult<Vec<u8>>)
        requires
            self.block_size >= 512,
        ensures
            lba / ((self.block_size / 512) as u64) < self.image_table@.len()
                ==> (r matches Ok(v) && v@ == Seq::new(512, |i: int| 0u8)),
            lba / ((self.block_size / 512) as u64) >= self.image_table@.len()
                ==> r == Err::<Vec<u8>, VBoxError>(VBoxError::NotFound),
    {
        let sectors_per_block = (self.block_size / 512) as u64;
        let block_num = lba / sectors_per_block;
        let _entry = self.get_image_table_entry(block_num)?;
        Ok(zeroed(512))
    }

    /// Writes sector `lba`: only a 512-byte sector is accepted; its block, if
    /// the table has it, is marked allocated.
    pub fn write_sector(&mut self, lba: u64, data: &[u8]) -> (r: VBoxResult<()>)
        requires
            old(self).block_size >= 512,
        ensures
            data@.len() != 512 ==> r == Err::<(), VBoxError>(VBoxError::BadParam)
                && final(self).image_table@ == old(self).image_table@,
            data@.len() == 512 ==> r is Ok && {
                let b = lba / ((old(self).block_size / 512) as u64);
                final(self).image_table@ == if b < old(self).image_table@.len() {
                    old(self).image_table@.update(b as int, VdiImageTableEntry { offset: 1 })
                } else {
                    old(self).image_table@
                }
            },
            final(self).header == old(self).header,
            final(self).block_size == old(self).block_size,
            final(self).num_blocks == old(self).num_blocks,
            final(self).is_open == old(self).is_open,
    {
        if data.len() != 512 {
            return Err(VBoxError::BadParam);
        }
        let sectors_per_block = (self.block_size / 512) as u64;
        let block_num = lba / sectors_per_block;
        if block_num < self.image_table.len() as u64 {
            self.image_table.set(block_num as usize, VdiImageTableEntry { offset: 1 });
        }
        Ok(())
    }

    /// Number of 512-byte sectors the image spans.
    pub fn get_sector_count(&self) -> (n: u64)
        requires
            self.num_blocks * (self.block_size / 512) <= u64::MAX,
        ensures
            n == self.num_blocks * (self.block_size / 512),
    {
        self.num_blocks * ((self.block_size / 512) as u64)
    }

    pub fn get_sector_size(&self) -> (s: u32)
        ensures
            s == 512,
    {
        512
    }

    pub fn get_type(&self) -> (f: DiskFormat)
        ensures
            f == DiskFormat::VDI,
    {
        DiskFormat::VDI
    }

    /// Closes the image, dropping its table.
    pub fn close(self) -> (r: VBoxResult<()>)
        ensures
            r is Ok,
    {
        let mut table = self.image_table;
        table.clear();
        Ok(())
    }

    pub fn get_info(&self) -> (i: DiskImageInfo)
        ensures
            i.path@ == self.info.path@,
            i.format == self.info.format,
            i.size == self.info.size,
            i.sector_size == self.info.sector_size,
    {
        self.info.duplicate()
    }

    pub fn is_open(&self) -> (b: bool)
        ensures
            b == self.is_open,
    {
        self.is_open
    }
}

} // verus!
