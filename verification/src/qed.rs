use vstd::prelude::*;
use std::collections::BTreeMap;
use crate::error::{VBoxError, VBoxResult};
use crate::bytes::{le32, read_le_u32, read_array, zeroed};
use crate::disk::{DiskFormat, DiskImageInfo, QedImageType, disk_type_of};

verus! {

/// QED magic, "QED\0".
pub const QED_MAGIC: u32 = 0x45445100;
/// The QED version understood here.
pub const QED_VERSION: u32 = 2;
/// Size of a QED header.
pub const QED_HEADER_SIZE: u32 = 4096;
/// Size of a QED table.
pub const QED_TABLE_SIZE: u32 = 4096;
/// Block size of QED images (1 MiB).
pub const QED_BLOCK_SIZE: u32 = 1048576;
/// Sector size of QED images.
pub const QED_SECTOR_SIZE: u32 = 512;
/// Blocks smaller than this are stored uncompressed.
pub const QED_COMPRESSION_THRESHOLD: u32 = 4096;
/// Bytes of a QED header that are required.
pub const QED_HEADER_MIN: usize = 64;

/// The QED header.
#[derive(Debug, Clone, Copy)]
pub struct QedHeader {
    pub magic: u32,
    pub version: u32,
    pub header_size: u32,
    pub table_size: u32,
    pub image_type: QedImageType,
    pub flags: u32,
    pub compression: u32,
    pub uuid_image: [u8; 16],
    pub uuid_modification: [u8; 16],
    pub image_size: u64,
    pub total_blocks: u64,
    pub block_size: u32,
    pub data_offset: u64,
    pub table_offset: u64,
    pub header_checksum: u32,
    pub reserved: [u8; 256],
}

/// The fields of a header that parsing does not read: as in a default header.
pub open spec fn qed_header_unread_defaults(h: QedHeader) -> bool {
    &&& h.image_size == 0
    &&& h.total_blocks == 0
    &&& h.block_size == QED_BLOCK_SIZE
    &&& h.data_offset == 0
    &&& h.table_offset == 0
    &&& h.header_checksum == 0
    &&& h.reserved@ == Seq::new(256, |i: int| 0u8)
}

impl Default for QedHeader {
    fn default() -> (h: Self)
        ensures
            qed_header_unread_defaults(h),
            h.magic == QED_MAGIC,
            h.version == QED_VERSION,
            h.header_size == QED_HEADER_SIZE,
            h.table_size == QED_TABLE_SIZE,
            h.image_type == QedImageType::Normal,
            h.flags == 0,
            h.compression == 0,
            h.uuid_image@ == Seq::new(16, |i: int| 0u8),
            h.uuid_modification@ == Seq::new(16, |i: int| 0u8),
    {
        let h = QedHeader {
            magic: QED_MAGIC,
            version: QED_VERSION,
            header_size: QED_HEADER_SIZE,
            table_size: QED_TABLE_SIZE,
            image_type: QedImageType::Normal,
            flags: 0,
            compression: 0,
            uuid_image: [0u8; 16],
            uuid_modification: [0u8; 16],
            image_size: 0,
            total_blocks: 0,
            block_size: QED_BLOCK_SIZE,
            data_offset: 0,
            table_offset: 0,
            header_checksum: 0,
            reserved: [0u8; 256],
        };
        assert(h.uuid_image@ =~= Seq::new(16, |i: int| 0u8));
        assert(h.uuid_modification@ =~= Seq::new(16, |i: int| 0u8));
        assert(h.reserved@ =~= Seq::new(256, |i: int| 0u8));
        h
    }
}

/// An entry of the L1 table.
#[derive(Debug, Clone, Copy, PartialEq, Eq, Structural)]
pub struct QedL1Entry {
    pub offset: u64,
    pub size: u32,
    pub flags: u32,
}

/// An entry of an L2 table.
#[derive(Debug, Clone, Copy, PartialEq, Eq, Structural)]
pub struct QedL2Entry {
    pub offset: u64,
    pub size: u32,
    pub flags: u32,
}

/// A stored data block.
#[derive(Debug, Clone)]
pub struct QedBlock {
    pub data: Vec<u8>,
    pub compressed: bool,
    pub size: u32,
}

/// A QED image.
pub struct QedImage {
    pub header: QedHeader,
    pub l1_table: Vec<QedL1Entry>,
    pub l2_cache: BTreeMap<u64, Vec<QedL2Entry>>,
    pub blocks: BTreeMap<u64, QedBlock>,
    pub is_open: bool,
    pub info: DiskImageInfo,
}

/// Why a QED image was refused.
#[derive(Debug, Clone, Copy, PartialEq, Eq, Structural)]
pub enum QedError {
    InvalidMagic,
    UnsupportedVersion,
    Io,
}

/// The image sub-type that a QED type code stands for.
pub open spec fn qed_type_of_code(code: u32) -> Option<QedImageType> {
    if code == 0 {
        Some(QedImageType::Normal)
    } else if code == 1 {
        Some(QedImageType::Metadata)
    } else if code == 2 {
        Some(QedImageType::Compact)
    } else {
        None
    }
}

/// The QED type codes: 0 is a normal image, 1 a metadata image and 2 a
/// compact image; every other code stands for no image type.
pub proof fn lemma_qed_type_codes(code: u32)
    ensures
        (qed_type_of_code(code) == Some(QedImageType::Normal)) == (code == 0),
        (qed_type_of_code(code) == Some(QedImageType::Metadata)) == (code == 1),
        (qed_type_of_code(code) == Some(QedImageType::Compact)) == (code == 2),
        (qed_type_of_code(code) is None) == (code > 2),
{
}

/// Whether header `h` is what `data` holds.
pub open spec fn qed_header_of(h: QedHeader, data: Seq<u8>) -> bool {
    &&& h.magic == le32(data, 0)
    &&& h.version == le32(data, 4)
    &&& h.header_size == le32(data, 8)
    &&& h.table_size == le32(data, 12)
    &&& qed_type_of_code(le32(data, 16)) == Some(h.image_type)
    &&& h.flags == le32(data, 20)
    &&& h.compression == le32(data, 24)
    &&& h.uuid_image@ == data.subrange(28, 44)
    &&& h.uuid_modification@ == data.subrange(44, 60)
    &&& qed_header_unread_defaults(h)
}

/// The L1 entry of a table that points nowhere.
pub open spec fn qed_l1_empty() -> QedL1Entry {
    QedL1Entry { offset: 0, size: 0, flags: 0 }
}

/// The L2 entry of a table that points nowhere.
pub open spec fn qed_l2_empty() -> QedL2Entry {
    QedL2Entry { offset: 0, size: 0, flags: 0 }
}

/// Entries in one L2 table.
pub const QED_L2_ENTRIES: usize = 512;

/// A table of `n` L1 entries that point nowhere.
fn empty_l1(n: u64) -> (t: Vec<QedL1Entry>)
    requires
        n <= usize::MAX,
    ensures
        t@ == Seq::new(n as nat, |i: int| qed_l1_empty()),
{
    let t = vec![QedL1Entry { offset: 0, size: 0, flags: 0 }; n as usize];
    assert(t@ =~= Seq::new(n as nat, |i: int| qed_l1_empty()));
    t
}

impl QedImage {
    /// Parses the QED header: a short file or a wrong magic is a bad file, a
    /// version other than 2 a bad version, an unknown image type a bad parameter.
    pub fn parse_header(data: &[u8]) -> (r: VBoxResult<QedHeader>)
        ensures
            (data@.len() < QED_HEADER_MIN || le32(data@, 0) != QED_MAGIC)
                ==> r == Err::<QedHeader, VBoxError>(VBoxError::BadFile),
            data@.len() >= QED_HEADER_MIN && le32(data@, 0) == QED_MAGIC && le32(data@, 4) != QED_VERSION
                ==> r == Err::<QedHeader, VBoxError>(VBoxError::BadVersion),
            data@.len() >= QED_HEADER_MIN && le32(data@, 0) == QED_MAGIC && le32(data@, 4) == QED_VERSION
                && qed_type_of_code(le32(data@, 16)) is None ==> r == Err::<QedHeader, VBoxError>(VBoxError::BadParam),
            data@.len() >= QED_HEADER_MIN && le32(data@, 0) == QED_MAGIC && le32(data@, 4) == QED_VERSION
                && qed_type_of_code(le32(data@, 16)) is Some ==> (r matches Ok(h) && qed_header_of(h, data@)),
    {
        if data.len() < QED_HEADER_MIN {
            return Err(VBoxError::BadFile);
        }
        let magic = read_le_u32(data, 0);
        if magic != QED_MAGIC {
            return Err(VBoxError::BadFile);
        }
        let version = read_le_u32(data, 4);
        if version != QED_VERSION {
            return Err(VBoxError::BadVersion);
        }
        let mut header = QedHeader::default();
        header.magic = magic;
        header.version = version;
        header.header_size = read_le_u32(data, 8);
        header.table_size = read_le_u32(data, 12);
        header.image_type = match read_le_u32(data, 16) {
            0 => QedImageType::Normal,
            1 => QedImageType::Metadata,
            2 => QedImageType::Compact,
            _ => return Err(VBoxError::BadParam),
        };
        header.flags = read_le_u32(data, 20);
        header.compression = read_le_u32(data, 24);
        header.uuid_image = read_array::<16>(data, 28);
        header.uuid_modification = read_array::<16>(data, 44);
        Ok(header)
    }

    /// Builds the image from the contents `data` of the file at `path`. The
    /// header does not record a block count, so the image has no blocks and
    /// an empty L1 table.
    pub fn open_data(path: &str, data: &[u8]) -> (r: VBoxResult<QedImage>)
        ensures
            (data@.len() < QED_HEADER_MIN || le32(data@, 0) != QED_MAGIC)
                ==> r == Err::<QedImage, VBoxError>(VBoxError::BadFile),
            data@.len() >= QED_HEADER_MIN && le32(data@, 0) == QED_MAGIC && le32(data@, 4) != QED_VERSION
                ==> r == Err::<QedImage, VBoxError>(VBoxError::BadVersion),
            data@.len() >= QED_HEADER_MIN && le32(data@, 0) == QED_MAGIC && le32(data@, 4) == QED_VERSION
                && qed_type_of_code(le32(data@, 16)) is None ==> r == Err::<QedImage, VBoxError>(VBoxError::BadParam),
            data@.len() >= QED_HEADER_MIN && le32(data@, 0) == QED_MAGIC && le32(data@, 4) == QED_VERSION
                && qed_type_of_code(le32(data@, 16)) is Some ==> (r matches Ok(img) && qed_header_of(img.header, data@)
                && img.l1_table@.len() == 0 && img.is_open
                && img.info.path@ == path@ && img.info.format == disk_type_of(DiskFormat::QED)
                && img.info.size == 0 && img.info.sector_size == QED_SECTOR_SIZE),
    {
        let header = Self::parse_header(data)?;
        let total_blocks = header.total_blocks;
        let info = DiskImageInfo::new(path.to_owned(), DiskFormat::QED,
            total_blocks * ((QED_BLOCK_SIZE / QED_SECTOR_SIZE) as u64), QED_SECTOR_SIZE);
        let per_table = (QED_TABLE_SIZE / 8) as u64;
        let l1_entries = (total_blocks + per_table - 1) / per_table;
        let l1_table = empty_l1(l1_entries);
        Ok(QedImage { header, l1_table, l2_cache: BTreeMap::new(), blocks: BTreeMap::new(), is_open: true, info })
    }

    /// A new image of `size_bytes` in 1 MiB blocks, with one empty L1 entry
    /// per 512 blocks (rounded up).
    pub fn create(path: &str, size_bytes: u64) -> (r: VBoxResult<QedImage>)
        requires
            (size_bytes / (QED_BLOCK_SIZE as u64) + 511) / 512 <= usize::MAX,
        ensures
            r matches Ok(img) && img.is_open
                && img.header.magic == QED_MAGIC && img.header.version == QED_VERSION
                && img.header.image_size == size_bytes
                && img.header.total_blocks == size_bytes / (QED_BLOCK_SIZE as u64)
                && img.header.block_size == QED_BLOCK_SIZE
                && img.l1_table@ == Seq::new(((img.header.total_blocks + 511) / 512) as nat, |i: int| qed_l1_empty())
                && img.info.path@ == path@ && img.info.format == disk_type_of(DiskFormat::QED)
                && img.info.size == img.header.total_blocks * 2048 && img.info.sector_size == QED_SECTOR_SIZE,
    {
        let block_size = QED_BLOCK_SIZE;
        let total_blocks = size_bytes / (block_size as u64);
        assert(total_blocks * 2048 <= u64::MAX) by (nonlinear_arith)
            requires
                total_blocks == size_bytes / 1048576,
        {
        }
        let mut header = QedHeader::default();
        header.magic = QED_MAGIC;
        header.version = QED_VERSION;
        header.image_size = size_bytes;
        header.total_blocks = total_blocks;
        header.block_size = block_size;
        let l1_entries = (total_blocks + 511) / 512;
        let l1_table = empty_l1(l1_entries);
        let info = DiskImageInfo::new(path.to_owned(), DiskFormat::QED,
            total_blocks * ((block_size / QED_SECTOR_SIZE) as u64), QED_SECTOR_SIZE);
        Ok(QedImage { header, l1_table, l2_cache: BTreeMap::new(), blocks: BTreeMap::new(), is_open: true, info })
    }

    /// The L2 table under L1 entry `l1_index`: tables are not stored, so an
    /// existing entry yields a table of empty entries; a missing one is not found.
    fn get_l2_table(&self, l1_index: u64) -> (r: VBoxResult<Vec<QedL2Entry>>)
        ensures
            l1_index < self.l1_table@.len() ==> (r matches Ok(t)
                && t@ == Seq::new(QED_L2_ENTRIES as nat, |i: int| qed_l2_empty())),
            l1_index >= self.l1_table@.len() ==> r == Err::<Vec<QedL2Entry>, VBoxError>(VBoxError::NotFound),
    {
        if l1_index >= self.l1_table.len() as u64 {
            return Err(VBoxError::NotFound);
        }
        let t = vec![QedL2Entry { offset: 0, size: 0, flags: 0 }; QED_L2_ENTRIES];
        assert(t@ =~= Seq::new(QED_L2_ENTRIES as nat, |i: int| qed_l2_empty()));
        Ok(t)
    }

    /// Prepares block data for storage; blocks are kept as they are.
    fn compress_block(data: &[u8]) -> (v: Vec<u8>)
        ensures
            v@ == data@,
    {
        let mut v: Vec<u8> = Vec::new();
        let mut i: usize = 0;
        while i < data.len()
            invariant
                i <= data@.len(),
                v@ =~= data@.subrange(0, i as int),
            decreases data@.len() - i,
        {
            v.push(data[i]);
            i = i + 1;
        }
        v
    }

    /// Reads sector `lba`: zeros inside the image, a bad parameter past its end.
    pub fn read_sector(&self, lba: u64) -> (r: VBoxResult<Vec<u8>>)
        requires
            self.header.total_blocks * 2048 <= u64::MAX,
        ensures
            lba >= self.header.total_blocks * 2048 ==> r == Err::<Vec<u8>, VBoxError>(VBoxError::BadParam),
            lba < self.header.total_blocks * 2048 ==> (r matches Ok(v) && v@ == Seq::new(512, |i: int| 0u8)),
    {
        let sectors_per_block = (QED_BLOCK_SIZE / QED_SECTOR_SIZE) as u64;
        if lba >= self.header.total_blocks * sectors_per_block {
            return Err(VBoxError::BadParam);
        }
        Ok(zeroed(QED_SECTOR_SIZE as usize))
    }

    /// Accepts a 512-byte sector and discards it; other sizes are a bad parameter.
    pub fn write_sector(&mut self, lba: u64, data: &[u8]) -> (r: VBoxResult<()>)
        ensures
            data@.len() != 512 ==> r == Err::<(), VBoxError>(VBoxError::BadParam),
            data@.len() == 512 ==> r is Ok,
            final(self).header == old(self).header,
            final(self).l1_table@ == old(self).l1_table@,
            final(self).is_open == old(self).is_open,
    {
        if data.len() != QED_SECTOR_SIZE as usize {
            return Err(VBoxError::BadParam);
        }
        Ok(())
    }

    /// Number of sectors the image spans.
    pub fn get_sector_count(&self) -> (n: u64)
        requires
            self.header.total_blocks * 2048 <= u64::MAX,
        ensures
            n == self.header.total_blocks * 2048,
    {
        self.header.total_blocks * ((QED_BLOCK_SIZE / QED_SECTOR_SIZE) as u64)
    }

    pub fn get_sector_size(&self) -> (s: u32)
        ensures
            s == QED_SECTOR_SIZE,
    {
        QED_SECTOR_SIZE
    }

    pub fn get_type(&self) -> (f: DiskFormat)
        ensures
            f == DiskFormat::QED,
    {
        DiskFormat::QED
    }

    /// Closes the image, dropping its block data.
    pub fn close(self) -> (r: VBoxResult<()>)
        ensures
            r is Ok,
    {
        let mut blocks = self.blocks;
        blocks.clear();
        Ok(())
    }

    pub fn get_info(&self) -> (i: DiskImageInfo)
        ensures
            i.path@ == self.info.path@,
            i.format == self.info.format,
            i.size == self.info.size,
            i.sector_size == self.info.sector_size,
    {
        self.info.duplicate()
    }

    pub fn is_open(&self) -> (b: bool)
        ensures
            b == self.is_open,
    {
        self.is_open
    }
}

} // verus!
