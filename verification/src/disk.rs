use vstd::prelude::*;
use crate::error::VBoxResult;
use crate::bytes::zeroed;

verus! {

/// Kind of a disk image.
#[derive(Debug, Clone, Copy, PartialEq, Eq, Structural)]
pub enum DiskType {
    VDI,
    VMDK,
    VHD,
    VHDX,
    QCOW,
    QED,
    VD,
    ISCSI,
    DMG,
    Raw,
}

/// Container format of a disk image.
#[derive(Debug, Clone, Copy, PartialEq, Eq, Structural)]
pub enum DiskFormat {
    VDI,
    VMDK,
    VHD,
    VHDX,
    QCOW,
    QED,
    VD,
    ISCSI,
    DMG,
    Raw,
}

/// The disk type of each container format: the variant of the same name.
pub open spec fn disk_type_of(f: DiskFormat) -> DiskType {
    match f {
        DiskFormat::VDI => DiskType::VDI,
        DiskFormat::VMDK => DiskType::VMDK,
        DiskFormat::VHD => DiskType::VHD,
        DiskFormat::VHDX => DiskType::VHDX,
        DiskFormat::QCOW => DiskType::QCOW,
        DiskFormat::QED => DiskType::QED,
        DiskFormat::VD => DiskType::VD,
        DiskFormat::ISCSI => DiskType::ISCSI,
        DiskFormat::DMG => DiskType::DMG,
        DiskFormat::Raw => DiskType::Raw,
    }
}

impl From<DiskFormat> for DiskType {
    fn from(f: DiskFormat) -> (t: Self) {
        match f {
            DiskFormat::VDI => DiskType::VDI,
            DiskFormat::VMDK => DiskType::VMDK,
            DiskFormat::VHD => DiskType::VHD,
            DiskFormat::VHDX => DiskType::VHDX,
            DiskFormat::QCOW => DiskType::QCOW,
            DiskFormat::QED => DiskType::QED,
            DiskFormat::VD => DiskType::VD,
            DiskFormat::ISCSI => DiskType::ISCSI,
            DiskFormat::DMG => DiskType::DMG,
            DiskFormat::Raw => DiskType::Raw,
        }
    }
}

impl vstd::std_specs::convert::FromSpecImpl<DiskFormat> for DiskType {
    open spec fn obeys_from_spec() -> bool {
        true
    }

    open spec fn from_spec(f: DiskFormat) -> DiskType {
        disk_type_of(f)
    }
}

/// Sub-type of a VDI image.
#[derive(Debug, Clone, Copy, PartialEq, Eq, Structural)]
pub enum VdiImageType {
    Normal,
    Difference,
    Parent,
}

/// Sub-type of a VHD image.
#[derive(Debug, Clone, Copy, PartialEq, Eq, Structural)]
pub enum VhdImageType {
    Fixed,
    Dynamic,
    Differencing,
}

/// Sub-type of a QED image.
#[derive(Debug, Clone, Copy, PartialEq, Eq, Structural)]
pub enum QedImageType {
    Normal,
    Metadata,
    Compact,
}

/// Sub-type of a VMDK image.
#[derive(Debug, Clone, Copy, PartialEq, Eq, Structural)]
pub enum VmdkImageType {
    StreamOptimized,
    MonolithicSparse,
    MonolithicFlat,
}

/// Sub-type of a legacy VD image.
#[derive(Debug, Clone, Copy, PartialEq, Eq, Structural)]
pub enum VdImageType {
    Normal,
    Differencing,
}

/// What is known of an opened image: format, size in sectors, sector size
/// and the path it came from.
#[derive(Debug)]
pub struct DiskImageInfo {
    pub format: DiskType,
    pub size: u64,
    pub sector_size: u32,
    pub path: String,
}

impl DiskImageInfo {
    pub fn new(path: String, format: DiskFormat, size: u64, sector_size: u32) -> (i: Self)
        ensures
            i.path == path,
            i.format == disk_type_of(format),
            i.size == size,
            i.sector_size == sector_size,
    {
        DiskImageInfo { format: DiskType::from(format), size, sector_size, path }
    }

    /// A copy of the record.
    pub fn duplicate(&self) -> (i: Self)
        ensures
            i.path@ == self.path@,
            i.format == self.format,
            i.size == self.size,
            i.sector_size == self.sector_size,
    {
        DiskImageInfo { format: self.format, size: self.size, sector_size: self.sector_size, path: self.path.clone() }
    }
}

/// A sector-addressed disk image.
pub trait DiskImage {
    /// Whether reading sector `lba` stays clear of arithmetic overflow.
    spec fn read_fits(&self, lba: u64) -> bool;

    /// Whether writing `data` at sector `lba` stays clear of arithmetic overflow.
    spec fn write_fits(&self, lba: u64, data: Seq<u8>) -> bool;

    fn read_sector(&self, lba: u64) -> VBoxResult<Vec<u8>>
        requires
            self.read_fits(lba),
    ;

    fn write_sector(&mut self, lba: u64, data: &[u8]) -> VBoxResult<()>
        requires
            old(self).write_fits(lba, data@),
    ;

    fn get_size(&self) -> u64;

    fn get_sector_size(&self) -> u32;

    fn get_type(&self) -> DiskType;
}

/// Description of a generic virtual disk image.
pub struct VDImage {
    pub pszFilename: String,
    pub u32ImageType: DiskType,
    pub cbSize: u64,
    pub cbSector: u32,
    pub fReadOnly: bool,
    pub u32Flags: u32,
}

/// Size of a sector of a generic disk image.
pub const VD_SECTOR_BYTES: u64 = 512;

/// A generic disk image held in memory; its bytes grow as sectors are written.
pub struct VDiskImage {
    image: VDImage,
    data: Vec<u8>,
}

/// The 512 bytes that a read of sector `lba` returns from image bytes
/// `data`: what the image holds there (cut short at the end of the data),
/// or zeros past the end.
pub open spec fn vdisk_read(data: Seq<u8>, lba: u64) -> Seq<u8> {
    let off = lba * 512;
    if off >= data.len() {
        Seq::new(512, |i: int| 0u8)
    } else {
        data.subrange(off, if off + 512 <= data.len() { off + 512 } else { data.len() as int })
    }
}

/// Image bytes `data` after `d` is written at sector `lba`: the image is
/// first zero-extended to cover the write.
pub open spec fn vdisk_write(data: Seq<u8>, lba: u64, d: Seq<u8>) -> Seq<u8> {
    let off = lba * 512;
    let len = if off + d.len() > data.len() { off + d.len() } else { data.len() as int };
    Seq::new(len as nat, |i: int| if off <= i < off + d.len() {
        d[i - off]
    } else if i < data.len() {
        data[i]
    } else {
        0u8
    })
}

/// Image bytes `data` after the sectors `sectors` are written one after the
/// other, the first at sector `lba`.
pub open spec fn vdisk_write_all(data: Seq<u8>, lba: u64, sectors: Seq<Seq<u8>>) -> Seq<u8>
    decreases sectors.len(),
{
    if sectors.len() == 0 {
        data
    } else {
        vdisk_write(
            vdisk_write_all(data, lba, sectors.drop_last()),
            (lba + sectors.len() - 1) as u64,
            sectors.last(),
        )
    }
}

/// The bytes of each sector in `v`.
pub open spec fn sector_bytes(v: Seq<Vec<u8>>) -> Seq<Seq<u8>> {
    Seq::new(v.len(), |i: int| v[i]@)
}

impl VDiskImage {
    /// The bytes the image holds.
    pub closed spec fn bytes(&self) -> Seq<u8> {
        self.data@
    }

    /// The image description.
    pub closed spec fn descriptor(&self) -> &VDImage {
        &self.image
    }

    /// Opens `filename` as an empty, writable generic image with 512-byte sectors.
    pub fn open(filename: &str) -> (r: VBoxResult<Self>)
        ensures
            r matches Ok(img) && img.bytes().len() == 0 && img.descriptor().pszFilename@ == filename@
                && img.descriptor().u32ImageType == DiskType::VD && img.descriptor().cbSize == 0
                && img.descriptor().cbSector == 512 && !img.descriptor().fReadOnly
                && img.descriptor().u32Flags == 0,
    {
        Ok(VDiskImage {
            image: VDImage {
                pszFilename: filename.to_owned(),
                u32ImageType: DiskType::VD,
                cbSize: 0,
                cbSector: 512,
                fReadOnly: false,
                u32Flags: 0,
            },
            data: Vec::new(),
        })
    }

    /// Reads `count` consecutive sectors starting at `lba`.
    pub fn read_sectors(&self, lba: u64, count: u32) -> (r: VBoxResult<Vec<Vec<u8>>>)
        requires
            (lba + count) * 512 + 512 <= usize::MAX,
        ensures
            r matches Ok(v) && v@.len() == count
                && forall|i: int| 0 <= i < count ==> (#[trigger] v@[i])@ == vdisk_read(self.bytes(), (lba + i) as u64),
    {
        let mut out: Vec<Vec<u8>> = Vec::new();
        let mut i: u32 = 0;
        while i < count
            invariant
                i <= count,
                (lba + count) * 512 + 512 <= usize::MAX,
                out@.len() == i,
                forall|k: int| 0 <= k < i ==> (#[trigger] out@[k])@ == vdisk_read(self.bytes(), (lba + k) as u64),
            decreases count - i,
        {
            let sector = self.read_sector(lba + i as u64)?;
            out.push(sector);
            i = i + 1;
        }
        Ok(out)
    }

    /// Writes consecutive sectors starting at `lba`, one per element of `data`.
    pub fn write_sectors(&mut self, lba: u64, data: &[Vec<u8>]) -> (r: VBoxResult<()>)
        requires
            forall|i: int| 0 <= i < data@.len() ==> (lba + i) * 512 + (#[trigger] data@[i])@.len() <= usize::MAX,
            lba + data@.len() <= u64::MAX,
        ensures
            r is Ok,
            final(self).descriptor() == old(self).descriptor(),
            final(self).bytes() == vdisk_write_all(old(self).bytes(), lba, sector_bytes(data@)),
    {
        let mut i: usize = 0;
        while i < data.len()
            invariant
                i <= data@.len(),
                forall|k: int| 0 <= k < data@.len() ==> (lba + k) * 512 + (#[trigger] data@[k])@.len() <= usize::MAX,
                lba + data@.len() <= u64::MAX,
                self.descriptor() == old(self).descriptor(),
                self.bytes() == vdisk_write_all(old(self).bytes(), lba, sector_bytes(data@).take(i as int)),
            decreases data@.len() - i,
        {
            let sector = &data[i];
            self.write_sector(lba + i as u64, sector.as_slice())?;
            proof {
                let all = sector_bytes(data@);
                assert(all.take(i + 1).drop_last() =~= all.take(i as int));
                assert(all.take(i + 1).last() == data@[i as int]@);
            }
            i = i + 1;
        }
        assert(sector_bytes(data@).take(data@.len() as int) =~= sector_bytes(data@));
        Ok(())
    }
}

impl DiskImage for VDiskImage {
    open spec fn read_fits(&self, lba: u64) -> bool {
        lba * 512 + 512 <= usize::MAX
    }

    open spec fn write_fits(&self, lba: u64, data: Seq<u8>) -> bool {
        lba * 512 + data.len() <= usize::MAX
    }

    /// The 512 bytes at sector `lba`, zeros past the end of the image.
    fn read_sector(&self, lba: u64) -> (r: VBoxResult<Vec<u8>>)
        ensures
            r matches Ok(v) && v@ == vdisk_read(self.bytes(), lba),
    {
        let offset = (lba * 512) as usize;
        if offset >= self.data.len() {
            return Ok(zeroed(512));
        }
        let end = if offset + 512 < self.data.len() { offset + 512 } else { self.data.len() };
        let mut out: Vec<u8> = Vec::new();
        let mut i: usize = offset;
        while i < end
            invariant
                offset <= i <= end,
                end <= self.data@.len(),
                out@ =~= self.data@.subrange(offset as int, i as int),
            decreases end - i,
        {
            out.push(self.data[i]);
            i = i + 1;
        }
        Ok(out)
    }

    /// Writes `data` at sector `lba`, growing the image with zeros as needed.
    fn write_sector(&mut self, lba: u64, data: &[u8]) -> (r: VBoxResult<()>)
        ensures
            r is Ok,
            final(self).bytes() == vdisk_write(old(self).bytes(), lba, data@),
            final(self).descriptor() == old(self).descriptor(),
    {
        let offset = (lba * 512) as usize;
        if offset + data.len() > self.data.len() {
            self.data.resize(offset + data.len(), 0);
        }
        let mut i: usize = 0;
        while i < data.len()
            invariant
                i <= data@.len(),
                offset == lba * 512,
                offset + data@.len() <= usize::MAX,
                self.data@.len() == if offset + data@.len() > old(self).data@.len() {
                    offset + data@.len()
                } else {
                    old(self).data@.len() as int
                },
                self.image == old(self).image,
                forall|j: int| 0 <= j < self.data@.len() ==> #[trigger] self.data@[j] == if offset <= j < offset + i {
                    data@[j - offset]
                } else if j < old(self).data@.len() {
                    old(self).data@[j]
                } else {
                    0u8
                },
            decreases data@.len() - i,
        {
            self.data.set(offset + i, data[i]);
            i = i + 1;
        }
        assert(self.data@ =~= vdisk_write(old(self).data@, lba, data@));
        Ok(())
    }

    fn get_size(&self) -> (s: u64)
        ensures
            s == self.descriptor().cbSize,
    {
        self.image.cbSize
    }

    fn get_sector_size(&self) -> (s: u32)
        ensures
            s == self.descriptor().cbSector,
    {
        self.image.cbSector
    }

    fn get_type(&self) -> (t: DiskType)
        ensures
            t == self.descriptor().u32ImageType,
    {
        self.image.u32ImageType
    }
}

/// What is read back of a sector is what was last written there: after a
/// write of exactly one sector, reading that sector gives the written bytes.
pub proof fn lemma_vdisk_read_after_write(data: Seq<u8>, lba: u64, d: Seq<u8>)
    requires
        d.len() == 512,
    ensures
        vdisk_read(vdisk_write(data, lba, d), lba) == d,
{
    let w = vdisk_write(data, lba, d);
    assert(vdisk_read(w, lba) =~= d);
}

/// A write leaves every other sector as it was: for two distinct sectors,
/// writing one sector's worth of bytes at `lba` does not change what is read
/// at `other`, as far as the old image reached.
pub proof fn lemma_vdisk_write_other_sector(data: Seq<u8>, lba: u64, d: Seq<u8>, other: u64)
    requires
        d.len() == 512,
        other != lba,
        other * 512 + 512 <= data.len(),
    ensures
        vdisk_read(vdisk_write(data, lba, d), other) == vdisk_read(data, other),
{
    let w = vdisk_write(data, lba, d);
    assert(lba < other ==> lba * 512 + 512 <= other * 512) by (nonlinear_arith);
    assert(lba > other ==> other * 512 + 512 <= lba * 512) by (nonlinear_arith);
    assert(vdisk_read(w, other) =~= vdisk_read(data, other));
}

} // verus!
