use vstd::prelude::*;
use crate::error::VBoxResult;
use crate::vfs::{Vfs, VfsFile, VfsMetadata, plain_file_metadata, VFS_DEFAULT_PERMISSIONS};

verus! {

/// A FAT12, FAT16 or FAT32 file system.
pub struct FatFs {
    root_dir: Vec<VfsFile>,
    fat_table: Vec<u32>,
    cluster_size: u32,
    sectors_per_cluster: u32,
    is_fat32: bool,
}

/// Zeroes the first `len` bytes of `buf`.
pub fn zero_prefix(buf: &mut [u8], len: usize)
    requires
        len <= old(buf)@.len(),
    ensures
        final(buf)@.len() == old(buf)@.len(),
        forall|i: int| 0 <= i < final(buf)@.len() ==> #[trigger] final(buf)@[i] == if i < len {
            0u8
        } else {
            old(buf)@[i]
        },
{
    let mut i: usize = 0;
    while i < len
        invariant
            i <= len <= buf@.len(),
            buf@.len() == old(buf)@.len(),
            forall|k: int| 0 <= k < buf@.len() ==> #[trigger] buf@[k] == if k < i {
                0u8
            } else {
                old(buf)@[k]
            },
        decreases len - i,
    {
        buf[i] = 0;
        i = i + 1;
    }
}

impl FatFs {
    /// Bytes per cluster.
    pub closed spec fn cluster_size_spec(&self) -> u32 {
        self.cluster_size
    }

    /// Sectors per cluster.
    pub closed spec fn sectors_per_cluster_spec(&self) -> u32 {
        self.sectors_per_cluster
    }

    /// Whether the file system is FAT32.
    pub closed spec fn is_fat32_spec(&self) -> bool {
        self.is_fat32
    }

    /// The entries of the root directory.
    pub closed spec fn root_dir_spec(&self) -> Seq<VfsFile> {
        self.root_dir@
    }

    /// Whether the file system has the given layout and nothing in it.
    pub open spec fn is_empty_with(&self, cluster_size: u32, sectors_per_cluster: u32, is_fat32: bool) -> bool {
        &&& self.cluster_size_spec() == cluster_size
        &&& self.sectors_per_cluster_spec() == sectors_per_cluster
        &&& self.is_fat32_spec() == is_fat32
        &&& self.root_dir_spec().len() == 0
    }

    fn empty(cluster_size: u32, sectors_per_cluster: u32, is_fat32: bool) -> (fs: Self)
        ensures
            fs.is_empty_with(cluster_size, sectors_per_cluster, is_fat32),
    {
        FatFs { root_dir: Vec::new(), fat_table: Vec::new(), cluster_size, sectors_per_cluster, is_fat32 }
    }

    /// An empty FAT32 file system with 4 KiB clusters.
    pub fn new() -> (fs: Self)
        ensures
            fs.is_empty_with(4096, 8, true),
    {
        Self::empty(4096, 8, true)
    }

    /// An empty FAT12 file system with 512-byte clusters.
    pub fn fat12() -> (fs: Self)
        ensures
            fs.is_empty_with(512, 1, false),
    {
        Self::empty(512, 1, false)
    }

    /// An empty FAT16 file system with 2 KiB clusters.
    pub fn fat16() -> (fs: Self)
        ensures
            fs.is_empty_with(2048, 4, false),
    {
        Self::empty(2048, 4, false)
    }

    /// An empty FAT32 file system with 4 KiB clusters.
    pub fn fat32() -> (fs: Self)
        ensures
            fs.is_empty_with(4096, 8, true),
    {
        Self::empty(4096, 8, true)
    }

    /// Mounting always succeeds.
    pub fn mount(&self, _path: &str) -> (r: VBoxResult<()>)
        ensures
            r is Ok,
    {
        Ok(())
    }

    pub fn get_cluster_size(&self) -> (n: u32)
        ensures
            n == self.cluster_size_spec(),
    {
        self.cluster_size
    }

    pub fn get_sectors_per_cluster(&self) -> (n: u32)
        ensures
            n == self.sectors_per_cluster_spec(),
    {
        self.sectors_per_cluster
    }
}

impl Vfs for FatFs {
    /// Opens `path` as handle 1: an empty plain file with default permissions.
    fn open(&self, path: &str) -> (r: VBoxResult<VfsFile>)
        ensures
            r matches Ok(f) && f.handle == 1 && f.path@ == path@ && f.position == 0 && f.is_open
                && !f.read_only && plain_file_metadata(f.metadata, path@, path@, VFS_DEFAULT_PERMISSIONS),
    {
        let metadata = VfsMetadata {
            name: path.to_owned(),
            path: path.to_owned(),
            is_directory: false,
            size: 0,
            created: 0,
            modified: 0,
            permissions: VFS_DEFAULT_PERMISSIONS,
            owner: String::new(),
            group: String::new(),
        };
        Ok(VfsFile::new(1, path.to_owned(), metadata))
    }

    /// Reads zeros: as many bytes as fit in `buf` and in one cluster.
    fn read(&self, _handle: u32, buf: &mut [u8], _offset: u64) -> (r: VBoxResult<usize>)
        ensures
            r matches Ok(n) && n as int == if old(buf)@.len() < self.cluster_size_spec() {
                old(buf)@.len() as int
            } else {
                self.cluster_size_spec() as int
            } && final(buf)@.len() == old(buf)@.len()
                && forall|i: int| 0 <= i < final(buf)@.len() ==> #[trigger] final(buf)@[i] == if i < n {
                    0u8
                } else {
                    old(buf)@[i]
                },
    {
        let cluster = self.cluster_size as usize;
        let len = if buf.len() < cluster { buf.len() } else { cluster };
        zero_prefix(buf, len);
        Ok(len)
    }

    /// Accepts the whole buffer.
    fn write(&self, _handle: u32, buf: &[u8], _offset: u64) -> (r: VBoxResult<usize>)
        ensures
            r == Ok::<usize, crate::error::VBoxError>(buf@.len() as usize),
    {
        Ok(buf.len())
    }

    /// The entries of the root directory.
    fn list_dir(&self, _path: &str) -> (r: VBoxResult<Vec<VfsFile>>)
        ensures
            r matches Ok(v) && v@.len() == self.root_dir_spec().len()
                && forall|i: int| 0 <= i < v@.len() ==> cloned::<VfsFile>(self.root_dir_spec()[i], #[trigger] v@[i]),
    {
        Ok(self.root_dir.clone())
    }

    fn mkdir(&self, _path: &str) -> (r: VBoxResult<()>)
        ensures
            r is Ok,
    {
        Ok(())
    }

    /// Creates `path` as handle 1 with default metadata.
    fn create_file(&self, path: &str) -> (r: VBoxResult<VfsFile>)
        ensures
            r matches Ok(f) && f.handle == 1 && f.path@ == path@ && f.position == 0 && f.is_open
                && !f.read_only && plain_file_metadata(f.metadata, Seq::empty(), Seq::empty(), VFS_DEFAULT_PERMISSIONS),
    {
        Ok(VfsFile::new(1, path.to_owned(), VfsMetadata::default()))
    }

    fn unlink(&self, _path: &str) -> (r: VBoxResult<()>)
        ensures
            r is Ok,
    {
        Ok(())
    }

    fn rmdir(&self, _path: &str) -> (r: VBoxResult<()>)
        ensures
            r is Ok,
    {
        Ok(())
    }

    /// Default metadata, whatever the path.
    fn stat(&self, _path: &str) -> (r: VBoxResult<VfsMetadata>)
        ensures
            r matches Ok(m) && plain_file_metadata(m, Seq::empty(), Seq::empty(), VFS_DEFAULT_PERMISSIONS),
    {
        Ok(VfsMetadata::default())
    }

    fn close(&self, _handle: u32) -> (r: VBoxResult<()>)
        ensures
            r is Ok,
    {
        Ok(())
    }
}

impl Default for FatFs {
    fn default() -> (fs: Self)
        ensures
            fs.is_empty_with(4096, 8, true),
    {
        Self::new()
    }
}

} // verus!
