use vstd::prelude::*;
use std::collections::HashMap;
use crate::error::VBoxResult;
use crate::vfs::{Vfs, VfsFile, VfsMetadata, plain_file_metadata, VFS_DEFAULT_PERMISSIONS};
use crate::vfs::fat::zero_prefix;

verus! {

/// Block size of ISO 9660 images.
pub const ISO9660_BLOCK_SIZE: u32 = 2048;
/// Permissions of files on an ISO 9660 image (`r--r--r--`).
pub const ISO9660_FILE_PERMISSIONS: u32 = 0o444;

/// A read-only ISO 9660 file system.
pub struct Iso9660Fs {
    files: HashMap<String, VfsFile>,
    root_dir: Vec<VfsFile>,
    block_size: u32,
}

impl Iso9660Fs {
    /// The entries of the root directory.
    pub closed spec fn root_dir_spec(&self) -> Seq<VfsFile> {
        self.root_dir@
    }

    /// Bytes per block.
    pub closed spec fn block_size_spec(&self) -> u32 {
        self.block_size
    }

    /// An empty file system with 2 KiB blocks.
    pub fn new() -> (fs: Self)
        ensures
            fs.root_dir_spec().len() == 0,
            fs.block_size_spec() == ISO9660_BLOCK_SIZE,
    {
        Iso9660Fs { files: HashMap::new(), root_dir: Vec::new(), block_size: ISO9660_BLOCK_SIZE }
    }

    /// A file system mounted from the image at `path`.
    pub fn from_path(path: &str) -> (r: VBoxResult<Iso9660Fs>)
        ensures
            r matches Ok(fs) && fs.root_dir_spec().len() == 0 && fs.block_size_spec() == ISO9660_BLOCK_SIZE,
    {
        let fs = Self::new();
        match fs.mount(path) {
            Ok(()) => Ok(fs),
            Err(e) => Err(e),
        }
    }

    /// Mounting always succeeds.
    pub fn mount(&self, _path: &str) -> (r: VBoxResult<()>)
        ensures
            r is Ok,
    {
        Ok(())
    }
}

impl Vfs for Iso9660Fs {
    /// Opens `path` as handle 1: an empty read-only-permission plain file.
    fn open(&self, path: &str) -> (r: VBoxResult<VfsFile>)
        ensures
            r matches Ok(f) && f.handle == 1 && f.path@ == path@ && f.position == 0 && f.is_open
                && !f.read_only && plain_file_metadata(f.metadata, path@, path@, ISO9660_FILE_PERMISSIONS),
    {
        let metadata = VfsMetadata {
            name: path.to_owned(),
            path: path.to_owned(),
            is_directory: false,
            size: 0,
            created: 0,
            modified: 0,
            permissions: ISO9660_FILE_PERMISSIONS,
            owner: String::new(),
            group: String::new(),
        };
        Ok(VfsFile::new(1, path.to_owned(), metadata))
    }

    /// Reads zeros: as many bytes as fit in `buf` and in one block.
    fn read(&self, _handle: u32, buf: &mut [u8], _offset: u64) -> (r: VBoxResult<usize>)
        ensures
            r matches Ok(n) && n as int == if old(buf)@.len() < 2048 {
                old(buf)@.len() as int
            } else {
                2048
            } && final(buf)@.len() == old(buf)@.len()
                && forall|i: int| 0 <= i < final(buf)@.len() ==> #[trigger] final(buf)@[i] == if i < n {
                    0u8
                } else {
                    old(buf)@[i]
                },
    {
        let len = if buf.len() < 2048 { buf.len() } else { 2048 };
        zero_prefix(buf, len);
        Ok(len)
    }

    /// Writes nothing.
    fn write(&self, _handle: u32, _buf: &[u8], _offset: u64) -> (r: VBoxResult<usize>)
        ensures
            r == Ok::<usize, crate::error::VBoxError>(0),
    {
        Ok(0)
    }

    /// The entries of the root directory.
    fn list_dir(&self, _path: &str) -> (r: VBoxResult<Vec<VfsFile>>)
        ensures
            r matches Ok(v) && v@.len() == self.root_dir_spec().len()
                && forall|i: int| 0 <= i < v@.len() ==> cloned::<VfsFile>(self.root_dir_spec()[i], #[trigger] v@[i]),
    {
        Ok(self.root_dir.clone())
    }

    fn mkdir(&self, _path: &str) -> (r: VBoxResult<()>)
        ensures
            r is Ok,
    {
        Ok(())
    }

    /// Creates `path` as handle 1 with default metadata.
    fn create_file(&self, path: &str) -> (r: VBoxResult<VfsFile>)
        ensures
            r matches Ok(f) && f.handle == 1 && f.path@ == path@ && f.position == 0 && f.is_open
                && !f.read_only && plain_file_metadata(f.metadata, Seq::empty(), Seq::empty(), VFS_DEFAULT_PERMISSIONS),
    {
        Ok(VfsFile::new(1, path.to_owned(), VfsMetadata::default()))
    }

    fn unlink(&self, _path: &str) -> (r: VBoxResult<()>)
        ensures
            r is Ok,
    {
        Ok(())
    }

    fn rmdir(&self, _path: &str) -> (r: VBoxResult<()>)
        ensures
            r is Ok,
    {
        Ok(())
    }

    /// Default metadata, whatever the path.
    fn stat(&self, _path: &str) -> (r: VBoxResult<VfsMetadata>)
        ensures
            r matches Ok(m) && plain_file_metadata(m, Seq::empty(), Seq::empty(), VFS_DEFAULT_PERMISSIONS),
    {
        Ok(VfsMetadata::default())
    }

    fn close(&self, _handle: u32) -> (r: VBoxResult<()>)
        ensures
            r is Ok,
    {
        Ok(())
    }
}

impl Default for Iso9660Fs {
    fn default() -> (fs: Self)
        ensures
            fs.root_dir_spec().len() == 0,
            fs.block_size_spec() == ISO9660_BLOCK_SIZE,
    {
        Self::new()
    }
}

} // verus!
