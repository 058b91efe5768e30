pub mod fat;
pub mod iso9660;

use vstd::prelude::*;
use crate::error::VBoxResult;

verus! {

/// Why a file system operation failed.
#[derive(Debug)]
pub enum VfsError {
    NotFound(String),
    PermissionDenied(String),
    AlreadyExists(String),
    Io,
    NotADirectory(String),
    UnsupportedFilesystem,
}

/// Permissions of a file that nobody changed (`rw-r--r--`).
pub const VFS_DEFAULT_PERMISSIONS: u32 = 0o644;

/// What is known of a file.
#[derive(Debug, Clone)]
pub struct VfsMetadata {
    pub name: String,
    pub path: String,
    pub is_directory: bool,
    pub size: u64,
    pub created: i64,
    pub modified: i64,
    pub permissions: u32,
    pub owner: String,
    pub group: String,
}

/// Whether `m` is the metadata of a plain empty file called `name` at
/// `path`, with permissions `permissions` and no owner or group.
pub open spec fn plain_file_metadata(m: VfsMetadata, name: Seq<char>, path: Seq<char>, permissions: u32) -> bool {
    &&& m.name@ == name
    &&& m.path@ == path
    &&& !m.is_directory
    &&& m.size == 0
    &&& m.created == 0
    &&& m.modified == 0
    &&& m.permissions == permissions
    &&& m.owner@.len() == 0
    &&& m.group@.len() == 0
}

impl Default for VfsMetadata {
    fn default() -> (m: Self)
        ensures
            plain_file_metadata(m, Seq::empty(), Seq::empty(), VFS_DEFAULT_PERMISSIONS),
    {
        VfsMetadata {
            name: String::new(),
            path: String::new(),
            is_directory: false,
            size: 0,
            created: 0,
            modified: 0,
            permissions: VFS_DEFAULT_PERMISSIONS,
            owner: String::new(),
            group: String::new(),
        }
    }
}

/// An open file.
#[derive(Debug, Clone)]
pub struct VfsFile {
    pub handle: u32,
    pub path: String,
    pub position: u64,
    pub metadata: VfsMetadata,
    pub is_open: bool,
    pub read_only: bool,
}

impl VfsFile {
    /// A file opened for reading and writing at position 0.
    pub fn new(handle: u32, path: String, metadata: VfsMetadata) -> (f: Self)
        ensures
            f.handle == handle,
            f.path == path,
            f.position == 0,
            f.metadata == metadata,
            f.is_open,
            !f.read_only,
    {
        VfsFile { handle, path, position: 0, metadata, is_open: true, read_only: false }
    }
}

/// A file system.
pub trait Vfs {
    fn open(&self, path: &str) -> VBoxResult<VfsFile>;

    fn read(&self, handle: u32, buf: &mut [u8], offset: u64) -> VBoxResult<usize>;

    fn write(&self, handle: u32, buf: &[u8], offset: u64) -> VBoxResult<usize>;

    fn list_dir(&self, path: &str) -> VBoxResult<Vec<VfsFile>>;

    fn mkdir(&self, path: &str) -> VBoxResult<()>;

    fn create_file(&self, path: &str) -> VBoxResult<VfsFile>;

    fn unlink(&self, path: &str) -> VBoxResult<()>;

    fn rmdir(&self, path: &str) -> VBoxResult<()>;

    fn stat(&self, path: &str) -> VBoxResult<VfsMetadata>;

    fn close(&self, handle: u32) -> VBoxResult<()>;
}

/// A file system and the name it is registered under.
pub struct NamedFs(pub String, pub Box<dyn Vfs>);

impl NamedFs {
    /// Pairs `fs` with `name`.
    pub fn new(name: String, fs: Box<dyn Vfs>) -> (r: Self)
        ensures
            r.0 == name,
    {
        NamedFs(name, fs)
    }
}

/// Registered file systems, by name, and the next file handle.
pub struct VfsInstance {
    filesystems: Vec<NamedFs>,
    next_handle: u32,
}

/// The names in a list of named file systems, in order.
pub open spec fn fs_names(v: Seq<NamedFs>) -> Seq<Seq<char>> {
    Seq::new(v.len(), |i: int| v[i].0@)
}

impl VfsInstance {
    /// The names of the registered file systems, in registration order.
    pub closed spec fn names(&self) -> Seq<Seq<char>> {
        fs_names(self.filesystems@)
    }

    /// The handle that the next allocation gives.
    pub closed spec fn next_handle(&self) -> u32 {
        self.next_handle
    }

    /// No file systems; handles start at 1.
    pub fn new() -> (v: Self)
        ensures
            v.names() == Seq::<Seq<char>>::empty(),
            v.names().no_duplicates(),
            v.next_handle() == 1,
    {
        let v = VfsInstance { filesystems: Vec::new(), next_handle: 1 };
        assert(v.names() =~= Seq::<Seq<char>>::empty());
        v
    }

    /// The position of the file system called `name`, if one is registered.
    fn position_of(&self, name: &String) -> (r: Option<usize>)
        ensures
            r matches Some(i) ==> i < self.names().len() && self.names()[i as int] == name@
                && forall|k: int| 0 <= k < i ==> self.names()[k] != name@,
            r is None ==> !self.names().contains(name@),
    {
        let mut i: usize = 0;
        while i < self.filesystems.len()
            invariant
                i <= self.filesystems@.len(),
                forall|k: int| 0 <= k < i ==> self.filesystems@[k].0@ != name@,
            decreases self.filesystems@.len() - i,
        {
            if self.filesystems[i].0.eq(name) {
                return Some(i);
            }
            i = i + 1;
        }
        proof {
            if self.names().contains(name@) {
                let k = choose|k: int| 0 <= k < self.names().len() && self.names()[k] == name@;
                assert(self.filesystems@[k].0@ == name@);
            }
        }
        None
    }

    /// Registers `fs` under `name`: it takes the place of a file system of
    /// that name, or is added after the others.
    pub fn register_filesystem(&mut self, name: String, fs: Box<dyn Vfs>)
        ensures
            old(self).names().contains(name@) ==> final(self).names() == old(self).names(),
            !old(self).names().contains(name@) ==> final(self).names() == old(self).names().push(name@),
            old(self).names().no_duplicates() ==> final(self).names().no_duplicates(),
            final(self).names().contains(name@),
            final(self).next_handle() == old(self).next_handle(),
    {
        let ghost key = name@;
        match self.position_of(&name) {
            Some(i) => {
                let entry = NamedFs::new(name, fs);
                self.filesystems.set(i, entry);
                assert(self.names() =~= old(self).names());
                assert(self.names()[i as int] == key);
            },
            None => {
                let entry = NamedFs::new(name, fs);
                self.filesystems.push(entry);
                assert(self.names() =~= old(self).names().push(key));
                assert(self.names()[old(self).names().len() as int] == key);
            },
        }
    }

    /// The entry at position `i` of the registry: a name and its file system.
    pub closed spec fn entry_at(&self, i: int) -> NamedFs {
        self.filesystems@[i]
    }

    /// The file system registered under `name`, if any: the one at the first
    /// position that carries that name.
    pub fn get_filesystem(&self, name: &str) -> (r: Option<&Box<dyn Vfs>>)
        ensures
            r is Some <==> self.names().contains(name@),
            r matches Some(b) ==> exists|i: int| {
                &&& 0 <= i < self.names().len()
                &&& self.names()[i] == name@
                &&& (forall|k: int| 0 <= k < i ==> self.names()[k] != name@)
                &&& *b == (#[trigger] self.entry_at(i)).1
            },
    {
        let key = name.to_owned();
        match self.position_of(&key) {
            Some(i) => {
                let entry: &NamedFs = &self.filesystems[i];
                assert(*entry == self.filesystems@[i as int]);
                let b: &Box<dyn Vfs + 'static> = &entry.1;
                assert(*b == entry.1);
                assert(*b == self.entry_at(i as int).1);
                Some(b)
            },
            None => None,
        }
    }

    /// Hands out the next file handle; the counter wraps around.
    pub fn allocate_handle(&mut self) -> (h: u32)
        ensures
            h == old(self).next_handle(),
            final(self).next_handle() == vstd::wrapping::u32_specs::wrapping_add(h, 1),
            final(self).names() == old(self).names(),
    {
        let h = self.next_handle;
        self.next_handle = h.wrapping_add(1);
        h
    }
}

/// Two handles in a row differ: the counter moves on after each allocation.
pub proof fn lemma_next_handle_differs(h: u32)
    ensures
        vstd::wrapping::u32_specs::wrapping_add(h, 1) != h,
{
}

impl Default for VfsInstance {
    fn default() -> (v: Self)
        ensures
            v.names() == Seq::<Seq<char>>::empty(),
            v.next_handle() == 1,
    {
        Self::new()
    }
}

/// Owner of the file system registry.
pub struct VfsManager {
    pub instance: VfsInstance,
}

impl VfsManager {
    /// A manager with an empty registry.
    pub fn new() -> (m: Self)
        ensures
            m.instance.names() == Seq::<Seq<char>>::empty(),
            m.instance.next_handle() == 1,
    {
        VfsManager { instance: VfsInstance::new() }
    }
}

} // verus!
