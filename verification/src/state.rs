//! File metadata as the metadata service reports it.

use vstd::prelude::*;
use crate::text::string_of;

verus! {

/// The type of a file system entry.
#[derive(PartialEq, Eq, Structural, Clone, Copy, Debug)]
pub enum FileType {
    Dir,
    File,
    Link,
    Stream,
    Agg,
    Object,
}

/// Metadata of one file or directory.
#[derive(Debug)]
pub struct FileStatus {
    pub id: i64,
    pub path: String,
    pub name: String,
    pub is_dir: bool,
    /// Modification time in milliseconds since the epoch.
    pub mtime: i64,
    /// Access time in milliseconds since the epoch.
    pub atime: i64,
    pub len: i64,
    pub file_type: FileType,
    /// Extended attributes, in the order the metadata service lists them;
    /// no name occurs twice (`xattr_names_distinct`).
    pub x_attr: Vec<(String, Vec<u8>)>,
    /// The modification time of the under-file-system copy recorded at the
    /// last flush; 0 when the file has never been flushed.
    pub ufs_mtime: i64,
    pub mode: u32,
    pub owner: String,
    pub group: String,
    pub nlink: u32,
    /// The target of a symbolic link.
    pub target: Option<String>,
}

/// The Curvine snapshot `cv` agrees with the under-file-system status `ufs`:
/// it was flushed, and the flush recorded the same modification time and
/// length.
pub open spec fn ufs_consistent(cv: FileStatus, ufs: FileStatus) -> bool {
    &&& cv.ufs_mtime != 0
    &&& cv.ufs_mtime == ufs.mtime
    &&& cv.len == ufs.len
}

impl FileStatus {
    /// A status with only an id, a name and the directory flag set.
    pub fn with_name(id: i64, name: &str, is_dir: bool) -> (r: FileStatus)
        ensures
            r.id == id,
            r.name@ == name@,
            r.path@ == Seq::<char>::empty(),
            r.is_dir == is_dir,
            r.file_type == (if is_dir { FileType::Dir } else { FileType::File }),
            r.mtime == 0,
            r.atime == 0,
            r.len == 0,
            r.x_attr@.len() == 0,
            r.ufs_mtime == 0,
            r.mode == 0,
            r.owner@ == Seq::<char>::empty(),
            r.group@ == Seq::<char>::empty(),
            r.nlink == 1,
            r.target is None,
    {
        FileStatus {
            id,
            path: String::new(),
            name: string_of(name),
            is_dir,
            mtime: 0,
            atime: 0,
            len: 0,
            file_type: if is_dir { FileType::Dir } else { FileType::File },
            x_attr: Vec::new(),
            ufs_mtime: 0,
            mode: 0,
            owner: String::new(),
            group: String::new(),
            nlink: 1,
            target: None,
        }
    }

    /// Whether the under-file-system copy described by `ufs_status` can be
    /// trusted as this file's data.
    pub fn ufs_valid(&self, ufs_status: &FileStatus) -> (r: bool)
        ensures
            r == ufs_consistent(*self, *ufs_status),
    {
        self.ufs_mtime != 0 && self.ufs_mtime == ufs_status.mtime && self.len == ufs_status.len
    }
}

/// Where one block of a file lives.
#[derive(Debug)]
pub struct LocatedBlock {
    pub block_id: i64,
    pub len: i64,
    /// Ids of the workers that hold a copy.
    pub worker_ids: Vec<u32>,
}

/// A file's status together with the locations of its blocks.
#[derive(Debug)]
pub struct FileBlocks {
    pub status: FileStatus,
    pub block_locs: Vec<LocatedBlock>,
}


/// The UFS copy is trusted exactly when it is the one Curvine flushed: a copy
/// whose modification time differs from the one recorded at the last flush,
/// or whose length differs from Curvine's, is never consistent, nor is any
/// copy of a file that was never flushed; a copy matching both is.
pub proof fn law_ufs_copy_must_match_flush(cv: FileStatus, ufs: FileStatus)
    ensures
        ufs.mtime != cv.ufs_mtime ==> !ufs_consistent(cv, ufs),
        ufs.len != cv.len ==> !ufs_consistent(cv, ufs),
        cv.ufs_mtime == 0 ==> !ufs_consistent(cv, ufs),
        (cv.ufs_mtime != 0 && ufs.mtime == cv.ufs_mtime && ufs.len == cv.len) ==> ufs_consistent(cv, ufs),
{
}

} // verus!
