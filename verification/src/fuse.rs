//! The decisions of the FUSE file system: attribute conversion, permission
//! checks, open flags, extended attributes, session negotiation and the
//! validation of requests. The kernel channel and the metadata calls are
//! driven by the caller; these functions compute what is answered.

use vstd::prelude::*;
use crate::conf::{ClusterConf, FuseConf};
use crate::state::{FileStatus, FileType};
use crate::text::{decimal, push_decimal, push_str, string_of, chars_of};
use crate::units::chars_eq_str;
use vstd::utf8::encode_utf8;
use vstd::string::StringSliceAdditionalSpecFns;
use crate::units::{parse_u32, u32_text};

verus! {

// Open flags answered to the kernel.
pub const FUSE_FOPEN_DIRECT_IO: u32 = 1;
pub const FUSE_FOPEN_KEEP_CACHE: u32 = 2;
pub const FUSE_FOPEN_NONSEEKABLE: u32 = 4;
pub const FUSE_FOPEN_CACHE_DIR: u32 = 8;

// Session capability flags.
pub const FUSE_ASYNC_READ: u32 = 1;
pub const FUSE_EXPORT_SUPPORT: u32 = 16;
pub const FUSE_BIG_WRITES: u32 = 32;
pub const FUSE_SPLICE_WRITE: u32 = 128;
pub const FUSE_SPLICE_MOVE: u32 = 256;
pub const FUSE_SPLICE_READ: u32 = 512;
pub const FUSE_AUTO_INVAL_DATA: u32 = 4096;
pub const FUSE_READDIRPLUS_AUTO: u32 = 16384;
pub const FUSE_ASYNC_DIO: u32 = 32768;
pub const FUSE_WRITEBACK_CACHE: u32 = 65536;
pub const FUSE_MAX_PAGES: u32 = 4194304;

pub const FUSE_KERNEL_VERSION: u32 = 7;
pub const FUSE_KERNEL_MINOR_VERSION: u32 = 31;
pub const FUSE_BUFFER_HEADER_SIZE: usize = 4096;

// Attribute fields a setattr request carries.
pub const FATTR_MODE: u32 = 1;
pub const FATTR_UID: u32 = 2;
pub const FATTR_GID: u32 = 4;
pub const FATTR_SIZE: u32 = 8;
pub const FATTR_ATIME: u32 = 16;
pub const FATTR_MTIME: u32 = 32;
pub const FATTR_FH: u32 = 64;
pub const FATTR_ATIME_NOW: u32 = 128;
pub const FATTR_MTIME_NOW: u32 = 256;

pub const FUSE_DEFAULT_MODE: u32 = 0o777;
pub const FUSE_BLOCK_SIZE: u32 = 4096;
pub const FUSE_UNKNOWN_INO: u64 = 0xffff_ffff;
pub const FUSE_UNKNOWN_INODES: u64 = 0xffff_ffff;
pub const FUSE_MAX_NAME_LENGTH: usize = 255;
pub const FUSE_CURRENT_DIR: &'static str = ".";
pub const FUSE_PARENT_DIR: &'static str = "..";

// File type and special mode bits.
pub const S_IFMT: u32 = 0o170000;
pub const S_IFDIR: u32 = 0o040000;
pub const S_IFREG: u32 = 0o100000;
pub const S_IFLNK: u32 = 0o120000;
pub const S_ISUID: u32 = 0o4000;
pub const S_ISGID: u32 = 0o2000;

// Access request bits.
pub const R_OK: u32 = 4;
pub const W_OK: u32 = 2;
pub const X_OK: u32 = 1;

// Error numbers (Linux).
pub const EPERM: i32 = 1;
pub const ENOENT: i32 = 2;
pub const EIO: i32 = 5;
pub const EBADF: i32 = 9;
pub const EAGAIN: i32 = 11;
pub const EACCES: i32 = 13;
pub const EINVAL: i32 = 22;
pub const ETXTBSY: i32 = 26;
pub const ERANGE: i32 = 34;
pub const ENAMETOOLONG: i32 = 36;
pub const ENODATA: i32 = 61;
pub const EPROTO: i32 = 71;
pub const EOPNOTSUPP: i32 = 95;

/// An error answered to the kernel: an error number and a message.
#[derive(Debug)]
pub struct FuseError {
    pub errno: i32,
    pub message: String,
}

impl FuseError {
    /// The error `errno` with `message`.
    pub fn new(errno: i32, message: String) -> (r: FuseError)
        ensures
            r.errno == errno,
            r.message == message,
    {
        FuseError { errno, message }
    }
}

/// The request header the kernel sends with every request.
#[derive(PartialEq, Eq, Structural, Clone, Copy, Debug)]
pub struct FuseInHeader {
    pub len: u32,
    pub opcode: u32,
    pub unique: u64,
    pub nodeid: u64,
    pub uid: u32,
    pub gid: u32,
    pub pid: u32,
}

/// The attributes of a file as the kernel sees them.
#[derive(PartialEq, Eq, Structural, Clone, Copy, Debug)]
pub struct FuseAttr {
    pub ino: u64,
    pub size: u64,
    pub blocks: u64,
    pub atime: u64,
    pub mtime: u64,
    pub ctime: u64,
    pub atimensec: u32,
    pub mtimensec: u32,
    pub ctimensec: u32,
    pub mode: u32,
    pub nlink: u32,
    pub uid: u32,
    pub gid: u32,
    pub rdev: u32,
    pub blksize: u32,
    pub padding: u32,
}

/// The answer to a lookup: the node and how long the kernel may cache it.
#[derive(PartialEq, Eq, Structural, Clone, Copy, Debug)]
pub struct FuseEntryOut {
    pub nodeid: u64,
    pub generation: u64,
    pub entry_valid: u64,
    pub attr_valid: u64,
    pub entry_valid_nsec: u32,
    pub attr_valid_nsec: u32,
    pub attr: FuseAttr,
}

/// The answer to a request for attributes: the attributes and how long the
/// kernel may cache them.
#[derive(PartialEq, Eq, Structural, Clone, Copy, Debug)]
pub struct FuseAttrOut {
    pub attr_valid: u64,
    pub attr_valid_nsec: u32,
    pub dummy: u32,
    pub attr: FuseAttr,
}

/// The setattr answer under FUSE settings `conf` for node `nodeid` whose file
/// now has status `status`: its attributes with the length set to the one it
/// was truncated to (`resized_to`), if any, reported under the request's node
/// id, cached for the attribute TTL.
pub open spec fn setattr_answer(
    conf: FuseConf,
    status: FileStatus,
    resized_to: Option<i64>,
    nodeid: u64,
    owner_by_name: Option<u32>,
    group_by_name: Option<u32>,
) -> FuseAttrOut {
    let len = match resized_to {
        Some(n) => n,
        None => status.len,
    };
    FuseAttrOut {
        attr_valid: conf.attr_ttl.secs,
        attr_valid_nsec: conf.attr_ttl.nanos,
        dummy: 0,
        attr: FuseAttr {
            ino: nodeid,
            ..attr_of(conf, FileStatus { len, ..status }, owner_by_name, group_by_name)
        },
    }
}

/// Rust's integer division, which rounds toward zero.
pub open spec fn trunc_div(a: int, b: int) -> int {
    if a >= 0 { a / b } else { -((-a) / b) }
}

/// The mode a file of type `t` is reported with, for permission bits `perm`.
pub open spec fn typed_mode(perm: u32, t: FileType) -> u32 {
    match t {
        FileType::Dir => perm | S_IFDIR,
        FileType::Link => perm | S_IFLNK,
        _ => perm | S_IFREG,
    }
}

/// An owner or group id resolved from its name: empty means the fallback, a
/// number is taken as it is, otherwise the system's answer for the name
/// (`by_name`), or the fallback when the system does not know it.
pub open spec fn resolved_id(name: Seq<char>, fallback: u32, by_name: Option<u32>) -> u32 {
    if name.len() == 0 {
        fallback
    } else {
        match u32_text(name) {
            Some(v) => v,
            None => match by_name {
                Some(v) => v,
                None => fallback,
            },
        }
    }
}

/// The attributes reported for `status`; `owner_by_name` and `group_by_name`
/// are the system's answers for the owner and group names.
pub open spec fn attr_of(
    conf: FuseConf,
    status: FileStatus,
    owner_by_name: Option<u32>,
    group_by_name: Option<u32>,
) -> FuseAttr {
    let mtime = if status.mtime < 0 { 0 } else { status.mtime as int };
    let atime = if status.atime < 0 { 0 } else { status.atime as int };
    FuseAttr {
        ino: status.id as u64,
        size: status.len as u64,
        blocks: trunc_div(status.len + 511, 512) as u64,
        atime: (atime / 1000) as u64,
        mtime: (mtime / 1000) as u64,
        ctime: (mtime / 1000) as u64,
        atimensec: ((atime % 1000) * 1_000_000) as u32,
        mtimensec: ((mtime % 1000) * 1_000_000) as u32,
        ctimensec: ((mtime % 1000) * 1_000_000) as u32,
        mode: if status.mode != 0 {
            typed_mode(status.mode, status.file_type)
        } else {
            typed_mode(FUSE_DEFAULT_MODE & !conf.umask, status.file_type)
        },
        nlink: status.nlink,
        uid: resolved_id(status.owner@, conf.uid, owner_by_name),
        gid: resolved_id(status.group@, conf.gid, group_by_name),
        rdev: 0,
        blksize: FUSE_BLOCK_SIZE,
        padding: 0,
    }
}

/// The open flags answered for a directory or file opened with flags `v`.
pub open spec fn open_flags_for(conf: FuseConf, v: u32) -> u32 {
    let a = if conf.direct_io { v | FUSE_FOPEN_DIRECT_IO } else { v | FUSE_FOPEN_KEEP_CACHE };
    let b = if conf.cache_readdir { a | FUSE_FOPEN_CACHE_DIR } else { a };
    if conf.non_seekable { b | FUSE_FOPEN_NONSEEKABLE } else { b }
}

/// The permission bits that apply to a user: the owner's when the user owns
/// the file, else the group's when the user's group is the file's, else the
/// others'.
pub open spec fn effective_bits(mode: u32, uid: u32, gid: u32, file_uid: u32, file_gid: u32) -> u32 {
    if uid == file_uid {
        (mode >> 6) & 0o7
    } else if gid == file_gid {
        (mode >> 3) & 0o7
    } else {
        mode & 0o7
    }
}

/// The permission bits grant every access `mask` asks for (an empty mask
/// only asks whether the file exists).
pub open spec fn grants(bits: u32, mask: u32) -> bool {
    mask == 0 || {
        &&& (mask & R_OK) != 0 ==> (bits & 0o4) != 0
        &&& (mask & W_OK) != 0 ==> (bits & 0o2) != 0
        &&& (mask & X_OK) != 0 ==> (bits & 0o1) != 0
    }
}

/// The message of the error for a denied access.
pub open spec fn denied_message(nodeid: u64, opcode: u32) -> Seq<char> {
    "Permission denied to search ino: "@ + decimal(nodeid as nat) + ", op: "@
        + decimal(opcode as nat)
}

/// The FUSE file system backed by Curvine.
#[derive(Debug)]
pub struct CurvineFileSystem {
    conf: FuseConf,
}

impl View for CurvineFileSystem {
    type V = FuseConf;

    closed spec fn view(&self) -> FuseConf {
        self.conf
    }
}

/// The id the system resolves, or the fallback.
fn resolve_id(name: &str, fallback: u32, by_name: Option<u32>) -> (r: u32)
    ensures
        r == resolved_id(name@, fallback, by_name),
{
    if name.unicode_len() == 0 {
        return fallback;
    }
    match parse_u32(name) {
        Some(v) => v,
        None => match by_name {
            Some(v) => v,
            None => fallback,
        },
    }
}

fn get_mode(perm: u32, t: FileType) -> (r: u32)
    ensures
        r == typed_mode(perm, t),
{
    match t {
        FileType::Dir => perm | S_IFDIR,
        FileType::Link => perm | S_IFLNK,
        _ => perm | S_IFREG,
    }
}

impl CurvineFileSystem {
    /// The file system for the FUSE settings of `conf`.
    pub fn new(conf: &ClusterConf) -> (r: Self)
        ensures
            r@ == conf.fuse,
    {
        CurvineFileSystem { conf: conf.fuse }
    }

    /// The FUSE settings.
    pub fn conf(&self) -> (r: &FuseConf)
        ensures
            *r == self@,
    {
        &self.conf
    }

    /// The open flags answered for a directory opened with flags `v`:
    /// direct I/O or page-cache keeping, plus directory caching and
    /// non-seekability as configured.
    pub fn fill_open_flags(conf: &FuseConf, v: u32) -> (r: u32)
        ensures
            r == open_flags_for(*conf, v),
    {
        let mut flags = v;
        if conf.direct_io {
            flags = flags | FUSE_FOPEN_DIRECT_IO;
        } else {
            flags = flags | FUSE_FOPEN_KEEP_CACHE;
        }
        if conf.cache_readdir {
            flags = flags | FUSE_FOPEN_CACHE_DIR;
        }
        if conf.non_seekable {
            flags = flags | FUSE_FOPEN_NONSEEKABLE;
        }
        flags
    }

    /// The attributes reported for `status` (see `attr_of`).
    pub fn status_to_attr(
        conf: &FuseConf,
        status: &FileStatus,
        owner_by_name: Option<u32>,
        group_by_name: Option<u32>,
    ) -> (r: Result<FuseAttr, FuseError>)
        requires
            status.len <= i64::MAX - 511,
        ensures
            r == Ok::<FuseAttr, FuseError>(attr_of(*conf, *status, owner_by_name, group_by_name)),
    {
        let a = Self::attr_with_len(conf, status, status.len, owner_by_name, group_by_name);
        assert((FileStatus { len: status.len, ..*status }) == *status);
        Ok(a)
    }

    /// The attributes reported for `status` once its length is `len`.
    fn attr_with_len(
        conf: &FuseConf,
        status: &FileStatus,
        len: i64,
        owner_by_name: Option<u32>,
        group_by_name: Option<u32>,
    ) -> (r: FuseAttr)
        requires
            len <= i64::MAX - 511,
        ensures
            r == attr_of(*conf, FileStatus { len, ..*status }, owner_by_name, group_by_name),
    {
        let blocks = ((len + 511) / 512) as u64;
        let mt: i64 = if status.mtime < 0 { 0 } else { status.mtime };
        let at: i64 = if status.atime < 0 { 0 } else { status.atime };
        let mtime_sec = (mt / 1000) as u64;
        let mtime_nsec = ((mt % 1000) * 1_000_000) as u32;
        let atime_sec = (at / 1000) as u64;
        let atime_nsec = ((at % 1000) * 1_000_000) as u32;
        let uid = resolve_id(status.owner.as_str(), conf.uid, owner_by_name);
        let gid = resolve_id(status.group.as_str(), conf.gid, group_by_name);
        let mode = if status.mode != 0 {
            get_mode(status.mode, status.file_type)
        } else {
            get_mode(FUSE_DEFAULT_MODE & !conf.umask, status.file_type)
        };
        FuseAttr {
            ino: status.id as u64,
            size: len as u64,
            blocks,
            atime: atime_sec,
            mtime: mtime_sec,
            ctime: mtime_sec,
            atimensec: atime_nsec,
            mtimensec: mtime_nsec,
            ctimensec: mtime_nsec,
            mode,
            nlink: status.nlink,
            uid,
            gid,
            rdev: 0,
            blksize: FUSE_BLOCK_SIZE,
            padding: 0,
        }
    }

    /// The answer to a setattr of node `nodeid` whose file now has status
    /// `status`, truncated to `resized_to` when the request changed its size
    /// (see `setattr_answer`).
    pub fn setattr_reply(
        &self,
        status: &FileStatus,
        resized_to: Option<i64>,
        nodeid: u64,
        owner_by_name: Option<u32>,
        group_by_name: Option<u32>,
    ) -> (r: FuseAttrOut)
        requires
            (match resized_to {
                Some(n) => n,
                None => status.len,
            }) <= i64::MAX - 511,
        ensures
            r == setattr_answer(self@, *status, resized_to, nodeid, owner_by_name, group_by_name),
    {
        let len = match resized_to {
            Some(n) => n,
            None => status.len,
        };
        let mut attr = Self::attr_with_len(&self.conf, status, len, owner_by_name, group_by_name);
        attr.ino = nodeid;
        FuseAttrOut {
            attr_valid: self.conf.attr_ttl.secs,
            attr_valid_nsec: self.conf.attr_ttl.nanos,
            dummy: 0,
            attr,
        }
    }

    /// The lookup answer for `attr`, cached for the configured times.
    pub fn create_entry_out(conf: &FuseConf, attr: FuseAttr) -> (r: FuseEntryOut)
        ensures
            r == (FuseEntryOut {
                nodeid: attr.ino,
                generation: 0,
                entry_valid: conf.entry_ttl.secs,
                attr_valid: conf.attr_ttl.secs,
                entry_valid_nsec: conf.entry_ttl.nanos,
                attr_valid_nsec: conf.attr_ttl.nanos,
                attr,
            }),
    {
        FuseEntryOut {
            nodeid: attr.ino,
            generation: 0,
            entry_valid: conf.entry_ttl.secs,
            attr_valid: conf.attr_ttl.secs,
            entry_valid_nsec: conf.entry_ttl.nanos,
            attr_valid_nsec: conf.attr_ttl.nanos,
            attr,
        }
    }

    /// The status of the `.` or `..` entry of a listing.
    pub fn new_dot_status(name: &str) -> (r: FileStatus)
        ensures
            r.id == FUSE_UNKNOWN_INO as i64,
            r.name@ == name@,
            r.is_dir,
            r.file_type == FileType::Dir,
            r.len == 0,
            r.mode == 0,
    {
        FileStatus::with_name(FUSE_UNKNOWN_INO as i64, name, true)
    }

    /// The owner uid of a file whose owner is `owner` (see `resolved_id`).
    pub fn resolve_file_uid(&self, owner: &str, by_name: Option<u32>) -> (r: u32)
        ensures
            r == resolved_id(owner@, self@.uid, by_name),
    {
        resolve_id(owner, self.conf.uid, by_name)
    }

    /// The group gid of a file whose group is `group` (see `resolved_id`).
    pub fn resolve_file_gid(&self, group: &str, by_name: Option<u32>) -> (r: u32)
        ensures
            r == resolved_id(group@, self@.gid, by_name),
    {
        resolve_id(group, self.conf.gid, by_name)
    }

    /// The permission bits of `mode` that apply to the user (see
    /// `effective_bits`).
    pub fn get_effective_permission_bits(
        &self,
        mode: u32,
        current_uid: u32,
        current_gid: u32,
        file_uid: u32,
        file_gid: u32,
    ) -> (r: u32)
        ensures
            r == effective_bits(mode, current_uid, current_gid, file_uid, file_gid),
    {
        if current_uid == file_uid {
            (mode >> 6) & 0o7
        } else if current_gid == file_gid {
            (mode >> 3) & 0o7
        } else {
            mode & 0o7
        }
    }

    /// Whether `permission_bits` grant the access `mask` asks for.
    pub fn check_permission_mask(&self, permission_bits: u32, mask: u32) -> (r: bool)
        ensures
            r == grants(permission_bits, mask),
    {
        if mask == 0 {
            return true;
        }
        let mut has_permission = true;
        if (mask & R_OK) != 0 {
            has_permission = has_permission && (permission_bits & 0o4) != 0;
        }
        if (mask & W_OK) != 0 {
            has_permission = has_permission && (permission_bits & 0o2) != 0;
        }
        if (mask & X_OK) != 0 {
            has_permission = has_permission && (permission_bits & 0o1) != 0;
        }
        has_permission
    }

    /// Whether an access by the user of `header` has to be checked: root and
    /// mounts without permission checking skip it.
    pub fn needs_permission_check(&self, header: &FuseInHeader) -> (r: bool)
        ensures
            r == (header.uid != 0 && self@.check_permission),
    {
        header.uid != 0 && self.conf.check_permission
    }

    /// Checks that the user of `header` may access `status` as `mask` asks;
    /// `owner_by_name` and `group_by_name` are the system's ids for the file's
    /// owner and group names.
    pub fn check_access_permissions(
        &self,
        status: &FileStatus,
        header: &FuseInHeader,
        mask: u32,
        owner_by_name: Option<u32>,
        group_by_name: Option<u32>,
    ) -> (r: Result<(), FuseError>)
        ensures
            r is Ok <==> grants(effective_bits(status.mode, header.uid, header.gid,
                resolved_id(status.owner@, self@.uid, owner_by_name),
                resolved_id(status.group@, self@.gid, group_by_name)), mask),
            r matches Err(e) ==> e.errno == EACCES
                && e.message@ == denied_message(header.nodeid, header.opcode),
    {
        let file_uid = self.resolve_file_uid(status.owner.as_str(), owner_by_name);
        let file_gid = self.resolve_file_gid(status.group.as_str(), group_by_name);
        let bits = self.get_effective_permission_bits(status.mode, header.uid, header.gid,
            file_uid, file_gid);
        if self.check_permission_mask(bits, mask) {
            Ok(())
        } else {
            let mut m = string_of("Permission denied to search ino: ");
            push_decimal(&mut m, header.nodeid);
            push_str(&mut m, ", op: ");
            push_decimal(&mut m, header.opcode as u64);
            Err(FuseError::new(EACCES, m))
        }
    }
}


/// A setattr request from the kernel.
#[derive(PartialEq, Eq, Structural, Clone, Copy, Debug)]
pub struct FuseSetattrIn {
    pub valid: u32,
    pub fh: u64,
    pub size: u64,
    pub lock_owner: u64,
    pub atime: u64,
    pub mtime: u64,
    pub ctime: u64,
    pub atimensec: u32,
    pub mtimensec: u32,
    pub ctimensec: u32,
    pub mode: u32,
    pub uid: u32,
    pub gid: u32,
}

/// The attribute changes asked of the metadata service.
#[derive(Debug)]
pub struct SetAttrOpts {
    pub owner: Option<String>,
    pub group: Option<String>,
    pub mode: Option<u32>,
    /// Access time in milliseconds.
    pub atime: Option<i64>,
    /// Modification time in milliseconds.
    pub mtime: Option<i64>,
    pub add_x_attr: Vec<(String, Vec<u8>)>,
    pub remove_x_attr: Vec<String>,
}

/// The view of an optional name.
pub open spec fn opt_view(o: Option<String>) -> Option<Seq<char>> {
    match o {
        Some(s) => Some(s@),
        None => None,
    }
}

/// The owner or group name recorded for id `id`: the system's name for it,
/// or the number itself when the system has none.
pub open spec fn id_name(id: u32, system_name: Option<String>) -> Seq<char> {
    match system_name {
        Some(n) => n@,
        None => decimal(id as nat),
    }
}

/// A time field of a setattr request in milliseconds: the given seconds when
/// `given` is set, now when `now_flag` is set, unchanged otherwise.
pub open spec fn requested_time(valid: u32, given: u32, now_flag: u32, secs: u64, now_ms: u64) -> Option<i64> {
    if (valid & given) != 0 {
        Some((secs * 1000) as i64)
    } else if (valid & now_flag) != 0 {
        Some(now_ms as i64)
    } else {
        None
    }
}

/// The mode a chown of a regular file leaves: setuid is always cleared, and
/// setgid is cleared when the file is group-executable.
pub open spec fn chown_mode(m: u32) -> u32 {
    let m1 = m & !S_ISUID;
    let m2 = if (m1 & 0o010) != 0 { m1 & !S_ISGID } else { m1 };
    m2 & 0o7777
}

/// The mode a setattr request finally asks for: when the owner or group of a
/// regular file changes, the requested (or current) mode with the chown rule
/// applied; otherwise the requested mode.
pub open spec fn setattr_mode(valid: u32, file_type: FileType, requested: Option<u32>, current: u32) -> Option<u32> {
    if (valid & (FATTR_UID | FATTR_GID)) != 0 && file_type == FileType::File {
        Some(chown_mode(match requested { Some(m) => m, None => current }))
    } else {
        requested
    }
}

/// Extended attributes the file system does not support.
pub open spec fn is_system_xattr(name: Seq<char>) -> bool {
    ||| name == "security.capability"@
    ||| name == "security.selinux"@
    ||| name == "system.posix_acl_access"@
    ||| name == "system.posix_acl_default"@
}

/// The value of the extended attribute `name` among `xs`, the first one
/// from index `i` on.
pub open spec fn xattr_from(xs: Seq<(String, Vec<u8>)>, name: Seq<char>, i: int) -> Option<Seq<u8>>
    decreases xs.len() - i,
{
    if i < 0 || i >= xs.len() {
        None
    } else if xs[i].0@ == name {
        Some(xs[i].1@)
    } else {
        xattr_from(xs, name, i + 1)
    }
}

/// No extended attribute name occurs twice among `xs`, as in the map the
/// metadata service keeps them in.
pub open spec fn xattr_names_distinct(xs: Seq<(String, Vec<u8>)>) -> bool {
    forall|i: int, j: int| 0 <= i < j < xs.len() ==> #[trigger] xs[i].0@ != #[trigger] xs[j].0@
}

proof fn lemma_xattr_from_reaches(xs: Seq<(String, Vec<u8>)>, name: Seq<char>, i: int, k: int)
    requires
        xattr_names_distinct(xs),
        0 <= i <= k < xs.len(),
        xs[k].0@ == name,
    ensures
        xattr_from(xs, name, i) == Some(xs[k].1@),
    decreases k - i,
{
    if i < k {
        assert(xs[i].0@ != xs[k].0@);
        lemma_xattr_from_reaches(xs, name, i + 1, k);
    }
}

/// With distinct names, looking up the name of any listed attribute gives
/// that attribute's value.
pub proof fn law_xattr_lookup_finds_entry(xs: Seq<(String, Vec<u8>)>, k: int)
    requires
        xattr_names_distinct(xs),
        0 <= k < xs.len(),
    ensures
        xattr_from(xs, xs[k].0@, 0) == Some(xs[k].1@),
{
    lemma_xattr_from_reaches(xs, xs[k].0@, 0, k);
}

/// The bytes of an ASCII text.
pub open spec fn ascii_bytes(s: Seq<char>) -> Seq<u8> {
    s.map_values(|c: char| c as u8)
}

/// The decimal text of a signed number.
pub open spec fn signed_decimal(v: i64) -> Seq<char> {
    if v < 0 { "-"@ + decimal((-(v as int)) as nat) } else { decimal(v as nat) }
}

/// What an extended-attribute request is answered with.
#[derive(Debug)]
pub enum XattrReply {
    /// The buffer size the value needs (the caller asked with size 0).
    Size(u32),
    /// The value itself.
    Data(Vec<u8>),
}

/// The view of an extended-attribute reply.
pub open spec fn reply_view(r: Result<XattrReply, FuseError>) -> Result<(bool, nat, Seq<u8>), (i32, Seq<char>)> {
    match r {
        Ok(XattrReply::Size(n)) => Ok((true, n as nat, Seq::empty())),
        Ok(XattrReply::Data(d)) => Ok((false, 0, d@)),
        Err(e) => Err((e.errno, e.message@)),
    }
}

/// The answer to reading extended attribute `name` of `status` into a buffer
/// of `size` bytes: unsupported system attributes and missing ones have no
/// data; `id` is the file id in decimal; a buffer of size 0 asks for the
/// value's size; a too small buffer is a range error.
pub open spec fn getxattr_answer(status: FileStatus, name: Seq<char>, size: u32) -> Result<(bool, nat, Seq<u8>), (i32, Seq<char>)> {
    if is_system_xattr(name) {
        Err((ENODATA, "get_xattr "@ + name))
    } else if name == "id"@ {
        let v = ascii_bytes(signed_decimal(status.id));
        if size == 0 { Ok((true, (v.len() as u32) as nat, Seq::empty())) } else { Ok((false, 0, v)) }
    } else {
        match xattr_from(status.x_attr@, name, 0) {
            None => Err((ENODATA, "No such attribute: "@ + name)),
            Some(v) => if size == 0 {
                Ok((true, (v.len() as u32) as nat, Seq::empty()))
            } else if size < v.len() as u32 {
                Err((ERANGE, "Buffer too small for xattr value: "@ + decimal(size as nat) + " < "@
                    + decimal(v.len())))
            } else {
                Ok((false, 0, v))
            },
        }
    }
}

/// The list of extended attribute names of `xs[..n]`, each followed by a NUL.
pub open spec fn xattr_name_list(xs: Seq<(String, Vec<u8>)>, n: int) -> Seq<u8>
    decreases n,
{
    if n <= 0 {
        Seq::empty()
    } else {
        xattr_name_list(xs, n - 1) + encode_utf8(xs[n - 1].0@) + seq![0u8]
    }
}

/// The name list `listxattr` answers: the file's attribute names, then `id`.
pub open spec fn listxattr_names(status: FileStatus) -> Seq<u8> {
    xattr_name_list(status.x_attr@, status.x_attr@.len() as int) + seq![105u8, 100u8, 0u8]
}

/// The answer to listing the extended attributes of `status` into a buffer
/// of `size` bytes.
pub open spec fn listxattr_answer(status: FileStatus, size: u32) -> Result<(bool, nat, Seq<u8>), (i32, Seq<char>)> {
    let names = listxattr_names(status);
    if size == 0 {
        Ok((true, (names.len() as u32) as nat, Seq::empty()))
    } else if size < names.len() as u32 {
        Err((ERANGE, too_small_message(size, names.len())))
    } else {
        Ok((false, 0, names))
    }
}

fn is_system_xattr_name(name: &str) -> (r: bool)
    ensures
        r == is_system_xattr(name@),
{
    let v = chars_of(name);
    chars_eq_str(&v, "security.capability")
        || chars_eq_str(&v, "security.selinux")
        || chars_eq_str(&v, "system.posix_acl_access")
        || chars_eq_str(&v, "system.posix_acl_default")
}

fn ascii_bytes_of(s: &String) -> (r: Vec<u8>)
    ensures
        r@ == ascii_bytes(s@),
{
    let cs = chars_of(s.as_str());
    let mut r: Vec<u8> = Vec::new();
    let mut i: usize = 0;
    while i < cs.len()
        invariant
            i <= cs@.len(),
            cs@ == s@,
            r@ == ascii_bytes(cs@.take(i as int)),
        decreases cs@.len() - i,
    {
        r.push(cs[i] as u8);
        i = i + 1;
        assert(r@ =~= ascii_bytes(cs@.take(i as int)));
    }
    assert(cs@.take(cs@.len() as int) =~= cs@);
    r
}

fn signed_decimal_string(v: i64) -> (r: String)
    ensures
        r@ == signed_decimal(v),
{
    let mut s = String::new();
    if v < 0 {
        push_str(&mut s, "-");
        let m: u64 = if v == i64::MIN { 9223372036854775808u64 } else { (-v) as u64 };
        push_decimal(&mut s, m);
    } else {
        push_decimal(&mut s, v as u64);
    }
    s
}

fn find_xattr(xs: &Vec<(String, Vec<u8>)>, name: &str) -> (r: Option<Vec<u8>>)
    ensures
        match r {
            Some(v) => xattr_from(xs@, name@, 0) == Some(v@),
            None => xattr_from(xs@, name@, 0) is None,
        },
{
    let mut i: usize = 0;
    while i < xs.len()
        invariant
            i <= xs@.len(),
            xattr_from(xs@, name@, 0) == xattr_from(xs@, name@, i as int),
        decreases xs@.len() - i,
    {
        if crate::units::chars_eq(&chars_of(xs[i].0.as_str()), &chars_of(name)) {
            return Some(vstd::slice::slice_to_vec(xs[i].1.as_slice()));
        }
        i = i + 1;
    }
    None
}

fn name_list_of(xs: &Vec<(String, Vec<u8>)>) -> (r: Vec<u8>)
    ensures
        r@ == xattr_name_list(xs@, xs@.len() as int),
{
    let mut r: Vec<u8> = Vec::new();
    let mut i: usize = 0;
    while i < xs.len()
        invariant
            i <= xs@.len(),
            r@ == xattr_name_list(xs@, i as int),
        decreases xs@.len() - i,
    {
        let b = xs[i].0.as_str().as_bytes();
        let mut j: usize = 0;
        let ghost start = r@;
        while j < b.len()
            invariant
                j <= b@.len(),
                b@ == encode_utf8(xs@[i as int].0@),
                r@ == start + b@.take(j as int),
            decreases b@.len() - j,
        {
            r.push(b[j]);
            j = j + 1;
            assert(r@ =~= start + b@.take(j as int));
        }
        assert(b@.take(b@.len() as int) =~= b@);
        r.push(0u8);
        i = i + 1;
        assert(r@ =~= xattr_name_list(xs@, i as int));
    }
    r
}

/// The message of a too-small buffer error.
pub open spec fn too_small_message(size: u32, len: nat) -> Seq<char> {
    "Buffer too small: "@ + decimal(size as nat) + " < "@ + decimal(len)
}

/// Whether a name classifies as the directory itself, its parent, or a child.
#[derive(PartialEq, Eq, Structural, Clone, Copy, Debug)]
pub enum NameTarget {
    Current,
    Parent,
    Child,
}

/// How a name in a lookup or symlink request is resolved.
pub open spec fn name_target(name: Seq<char>) -> NameTarget {
    if name == "."@ {
        NameTarget::Current
    } else if name == ".."@ {
        NameTarget::Parent
    } else {
        NameTarget::Child
    }
}

/// The negative lookup answer under FUSE settings `conf`: node 0, cached
/// for the negative TTL.
pub open spec fn negative_entry_of(conf: FuseConf) -> FuseEntryOut {
    FuseEntryOut {
        nodeid: 0,
        generation: 0,
        entry_valid: conf.negative_ttl.secs,
        attr_valid: 0,
        entry_valid_nsec: conf.negative_ttl.nanos,
        attr_valid_nsec: 0,
        attr: FuseAttr { ino: 0, size: 0, blocks: 0, atime: 0, mtime: 0, ctime: 0,
            atimensec: 0, mtimensec: 0, ctimensec: 0, mode: 0, nlink: 0, uid: 0, gid: 0,
            rdev: 0, blksize: 0, padding: 0 },
    }
}

/// The lookup answer for `attr` under FUSE settings `conf`, cached for the
/// configured times.
pub open spec fn entry_out_of(conf: FuseConf, attr: FuseAttr) -> FuseEntryOut {
    FuseEntryOut {
        nodeid: attr.ino,
        generation: 0,
        entry_valid: conf.entry_ttl.secs,
        attr_valid: conf.attr_ttl.secs,
        entry_valid_nsec: conf.entry_ttl.nanos,
        attr_valid_nsec: conf.attr_ttl.nanos,
        attr,
    }
}

/// A failed lookup step with error number `errno` is answered with the
/// negative entry: the entry is missing and negative entries are cached.
pub open spec fn negative_answer(conf: FuseConf, errno: i32) -> bool {
    errno == ENOENT && !(conf.negative_ttl.secs == 0 && conf.negative_ttl.nanos == 0)
}

/// The next thing a lookup does.
#[derive(Debug)]
pub enum LookupAction {
    /// Check that the caller may search (`X_OK`) the directory at
    /// `parent_path`.
    CheckParent { parent_path: String },
    /// Fetch the status of the entry at `path`.
    Fetch { path: String },
    /// Register the fetched status as a node under the searched directory.
    Register,
    /// Answer the kernel.
    Reply(Result<FuseEntryOut, FuseError>),
}

/// The session parameters the kernel proposes.
#[derive(PartialEq, Eq, Structural, Clone, Copy, Debug)]
pub struct FuseInitIn {
    pub major: u32,
    pub minor: u32,
    pub max_readahead: u32,
    pub flags: u32,
}

/// The session parameters the file system answers.
#[derive(PartialEq, Eq, Structural, Clone, Copy, Debug)]
pub struct FuseInitOut {
    pub major: u32,
    pub minor: u32,
    pub max_readahead: u32,
    pub flags: u32,
    pub max_background: u16,
    pub congestion_threshold: u16,
    pub max_write: u32,
    pub time_gran: u32,
    pub max_pages: u16,
}

/// The capabilities always offered.
pub open spec fn base_init_flags() -> u32 {
    FUSE_BIG_WRITES | FUSE_ASYNC_READ | FUSE_ASYNC_DIO | FUSE_SPLICE_MOVE | FUSE_SPLICE_WRITE
        | FUSE_SPLICE_READ | FUSE_READDIRPLUS_AUTO | FUSE_AUTO_INVAL_DATA | FUSE_EXPORT_SUPPORT
}

/// `a * b` saturating at `u32::MAX`.
pub open spec fn sat_mul_u32(a: u32, b: u32) -> u32 {
    if a * b > u32::MAX { u32::MAX } else { (a * b) as u32 }
}

/// The session parameters answered to `arg` for a channel buffer of
/// `buf_size` bytes and pages of `page_size` bytes.
pub open spec fn init_answer(conf: FuseConf, arg: FuseInitIn, buf_size: usize, page_size: usize) -> FuseInitOut {
    let max_write = buf_size - FUSE_BUFFER_HEADER_SIZE;
    let wants_pages = (arg.flags & FUSE_MAX_PAGES) != 0;
    let f1 = if wants_pages { base_init_flags() | FUSE_MAX_PAGES } else { base_init_flags() };
    let max_pages: int = if wants_pages { (max_write - 1) / (page_size as int) + 1 } else { 0 };
    let f2 = f1 | arg.flags;
    let f3 = if conf.write_back_cache { f2 | FUSE_WRITEBACK_CACHE } else { f2 & !FUSE_WRITEBACK_CACHE };
    let ra = match conf.max_readahead_kb {
        Some(kb) => {
            let want = sat_mul_u32(kb, 1024);
            if arg.max_readahead >= want { arg.max_readahead } else { want }
        },
        None => arg.max_readahead,
    };
    FuseInitOut {
        major: arg.major,
        minor: arg.minor,
        max_readahead: ra,
        flags: f3,
        max_background: conf.max_background,
        congestion_threshold: conf.congestion_threshold,
        max_write: max_write as u32,
        time_gran: 1,
        max_pages: max_pages as u16,
    }
}

/// The kernel speaks an unsupported (too old) protocol version.
pub open spec fn unsupported_abi(arg: FuseInitIn) -> bool {
    arg.major < FUSE_KERNEL_VERSION && arg.minor < FUSE_KERNEL_MINOR_VERSION
}

/// File system statistics answered to the kernel.
#[derive(PartialEq, Eq, Structural, Clone, Copy, Debug)]
pub struct FuseKstatfs {
    pub blocks: u64,
    pub bfree: u64,
    pub bavail: u64,
    pub files: u64,
    pub ffree: u64,
    pub bsize: u32,
    pub namelen: u32,
    pub frsize: u32,
}

/// The statistics answered for a cluster of `capacity` bytes with
/// `available` bytes free, in 4 KiB blocks.
pub open spec fn statfs_answer(capacity: i64, available: i64) -> FuseKstatfs {
    FuseKstatfs {
        blocks: trunc_div(capacity as int, 4096) as u64,
        bfree: trunc_div(available as int, 4096) as u64,
        bavail: trunc_div(available as int, 4096) as u64,
        files: FUSE_UNKNOWN_INODES,
        ffree: FUSE_UNKNOWN_INODES,
        bsize: 4096,
        namelen: FUSE_MAX_NAME_LENGTH as u32,
        frsize: 4096,
    }
}

/// What `mknod` creates for a mode.
#[derive(PartialEq, Eq, Structural, Clone, Copy, Debug)]
pub enum MknodKind {
    Regular,
    Directory,
    Unsupported,
}

/// A create request: the open flags, the mode and the umask.
#[derive(PartialEq, Eq, Structural, Clone, Copy, Debug)]
pub struct FuseCreateIn {
    pub flags: u32,
    pub mode: u32,
    pub umask: u32,
    pub padding: u32,
}

/// A mkdir request.
#[derive(PartialEq, Eq, Structural, Clone, Copy, Debug)]
pub struct FuseMkdirIn {
    pub mode: u32,
    pub umask: u32,
}

/// A mknod request.
#[derive(PartialEq, Eq, Structural, Clone, Copy, Debug)]
pub struct FuseMknodIn {
    pub mode: u32,
    pub rdev: u32,
    pub umask: u32,
    pub padding: u32,
}

/// What a mknod request is carried out as: a create of a regular file (whose
/// handle is closed again at once), a mkdir, or a refusal with an error
/// number.
#[derive(PartialEq, Eq, Structural, Clone, Copy, Debug)]
pub enum MknodPlan {
    Create(FuseCreateIn),
    Mkdir(FuseMkdirIn),
    Refuse(i32),
}

/// How a mknod of `arg` is carried out when a create opens with
/// `create_flags`: a regular file is created with the request's mode, umask
/// and padding; a directory is made with its mode and umask; devices, fifos
/// and sockets are refused with `EPERM`.
pub open spec fn mknod_plan_of(arg: FuseMknodIn, create_flags: u32) -> MknodPlan {
    if is_reg(arg.mode) {
        MknodPlan::Create(FuseCreateIn {
            flags: create_flags,
            mode: arg.mode,
            umask: arg.umask,
            padding: arg.padding,
        })
    } else if is_dir_mode(arg.mode) {
        MknodPlan::Mkdir(FuseMkdirIn { mode: arg.mode, umask: arg.umask })
    } else {
        MknodPlan::Refuse(EPERM)
    }
}

/// A mode denotes a regular file.
pub open spec fn is_reg(mode: u32) -> bool {
    (mode & S_IFMT) == S_IFREG
}

/// A mode denotes a directory.
pub open spec fn is_dir_mode(mode: u32) -> bool {
    (mode & S_IFMT) == S_IFDIR
}

/// The permission bits a create or mkdir asks for: the requested mode's
/// permission and special bits less the umask; nothing when no mode is given.
pub open spec fn requested_acl_mode(mode: u32, umask: u32) -> Option<u32> {
    if mode != 0 { Some(mode & 0o7777 & !umask) } else { None }
}

/// The open flags answered when opening a file with flags `flags`: direct
/// I/O if configured; otherwise the page cache is kept when it is still
/// valid, and a stale cache means direct I/O when so configured.
pub open spec fn file_open_flags(conf: FuseConf, flags: u32, keep_cache: bool) -> u32 {
    if conf.direct_io {
        flags | FUSE_FOPEN_DIRECT_IO
    } else if keep_cache {
        flags | FUSE_FOPEN_KEEP_CACHE
    } else if conf.open_direct_on_stale {
        flags | FUSE_FOPEN_DIRECT_IO
    } else {
        flags
    }
}

impl CurvineFileSystem {
    /// The metadata changes a setattr request asks for. `owner_name` and
    /// `group_name` are the system's names for the requested uid and gid;
    /// `now_ms` is the current time in milliseconds.
    pub fn fuse_setattr_to_opts(
        setattr: &FuseSetattrIn,
        owner_name: Option<String>,
        group_name: Option<String>,
        now_ms: u64,
    ) -> (r: Result<SetAttrOpts, FuseError>)
        requires
            (setattr.valid & FATTR_ATIME) != 0 ==> setattr.atime * 1000 <= u64::MAX,
            (setattr.valid & FATTR_MTIME) != 0 ==> setattr.mtime * 1000 <= u64::MAX,
        ensures
            r matches Ok(o) && {
                &&& opt_view(o.owner) == (if (setattr.valid & FATTR_UID) != 0 {
                    Some(id_name(setattr.uid, owner_name))
                } else {
                    None::<Seq<char>>
                })
                &&& opt_view(o.group) == (if (setattr.valid & FATTR_GID) != 0 {
                    Some(id_name(setattr.gid, group_name))
                } else {
                    None::<Seq<char>>
                })
                &&& o.mode == (if (setattr.valid & FATTR_MODE) != 0 {
                    Some(setattr.mode & 0o7777)
                } else {
                    None::<u32>
                })
                &&& o.atime == requested_time(setattr.valid, FATTR_ATIME, FATTR_ATIME_NOW,
                    setattr.atime, now_ms)
                &&& o.mtime == requested_time(setattr.valid, FATTR_MTIME, FATTR_MTIME_NOW,
                    setattr.mtime, now_ms)
                &&& o.add_x_attr@.len() == 0
                &&& o.remove_x_attr@.len() == 0
            },
    {
        let owner = if (setattr.valid & FATTR_UID) != 0 {
            match owner_name {
                Some(n) => Some(n),
                None => {
                    let mut s = String::new();
                    push_decimal(&mut s, setattr.uid as u64);
                    Some(s)
                },
            }
        } else {
            None
        };
        let group = if (setattr.valid & FATTR_GID) != 0 {
            match group_name {
                Some(n) => Some(n),
                None => {
                    let mut s = String::new();
                    push_decimal(&mut s, setattr.gid as u64);
                    Some(s)
                },
            }
        } else {
            None
        };
        let mode = if (setattr.valid & FATTR_MODE) != 0 { Some(setattr.mode & 0o7777) } else { None };
        let atime = if (setattr.valid & FATTR_ATIME) != 0 {
            Some((setattr.atime * 1000) as i64)
        } else if (setattr.valid & FATTR_ATIME_NOW) != 0 {
            Some(now_ms as i64)
        } else {
            None
        };
        let mtime = if (setattr.valid & FATTR_MTIME) != 0 {
            Some((setattr.mtime * 1000) as i64)
        } else if (setattr.valid & FATTR_MTIME_NOW) != 0 {
            Some(now_ms as i64)
        } else {
            None
        };
        Ok(SetAttrOpts {
            owner,
            group,
            mode,
            atime,
            mtime,
            add_x_attr: Vec::new(),
            remove_x_attr: Vec::new(),
        })
    }

    /// The mode a setattr request finally asks for (see `setattr_mode`);
    /// `file_type` and `current_mode` describe the file now.
    pub fn adjust_chown_mode(valid: u32, file_type: FileType, requested: Option<u32>, current_mode: u32) -> (r: Option<u32>)
        ensures
            r == setattr_mode(valid, file_type, requested, current_mode),
    {
        if (valid & (FATTR_UID | FATTR_GID)) != 0 && file_type == FileType::File {
            let mut new_mode = match requested {
                Some(m) => m,
                None => current_mode,
            };
            new_mode = new_mode & !S_ISUID;
            if (new_mode & 0o010) != 0 {
                new_mode = new_mode & !S_ISGID;
            }
            Some(new_mode & 0o7777)
        } else {
            requested
        }
    }

    /// The length a setattr request truncates the file to, if it asks for a
    /// size different from the current length `cur_len`.
    pub fn resize_target(setattr: &FuseSetattrIn, cur_len: i64) -> (r: Option<i64>)
        ensures
            r == (if (setattr.valid & FATTR_SIZE) != 0 && setattr.size as i64 != cur_len {
                Some(setattr.size as i64)
            } else {
                None::<i64>
            }),
    {
        if (setattr.valid & FATTR_SIZE) != 0 {
            let expect_len = setattr.size as i64;
            if expect_len != cur_len {
                return Some(expect_len);
            }
        }
        None
    }

    /// The answer to reading extended attribute `name` of `status` into a
    /// buffer of `size` bytes (see `getxattr_answer`).
    pub fn get_xattr(status: &FileStatus, name: &str, size: u32) -> (r: Result<XattrReply, FuseError>)
        requires
            xattr_names_distinct(status.x_attr@),
        ensures
            reply_view(r) == getxattr_answer(*status, name@, size),
    {
        if is_system_xattr_name(name) {
            let mut m = string_of("get_xattr ");
            push_str(&mut m, name);
            return Err(FuseError::new(ENODATA, m));
        }
        if chars_eq_str(&chars_of(name), "id") {
            let value = ascii_bytes_of(&signed_decimal_string(status.id));
            if size == 0 {
                return Ok(XattrReply::Size(value.len() as u32));
            } else {
                return Ok(XattrReply::Data(value));
            }
        }
        match find_xattr(&status.x_attr, name) {
            Some(value) => {
                if size == 0 {
                    Ok(XattrReply::Size(value.len() as u32))
                } else if size < value.len() as u32 {
                    let mut m = string_of("Buffer too small for xattr value: ");
                    push_decimal(&mut m, size as u64);
                    push_str(&mut m, " < ");
                    push_decimal(&mut m, value.len() as u64);
                    Err(FuseError::new(ERANGE, m))
                } else {
                    Ok(XattrReply::Data(value))
                }
            },
            None => {
                let mut m = string_of("No such attribute: ");
                push_str(&mut m, name);
                Err(FuseError::new(ENODATA, m))
            },
        }
    }

    /// The change that sets extended attribute `name` to `value`; system
    /// attributes are not supported.
    pub fn set_xattr_opts(name: &str, value: &[u8]) -> (r: Result<SetAttrOpts, FuseError>)
        ensures
            is_system_xattr(name@) <==> r is Err,
            r matches Err(e) ==> e.errno == EOPNOTSUPP,
            r matches Ok(o) ==> o.add_x_attr@.len() == 1 && o.add_x_attr@[0].0@ == name@
                && o.add_x_attr@[0].1@ == value@ && o.remove_x_attr@.len() == 0
                && o.owner is None && o.group is None && o.mode is None
                && o.atime is None && o.mtime is None,
    {
        if is_system_xattr_name(name) {
            let mut m = string_of("not support set_xattr ");
            push_str(&mut m, name);
            return Err(FuseError::new(EOPNOTSUPP, m));
        }
        let mut add: Vec<(String, Vec<u8>)> = Vec::new();
        add.push((string_of(name), vstd::slice::slice_to_vec(value)));
        Ok(SetAttrOpts {
            owner: None,
            group: None,
            mode: None,
            atime: None,
            mtime: None,
            add_x_attr: add,
            remove_x_attr: Vec::new(),
        })
    }

    /// The change that removes extended attribute `name`; `None` for system
    /// attributes, whose removal is silently accepted without a change.
    pub fn remove_xattr_opts(name: &str) -> (r: Option<SetAttrOpts>)
        ensures
            is_system_xattr(name@) <==> r is None,
            r matches Some(o) ==> o.remove_x_attr@.len() == 1 && o.remove_x_attr@[0]@ == name@
                && o.add_x_attr@.len() == 0 && o.owner is None && o.group is None
                && o.mode is None && o.atime is None && o.mtime is None,
    {
        if is_system_xattr_name(name) {
            return None;
        }
        let mut rm: Vec<String> = Vec::new();
        rm.push(string_of(name));
        Some(SetAttrOpts {
            owner: None,
            group: None,
            mode: None,
            atime: None,
            mtime: None,
            add_x_attr: Vec::new(),
            remove_x_attr: rm,
        })
    }

    /// The answer to listing the extended attributes of `status` into a
    /// buffer of `size` bytes (see `listxattr_answer`).
    pub fn list_xattr(status: &FileStatus, size: u32) -> (r: Result<XattrReply, FuseError>)
        requires
            xattr_names_distinct(status.x_attr@),
        ensures
            reply_view(r) == listxattr_answer(*status, size),
    {
        let mut names = name_list_of(&status.x_attr);
        names.push(105u8);
        names.push(100u8);
        names.push(0u8);
        assert(names@ =~= listxattr_names(*status));
        if size == 0 {
            Ok(XattrReply::Size(names.len() as u32))
        } else if size < names.len() as u32 {
            let mut m = string_of("Buffer too small: ");
            push_decimal(&mut m, size as u64);
            push_str(&mut m, " < ");
            push_decimal(&mut m, names.len() as u64);
            Err(FuseError::new(ERANGE, m))
        } else {
            Ok(XattrReply::Data(names))
        }
    }

    /// Negotiates the session (see `init_answer`); a kernel whose major and
    /// minor versions are both older than supported is refused.
    pub fn init(&self, arg: &FuseInitIn, buf_size: usize, page_size: usize) -> (r: Result<FuseInitOut, FuseError>)
        requires
            buf_size > FUSE_BUFFER_HEADER_SIZE,
            page_size > 0,
        ensures
            unsupported_abi(*arg) <==> r is Err,
            r matches Err(e) ==> e.errno == EPROTO,
            r matches Ok(o) ==> o == init_answer(self@, *arg, buf_size, page_size),
    {
        if arg.major < FUSE_KERNEL_VERSION && arg.minor < FUSE_KERNEL_MINOR_VERSION {
            let mut m = string_of("Unsupported FUSE ABI version ");
            push_decimal(&mut m, arg.major as u64);
            push_str(&mut m, ".");
            push_decimal(&mut m, arg.minor as u64);
            return Err(FuseError::new(EPROTO, m));
        }
        let mut out_flags = FUSE_BIG_WRITES | FUSE_ASYNC_READ | FUSE_ASYNC_DIO | FUSE_SPLICE_MOVE
            | FUSE_SPLICE_WRITE | FUSE_SPLICE_READ | FUSE_READDIRPLUS_AUTO | FUSE_AUTO_INVAL_DATA
            | FUSE_EXPORT_SUPPORT;
        let max_write = buf_size - FUSE_BUFFER_HEADER_SIZE;
        let max_pages = if arg.flags & FUSE_MAX_PAGES != 0 {
            out_flags = out_flags | FUSE_MAX_PAGES;
            (max_write - 1) / page_size + 1
        } else {
            0
        };
        out_flags = out_flags | arg.flags;
        if self.conf.write_back_cache {
            out_flags = out_flags | FUSE_WRITEBACK_CACHE;
        } else {
            out_flags = out_flags & !FUSE_WRITEBACK_CACHE;
        }
        let max_readahead = match self.conf.max_readahead_kb {
            Some(kb) => {
                let want: u32 = if kb > 4194303 { u32::MAX } else { kb * 1024 };
                if arg.max_readahead >= want { arg.max_readahead } else { want }
            },
            None => arg.max_readahead,
        };
        Ok(FuseInitOut {
            major: arg.major,
            minor: arg.minor,
            max_readahead,
            flags: out_flags,
            max_background: self.conf.max_background,
            congestion_threshold: self.conf.congestion_threshold,
            max_write: max_write as u32,
            time_gran: 1,
            max_pages: max_pages as u16,
        })
    }

    /// How a name of a lookup or symlink request resolves: `.` is the
    /// directory itself, `..` its parent, anything else a child.
    pub fn classify_name(name: &str) -> (r: NameTarget)
        ensures
            r == name_target(name@),
    {
        let v = chars_of(name);
        if chars_eq_str(&v, ".") {
            NameTarget::Current
        } else if chars_eq_str(&v, "..") {
            NameTarget::Parent
        } else {
            NameTarget::Child
        }
    }

    /// The path of child `name` of the directory at `parent`.
    pub fn child_path(parent: &str, name: &str) -> (r: String)
        ensures
            r@ == parent@ + "/"@ + name@,
    {
        let mut p = string_of(parent);
        push_str(&mut p, "/");
        push_str(&mut p, name);
        p
    }

    /// Whether a lookup that failed with `errno` is answered with a negative
    /// entry: only a missing file, and only when negative entries are cached.
    pub fn answers_negative(&self, errno: i32) -> (r: bool)
        ensures
            r == negative_answer(self@, errno),
            r == (errno == ENOENT && !(self@.negative_ttl.secs == 0 && self@.negative_ttl.nanos == 0)),
    {
        errno == ENOENT && !(self.conf.negative_ttl.secs == 0 && self.conf.negative_ttl.nanos == 0)
    }

    /// Lookup, first step: once the path of the directory searched is known
    /// (the node itself for `.` and a child name, its parent for `..`), the
    /// caller's search permission on it is checked; failing to find it is
    /// the answer.
    pub fn lookup_on_parent(parent_path: Result<String, FuseError>) -> (r: LookupAction)
        ensures
            match parent_path {
                Ok(p) => r matches LookupAction::CheckParent { parent_path: q } && q@ == p@,
                Err(e) => r matches LookupAction::Reply(Err(x)) && x == e,
            },
    {
        match parent_path {
            Ok(p) => LookupAction::CheckParent { parent_path: p },
            Err(e) => LookupAction::Reply(Err(e)),
        }
    }

    /// Lookup, second step: only with the search permission granted is the
    /// entry fetched (the searched directory itself for `.` and `..`, its
    /// child `name` otherwise); a refusal is the answer.
    pub fn lookup_on_permission(
        target: NameTarget,
        parent_path: &str,
        name: &str,
        permission: Result<(), FuseError>,
    ) -> (r: LookupAction)
        ensures
            match permission {
                Ok(_) => r matches LookupAction::Fetch { path } && path@ == (if target == NameTarget::Child {
                    parent_path@ + "/"@ + name@
                } else {
                    parent_path@
                }),
                Err(e) => r matches LookupAction::Reply(Err(x)) && x == e,
            },
    {
        match permission {
            Err(e) => LookupAction::Reply(Err(e)),
            Ok(_) => {
                let path = match target {
                    NameTarget::Child => Self::child_path(parent_path, name),
                    _ => string_of(parent_path),
                };
                LookupAction::Fetch { path }
            },
        }
    }

    /// Lookup, third step: a fetched status is registered as a node; a
    /// missing entry is answered with the negative entry when those are
    /// cached, and any other failure is the answer.
    pub fn lookup_on_status(&self, fetched: Result<(), FuseError>) -> (r: LookupAction)
        ensures
            match fetched {
                Ok(_) => r is Register,
                Err(e) => if negative_answer(self@, e.errno) {
                    r matches LookupAction::Reply(Ok(n)) && n == negative_entry_of(self@)
                } else {
                    r matches LookupAction::Reply(Err(x)) && x == e
                },
            },
    {
        match fetched {
            Ok(_) => LookupAction::Register,
            Err(e) => {
                if self.answers_negative(e.errno) {
                    LookupAction::Reply(Ok(self.negative_entry()))
                } else {
                    LookupAction::Reply(Err(e))
                }
            },
        }
    }

    /// Lookup, last step: the registered node's attributes (with the length
    /// of a file still being written applied by the caller) are answered,
    /// cached for the configured times; a failed registration is answered
    /// as a failed fetch is.
    pub fn lookup_on_registered(&self, registered: Result<FuseAttr, FuseError>) -> (r: LookupAction)
        ensures
            match registered {
                Ok(a) => r matches LookupAction::Reply(Ok(x)) && x == entry_out_of(self@, a),
                Err(e) => if negative_answer(self@, e.errno) {
                    r matches LookupAction::Reply(Ok(n)) && n == negative_entry_of(self@)
                } else {
                    r matches LookupAction::Reply(Err(x)) && x == e
                },
            },
    {
        match registered {
            Ok(a) => LookupAction::Reply(Ok(Self::create_entry_out(&self.conf, a))),
            Err(e) => {
                if self.answers_negative(e.errno) {
                    LookupAction::Reply(Ok(self.negative_entry()))
                } else {
                    LookupAction::Reply(Err(e))
                }
            },
        }
    }

    /// The negative lookup entry: node 0, cached for the negative TTL.
    pub fn negative_entry(&self) -> (r: FuseEntryOut)
        ensures
            r == negative_entry_of(self@),
            r.nodeid == 0,
            r.generation == 0,
            r.entry_valid == self@.negative_ttl.secs,
            r.entry_valid_nsec == self@.negative_ttl.nanos,
            r.attr_valid == 0,
            r.attr_valid_nsec == 0,
            r.attr == (FuseAttr { ino: 0, size: 0, blocks: 0, atime: 0, mtime: 0, ctime: 0,
                atimensec: 0, mtimensec: 0, ctimensec: 0, mode: 0, nlink: 0, uid: 0, gid: 0,
                rdev: 0, blksize: 0, padding: 0 }),
    {
        FuseEntryOut {
            nodeid: 0,
            generation: 0,
            entry_valid: self.conf.negative_ttl.secs,
            attr_valid: 0,
            entry_valid_nsec: self.conf.negative_ttl.nanos,
            attr_valid_nsec: 0,
            attr: FuseAttr { ino: 0, size: 0, blocks: 0, atime: 0, mtime: 0, ctime: 0,
                atimensec: 0, mtimensec: 0, ctimensec: 0, mode: 0, nlink: 0, uid: 0, gid: 0,
                rdev: 0, blksize: 0, padding: 0 },
        }
    }

    /// The statistics answered for a cluster of `capacity` bytes with
    /// `available` bytes free.
    pub fn stat_fs(capacity: i64, available: i64) -> (r: FuseKstatfs)
        ensures
            r == statfs_answer(capacity, available),
    {
        let block_size: u32 = 4096;
        let total_blocks = (capacity / 4096) as u64;
        let free_blocks = (available / 4096) as u64;
        FuseKstatfs {
            blocks: total_blocks,
            bfree: free_blocks,
            bavail: free_blocks,
            files: FUSE_UNKNOWN_INODES,
            ffree: FUSE_UNKNOWN_INODES,
            bsize: block_size,
            namelen: FUSE_MAX_NAME_LENGTH as u32,
            frsize: block_size,
        }
    }

    /// Refuses names longer than the kernel's limit (in bytes).
    pub fn check_name_len(name: &str) -> (r: Result<(), FuseError>)
        ensures
            r is Err <==> name.len() > FUSE_MAX_NAME_LENGTH,
            r matches Err(e) ==> e.errno == ENAMETOOLONG,
    {
        if name.len() > FUSE_MAX_NAME_LENGTH {
            Err(FuseError::new(ENAMETOOLONG, String::new()))
        } else {
            Ok(())
        }
    }

    /// The permission bits a create or mkdir asks for (see
    /// `requested_acl_mode`).
    pub fn acl_mode(mode: u32, umask: u32) -> (r: Option<u32>)
        ensures
            r == requested_acl_mode(mode, umask),
    {
        if mode != 0 { Some(mode & 0o7777 & !umask) } else { None }
    }

    /// Validates a create request: only regular files can be created, the
    /// name must fit, and a file pending deletion cannot be recreated yet.
    pub fn check_create(mode: u32, name: &str, pending_delete: bool) -> (r: Result<(), FuseError>)
        ensures
            r is Ok <==> (is_reg(mode) && name.len() <= FUSE_MAX_NAME_LENGTH
                && !pending_delete),
            r matches Err(e) ==> e.errno == (if !is_reg(mode) {
                EIO
            } else if name.len() > FUSE_MAX_NAME_LENGTH {
                ENAMETOOLONG
            } else {
                ETXTBSY
            }),
    {
        if (mode & S_IFMT) != S_IFREG {
            return Err(FuseError::new(EIO, String::new()));
        }
        if name.len() > FUSE_MAX_NAME_LENGTH {
            return Err(FuseError::new(ENAMETOOLONG, String::new()));
        }
        if pending_delete {
            return Err(FuseError::new(ETXTBSY, string_of("file has been deleted or unlinked")));
        }
        Ok(())
    }

    /// What a mknod request creates: a regular file, a directory, or nothing
    /// (refused with `EPERM`).
    pub fn mknod_kind(mode: u32) -> (r: MknodKind)
        ensures
            r == (if is_reg(mode) {
                MknodKind::Regular
            } else if is_dir_mode(mode) {
                MknodKind::Directory
            } else {
                MknodKind::Unsupported
            }),
    {
        if (mode & S_IFMT) == S_IFREG {
            MknodKind::Regular
        } else if (mode & S_IFMT) == S_IFDIR {
            MknodKind::Directory
        } else {
            MknodKind::Unsupported
        }
    }

    /// How a mknod request is carried out (see `mknod_plan_of`); a create
    /// opens the new file with `create_flags`.
    pub fn mknod_plan(arg: &FuseMknodIn, create_flags: u32) -> (r: MknodPlan)
        ensures
            r == mknod_plan_of(*arg, create_flags),
    {
        match Self::mknod_kind(arg.mode) {
            MknodKind::Regular => MknodPlan::Create(FuseCreateIn {
                flags: create_flags,
                mode: arg.mode,
                umask: arg.umask,
                padding: arg.padding,
            }),
            MknodKind::Directory => MknodPlan::Mkdir(FuseMkdirIn { mode: arg.mode, umask: arg.umask }),
            MknodKind::Unsupported => MknodPlan::Refuse(EPERM),
        }
    }

    /// The answer to a mknod carried out as a create whose answer was
    /// `created`, once the create's handle was removed: the create's entry,
    /// field for field, or `EIO` when no handle was there to remove.
    pub fn mknod_entry(created: &FuseEntryOut, handle_removed: bool) -> (r: Result<FuseEntryOut, FuseError>)
        ensures
            r is Ok <==> handle_removed,
            r matches Ok(e) ==> e == *created,
            r matches Err(e) ==> e.errno == EIO,
    {
        if !handle_removed {
            return Err(FuseError::new(EIO, String::new()));
        }
        Ok(FuseEntryOut {
            nodeid: created.nodeid,
            generation: created.generation,
            entry_valid: created.entry_valid,
            attr_valid: created.attr_valid,
            entry_valid_nsec: created.entry_valid_nsec,
            attr_valid_nsec: created.attr_valid_nsec,
            attr: created.attr,
        })
    }

    /// The open flags answered for a file (see `file_open_flags`);
    /// `keep_cache` tells whether the kernel's page cache is still valid.
    pub fn file_open_flags(&self, flags: u32, keep_cache: bool) -> (r: u32)
        ensures
            r == file_open_flags(self@, flags, keep_cache),
    {
        if self.conf.direct_io {
            flags | FUSE_FOPEN_DIRECT_IO
        } else if keep_cache {
            flags | FUSE_FOPEN_KEEP_CACHE
        } else if self.conf.open_direct_on_stale {
            flags | FUSE_FOPEN_DIRECT_IO
        } else {
            flags
        }
    }

    /// The target of the symbolic link `status` at `path`, as bytes.
    pub fn readlink(status: &FileStatus, path: &str) -> (r: Result<Vec<u8>, FuseError>)
        ensures
            status.file_type != FileType::Link ==> (r matches Err(e) && e.errno == EINVAL
                && e.message@ == "Not a symbolic link: "@ + path@),
            status.file_type == FileType::Link && status.target is None ==> (r matches Err(e)
                && e.errno == ENODATA && e.message@ == "Symbolic link has no target: "@ + path@),
            status.file_type == FileType::Link && status.target is Some ==> (r matches Ok(b)
                && b@ == encode_utf8(status.target.unwrap()@)),
    {
        if status.file_type != FileType::Link {
            let mut m = string_of("Not a symbolic link: ");
            push_str(&mut m, path);
            return Err(FuseError::new(EINVAL, m));
        }
        match &status.target {
            Some(t) => Ok(vstd::slice::slice_to_vec(t.as_str().as_bytes())),
            None => {
                let mut m = string_of("Symbolic link has no target: ");
                push_str(&mut m, path);
                Err(FuseError::new(ENODATA, m))
            },
        }
    }

    /// The number of directory entries a readdir batch added, from the
    /// starting offset to the final index.
    pub fn entries_added(index: u64, offset: u64) -> (r: u64)
        ensures
            r == (if index >= offset { (index - offset) as u64 } else { 0 }),
    {
        index.saturating_sub(offset)
    }
}

/// A chown of a regular file never leaves the setuid bit, keeps the setgid
/// bit only when the file is not group-executable, and never keeps file type
/// bits.
pub proof fn law_chown_clears_setid(m: u32)
    ensures
        chown_mode(m) & S_ISUID == 0,
        (m & 0o010) != 0 ==> chown_mode(m) & S_ISGID == 0,
        (m & 0o010) == 0 ==> (chown_mode(m) & S_ISGID == m & S_ISGID),
        chown_mode(m) & !0o7777u32 == 0,
        chown_mode(m) & 0o777 == m & 0o777,
{
    assert(chown_mode(m) & S_ISUID == 0) by (bit_vector);
    assert((m & 0o010) != 0 ==> chown_mode(m) & S_ISGID == 0) by (bit_vector);
    assert((m & 0o010) == 0 ==> (chown_mode(m) & S_ISGID == m & S_ISGID)) by (bit_vector);
    assert(chown_mode(m) & !0o7777u32 == 0) by (bit_vector);
    assert(chown_mode(m) & 0o777 == m & 0o777) by (bit_vector);
}

/// Root, and every user of a mount without permission checks, is never
/// checked; and an empty access mask is granted whatever the bits.
pub proof fn law_permission_bypass(bits: u32)
    ensures
        grants(bits, 0),
{
}

/// The owner's bits decide for the owner, whatever the group.
pub proof fn law_owner_bits_first(mode: u32, uid: u32, gid: u32, file_gid: u32)
    ensures
        effective_bits(mode, uid, gid, uid, file_gid) == (mode >> 6) & 0o7,
{
}

/// Write-back caching is answered exactly as configured, whatever the
/// kernel proposed.
pub proof fn law_writeback_as_configured(conf: FuseConf, arg: FuseInitIn, buf_size: usize, page_size: usize)
    ensures
        conf.write_back_cache ==> init_answer(conf, arg, buf_size, page_size).flags & FUSE_WRITEBACK_CACHE != 0,
        !conf.write_back_cache ==> init_answer(conf, arg, buf_size, page_size).flags & FUSE_WRITEBACK_CACHE == 0,
{
    let f = init_answer(conf, arg, buf_size, page_size).flags;
    let wants = (arg.flags & FUSE_MAX_PAGES) != 0;
    let f1 = if wants { base_init_flags() | FUSE_MAX_PAGES } else { base_init_flags() };
    let f2 = f1 | arg.flags;
    assert(forall|x: u32| #![trigger x | 65536u32] (x | 65536u32) & 65536u32 != 0) by (bit_vector);
    assert(forall|x: u32| #![trigger x & !65536u32] (x & !65536u32) & 65536u32 == 0) by (bit_vector);
    assert(f == (if conf.write_back_cache { f2 | FUSE_WRITEBACK_CACHE } else { f2 & !FUSE_WRITEBACK_CACHE }));
}

/// Every flag the kernel proposes is answered, except write-back caching,
/// which follows the configuration.
pub proof fn law_init_keeps_kernel_flags(conf: FuseConf, arg: FuseInitIn, buf_size: usize, page_size: usize)
    ensures
        (init_answer(conf, arg, buf_size, page_size).flags & !FUSE_WRITEBACK_CACHE)
            & (arg.flags & !FUSE_WRITEBACK_CACHE) == arg.flags & !FUSE_WRITEBACK_CACHE,
{
    let wants = (arg.flags & FUSE_MAX_PAGES) != 0;
    let f1 = if wants { base_init_flags() | FUSE_MAX_PAGES } else { base_init_flags() };
    let a = arg.flags;
    assert(forall|x: u32, y: u32| #![trigger x | y] ((x | y) & !65536u32) & (y & !65536u32) == y & !65536u32) by (bit_vector);
    assert(forall|x: u32, y: u32| #![trigger (x | y) | 65536u32] (((x | y) | 65536u32) & !65536u32) & (y & !65536u32) == y & !65536u32) by (bit_vector);
    assert(forall|x: u32, y: u32| #![trigger (x | y) & !65536u32] (((x | y) & !65536u32) & !65536u32) & (y & !65536u32) == y & !65536u32) by (bit_vector);
}


/// The kind of a byte-range or whole-file lock.
#[derive(PartialEq, Eq, Structural, Clone, Copy, Debug)]
pub enum LockType {
    ReadLock,
    WriteLock,
    UnLock,
}

/// Whether a lock is a POSIX record lock or a BSD `flock`.
#[derive(PartialEq, Eq, Structural, Clone, Copy, Debug)]
pub enum LockFlags {
    Plock,
    Flock,
}

/// The lock type the kernel's lock type number denotes (`F_RDLCK` 0,
/// `F_WRLCK` 1; anything else releases).
pub open spec fn lock_type_of(typ: u8) -> LockType {
    if typ == 0 { LockType::ReadLock } else if typ == 1 { LockType::WriteLock } else { LockType::UnLock }
}

/// The kernel's number for a lock type.
pub open spec fn lock_type_number(t: LockType) -> u32 {
    match t {
        LockType::ReadLock => 0,
        LockType::WriteLock => 1,
        LockType::UnLock => 2,
    }
}

/// The lock flavour the kernel's lock flags denote (`FUSE_LK_FLOCK` is 1).
pub open spec fn lock_flags_of(flags: u8) -> LockFlags {
    if flags & 1 != 0 { LockFlags::Flock } else { LockFlags::Plock }
}

/// A lock as the kernel describes it.
#[derive(PartialEq, Eq, Structural, Clone, Copy, Debug)]
pub struct FuseFileLock {
    pub start: u64,
    pub end: u64,
    pub typ: u32,
    pub pid: u32,
}

/// A lock request from the kernel.
#[derive(PartialEq, Eq, Structural, Clone, Copy, Debug)]
pub struct FuseLkIn {
    pub fh: u64,
    pub owner: u64,
    pub lk: FuseFileLock,
    pub lk_flags: u32,
}

/// A lock as the metadata service keeps it.
#[derive(Debug)]
pub struct FileLock {
    pub client_id: String,
    pub owner_id: u64,
    pub pid: u32,
    pub lock_type: LockType,
    pub lock_flags: LockFlags,
    pub start: u64,
    pub end: u64,
}

fn lock_type_from(typ: u8) -> (r: LockType)
    ensures
        r == lock_type_of(typ),
{
    if typ == 0 { LockType::ReadLock } else if typ == 1 { LockType::WriteLock } else { LockType::UnLock }
}

fn lock_number(t: LockType) -> (r: u32)
    ensures
        r == lock_type_number(t),
{
    match t {
        LockType::ReadLock => 0,
        LockType::WriteLock => 1,
        LockType::UnLock => 2,
    }
}

/// The status list of a directory as `readdir` answers it: `.` and `..`
/// first, then the listed entries in order.
pub fn with_dot_entries(list: Vec<FileStatus>) -> (r: Vec<FileStatus>)
    ensures
        r@.len() == list@.len() + 2,
        r@[0].name@ == FUSE_CURRENT_DIR@ && r@[0].is_dir && r@[0].id == FUSE_UNKNOWN_INO as i64,
        r@[1].name@ == FUSE_PARENT_DIR@ && r@[1].is_dir && r@[1].id == FUSE_UNKNOWN_INO as i64,
        forall|i: int| 0 <= i < list@.len() ==> r@[i + 2] == list@[i],
{
    let mut res: Vec<FileStatus> = Vec::new();
    res.push(CurvineFileSystem::new_dot_status(FUSE_CURRENT_DIR));
    res.push(CurvineFileSystem::new_dot_status(FUSE_PARENT_DIR));
    let mut rest = list;
    let ghost orig = rest@;
    let mut tail: Vec<FileStatus> = Vec::new();
    // Move the entries over, keeping their order.
    while rest.len() > 0
        invariant
            tail@ + rest@ == orig,
        decreases rest@.len(),
    {
        let s = rest.remove(0);
        tail.push(s);
        assert(tail@ + rest@ =~= orig);
    }
    let ghost head = res@;
    res.append(&mut tail);
    assert(res@ =~= head + orig);
    res
}

/// The parent of an absolute path: everything before the last `/` (the root
/// for a top-level entry); the root itself and relative names have none.
pub open spec fn parent_of(p: Seq<char>) -> Option<Seq<char>> {
    if p.len() <= 1 || !p.contains('/') {
        None
    } else {
        let i = last_slash(p);
        if i == 0 { Some("/"@) } else { Some(p.take(i)) }
    }
}

/// The index of the last `/` in `p`, or -1.
pub open spec fn last_slash(p: Seq<char>) -> int
    decreases p.len(),
{
    if p.len() == 0 {
        -1
    } else if p.last() == '/' {
        p.len() - 1
    } else {
        last_slash(p.drop_last())
    }
}

proof fn lemma_last_slash(p: Seq<char>)
    ensures
        -1 <= last_slash(p) < p.len(),
        last_slash(p) >= 0 ==> p[last_slash(p)] == '/',
        last_slash(p) == -1 <==> !p.contains('/'),
    decreases p.len(),
{
    if p.len() > 0 {
        lemma_last_slash(p.drop_last());
        if p.last() != '/' {
            if last_slash(p.drop_last()) == -1 {
                assert forall|i: int| 0 <= i < p.len() implies p[i] != '/' by {
                    if i < p.len() - 1 {
                        assert(p.drop_last()[i] == p[i]);
                    }
                }
            } else {
                assert(p[last_slash(p)] == p.drop_last()[last_slash(p)]);
            }
        } else {
            assert(p[p.len() - 1] == '/');
        }
    }
}

impl CurvineFileSystem {
    /// The lock a lock request asks the metadata service for, on behalf of
    /// this client (`client_id`).
    pub fn to_file_lock(client_id: &str, arg: &FuseLkIn) -> (r: FileLock)
        ensures
            r.client_id@ == client_id@,
            r.owner_id == arg.owner,
            r.pid == arg.lk.pid,
            r.lock_type == lock_type_of(arg.lk.typ as u8),
            r.lock_flags == lock_flags_of(arg.lk_flags as u8),
            r.start == arg.lk.start,
            r.end == arg.lk.end,
    {
        let f = arg.lk_flags as u8;
        FileLock {
            client_id: string_of(client_id),
            owner_id: arg.owner,
            pid: arg.lk.pid,
            lock_type: lock_type_from(arg.lk.typ as u8),
            lock_flags: if f & 1 != 0 { LockFlags::Flock } else { LockFlags::Plock },
            start: arg.lk.start,
            end: arg.lk.end,
        }
    }

    /// The release of the locks `owner_id` holds with flavour `flags`: a
    /// POSIX release covers the whole file.
    pub fn unlock_request(client_id: &str, owner_id: u64, flags: LockFlags) -> (r: FileLock)
        ensures
            r.client_id@ == client_id@,
            r.owner_id == owner_id,
            r.lock_type == LockType::UnLock,
            r.lock_flags == flags,
            r.pid == 0,
            r.start == 0,
            r.end == (if flags == LockFlags::Plock { u64::MAX } else { 0 }),
    {
        FileLock {
            client_id: string_of(client_id),
            owner_id,
            pid: 0,
            lock_type: LockType::UnLock,
            lock_flags: flags,
            start: 0,
            end: if flags == LockFlags::Plock { u64::MAX } else { 0 },
        }
    }

    /// The answer to a lock query: the conflicting lock (its pid only when it
    /// belongs to this client), or "unlocked" when nothing conflicts.
    pub fn get_lk_reply(client_id: &str, conflict: Option<FileLock>) -> (r: FuseFileLock)
        ensures
            match conflict {
                Some(lk) => r == (FuseFileLock {
                    start: lk.start,
                    end: lk.end,
                    typ: lock_type_number(lk.lock_type),
                    pid: if lk.client_id@ == client_id@ { lk.pid } else { 0 },
                }),
                None => r == (FuseFileLock { start: 0, end: 0, typ: 2, pid: 0 }),
            },
    {
        match conflict {
            Some(lk) => {
                let same = crate::units::chars_eq(&chars_of(client_id), &chars_of(lk.client_id.as_str()));
                FuseFileLock {
                    start: lk.start,
                    end: lk.end,
                    typ: lock_number(lk.lock_type),
                    pid: if same { lk.pid } else { 0 },
                }
            },
            None => FuseFileLock { start: 0, end: 0, typ: 2, pid: 0 },
        }
    }

    /// How long a blocking lock request sleeps before its `ticks`-th retry:
    /// the minimum interval times the tick count, capped at the maximum.
    pub fn lock_wait_ms(ticks: u64, min_ms: u64, max_ms: u64) -> (r: u64)
        requires
            min_ms * ticks <= u64::MAX,
        ensures
            r == (if max_ms <= min_ms * ticks { max_ms as int } else { min_ms * ticks }),
    {
        let grown = min_ms * ticks;
        if max_ms <= grown { max_ms } else { grown }
    }

    /// Whether a blocking lock request logs that it is still waiting at tick
    /// `ticks`: every `log_ticks` ticks.
    pub fn logs_lock_wait(ticks: u64, log_ticks: u64) -> (r: bool)
        requires
            log_ticks > 0,
        ensures
            r == (ticks % log_ticks == 0),
    {
        ticks % log_ticks == 0
    }

    /// The metadata cache entries a mutation of `path` invalidates: the
    /// path's status and its parent's listing; nothing when the cache is off.
    pub fn invalidation_targets(&self, path: &str) -> (r: Option<(String, Option<String>)>)
        ensures
            !self@.enable_meta_cache ==> r is None,
            self@.enable_meta_cache ==> (r matches Some((p, parent)) && p@ == path@
                && opt_view(parent) == parent_of(path@)),
    {
        if !self.conf.enable_meta_cache {
            return None;
        }
        let cs = chars_of(path);
        let n = cs.len();
        let mut i: usize = n;
        let mut found = false;
        assert(path@.take(n as int) =~= path@);
        while i > 0 && !found
            invariant
                cs@ == path@,
                n == cs@.len(),
                i <= n,
                found ==> i < n && cs@[i as int] == '/' && last_slash(path@) == i,
                !found ==> last_slash(path@) == last_slash(path@.take(i as int)),
            decreases i + (if found { 0int } else { 1int }),
        {
            if cs[i - 1] == '/' {
                i = i - 1;
                found = true;
                assert(path@.take(i + 1).last() == '/');
            } else {
                assert(path@.take(i as int).drop_last() =~= path@.take(i - 1));
                i = i - 1;
            }
        }
        proof {
            lemma_last_slash(path@);
            if !found {
                assert(path@.take(0) =~= Seq::<char>::empty());
            }
        }
        let parent = if n <= 1 || !found {
            None
        } else if i == 0 {
            Some(string_of("/"))
        } else {
            let mut p = String::new();
            let mut k: usize = 0;
            while k < i
                invariant
                    k <= i < n,
                    cs@ == path@,
                    n == cs@.len(),
                    p@ == path@.take(k as int),
                decreases i - k,
            {
                crate::text::push_char(&mut p, cs[k]);
                k = k + 1;
                assert(p@ =~= path@.take(k as int));
            }
            Some(p)
        };
        Some((string_of(path), parent))
    }
}


/// A mknod goes to create exactly for regular files, to mkdir exactly for
/// directories, and is refused with `EPERM` otherwise; the create it makes
/// always passes create's own check on the mode, and carries the request's
/// mode and umask unchanged, as the mkdir does.
pub proof fn law_mknod_follows_mode(arg: FuseMknodIn, create_flags: u32)
    ensures
        mknod_plan_of(arg, create_flags) is Create <==> is_reg(arg.mode),
        mknod_plan_of(arg, create_flags) is Mkdir <==> (!is_reg(arg.mode) && is_dir_mode(arg.mode)),
        mknod_plan_of(arg, create_flags) is Refuse <==> (!is_reg(arg.mode) && !is_dir_mode(arg.mode)),
        mknod_plan_of(arg, create_flags) matches MknodPlan::Create(c) ==> (is_reg(c.mode)
            && c.mode == arg.mode && c.umask == arg.umask && c.flags == create_flags),
        mknod_plan_of(arg, create_flags) matches MknodPlan::Mkdir(m) ==> (m.mode == arg.mode
            && m.umask == arg.umask),
        mknod_plan_of(arg, create_flags) matches MknodPlan::Refuse(e) ==> e == EPERM,
{
}


/// The owner, group and mode reported for any file are the ones the
/// resolution rules give: the owner and group resolved from their names
/// (as `resolve_file_uid` and `resolve_file_gid` answer), and the file's own
/// permission bits, or the default ones under the umask when it has none,
/// tagged with its type.
pub proof fn law_attr_follows_resolution(
    conf: FuseConf,
    status: FileStatus,
    owner_by_name: Option<u32>,
    group_by_name: Option<u32>,
)
    ensures
        attr_of(conf, status, owner_by_name, group_by_name).uid
            == resolved_id(status.owner@, conf.uid, owner_by_name),
        attr_of(conf, status, owner_by_name, group_by_name).gid
            == resolved_id(status.group@, conf.gid, group_by_name),
        attr_of(conf, status, owner_by_name, group_by_name).mode == typed_mode(
            if status.mode != 0 { status.mode } else { FUSE_DEFAULT_MODE & !conf.umask },
            status.file_type,
        ),
{
}


/// A setattr that truncated the file reports the new length (and the blocks
/// it takes), under the node id of the request, whatever the status said.
pub proof fn law_setattr_reports_truncation(
    conf: FuseConf,
    status: FileStatus,
    new_len: i64,
    nodeid: u64,
    owner_by_name: Option<u32>,
    group_by_name: Option<u32>,
)
    ensures
        setattr_answer(conf, status, Some(new_len), nodeid, owner_by_name, group_by_name).attr.size
            == new_len as u64,
        setattr_answer(conf, status, Some(new_len), nodeid, owner_by_name, group_by_name).attr.blocks
            == trunc_div(new_len + 511, 512) as u64,
        setattr_answer(conf, status, Some(new_len), nodeid, owner_by_name, group_by_name).attr.ino == nodeid,
        setattr_answer(conf, status, None, nodeid, owner_by_name, group_by_name).attr.size
            == status.len as u64,
{
}


/// The session answer echoes the kernel's protocol version, hands the
/// configured background limits to the kernel unchanged, allows writes of
/// the buffer less its header, never lowers the kernel's readahead (and
/// keeps it when none is configured), and reports time to the nanosecond.
pub proof fn law_init_negotiation(conf: FuseConf, arg: FuseInitIn, buf_size: usize, page_size: usize)
    requires
        buf_size > FUSE_BUFFER_HEADER_SIZE,
        page_size > 0,
    ensures
        init_answer(conf, arg, buf_size, page_size).max_background == conf.max_background,
        init_answer(conf, arg, buf_size, page_size).congestion_threshold == conf.congestion_threshold,
        init_answer(conf, arg, buf_size, page_size).major == arg.major,
        init_answer(conf, arg, buf_size, page_size).minor == arg.minor,
        buf_size - FUSE_BUFFER_HEADER_SIZE <= u32::MAX ==>
            init_answer(conf, arg, buf_size, page_size).max_write + FUSE_BUFFER_HEADER_SIZE == buf_size,
        init_answer(conf, arg, buf_size, page_size).max_readahead >= arg.max_readahead,
        conf.max_readahead_kb is None ==> init_answer(conf, arg, buf_size, page_size).max_readahead
            == arg.max_readahead,
        init_answer(conf, arg, buf_size, page_size).time_gran == 1,
{
}

/// A time in milliseconds, clamped at 0, is reported as whole seconds and
/// the nanoseconds of the remaining milliseconds.
pub open spec fn reports_ms_time(ms: i64, secs: u64, nsecs: u32) -> bool {
    let t: int = if ms < 0 { 0 } else { ms as int };
    &&& secs as int * 1000 + nsecs as int / 1_000_000 == t
    &&& nsecs % 1_000_000 == 0
    &&& nsecs < 1_000_000_000
}

proof fn lemma_ms_split(t: int)
    requires
        0 <= t <= i64::MAX,
    ensures
        reports_ms_time(t as i64, (t / 1000) as u64, ((t % 1000) * 1_000_000) as u32),
{
    assert(t == 1000 * (t / 1000) + t % 1000) by (nonlinear_arith)
        requires 0 <= t;
    assert(0 <= t % 1000 < 1000) by (nonlinear_arith)
        requires 0 <= t;
    assert(0 <= t / 1000 <= t) by (nonlinear_arith)
        requires 0 <= t;
    let r = t % 1000;
    assert((r * 1_000_000) / 1_000_000 == r) by (nonlinear_arith)
        requires 0 <= r < 1000;
    assert((r * 1_000_000) % 1_000_000 == 0) by (nonlinear_arith)
        requires 0 <= r < 1000;
    assert(0 <= r * 1_000_000 < 1_000_000_000) by (nonlinear_arith)
        requires 0 <= r < 1000;
}

/// The access, modification and change times are reported as the status's
/// millisecond times (negative ones as 0) split into seconds and
/// nanoseconds; the change time is the modification time.
pub proof fn law_attr_times_split_ms(
    conf: FuseConf,
    status: FileStatus,
    owner_by_name: Option<u32>,
    group_by_name: Option<u32>,
)
    ensures
        reports_ms_time(status.atime, attr_of(conf, status, owner_by_name, group_by_name).atime,
            attr_of(conf, status, owner_by_name, group_by_name).atimensec),
        reports_ms_time(status.mtime, attr_of(conf, status, owner_by_name, group_by_name).mtime,
            attr_of(conf, status, owner_by_name, group_by_name).mtimensec),
        reports_ms_time(status.mtime, attr_of(conf, status, owner_by_name, group_by_name).ctime,
            attr_of(conf, status, owner_by_name, group_by_name).ctimensec),
{
    let at: int = if status.atime < 0 { 0 } else { status.atime as int };
    let mt: int = if status.mtime < 0 { 0 } else { status.mtime as int };
    lemma_ms_split(at);
    lemma_ms_split(mt);
}

/// Each access kind is granted by its own permission bit: read by `4`,
/// write by `2`, execute (search) by `1`; asking for all three needs all
/// three bits; asking for nothing is always granted. A caller who is neither
/// the owner nor in the group gets the last octal digit of the mode.
pub proof fn law_permission_bits(bits: u32, mode: u32, uid: u32, gid: u32, file_uid: u32, file_gid: u32)
    ensures
        grants(bits, R_OK) <==> (bits & 4) != 0,
        grants(bits, W_OK) <==> (bits & 2) != 0,
        grants(bits, X_OK) <==> (bits & 1) != 0,
        grants(bits, R_OK | W_OK | X_OK) <==> (bits & 7) == 7,
        grants(bits, 0),
        (uid != file_uid && gid != file_gid) ==> (grants(effective_bits(mode, uid, gid, file_uid, file_gid), X_OK)
            <==> (mode & 1) != 0),
        uid == file_uid ==> (grants(effective_bits(mode, uid, gid, file_uid, file_gid), X_OK)
            <==> (mode & 0o100) != 0),
{
    assert((4u32 & 4u32) != 0 && (4u32 & 2u32) == 0 && (4u32 & 1u32) == 0) by (bit_vector);
    assert((2u32 & 4u32) == 0 && (2u32 & 2u32) != 0 && (2u32 & 1u32) == 0) by (bit_vector);
    assert((1u32 & 4u32) == 0 && (1u32 & 2u32) == 0 && (1u32 & 1u32) != 0) by (bit_vector);
    assert((4u32 | 2u32 | 1u32) == 7u32) by (bit_vector);
    assert(((7u32 & 4u32) != 0) && ((7u32 & 2u32) != 0) && ((7u32 & 1u32) != 0)) by (bit_vector);
    assert(((bits & 4) != 0 && (bits & 2) != 0 && (bits & 1) != 0) <==> (bits & 7) == 7) by (bit_vector);
    assert(((mode & 0o7) & 1) == (mode & 1)) by (bit_vector);
    assert((((mode >> 6) & 0o7) & 1) != 0 <==> (mode & 0o100) != 0) by (bit_vector);
}

/// The kernel's lock numbers `F_RDLCK` (0), `F_WRLCK` (1) and `F_UNLCK` (2)
/// read as a read lock, a write lock and an unlock, and each lock type is
/// answered back to the kernel with the number it was read from.
pub proof fn law_lock_numbers_roundtrip(typ: u8, t: LockType)
    ensures
        typ <= 2 ==> lock_type_number(lock_type_of(typ)) == typ,
        lock_type_of(lock_type_number(t) as u8) == t,
        lock_type_of(typ) == LockType::ReadLock <==> typ == 0,
        lock_type_of(typ) == LockType::WriteLock <==> typ == 1,
        lock_type_number(LockType::UnLock) == 2,
{
}

} // verus!
