//! Error values of the file system client and their classification.

use vstd::prelude::*;
use crate::text::{has_substring, str_contains, to_lowercase, unicode_lowercase, string_of,
    push_str, push_decimal, decimal};

verus! {

/// The detail carried by every error: its rendered message.
#[derive(Debug)]
pub struct ErrorImpl {
    pub message: String,
}

impl ErrorImpl {
    /// An error whose message is `message`.
    pub fn new(message: &str) -> (r: ErrorImpl)
        ensures
            r.message@ == message@,
    {
        ErrorImpl { message: string_of(message) }
    }

    /// An error built from a source error; the message is the source's
    /// `to_string()`.
    pub fn with_source<E: core::fmt::Display>(source: E) -> (r: ErrorImpl)
        ensures
            vstd::string::to_string_from_display_ensures::<E>(&source, r.message),
    {
        ErrorImpl { message: source.to_string() }
    }
}

/// The error kinds of the file system.
#[derive(PartialEq, Eq, Structural, Clone, Copy, Debug)]
pub enum ErrorKind {
    IO,
    NotLeaderMaster,
    Raft,
    Timeout,
    PBDecode,
    PBEncode,
    FileAlreadyExists,
    FileNotFound,
    InvalidFileSize,
    ParentNotDir,
    DirNotEmpty,
    AbnormalData,
    BlockIsWriting,
    BlockInfo,
    Lease,
    InvalidPath,
    DiskOutOfSpace,
    InProgress,
    Unsupported,
    Ufs,
    Expired,
    Common,
    Pipeline,
}

/// An error of the file system client.
#[derive(Debug)]
pub enum FsError {
    IO(ErrorImpl),
    NotLeaderMaster(ErrorImpl),
    Raft(ErrorImpl),
    Timeout(ErrorImpl),
    PBDecode(ErrorImpl),
    PBEncode(ErrorImpl),
    FileAlreadyExists(ErrorImpl),
    FileNotFound(ErrorImpl),
    InvalidFileSize(ErrorImpl),
    ParentNotDir(ErrorImpl),
    DirNotEmpty(ErrorImpl),
    AbnormalData(ErrorImpl),
    BlockIsWriting(ErrorImpl),
    BlockInfo(ErrorImpl),
    Lease(ErrorImpl),
    InvalidPath(ErrorImpl),
    DiskOutOfSpace(ErrorImpl),
    InProgress(ErrorImpl),
    Unsupported(ErrorImpl),
    Ufs(ErrorImpl),
    Expired(ErrorImpl),
    Common(ErrorImpl),
    Pipeline(ErrorImpl),
}

/// The kind of an error.
pub open spec fn kind_of(e: FsError) -> ErrorKind {
    match e {
        FsError::IO(_) => ErrorKind::IO,
        FsError::NotLeaderMaster(_) => ErrorKind::NotLeaderMaster,
        FsError::Raft(_) => ErrorKind::Raft,
        FsError::Timeout(_) => ErrorKind::Timeout,
        FsError::PBDecode(_) => ErrorKind::PBDecode,
        FsError::PBEncode(_) => ErrorKind::PBEncode,
        FsError::FileAlreadyExists(_) => ErrorKind::FileAlreadyExists,
        FsError::FileNotFound(_) => ErrorKind::FileNotFound,
        FsError::InvalidFileSize(_) => ErrorKind::InvalidFileSize,
        FsError::ParentNotDir(_) => ErrorKind::ParentNotDir,
        FsError::DirNotEmpty(_) => ErrorKind::DirNotEmpty,
        FsError::AbnormalData(_) => ErrorKind::AbnormalData,
        FsError::BlockIsWriting(_) => ErrorKind::BlockIsWriting,
        FsError::BlockInfo(_) => ErrorKind::BlockInfo,
        FsError::Lease(_) => ErrorKind::Lease,
        FsError::InvalidPath(_) => ErrorKind::InvalidPath,
        FsError::DiskOutOfSpace(_) => ErrorKind::DiskOutOfSpace,
        FsError::InProgress(_) => ErrorKind::InProgress,
        FsError::Unsupported(_) => ErrorKind::Unsupported,
        FsError::Ufs(_) => ErrorKind::Ufs,
        FsError::Expired(_) => ErrorKind::Expired,
        FsError::Common(_) => ErrorKind::Common,
        FsError::Pipeline(_) => ErrorKind::Pipeline,
    }
}

/// The detail of an error.
pub open spec fn detail_of(e: FsError) -> ErrorImpl {
    match e {
        FsError::IO(d) => d,
        FsError::NotLeaderMaster(d) => d,
        FsError::Raft(d) => d,
        FsError::Timeout(d) => d,
        FsError::PBDecode(d) => d,
        FsError::PBEncode(d) => d,
        FsError::FileAlreadyExists(d) => d,
        FsError::FileNotFound(d) => d,
        FsError::InvalidFileSize(d) => d,
        FsError::ParentNotDir(d) => d,
        FsError::DirNotEmpty(d) => d,
        FsError::AbnormalData(d) => d,
        FsError::BlockIsWriting(d) => d,
        FsError::BlockInfo(d) => d,
        FsError::Lease(d) => d,
        FsError::InvalidPath(d) => d,
        FsError::DiskOutOfSpace(d) => d,
        FsError::InProgress(d) => d,
        FsError::Unsupported(d) => d,
        FsError::Ufs(d) => d,
        FsError::Expired(d) => d,
        FsError::Common(d) => d,
        FsError::Pipeline(d) => d,
    }
}

/// A message names a transport failure of a worker connection.
pub open spec fn names_transport_failure(lower: Seq<char>) -> bool {
    ||| has_substring(lower, "connection refused"@)
    ||| has_substring(lower, "connection reset"@)
    ||| has_substring(lower, "early eof"@)
    ||| has_substring(lower, "broken pipe"@)
    ||| has_substring(lower, "sender dropped"@)
}

/// An error is caused by an unavailable worker: an IO, pipeline or timeout
/// error, or a common error whose lowercase message names a transport failure.
pub open spec fn is_worker_failure(e: FsError) -> bool {
    match e {
        FsError::IO(_) => true,
        FsError::Pipeline(_) => true,
        FsError::Timeout(_) => true,
        FsError::Common(d) => names_transport_failure(unicode_lowercase(d.message@)),
        _ => false,
    }
}

/// Python exception classes that errors map to.
#[derive(PartialEq, Eq, Structural, Clone, Copy, Debug)]
pub enum PyErrClass {
    IOError,
    Exception,
    TimeoutError,
    ConnectionError,
    FileExistsError,
    FileNotFoundError,
    ValueError,
    NotADirectoryError,
    BlockingIOError,
}

/// The Python exception class raised for an error kind.
pub open spec fn py_class_of(k: ErrorKind) -> PyErrClass {
    match k {
        ErrorKind::IO => PyErrClass::IOError,
        ErrorKind::Timeout => PyErrClass::TimeoutError,
        ErrorKind::PBDecode => PyErrClass::ConnectionError,
        ErrorKind::PBEncode => PyErrClass::ConnectionError,
        ErrorKind::FileAlreadyExists => PyErrClass::FileExistsError,
        ErrorKind::FileNotFound => PyErrClass::FileNotFoundError,
        ErrorKind::InvalidFileSize => PyErrClass::ValueError,
        ErrorKind::ParentNotDir => PyErrClass::NotADirectoryError,
        ErrorKind::DirNotEmpty => PyErrClass::IOError,
        ErrorKind::AbnormalData => PyErrClass::ValueError,
        ErrorKind::BlockIsWriting => PyErrClass::BlockingIOError,
        ErrorKind::BlockInfo => PyErrClass::BlockingIOError,
        ErrorKind::InvalidPath => PyErrClass::ValueError,
        ErrorKind::Expired => PyErrClass::IOError,
        _ => PyErrClass::Exception,
    }
}

impl FsError {
    /// A common error with the given message.
    pub fn common(msg: &str) -> (r: FsError)
        ensures
            r matches FsError::Common(d) && d.message@ == msg@,
    {
        FsError::Common(ErrorImpl::new(msg))
    }

    /// The error a non-leader master answers with.
    pub fn not_leader(msg: &str) -> (r: FsError)
        ensures
            r matches FsError::NotLeaderMaster(d) && d.message@ == msg@,
    {
        FsError::NotLeaderMaster(ErrorImpl::new(msg))
    }

    /// The error for a missing file.
    pub fn file_not_found(path: &str) -> (r: FsError)
        ensures
            r matches FsError::FileNotFound(d) && d.message@ == path@,
    {
        FsError::FileNotFound(ErrorImpl::new(path))
    }

    /// A failure of the write/read pipeline towards worker `worker_id`; the
    /// message is the worker id, `": "` and `msg`.
    pub fn pipeline_error(worker_id: u64, msg: &str) -> (r: FsError)
        ensures
            r matches FsError::Pipeline(d) && d.message@ == decimal(worker_id as nat) + ": "@ + msg@,
    {
        let mut s = String::new();
        push_decimal(&mut s, worker_id);
        push_str(&mut s, ": ");
        push_str(&mut s, msg);
        FsError::Pipeline(ErrorImpl { message: s })
    }

    /// The kind of this error.
    pub fn kind(&self) -> (k: ErrorKind)
        ensures
            k == kind_of(*self),
    {
        match self {
            FsError::IO(_) => ErrorKind::IO,
            FsError::NotLeaderMaster(_) => ErrorKind::NotLeaderMaster,
            FsError::Raft(_) => ErrorKind::Raft,
            FsError::Timeout(_) => ErrorKind::Timeout,
            FsError::PBDecode(_) => ErrorKind::PBDecode,
            FsError::PBEncode(_) => ErrorKind::PBEncode,
            FsError::FileAlreadyExists(_) => ErrorKind::FileAlreadyExists,
            FsError::FileNotFound(_) => ErrorKind::FileNotFound,
            FsError::InvalidFileSize(_) => ErrorKind::InvalidFileSize,
            FsError::ParentNotDir(_) => ErrorKind::ParentNotDir,
            FsError::DirNotEmpty(_) => ErrorKind::DirNotEmpty,
            FsError::AbnormalData(_) => ErrorKind::AbnormalData,
            FsError::BlockIsWriting(_) => ErrorKind::BlockIsWriting,
            FsError::BlockInfo(_) => ErrorKind::BlockInfo,
            FsError::Lease(_) => ErrorKind::Lease,
            FsError::InvalidPath(_) => ErrorKind::InvalidPath,
            FsError::DiskOutOfSpace(_) => ErrorKind::DiskOutOfSpace,
            FsError::InProgress(_) => ErrorKind::InProgress,
            FsError::Unsupported(_) => ErrorKind::Unsupported,
            FsError::Ufs(_) => ErrorKind::Ufs,
            FsError::Expired(_) => ErrorKind::Expired,
            FsError::Common(_) => ErrorKind::Common,
            FsError::Pipeline(_) => ErrorKind::Pipeline,
        }
    }

    /// The detail of this error.
    pub fn detail(&self) -> (d: &ErrorImpl)
        ensures
            *d == detail_of(*self),
    {
        match self {
            FsError::IO(d) => d,
            FsError::NotLeaderMaster(d) => d,
            FsError::Raft(d) => d,
            FsError::Timeout(d) => d,
            FsError::PBDecode(d) => d,
            FsError::PBEncode(d) => d,
            FsError::FileAlreadyExists(d) => d,
            FsError::FileNotFound(d) => d,
            FsError::InvalidFileSize(d) => d,
            FsError::ParentNotDir(d) => d,
            FsError::DirNotEmpty(d) => d,
            FsError::AbnormalData(d) => d,
            FsError::BlockIsWriting(d) => d,
            FsError::BlockInfo(d) => d,
            FsError::Lease(d) => d,
            FsError::InvalidPath(d) => d,
            FsError::DiskOutOfSpace(d) => d,
            FsError::InProgress(d) => d,
            FsError::Unsupported(d) => d,
            FsError::Ufs(d) => d,
            FsError::Expired(d) => d,
            FsError::Common(d) => d,
            FsError::Pipeline(d) => d,
        }
    }

    /// The rendered message of this error.
    pub fn to_string(&self) -> (s: String)
        ensures
            s@ == detail_of(*self).message@,
    {
        self.detail().message.clone()
    }

    /// The Python exception class this error is raised as.
    pub fn py_err_class(&self) -> (c: PyErrClass)
        ensures
            c == py_class_of(kind_of(*self)),
    {
        match self.kind() {
            ErrorKind::IO => PyErrClass::IOError,
            ErrorKind::Timeout => PyErrClass::TimeoutError,
            ErrorKind::PBDecode => PyErrClass::ConnectionError,
            ErrorKind::PBEncode => PyErrClass::ConnectionError,
            ErrorKind::FileAlreadyExists => PyErrClass::FileExistsError,
            ErrorKind::FileNotFound => PyErrClass::FileNotFoundError,
            ErrorKind::InvalidFileSize => PyErrClass::ValueError,
            ErrorKind::ParentNotDir => PyErrClass::NotADirectoryError,
            ErrorKind::DirNotEmpty => PyErrClass::IOError,
            ErrorKind::AbnormalData => PyErrClass::ValueError,
            ErrorKind::BlockIsWriting => PyErrClass::BlockingIOError,
            ErrorKind::BlockInfo => PyErrClass::BlockingIOError,
            ErrorKind::InvalidPath => PyErrClass::ValueError,
            ErrorKind::Expired => PyErrClass::IOError,
            _ => PyErrClass::Exception,
        }
    }
}

/// Whether `e` was caused by an unavailable worker (IO, pipeline, timeout, or
/// a common error wrapping a connection-level failure). Such errors trigger the
/// fallback to the under file system; other kinds, such as a master that is
/// not the leader, do not.
pub fn is_worker_err(e: &FsError) -> (r: bool)
    ensures
        r == is_worker_failure(*e),
{
    match e {
        FsError::IO(_) => true,
        FsError::Pipeline(_) => true,
        FsError::Timeout(_) => true,
        FsError::Common(d) => {
            let lower = to_lowercase(d.message.as_str());
            is_transport_failure(lower.as_str())
        },
        _ => false,
    }
}

/// Whether an already lowercased error message names a connection-level
/// failure: a refused or reset connection, an early end of stream, a broken
/// pipe or a dropped sender.
pub fn is_transport_failure(lower: &str) -> (r: bool)
    ensures
        r == names_transport_failure(lower@),
{
    str_contains(lower, "connection refused")
        || str_contains(lower, "connection reset")
        || str_contains(lower, "early eof")
        || str_contains(lower, "broken pipe")
        || str_contains(lower, "sender dropped")
}

} // verus!
