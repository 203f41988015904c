//! The reader that falls back from Curvine workers to the under file system
//! (UFS) when a worker becomes unavailable.
//!
//! The reader keeps the Curvine reader as the metadata authority. On the first
//! worker failure it switches to a UFS reader, and from then on every read goes
//! through the UFS reader until the reader is completed. In FsMode (Curvine is
//! the authority and the UFS holds a flushed copy) the switch is only allowed
//! when the UFS copy matches the snapshot Curvine recorded at the last flush;
//! in CacheMode (the UFS is the authority) nothing is validated.
//!
//! The I/O itself (reading chunks, opening and seeking the UFS reader) is done
//! by the caller; this type decides what to do and keeps the readers' state.

use vstd::prelude::*;
use crate::errors::{FsError, ErrorImpl, is_worker_err, is_worker_failure};
use crate::state::{FileBlocks, FileStatus, ufs_consistent};
use crate::text::{string_of, push_str};

verus! {

/// The position and size bookkeeping of one underlying reader.
#[derive(PartialEq, Eq, Structural, Clone, Copy, Debug)]
pub struct ReaderCursor {
    pub pos: i64,
    pub len: i64,
    pub chunk_size: usize,
}

/// The state of the Curvine reader a fallback reader is built on.
#[derive(Debug)]
pub struct FsReaderState {
    pub path: String,
    pub blocks: FileBlocks,
    pub cursor: ReaderCursor,
}

/// The reader that is currently serving reads.
#[derive(PartialEq, Eq, Structural, Clone, Copy, Debug)]
pub enum ReadSource {
    Curvine,
    Ufs,
}

/// What to do after the Curvine reader failed.
#[derive(Debug)]
pub enum FallbackPlan {
    /// Hand this error to the caller: the Curvine error itself when it is not
    /// a worker failure, or the refusal of an FsMode fallback for a file that
    /// was never flushed.
    Fail(FsError),
    /// A worker failure: open the UFS reader and seek it to `pos`; when
    /// `validate` holds, check the UFS copy's consistency first.
    Fallback { pos: i64, validate: bool },
}

/// The abstract state of a fallback reader.
pub struct FallbackView {
    pub path: Seq<char>,
    pub blocks: FileBlocks,
    pub cv: ReaderCursor,
    pub ufs: Option<ReaderCursor>,
    pub ufs_path: Seq<char>,
    pub is_fs_mode: bool,
}

/// A Curvine reader that falls back to the under file system.
#[derive(Debug)]
pub struct FallbackFsReader {
    cv_path: String,
    cv_blocks: FileBlocks,
    cv: ReaderCursor,
    ufs: Option<ReaderCursor>,
    ufs_path: String,
    is_fs_mode: bool,
}

impl View for FallbackFsReader {
    type V = FallbackView;

    closed spec fn view(&self) -> FallbackView {
        FallbackView {
            path: self.cv_path@,
            blocks: self.cv_blocks,
            cv: self.cv,
            ufs: self.ufs,
            ufs_path: self.ufs_path@,
            is_fs_mode: self.is_fs_mode,
        }
    }
}

/// The cursor of the reader that serves reads.
pub open spec fn active_cursor(v: FallbackView) -> ReaderCursor {
    match v.ufs {
        Some(u) => u,
        None => v.cv,
    }
}

/// The reader that serves reads.
pub open spec fn source_of(v: FallbackView) -> ReadSource {
    if v.ufs is Some { ReadSource::Ufs } else { ReadSource::Curvine }
}

/// The file length a reader reports: the live UFS length once CacheMode has
/// fallen back (the UFS is authoritative there), Curvine's length otherwise.
pub open spec fn reported_len(v: FallbackView) -> i64 {
    match v.ufs {
        Some(u) => if !v.is_fs_mode { u.len } else { v.cv.len },
        None => v.cv.len,
    }
}

/// `v` with the serving reader's cursor replaced by `c`.
pub open spec fn with_active(v: FallbackView, c: ReaderCursor) -> FallbackView {
    match v.ufs {
        Some(_) => FallbackView { ufs: Some(c), ..v },
        None => FallbackView { cv: c, ..v },
    }
}

/// `v` with the serving reader positioned at `pos`.
pub open spec fn with_pos(v: FallbackView, pos: i64) -> FallbackView {
    with_active(v, ReaderCursor { pos, ..active_cursor(v) })
}

/// `v` after switching to the UFS reader `u`.
pub open spec fn with_fallback(v: FallbackView, u: ReaderCursor) -> FallbackView {
    FallbackView { ufs: Some(u), ..v }
}

/// `v` after completion: the UFS reader, if any, is released.
pub open spec fn completed(v: FallbackView) -> FallbackView {
    FallbackView { ufs: None, ..v }
}

/// The kinds of decisions taken after a Curvine read failure.
pub enum PlanKind {
    /// Return the Curvine error unchanged.
    Propagate,
    /// Refuse: FsMode and the file was never flushed to the UFS.
    RefuseUnflushed,
    /// Open the UFS reader at `pos`, validating its copy first when
    /// `validate` holds.
    Fallback { pos: i64, validate: bool },
}

/// The decision taken when the Curvine reader of `v` failed with `e`.
pub open spec fn plan_for(v: FallbackView, e: FsError) -> PlanKind {
    if !is_worker_failure(e) {
        PlanKind::Propagate
    } else if v.is_fs_mode && v.blocks.status.ufs_mtime == 0 {
        PlanKind::RefuseUnflushed
    } else {
        PlanKind::Fallback { pos: v.cv.pos, validate: v.is_fs_mode }
    }
}

/// The plan `r` carries out the decision `k` for the failure `e`.
pub open spec fn plan_matches(r: FallbackPlan, k: PlanKind, e: FsError, ufs_path: Seq<char>) -> bool {
    match k {
        PlanKind::Propagate => r matches FallbackPlan::Fail(e2) && e2 == e,
        PlanKind::RefuseUnflushed => r matches FallbackPlan::Fail(e2)
            && (e2 matches FsError::Common(d) && d.message@ == not_flushed_message(ufs_path)),
        PlanKind::Fallback { pos, validate } => r == FallbackPlan::Fallback { pos, validate },
    }
}

/// The message of the error that refuses an FsMode fallback because the
/// UFS copy differs from Curvine's snapshot.
pub open spec fn inconsistency_message(ufs_path: Seq<char>) -> Seq<char> {
    "UFS data inconsistent for "@ + ufs_path
        + ": CV and UFS len/mtime do not match or CV not valid"@
}

/// The message of the error that refuses an FsMode fallback because the file
/// was never flushed to the UFS.
pub open spec fn not_flushed_message(ufs_path: Seq<char>) -> Seq<char> {
    "UFS data for "@ + ufs_path + " has not been flushed from Curvine (ufs_mtime is 0)"@
}

/// Why an FsMode fallback to the UFS copy described by `ufs` is refused, if it
/// is: the file was never flushed, or the flushed copy changed since.
pub open spec fn consistency_refusal(cv: FileStatus, ufs: FileStatus, ufs_path: Seq<char>) -> Option<Seq<char>> {
    if cv.ufs_mtime == 0 {
        Some(not_flushed_message(ufs_path))
    } else if !ufs_consistent(cv, ufs) {
        Some(inconsistency_message(ufs_path))
    } else {
        None
    }
}

impl FallbackFsReader {
    /// A reader on `cv_reader` that falls back to the UFS file `ufs_path`;
    /// `is_fs_mode` tells whether the mount is in FsMode.
    pub fn new(cv_reader: FsReaderState, ufs_path: &str, is_fs_mode: bool) -> (r: Self)
        ensures
            r@.path == cv_reader.path@,
            r@.blocks == cv_reader.blocks,
            r@.cv == cv_reader.cursor,
            r@.ufs is None,
            r@.ufs_path == ufs_path@,
            r@.is_fs_mode == is_fs_mode,
    {
        FallbackFsReader {
            cv_path: cv_reader.path,
            cv_blocks: cv_reader.blocks,
            cv: cv_reader.cursor,
            ufs: None,
            ufs_path: string_of(ufs_path),
            is_fs_mode,
        }
    }

    /// The Curvine block metadata of the file.
    pub fn file_blocks(&self) -> (r: &FileBlocks)
        ensures
            *r == self@.blocks,
    {
        &self.cv_blocks
    }

    /// The file's status; always Curvine's, the metadata authority.
    pub fn status(&self) -> (r: &FileStatus)
        ensures
            *r == self@.blocks.status,
    {
        &self.cv_blocks.status
    }

    /// The file's Curvine path.
    pub fn path(&self) -> (r: &str)
        ensures
            r@ == self@.path,
    {
        self.cv_path.as_str()
    }

    /// Whether the mount is in FsMode.
    pub fn is_fs_mode(&self) -> (r: bool)
        ensures
            r == self@.is_fs_mode,
    {
        self.is_fs_mode
    }

    /// The UFS path the reader falls back to.
    pub fn ufs_path(&self) -> (r: &str)
        ensures
            r@ == self@.ufs_path,
    {
        self.ufs_path.as_str()
    }

    /// The file length: the live UFS length once CacheMode has fallen back,
    /// Curvine's length otherwise.
    pub fn len(&self) -> (r: i64)
        ensures
            r == reported_len(self@),
    {
        match &self.ufs {
            Some(u) => if !self.is_fs_mode { u.len } else { self.cv.len },
            None => self.cv.len,
        }
    }

    /// The position of the serving reader.
    pub fn pos(&self) -> (r: i64)
        ensures
            r == active_cursor(self@).pos,
    {
        match &self.ufs {
            Some(u) => u.pos,
            None => self.cv.pos,
        }
    }

    /// Moves the serving reader's position to `pos`, without I/O.
    pub fn set_pos(&mut self, pos: i64)
        ensures
            final(self)@ == with_pos(old(self)@, pos),
    {
        match &mut self.ufs {
            Some(u) => {
                u.pos = pos;
            },
            None => {
                self.cv.pos = pos;
            },
        }
    }

    /// The chunk size of the serving reader.
    pub fn chunk_size(&self) -> (r: usize)
        ensures
            r == active_cursor(self@).chunk_size,
    {
        match &self.ufs {
            Some(u) => u.chunk_size,
            None => self.cv.chunk_size,
        }
    }

    /// The reader that serves reads and seeks: the UFS reader once the reader
    /// has fallen back, Curvine otherwise.
    pub fn read_source(&self) -> (r: ReadSource)
        ensures
            r == source_of(self@),
    {
        if self.ufs.is_some() { ReadSource::Ufs } else { ReadSource::Curvine }
    }

    /// Records the serving reader's cursor after a read or seek on it.
    pub fn record_active(&mut self, c: ReaderCursor)
        ensures
            final(self)@ == with_active(old(self)@, c),
    {
        match &mut self.ufs {
            Some(u) => {
                *u = c;
            },
            None => {
                self.cv = c;
            },
        }
    }

    /// Decides what to do after the Curvine reader failed with `e` (see
    /// `plan_for`): a worker failure falls back at the Curvine position,
    /// validating the UFS copy first in FsMode, where a never-flushed file is
    /// refused at once; any other error goes back to the caller.
    pub fn on_curvine_error(&self, e: FsError) -> (r: FallbackPlan)
        ensures
            plan_matches(r, plan_for(self@, e), e, self@.ufs_path),
    {
        if !is_worker_err(&e) {
            FallbackPlan::Fail(e)
        } else if self.is_fs_mode && self.cv_blocks.status.ufs_mtime == 0 {
            let mut msg = string_of("UFS data for ");
            push_str(&mut msg, self.ufs_path.as_str());
            push_str(&mut msg, " has not been flushed from Curvine (ufs_mtime is 0)");
            FallbackPlan::Fail(FsError::Common(ErrorImpl { message: msg }))
        } else {
            FallbackPlan::Fallback { pos: self.cv.pos, validate: self.is_fs_mode }
        }
    }

    /// Checks that the UFS copy described by `ufs_status` matches what Curvine
    /// recorded at its last flush; refuses the fallback otherwise (see
    /// `consistency_refusal`).
    pub fn check_ufs_consistency(&self, ufs_status: &FileStatus) -> (r: Result<(), FsError>)
        ensures
            r is Ok <==> ufs_consistent(self@.blocks.status, *ufs_status),
            match consistency_refusal(self@.blocks.status, *ufs_status, self@.ufs_path) {
                None => r is Ok,
                Some(m) => r matches Err(e) && (e matches FsError::Common(d) && d.message@ == m),
            },
    {
        if self.cv_blocks.status.ufs_mtime == 0 {
            let mut msg = string_of("UFS data for ");
            push_str(&mut msg, self.ufs_path.as_str());
            push_str(&mut msg, " has not been flushed from Curvine (ufs_mtime is 0)");
            return Err(FsError::Common(ErrorImpl { message: msg }));
        }
        if !self.cv_blocks.status.ufs_valid(ufs_status) {
            let mut msg = string_of("UFS data inconsistent for ");
            push_str(&mut msg, self.ufs_path.as_str());
            push_str(&mut msg, ": CV and UFS len/mtime do not match or CV not valid");
            return Err(FsError::Common(ErrorImpl { message: msg }));
        }
        Ok(())
    }

    /// Switches to the UFS reader whose cursor is `u`, after it was opened,
    /// positioned and read from.
    pub fn fall_back(&mut self, u: ReaderCursor)
        requires
            old(self)@.ufs is None,
        ensures
            final(self)@ == with_fallback(old(self)@, u),
    {
        self.ufs = Some(u);
    }

    /// Completes the reader: releases the UFS reader if there is one and
    /// tells whether there was. The Curvine reader is always released by the
    /// caller afterwards.
    pub fn complete(&mut self) -> (had_ufs: bool)
        ensures
            had_ufs == old(self)@.ufs is Some,
            final(self)@ == completed(old(self)@),
    {
        let had = self.ufs.is_some();
        self.ufs = None;
        had
    }
}

/// Only worker failures lead to a fallback; it resumes at the Curvine reader's
/// position and validates the UFS copy exactly in FsMode. Every other error is
/// handed back unchanged, and CacheMode always falls back on a worker failure.
pub proof fn law_fallback_only_on_worker_failure(v: FallbackView, e: FsError)
    ensures
        plan_for(v, e) is Fallback ==> is_worker_failure(e),
        is_worker_failure(e) && !v.is_fs_mode ==> plan_for(v, e) is Fallback,
        is_worker_failure(e) && v.blocks.status.ufs_mtime != 0 ==> plan_for(v, e) is Fallback,
        plan_for(v, e) matches PlanKind::Fallback { pos, validate }
            ==> pos == v.cv.pos && validate == v.is_fs_mode,
        !is_worker_failure(e) <==> plan_for(v, e) is Propagate,
{
}

/// Once the reader has fallen back, it keeps reading from the UFS: moving the
/// position or recording a read never returns it to Curvine; only completion
/// releases the UFS reader.
pub proof fn law_fallback_is_sticky(v: FallbackView, u: ReaderCursor, c: ReaderCursor, p: i64)
    ensures
        source_of(with_fallback(v, u)) == ReadSource::Ufs,
        source_of(v) == ReadSource::Ufs ==> source_of(with_active(v, c)) == ReadSource::Ufs,
        source_of(v) == ReadSource::Ufs ==> source_of(with_pos(v, p)) == ReadSource::Ufs,
        source_of(completed(v)) == ReadSource::Curvine,
{
}

/// A master that is not the leader is failed over by the RPC layer, never by
/// a fallback to the UFS.
pub proof fn law_master_failover_is_not_fallback(v: FallbackView, d: ErrorImpl)
    ensures
        plan_for(v, FsError::NotLeaderMaster(d)) is Propagate,
{
}

/// FsMode refuses to fall back unless the UFS copy matches Curvine's flushed
/// snapshot, and a never-flushed file is always refused.
pub proof fn law_refusal_iff_inconsistent(cv: FileStatus, ufs: FileStatus, p: Seq<char>)
    ensures
        consistency_refusal(cv, ufs, p) is None <==> ufs_consistent(cv, ufs),
        cv.ufs_mtime == 0 ==> consistency_refusal(cv, ufs, p) == Some(not_flushed_message(p)),
{
}

/// Curvine stays the metadata authority: no step of the reader changes the
/// file's status, its path or the Curvine cursor once it has fallen back.
pub proof fn law_curvine_metadata_is_kept(v: FallbackView, u: ReaderCursor, c: ReaderCursor, p: i64)
    ensures
        with_fallback(v, u).blocks == v.blocks && with_fallback(v, u).path == v.path,
        with_active(v, c).blocks == v.blocks && with_active(v, c).path == v.path,
        with_pos(v, p).blocks == v.blocks && with_pos(v, p).path == v.path,
        completed(v).blocks == v.blocks && completed(v).path == v.path,
        with_fallback(v, u).cv == v.cv,
        v.ufs is Some ==> with_active(v, c).cv == v.cv,
{
}

/// The reported length is the live UFS length exactly when CacheMode has
/// fallen back; in FsMode, and before any fallback, it is Curvine's length.
pub proof fn law_len_authority(v: FallbackView, u: ReaderCursor)
    ensures
        v.is_fs_mode ==> reported_len(with_fallback(v, u)) == v.cv.len,
        !v.is_fs_mode ==> reported_len(with_fallback(v, u)) == u.len,
        v.ufs is None ==> reported_len(v) == v.cv.len,
{
}

/// Setting the position and reading it back gives the position that was set.
pub proof fn law_pos_roundtrip(v: FallbackView, p: i64)
    ensures
        active_cursor(with_pos(v, p)).pos == p,
        source_of(with_pos(v, p)) == source_of(v),
{
}

} // verus!
