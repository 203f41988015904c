use curvine::errors::FsError;
use curvine::fallback::{FallbackFsReader, FallbackPlan, FsReaderState, ReadSource, ReaderCursor};
use curvine::state::{FileBlocks, FileStatus};

fn cv_status(len: i64, ufs_mtime: i64) -> FileStatus {
    let mut s = FileStatus::with_name(7, "tc.log", false);
    s.path = "/mnt/tc.log".to_string();
    s.len = len;
    s.ufs_mtime = ufs_mtime;
    s
}

fn reader(fs_mode: bool, len: i64, ufs_mtime: i64) -> FallbackFsReader {
    let state = FsReaderState {
        path: "/mnt/tc.log".to_string(),
        blocks: FileBlocks { status: cv_status(len, ufs_mtime), block_locs: vec![] },
        cursor: ReaderCursor { pos: 0, len, chunk_size: 1024 },
    };
    FallbackFsReader::new(state, "s3://bucket/mnt/tc.log", fs_mode)
}

fn ufs_status(len: i64, mtime: i64) -> FileStatus {
    let mut s = FileStatus::with_name(0, "tc.log", false);
    s.len = len;
    s.mtime = mtime;
    s
}

#[test]
fn new_reader_reads_from_curvine() {
    let r = reader(true, 26, 1000);
    assert_eq!(r.read_source(), ReadSource::Curvine);
    assert_eq!(r.len(), 26);
    assert_eq!(r.pos(), 0);
    assert_eq!(r.chunk_size(), 1024);
    assert_eq!(r.path(), "/mnt/tc.log");
    assert_eq!(r.ufs_path(), "s3://bucket/mnt/tc.log");
    assert_eq!(r.status().id, 7);
    assert_eq!(r.file_blocks().status.len, 26);
}

#[test]
fn worker_errors_fall_back_at_curvine_position() {
    let mut r = reader(true, 26, 1000);
    r.set_pos(12);
    match r.on_curvine_error(FsError::common("Connection refused (os error 111)")) {
        FallbackPlan::Fallback { pos, validate } => {
            assert_eq!(pos, 12);
            assert!(validate);
        }
        FallbackPlan::Fail(_) => panic!("worker errors must fall back"),
    }
    let cache = reader(false, 26, 1000);
    match cache.on_curvine_error(FsError::pipeline_error(3, "down")) {
        FallbackPlan::Fallback { validate, .. } => assert!(!validate),
        FallbackPlan::Fail(_) => panic!("worker errors must fall back"),
    }
}

#[test]
fn other_errors_are_returned() {
    let r = reader(true, 26, 1000);
    match r.on_curvine_error(FsError::file_not_found("/mnt/tc.log")) {
        FallbackPlan::Fail(e) => assert_eq!(e.to_string(), "/mnt/tc.log"),
        FallbackPlan::Fallback { .. } => panic!("not a worker error"),
    }
}

#[test]
fn fs_mode_refuses_inconsistent_ufs() {
    let r = reader(true, 13, 1000);
    assert!(r.check_ufs_consistency(&ufs_status(13, 1000)).is_ok());
    let err = r.check_ufs_consistency(&ufs_status(14, 2000)).unwrap_err();
    assert!(err.to_string().contains("UFS data inconsistent"));
    assert_eq!(
        err.to_string(),
        "UFS data inconsistent for s3://bucket/mnt/tc.log: CV and UFS len/mtime do not match or CV not valid"
    );
    // Never flushed: ufs_mtime is 0.
    let unflushed = reader(true, 13, 0);
    assert!(unflushed.check_ufs_consistency(&ufs_status(13, 0)).is_err());
}

#[test]
fn fallback_is_sticky_until_complete() {
    let mut r = reader(true, 26, 1000);
    r.fall_back(ReaderCursor { pos: 8, len: 26, chunk_size: 512 });
    assert_eq!(r.read_source(), ReadSource::Ufs);
    assert_eq!(r.pos(), 8);
    assert_eq!(r.chunk_size(), 512);
    r.set_pos(135);
    assert_eq!(r.read_source(), ReadSource::Ufs);
    assert_eq!(r.pos(), 135);
    r.record_active(ReaderCursor { pos: 140, len: 26, chunk_size: 512 });
    assert_eq!(r.read_source(), ReadSource::Ufs);
    assert_eq!(r.status().id, 7);
    assert!(r.complete());
    assert_eq!(r.read_source(), ReadSource::Curvine);
    assert!(!r.complete());
}

#[test]
fn cache_mode_len_reflects_current_ufs() {
    let mut r = reader(false, 10, 1000);
    r.fall_back(ReaderCursor { pos: 1, len: 26, chunk_size: 512 });
    assert_eq!(r.len(), 26);
    let mut f = reader(true, 10, 1000);
    f.fall_back(ReaderCursor { pos: 1, len: 26, chunk_size: 512 });
    assert_eq!(f.len(), 10);
}

#[test]
fn pos_mut_before_fallback_moves_curvine_reader() {
    let mut r = reader(false, 26, 1000);
    r.set_pos(20);
    assert_eq!(r.pos(), 20);
    assert_eq!(r.read_source(), ReadSource::Curvine);
}

#[test]
fn ufs_valid_requires_flush_and_match() {
    assert!(cv_status(5, 9).ufs_valid(&ufs_status(5, 9)));
    assert!(!cv_status(5, 9).ufs_valid(&ufs_status(6, 9)));
    assert!(!cv_status(5, 9).ufs_valid(&ufs_status(5, 8)));
    assert!(!cv_status(0, 0).ufs_valid(&ufs_status(0, 0)));
}

#[test]
fn fs_mode_refuses_unflushed_files_at_once() {
    let r = reader(true, 13, 0);
    match r.on_curvine_error(FsError::common("broken pipe")) {
        FallbackPlan::Fail(e) => assert_eq!(
            e.to_string(),
            "UFS data for s3://bucket/mnt/tc.log has not been flushed from Curvine (ufs_mtime is 0)"
        ),
        FallbackPlan::Fallback { .. } => panic!("an unflushed FsMode file must not fall back"),
    }
    let cache = reader(false, 13, 0);
    assert!(matches!(cache.on_curvine_error(FsError::common("broken pipe")), FallbackPlan::Fallback { .. }));
}
