use curvine::conf::{ClusterConf, FuseConf, Ttl};
use curvine::fuse::{
    CurvineFileSystem, EACCES, EAGAIN, EBADF, EINVAL, EIO, ENAMETOOLONG, ENODATA, ENOENT, EOPNOTSUPP, EPERM, EPROTO, ERANGE, ETXTBSY, FATTR_ATIME, FATTR_GID, FATTR_MODE, FATTR_MTIME_NOW, FATTR_SIZE, FATTR_UID, FUSE_BIG_WRITES, FUSE_FOPEN_CACHE_DIR, FUSE_FOPEN_DIRECT_IO, FUSE_FOPEN_KEEP_CACHE, FUSE_FOPEN_NONSEEKABLE, FUSE_MAX_PAGES, FUSE_WRITEBACK_CACHE, FuseAttrOut, FuseCreateIn, FuseEntryOut, FuseError, FuseFileLock, FuseMkdirIn, FuseMknodIn, FuseInHeader, FuseInitIn, FuseLkIn, LookupAction, FuseSetattrIn, LockFlags, LockType, MknodKind, MknodPlan, NameTarget, R_OK, S_IFDIR, S_IFLNK, S_IFMT, S_IFREG, S_ISGID, S_ISUID, W_OK, X_OK, XattrReply, with_dot_entries,
};
use curvine::state::{FileStatus, FileType};

fn fs_with(f: impl FnOnce(&mut FuseConf)) -> CurvineFileSystem {
    let mut c = ClusterConf::default();
    f(&mut c.fuse);
    CurvineFileSystem::new(&c)
}

fn header(uid: u32, gid: u32) -> FuseInHeader {
    FuseInHeader { len: 0, opcode: 21, unique: 1, nodeid: 9, uid, gid, pid: 1 }
}

#[test]
fn errno_values_match_libc() {
    assert_eq!(ENOENT, libc::ENOENT);
    assert_eq!(EIO, libc::EIO);
    assert_eq!(EACCES, libc::EACCES);
    assert_eq!(ERANGE, libc::ERANGE);
    assert_eq!(ENODATA, libc::ENODATA);
    assert_eq!(EPROTO, libc::EPROTO);
    assert_eq!(EOPNOTSUPP, libc::EOPNOTSUPP);
    assert_eq!(ENAMETOOLONG, libc::ENAMETOOLONG);
    assert_eq!(ETXTBSY, libc::ETXTBSY);
    assert_eq!(EINVAL, libc::EINVAL);
    assert_eq!(EPERM, libc::EPERM);
    assert_eq!(EAGAIN, libc::EAGAIN);
    assert_eq!(EBADF, libc::EBADF);
    assert_eq!(S_IFMT, libc::S_IFMT);
    assert_eq!(S_IFREG, libc::S_IFREG);
    assert_eq!(S_IFDIR, libc::S_IFDIR);
    assert_eq!(S_IFLNK, libc::S_IFLNK);
    assert_eq!(S_ISUID, libc::S_ISUID);
    assert_eq!(S_ISGID, libc::S_ISGID);
    assert_eq!(R_OK, libc::R_OK as u32);
    assert_eq!(W_OK, libc::W_OK as u32);
    assert_eq!(X_OK, libc::X_OK as u32);
}

#[test]
fn open_flags_for_directories() {
    let c = ClusterConf::default();
    let mut f = c.fuse;
    assert_eq!(CurvineFileSystem::fill_open_flags(&f, 0), FUSE_FOPEN_KEEP_CACHE);
    f.direct_io = true;
    f.cache_readdir = true;
    f.non_seekable = true;
    assert_eq!(
        CurvineFileSystem::fill_open_flags(&f, 0x8000),
        0x8000 | FUSE_FOPEN_DIRECT_IO | FUSE_FOPEN_CACHE_DIR | FUSE_FOPEN_NONSEEKABLE
    );
}

#[test]
fn status_attributes() {
    let conf = ClusterConf::default().fuse;
    let mut s = FileStatus::with_name(42, "f", false);
    s.len = 1025;
    s.mtime = 1_700_000_123_456;
    s.atime = -5;
    s.mode = 0o640;
    s.owner = "1001".to_string();
    s.group = "staff".to_string();
    s.nlink = 2;
    let a = CurvineFileSystem::status_to_attr(&conf, &s, None, Some(20)).unwrap();
    assert_eq!(a.ino, 42);
    assert_eq!(a.size, 1025);
    assert_eq!(a.blocks, 3);
    assert_eq!(a.mtime, 1_700_000_123);
    assert_eq!(a.mtimensec, 456_000_000);
    assert_eq!(a.ctime, a.mtime);
    assert_eq!(a.atime, 0);
    assert_eq!(a.atimensec, 0);
    assert_eq!(a.mode, 0o100640);
    assert_eq!(a.uid, 1001);
    assert_eq!(a.gid, 20);
    assert_eq!(a.nlink, 2);
    assert_eq!(a.blksize, 4096);

    let mut d = FileStatus::with_name(1, "d", true);
    d.owner = "nobody-known".to_string();
    let b = CurvineFileSystem::status_to_attr(&conf, &d, None, None).unwrap();
    assert_eq!(b.mode, 0o040000 | (0o777 & !0o022));
    assert_eq!(b.uid, conf.uid);
    assert_eq!(b.gid, conf.gid);
    assert_eq!(b.blocks, 0);
}

#[test]
fn entry_out_and_dot_status() {
    let mut c = ClusterConf::default();
    c.fuse.entry_ttl = Ttl { secs: 3, nanos: 5 };
    c.fuse.attr_ttl = Ttl { secs: 4, nanos: 6 };
    let s = CurvineFileSystem::new_dot_status(".");
    assert_eq!(s.id, 0xffff_ffff);
    assert_eq!(s.name, ".");
    assert!(s.is_dir);
    let a = CurvineFileSystem::status_to_attr(&c.fuse, &s, None, None).unwrap();
    let e = CurvineFileSystem::create_entry_out(&c.fuse, a);
    assert_eq!(e.nodeid, 0xffff_ffff);
    assert_eq!((e.entry_valid, e.entry_valid_nsec, e.attr_valid, e.attr_valid_nsec), (3, 5, 4, 6));
}

#[test]
fn permission_checks() {
    let fs = fs_with(|f| {
        f.check_permission = true;
        f.uid = 500;
        f.gid = 500;
    });
    let mut s = FileStatus::with_name(2, "f", false);
    s.mode = 0o640;
    s.owner = "1000".to_string();
    s.group = "100".to_string();
    assert!(fs.check_access_permissions(&s, &header(1000, 1), R_OK | W_OK, None, None).is_ok());
    assert!(fs.check_access_permissions(&s, &header(2000, 100), R_OK, None, None).is_ok());
    let e = fs.check_access_permissions(&s, &header(2000, 100), W_OK, None, None).unwrap_err();
    assert_eq!(e.errno, EACCES);
    assert_eq!(e.message, "Permission denied to search ino: 9, op: 21");
    assert!(fs.check_access_permissions(&s, &header(3000, 3), 0, None, None).is_ok());
    assert!(fs.check_access_permissions(&s, &header(3000, 3), X_OK, None, None).is_err());
    assert!(!fs.needs_permission_check(&header(0, 0)));
    assert!(fs.needs_permission_check(&header(1, 0)));
    assert_eq!(fs.get_effective_permission_bits(0o754, 1, 1, 1, 2), 0o7);
    assert_eq!(fs.get_effective_permission_bits(0o754, 1, 2, 3, 2), 0o5);
    assert_eq!(fs.get_effective_permission_bits(0o754, 1, 2, 3, 4), 0o4);
    assert_eq!(fs.resolve_file_uid("", Some(7)), 500);
    assert_eq!(fs.resolve_file_uid("alice", Some(7)), 7);
    assert_eq!(fs.resolve_file_gid("wheel", None), 500);
}

#[test]
fn setattr_options() {
    let mut a = FuseSetattrIn {
        valid: FATTR_UID | FATTR_MODE | FATTR_ATIME | FATTR_MTIME_NOW,
        fh: 0, size: 0, lock_owner: 0, atime: 12, mtime: 99, ctime: 0,
        atimensec: 0, mtimensec: 0, ctimensec: 0, mode: 0o104755, uid: 1234, gid: 5,
    };
    let o = CurvineFileSystem::fuse_setattr_to_opts(&a, None, Some("staff".to_string()), 777).unwrap();
    assert_eq!(o.owner, Some("1234".to_string()));
    assert_eq!(o.group, None);
    assert_eq!(o.mode, Some(0o4755));
    assert_eq!(o.atime, Some(12_000));
    assert_eq!(o.mtime, Some(777));
    a.valid = FATTR_GID;
    let g = CurvineFileSystem::fuse_setattr_to_opts(&a, None, Some("staff".to_string()), 777).unwrap();
    assert_eq!(g.group, Some("staff".to_string()));
    assert_eq!(g.mode, None);
    assert_eq!(g.atime, None);
}

#[test]
fn chown_clears_setid_bits() {
    assert_eq!(CurvineFileSystem::adjust_chown_mode(FATTR_UID, FileType::File, None, 0o6755), Some(0o0755));
    assert_eq!(CurvineFileSystem::adjust_chown_mode(FATTR_GID, FileType::File, Some(0o6745), 0), Some(0o2745));
    assert_eq!(CurvineFileSystem::adjust_chown_mode(FATTR_UID, FileType::Dir, Some(0o6755), 0), Some(0o6755));
    assert_eq!(CurvineFileSystem::adjust_chown_mode(FATTR_MODE, FileType::File, Some(0o4755), 0), Some(0o4755));
}

#[test]
fn resize_only_when_size_changes() {
    let mut a = FuseSetattrIn {
        valid: FATTR_SIZE, fh: 0, size: 10, lock_owner: 0, atime: 0, mtime: 0, ctime: 0,
        atimensec: 0, mtimensec: 0, ctimensec: 0, mode: 0, uid: 0, gid: 0,
    };
    assert_eq!(CurvineFileSystem::resize_target(&a, 20), Some(10));
    assert_eq!(CurvineFileSystem::resize_target(&a, 10), None);
    a.valid = FATTR_MODE;
    assert_eq!(CurvineFileSystem::resize_target(&a, 20), None);
}

fn status_with_xattrs() -> FileStatus {
    let mut s = FileStatus::with_name(-17, "f", false);
    s.x_attr = vec![("user.a".to_string(), b"hello".to_vec()), ("user.b".to_string(), vec![])];
    s
}

fn data(r: Result<XattrReply, FuseError>) -> Vec<u8> {
    match r {
        Ok(XattrReply::Data(d)) => d,
        _ => panic!("expected data"),
    }
}

fn size(r: Result<XattrReply, FuseError>) -> u32 {
    match r {
        Ok(XattrReply::Size(n)) => n,
        _ => panic!("expected size"),
    }
}

#[test]
fn get_xattr_answers() {
    let s = status_with_xattrs();
    assert_eq!(data(CurvineFileSystem::get_xattr(&s, "user.a", 64)), b"hello".to_vec());
    assert_eq!(size(CurvineFileSystem::get_xattr(&s, "user.a", 0)), 5);
    assert_eq!(CurvineFileSystem::get_xattr(&s, "user.a", 3).unwrap_err().errno, ERANGE);
    assert_eq!(data(CurvineFileSystem::get_xattr(&s, "id", 1)), b"-17".to_vec());
    assert_eq!(size(CurvineFileSystem::get_xattr(&s, "id", 0)), 3);
    let missing = CurvineFileSystem::get_xattr(&s, "user.zzz", 10).unwrap_err();
    assert_eq!(missing.errno, ENODATA);
    assert_eq!(missing.message, "No such attribute: user.zzz");
    let sys = CurvineFileSystem::get_xattr(&s, "security.selinux", 10).unwrap_err();
    assert_eq!(sys.errno, ENODATA);
}

#[test]
fn list_xattr_answers() {
    let s = status_with_xattrs();
    assert_eq!(data(CurvineFileSystem::list_xattr(&s, 100)), b"user.a\0user.b\0id\0".to_vec());
    assert_eq!(size(CurvineFileSystem::list_xattr(&s, 0)), 17);
    let e = CurvineFileSystem::list_xattr(&s, 4).unwrap_err();
    assert_eq!(e.errno, ERANGE);
    assert_eq!(e.message, "Buffer too small: 4 < 17");
}

#[test]
fn set_and_remove_xattr() {
    let o = CurvineFileSystem::set_xattr_opts("user.k", b"v").unwrap();
    assert_eq!(o.add_x_attr, vec![("user.k".to_string(), b"v".to_vec())]);
    assert_eq!(
        CurvineFileSystem::set_xattr_opts("system.posix_acl_access", b"x").unwrap_err().errno,
        EOPNOTSUPP
    );
    assert!(CurvineFileSystem::remove_xattr_opts("security.capability").is_none());
    assert_eq!(CurvineFileSystem::remove_xattr_opts("user.k").unwrap().remove_x_attr, vec!["user.k".to_string()]);
}

#[test]
fn init_negotiation() {
    let fs = fs_with(|f| {
        f.write_back_cache = true;
        f.max_readahead_kb = Some(1024);
    });
    let arg = FuseInitIn { major: 7, minor: 31, max_readahead: 131072, flags: FUSE_MAX_PAGES };
    let out = fs.init(&arg, 4096 + 1024 * 1024, 4096).unwrap();
    assert_eq!(out.max_write, 1024 * 1024);
    assert_eq!(out.max_pages, 256);
    assert_eq!(out.max_readahead, 1024 * 1024);
    assert!(out.flags & FUSE_WRITEBACK_CACHE != 0);
    assert!(out.flags & FUSE_MAX_PAGES != 0);
    assert!(out.flags & FUSE_BIG_WRITES != 0);
    assert_eq!(out.time_gran, 1);

    let plain = fs_with(|_| {});
    let arg2 = FuseInitIn { major: 7, minor: 28, max_readahead: 4096, flags: FUSE_WRITEBACK_CACHE };
    let out2 = plain.init(&arg2, 8192, 4096).unwrap();
    assert_eq!(out2.flags & FUSE_WRITEBACK_CACHE, 0);
    assert_eq!(out2.max_pages, 0);
    assert_eq!(out2.max_readahead, 4096);

    let old = FuseInitIn { major: 6, minor: 2, max_readahead: 0, flags: 0 };
    let e = plain.init(&old, 8192, 4096).unwrap_err();
    assert_eq!(e.errno, EPROTO);
    assert_eq!(e.message, "Unsupported FUSE ABI version 6.2");
}

#[test]
fn lookup_names_and_negative_entries() {
    assert_eq!(CurvineFileSystem::classify_name("."), NameTarget::Current);
    assert_eq!(CurvineFileSystem::classify_name(".."), NameTarget::Parent);
    assert_eq!(CurvineFileSystem::classify_name("..."), NameTarget::Child);
    assert_eq!(CurvineFileSystem::child_path("/a", "b"), "/a/b");
    let fs = fs_with(|f| f.negative_ttl = Ttl { secs: 2, nanos: 0 });
    assert!(fs.answers_negative(ENOENT));
    assert!(!fs.answers_negative(EIO));
    let e = fs.negative_entry();
    assert_eq!((e.nodeid, e.entry_valid), (0, 2));
    assert!(!fs_with(|_| {}).answers_negative(ENOENT));
}

#[test]
fn statfs_and_names() {
    let s = CurvineFileSystem::stat_fs(10 * 4096 + 5, 3 * 4096);
    assert_eq!((s.blocks, s.bfree, s.bavail, s.bsize, s.namelen), (10, 3, 3, 4096, 255));
    assert!(CurvineFileSystem::check_name_len(&"x".repeat(255)).is_ok());
    assert_eq!(CurvineFileSystem::check_name_len(&"x".repeat(256)).unwrap_err().errno, ENAMETOOLONG);
    assert_eq!(CurvineFileSystem::acl_mode(0o100644, 0o022), Some(0o644));
    assert_eq!(CurvineFileSystem::acl_mode(0, 0o022), None);
}

#[test]
fn create_and_mknod_checks() {
    assert!(CurvineFileSystem::check_create(0o100644, "f", false).is_ok());
    assert_eq!(CurvineFileSystem::check_create(0o040755, "d", false).unwrap_err().errno, EIO);
    assert_eq!(CurvineFileSystem::check_create(0o100644, &"n".repeat(300), false).unwrap_err().errno, ENAMETOOLONG);
    assert_eq!(CurvineFileSystem::check_create(0o100644, "f", true).unwrap_err().errno, ETXTBSY);
    assert_eq!(CurvineFileSystem::mknod_kind(0o100600), MknodKind::Regular);
    assert_eq!(CurvineFileSystem::mknod_kind(0o040700), MknodKind::Directory);
    assert_eq!(CurvineFileSystem::mknod_kind(0o020600), MknodKind::Unsupported);
}

#[test]
fn file_open_flags() {
    let fs = fs_with(|f| f.open_direct_on_stale = true);
    assert_eq!(fs.file_open_flags(2, true), 2 | FUSE_FOPEN_KEEP_CACHE);
    assert_eq!(fs.file_open_flags(2, false), 2 | FUSE_FOPEN_DIRECT_IO);
    let plain = fs_with(|_| {});
    assert_eq!(plain.file_open_flags(2, false), 2);
    let direct = fs_with(|f| f.direct_io = true);
    assert_eq!(direct.file_open_flags(0, true), FUSE_FOPEN_DIRECT_IO);
}

#[test]
fn readlink_answers() {
    let mut l = FileStatus::with_name(3, "l", false);
    l.file_type = FileType::Link;
    l.target = Some("../target".to_string());
    assert_eq!(CurvineFileSystem::readlink(&l, "/l").unwrap(), b"../target".to_vec());
    l.target = None;
    let e = CurvineFileSystem::readlink(&l, "/l").unwrap_err();
    assert_eq!((e.errno, e.message.as_str()), (ENODATA, "Symbolic link has no target: /l"));
    let f = FileStatus::with_name(4, "f", false);
    let e2 = CurvineFileSystem::readlink(&f, "/f").unwrap_err();
    assert_eq!((e2.errno, e2.message.as_str()), (EINVAL, "Not a symbolic link: /f"));
}

#[test]
fn locks() {
    let arg = FuseLkIn { fh: 1, owner: 77, lk: FuseFileLock { start: 5, end: 9, typ: 1, pid: 300 }, lk_flags: 1 };
    let l = CurvineFileSystem::to_file_lock("client-1", &arg);
    assert_eq!((l.owner_id, l.pid, l.start, l.end), (77, 300, 5, 9));
    assert_eq!(l.lock_type, LockType::WriteLock);
    assert_eq!(l.lock_flags, LockFlags::Flock);
    let u = CurvineFileSystem::unlock_request("client-1", 77, LockFlags::Plock);
    assert_eq!((u.start, u.end, u.lock_type), (0, u64::MAX, LockType::UnLock));
    let mine = CurvineFileSystem::get_lk_reply("client-1", Some(l));
    assert_eq!(mine, FuseFileLock { start: 5, end: 9, typ: 1, pid: 300 });
    let other = CurvineFileSystem::get_lk_reply("client-2", Some(CurvineFileSystem::to_file_lock("client-1", &arg)));
    assert_eq!(other.pid, 0);
    assert_eq!(CurvineFileSystem::get_lk_reply("c", None), FuseFileLock { start: 0, end: 0, typ: 2, pid: 0 });
    assert_eq!(CurvineFileSystem::lock_wait_ms(3, 100, 1000), 300);
    assert_eq!(CurvineFileSystem::lock_wait_ms(30, 100, 1000), 1000);
    assert!(CurvineFileSystem::logs_lock_wait(20, 10));
    assert!(!CurvineFileSystem::logs_lock_wait(21, 10));
}

#[test]
fn dot_entries_and_invalidation() {
    let list = vec![FileStatus::with_name(5, "a", false), FileStatus::with_name(6, "b", true)];
    let all = with_dot_entries(list);
    let names: Vec<&str> = all.iter().map(|s| s.name.as_str()).collect();
    assert_eq!(names, vec![".", "..", "a", "b"]);
    let on = fs_with(|f| f.enable_meta_cache = true);
    assert_eq!(on.invalidation_targets("/a/b/c"), Some(("/a/b/c".to_string(), Some("/a/b".to_string()))));
    assert_eq!(on.invalidation_targets("/a"), Some(("/a".to_string(), Some("/".to_string()))));
    assert_eq!(on.invalidation_targets("/"), Some(("/".to_string(), None)));
    assert_eq!(fs_with(|_| {}).invalidation_targets("/a"), None);
    assert_eq!(CurvineFileSystem::entries_added(15, 10), 5);
    assert_eq!(CurvineFileSystem::entries_added(3, 10), 0);
}

#[test]
fn mknod_plans_follow_the_mode() {
    let reg = FuseMknodIn { mode: 0o100644, rdev: 0, umask: 0o022, padding: 7 };
    assert_eq!(
        CurvineFileSystem::mknod_plan(&reg, 0o101),
        MknodPlan::Create(FuseCreateIn { flags: 0o101, mode: 0o100644, umask: 0o022, padding: 7 })
    );
    let dir = FuseMknodIn { mode: 0o040755, rdev: 0, umask: 0o002, padding: 0 };
    assert_eq!(
        CurvineFileSystem::mknod_plan(&dir, 0o101),
        MknodPlan::Mkdir(FuseMkdirIn { mode: 0o040755, umask: 0o002 })
    );
    let fifo = FuseMknodIn { mode: 0o010644, rdev: 0, umask: 0, padding: 0 };
    assert_eq!(CurvineFileSystem::mknod_plan(&fifo, 0o101), MknodPlan::Refuse(libc::EPERM));
}

#[test]
fn mknod_answers_the_created_entry_once_the_handle_is_closed() {
    let fs = fs_with(|_| {});
    let status = FileStatus::with_name(42, "f", false);
    let attr = CurvineFileSystem::status_to_attr(fs.conf(), &status, None, None).unwrap();
    let created: FuseEntryOut = CurvineFileSystem::create_entry_out(fs.conf(), attr);
    assert_eq!(CurvineFileSystem::mknod_entry(&created, true).unwrap(), created);
    assert_eq!(CurvineFileSystem::mknod_entry(&created, false).unwrap_err().errno, libc::EIO);
}

#[test]
fn lookup_checks_the_parent_before_fetching() {
    match CurvineFileSystem::lookup_on_parent(Ok("/a".to_string())) {
        LookupAction::CheckParent { parent_path } => assert_eq!(parent_path, "/a"),
        other => panic!("unexpected {:?}", other),
    }
    match CurvineFileSystem::lookup_on_parent(Err(FuseError::new(ENOENT, String::new()))) {
        LookupAction::Reply(Err(e)) => assert_eq!(e.errno, ENOENT),
        other => panic!("unexpected {:?}", other),
    }
    let denied = CurvineFileSystem::lookup_on_permission(
        NameTarget::Child, "/a", "b", Err(FuseError::new(EACCES, String::new())));
    assert!(matches!(denied, LookupAction::Reply(Err(ref e)) if e.errno == EACCES));
    match CurvineFileSystem::lookup_on_permission(NameTarget::Child, "/a", "b", Ok(())) {
        LookupAction::Fetch { path } => assert_eq!(path, "/a/b"),
        other => panic!("unexpected {:?}", other),
    }
    match CurvineFileSystem::lookup_on_permission(NameTarget::Parent, "/a", "..", Ok(())) {
        LookupAction::Fetch { path } => assert_eq!(path, "/a"),
        other => panic!("unexpected {:?}", other),
    }
}

#[test]
fn lookup_answers_missing_entries_negatively_when_cached() {
    let cached = fs_with(|f| f.negative_ttl = Ttl { secs: 3, nanos: 0 });
    match cached.lookup_on_status(Err(FuseError::new(ENOENT, String::new()))) {
        LookupAction::Reply(Ok(e)) => {
            assert_eq!(e.nodeid, 0);
            assert_eq!(e.entry_valid, 3);
        }
        other => panic!("unexpected {:?}", other),
    }
    let uncached = fs_with(|_| {});
    assert!(matches!(
        uncached.lookup_on_status(Err(FuseError::new(ENOENT, String::new()))),
        LookupAction::Reply(Err(ref e)) if e.errno == ENOENT
    ));
    assert!(matches!(uncached.lookup_on_status(Ok(())), LookupAction::Register));
    let status = FileStatus::with_name(7, "b", false);
    let attr = CurvineFileSystem::status_to_attr(uncached.conf(), &status, None, None).unwrap();
    match uncached.lookup_on_registered(Ok(attr)) {
        LookupAction::Reply(Ok(e)) => {
            assert_eq!(e.nodeid, 7);
            assert_eq!(e.entry_valid, 1);
        }
        other => panic!("unexpected {:?}", other),
    }
}

#[test]
fn setattr_reports_the_truncated_length_under_the_request_node() {
    let fs = fs_with(|f| f.attr_ttl = Ttl { secs: 2, nanos: 5 });
    let mut status = FileStatus::with_name(42, "f", false);
    status.len = 10;
    let out: FuseAttrOut = fs.setattr_reply(&status, Some(4097), 9, None, None);
    assert_eq!(out.attr.ino, 9);
    assert_eq!(out.attr.size, 4097);
    assert_eq!(out.attr.blocks, 9);
    assert_eq!(out.attr_valid, 2);
    assert_eq!(out.attr_valid_nsec, 5);
    assert_eq!(out.dummy, 0);
    let same = fs.setattr_reply(&status, None, 9, None, None);
    assert_eq!(same.attr.size, 10);
    assert_eq!(same.attr.blocks, 1);
}
