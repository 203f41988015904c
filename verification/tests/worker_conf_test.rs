use curvine::worker_conf::{check_spdk_bdevs, StorageType, WorkerConf, WorkerDataDir};

#[test]
fn data_dir_with_type_and_capacity() {
    let d = WorkerDataDir::from_str("[SSD:20GB]/data1", "/cwd").unwrap();
    assert_eq!(d.storage_type, StorageType::Ssd);
    assert_eq!(d.capacity, 20 * 1024 * 1024 * 1024);
    assert_eq!(d.path, "/data1");
}

#[test]
fn data_dir_with_type_only() {
    let d = WorkerDataDir::from_str("[HDD]/data2", "/cwd").unwrap();
    assert_eq!(d.storage_type, StorageType::Hdd);
    assert_eq!(d.capacity, 0);
}

#[test]
fn data_dir_with_capacity_only() {
    let d = WorkerDataDir::from_str("[100MB]/data3", "/cwd").unwrap();
    assert_eq!(d.storage_type, StorageType::Disk);
    assert_eq!(d.capacity, 100 * 1024 * 1024);
}

#[test]
fn plain_and_relative_paths() {
    let d = WorkerDataDir::from_str("/data4", "/cwd").unwrap();
    assert_eq!(d.storage_type, StorageType::Disk);
    assert_eq!(d.capacity, 0);
    assert_eq!(d.path, "/data4");
    let r = WorkerDataDir::from_str("[MEM]data5", "/home/u").unwrap();
    assert_eq!(r.storage_type, StorageType::Mem);
    assert_eq!(r.path, "/home/u/data5");
    let e = WorkerDataDir::from_str("[]/data6", "/cwd").unwrap();
    assert_eq!(e.path, "/cwd/[]/data6");
}

#[test]
fn malformed_data_dirs() {
    let e = WorkerDataDir::from_str("[a:b:c]/x", "/").unwrap_err();
    assert_eq!(e.to_string(), "Incorrect data format [a:b:c]/x");
    let c = WorkerDataDir::from_str("[SSD:lots]/x", "/").unwrap_err();
    assert_eq!(c.to_string(), "Invalid byte size lots");
}

#[test]
fn storage_type_names() {
    assert!(WorkerDataDir::is_valid_storage_type("SPDK_DISK"));
    assert!(WorkerDataDir::is_valid_storage_type("hdd"));
    assert!(!WorkerDataDir::is_valid_storage_type("20GB"));
    assert_eq!(WorkerDataDir::parse_stg_type("ssd"), StorageType::Ssd);
    assert_eq!(WorkerDataDir::parse_stg_type("SpDk_DiSk"), StorageType::SpdkDisk);
    assert_eq!(WorkerDataDir::parse_stg_type("tape"), StorageType::Disk);
    assert_eq!(StorageType::from_str_name("UFS"), StorageType::Ufs);
}

#[test]
fn storage_path_appends_cluster() {
    let d = WorkerDataDir::new(StorageType::Disk, 0, "/data", "/");
    assert_eq!(d.storage_path("curvine"), "/data/curvine");
    assert_eq!(d.path_str(), "/data");
}

#[test]
fn worker_io_durations() {
    let mut w = WorkerConf::default();
    assert_eq!(w.io_slow_us(), 300_000);
    assert_eq!(w.io_timeout_ms(), 600_000);
    w.io_timeout = "2h".to_string();
    assert_eq!(w.io_timeout_ms(), 7_200_000);
    w.io_slow_threshold = "1s".to_string();
    assert_eq!(w.io_slow_us(), 1_000_000);
}

#[test]
fn worker_defaults() {
    let w = WorkerConf::default();
    assert_eq!(w.hostname, "localhost");
    assert_eq!(w.rpc_port, 8997);
    assert_eq!(w.web_port, 9001);
    assert_eq!(w.pipe_buf_size, 65536);
    assert_eq!(w.block_replication_chunk_size, 1048576);
    assert!(w.check_spdk_support().is_ok());
    let mut s = WorkerConf::default();
    s.spdk_disk.enabled = true;
    assert_eq!(
        s.check_spdk_support().unwrap_err().to_string(),
        "SPDK is not enabled. Compile with --features spdk to use SPDK"
    );
}

#[test]
fn data_dir_from_capture_groups() {
    let caps = vec![
        Some("[SSD:1KB]rel".to_string()),
        Some("SSD:1KB".to_string()),
        Some("rel".to_string()),
    ];
    let d = WorkerDataDir::from_captures("[SSD:1KB]rel", &caps, "/cwd").unwrap();
    assert_eq!(d.storage_type, StorageType::Ssd);
    assert_eq!(d.capacity, 1024);
    assert_eq!(d.path, "/cwd/rel");
    let bad = vec![Some("[a:b:c]/x".to_string()), Some("a:b:c".to_string()), Some("/x".to_string())];
    assert_eq!(
        WorkerDataDir::from_captures("[a:b:c]/x", &bad, "/cwd").unwrap_err().to_string(),
        "Incorrect data format [a:b:c]/x"
    );
}

#[test]
fn spdk_dirs_are_counted_among_data_dirs() {
    let mut w = WorkerConf::default();
    w.data_dir = vec![
        "[spdk_disk]/nvme0".to_string(),
        "[SSD]/data".to_string(),
        "[SPDK_DISK:1GB]/nvme1".to_string(),
        "[a:b:c]/broken".to_string(),
    ];
    assert_eq!(w.num_spdk_dirs("/cwd"), 2);
}

#[test]
fn spdk_dirs_need_a_bdev_each() {
    assert_eq!(
        check_spdk_bdevs(3, 2).unwrap_err().to_string(),
        "Configuration has 3 SPDK data_dir entries but only 2 bdev(s) were discovered. \
         Multiple dirs would map to the same NVMe namespace, causing data corruption. \
         Either reduce SPDK data_dir entries or add more NVMe-oF targets."
    );
    assert_eq!(check_spdk_bdevs(2, 5).unwrap(), 3);
    assert_eq!(check_spdk_bdevs(2, 2).unwrap(), 0);
    assert_eq!(check_spdk_bdevs(0, 4).unwrap(), 0);
}

#[test]
fn entries_without_a_closing_bracket_are_plain_paths() {
    let d = WorkerDataDir::from_str("[SSD/data", "/cwd").unwrap();
    assert_eq!(d.storage_type, StorageType::Disk);
    assert_eq!(d.capacity, 0);
    assert_eq!(d.path, "/cwd/[SSD/data");
    let p = WorkerDataDir::from_str("data/x", "/cwd").unwrap();
    assert_eq!(p.path, "/cwd/data/x");
}
