use curvine::conf::{ClusterConf, InetAddr, RaftPeer, ServerConf, DEFAULT_MASTER_PORT};

fn peer(id: u64, host: &str) -> RaftPeer {
    RaftPeer { id, hostname: host.to_string(), port: 8996 }
}

#[test]
fn master_hostname_must_be_a_journal_peer() {
    let mut c = ClusterConf::default();
    c.master.hostname = "m2".to_string();
    c.journal.journal_addrs = vec![peer(1, "m1"), peer(2, "m2")];
    assert!(c.check_master_hostname().is_ok());
    c.master.hostname = "m9".to_string();
    let err = c.check_master_hostname().unwrap_err();
    assert_eq!(
        err.to_string(),
        "hostname 'm9' from CURVINE_MASTER_HOSTNAME is not found in journal_addrs. Available hostnames: [m1, m2]"
    );
}

#[test]
fn master_nodes_default_to_master_address() {
    let c = ClusterConf::default();
    let nodes = c.master_nodes();
    assert_eq!(nodes.len(), 1);
    assert_eq!(nodes[0].id, 100);
    assert_eq!(nodes[0].addr.hostname, "localhost");
    assert_eq!(nodes[0].addr.port, DEFAULT_MASTER_PORT);
    assert_eq!(c.masters_string(), "localhost:8995");
}

#[test]
fn master_nodes_number_client_addresses_from_100() {
    let mut c = ClusterConf::default();
    c.client.master_addrs = vec![InetAddr::new("a", 1), InetAddr::new("b", 2), InetAddr::new("c", 3)];
    let nodes = c.master_nodes();
    let ids: Vec<u64> = nodes.iter().map(|n| n.id).collect();
    assert_eq!(ids, vec![100, 101, 102]);
    assert_eq!(c.masters_string(), "a:1,b:2,c:3");
}

#[test]
fn server_confs_take_the_section_settings() {
    let mut c = ClusterConf::default();
    c.cluster_id = "prod".to_string();
    c.master.io_threads = 7;
    c.master.io_timeout = "2s".to_string();
    let m = c.master_server_conf();
    assert_eq!(m.name, "prod-master");
    assert_eq!(m.port, 8995);
    assert_eq!(m.io_threads, 7);
    assert_eq!(m.timeout_ms, 2000);
    assert_eq!(m.close_idle, c.master.io_close_idle);
    let mw = c.master_web_conf();
    assert_eq!(mw.name, "prod-master");
    assert_eq!(mw.port, 9000);

    c.worker.enable_splice = true;
    c.worker.pipe_buf_size = 1234;
    let w = c.worker_server_conf();
    assert_eq!(w.name, "prod-worker");
    assert_eq!(w.port, 8997);
    assert_eq!(w.timeout_ms, 600000);
    assert!(w.enable_splice);
    assert_eq!(w.pipe_buf_size, 1234);
    assert!(w.enable_send_file);
    let ww = c.worker_web_conf();
    assert_eq!(ww.name, "prod-web");
    assert_eq!(ww.port, 9001);
    let d = ServerConf::with_hostname("h", 1);
    assert_eq!(d.name, "");
}

#[test]
fn addresses_and_format() {
    let c = ClusterConf::format();
    assert!(c.format_master);
    assert_eq!(c.cluster_id, "curvine");
    assert_eq!(c.worker_addr().to_string(), "localhost:8997");
    assert_eq!(c.master_addr().to_string(), "localhost:8995");
}

#[test]
fn resolve_applies_environment_and_fills_masters() {
    let mut c = ClusterConf::default();
    c.master.rpc_port = 7000;
    c.journal.journal_addrs = vec![peer(1, "j1"), peer(2, "j2")];
    c.resolve(Some("m1"), Some("w1"), None);
    assert_eq!(c.master.hostname, "m1");
    assert_eq!(c.journal.hostname, "m1");
    assert_eq!(c.worker.hostname, "w1");
    assert_eq!(c.client.hostname, "localhost");
    assert_eq!(c.masters_string(), "j1:7000,j2:7000");

    let mut k = ClusterConf::default();
    k.client.master_addrs = vec![InetAddr::new("x", 1)];
    k.resolve(None, None, Some("c1"));
    assert_eq!(k.client.hostname, "c1");
    assert_eq!(k.masters_string(), "x:1");
}

#[test]
fn db_conf_and_retry_policy() {
    let mut c = ClusterConf::default();
    c.set_test_meta_dir("/tmp/t_1_abc");
    assert_eq!(c.master.meta_dir, "/tmp/t_1_abc/meta");
    assert_eq!(c.journal.journal_dir, "/tmp/t_1_abc/journal");
    assert_eq!(c.db_conf().data_dir, "/tmp/t_1_abc/meta");
    c.client.rpc_retry_max_duration_ms = 9;
    let p = c.io_retry_policy_builder();
    assert_eq!(p.max_duration_ms, 9);
    assert_eq!(p.min_sleep_ms, c.client.rpc_retry_min_sleep_ms);
}
