//! Cluster configuration.

use vstd::prelude::*;
use crate::errors::{FsError, ErrorImpl};
use crate::text::{decimal, join, join_strings, push_decimal, push_str, string_of, views_of,
    lemma_views_of_push};
use crate::units::duration_ms;
use crate::worker_conf::{WorkerConf, is_default_worker};

verus! {

pub const DEFAULT_HOSTNAME: &'static str = "localhost";
pub const DEFAULT_MASTER_PORT: u16 = 8995;
pub const DEFAULT_RAFT_PORT: u16 = 8996;
pub const DEFAULT_WORKER_PORT: u16 = 8997;
pub const DEFAULT_MASTER_WEB_PORT: u16 = 9000;
pub const DEFAULT_WORKER_WEB_PORT: u16 = 9001;
pub const DEFAULT_FUSE_WEB_PORT: u16 = 9002;

pub const ENV_MASTER_HOSTNAME: &'static str = "CURVINE_MASTER_HOSTNAME";
pub const ENV_WORKER_HOSTNAME: &'static str = "CURVINE_WORKER_HOSTNAME";
pub const ENV_CLIENT_HOSTNAME: &'static str = "CURVINE_CLIENT_HOSTNAME";
pub const ENV_CONF_FILE: &'static str = "CURVINE_CONF_FILE";


/// A network address: host name and port.
#[derive(Debug)]
pub struct InetAddr {
    pub hostname: String,
    pub port: u16,
}

/// How an address is written: `host:port`.
pub open spec fn addr_text(hostname: Seq<char>, port: u16) -> Seq<char> {
    hostname + ":"@ + decimal(port as nat)
}

impl InetAddr {
    /// The address `hostname:port`.
    pub fn new(hostname: &str, port: u16) -> (r: InetAddr)
        ensures
            r.hostname@ == hostname@,
            r.port == port,
    {
        InetAddr { hostname: string_of(hostname), port }
    }

    /// A copy of this address.
    pub fn duplicate(&self) -> (r: InetAddr)
        ensures
            r.hostname@ == self.hostname@,
            r.port == self.port,
    {
        InetAddr { hostname: self.hostname.clone(), port: self.port }
    }

    /// The address written as `host:port`.
    pub fn to_string(&self) -> (r: String)
        ensures
            r@ == addr_text(self.hostname@, self.port),
    {
        let mut r = self.hostname.clone();
        push_str(&mut r, ":");
        push_decimal(&mut r, self.port as u64);
        r
    }
}

/// A master node: its id and address.
#[derive(Debug)]
pub struct NodeAddr {
    pub id: u64,
    pub addr: InetAddr,
}

impl NodeAddr {
    /// The node `id` at `addr`.
    pub fn from_addr(id: u64, addr: InetAddr) -> (r: NodeAddr)
        ensures
            r.id == id,
            r.addr == addr,
    {
        NodeAddr { id, addr }
    }
}

/// A member of the journal (raft) group.
#[derive(Debug)]
pub struct RaftPeer {
    pub id: u64,
    pub hostname: String,
    pub port: u16,
}

/// Settings of one RPC or web server.
#[derive(Debug)]
pub struct ServerConf {
    pub name: String,
    pub hostname: String,
    pub port: u16,
    pub io_threads: usize,
    pub worker_threads: usize,
    /// Whether idle connections are closed.
    pub close_idle: bool,
    pub timeout_ms: u64,
    pub enable_splice: bool,
    pub pipe_buf_size: usize,
    pub pipe_pool_init_cap: usize,
    pub pipe_pool_max_cap: usize,
    pub pipe_pool_idle_time: usize,
    pub enable_send_file: bool,
}

/// The splice, pipe and send-file settings of a server are the defaults.
pub open spec fn default_transfer_settings(s: ServerConf) -> bool {
    &&& !s.enable_splice
    &&& s.pipe_buf_size == 65536
    &&& s.pipe_pool_init_cap == 0
    &&& s.pipe_pool_max_cap == 0
    &&& s.pipe_pool_idle_time == 0
    &&& !s.enable_send_file
}

/// The connection settings of a server are the defaults.
pub open spec fn default_connection_settings(s: ServerConf) -> bool {
    &&& s.close_idle
    &&& s.timeout_ms == 60000
}

/// The server settings `ServerConf::with_hostname` starts from.
pub open spec fn default_server_conf(s: ServerConf, hostname: Seq<char>, port: u16) -> bool {
    &&& s.name@ == Seq::<char>::empty()
    &&& s.hostname@ == hostname
    &&& s.port == port
    &&& s.io_threads == 32
    &&& s.worker_threads == 32
    &&& default_connection_settings(s)
    &&& default_transfer_settings(s)
}

impl ServerConf {
    /// Default server settings listening on `hostname:port`.
    pub fn with_hostname(hostname: &str, port: u16) -> (r: ServerConf)
        ensures
            default_server_conf(r, hostname@, port),
    {
        ServerConf {
            name: String::new(),
            hostname: string_of(hostname),
            port,
            io_threads: 32,
            worker_threads: 32,
            close_idle: true,
            timeout_ms: 60000,
            enable_splice: false,
            pipe_buf_size: 65536,
            pipe_pool_init_cap: 0,
            pipe_pool_max_cap: 0,
            pipe_pool_idle_time: 0,
            enable_send_file: false,
        }
    }
}

/// Settings of the metadata store.
#[derive(Debug)]
pub struct DBConf {
    pub data_dir: String,
}

impl DBConf {
    /// These settings with the store placed in `dir`.
    pub fn set_dir(self, dir: &str) -> (r: DBConf)
        ensures
            r.data_dir@ == dir@,
    {
        DBConf { data_dir: string_of(dir) }
    }
}

/// Master configuration.
#[derive(Debug)]
pub struct MasterConf {
    pub hostname: String,
    pub rpc_port: u16,
    pub web_port: u16,
    pub io_threads: usize,
    pub worker_threads: usize,
    pub io_close_idle: bool,
    pub io_timeout: String,
    pub meta_dir: String,
    pub rocksdb: DBConf,
}

impl MasterConf {
    /// The I/O timeout in milliseconds.
    pub fn io_timeout_ms(&self) -> (r: u64)
        requires
            duration_ms(self.io_timeout@) matches Some(ms) && ms <= u64::MAX,
        ensures
            r == duration_ms(self.io_timeout@).unwrap(),
    {
        crate::units::parse_duration_ms(self.io_timeout.as_str()).unwrap()
    }
}

/// The master settings `MasterConf::default` gives.
pub open spec fn is_default_master(r: MasterConf) -> bool {
    &&& r.hostname@ == DEFAULT_HOSTNAME@
    &&& r.rpc_port == DEFAULT_MASTER_PORT
    &&& r.web_port == DEFAULT_MASTER_WEB_PORT
    &&& r.io_threads == 32
    &&& r.worker_threads == 32
    &&& r.io_close_idle
    &&& r.io_timeout@ == "10m"@
    &&& r.meta_dir@ == "testing/meta"@
    &&& r.rocksdb.data_dir@ == "testing/meta"@
}

impl Default for MasterConf {
    fn default() -> (r: Self)
        ensures
            is_default_master(r),
    {
        MasterConf {
            hostname: string_of(DEFAULT_HOSTNAME),
            rpc_port: DEFAULT_MASTER_PORT,
            web_port: DEFAULT_MASTER_WEB_PORT,
            io_threads: 32,
            worker_threads: 32,
            io_close_idle: true,
            io_timeout: string_of("10m"),
            meta_dir: string_of("testing/meta"),
            rocksdb: DBConf { data_dir: string_of("testing/meta") },
        }
    }
}

/// Journal (raft log replication) configuration.
#[derive(Debug)]
pub struct JournalConf {
    pub hostname: String,
    pub rpc_port: u16,
    pub journal_addrs: Vec<RaftPeer>,
    pub journal_dir: String,
}

/// The journal settings `JournalConf::default` gives.
pub open spec fn is_default_journal(r: JournalConf) -> bool {
    &&& r.hostname@ == DEFAULT_HOSTNAME@
    &&& r.rpc_port == DEFAULT_RAFT_PORT
    &&& r.journal_addrs@.len() == 1
    &&& r.journal_addrs@[0].id == 1
    &&& r.journal_addrs@[0].hostname@ == DEFAULT_HOSTNAME@
    &&& r.journal_addrs@[0].port == DEFAULT_RAFT_PORT
    &&& r.journal_dir@ == "testing/journal"@
}

impl Default for JournalConf {
    fn default() -> (r: Self)
        ensures
            is_default_journal(r),
    {
        let mut addrs: Vec<RaftPeer> = Vec::new();
        addrs.push(RaftPeer { id: 1, hostname: string_of(DEFAULT_HOSTNAME), port: DEFAULT_RAFT_PORT });
        JournalConf {
            hostname: string_of(DEFAULT_HOSTNAME),
            rpc_port: DEFAULT_RAFT_PORT,
            journal_addrs: addrs,
            journal_dir: string_of("testing/journal"),
        }
    }
}

/// Client configuration.
#[derive(Debug)]
pub struct ClientConf {
    pub hostname: String,
    /// The masters a client talks to; empty means "derive from the journal".
    pub master_addrs: Vec<InetAddr>,
    pub rpc_retry_max_duration_ms: u64,
    pub rpc_retry_min_sleep_ms: u64,
    pub rpc_retry_max_sleep_ms: u64,
}

/// The client settings `ClientConf::default` gives.
pub open spec fn is_default_client(r: ClientConf) -> bool {
    &&& r.hostname@ == DEFAULT_HOSTNAME@
    &&& r.master_addrs@.len() == 0
    &&& r.rpc_retry_max_duration_ms == 300000
    &&& r.rpc_retry_min_sleep_ms == 300
    &&& r.rpc_retry_max_sleep_ms == 30000
}

impl Default for ClientConf {
    fn default() -> (r: Self)
        ensures
            is_default_client(r),
    {
        ClientConf {
            hostname: string_of(DEFAULT_HOSTNAME),
            master_addrs: Vec::new(),
            rpc_retry_max_duration_ms: 300000,
            rpc_retry_min_sleep_ms: 300,
            rpc_retry_max_sleep_ms: 30000,
        }
    }
}

/// A duration split into whole seconds and the remaining nanoseconds.
#[derive(PartialEq, Eq, Structural, Clone, Copy, Debug)]
pub struct Ttl {
    pub secs: u64,
    pub nanos: u32,
}

/// FUSE mount configuration.
#[derive(PartialEq, Eq, Structural, Clone, Copy, Debug)]
pub struct FuseConf {
    /// Owner reported for files without a resolvable owner.
    pub uid: u32,
    /// Group reported for files without a resolvable group.
    pub gid: u32,
    pub umask: u32,
    pub direct_io: bool,
    pub cache_readdir: bool,
    pub non_seekable: bool,
    pub entry_ttl: Ttl,
    pub attr_ttl: Ttl,
    pub negative_ttl: Ttl,
    pub enable_meta_cache: bool,
    pub metrics_enabled: bool,
    pub check_permission: bool,
    pub write_back_cache: bool,
    pub max_readahead_kb: Option<u32>,
    pub max_background: u16,
    pub congestion_threshold: u16,
    pub open_direct_on_stale: bool,
    pub node_cache_ttl_ms: u64,
}

/// The FUSE settings `FuseConf::default` gives.
pub open spec fn is_default_fuse(r: FuseConf) -> bool {
    &&& r.uid == 0 && r.gid == 0 && r.umask == 0o022
    &&& !r.direct_io && !r.cache_readdir && !r.non_seekable
    &&& r.entry_ttl == (Ttl { secs: 1, nanos: 0 })
    &&& r.attr_ttl == (Ttl { secs: 1, nanos: 0 })
    &&& r.negative_ttl == (Ttl { secs: 0, nanos: 0 })
    &&& !r.enable_meta_cache && !r.metrics_enabled && !r.check_permission
    &&& !r.write_back_cache
    &&& r.max_readahead_kb is None
    &&& r.max_background == 256 && r.congestion_threshold == 192
    &&& !r.open_direct_on_stale
    &&& r.node_cache_ttl_ms == 3600000
}

impl Default for FuseConf {
    fn default() -> (r: Self)
        ensures
            is_default_fuse(r),
    {
        FuseConf {
            uid: 0,
            gid: 0,
            umask: 0o022,
            direct_io: false,
            cache_readdir: false,
            non_seekable: false,
            entry_ttl: Ttl { secs: 1, nanos: 0 },
            attr_ttl: Ttl { secs: 1, nanos: 0 },
            negative_ttl: Ttl { secs: 0, nanos: 0 },
            enable_meta_cache: false,
            metrics_enabled: false,
            check_permission: false,
            write_back_cache: false,
            max_readahead_kb: None,
            max_background: 256,
            congestion_threshold: 192,
            open_direct_on_stale: false,
            node_cache_ttl_ms: 3600000,
        }
    }
}

/// The RPC retry policy: keep retrying for at most `max_duration_ms`,
/// sleeping between `min_sleep_ms` and `max_sleep_ms` between attempts.
#[derive(Debug)]
pub struct TimeBondedRetryBuilder {
    pub max_duration_ms: u64,
    pub min_sleep_ms: u64,
    pub max_sleep_ms: u64,
}

/// The whole cluster configuration.
#[derive(Debug)]
pub struct ClusterConf {
    pub format_master: bool,
    pub format_worker: bool,
    /// Whether the cluster runs inside unit tests.
    pub testing: bool,
    pub cluster_id: String,
    pub master: MasterConf,
    pub journal: JournalConf,
    pub worker: WorkerConf,
    pub client: ClientConf,
    pub fuse: FuseConf,
}

/// Some journal peer has host name `h`.
pub open spec fn journal_has_host(peers: Seq<RaftPeer>, h: Seq<char>) -> bool {
    exists|i: int| 0 <= i < peers.len() && (#[trigger] peers[i]).hostname@ == h
}

/// The host names of the journal peers, in order.
pub open spec fn journal_hosts(peers: Seq<RaftPeer>) -> Seq<Seq<char>> {
    peers.map_values(|p: RaftPeer| p.hostname@)
}

/// The message of the error for a master host name missing from the journal.
pub open spec fn missing_master_message(h: Seq<char>, peers: Seq<RaftPeer>) -> Seq<char> {
    "hostname '"@ + h + "' from "@ + ENV_MASTER_HOSTNAME@
        + " is not found in journal_addrs. Available hostnames: ["@
        + join(journal_hosts(peers), ", "@) + "]"@
}

/// The master nodes a client uses: the configured master addresses numbered
/// from 100, or the master's own address as node 100 when none is configured.
pub open spec fn master_nodes_of(c: ClusterConf) -> Seq<(u64, Seq<char>, u16)> {
    if c.client.master_addrs@.len() == 0 {
        seq![(100u64, c.master.hostname@, c.master.rpc_port)]
    } else {
        Seq::new(c.client.master_addrs@.len(), |i: int|
            ((100 + i) as u64, c.client.master_addrs@[i].hostname@, c.client.master_addrs@[i].port))
    }
}

/// The view of a node list as (id, host, port) triples.
pub open spec fn nodes_view(v: Seq<NodeAddr>) -> Seq<(u64, Seq<char>, u16)> {
    v.map_values(|n: NodeAddr| (n.id, n.addr.hostname@, n.addr.port))
}

proof fn lemma_nodes_view_push(v: Seq<NodeAddr>, x: NodeAddr)
    ensures
        nodes_view(v.push(x)) == nodes_view(v).push((x.id, x.addr.hostname@, x.addr.port)),
{
    assert(nodes_view(v.push(x)) =~= nodes_view(v).push((x.id, x.addr.hostname@, x.addr.port)));
}

/// The text of an optional string.
pub open spec fn opt_text(o: Option<&str>) -> Option<Seq<char>> {
    match o {
        Some(h) => Some(h@),
        None => None,
    }
}

/// `h` when given, `dflt` otherwise.
pub open spec fn given_or(h: Option<Seq<char>>, dflt: Seq<char>) -> Seq<char> {
    match h {
        Some(v) => v,
        None => dflt,
    }
}

/// `new` is `old` completed by `ClusterConf::resolve` with the host names
/// `m` (master), `w` (worker) and `c` (client) from the environment.
pub open spec fn resolved_from(
    old: ClusterConf,
    new: ClusterConf,
    m: Option<Seq<char>>,
    w: Option<Seq<char>>,
    c: Option<Seq<char>>,
) -> bool {
    &&& new.master.hostname@ == given_or(m, old.master.hostname@)
    &&& new.journal.hostname@ == given_or(m, old.journal.hostname@)
    &&& new.worker.hostname@ == given_or(w, old.worker.hostname@)
    &&& new.client.hostname@ == given_or(c, old.client.hostname@)
    &&& new.journal.journal_addrs == old.journal.journal_addrs
    &&& new.master.rpc_port == old.master.rpc_port
    &&& old.client.master_addrs@.len() > 0 ==> new.client.master_addrs == old.client.master_addrs
    &&& old.client.master_addrs@.len() == 0 ==> {
        &&& new.client.master_addrs@.len() == old.journal.journal_addrs@.len()
        &&& forall|i: int| 0 <= i < new.client.master_addrs@.len() ==>
            (#[trigger] new.client.master_addrs@[i]).hostname@ == old.journal.journal_addrs@[i].hostname@
            && new.client.master_addrs@[i].port == old.master.rpc_port
    }
}

/// Without configured client master addresses, a resolved configuration
/// has one master node per journal peer, numbered from 100, at the peer's
/// host and the master's RPC port; configured addresses are kept as they are.
pub proof fn law_resolved_master_nodes(
    old: ClusterConf,
    new: ClusterConf,
    m: Option<Seq<char>>,
    w: Option<Seq<char>>,
    c: Option<Seq<char>>,
)
    requires
        resolved_from(old, new, m, w, c),
    ensures
        old.client.master_addrs@.len() == 0 && old.journal.journal_addrs@.len() > 0 ==> {
            &&& master_nodes_of(new).len() == old.journal.journal_addrs@.len()
            &&& forall|i: int| 0 <= i < master_nodes_of(new).len() ==> #[trigger] master_nodes_of(new)[i]
                == ((100 + i) as u64, old.journal.journal_addrs@[i].hostname@, old.master.rpc_port)
        },
        old.client.master_addrs@.len() > 0 ==> master_nodes_of(new) == master_nodes_of(old),
{
}

/// There is always at least one master node: the configured client master
/// addresses, one node each, or else the master itself.
pub proof fn law_master_nodes_never_empty(c: ClusterConf)
    ensures
        master_nodes_of(c).len() >= 1,
        c.client.master_addrs@.len() > 0 ==> master_nodes_of(c).len() == c.client.master_addrs@.len(),
        c.client.master_addrs@.len() == 0 ==> master_nodes_of(c)
            == seq![(100u64, c.master.hostname@, c.master.rpc_port)],
{
}

impl ClusterConf {
    /// Checks that the master's host name is one of the journal peers' host
    /// names; the error lists the available host names.
    pub fn check_master_hostname(&mut self) -> (r: Result<(), FsError>)
        ensures
            *final(self) == *old(self),
            r is Ok <==> journal_has_host(old(self).journal.journal_addrs@, old(self).master.hostname@),
            r matches Err(e) ==> (e matches FsError::Common(d) && d.message@
                == missing_master_message(old(self).master.hostname@, old(self).journal.journal_addrs@)),
    {
        let n = self.journal.journal_addrs.len();
        let mut i: usize = 0;
        while i < n
            invariant
                n == self.journal.journal_addrs@.len(),
                i <= n,
                forall|j: int| 0 <= j < i ==> self.journal.journal_addrs@[j].hostname@
                    != self.master.hostname@,
            decreases n - i,
        {
            if self.journal.journal_addrs[i].hostname == self.master.hostname {
                return Ok(());
            }
            i = i + 1;
        }
        let mut hosts: Vec<String> = Vec::new();
        let mut k: usize = 0;
        while k < n
            invariant
                n == self.journal.journal_addrs@.len(),
                k <= n,
                views_of(hosts@) == journal_hosts(self.journal.journal_addrs@).take(k as int),
            decreases n - k,
        {
            let h = self.journal.journal_addrs[k].hostname.clone();
            assert(journal_hosts(self.journal.journal_addrs@)[k as int] == h@);
            let ghost before = hosts@;
            hosts.push(h);
            proof {
                lemma_views_of_push(before, h);
            }
            assert(journal_hosts(self.journal.journal_addrs@).take(k + 1)
                =~= journal_hosts(self.journal.journal_addrs@).take(k as int).push(h@));
            k = k + 1;
        }
        assert(journal_hosts(self.journal.journal_addrs@).take(n as int)
            =~= journal_hosts(self.journal.journal_addrs@));
        let mut m = string_of("hostname '");
        push_str(&mut m, self.master.hostname.as_str());
        push_str(&mut m, "' from ");
        push_str(&mut m, ENV_MASTER_HOSTNAME);
        push_str(&mut m, " is not found in journal_addrs. Available hostnames: [");
        let joined = join_strings(&hosts, ", ");
        push_str(&mut m, joined.as_str());
        push_str(&mut m, "]");
        Err(FsError::Common(ErrorImpl { message: m }))
    }

    /// The master RPC server settings.
    pub fn master_server_conf(&self) -> (r: ServerConf)
        requires
            duration_ms(self.master.io_timeout@) matches Some(ms) && ms <= u64::MAX,
        ensures
            r.name@ == self.cluster_id@ + "-master"@,
            r.hostname@ == self.master.hostname@,
            r.port == self.master.rpc_port,
            r.io_threads == self.master.io_threads,
            r.worker_threads == self.master.worker_threads,
            r.close_idle == self.master.io_close_idle,
            r.timeout_ms == duration_ms(self.master.io_timeout@).unwrap(),
            default_transfer_settings(r),
    {
        let mut conf = ServerConf::with_hostname(self.master.hostname.as_str(), self.master.rpc_port);
        let mut name = self.cluster_id.clone();
        push_str(&mut name, "-master");
        conf.name = name;
        conf.io_threads = self.master.io_threads;
        conf.worker_threads = self.master.worker_threads;
        conf.close_idle = self.master.io_close_idle;
        conf.timeout_ms = self.master.io_timeout_ms();
        conf
    }

    /// The master web server settings.
    pub fn master_web_conf(&self) -> (r: ServerConf)
        ensures
            r.name@ == self.cluster_id@ + "-master"@,
            r.io_threads == self.master.io_threads,
            r.worker_threads == self.master.worker_threads,
            r.hostname@ == self.master.hostname@,
            r.port == self.master.web_port,
            default_connection_settings(r),
            default_transfer_settings(r),
    {
        let mut conf = ServerConf::with_hostname(self.master.hostname.as_str(), self.master.web_port);
        let mut name = self.cluster_id.clone();
        push_str(&mut name, "-master");
        conf.name = name;
        conf.io_threads = self.master.io_threads;
        conf.worker_threads = self.master.worker_threads;
        conf
    }

    /// The worker's RPC address.
    pub fn worker_addr(&self) -> (r: InetAddr)
        ensures
            r.hostname@ == self.worker.hostname@,
            r.port == self.worker.rpc_port,
    {
        InetAddr::new(self.worker.hostname.as_str(), self.worker.rpc_port)
    }

    /// The master's RPC address.
    pub fn master_addr(&self) -> (r: InetAddr)
        ensures
            r.hostname@ == self.master.hostname@,
            r.port == self.master.rpc_port,
    {
        InetAddr::new(self.master.hostname.as_str(), self.master.rpc_port)
    }

    /// All master nodes (see `master_nodes_of`).
    pub fn master_nodes(&self) -> (r: Vec<NodeAddr>)
        requires
            self.client.master_addrs@.len() + 100 <= u64::MAX,
        ensures
            nodes_view(r@) == master_nodes_of(*self),
    {
        let mut map: Vec<NodeAddr> = Vec::new();
        let start: u64 = 100;
        let n = self.client.master_addrs.len();
        if n == 0 {
            map.push(NodeAddr::from_addr(start, self.master_addr()));
            assert(nodes_view(map@) =~= master_nodes_of(*self));
        } else {
            let mut i: usize = 0;
            while i < n
                invariant
                    n == self.client.master_addrs@.len(),
                    n > 0,
                    n + 100 <= u64::MAX,
                    start == 100,
                    i <= n,
                    nodes_view(map@) == master_nodes_of(*self).take(i as int),
                decreases n - i,
            {
                let id = start + i as u64;
                let node = NodeAddr::from_addr(id, self.client.master_addrs[i].duplicate());
                let ghost before = map@;
                map.push(node);
                proof {
                    lemma_nodes_view_push(before, node);
                }
                assert(master_nodes_of(*self).take(i + 1)
                    =~= master_nodes_of(*self).take(i as int).push(master_nodes_of(*self)[i as int]));
                i = i + 1;
            }
            assert(master_nodes_of(*self).take(n as int) =~= master_nodes_of(*self));
        }
        map
    }

    /// The master nodes' addresses as `host:port`, separated by commas.
    pub fn masters_string(&self) -> (r: String)
        ensures
            r@ == join(master_nodes_of(*self).map_values(
                |t: (u64, Seq<char>, u16)| addr_text(t.1, t.2)), ","@),
    {
        let ghost target = master_nodes_of(*self).map_values(
            |t: (u64, Seq<char>, u16)| addr_text(t.1, t.2));
        let mut parts: Vec<String> = Vec::new();
        let n = self.client.master_addrs.len();
        if n == 0 {
            let t = self.master_addr().to_string();
            parts.push(t);
            proof {
                lemma_views_of_push(Seq::<String>::empty(), t);
            }
            assert(views_of(Seq::<String>::empty()) =~= Seq::<Seq<char>>::empty());
            assert(views_of(parts@) =~= target);
        } else {
            let mut i: usize = 0;
            assert(views_of(parts@) =~= target.take(0));
            while i < n
                invariant
                    n == self.client.master_addrs@.len(),
                    n > 0,
                    i <= n,
                    target == master_nodes_of(*self).map_values(
                        |t: (u64, Seq<char>, u16)| addr_text(t.1, t.2)),
                    views_of(parts@) == target.take(i as int),
                decreases n - i,
            {
                let t = self.client.master_addrs[i].to_string();
                assert(target[i as int] == t@);
                let ghost before = parts@;
                parts.push(t);
                proof {
                    lemma_views_of_push(before, t);
                }
                assert(target.take(i + 1) =~= target.take(i as int).push(t@));
                i = i + 1;
            }
            assert(target.take(n as int) =~= target);
        }
        join_strings(&parts, ",")
    }

    /// The worker RPC server settings.
    pub fn worker_server_conf(&self) -> (r: ServerConf)
        requires
            duration_ms(self.worker.io_timeout@) matches Some(ms) && ms <= u64::MAX,
        ensures
            r.name@ == self.cluster_id@ + "-worker"@,
            r.hostname@ == self.worker.hostname@,
            r.port == self.worker.rpc_port,
            r.io_threads == self.worker.io_threads,
            r.worker_threads == self.worker.worker_threads,
            r.close_idle == self.worker.io_close_idle,
            r.timeout_ms == duration_ms(self.worker.io_timeout@).unwrap(),
            r.enable_splice == self.worker.enable_splice,
            r.pipe_buf_size == self.worker.pipe_buf_size,
            r.pipe_pool_init_cap == self.worker.pipe_pool_init_cap,
            r.pipe_pool_max_cap == self.worker.pipe_pool_max_cap,
            r.pipe_pool_idle_time == self.worker.pipe_pool_idle_time,
            r.enable_send_file == self.worker.enable_send_file,
    {
        let mut conf = ServerConf::with_hostname(self.worker.hostname.as_str(), self.worker.rpc_port);
        let mut name = self.cluster_id.clone();
        push_str(&mut name, "-worker");
        conf.name = name;
        conf.io_threads = self.worker.io_threads;
        conf.worker_threads = self.worker.worker_threads;
        conf.close_idle = self.worker.io_close_idle;
        conf.timeout_ms = self.worker.io_timeout_ms();
        conf.enable_splice = self.worker.enable_splice;
        conf.pipe_buf_size = self.worker.pipe_buf_size;
        conf.pipe_pool_init_cap = self.worker.pipe_pool_init_cap;
        conf.pipe_pool_max_cap = self.worker.pipe_pool_max_cap;
        conf.pipe_pool_idle_time = self.worker.pipe_pool_idle_time;
        conf.enable_send_file = self.worker.enable_send_file;
        conf
    }

    /// The worker web server settings.
    pub fn worker_web_conf(&self) -> (r: ServerConf)
        ensures
            r.name@ == self.cluster_id@ + "-web"@,
            r.io_threads == self.worker.io_threads,
            r.worker_threads == self.worker.worker_threads,
            r.hostname@ == self.worker.hostname@,
            r.port == self.worker.web_port,
            default_connection_settings(r),
            default_transfer_settings(r),
    {
        let mut conf = ServerConf::with_hostname(self.worker.hostname.as_str(), self.worker.web_port);
        let mut name = self.cluster_id.clone();
        push_str(&mut name, "-web");
        conf.name = name;
        conf.io_threads = self.worker.io_threads;
        conf.worker_threads = self.worker.worker_threads;
        conf
    }

    /// The default configuration with the master formatted at start.
    pub fn format() -> (r: Self)
        ensures
            is_default_cluster(r),
    {
        let mut c = Self::default();
        c.format_master = true;
        c
    }

    /// Places the test metadata and journal under `base`.
    pub fn set_test_meta_dir(&mut self, base: &str)
        ensures
            final(self).master.meta_dir@ == base@ + "/meta"@,
            final(self).journal.journal_dir@ == base@ + "/journal"@,
            *final(self) == (ClusterConf {
                master: MasterConf { meta_dir: final(self).master.meta_dir, ..old(self).master },
                journal: JournalConf { journal_dir: final(self).journal.journal_dir, ..old(self).journal },
                ..*old(self)
            }),
    {
        let mut meta = string_of(base);
        push_str(&mut meta, "/meta");
        let mut journal = string_of(base);
        push_str(&mut journal, "/journal");
        self.master.meta_dir = meta;
        self.journal.journal_dir = journal;
    }

    /// The metadata store settings, placed in the master's metadata
    /// directory.
    pub fn db_conf(&self) -> (r: DBConf)
        ensures
            r.data_dir@ == self.master.meta_dir@,
    {
        let db = DBConf { data_dir: self.master.rocksdb.data_dir.clone() };
        db.set_dir(self.master.meta_dir.as_str())
    }

    /// The RPC retry policy of the client.
    pub fn io_retry_policy_builder(&self) -> (r: TimeBondedRetryBuilder)
        ensures
            r.max_duration_ms == self.client.rpc_retry_max_duration_ms,
            r.min_sleep_ms == self.client.rpc_retry_min_sleep_ms,
            r.max_sleep_ms == self.client.rpc_retry_max_sleep_ms,
    {
        TimeBondedRetryBuilder {
            max_duration_ms: self.client.rpc_retry_max_duration_ms,
            min_sleep_ms: self.client.rpc_retry_min_sleep_ms,
            max_sleep_ms: self.client.rpc_retry_max_sleep_ms,
        }
    }

    /// Completes a configuration read from a file: host names given in the
    /// environment override the file (the master's also becomes the
    /// journal's), and when no master address is configured for clients,
    /// every journal peer becomes one, on the master's RPC port.
    pub fn resolve(
        &mut self,
        master_hostname: Option<&str>,
        worker_hostname: Option<&str>,
        client_hostname: Option<&str>,
    )
        ensures
            resolved_from(*old(self), *final(self), opt_text(master_hostname),
                opt_text(worker_hostname), opt_text(client_hostname)),
    {
        if let Some(h) = master_hostname {
            self.master.hostname = string_of(h);
            self.journal.hostname = string_of(h);
        }
        if let Some(h) = worker_hostname {
            self.worker.hostname = string_of(h);
        }
        if let Some(h) = client_hostname {
            self.client.hostname = string_of(h);
        }
        if self.client.master_addrs.len() == 0 {
            let n = self.journal.journal_addrs.len();
            let port = self.master.rpc_port;
            let mut addrs: Vec<InetAddr> = Vec::new();
            let mut i: usize = 0;
            while i < n
                invariant
                    n == self.journal.journal_addrs@.len(),
                    i <= n,
                    addrs@.len() == i,
                    forall|j: int| 0 <= j < i ==> (#[trigger] addrs@[j]).hostname@
                        == self.journal.journal_addrs@[j].hostname@ && addrs@[j].port == port,
                decreases n - i,
            {
                addrs.push(InetAddr::new(self.journal.journal_addrs[i].hostname.as_str(), port));
                i = i + 1;
            }
            self.client.master_addrs = addrs;
        }
    }
}

/// The cluster settings `ClusterConf::default` gives: both sides formatted
/// at start, not testing, cluster `curvine`, and every section at its own
/// defaults.
pub open spec fn is_default_cluster(r: ClusterConf) -> bool {
    &&& r.format_master
    &&& r.format_worker
    &&& !r.testing
    &&& r.cluster_id@ == "curvine"@
    &&& is_default_master(r.master)
    &&& is_default_journal(r.journal)
    &&& is_default_worker(r.worker)
    &&& is_default_client(r.client)
    &&& is_default_fuse(r.fuse)
}

impl Default for ClusterConf {
    fn default() -> (r: Self)
        ensures
            is_default_cluster(r),
    {
        ClusterConf {
            format_master: true,
            format_worker: true,
            testing: false,
            cluster_id: string_of("curvine"),
            master: MasterConf::default(),
            journal: JournalConf::default(),
            worker: WorkerConf::default(),
            client: ClientConf::default(),
            fuse: FuseConf::default(),
        }
    }
}

} // verus!
