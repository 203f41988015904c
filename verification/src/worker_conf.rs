//! Worker configuration: data directories and I/O settings.

use vstd::prelude::*;
use crate::errors::{FsError, ErrorImpl};
use crate::text::{chars_of, decimal, string_of, push_decimal, push_str, push_char, has_prefix,
    str_starts_with};
use crate::units::{ascii_lower_seq, ascii_lowercase, chars_eq_str, parse_byte_size,
    parse_duration_ms, byte_size, duration_ms, fits_u64};
use crate::conf::{DEFAULT_HOSTNAME, DEFAULT_WORKER_PORT, DEFAULT_WORKER_WEB_PORT};

verus! {

/// The storage medium of a worker data directory.
#[derive(PartialEq, Eq, Structural, Clone, Copy, Debug)]
pub enum StorageType {
    Mem,
    Ssd,
    Hdd,
    Ufs,
    Disk,
    SpdkDisk,
}

/// The storage type a name denotes, compared without regard to ASCII case;
/// unknown names denote a plain disk.
pub open spec fn storage_type_named(name: Seq<char>) -> StorageType {
    let l = ascii_lower_seq(name);
    if l == "mem"@ {
        StorageType::Mem
    } else if l == "ssd"@ {
        StorageType::Ssd
    } else if l == "hdd"@ {
        StorageType::Hdd
    } else if l == "ufs"@ {
        StorageType::Ufs
    } else if l == "spdk_disk"@ {
        StorageType::SpdkDisk
    } else {
        StorageType::Disk
    }
}

impl StorageType {
    /// The storage type named `name` (see `storage_type_named`).
    pub fn from_str_name(name: &str) -> (r: StorageType)
        ensures
            r == storage_type_named(name@),
    {
        let l = ascii_lowercase(&chars_of(name));
        if chars_eq_str(&l, "mem") {
            StorageType::Mem
        } else if chars_eq_str(&l, "ssd") {
            StorageType::Ssd
        } else if chars_eq_str(&l, "hdd") {
            StorageType::Hdd
        } else if chars_eq_str(&l, "ufs") {
            StorageType::Ufs
        } else if chars_eq_str(&l, "spdk_disk") {
            StorageType::SpdkDisk
        } else {
            StorageType::Disk
        }
    }
}

/// Whether a character has the Unicode `Alphabetic` property, as
/// `char::is_alphabetic` decides.
pub uninterp spec fn unicode_alphabetic(c: char) -> bool;

/// Calls `char::is_alphabetic`; its result is named `unicode_alphabetic`.
#[verifier::external_body]
fn char_is_alphabetic(c: char) -> (r: bool)
    ensures
        r == unicode_alphabetic(c),
{
    c.is_alphabetic()
}

/// What compiling the regular expression `pattern` with the `regex` crate and
/// matching it against `text` gives: the compile error's message, no match, or
/// the capture groups (group 0 first; a group that did not participate is
/// `None`).
pub uninterp spec fn regex_captures_of(pattern: Seq<char>, text: Seq<char>)
    -> Result<Option<Seq<Option<Seq<char>>>>, Seq<char>>;

/// The plain-value view of a capture result.
pub open spec fn captures_view(r: Result<Option<Vec<Option<String>>>, String>)
    -> Result<Option<Seq<Option<Seq<char>>>>, Seq<char>>
{
    match r {
        Ok(None) => Ok(None),
        Ok(Some(v)) => Ok(Some(v@.map_values(|o: Option<String>| match o {
            Some(s) => Some(s@),
            None => None,
        }))),
        Err(e) => Err(e@),
    }
}

/// Calls `regex::Regex::new(pattern)` and then `Regex::captures(text)`; the
/// result is named `regex_captures_of` of the two strings. For the data
/// directory pattern it also claims what that pattern plainly means: it
/// compiles; a text not starting with `[` does not match; and a match has
/// three groups, the whole text first, then the text between the leading
/// `[` and the first `]`, then the non-empty rest, which holds no newline.
/// Which texts do match is left unsaid: that depends on the Unicode `\w`
/// class of the `regex` crate.
#[verifier::external_body]
fn regex_captures(pattern: &str, text: &str) -> (r: Result<Option<Vec<Option<String>>>, String>)
    ensures
        captures_view(r) == regex_captures_of(pattern@, text@),
        pattern@ == data_dir_pattern() ==> data_dir_match_facts(text@, captures_view(r)),
{
    match regex::Regex::new(pattern) {
        Ok(re) => Ok(re.captures(text).map(
            |caps| caps.iter().map(|m| m.map(|m| m.as_str().to_string())).collect(),
        )),
        Err(e) => Err(e.to_string()),
    }
}

/// The pattern of a data directory entry: `[TYPE:CAPACITY]PATH`.
pub open spec fn data_dir_pattern() -> Seq<char> {
    "^\\[([\\w:]*)\\](.+)$"@
}

/// `s` is `[prefix]path`, with no `]` in the prefix and a non-empty path
/// on one line.
pub open spec fn bracketed_entry(s: Seq<char>, prefix: Seq<char>, path: Seq<char>) -> bool {
    &&& s == "["@ + prefix + "]"@ + path
    &&& path.len() > 0
    &&& !prefix.contains(']')
    &&& !path.contains('\n')
}

/// What matching `text` against `data_dir_pattern` gives, as far as the
/// pattern's text shows: no compile error, no match unless `text` starts
/// with `[`, and on a match the whole text, the bracketed prefix and the path
/// as groups 0, 1 and 2.
pub open spec fn data_dir_match_facts(
    text: Seq<char>,
    m: Result<Option<Seq<Option<Seq<char>>>>, Seq<char>>,
) -> bool {
    &&& m is Ok
    &&& !has_prefix(text, "["@) ==> m == Ok::<Option<Seq<Option<Seq<char>>>>, Seq<char>>(None)
    &&& m matches Ok(Some(caps)) ==> {
        &&& caps.len() == 3
        &&& caps[0] == Some(text)
        &&& caps[1] is Some
        &&& caps[2] is Some
        &&& bracketed_entry(text, caps[1]->Some_0, caps[2]->Some_0)
    }
}

/// Capture group `i`, or the empty text when it is absent.
pub open spec fn group_text(caps: Seq<Option<Seq<char>>>, i: int) -> Seq<char> {
    if 0 <= i < caps.len() {
        match caps[i] {
            Some(g) => g,
            None => Seq::empty(),
        }
    } else {
        Seq::empty()
    }
}

/// `s` split at every occurrence of `sep` (always at least one part).
pub open spec fn split_seq(s: Seq<char>, sep: char) -> Seq<Seq<char>>
    decreases s.len(),
{
    if s.len() == 0 {
        seq![Seq::empty()]
    } else {
        let p = split_seq(s.drop_last(), sep);
        if s.last() == sep {
            p.push(Seq::empty())
        } else {
            p.update(p.len() - 1, p.last().push(s.last()))
        }
    }
}

proof fn lemma_split_nonempty(s: Seq<char>, sep: char)
    ensures
        split_seq(s, sep).len() >= 1,
    decreases s.len(),
{
    if s.len() > 0 {
        lemma_split_nonempty(s.drop_last(), sep);
    }
}

/// Every character is alphabetic or an underscore.
pub open spec fn valid_storage_name(s: Seq<char>) -> bool {
    forall|i: int| 0 <= i < s.len() ==> unicode_alphabetic(#[trigger] s[i]) || s[i] == '_'
}

/// `path` made absolute against the working directory `cwd`.
pub open spec fn absolute_path(path: Seq<char>, cwd: Seq<char>) -> Seq<char> {
    if has_prefix(path, "/"@) {
        path
    } else {
        cwd + "/"@ + path
    }
}

/// A parsed data directory before its path is made absolute.
pub struct DataDirSpec {
    pub storage_type: StorageType,
    pub capacity: u64,
    pub path: Seq<char>,
}

/// The storage type name and capacity text a non-empty `[...]` prefix
/// denotes, or `None` when it has more than two `:`-separated parts.
pub open spec fn prefix_parts(prefix: Seq<char>) -> Option<(Seq<char>, Seq<char>)> {
    let arr = split_seq(prefix, ':');
    if arr.len() == 1 {
        if valid_storage_name(arr[0]) {
            Some((arr[0], "0"@))
        } else {
            Some(("disk"@, arr[0]))
        }
    } else if arr.len() == 2 {
        Some((arr[0], arr[1]))
    } else {
        None
    }
}

/// The message of the error for a malformed data directory entry.
pub open spec fn incorrect_format_message(s: Seq<char>) -> Seq<char> {
    "Incorrect data format "@ + s
}

/// The message of the error for an unreadable capacity.
pub open spec fn bad_capacity_message(cap: Seq<char>) -> Seq<char> {
    "Invalid byte size "@ + cap
}

/// How a data directory entry parses: `[TYPE]PATH`, `[CAPACITY]PATH`,
/// `[TYPE:CAPACITY]PATH`, or a bare `PATH` (a disk of capacity 0); the error
/// is the message of the failure.
pub open spec fn parse_data_dir(s: Seq<char>) -> Result<DataDirSpec, Seq<char>> {
    match regex_captures_of(data_dir_pattern(), s) {
        Err(m) => Err(m),
        Ok(None) => Ok(DataDirSpec { storage_type: StorageType::Disk, capacity: 0, path: s }),
        Ok(Some(caps)) => data_dir_from_groups(s, caps),
    }
}

/// How entry `s` parses once the pattern matched with capture groups `caps`:
/// an empty `[]` prefix gives a plain disk at `s`; otherwise the prefix names
/// the storage type and capacity of the path in group 2.
pub open spec fn data_dir_from_groups(s: Seq<char>, caps: Seq<Option<Seq<char>>>)
    -> Result<DataDirSpec, Seq<char>>
{
    let prefix = group_text(caps, 1);
    let path = group_text(caps, 2);
    if prefix.len() == 0 {
        Ok(DataDirSpec { storage_type: StorageType::Disk, capacity: 0, path: s })
    } else {
        match prefix_parts(prefix) {
            None => Err(incorrect_format_message(s)),
            Some((stg, cap)) => match fits_u64(byte_size(cap)) {
                None => Err(bad_capacity_message(cap)),
                Some(bytes) => Ok(DataDirSpec {
                    storage_type: storage_type_named(stg),
                    capacity: bytes,
                    path,
                }),
            },
        }
    }
}

/// The plain-value view of capture groups.
pub open spec fn groups_view(caps: Seq<Option<String>>) -> Seq<Option<Seq<char>>> {
    caps.map_values(|o: Option<String>| match o {
        Some(s) => Some(s@),
        None => None,
    })
}

/// One data directory of a worker.
#[derive(Debug)]
pub struct WorkerDataDir {
    pub storage_type: StorageType,
    pub capacity: u64,
    pub path: String,
}

fn split_on(s: &Vec<char>, sep: char) -> (r: Vec<Vec<char>>)
    ensures
        r@.map_values(|v: Vec<char>| v@) == split_seq(s@, sep),
{
    let mut parts: Vec<Vec<char>> = Vec::new();
    let mut cur: Vec<char> = Vec::new();
    let mut i: usize = 0;
    assert(s@.take(0) =~= Seq::<char>::empty());
    assert(parts@.map_values(|v: Vec<char>| v@).push(cur@) =~= split_seq(s@.take(0), sep));
    while i < s.len()
        invariant
            i <= s@.len(),
            parts@.map_values(|v: Vec<char>| v@).push(cur@) == split_seq(s@.take(i as int), sep),
        decreases s@.len() - i,
    {
        let c = s[i];
        let ghost prev = s@.take(i as int);
        assert(s@.take(i + 1).drop_last() =~= prev);
        assert(s@.take(i + 1).last() == c);
        if c == sep {
            parts.push(cur);
            cur = Vec::new();
            assert(parts@.map_values(|v: Vec<char>| v@).push(cur@)
                =~= split_seq(s@.take(i + 1), sep));
        } else {
            cur.push(c);
            assert(parts@.map_values(|v: Vec<char>| v@).push(cur@)
                =~= split_seq(s@.take(i + 1), sep));
        }
        i = i + 1;
    }
    parts.push(cur);
    assert(s@.take(s@.len() as int) =~= s@);
    assert(parts@.map_values(|v: Vec<char>| v@) =~= split_seq(s@, sep));
    parts
}

fn is_valid_storage_chars(s: &Vec<char>) -> (r: bool)
    ensures
        r == valid_storage_name(s@),
{
    let mut i: usize = 0;
    while i < s.len()
        invariant
            i <= s@.len(),
            forall|j: int| 0 <= j < i ==> unicode_alphabetic(#[trigger] s@[j]) || s@[j] == '_',
        decreases s@.len() - i,
    {
        let c = s[i];
        if !char_is_alphabetic(c) && c != '_' {
            return false;
        }
        i = i + 1;
    }
    true
}

fn group_of(caps: &Vec<Option<String>>, i: usize) -> (r: String)
    ensures
        r@ == group_text(groups_view(caps@), i as int),
{
    if i < caps.len() {
        match &caps[i] {
            Some(g) => g.clone(),
            None => String::new(),
        }
    } else {
        String::new()
    }
}

fn string_from_chars(v: &Vec<char>) -> (r: String)
    ensures
        r@ == v@,
{
    let mut r = String::new();
    let mut i: usize = 0;
    while i < v.len()
        invariant
            i <= v@.len(),
            r@ == v@.take(i as int),
        decreases v@.len() - i,
    {
        push_char(&mut r, v[i]);
        i = i + 1;
        assert(r@ =~= v@.take(i as int));
    }
    assert(v@.take(v@.len() as int) =~= v@);
    r
}

impl WorkerDataDir {
    /// A data directory; a relative `path` is taken relative to `cwd`, the
    /// process's working directory.
    pub fn new(storage_type: StorageType, capacity: u64, path: &str, cwd: &str) -> (r: Self)
        ensures
            r.storage_type == storage_type,
            r.capacity == capacity,
            r.path@ == absolute_path(path@, cwd@),
    {
        let abs = if str_starts_with(path, "/") {
            string_of(path)
        } else {
            let mut a = string_of(cwd);
            push_str(&mut a, "/");
            push_str(&mut a, path);
            a
        };
        WorkerDataDir { storage_type, capacity, path: abs }
    }

    /// A plain disk directory of capacity 0.
    fn with_path(path: &str, cwd: &str) -> (r: Self)
        ensures
            r.storage_type == StorageType::Disk,
            r.capacity == 0,
            r.path@ == absolute_path(path@, cwd@),
    {
        Self::new(StorageType::Disk, 0, path, cwd)
    }

    /// Whether `s` can be a storage type name: only alphabetic characters and
    /// underscores.
    pub fn is_valid_storage_type(s: &str) -> (r: bool)
        ensures
            r == valid_storage_name(s@),
    {
        is_valid_storage_chars(&chars_of(s))
    }

    /// The storage type named `s`.
    pub fn parse_stg_type(s: &str) -> (r: StorageType)
        ensures
            r == storage_type_named(s@),
    {
        StorageType::from_str_name(s)
    }

    /// Parses a data directory entry (see `parse_data_dir`); relative paths
    /// are taken relative to `cwd`.
    pub fn from_str(s: &str, cwd: &str) -> (r: Result<Self, FsError>)
        ensures
            match parse_data_dir(s@) {
                Ok(d) => r matches Ok(w) && w.storage_type == d.storage_type
                    && w.capacity == d.capacity && w.path@ == absolute_path(d.path, cwd@),
                Err(m) => r matches Err(e) && (e matches FsError::Common(x) && x.message@ == m),
            },
            !has_prefix(s@, "["@) ==> parse_data_dir(s@)
                == Ok::<DataDirSpec, Seq<char>>(DataDirSpec { storage_type: StorageType::Disk, capacity: 0, path: s@ }),
            parse_data_dir(s@) is Err ==> has_prefix(s@, "["@),
            parse_data_dir(s@) matches Ok(d) ==> (d.path != s@ ==> bracketed_entry(s@,
                s@.subrange(1, s@.len() - d.path.len() - 1), d.path)),
    {
        let pattern = "^\\[([\\w:]*)\\](.+)$";
        proof {
            reveal_strlit("^\\[([\\w:]*)\\](.+)$");
        }
        assert(pattern@ == data_dir_pattern());
        match regex_captures(pattern, s) {
            Err(m) => Err(FsError::Common(ErrorImpl { message: m })),
            Ok(None) => Ok(Self::with_path(s, cwd)),
            Ok(Some(caps)) => {
                let ghost cv = captures_view(Ok::<Option<Vec<Option<String>>>, String>(Some(caps)));
                assert(groups_view(caps@) =~= cv->Ok_0->Some_0);
                proof {
                    let g = groups_view(caps@);
                    let g1 = g[1]->Some_0;
                    let g2 = g[2]->Some_0;
                    assert(group_text(g, 1) == g1);
                    assert(group_text(g, 2) == g2);
                    reveal_strlit("[");
                    reveal_strlit("]");
                    assert(bracketed_entry(s@, g1, g2));
                    assert(s@ == "["@ + g1 + "]"@ + g2);
                    assert(s@.len() == g1.len() + g2.len() + 2);
                    assert(s@.subrange(1, s@.len() - g2.len() - 1) =~= g1);
                    assert(s@.subrange(0, 1) =~= "["@);
                }
                Self::from_captures(s, &caps, cwd)
            },
        }
    }

    /// Builds the data directory of entry `s` from the capture groups of its
    /// match against `data_dir_pattern` (see `data_dir_from_groups`);
    /// relative paths are taken relative to `cwd`.
    pub fn from_captures(s: &str, caps: &Vec<Option<String>>, cwd: &str) -> (r: Result<Self, FsError>)
        ensures
            match data_dir_from_groups(s@, groups_view(caps@)) {
                Ok(d) => r matches Ok(w) && w.storage_type == d.storage_type
                    && w.capacity == d.capacity && w.path@ == absolute_path(d.path, cwd@),
                Err(m) => r matches Err(e) && (e matches FsError::Common(x) && x.message@ == m),
            },
    {
        let prefix = group_of(caps, 1);
        let path = group_of(caps, 2);
        let pchars = chars_of(prefix.as_str());
        if pchars.len() == 0 {
            return Ok(Self::with_path(s, cwd));
        }
        let arr = split_on(&pchars, ':');
        proof {
            lemma_split_nonempty(prefix@, ':');
        }
        assert(arr@.len() == split_seq(prefix@, ':').len());
        let (stg, cap): (String, String) = if arr.len() == 1 {
            assert(arr@[0]@ == split_seq(prefix@, ':')[0]);
            if is_valid_storage_chars(&arr[0]) {
                (string_from_chars(&arr[0]), string_of("0"))
            } else {
                (string_of("disk"), string_from_chars(&arr[0]))
            }
        } else if arr.len() == 2 {
            assert(arr@[0]@ == split_seq(prefix@, ':')[0]);
            assert(arr@[1]@ == split_seq(prefix@, ':')[1]);
            (string_from_chars(&arr[0]), string_from_chars(&arr[1]))
        } else {
            let mut m = string_of("Incorrect data format ");
            push_str(&mut m, s);
            return Err(FsError::Common(ErrorImpl { message: m }));
        };
        let bytes = match parse_byte_size(cap.as_str()) {
            Some(b) => b,
            None => {
                let mut m = string_of("Invalid byte size ");
                push_str(&mut m, cap.as_str());
                return Err(FsError::Common(ErrorImpl { message: m }));
            },
        };
        Ok(Self::new(Self::parse_stg_type(stg.as_str()), bytes, path.as_str(), cwd))
    }

    /// The directory of cluster `cluster_id` inside this data directory.
    pub fn storage_path(&self, cluster_id: &str) -> (r: String)
        ensures
            r@ == self.path@ + "/"@ + cluster_id@,
    {
        let mut r = self.path.clone();
        push_str(&mut r, "/");
        push_str(&mut r, cluster_id);
        r
    }

    /// The directory's path.
    pub fn path_str(&self) -> (r: &str)
        ensures
            r@ == self.path@,
    {
        self.path.as_str()
    }
}

/// The SPDK (NVMe over fabrics) settings of a worker.
#[derive(Debug)]
pub struct SpdkConf {
    pub enabled: bool,
}

/// Worker configuration.
#[derive(Debug)]
pub struct WorkerConf {
    pub hostname: String,
    pub rpc_port: u16,
    pub web_port: u16,
    pub dir_reserved: String,
    pub data_dir: Vec<String>,
    pub io_slow_threshold: String,
    pub io_threads: usize,
    pub worker_threads: usize,
    /// Network read/write timeout of worker connections.
    pub io_timeout: String,
    pub io_close_idle: bool,
    pub scheduler_threads: usize,
    /// Number of asynchronous task threads.
    pub executor_threads: usize,
    /// Asynchronous task queue size.
    pub executor_channel_size: usize,
    pub enable_splice: bool,
    pub enable_send_file: bool,
    pub pipe_buf_size: usize,
    pub pipe_pool_init_cap: usize,
    pub pipe_pool_max_cap: usize,
    pub pipe_pool_idle_time: usize,
    pub block_replication_concurrency_limit: usize,
    pub block_replication_chunk_size: usize,
    pub spdk_disk: SpdkConf,
}

impl WorkerConf {
    /// The slow-I/O threshold in microseconds (millisecond precision).
    pub fn io_slow_us(&self) -> (r: u64)
        requires
            duration_ms(self.io_slow_threshold@) matches Some(ms) && ms * 1000 <= u64::MAX,
        ensures
            r == duration_ms(self.io_slow_threshold@).unwrap() * 1000,
    {
        let ms = parse_duration_ms(self.io_slow_threshold.as_str()).unwrap();
        ms * 1000
    }

    /// The I/O timeout in milliseconds.
    pub fn io_timeout_ms(&self) -> (r: u64)
        requires
            duration_ms(self.io_timeout@) matches Some(ms) && ms <= u64::MAX,
        ensures
            r == duration_ms(self.io_timeout@).unwrap(),
    {
        parse_duration_ms(self.io_timeout.as_str()).unwrap()
    }
}

/// The message of the error for SPDK data directories in a build without
/// SPDK support.
pub open spec fn spdk_unsupported_message() -> Seq<char> {
    "SPDK is not enabled. Compile with --features spdk to use SPDK"@
}

impl WorkerConf {
    /// Refuses a configuration that enables SPDK disks, which this build
    /// cannot serve.
    pub fn check_spdk_support(&self) -> (r: Result<(), FsError>)
        ensures
            r is Ok <==> !self.spdk_disk.enabled,
            r matches Err(e) ==> (e matches FsError::Common(d) && d.message@ == spdk_unsupported_message()),
    {
        if self.spdk_disk.enabled {
            return Err(FsError::Common(ErrorImpl::new(
                "SPDK is not enabled. Compile with --features spdk to use SPDK")));
        }
        Ok(())
    }
}

/// Entry `s` parses as a data directory on an SPDK disk.
pub open spec fn is_spdk_dir_entry(s: Seq<char>) -> bool {
    parse_data_dir(s) matches Ok(d) && d.storage_type == StorageType::SpdkDisk
}

/// How many of the first `n` entries of `dirs` are SPDK data directories.
pub open spec fn spdk_dir_count(dirs: Seq<String>, n: int) -> nat
    decreases n,
{
    if n <= 0 {
        0
    } else {
        spdk_dir_count(dirs, n - 1) + (if is_spdk_dir_entry(dirs[n - 1]@) { 1nat } else { 0nat })
    }
}

/// The message of the error for more SPDK data directories than bdevs.
pub open spec fn too_few_bdevs_message(dirs: nat, bdevs: nat) -> Seq<char> {
    "Configuration has "@ + decimal(dirs) + " SPDK data_dir entries but only "@ + decimal(bdevs)
        + " bdev(s) were discovered. Multiple dirs would map to the same NVMe namespace, causing data corruption. Either reduce SPDK data_dir entries or add more NVMe-oF targets."@
}

impl WorkerConf {
    /// The number of data directory entries on SPDK disks; an entry that
    /// does not parse counts as none.
    pub fn num_spdk_dirs(&self, cwd: &str) -> (r: usize)
        ensures
            r == spdk_dir_count(self.data_dir@, self.data_dir@.len() as int),
    {
        let mut count: usize = 0;
        let mut i: usize = 0;
        while i < self.data_dir.len()
            invariant
                i <= self.data_dir@.len(),
                count <= i,
                count == spdk_dir_count(self.data_dir@, i as int),
            decreases self.data_dir@.len() - i,
        {
            let spdk = match WorkerDataDir::from_str(self.data_dir[i].as_str(), cwd) {
                Ok(d) => d.storage_type == StorageType::SpdkDisk,
                Err(_) => false,
            };
            if spdk {
                count = count + 1;
            }
            i = i + 1;
        }
        count
    }
}

/// Checks that every SPDK data directory has a bdev of its own: each
/// directory maps to one NVMe namespace, so more directories than bdevs is
/// refused. Otherwise gives how many bdevs stay unused, worth a warning
/// when it is not 0 (none are counted when no directory is on SPDK).
pub fn check_spdk_bdevs(num_spdk_dirs: usize, num_bdevs: usize) -> (r: Result<usize, FsError>)
    ensures
        r is Err <==> num_spdk_dirs > num_bdevs,
        r matches Err(e) ==> (e matches FsError::Common(d)
            && d.message@ == too_few_bdevs_message(num_spdk_dirs as nat, num_bdevs as nat)),
        r matches Ok(unused) ==> unused == (if num_spdk_dirs > 0 { num_bdevs - num_spdk_dirs } else { 0 }),
{
    if num_spdk_dirs > num_bdevs {
        let mut m = string_of("Configuration has ");
        push_decimal(&mut m, num_spdk_dirs as u64);
        push_str(&mut m, " SPDK data_dir entries but only ");
        push_decimal(&mut m, num_bdevs as u64);
        push_str(&mut m, " bdev(s) were discovered. Multiple dirs would map to the same NVMe namespace, causing data corruption. Either reduce SPDK data_dir entries or add more NVMe-oF targets.");
        return Err(FsError::Common(ErrorImpl { message: m }));
    }
    if num_spdk_dirs > 0 {
        Ok(num_bdevs - num_spdk_dirs)
    } else {
        Ok(0)
    }
}

/// The worker settings `WorkerConf::default` gives.
pub open spec fn is_default_worker(r: WorkerConf) -> bool {
    &&& r.hostname@ == DEFAULT_HOSTNAME@
    &&& r.rpc_port == DEFAULT_WORKER_PORT
    &&& r.web_port == DEFAULT_WORKER_WEB_PORT
    &&& r.dir_reserved@ == "0"@
    &&& r.data_dir@.len() == 0
    &&& r.io_slow_threshold@ == "300ms"@
    &&& r.io_threads == 32
    &&& r.worker_threads == 32
    &&& r.io_timeout@ == "10m"@
    &&& !r.io_close_idle
    &&& r.scheduler_threads == 2
    &&& r.executor_threads == 10
    &&& r.executor_channel_size == 1000
    &&& !r.enable_splice
    &&& r.enable_send_file
    &&& r.pipe_buf_size == 64 * 1024
    &&& r.pipe_pool_init_cap == 0
    &&& r.pipe_pool_max_cap == 2000
    &&& r.pipe_pool_idle_time == 0
    &&& r.block_replication_concurrency_limit == 100
    &&& r.block_replication_chunk_size == 1024 * 1024
    &&& !r.spdk_disk.enabled
}

impl Default for WorkerConf {
    fn default() -> (r: Self)
        ensures
            is_default_worker(r),
    {
        WorkerConf {
            hostname: string_of(DEFAULT_HOSTNAME),
            rpc_port: DEFAULT_WORKER_PORT,
            web_port: DEFAULT_WORKER_WEB_PORT,
            dir_reserved: string_of("0"),
            data_dir: Vec::new(),
            io_slow_threshold: string_of("300ms"),
            io_threads: 32,
            worker_threads: 32,
            io_timeout: string_of("10m"),
            io_close_idle: false,
            scheduler_threads: 2,
            executor_threads: 10,
            executor_channel_size: 1000,
            enable_splice: false,
            enable_send_file: true,
            pipe_buf_size: 64 * 1024,
            pipe_pool_init_cap: 0,
            pipe_pool_max_cap: 2000,
            pipe_pool_idle_time: 0,
            block_replication_concurrency_limit: 100,
            block_replication_chunk_size: 1024 * 1024,
            spdk_disk: SpdkConf { enabled: false },
        }
    }
}

} // verus!
