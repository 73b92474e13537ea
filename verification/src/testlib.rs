//! The layout of a test cluster: which pools and replicas each mayastor
//! node gets, and how they are named; and how a test judges a REST reply
//! against the expected result.
use crate::deployer::{mayastor_name, Mayastor, StartOptions};
use crate::ids::{nil_uuid_text, NodeId, PoolId, ReplicaId};
use crate::text::{decimal, hex_padded, push_decimal, push_hex_padded, string_of};
use crate::v0::{CreatePool, CreateReplica, Protocol, ReplicaOwners};
use vstd::prelude::*;
use vstd::string::{StrSliceExecFns, StringExecFns};

verus! {

/// The disk of a test pool.
#[derive(Debug, PartialEq, Eq)]
pub enum PoolDisk {
    /// A malloc disk of the given size in bytes.
    Malloc(u64),
    /// A disk at the given URI.
    Uri(String),
}

impl Clone for PoolDisk {
    fn clone(&self) -> (r: Self)
        ensures
            r == *self,
    {
        match self {
            PoolDisk::Malloc(size) => PoolDisk::Malloc(*size),
            PoolDisk::Uri(uri) => PoolDisk::Uri(uri.clone()),
        }
    }
}

/// How many replicas of which size and share each pool gets.
#[derive(Debug, Clone, Copy, PartialEq, Eq)]
pub struct Replica {
    /// Replicas per pool.
    pub count: u32,
    /// Size of each replica in bytes.
    pub size: u64,
    /// Protocol each replica is shared with.
    pub share: Protocol,
}

impl Default for Replica {
    /// No replicas.
    fn default() -> (r: Self)
        ensures
            r.count == 0,
            r.size == 0,
            r.share == Protocol::Off,
    {
        Replica { count: 0, size: 0, share: Protocol::Off }
    }
}

/// The id of replica `replica` of pool `pool` on node `node`, in UUID
/// form: the first 24 characters of the nil UUID, then the node and the pool
/// (each taken modulo 256) as two hexadecimal digits each, then the replica
/// as eight hexadecimal digits.
pub open spec fn replica_id_text(node: u32, pool: usize, replica: u32) -> Seq<char> {
    nil_uuid_text().subrange(0, 24) + hex_padded((node % 256) as nat, 2) + hex_padded(
        (pool % 256) as nat,
        2,
    ) + hex_padded(replica as nat, 8)
}

/// Replica id with index for `pool` index and `replica` index on `node`.
pub fn replica(node: u32, pool: usize, index: u32) -> (r: ReplicaId)
    ensures
        r@ == replica_id_text(node, pool, index),
{
    let uuid = ReplicaId::default().to_string();
    let mut id = string_of(uuid.as_str().substring_char(0, 24));
    push_hex_padded(&mut id, (node % 256) as u64, 2);
    push_hex_padded(&mut id, (pool % 256) as u64, 2);
    push_hex_padded(&mut id, index as u64, 8);
    let r = ReplicaId::from_string(id);
    assert(r@ =~= replica_id_text(node, pool, index));
    r
}

/// A number below 256 is written with exactly two hexadecimal digits when
/// padded to two.
pub proof fn lemma_hex_padded_two_digits(n: nat)
    requires
        n < 256,
    ensures
        hex_padded(n, 2).len() == 2,
{
    assert(crate::text::pow16(2) == 256) by {
        reveal_with_fuel(crate::text::pow16, 3);
    }
    crate::text::lemma_hex_len_bound(n, 2);
}

/// Every replica id is 36 characters long, like a UUID.
pub proof fn lemma_replica_id_length(node: u32, pool: usize, replica: u32)
    ensures
        replica_id_text(node, pool, replica).len() == 36,
{
    lemma_hex_padded_two_digits((node % 256) as nat);
    lemma_hex_padded_two_digits((pool % 256) as nat);
    assert(crate::text::pow16(8) == 0x1_0000_0000) by {
        reveal_with_fuel(crate::text::pow16, 9);
    }
    crate::text::lemma_hex_len_bound(replica as nat, 8);
}

/// Replica ids are unique: equal ids come from the same node and pool
/// (modulo 256) and the same replica index.
pub proof fn lemma_replica_ids_distinct(n1: u32, p1: usize, r1: u32, n2: u32, p2: usize, r2: u32)
    requires
        replica_id_text(n1, p1, r1) == replica_id_text(n2, p2, r2),
    ensures
        n1 % 256 == n2 % 256,
        p1 % 256 == p2 % 256,
        r1 == r2,
{
    let a = replica_id_text(n1, p1, r1);
    let b = replica_id_text(n2, p2, r2);
    lemma_hex_padded_two_digits((n1 % 256) as nat);
    lemma_hex_padded_two_digits((n2 % 256) as nat);
    lemma_hex_padded_two_digits((p1 % 256) as nat);
    lemma_hex_padded_two_digits((p2 % 256) as nat);
    assert(hex_padded((n1 % 256) as nat, 2) =~= a.subrange(24, 26));
    assert(hex_padded((n2 % 256) as nat, 2) =~= b.subrange(24, 26));
    assert(hex_padded((p1 % 256) as nat, 2) =~= a.subrange(26, 28));
    assert(hex_padded((p2 % 256) as nat, 2) =~= b.subrange(26, 28));
    assert(hex_padded(r1 as nat, 8) =~= a.subrange(28, a.len() as int));
    assert(hex_padded(r2 as nat, 8) =~= b.subrange(28, b.len() as int));
    crate::text::lemma_hex_padded_injective((n1 % 256) as nat, (n2 % 256) as nat, 2);
    crate::text::lemma_hex_padded_injective((p1 % 256) as nat, (p2 % 256) as nat, 2);
    crate::text::lemma_hex_padded_injective(r1 as nat, r2 as nat, 8);
}

/// The id of pool number `index` of a node: "<node>-pool-<index>".
pub open spec fn pool_id_text(node: Seq<char>, index: nat) -> Seq<char> {
    node + seq!['-', 'p', 'o', 'o', 'l', '-'] + decimal(index)
}

/// Pool ids are unique within a layout: the pools of distinct nodes, or
/// distinct pools of one node, have distinct ids.
pub proof fn lemma_layout_pool_ids_unique(count: nat, n1: nat, p1: nat, n2: nat, p2: nat)
    requires
        n1 < count,
        n2 < count,
        p1 + 1 <= u32::MAX,
        p2 + 1 <= u32::MAX,
        pool_id_text(mayastor_name(n1, count), ((p1 + 1) as u32) as nat) == pool_id_text(
            mayastor_name(n2, count),
            ((p2 + 1) as u32) as nat,
        ),
    ensures
        n1 == n2,
        p1 == p2,
{
    let t1 = pool_id_text(mayastor_name(n1, count), p1 + 1);
    let t2 = pool_id_text(mayastor_name(n2, count), p2 + 1);
    if count == 1 {
        assert(decimal(p1 + 1) =~= t1.subrange(14, t1.len() as int));
        assert(decimal(p2 + 1) =~= t2.subrange(14, t2.len() as int));
        crate::text::lemma_digits_injective(p1 + 1, p2 + 1, 10);
    } else {
        let d1 = decimal(n1 + 1);
        let d2 = decimal(n2 + 1);
        crate::text::lemma_digits_have_no_dash(n1 + 1, 10);
        crate::text::lemma_digits_have_no_dash(n2 + 1, 10);
        if d1.len() < d2.len() {
            assert(t1[9 + d1.len() as int] == '-');
            assert(t2[9 + d1.len() as int] == d2[d1.len() as int]);
        } else if d2.len() < d1.len() {
            assert(t2[9 + d2.len() as int] == '-');
            assert(t1[9 + d2.len() as int] == d1[d2.len() as int]);
        }
        assert(d1.len() == d2.len());
        assert(d1 =~= t1.subrange(9, 9 + d1.len() as int));
        assert(d2 =~= t2.subrange(9, 9 + d2.len() as int));
        crate::text::lemma_digits_injective(n1 + 1, n2 + 1, 10);
        let start: int = 9 + d1.len() as int + 6;
        assert(decimal(p1 + 1) =~= t1.subrange(start, t1.len() as int));
        assert(decimal(p2 + 1) =~= t2.subrange(start, t2.len() as int));
        crate::text::lemma_digits_injective(p1 + 1, p2 + 1, 10);
    }
}

/// Replica ids are unique within a layout of fewer than 256 nodes and
/// pools per node: distinct replicas get distinct ids.
pub proof fn lemma_layout_replica_ids_unique(
    b: ClusterBuilder,
    n1: nat,
    p1: nat,
    r1: nat,
    c1: CreateReplica,
    n2: nat,
    p2: nat,
    r2: nat,
    c2: CreateReplica,
)
    requires
        n1 < 256,
        n2 < 256,
        p1 < 256,
        p2 < 256,
        r1 <= u32::MAX,
        r2 <= u32::MAX,
        replica_placed(b, n1, p1, r1, c1),
        replica_placed(b, n2, p2, r2, c2),
        c1.uuid@ == c2.uuid@,
    ensures
        n1 == n2,
        p1 == p2,
        r1 == r2,
{
    assert(replica_id_text(n1 as u32, p1 as usize, r1 as u32) == replica_id_text(
        n2 as u32,
        p2 as usize,
        r2 as u32,
    ));
    lemma_small_replica_ids_distinct(n1, p1, r1, n2, p2, r2);
}

proof fn lemma_small_replica_ids_distinct(n1: nat, p1: nat, r1: nat, n2: nat, p2: nat, r2: nat)
    requires
        n1 < 256,
        n2 < 256,
        p1 < 256,
        p2 < 256,
        r1 <= u32::MAX,
        r2 <= u32::MAX,
        replica_id_text(n1 as u32, p1 as usize, r1 as u32) == replica_id_text(
            n2 as u32,
            p2 as usize,
            r2 as u32,
        ),
    ensures
        n1 == n2,
        p1 == p2,
        r1 == r2,
{
    lemma_replica_ids_distinct(n1 as u32, p1 as usize, r1 as u32, n2 as u32, p2 as usize, r2 as u32);
}

/// The disk URI of a test pool: for a malloc disk of `size` bytes numbered
/// `index`, "malloc:///disk<index>?size_mb=<size in MiB>"; else its URI.
pub open spec fn pool_disk_text(disk: PoolDisk, index: nat) -> Seq<char> {
    match disk {
        PoolDisk::Malloc(size) => seq!['m', 'a', 'l', 'l', 'o', 'c', ':', '/', '/', '/', 'd', 'i', 's', 'k']
            + decimal(index) + seq!['?', 's', 'i', 'z', 'e', '_', 'm', 'b', '=']
            + decimal(size as nat / 1048576),
        PoolDisk::Uri(uri) => uri@,
    }
}

/// A pool of the test cluster, with the replicas to create on it.
#[derive(Debug)]
pub struct Pool {
    /// Name of the node that holds the pool.
    pub node: String,
    /// The pool's disk.
    pub disk: PoolDisk,
    /// Number of the pool on its node, from 1.
    pub index: u32,
    /// Replicas to create on the pool.
    pub replicas: Vec<CreateReplica>,
}

/// `r` is the request that creates `pool`: on the pool's node, with the
/// pool's id, claiming the pool's disk alone.
pub open spec fn requests_pool(pool: Pool, r: CreatePool) -> bool {
    &&& r.node@ == pool.node@
    &&& r.id@ == pool_id_text(pool.node@, pool.index as nat)
    &&& r.disks@.len() == 1
    &&& r.disks@[0]@ == pool_disk_text(pool.disk, pool.index as nat)
}

/// `r` creates pool `p` of node `n` as the builder lays it out.
pub open spec fn pool_request_placed(b: ClusterBuilder, n: nat, p: nat, r: CreatePool) -> bool {
    let node = mayastor_name(n, b.opts.mayastors as nat);
    let index = ((p + 1) as u32) as nat;
    &&& r.node@ == node
    &&& r.id@ == pool_id_text(node, index)
    &&& r.disks@.len() == 1
    &&& r.disks@[0]@ == pool_disk_text(b.pools@[p as int], index)
}

impl Pool {
    /// The request that creates the pool.
    pub fn create_request(&self) -> (r: CreatePool)
        ensures
            requests_pool(*self, r),
    {
        let mut disks: Vec<String> = Vec::new();
        disks.push(self.disk());
        CreatePool { node: NodeId::from_string(self.node.clone()), id: self.id(), disks }
    }

    /// The pool's id.
    pub fn id(&self) -> (r: PoolId)
        ensures
            r@ == pool_id_text(self.node@, self.index as nat),
    {
        proof {
            reveal_strlit("-pool-");
        }
        let mut s = string_of(self.node.as_str());
        s.append("-pool-");
        push_decimal(&mut s, self.index as u64);
        let r = PoolId::from_string(s);
        assert(r@ =~= pool_id_text(self.node@, self.index as nat));
        r
    }

    /// The URI of the pool's disk.
    pub fn disk(&self) -> (r: String)
        ensures
            r@ == pool_disk_text(self.disk, self.index as nat),
    {
        match &self.disk {
            PoolDisk::Malloc(size) => {
                proof {
                    reveal_strlit("malloc:///disk");
                    reveal_strlit("?size_mb=");
                }
                let mut s = string_of("malloc:///disk");
                push_decimal(&mut s, self.index as u64);
                s.append("?size_mb=");
                push_decimal(&mut s, *size / 1048576);
                assert(s@ =~= pool_disk_text(self.disk, self.index as nat));
                s
            },
            PoolDisk::Uri(uri) => uri.clone(),
        }
    }
}

/// Builder for the layout of a test cluster.
#[derive(Debug)]
pub struct ClusterBuilder {
    /// Deployment options.
    pub opts: StartOptions,
    /// Disks of the pools that each node gets.
    pub pools: Vec<PoolDisk>,
    /// Replicas that each pool gets.
    pub replicas: Replica,
    /// Whether REST requests are traced.
    pub trace: bool,
    /// Bearer token for REST requests.
    pub bearer_token: Option<String>,
    /// Timeout of REST requests, in milliseconds.
    pub rest_timeout_ms: u64,
    /// Timeout options of every message bus request.
    pub bus_timeout: TimeoutOptions,
}

/// Timeout options of a message bus request; what is left unset the bus
/// chooses itself.
#[derive(Debug, Clone, Copy, PartialEq, Eq, Structural)]
pub struct TimeoutOptions {
    /// Timeout of one attempt, in milliseconds.
    pub timeout_ms: Option<u64>,
    /// Wait between attempts, in milliseconds.
    pub timeout_backoff_ms: Option<u64>,
    /// Number of attempts after the first.
    pub max_retries: Option<u32>,
}

impl Default for TimeoutOptions {
    /// Options that leave everything to the bus.
    fn default() -> (r: Self)
        ensures
            r.timeout_ms is None,
            r.timeout_backoff_ms is None,
            r.max_retries is None,
    {
        TimeoutOptions { timeout_ms: None, timeout_backoff_ms: None, max_retries: None }
    }
}

impl TimeoutOptions {
    /// Set the timeout of one attempt.
    pub fn with_timeout(self, timeout_ms: u64) -> (r: Self)
        ensures
            r == (TimeoutOptions { timeout_ms: Some(timeout_ms), ..self }),
    {
        TimeoutOptions { timeout_ms: Some(timeout_ms), ..self }
    }

    /// Set the wait between attempts.
    pub fn with_timeout_backoff(self, backoff_ms: u64) -> (r: Self)
        ensures
            r == (TimeoutOptions { timeout_backoff_ms: Some(backoff_ms), ..self }),
    {
        TimeoutOptions { timeout_backoff_ms: Some(backoff_ms), ..self }
    }

    /// Set the number of attempts after the first.
    pub fn with_max_retries(self, retries: u32) -> (r: Self)
        ensures
            r == (TimeoutOptions { max_retries: Some(retries), ..self }),
    {
        TimeoutOptions { max_retries: Some(retries), ..self }
    }
}

/// Default timeout options for every bus request of a test cluster: 500 ms
/// per attempt, 500 ms between attempts, and two retries.
pub fn bus_timeout_opts() -> (r: TimeoutOptions)
    ensures
        r == (TimeoutOptions { timeout_ms: Some(500), timeout_backoff_ms: Some(500), max_retries: Some(2) }),
{
    TimeoutOptions::default().with_timeout(500).with_timeout_backoff(500).with_max_retries(2)
}

/// Malloc disks of different pool numbers are different disks: the number
/// of the pool names the disk, whatever the sizes.
pub proof fn lemma_malloc_disks_distinct(s1: u64, k1: nat, s2: u64, k2: nat)
    requires
        pool_disk_text(PoolDisk::Malloc(s1), k1) == pool_disk_text(PoolDisk::Malloc(s2), k2),
    ensures
        k1 == k2,
{
    let t1 = pool_disk_text(PoolDisk::Malloc(s1), k1);
    let t2 = pool_disk_text(PoolDisk::Malloc(s2), k2);
    let d1 = decimal(k1);
    let d2 = decimal(k2);
    crate::text::lemma_digits_have_no_question_mark(k1, 10);
    crate::text::lemma_digits_have_no_question_mark(k2, 10);
    assert(forall|i: int| 0 <= i < d1.len() ==> t1[14 + i] == d1[i]);
    assert(forall|i: int| 0 <= i < d2.len() ==> t2[14 + i] == d2[i]);
    if d1.len() < d2.len() {
        assert(t1[14 + d1.len() as int] == '?');
        assert(t2[14 + d1.len() as int] == d2[d1.len() as int]);
    } else if d2.len() < d1.len() {
        assert(t2[14 + d2.len() as int] == '?');
        assert(t1[14 + d2.len() as int] == d1[d2.len() as int]);
    }
    assert(d1 =~= t1.subrange(14, 14 + d1.len() as int));
    assert(d2 =~= t2.subrange(14, 14 + d2.len() as int));
    crate::text::lemma_digits_injective(k1, k2, 10);
}

/// In a layout, distinct malloc pools of one node claim distinct disks: the
/// create-pool requests of two of its pools, both on malloc disks, never ask
/// for the same disk.
pub proof fn lemma_layout_malloc_disks_distinct(
    b: ClusterBuilder,
    n: nat,
    p1: nat,
    r1: CreatePool,
    p2: nat,
    r2: CreatePool,
)
    requires
        p1 < b.pools@.len(),
        p2 < b.pools@.len(),
        p1 + 1 <= u32::MAX,
        p2 + 1 <= u32::MAX,
        p1 != p2,
        b.pools@[p1 as int] is Malloc,
        b.pools@[p2 as int] is Malloc,
        pool_request_placed(b, n, p1, r1),
        pool_request_placed(b, n, p2, r2),
    ensures
        r1.disks@[0]@ != r2.disks@[0]@,
{
    let k1 = ((p1 + 1) as u32) as nat;
    let k2 = ((p2 + 1) as u32) as nat;
    assert(k1 == p1 + 1 && k2 == p2 + 1);
    if r1.disks@[0]@ == r2.disks@[0]@ {
        let s1 = b.pools@[p1 as int]->Malloc_0;
        let s2 = b.pools@[p2 as int]->Malloc_0;
        lemma_malloc_disks_distinct(s1, k1, s2, k2);
    }
}

/// Size of each malloc pool that `with_pools` adds: 100 MiB.
pub const MALLOC_POOL_SIZE: u64 = 104857600;

/// The position of pool `p` of node `n` in the layout, with `d` pools per
/// node.
pub open spec fn slot(n: int, p: int, d: int) -> int {
    n * d + p
}

/// `pool` is pool `p` of node `n` as the builder lays it out: on the node's
/// mayastor instance, with the `p`-th disk, numbered `p + 1`, and with the
/// builder's replicas, each named and placed by the id scheme.
pub open spec fn pool_placed(b: ClusterBuilder, n: nat, p: nat, pool: Pool) -> bool {
    &&& pool.node@ == mayastor_name(n, b.opts.mayastors as nat)
    &&& pool.disk == b.pools@[p as int]
    &&& pool.index == (p + 1) as u32
    &&& pool.replicas@.len() == b.replicas.count
    &&& forall|r: int|
        0 <= r < pool.replicas@.len() ==> #[trigger] replica_placed(b, n, p, r as nat, pool.replicas@[r])
}

/// `c` is replica `r` of pool `p` on node `n` as the builder lays it out.
pub open spec fn replica_placed(b: ClusterBuilder, n: nat, p: nat, r: nat, c: CreateReplica) -> bool {
    &&& c.node@ == mayastor_name(n, b.opts.mayastors as nat)
    &&& c.uuid@ == replica_id_text(n as u32, p as usize, r as u32)
    &&& c.pool@ == pool_id_text(mayastor_name(n, b.opts.mayastors as nat), ((p + 1) as u32) as nat)
    &&& c.size == b.replicas.size
    &&& !c.thin
    &&& c.share == b.replicas.share
    &&& !c.managed
    &&& c.owners.spec_volume() is None
    &&& c.owners.spec_nexuses().len() == 0
}

impl ClusterBuilder {
    /// Cluster Builder with default options: one mayastor instance, no pools
    /// and no replicas, with tracing and without a bearer token.
    pub fn builder() -> (b: Self)
        ensures
            b.opts.mayastors == 1,
            b.pools@.len() == 0,
            b.replicas.count == 0,
            b.trace,
            b.bearer_token is None,
            b.rest_timeout_ms == 3000,
            b.bus_timeout == (TimeoutOptions {
                timeout_ms: Some(500),
                timeout_backoff_ms: Some(500),
                max_retries: Some(2),
            }),
    {
        ClusterBuilder {
            opts: StartOptions { build: false, mayastors: 1, grpc_mayastor_ip: None, nats_server: None },
            pools: Vec::new(),
            replicas: Replica::default(),
            trace: true,
            bearer_token: None,
            rest_timeout_ms: 3000,
            bus_timeout: bus_timeout_opts(),
        }
    }

    /// Enable/Disable tracing
    pub fn with_tracing(self, enabled: bool) -> (b: Self)
        ensures
            b.trace == enabled,
            b.opts == self.opts,
            b.pools == self.pools,
            b.replicas == self.replicas,
            b.bearer_token == self.bearer_token,
            b.rest_timeout_ms == self.rest_timeout_ms,
            b.bus_timeout == self.bus_timeout,
    {
        let mut b = self;
        b.trace = enabled;
        b
    }

    /// Rest request timeout, in milliseconds
    pub fn with_rest_timeout(self, timeout_ms: u64) -> (b: Self)
        ensures
            b.rest_timeout_ms == timeout_ms,
            b.opts == self.opts,
            b.pools == self.pools,
            b.replicas == self.replicas,
            b.trace == self.trace,
            b.bearer_token == self.bearer_token,
            b.bus_timeout == self.bus_timeout,
    {
        let mut b = self;
        b.rest_timeout_ms = timeout_ms;
        b
    }

    /// Specify the message bus timeout options
    pub fn with_bus_timeouts(self, timeout: TimeoutOptions) -> (b: Self)
        ensures
            b.bus_timeout == timeout,
            b.opts == self.opts,
            b.pools == self.pools,
            b.replicas == self.replicas,
            b.trace == self.trace,
            b.bearer_token == self.bearer_token,
            b.rest_timeout_ms == self.rest_timeout_ms,
    {
        let mut b = self;
        b.bus_timeout = timeout;
        b
    }

    /// Add `count` malloc pools (100MiB size) to each node
    pub fn with_pools(self, count: u32) -> (b: Self)
        ensures
            b.pools@.len() == self.pools@.len() + count,
            forall|i: int| 0 <= i < self.pools@.len() ==> b.pools@[i] == self.pools@[i],
            forall|i: int|
                self.pools@.len() <= i < b.pools@.len() ==> b.pools@[i] == PoolDisk::Malloc(
                    MALLOC_POOL_SIZE,
                ),
            b.opts == self.opts,
            b.replicas == self.replicas,
            b.trace == self.trace,
            b.bearer_token == self.bearer_token,
            b.rest_timeout_ms == self.rest_timeout_ms,
            b.bus_timeout == self.bus_timeout,
    {
        let mut b = self;
        let mut i: u32 = 0;
        while i < count
            invariant
                i <= count,
                b.pools@.len() == self.pools@.len() + i,
                forall|j: int| 0 <= j < self.pools@.len() ==> b.pools@[j] == self.pools@[j],
                forall|j: int|
                    self.pools@.len() <= j < b.pools@.len() ==> b.pools@[j] == PoolDisk::Malloc(
                        MALLOC_POOL_SIZE,
                    ),
                b.opts == self.opts,
                b.replicas == self.replicas,
                b.trace == self.trace,
                b.bearer_token == self.bearer_token,
            b.rest_timeout_ms == self.rest_timeout_ms,
            b.bus_timeout == self.bus_timeout,
            decreases count - i,
        {
            b.pools.push(PoolDisk::Malloc(MALLOC_POOL_SIZE));
            i = i + 1;
        }
        b
    }

    /// Add pool with `disk` to each node
    pub fn with_pool(self, disk: &str) -> (b: Self)
        ensures
            b.pools@.len() == self.pools@.len() + 1,
            forall|i: int| 0 <= i < self.pools@.len() ==> b.pools@[i] == self.pools@[i],
            b.pools@.last() matches PoolDisk::Uri(u) && u@ == disk@,
            b.opts == self.opts,
            b.replicas == self.replicas,
            b.trace == self.trace,
            b.bearer_token == self.bearer_token,
            b.rest_timeout_ms == self.rest_timeout_ms,
            b.bus_timeout == self.bus_timeout,
    {
        let mut b = self;
        b.pools.push(PoolDisk::Uri(string_of(disk)));
        b
    }

    /// Specify `count` replicas to add to each node per pool
    pub fn with_replicas(self, count: u32, size: u64, share: Protocol) -> (b: Self)
        ensures
            b.replicas == (Replica { count, size, share }),
            b.opts == self.opts,
            b.pools == self.pools,
            b.trace == self.trace,
            b.bearer_token == self.bearer_token,
            b.rest_timeout_ms == self.rest_timeout_ms,
            b.bus_timeout == self.bus_timeout,
    {
        let mut b = self;
        b.replicas = Replica { count, size, share };
        b
    }

    /// Specify `count` mayastors for the cluster
    pub fn with_mayastors(self, count: u32) -> (b: Self)
        ensures
            b.opts == (StartOptions { mayastors: count, ..self.opts }),
            b.pools == self.pools,
            b.replicas == self.replicas,
            b.trace == self.trace,
            b.bearer_token == self.bearer_token,
            b.rest_timeout_ms == self.rest_timeout_ms,
            b.bus_timeout == self.bus_timeout,
    {
        let mut b = self;
        b.opts.mayastors = count;
        b
    }

    /// node id for `index`
    pub fn node(&self, index: u32) -> (r: NodeId)
        requires
            self.opts.mayastors == 1 || index < u32::MAX,
        ensures
            r@ == mayastor_name(index as nat, self.opts.mayastors as nat),
    {
        NodeId::from_string(Mayastor::name(index, &self.opts))
    }

    /// pool id for `pool` index on `node` index
    pub fn pool(&self, node: u32, pool: u32) -> (r: PoolId)
        requires
            self.opts.mayastors == 1 || node < u32::MAX,
            pool < u32::MAX,
        ensures
            r@ == pool_id_text(mayastor_name(node as nat, self.opts.mayastors as nat), (pool + 1) as nat),
    {
        let p = Pool {
            node: Mayastor::name(node, &self.opts),
            disk: PoolDisk::Malloc(0),
            index: pool + 1,
            replicas: Vec::new(),
        };
        p.id()
    }

    /// Pool `p` of node `n`, with its replicas.
    fn placed_pool(&self, n: u32, p: usize) -> (pool: Pool)
        requires
            n < self.opts.mayastors,
            p < self.pools@.len(),
        ensures
            pool_placed(*self, n as nat, p as nat, pool),
    {
        let len = self.pools.len();
        assert(p < len);
        let mut pool = Pool {
            node: Mayastor::name(n, &self.opts),
            disk: self.pools[p].clone(),
            index: (p + 1) as u32,
            replicas: Vec::new(),
        };
        let mut r: u32 = 0;
        while r < self.replicas.count
            invariant
                n < self.opts.mayastors,
                p < self.pools@.len(),
                r <= self.replicas.count,
                pool.node@ == mayastor_name(n as nat, self.opts.mayastors as nat),
                pool.disk == self.pools@[p as int],
                pool.index == (p + 1) as u32,
                pool.replicas@.len() == r,
                forall|k: int|
                    0 <= k < pool.replicas@.len() ==> #[trigger] replica_placed(
                        *self,
                        n as nat,
                        p as nat,
                        k as nat,
                        pool.replicas@[k],
                    ),
            decreases self.replicas.count - r,
        {
            let c = CreateReplica {
                node: NodeId::from_string(pool.node.clone()),
                uuid: replica(n, p, r),
                pool: pool.id(),
                size: self.replicas.size,
                thin: false,
                share: self.replicas.share,
                managed: false,
                owners: ReplicaOwners::default(),
            };
            pool.replicas.push(c);
            r = r + 1;
        }
        pool
    }

    /// The pools of the cluster: for each node in turn, one pool per disk,
    /// each with the builder's replicas.
    pub fn pools(&self) -> (v: Vec<Pool>)
        ensures
            v@.len() == self.opts.mayastors * self.pools@.len(),
            forall|n: int, p: int|
                0 <= n < self.opts.mayastors && 0 <= p < self.pools@.len() ==> pool_placed(
                    *self,
                    n as nat,
                    p as nat,
                    #[trigger] v@[slot(n, p, self.pools@.len() as int)],
                ),
    {
        let d = self.pools.len();
        let mut v: Vec<Pool> = Vec::new();
        let mut n: u32 = 0;
        while n < self.opts.mayastors
            invariant
                d == self.pools@.len(),
                n <= self.opts.mayastors,
                v@.len() == n * d,
                forall|i: int, j: int|
                    0 <= i < n && 0 <= j < d ==> pool_placed(
                        *self,
                        i as nat,
                        j as nat,
                        #[trigger] v@[slot(i, j, d as int)],
                    ),
            decreases self.opts.mayastors - n,
        {
            let mut p: usize = 0;
            while p < d
                invariant
                    d == self.pools@.len(),
                    n < self.opts.mayastors,
                    p <= d,
                    v@.len() == n * d + p,
                    forall|i: int, j: int|
                        (0 <= i < n && 0 <= j < d) || (i == n && 0 <= j < p) ==> pool_placed(
                            *self,
                            i as nat,
                            j as nat,
                            #[trigger] v@[slot(i, j, d as int)],
                        ),
                decreases d - p,
            {
                let pool = self.placed_pool(n, p);
                proof {
                    lemma_slot_bounds(n as int, p as int, d as int);
                }
                v.push(pool);
                p = p + 1;
                proof {
                    assert forall|i: int, j: int|
                        (0 <= i < n && 0 <= j < d) || (i == n && 0 <= j < p) implies pool_placed(
                            *self,
                            i as nat,
                            j as nat,
                            #[trigger] v@[slot(i, j, d as int)],
                        ) by {
                        lemma_slot_bounds(i, j, d as int);
                        lemma_slot_order(i, j, n as int, d as int);
                    }
                }
            }
            proof {
                assert((n + 1) * d == n * d + d) by (nonlinear_arith);
            }
            n = n + 1;
        }
        v
    }

    /// The create-pool requests that set up the cluster's pools, one per
    /// pool of `pools`, in the same order.
    pub fn pool_requests(&self) -> (v: Vec<CreatePool>)
        ensures
            v@.len() == self.opts.mayastors * self.pools@.len(),
            forall|n: int, p: int|
                0 <= n < self.opts.mayastors && 0 <= p < self.pools@.len() ==> pool_request_placed(
                    *self,
                    n as nat,
                    p as nat,
                    #[trigger] v@[slot(n, p, self.pools@.len() as int)],
                ),
    {
        let pools = self.pools();
        let mut v: Vec<CreatePool> = Vec::new();
        let mut i: usize = 0;
        while i < pools.len()
            invariant
                i <= pools@.len(),
                v@.len() == i,
                forall|k: int| 0 <= k < i ==> #[trigger] requests_pool(pools@[k], v@[k]),
            decreases pools.len() - i,
        {
            let r = pools[i].create_request();
            v.push(r);
            i = i + 1;
        }
        proof {
            let d = self.pools@.len() as int;
            assert forall|n: int, p: int|
                0 <= n < self.opts.mayastors && 0 <= p < d implies pool_request_placed(
                *self,
                n as nat,
                p as nat,
                #[trigger] v@[slot(n, p, d)],
            ) by {
                lemma_slot_bounds(n, p, d);
                let m = self.opts.mayastors as int;
                assert(n * d + d <= m * d) by (nonlinear_arith)
                    requires
                        0 <= n < m,
                        0 <= d,
                ;
                assert(pool_placed(*self, n as nat, p as nat, pools@[slot(n, p, d)]));
                assert(requests_pool(pools@[slot(n, p, d)], v@[slot(n, p, d)]));
            }
        }
        v
    }
}

/// Where slots fall: slot `(n, p)` lies in the `n`-th block of `d` slots.
proof fn lemma_slot_bounds(n: int, p: int, d: int)
    requires
        0 <= n,
        0 <= p < d,
    ensures
        n * d <= slot(n, p, d) < n * d + d,
        slot(n, p, d) == n * d + p,
{
}

/// Slots of earlier nodes come before the slots of node `m`.
proof fn lemma_slot_order(i: int, j: int, m: int, d: int)
    requires
        0 <= i,
        0 <= j < d,
        0 <= m,
    ensures
        i < m ==> slot(i, j, d) < m * d,
{
    if i < m {
        assert(i * d + d <= m * d) by (nonlinear_arith)
            requires
                i < m,
                0 <= j < d,
        ;
    }
}

/// The text of an optional value: the value, or "?" when there is none.
pub fn option_str(input: Option<String>) -> (s: String)
    ensures
        s@ == match input {
            Some(v) => v@,
            None => seq!['?'],
        },
{
    match input {
        Some(v) => v,
        None => {
            proof {
                reveal_strlit("?");
            }
            let s = string_of("?");
            assert(s@ =~= seq!['?']);
            s
        },
    }
}

/// How a REST request turned out.
#[derive(Debug, Clone, Copy, PartialEq, Eq, Structural)]
pub enum RestOutcome {
    /// The request succeeded.
    Succeeded,
    /// The server answered with an error.
    ServerError,
    /// The request failed otherwise (transport, decoding, ...).
    OtherError,
}

/// The verdict on a REST request that a test expected to succeed or fail.
#[derive(Debug, Clone, Copy, PartialEq, Eq, Structural)]
pub enum TestVerdict {
    /// The request turned out as expected.
    Pass,
    /// A failure was expected, but not one answered by the server.
    InvalidResponse,
    /// Success was expected, but the request failed.
    UnexpectedFailure,
    /// Failure was expected, but the request succeeded.
    UnexpectedSuccess,
}

/// Compare how a request turned out with what was expected: success when
/// success was expected, a server error when failure was expected.
pub fn test_verdict(expected_ok: bool, outcome: RestOutcome) -> (v: TestVerdict)
    ensures
        v == match outcome {
            RestOutcome::Succeeded => if expected_ok {
                TestVerdict::Pass
            } else {
                TestVerdict::UnexpectedSuccess
            },
            RestOutcome::ServerError => if expected_ok {
                TestVerdict::UnexpectedFailure
            } else {
                TestVerdict::Pass
            },
            RestOutcome::OtherError => if expected_ok {
                TestVerdict::UnexpectedFailure
            } else {
                TestVerdict::InvalidResponse
            },
        },
{
    match outcome {
        RestOutcome::Succeeded => if expected_ok {
            TestVerdict::Pass
        } else {
            TestVerdict::UnexpectedSuccess
        },
        RestOutcome::ServerError => if expected_ok {
            TestVerdict::UnexpectedFailure
        } else {
            TestVerdict::Pass
        },
        RestOutcome::OtherError => if expected_ok {
            TestVerdict::UnexpectedFailure
        } else {
            TestVerdict::InvalidResponse
        },
    }
}

} // verus!
