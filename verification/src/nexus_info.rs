//! Nexus information kept in the persistent store: which children a nexus
//! has and whether each is healthy, and the key it is kept under.
use crate::ids::{NexusId, ReplicaId, VolumeId};
use crate::text::string_of;
use vstd::prelude::*;
use vstd::std_specs::convert::FromSpecImpl;
use vstd::string::StringExecFns;

verus! {

/// Definition of the nexus information that gets saved in the persistent
/// store.
#[derive(Debug, Default, Clone)]
pub struct NexusInfo {
    /// uuid of the Nexus
    pub uuid: NexusId,
    /// uuid of the Volume
    pub volume_uuid: Option<VolumeId>,
    /// Nexus destroyed successfully.
    pub clean_shutdown: bool,
    /// Information about children.
    pub children: Vec<ChildInfo>,
}

/// Definition of the child information that gets saved in the persistent
/// store.
#[derive(Debug, Default, Clone)]
pub struct ChildInfo {
    /// UUID of the child.
    pub uuid: String,
    /// Child's state of health.
    pub healthy: bool,
}

/// The health recorded for `replica` by the first child, from `start` on,
/// whose uuid is the replica's; false when no such child is recorded.
pub open spec fn recorded_health(children: Seq<ChildInfo>, replica: Seq<char>, start: int) -> bool
    decreases children.len() - start,
{
    if start < 0 || start >= children.len() {
        false
    } else if children[start].uuid@ == replica {
        children[start].healthy
    } else {
        recorded_health(children, replica, start + 1)
    }
}

impl NexusInfo {
    /// Check if the provided replica is healthy or not: the health of the
    /// first child recorded with the replica's uuid, or false when none is.
    pub fn is_replica_healthy(&self, replica: &ReplicaId) -> (b: bool)
        ensures
            b == recorded_health(self.children@, replica@, 0),
    {
        let id = string_of(replica.as_str());
        let mut i: usize = 0;
        while i < self.children.len()
            invariant
                i <= self.children@.len(),
                id@ == replica@,
                recorded_health(self.children@, replica@, 0) == recorded_health(
                    self.children@,
                    replica@,
                    i as int,
                ),
            decreases self.children@.len() - i,
        {
            if self.children[i].uuid == id {
                return self.children[i].healthy;
            }
            i = i + 1;
        }
        false
    }

    /// The key under which the store keeps the information.
    pub fn key(&self) -> (k: NexusInfoKey)
        ensures
            k.spec_volume() == (match self.volume_uuid {
                Some(v) => Some(v@),
                None => None::<Seq<char>>,
            }),
            k.spec_nexus() == self.uuid@,
    {
        NexusInfoKey { volume_id: self.volume_uuid.clone(), nexus_id: self.uuid.clone() }
    }
}

/// A replica that no child records is not healthy; one that the first
/// matching child records as healthy is.
pub proof fn lemma_recorded_health_first_match(children: Seq<ChildInfo>, replica: Seq<char>, k: int)
    requires
        0 <= k < children.len(),
        children[k].uuid@ == replica,
        forall|j: int| 0 <= j < k ==> children[j].uuid@ != replica,
    ensures
        recorded_health(children, replica, 0) == children[k].healthy,
    decreases k,
{
    lemma_recorded_health_from(children, replica, 0, k);
}

proof fn lemma_recorded_health_from(children: Seq<ChildInfo>, replica: Seq<char>, start: int, k: int)
    requires
        0 <= start <= k < children.len(),
        children[k].uuid@ == replica,
        forall|j: int| start <= j < k ==> children[j].uuid@ != replica,
    ensures
        recorded_health(children, replica, start) == children[k].healthy,
    decreases k - start,
{
    if start < k {
        lemma_recorded_health_from(children, replica, start + 1, k);
    }
}

/// A replica that no child records is not healthy.
pub proof fn lemma_unrecorded_replica_unhealthy(children: Seq<ChildInfo>, replica: Seq<char>, start: int)
    requires
        0 <= start,
        forall|j: int| start <= j < children.len() ==> children[j].uuid@ != replica,
    ensures
        !recorded_health(children, replica, start),
    decreases children.len() - start,
{
    if start < children.len() {
        lemma_unrecorded_replica_unhealthy(children, replica, start + 1);
    }
}

/// Key used by the store to uniquely identify a NexusInfo structure.
/// The volume is optional because a nexus can be created which is not
/// associated with a volume.
pub struct NexusInfoKey {
    volume_id: Option<VolumeId>,
    nexus_id: NexusId,
}

impl From<&NexusId> for NexusInfoKey {
    fn from(nexus_id: &NexusId) -> (r: Self)
        ensures
            r.spec_volume() is None,
            r.spec_nexus() == nexus_id@,
    {
        NexusInfoKey { volume_id: None, nexus_id: nexus_id.clone() }
    }
}

impl FromSpecImpl<&NexusId> for NexusInfoKey {
    open spec fn obeys_from_spec() -> bool {
        true
    }

    closed spec fn from_spec(v: &NexusId) -> Self {
        NexusInfoKey { volume_id: None, nexus_id: *v }
    }
}

impl From<(&VolumeId, &NexusId)> for NexusInfoKey {
    fn from(ids: (&VolumeId, &NexusId)) -> (r: Self)
        ensures
            r.spec_volume() == Some(ids.0@),
            r.spec_nexus() == ids.1@,
    {
        let (volume_id, nexus_id) = ids;
        NexusInfoKey { volume_id: Some(volume_id.clone()), nexus_id: nexus_id.clone() }
    }
}

impl FromSpecImpl<(&VolumeId, &NexusId)> for NexusInfoKey {
    open spec fn obeys_from_spec() -> bool {
        true
    }

    closed spec fn from_spec(v: (&VolumeId, &NexusId)) -> Self {
        NexusInfoKey { volume_id: Some(*v.0), nexus_id: *v.1 }
    }
}

/// The store key of nexus information within a namespace:
/// "/namespace/<ns>/volume/<volume>/nexus/<nexus>/info" for a nexus of a
/// volume, "/namespace/<ns>/nexus/<nexus>/info" otherwise.
pub open spec fn nexus_info_key_text(namespace: Seq<char>, volume: Option<Seq<char>>, nexus: Seq<char>) -> Seq<char> {
    let head = seq!['/', 'n', 'a', 'm', 'e', 's', 'p', 'a', 'c', 'e', '/'] + namespace;
    let tail = seq!['/', 'n', 'e', 'x', 'u', 's', '/'] + nexus + seq!['/', 'i', 'n', 'f', 'o'];
    match volume {
        Some(v) => head + seq!['/', 'v', 'o', 'l', 'u', 'm', 'e', '/'] + v + tail,
        None => head + tail,
    }
}

impl NexusInfoKey {
    /// The volume part of the key, as text.
    pub closed spec fn spec_volume(&self) -> Option<Seq<char>> {
        match self.volume_id {
            Some(v) => Some(v@),
            None => None,
        }
    }

    /// The nexus part of the key, as text.
    pub closed spec fn spec_nexus(&self) -> Seq<char> {
        self.nexus_id@
    }

    /// The key's text within the given namespace.
    pub fn key_in_namespace(&self, namespace: &str) -> (k: String)
        ensures
            k@ == nexus_info_key_text(namespace@, self.spec_volume(), self.spec_nexus()),
    {
        proof {
            reveal_strlit("/namespace/");
            reveal_strlit("/volume/");
            reveal_strlit("/nexus/");
            reveal_strlit("/info");
        }
        let mut key = string_of("/namespace/");
        key.append(namespace);
        match &self.volume_id {
            Some(volume) => {
                key.append("/volume/");
                key.append(volume.as_str());
            },
            None => {},
        }
        key.append("/nexus/");
        key.append(self.nexus_id.as_str());
        key.append("/info");
        proof {
            assert(key@ =~= nexus_info_key_text(namespace@, self.spec_volume(), self.spec_nexus()));
        }
        key
    }
}

/// Within one namespace, the key of a volume's nexus never equals the key of
/// a nexus without a volume.
pub proof fn lemma_nexus_info_keys_distinguish_volume(namespace: Seq<char>, volume: Seq<char>, a: Seq<char>, b: Seq<char>)
    ensures
        nexus_info_key_text(namespace, Some(volume), a) != nexus_info_key_text(namespace, None, b),
{
    let x = nexus_info_key_text(namespace, Some(volume), a);
    let y = nexus_info_key_text(namespace, None, b);
    let i: int = 12 + namespace.len() as int;
    assert(x[i] == 'v');
    assert(y[i] == 'n');
}

/// No character of `s` is a '/'.
pub open spec fn has_no_slash(s: Seq<char>) -> bool {
    forall|i: int| 0 <= i < s.len() ==> #[trigger] s[i] != '/'
}

/// Text without '/' that is followed by a '/' ends where the '/' stands:
/// two such joins are equal only piece by piece.
proof fn lemma_split_at_slash(a: Seq<char>, x: Seq<char>, b: Seq<char>, y: Seq<char>)
    requires
        has_no_slash(a),
        has_no_slash(b),
        a + seq!['/'] + x == b + seq!['/'] + y,
    ensures
        a == b,
        x == y,
{
    let s = a + seq!['/'] + x;
    let t = b + seq!['/'] + y;
    if a.len() < b.len() {
        assert(s[a.len() as int] == '/');
        assert(t[a.len() as int] == b[a.len() as int]);
    } else if b.len() < a.len() {
        assert(t[b.len() as int] == '/');
        assert(s[b.len() as int] == a[b.len() as int]);
    }
    assert(a =~= s.subrange(0, a.len() as int));
    assert(b =~= t.subrange(0, b.len() as int));
    assert(x =~= s.subrange(a.len() as int + 1, s.len() as int));
    assert(y =~= t.subrange(b.len() as int + 1, t.len() as int));
}

/// Within one namespace, the key identifies the nexus information: where
/// the ids hold no '/', equal keys come from the same volume (or from no
/// volume) and the same nexus.
pub proof fn lemma_nexus_info_keys_unique(
    namespace: Seq<char>,
    v1: Option<Seq<char>>,
    n1: Seq<char>,
    v2: Option<Seq<char>>,
    n2: Seq<char>,
)
    requires
        v1 matches Some(v) ==> has_no_slash(v),
        v2 matches Some(v) ==> has_no_slash(v),
        nexus_info_key_text(namespace, v1, n1) == nexus_info_key_text(namespace, v2, n2),
    ensures
        v1 == v2,
        n1 == n2,
{
    let head = seq!['/', 'n', 'a', 'm', 'e', 's', 'p', 'a', 'c', 'e', '/'] + namespace;
    let k1 = nexus_info_key_text(namespace, v1, n1);
    let k2 = nexus_info_key_text(namespace, v2, n2);
    let h = head.len() as int;
    let info = seq!['/', 'i', 'n', 'f', 'o'];
    match (v1, v2) {
        (Some(a), Some(b)) => {
            let r1 = k1.subrange(h + 8, k1.len() as int);
            let r2 = k2.subrange(h + 8, k2.len() as int);
            let x1 = seq!['n', 'e', 'x', 'u', 's', '/'] + n1 + info;
            let x2 = seq!['n', 'e', 'x', 'u', 's', '/'] + n2 + info;
            assert(r1 =~= a + seq!['/'] + x1);
            assert(r2 =~= b + seq!['/'] + x2);
            lemma_split_at_slash(a, x1, b, x2);
            assert(n1 =~= x1.subrange(6, x1.len() - 5));
            assert(n2 =~= x2.subrange(6, x2.len() - 5));
        },
        (None, None) => {
            assert(n1 =~= k1.subrange(h + 7, k1.len() - 5));
            assert(n2 =~= k2.subrange(h + 7, k2.len() - 5));
        },
        (Some(a), None) => {
            lemma_nexus_info_keys_distinguish_volume(namespace, a, n1, n2);
        },
        (None, Some(b)) => {
            lemma_nexus_info_keys_distinguish_volume(namespace, b, n2, n1);
        },
    }
}

} // verus!
