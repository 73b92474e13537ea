//! Objects kept in the persistent store: their types and keys.
use crate::ids::NodeId;
use std::collections::HashMap;
use vstd::prelude::*;
use vstd::std_specs::convert::FromSpecImpl;

verus! {

/// The types of object that the store keeps.
#[derive(Debug, Clone, Copy, PartialEq, Eq, Structural)]
pub enum StorableObjectType {
    /// A node
    Node,
    /// A node spec
    NodeSpec,
    /// A pool
    Pool,
    /// The state of a replica
    ReplicaState,
    /// The spec of a replica
    ReplicaSpec,
    /// The state of a nexus
    NexusState,
    /// The spec of a nexus
    NexusSpec,
    /// The state of a volume
    VolumeState,
    /// The spec of a volume
    VolumeSpec,
    /// The state of a nexus child
    ChildState,
    /// The spec of a nexus child
    ChildSpec,
}

} // verus!

verus! {

/// Some string of `s` holds the characters of `x`.
pub open spec fn strings_contain(s: Seq<String>, x: Seq<char>) -> bool {
    exists|i: int| 0 <= i < s.len() && #[trigger] s[i]@ == x
}

/// `i` is the position of the first of `labels` that holds `label`.
pub open spec fn first_label_at(labels: Seq<String>, label: Seq<char>, i: int) -> bool {
    &&& 0 <= i < labels.len()
    &&& labels[i]@ == label
    &&& forall|j: int| 0 <= j < i ==> #[trigger] labels[j]@ != label
}

/// How uncordoning with `label` relates the cordon labels before and after:
/// where the label is among them, its first occurrence goes and the others
/// keep their order; where it is not, nothing changes.
pub open spec fn uncordoned(old_labels: Seq<String>, new_labels: Seq<String>, label: Seq<char>) -> bool {
    if strings_contain(old_labels, label) {
        exists|i: int| #[trigger] first_label_at(old_labels, label, i) && new_labels == old_labels.remove(i)
    } else {
        new_labels == old_labels
    }
}

/// The position of the first of `labels` that equals `label`, if any.
fn first_label_position(labels: &Vec<String>, label: &String) -> (r: Option<usize>)
    ensures
        match r {
            Some(i) => first_label_at(labels@, label@, i as int),
            None => !strings_contain(labels@, label@),
        },
{
    let mut i: usize = 0;
    while i < labels.len()
        invariant
            i <= labels.len(),
            forall|j: int| 0 <= j < i ==> #[trigger] labels@[j]@ != label@,
        decreases labels.len() - i,
    {
        if labels[i] == *label {
            return Some(i);
        }
        i += 1;
    }
    None
}

/// Node labels.
pub type NodeLabels = HashMap<String, String>;

/// A node with its labels, as the store keeps it.
#[derive(Debug, PartialEq)]
pub struct Node {
    /// Node information.
    node: crate::v0::NodeState,
    /// Node labels.
    labels: NodeLabels,
}

/// The state of a node, as the store keeps it.
pub struct NodeState {
    /// Node information
    pub node: crate::v0::NodeState,
}

/// The spec of a node, as the store keeps it.
#[derive(Debug, PartialEq, Clone, Default)]
pub struct NodeSpec {
    /// Node identification.
    id: NodeId,
    /// Endpoint of the io-engine instance (gRPC)
    endpoint: String,
    /// Node labels.
    labels: NodeLabels,
    /// Cordon labels.
    cordon_labels: Vec<String>,
}

impl NodeSpec {
    /// The node's id.
    pub closed spec fn spec_id(&self) -> Seq<char> {
        self.id@
    }

    /// The node's gRPC endpoint.
    pub closed spec fn spec_endpoint(&self) -> Seq<char> {
        self.endpoint@
    }

    /// The node's labels.
    pub closed spec fn spec_labels(&self) -> Map<String, String> {
        self.labels@
    }

    /// The node's cordon labels, in the order in which they stand.
    pub closed spec fn spec_cordon_labels(&self) -> Seq<String> {
        self.cordon_labels@
    }

    /// Return a new `Self`
    pub fn new(id: NodeId, endpoint: String, labels: NodeLabels, cordon_label: Option<Vec<String>>) -> (r: Self)
        ensures
            r.spec_id() == id@,
            r.spec_endpoint() == endpoint@,
            r.spec_labels() == labels@,
            r.spec_cordon_labels() == match cordon_label {
                Some(l) => l@,
                None => Seq::<String>::empty(),
            },
    {
        let cordon_labels = match cordon_label {
            Some(l) => l,
            None => Vec::new(),
        };
        NodeSpec { id, endpoint, labels, cordon_labels }
    }

    /// Node identification
    pub fn id(&self) -> (r: &NodeId)
        ensures
            r@ == self.spec_id(),
    {
        &self.id
    }

    /// Node gRPC endpoint
    pub fn endpoint(&self) -> (r: &str)
        ensures
            r@ == self.spec_endpoint(),
    {
        self.endpoint.as_str()
    }

    /// Node labels
    pub fn labels(&self) -> (r: &NodeLabels)
        ensures
            r@ == self.spec_labels(),
    {
        &self.labels
    }

    /// Node gRPC endpoint
    pub fn set_endpoint(&mut self, endpoint: String)
        ensures
            final(self).spec_endpoint() == endpoint@,
            final(self).spec_id() == old(self).spec_id(),
            final(self).spec_labels() == old(self).spec_labels(),
            final(self).spec_cordon_labels() == old(self).spec_cordon_labels(),
    {
        self.endpoint = endpoint
    }

    /// Cordon node by applying the label.
    pub fn cordon(&mut self, label: String)
        ensures
            final(self).spec_cordon_labels() == old(self).spec_cordon_labels().push(label),
            final(self).spec_id() == old(self).spec_id(),
            final(self).spec_endpoint() == old(self).spec_endpoint(),
            final(self).spec_labels() == old(self).spec_labels(),
    {
        self.cordon_labels.push(label);
    }

    /// Uncordon node by removing the corresponding label.
    pub fn uncordon(&mut self, label: String)
        ensures
            uncordoned(old(self).spec_cordon_labels(), final(self).spec_cordon_labels(), label@),
            final(self).spec_id() == old(self).spec_id(),
            final(self).spec_endpoint() == old(self).spec_endpoint(),
            final(self).spec_labels() == old(self).spec_labels(),
    {
        if let Some(index) = first_label_position(&self.cordon_labels, &label) {
            self.cordon_labels.remove(index);
            proof {
                assert(first_label_at(old(self).cordon_labels@, label@, index as int));
            }
        }
    }

    /// Returns whether or not the node is cordoned.
    pub fn cordoned(&self) -> (b: bool)
        ensures
            b == (self.spec_cordon_labels().len() > 0),
    {
        !self.cordon_labels.is_empty()
    }

    /// Returns the cordon labels
    pub fn cordon_labels(&self) -> (r: Vec<String>)
        ensures
            r@ == self.spec_cordon_labels(),
    {
        let r = self.cordon_labels.clone();
        proof {
            assert(r@ =~= self.cordon_labels@);
        }
        r
    }

    /// The node's id, which identifies it as a resource.
    pub fn uuid(&self) -> (r: NodeId)
        ensures
            r@ == self.spec_id(),
    {
        self.id.clone()
    }

    /// The key under which the store keeps the spec.
    pub fn key(&self) -> (r: NodeSpecKey)
        ensures
            r@ == self.spec_id(),
    {
        NodeSpecKey(self.id.clone())
    }
}

/// A node cordoned with a label, and uncordoned with the same label, is no
/// longer cordoned when that was its only cordon label.
pub proof fn lemma_cordon_then_uncordon(before: Seq<String>, label: String, after: Seq<String>)
    requires
        before.len() == 0,
        uncordoned(before.push(label), after, label@),
    ensures
        after.len() == 0,
{
    let cordoned = before.push(label);
    assert(cordoned[0]@ == label@);
    assert(strings_contain(cordoned, label@));
}

/// Cordoning with a label and then uncordoning with it keeps the number of
/// cordon labels, and so whether the node is cordoned. Where the node did
/// not have the label, its labels come back as they were; where it did, the
/// first occurrence goes and the new one stays at the end.
pub proof fn lemma_cordon_uncordon_restores(old_labels: Seq<String>, label: String, new_labels: Seq<String>)
    requires
        uncordoned(old_labels.push(label), new_labels, label@),
    ensures
        new_labels.len() == old_labels.len(),
        !strings_contain(old_labels, label@) ==> new_labels == old_labels,
        strings_contain(old_labels, label@) ==> exists|k: int|
            #[trigger] first_label_at(old_labels, label@, k) && new_labels == old_labels.remove(k).push(label),
{
    let cordoned = old_labels.push(label);
    let n = old_labels.len() as int;
    assert(cordoned[n]@ == label@);
    assert(strings_contain(cordoned, label@));
    let i = choose|i: int| #[trigger] first_label_at(cordoned, label@, i) && new_labels == cordoned.remove(i);
    if strings_contain(old_labels, label@) {
        let j = choose|j: int| 0 <= j < old_labels.len() && #[trigger] old_labels[j]@ == label@;
        assert(cordoned[j]@ == label@);
        assert(i < n);
        assert forall|m: int| 0 <= m < i implies #[trigger] old_labels[m]@ != label@ by {
            assert(cordoned[m] == old_labels[m]);
        }
        assert(old_labels[i] == cordoned[i]);
        assert(first_label_at(old_labels, label@, i));
        assert(cordoned.remove(i) =~= old_labels.remove(i).push(label));
    } else {
        if i < n {
            assert(old_labels[i] == cordoned[i]);
            assert(strings_contain(old_labels, label@));
        }
        assert(cordoned.remove(i) =~= old_labels);
    }
}

/// Uncordoning never adds a label, takes away at most one, and keeps the
/// labels other than the one named.
pub proof fn lemma_uncordon_keeps_other_labels(old_labels: Seq<String>, new_labels: Seq<String>, label: Seq<char>)
    requires
        uncordoned(old_labels, new_labels, label),
    ensures
        new_labels.len() <= old_labels.len(),
        new_labels.len() >= old_labels.len() - 1,
        forall|x: Seq<char>| x != label ==> (strings_contain(old_labels, x) <==> strings_contain(new_labels, x)),
{
    if strings_contain(old_labels, label) {
        let i = choose|i: int| #[trigger] first_label_at(old_labels, label, i) && new_labels == old_labels.remove(i);
        assert forall|x: Seq<char>| x != label implies (strings_contain(old_labels, x)
            <==> strings_contain(new_labels, x)) by {
            if strings_contain(old_labels, x) {
                let j = choose|j: int| 0 <= j < old_labels.len() && #[trigger] old_labels[j]@ == x;
                if j < i {
                    assert(new_labels[j]@ == x);
                } else {
                    assert(new_labels[j - 1]@ == x);
                }
            }
            if strings_contain(new_labels, x) {
                let j = choose|j: int| 0 <= j < new_labels.len() && #[trigger] new_labels[j]@ == x;
                if j < i {
                    assert(old_labels[j]@ == x);
                } else {
                    assert(old_labels[j + 1]@ == x);
                }
            }
        }
    }
}

impl From<NodeSpec> for crate::openapi::NodeSpec {
    fn from(src: NodeSpec) -> (r: Self)
        ensures
            r.grpc_endpoint@ == src.spec_endpoint(),
            r.id@ == src.spec_id(),
            r.cordon_labels@ == src.spec_cordon_labels(),
    {
        crate::openapi::NodeSpec::new(src.endpoint, src.id.into_string(), src.cordon_labels)
    }
}

impl FromSpecImpl<NodeSpec> for crate::openapi::NodeSpec {
    open spec fn obeys_from_spec() -> bool {
        true
    }

    closed spec fn from_spec(v: NodeSpec) -> Self {
        crate::openapi::NodeSpec {
            grpc_endpoint: v.endpoint,
            id: v.id.inner(),
            cordon_labels: v.cordon_labels,
        }
    }
}

/// Key used by the store to uniquely identify a NodeSpec structure.
pub struct NodeSpecKey(NodeId);

impl View for NodeSpecKey {
    type V = Seq<char>;

    closed spec fn view(&self) -> Seq<char> {
        self.0@
    }
}

impl NodeSpecKey {
    /// The key of the node with the given id.
    pub fn from(id: &NodeId) -> (r: Self)
        ensures
            r@ == id@,
    {
        NodeSpecKey(id.clone())
    }

    /// The type of object the key refers to.
    pub fn key_type(&self) -> (t: StorableObjectType)
        ensures
            t == StorableObjectType::NodeSpec,
    {
        StorableObjectType::NodeSpec
    }

    /// The uuid part of the key: the node's id.
    pub fn key_uuid(&self) -> (s: String)
        ensures
            s@ == self@,
    {
        self.0.to_string()
    }
}

} // verus!
