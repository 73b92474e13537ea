//! The REST models of nodes and volumes, and what the command-line plugin
//! shows of a node.
use vstd::prelude::*;

verus! {

/// Volumes Volume information: a spec and a state.
#[derive(Debug, Clone, Default, PartialEq, Eq)]
pub struct Volume<Spec, State> {
    /// The volume's spec.
    pub spec: Spec,
    /// The volume's state.
    pub state: State,
}

impl<Spec, State> Volume<Spec, State> {
    /// Volume using only the required fields
    pub fn new(spec: Spec, state: State) -> (v: Self)
        ensures
            v.spec == spec,
            v.state == state,
    {
        Volume { spec, state }
    }

    /// Volume using all fields
    pub fn new_all(spec: Spec, state: State) -> (v: Self)
        ensures
            v.spec == spec,
            v.state == state,
    {
        Volume { spec, state }
    }
}

/// The status of a node as the REST model reports it.
#[derive(Debug, Clone, Copy, PartialEq, Eq, Structural)]
pub enum NodeStatus {
    /// Node has unexpectedly disappeared
    Unknown,
    /// Node is online
    Online,
    /// Node is offline
    Offline,
}

/// The text of a node status: the variant's name.
pub open spec fn node_status_text(status: NodeStatus) -> Seq<char> {
    match status {
        NodeStatus::Unknown => seq!['U', 'n', 'k', 'n', 'o', 'w', 'n'],
        NodeStatus::Online => seq!['O', 'n', 'l', 'i', 'n', 'e'],
        NodeStatus::Offline => seq!['O', 'f', 'f', 'l', 'i', 'n', 'e'],
    }
}

impl NodeStatus {
    /// The status as text: "Unknown", "Online" or "Offline".
    pub fn to_string(&self) -> (s: String)
        ensures
            s@ == node_status_text(*self),
    {
        proof {
            reveal_strlit("Unknown");
            reveal_strlit("Online");
            reveal_strlit("Offline");
        }
        let s = match self {
            NodeStatus::Unknown => crate::text::string_of("Unknown"),
            NodeStatus::Online => crate::text::string_of("Online"),
            NodeStatus::Offline => crate::text::string_of("Offline"),
        };
        assert(s@ =~= node_status_text(*self));
        s
    }
}

/// The spec of a node in the REST model.
#[derive(Debug, Clone, PartialEq, Eq)]
pub struct NodeSpec {
    /// gRPC endpoint of the node
    pub grpc_endpoint: String,
    /// id of the node
    pub id: String,
    /// cordon labels of the node
    pub cordon_labels: Vec<String>,
}

impl Default for NodeSpec {
    /// A spec with empty endpoint, id and cordon labels.
    fn default() -> (r: Self)
        ensures
            r.grpc_endpoint@ == Seq::<char>::empty(),
            r.id@ == Seq::<char>::empty(),
            r.cordon_labels@ == Seq::<String>::empty(),
    {
        NodeSpec { grpc_endpoint: String::new(), id: String::new(), cordon_labels: Vec::new() }
    }
}

impl NodeSpec {
    /// NodeSpec using only the required fields
    pub fn new(grpc_endpoint: String, id: String, cordon_labels: Vec<String>) -> (r: Self)
        ensures
            r == (NodeSpec { grpc_endpoint, id, cordon_labels }),
    {
        NodeSpec { grpc_endpoint, id, cordon_labels }
    }
}

/// The state of a node in the REST model.
#[derive(Debug, Clone, PartialEq, Eq)]
pub struct NodeState {
    /// id of the node
    pub id: String,
    /// gRPC endpoint of the node
    pub grpc_endpoint: String,
    /// status of the node
    pub status: NodeStatus,
}

/// A node in the REST model: its id, spec and state, either of which may be
/// missing.
#[derive(Debug, Clone, PartialEq, Eq)]
pub struct Node {
    /// id of the node
    pub id: String,
    /// the node's spec, if known
    pub spec: Option<NodeSpec>,
    /// the node's state, if known
    pub state: Option<NodeState>,
}

/// One row of the node table that the plugin prints.
#[derive(Debug, Clone, PartialEq, Eq)]
pub struct NodeRow {
    /// The node's id.
    pub id: String,
    /// The node's gRPC endpoint.
    pub grpc_endpoint: String,
    /// The node's status.
    pub status: NodeStatus,
    /// Whether the node is cordoned.
    pub cordoned: bool,
}

/// The row that the plugin shows for a node: its id, the endpoint and status
/// of its state; when the state is missing (the node is offline), the
/// endpoint of its spec and status unknown; and whether its spec has cordon
/// labels.
pub open spec fn node_row(node: Node, row: NodeRow) -> bool {
    &&& row.id@ == node.id@
    &&& match node.state {
        Some(state) => row.grpc_endpoint@ == state.grpc_endpoint@ && row.status == state.status,
        None => row.status == NodeStatus::Unknown && row.grpc_endpoint@ == match node.spec {
            Some(spec) => spec.grpc_endpoint@,
            None => Seq::<char>::empty(),
        },
    }
    &&& row.cordoned == match node.spec {
        Some(spec) => spec.cordon_labels@.len() > 0,
        None => false,
    }
}

impl Node {
    /// The rows of the node table for this node.
    pub fn create_rows(&self) -> (rows: Vec<NodeRow>)
        ensures
            rows@.len() == 1,
            node_row(*self, rows@[0]),
    {
        let spec = match &self.spec {
            Some(s) => s.clone_spec(),
            None => NodeSpec::default(),
        };
        let (grpc_endpoint, status) = match &self.state {
            Some(state) => (state.grpc_endpoint.clone(), state.status),
            None => (spec.grpc_endpoint.clone(), NodeStatus::Unknown),
        };
        let row = NodeRow {
            id: self.id.clone(),
            grpc_endpoint,
            status,
            cordoned: !spec.cordon_labels.is_empty(),
        };
        assert(node_row(*self, row));
        let mut rows: Vec<NodeRow> = Vec::new();
        rows.push(row);
        assert(rows@[0] == row);
        rows
    }
}

impl NodeSpec {
    /// A copy of the spec.
    pub fn clone_spec(&self) -> (r: Self)
        ensures
            r.grpc_endpoint@ == self.grpc_endpoint@,
            r.id@ == self.id@,
            r.cordon_labels@ == self.cordon_labels@,
    {
        let labels = self.cordon_labels.clone();
        assert(labels@ =~= self.cordon_labels@);
        NodeSpec { grpc_endpoint: self.grpc_endpoint.clone(), id: self.id.clone(), cordon_labels: labels }
    }
}

/// What the plugin reports after removing a cordon label.
#[derive(Debug, Clone, PartialEq, Eq)]
pub enum UncordonReport {
    /// No cordon label is left: the node is uncordoned.
    Uncordoned,
    /// These cordon labels remain.
    LabelsRemain(Vec<String>),
}

/// What the plugin reports of a node whose cordon label it removed: the
/// node is uncordoned when its spec (if any) has no cordon labels left.
pub fn uncordon_report(node: &Node) -> (r: UncordonReport)
    ensures
        match node.spec {
            Some(spec) if spec.cordon_labels@.len() > 0 => r matches UncordonReport::LabelsRemain(l)
                && l@ == spec.cordon_labels@,
            _ => r == UncordonReport::Uncordoned,
        },
{
    match &node.spec {
        Some(spec) => if spec.cordon_labels.is_empty() {
            UncordonReport::Uncordoned
        } else {
            UncordonReport::LabelsRemain(spec.clone_spec().cordon_labels)
        },
        None => UncordonReport::Uncordoned,
    }
}

} // verus!
