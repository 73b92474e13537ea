//! The pool requests that the pool gRPC transport carries, and the pool
//! information that can be read from them.
use std::collections::HashMap;
use vstd::prelude::*;

verus! {

/// Labels of a pool.
#[derive(Debug, Clone, PartialEq, Eq)]
pub struct PoolLabel {
    /// The labels.
    pub labels: HashMap<String, String>,
}

/// Request to create a pool.
#[derive(Debug, Clone, PartialEq, Eq)]
pub struct CreatePoolRequest {
    /// id of the pool
    pub pool_id: String,
    /// id of the node of the pool
    pub node_id: String,
    /// disks of the pool
    pub disks: Vec<String>,
    /// labels of the pool
    pub labels: Option<PoolLabel>,
}

/// Request to destroy a pool.
#[derive(Debug, Clone, PartialEq, Eq)]
pub struct DestroyPoolRequest {
    /// id of the pool
    pub pool_id: String,
}

/// Information about a pool, as a request carries it.
pub trait PoolInfo {
    /// The pool's id.
    spec fn spec_pool_id(&self) -> Seq<char>;

    /// The id of the pool's node.
    spec fn spec_node_id(&self) -> Seq<char>;

    /// The pool's disks, where the information gives them.
    spec fn spec_disks(&self) -> Option<Seq<String>>;

    /// The pool's labels, where the information gives them.
    spec fn spec_labels(&self) -> Option<Map<String, String>>;

    /// The pool's id.
    fn pool_id(&self) -> (r: String)
        ensures
            r@ == self.spec_pool_id(),
    ;

    /// The id of the pool's node.
    fn node_id(&self) -> (r: String)
        ensures
            r@ == self.spec_node_id(),
    ;

    /// The pool's disks.
    fn disks(&self) -> (r: Option<Vec<String>>)
        ensures
            match r {
                Some(d) => self.spec_disks() == Some(d@),
                None => self.spec_disks() is None,
            },
    ;

    /// The pool's labels.
    fn labels(&self) -> (r: Option<HashMap<String, String>>)
        ensures
            match r {
                Some(l) => self.spec_labels() == Some(l@),
                None => self.spec_labels() is None,
            },
    ;
}

impl PoolInfo for CreatePoolRequest {
    open spec fn spec_pool_id(&self) -> Seq<char> {
        self.pool_id@
    }

    open spec fn spec_node_id(&self) -> Seq<char> {
        self.node_id@
    }

    /// The disks are given only when there are none.
    open spec fn spec_disks(&self) -> Option<Seq<String>> {
        if self.disks@.len() == 0 {
            Some(self.disks@)
        } else {
            None
        }
    }

    open spec fn spec_labels(&self) -> Option<Map<String, String>> {
        match self.labels {
            Some(l) => Some(l.labels@),
            None => None,
        }
    }

    fn pool_id(&self) -> (r: String) {
        self.pool_id.clone()
    }

    fn node_id(&self) -> (r: String) {
        self.node_id.clone()
    }

    fn disks(&self) -> (r: Option<Vec<String>>) {
        if self.disks.is_empty() {
            let d = self.disks.clone();
            assert(d@ =~= self.disks@);
            Some(d)
        } else {
            None
        }
    }

    fn labels(&self) -> (r: Option<HashMap<String, String>>) {
        match &self.labels {
            Some(pool_label) => Some(pool_label.labels.clone()),
            None => None,
        }
    }
}

impl PoolInfo for DestroyPoolRequest {
    open spec fn spec_pool_id(&self) -> Seq<char> {
        self.pool_id@
    }

    open spec fn spec_node_id(&self) -> Seq<char> {
        Seq::empty()
    }

    open spec fn spec_disks(&self) -> Option<Seq<String>> {
        None
    }

    open spec fn spec_labels(&self) -> Option<Map<String, String>> {
        None
    }

    fn pool_id(&self) -> (r: String) {
        self.pool_id.clone()
    }

    fn node_id(&self) -> (r: String) {
        String::new()
    }

    fn disks(&self) -> (r: Option<Vec<String>>) {
        None
    }

    fn labels(&self) -> (r: Option<HashMap<String, String>>) {
        None
    }
}

impl CreatePoolRequest {
    /// The request to create the pool that `data` describes; the
    /// information must give the pool's disks.
    pub fn from<P: PoolInfo>(data: &P) -> (r: Self)
        requires
            data.spec_disks() is Some,
        ensures
            r.pool_id@ == data.spec_pool_id(),
            r.node_id@ == data.spec_node_id(),
            Some(r.disks@) == data.spec_disks(),
            match r.labels {
                Some(l) => data.spec_labels() == Some(l.labels@),
                None => data.spec_labels() is None,
            },
    {
        let disks = match data.disks() {
            Some(d) => d,
            None => Vec::new(),
        };
        let labels = match data.labels() {
            Some(l) => Some(PoolLabel { labels: l }),
            None => None,
        };
        CreatePoolRequest { node_id: data.node_id(), pool_id: data.pool_id(), disks, labels }
    }
}

/// A create request read back as pool information gives the same request,
/// provided it names no disks: the information gives disks only when there
/// are none, and a request for a pool with disks cannot be rebuilt from it.
pub proof fn lemma_create_pool_request_roundtrip(req: CreatePoolRequest, out: CreatePoolRequest)
    requires
        req.spec_disks() is Some,
        out.pool_id@ == req.spec_pool_id(),
        out.node_id@ == req.spec_node_id(),
        Some(out.disks@) == req.spec_disks(),
        match out.labels {
            Some(l) => req.spec_labels() == Some(l.labels@),
            None => req.spec_labels() is None,
        },
    ensures
        req.disks@.len() == 0,
        out.pool_id@ == req.pool_id@,
        out.node_id@ == req.node_id@,
        out.disks@ == req.disks@,
        out.labels is Some == req.labels is Some,
        out.labels is Some ==> out.labels->0.labels@ == req.labels->0.labels@,
{
}

/// Client of the pool gRPC service.
pub struct PoolClient {}

impl PoolClient {
    /// A new client; it holds no state.
    pub fn init() -> (c: PoolClient)
        ensures
            c == (PoolClient {}),
    {
        PoolClient {}
    }
}

} // verus!
