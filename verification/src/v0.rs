//! Version 0 of the message-bus types: channels, message ids, and the
//! requests and replies that the control-plane agents exchange.
use crate::ids::{ChildUri, JsonGrpcMethod, JsonGrpcParams, NexusId, NodeId, PoolId, ReplicaId, VolumeId};
use crate::pool_state::PoolState;
use crate::store::StorableObjectType;
use crate::text::{str_is, string_of};
use vstd::prelude::*;
use vstd::std_specs::convert::FromSpec;
use vstd::std_specs::convert::FromSpecImpl;
use vstd::string::StringExecFns;

verus! {

/// Versioned Channels
#[derive(Debug, Clone, Copy, PartialEq, Eq, Structural)]
pub enum ChannelVs {
    /// Default
    Default,
    /// Registration of mayastor instances with the control plane
    Registry,
    /// Node Service which exposes the registered mayastor instances
    Node,
    /// Pool Service which manages mayastor pools and replicas
    Pool,
    /// Volume Service which manages mayastor volumes
    Volume,
    /// Nexus Service which manages mayastor nexuses
    Nexus,
    /// Keep it In Sync Service
    Kiiss,
    /// Json gRPC Agent
    JsonGrpc,
    /// Core Agent combines Node, Pool and Volume services
    Core,
    /// Watcher Agent
    Watcher,
}

impl Default for ChannelVs {
    /// `ChannelVs::Default`.
    fn default() -> (r: Self)
        ensures
            r == ChannelVs::Default,
    {
        ChannelVs::Default
    }
}

/// The text form of a `ChannelVs` (camel case).
pub open spec fn channel_vs_text(v: ChannelVs) -> Seq<char> {
    match v {
        ChannelVs::Default => seq!['d', 'e', 'f', 'a', 'u', 'l', 't'],
        ChannelVs::Registry => seq!['r', 'e', 'g', 'i', 's', 't', 'r', 'y'],
        ChannelVs::Node => seq!['n', 'o', 'd', 'e'],
        ChannelVs::Pool => seq!['p', 'o', 'o', 'l'],
        ChannelVs::Volume => seq!['v', 'o', 'l', 'u', 'm', 'e'],
        ChannelVs::Nexus => seq!['n', 'e', 'x', 'u', 's'],
        ChannelVs::Kiiss => seq!['k', 'i', 'i', 's', 's'],
        ChannelVs::JsonGrpc => seq!['j', 's', 'o', 'n', 'G', 'r', 'p', 'c'],
        ChannelVs::Core => seq!['c', 'o', 'r', 'e'],
        ChannelVs::Watcher => seq!['w', 'a', 't', 'c', 'h', 'e', 'r'],
    }
}

impl ChannelVs {
    /// The text form of the value.
    pub fn to_string(&self) -> (s: String)
        ensures
            s@ == channel_vs_text(*self),
    {
        proof {
            reveal_strlit("default");
            assert("default"@ =~= seq!['d', 'e', 'f', 'a', 'u', 'l', 't']);
            reveal_strlit("registry");
            assert("registry"@ =~= seq!['r', 'e', 'g', 'i', 's', 't', 'r', 'y']);
            reveal_strlit("node");
            assert("node"@ =~= seq!['n', 'o', 'd', 'e']);
            reveal_strlit("pool");
            assert("pool"@ =~= seq!['p', 'o', 'o', 'l']);
            reveal_strlit("volume");
            assert("volume"@ =~= seq!['v', 'o', 'l', 'u', 'm', 'e']);
            reveal_strlit("nexus");
            assert("nexus"@ =~= seq!['n', 'e', 'x', 'u', 's']);
            reveal_strlit("kiiss");
            assert("kiiss"@ =~= seq!['k', 'i', 'i', 's', 's']);
            reveal_strlit("jsonGrpc");
            assert("jsonGrpc"@ =~= seq!['j', 's', 'o', 'n', 'G', 'r', 'p', 'c']);
            reveal_strlit("core");
            assert("core"@ =~= seq!['c', 'o', 'r', 'e']);
            reveal_strlit("watcher");
            assert("watcher"@ =~= seq!['w', 'a', 't', 'c', 'h', 'e', 'r']);
        }
        match self {
            ChannelVs::Default => string_of("default"),
            ChannelVs::Registry => string_of("registry"),
            ChannelVs::Node => string_of("node"),
            ChannelVs::Pool => string_of("pool"),
            ChannelVs::Volume => string_of("volume"),
            ChannelVs::Nexus => string_of("nexus"),
            ChannelVs::Kiiss => string_of("kiiss"),
            ChannelVs::JsonGrpc => string_of("jsonGrpc"),
            ChannelVs::Core => string_of("core"),
            ChannelVs::Watcher => string_of("watcher"),
        }
    }

    /// Parse the text form of a value; `None` where `s` is the text of no value.
    pub fn from_str(s: &str) -> (r: Option<Self>)
        ensures
            r matches Some(v) ==> s@ == channel_vs_text(v),
            r is None ==> forall|v: ChannelVs| s@ != #[trigger] channel_vs_text(v),
    {
        proof {
            reveal_strlit("default");
            assert("default"@ =~= seq!['d', 'e', 'f', 'a', 'u', 'l', 't']);
            reveal_strlit("registry");
            assert("registry"@ =~= seq!['r', 'e', 'g', 'i', 's', 't', 'r', 'y']);
            reveal_strlit("node");
            assert("node"@ =~= seq!['n', 'o', 'd', 'e']);
            reveal_strlit("pool");
            assert("pool"@ =~= seq!['p', 'o', 'o', 'l']);
            reveal_strlit("volume");
            assert("volume"@ =~= seq!['v', 'o', 'l', 'u', 'm', 'e']);
            reveal_strlit("nexus");
            assert("nexus"@ =~= seq!['n', 'e', 'x', 'u', 's']);
            reveal_strlit("kiiss");
            assert("kiiss"@ =~= seq!['k', 'i', 'i', 's', 's']);
            reveal_strlit("jsonGrpc");
            assert("jsonGrpc"@ =~= seq!['j', 's', 'o', 'n', 'G', 'r', 'p', 'c']);
            reveal_strlit("core");
            assert("core"@ =~= seq!['c', 'o', 'r', 'e']);
            reveal_strlit("watcher");
            assert("watcher"@ =~= seq!['w', 'a', 't', 'c', 'h', 'e', 'r']);
        }
        if str_is(s, "default") {
            Some(ChannelVs::Default)
        } else if str_is(s, "registry") {
            Some(ChannelVs::Registry)
        } else if str_is(s, "node") {
            Some(ChannelVs::Node)
        } else if str_is(s, "pool") {
            Some(ChannelVs::Pool)
        } else if str_is(s, "volume") {
            Some(ChannelVs::Volume)
        } else if str_is(s, "nexus") {
            Some(ChannelVs::Nexus)
        } else if str_is(s, "kiiss") {
            Some(ChannelVs::Kiiss)
        } else if str_is(s, "jsonGrpc") {
            Some(ChannelVs::JsonGrpc)
        } else if str_is(s, "core") {
            Some(ChannelVs::Core)
        } else if str_is(s, "watcher") {
            Some(ChannelVs::Watcher)
        } else {
            None
        }
    }
}

/// Distinct values of `ChannelVs` have distinct text forms, so parsing the text
/// of a value gives that value back.
pub proof fn lemma_channel_vs_text_injective(a: ChannelVs, b: ChannelVs)
    requires
        channel_vs_text(a) == channel_vs_text(b),
    ensures
        a == b,
{
    assert(channel_vs_text(a).len() == channel_vs_text(b).len());
    assert(channel_vs_text(a)[0] == channel_vs_text(b)[0]);
    assert(channel_vs_text(a)[1] == channel_vs_text(b)[1]);
    assert(channel_vs_text(a)[2] == channel_vs_text(b)[2]);
    assert(channel_vs_text(a)[3] == channel_vs_text(b)[3]);
    assert(channel_vs_text(a)[4] == channel_vs_text(b)[4]);
    assert(channel_vs_text(a)[5] == channel_vs_text(b)[5]);
    assert(channel_vs_text(a)[6] == channel_vs_text(b)[6]);
    assert(channel_vs_text(a)[7] == channel_vs_text(b)[7]);
}

/// Parsing the text form of a `ChannelVs` gives the value back: whatever
/// `from_str` may return on the text of `v`, by its contract, is `Some(v)`.
pub proof fn lemma_channel_vs_parse_roundtrip(v: ChannelVs, r: Option<ChannelVs>)
    requires
        r matches Some(w) ==> channel_vs_text(v) == channel_vs_text(w),
        r is None ==> forall|w: ChannelVs| channel_vs_text(v) != #[trigger] channel_vs_text(w),
    ensures
        r == Some(v),
{
    match r {
        Some(w) => lemma_channel_vs_text_injective(v, w),
        None => assert(channel_vs_text(v) == channel_vs_text(v)),
    }
}

/// Each value of `ChannelVs` is written as the name it is declared under (camel case).
pub proof fn lemma_channel_vs_declared_names()
    ensures
        channel_vs_text(ChannelVs::Default) == seq!['d', 'e', 'f', 'a', 'u', 'l', 't'],
        channel_vs_text(ChannelVs::Registry) == seq!['r', 'e', 'g', 'i', 's', 't', 'r', 'y'],
        channel_vs_text(ChannelVs::Node) == seq!['n', 'o', 'd', 'e'],
        channel_vs_text(ChannelVs::Pool) == seq!['p', 'o', 'o', 'l'],
        channel_vs_text(ChannelVs::Volume) == seq!['v', 'o', 'l', 'u', 'm', 'e'],
        channel_vs_text(ChannelVs::Nexus) == seq!['n', 'e', 'x', 'u', 's'],
        channel_vs_text(ChannelVs::Kiiss) == seq!['k', 'i', 'i', 's', 's'],
        channel_vs_text(ChannelVs::JsonGrpc) == seq!['j', 's', 'o', 'n', 'G', 'r', 'p', 'c'],
        channel_vs_text(ChannelVs::Core) == seq!['c', 'o', 'r', 'e'],
        channel_vs_text(ChannelVs::Watcher) == seq!['w', 'a', 't', 'c', 'h', 'e', 'r'],
{
}

/// Versioned Message Id's
#[derive(Debug, Clone, Copy, PartialEq, Eq, Structural)]
pub enum MessageIdVs {
    /// Default
    Default,
    /// Liveness Probe
    Liveness,
    /// Update Config
    ConfigUpdate,
    /// Request current Config
    ConfigGetCurrent,
    /// Register mayastor
    Register,
    /// Deregister mayastor
    Deregister,
    /// Get all node information
    GetNodes,
    /// Get pools with filter
    GetPools,
    /// Create Pool
    CreatePool,
    /// Destroy Pool
    DestroyPool,
    /// Get replicas with filter
    GetReplicas,
    /// Create Replica
    CreateReplica,
    /// Destroy Replica
    DestroyReplica,
    /// Share Replica
    ShareReplica,
    /// Unshare Replica
    UnshareReplica,
    /// Get nexuses with filter
    GetNexuses,
    /// Create nexus
    CreateNexus,
    /// Destroy Nexus
    DestroyNexus,
    /// Share Nexus
    ShareNexus,
    /// Unshare Nexus
    UnshareNexus,
    /// Remove a child from its parent nexus
    RemoveNexusChild,
    /// Add a child to a nexus
    AddNexusChild,
    /// Get all volumes
    GetVolumes,
    /// Create Volume
    CreateVolume,
    /// Delete Volume
    DestroyVolume,
    /// Add nexus to volume
    AddVolumeNexus,
    /// Remove nexus from volume
    RemoveVolumeNexus,
    /// Generic JSON gRPC message
    JsonGrpc,
    /// Get block devices
    GetBlockDevices,
    /// Create new Resource Watch
    CreateWatch,
    /// Get watches
    GetWatches,
    /// Delete Resource Watch
    DeleteWatch,
    /// Get Specs
    GetSpecs,
}

impl Default for MessageIdVs {
    /// `MessageIdVs::Default`.
    fn default() -> (r: Self)
        ensures
            r == MessageIdVs::Default,
    {
        MessageIdVs::Default
    }
}

/// The text form of a `MessageIdVs` (camel case).
pub open spec fn message_id_vs_text(v: MessageIdVs) -> Seq<char> {
    match v {
        MessageIdVs::Default => seq!['d', 'e', 'f', 'a', 'u', 'l', 't'],
        MessageIdVs::Liveness => seq!['l', 'i', 'v', 'e', 'n', 'e', 's', 's'],
        MessageIdVs::ConfigUpdate => seq!['c', 'o', 'n', 'f', 'i', 'g', 'U', 'p', 'd', 'a', 't', 'e'],
        MessageIdVs::ConfigGetCurrent => seq!['c', 'o', 'n', 'f', 'i', 'g', 'G', 'e', 't', 'C', 'u', 'r', 'r', 'e', 'n', 't'],
        MessageIdVs::Register => seq!['r', 'e', 'g', 'i', 's', 't', 'e', 'r'],
        MessageIdVs::Deregister => seq!['d', 'e', 'r', 'e', 'g', 'i', 's', 't', 'e', 'r'],
        MessageIdVs::GetNodes => seq!['g', 'e', 't', 'N', 'o', 'd', 'e', 's'],
        MessageIdVs::GetPools => seq!['g', 'e', 't', 'P', 'o', 'o', 'l', 's'],
        MessageIdVs::CreatePool => seq!['c', 'r', 'e', 'a', 't', 'e', 'P', 'o', 'o', 'l'],
        MessageIdVs::DestroyPool => seq!['d', 'e', 's', 't', 'r', 'o', 'y', 'P', 'o', 'o', 'l'],
        MessageIdVs::GetReplicas => seq!['g', 'e', 't', 'R', 'e', 'p', 'l', 'i', 'c', 'a', 's'],
        MessageIdVs::CreateReplica => seq!['c', 'r', 'e', 'a', 't', 'e', 'R', 'e', 'p', 'l', 'i', 'c', 'a'],
        MessageIdVs::DestroyReplica => seq!['d', 'e', 's', 't', 'r', 'o', 'y', 'R', 'e', 'p', 'l', 'i', 'c', 'a'],
        MessageIdVs::ShareReplica => seq!['s', 'h', 'a', 'r', 'e', 'R', 'e', 'p', 'l', 'i', 'c', 'a'],
        MessageIdVs::UnshareReplica => seq!['u', 'n', 's', 'h', 'a', 'r', 'e', 'R', 'e', 'p', 'l', 'i', 'c', 'a'],
        MessageIdVs::GetNexuses => seq!['g', 'e', 't', 'N', 'e', 'x', 'u', 's', 'e', 's'],
        MessageIdVs::CreateNexus => seq!['c', 'r', 'e', 'a', 't', 'e', 'N', 'e', 'x', 'u', 's'],
        MessageIdVs::DestroyNexus => seq!['d', 'e', 's', 't', 'r', 'o', 'y', 'N', 'e', 'x', 'u', 's'],
        MessageIdVs::ShareNexus => seq!['s', 'h', 'a', 'r', 'e', 'N', 'e', 'x', 'u', 's'],
        MessageIdVs::UnshareNexus => seq!['u', 'n', 's', 'h', 'a', 'r', 'e', 'N', 'e', 'x', 'u', 's'],
        MessageIdVs::RemoveNexusChild => seq!['r', 'e', 'm', 'o', 'v', 'e', 'N', 'e', 'x', 'u', 's', 'C', 'h', 'i', 'l', 'd'],
        MessageIdVs::AddNexusChild => seq!['a', 'd', 'd', 'N', 'e', 'x', 'u', 's', 'C', 'h', 'i', 'l', 'd'],
        MessageIdVs::GetVolumes => seq!['g', 'e', 't', 'V', 'o', 'l', 'u', 'm', 'e', 's'],
        MessageIdVs::CreateVolume => seq!['c', 'r', 'e', 'a', 't', 'e', 'V', 'o', 'l', 'u', 'm', 'e'],
        MessageIdVs::DestroyVolume => seq!['d', 'e', 's', 't', 'r', 'o', 'y', 'V', 'o', 'l', 'u', 'm', 'e'],
        MessageIdVs::AddVolumeNexus => seq!['a', 'd', 'd', 'V', 'o', 'l', 'u', 'm', 'e', 'N', 'e', 'x', 'u', 's'],
        MessageIdVs::RemoveVolumeNexus => seq!['r', 'e', 'm', 'o', 'v', 'e', 'V', 'o', 'l', 'u', 'm', 'e', 'N', 'e', 'x', 'u', 's'],
        MessageIdVs::JsonGrpc => seq!['j', 's', 'o', 'n', 'G', 'r', 'p', 'c'],
        MessageIdVs::GetBlockDevices => seq!['g', 'e', 't', 'B', 'l', 'o', 'c', 'k', 'D', 'e', 'v', 'i', 'c', 'e', 's'],
        MessageIdVs::CreateWatch => seq!['c', 'r', 'e', 'a', 't', 'e', 'W', 'a', 't', 'c', 'h'],
        MessageIdVs::GetWatches => seq!['g', 'e', 't', 'W', 'a', 't', 'c', 'h', 'e', 's'],
        MessageIdVs::DeleteWatch => seq!['d', 'e', 'l', 'e', 't', 'e', 'W', 'a', 't', 'c', 'h'],
        MessageIdVs::GetSpecs => seq!['g', 'e', 't', 'S', 'p', 'e', 'c', 's'],
    }
}

impl MessageIdVs {
    /// The text form of the value.
    pub fn to_string(&self) -> (s: String)
        ensures
            s@ == message_id_vs_text(*self),
    {
        proof {
            reveal_strlit("default");
            assert("default"@ =~= seq!['d', 'e', 'f', 'a', 'u', 'l', 't']);
            reveal_strlit("liveness");
            assert("liveness"@ =~= seq!['l', 'i', 'v', 'e', 'n', 'e', 's', 's']);
            reveal_strlit("configUpdate");
            assert("configUpdate"@ =~= seq!['c', 'o', 'n', 'f', 'i', 'g', 'U', 'p', 'd', 'a', 't', 'e']);
            reveal_strlit("configGetCurrent");
            assert("configGetCurrent"@ =~= seq!['c', 'o', 'n', 'f', 'i', 'g', 'G', 'e', 't', 'C', 'u', 'r', 'r', 'e', 'n', 't']);
            reveal_strlit("register");
            assert("register"@ =~= seq!['r', 'e', 'g', 'i', 's', 't', 'e', 'r']);
            reveal_strlit("deregister");
            assert("deregister"@ =~= seq!['d', 'e', 'r', 'e', 'g', 'i', 's', 't', 'e', 'r']);
            reveal_strlit("getNodes");
            assert("getNodes"@ =~= seq!['g', 'e', 't', 'N', 'o', 'd', 'e', 's']);
            reveal_strlit("getPools");
            assert("getPools"@ =~= seq!['g', 'e', 't', 'P', 'o', 'o', 'l', 's']);
            reveal_strlit("createPool");
            assert("createPool"@ =~= seq!['c', 'r', 'e', 'a', 't', 'e', 'P', 'o', 'o', 'l']);
            reveal_strlit("destroyPool");
            assert("destroyPool"@ =~= seq!['d', 'e', 's', 't', 'r', 'o', 'y', 'P', 'o', 'o', 'l']);
            reveal_strlit("getReplicas");
            assert("getReplicas"@ =~= seq!['g', 'e', 't', 'R', 'e', 'p', 'l', 'i', 'c', 'a', 's']);
            reveal_strlit("createReplica");
            assert("createReplica"@ =~= seq!['c', 'r', 'e', 'a', 't', 'e', 'R', 'e', 'p', 'l', 'i', 'c', 'a']);
            reveal_strlit("destroyReplica");
            assert("destroyReplica"@ =~= seq!['d', 'e', 's', 't', 'r', 'o', 'y', 'R', 'e', 'p', 'l', 'i', 'c', 'a']);
            reveal_strlit("shareReplica");
            assert("shareReplica"@ =~= seq!['s', 'h', 'a', 'r', 'e', 'R', 'e', 'p', 'l', 'i', 'c', 'a']);
            reveal_strlit("unshareReplica");
            assert("unshareReplica"@ =~= seq!['u', 'n', 's', 'h', 'a', 'r', 'e', 'R', 'e', 'p', 'l', 'i', 'c', 'a']);
            reveal_strlit("getNexuses");
            assert("getNexuses"@ =~= seq!['g', 'e', 't', 'N', 'e', 'x', 'u', 's', 'e', 's']);
            reveal_strlit("createNexus");
            assert("createNexus"@ =~= seq!['c', 'r', 'e', 'a', 't', 'e', 'N', 'e', 'x', 'u', 's']);
            reveal_strlit("destroyNexus");
            assert("destroyNexus"@ =~= seq!['d', 'e', 's', 't', 'r', 'o', 'y', 'N', 'e', 'x', 'u', 's']);
            reveal_strlit("shareNexus");
            assert("shareNexus"@ =~= seq!['s', 'h', 'a', 'r', 'e', 'N', 'e', 'x', 'u', 's']);
            reveal_strlit("unshareNexus");
            assert("unshareNexus"@ =~= seq!['u', 'n', 's', 'h', 'a', 'r', 'e', 'N', 'e', 'x', 'u', 's']);
            reveal_strlit("removeNexusChild");
            assert("removeNexusChild"@ =~= seq!['r', 'e', 'm', 'o', 'v', 'e', 'N', 'e', 'x', 'u', 's', 'C', 'h', 'i', 'l', 'd']);
            reveal_strlit("addNexusChild");
            assert("addNexusChild"@ =~= seq!['a', 'd', 'd', 'N', 'e', 'x', 'u', 's', 'C', 'h', 'i', 'l', 'd']);
            reveal_strlit("getVolumes");
            assert("getVolumes"@ =~= seq!['g', 'e', 't', 'V', 'o', 'l', 'u', 'm', 'e', 's']);
            reveal_strlit("createVolume");
            assert("createVolume"@ =~= seq!['c', 'r', 'e', 'a', 't', 'e', 'V', 'o', 'l', 'u', 'm', 'e']);
            reveal_strlit("destroyVolume");
            assert("destroyVolume"@ =~= seq!['d', 'e', 's', 't', 'r', 'o', 'y', 'V', 'o', 'l', 'u', 'm', 'e']);
            reveal_strlit("addVolumeNexus");
            assert("addVolumeNexus"@ =~= seq!['a', 'd', 'd', 'V', 'o', 'l', 'u', 'm', 'e', 'N', 'e', 'x', 'u', 's']);
            reveal_strlit("removeVolumeNexus");
            assert("removeVolumeNexus"@ =~= seq!['r', 'e', 'm', 'o', 'v', 'e', 'V', 'o', 'l', 'u', 'm', 'e', 'N', 'e', 'x', 'u', 's']);
            reveal_strlit("jsonGrpc");
            assert("jsonGrpc"@ =~= seq!['j', 's', 'o', 'n', 'G', 'r', 'p', 'c']);
            reveal_strlit("getBlockDevices");
            assert("getBlockDevices"@ =~= seq!['g', 'e', 't', 'B', 'l', 'o', 'c', 'k', 'D', 'e', 'v', 'i', 'c', 'e', 's']);
            reveal_strlit("createWatch");
            assert("createWatch"@ =~= seq!['c', 'r', 'e', 'a', 't', 'e', 'W', 'a', 't', 'c', 'h']);
            reveal_strlit("getWatches");
            assert("getWatches"@ =~= seq!['g', 'e', 't', 'W', 'a', 't', 'c', 'h', 'e', 's']);
            reveal_strlit("deleteWatch");
            assert("deleteWatch"@ =~= seq!['d', 'e', 'l', 'e', 't', 'e', 'W', 'a', 't', 'c', 'h']);
            reveal_strlit("getSpecs");
            assert("getSpecs"@ =~= seq!['g', 'e', 't', 'S', 'p', 'e', 'c', 's']);
        }
        match self {
            MessageIdVs::Default => string_of("default"),
            MessageIdVs::Liveness => string_of("liveness"),
            MessageIdVs::ConfigUpdate => string_of("configUpdate"),
            MessageIdVs::ConfigGetCurrent => string_of("configGetCurrent"),
            MessageIdVs::Register => string_of("register"),
            MessageIdVs::Deregister => string_of("deregister"),
            MessageIdVs::GetNodes => string_of("getNodes"),
            MessageIdVs::GetPools => string_of("getPools"),
            MessageIdVs::CreatePool => string_of("createPool"),
            MessageIdVs::DestroyPool => string_of("destroyPool"),
            MessageIdVs::GetReplicas => string_of("getReplicas"),
            MessageIdVs::CreateReplica => string_of("createReplica"),
            MessageIdVs::DestroyReplica => string_of("destroyReplica"),
            MessageIdVs::ShareReplica => string_of("shareReplica"),
            MessageIdVs::UnshareReplica => string_of("unshareReplica"),
            MessageIdVs::GetNexuses => string_of("getNexuses"),
            MessageIdVs::CreateNexus => string_of("createNexus"),
            MessageIdVs::DestroyNexus => string_of("destroyNexus"),
            MessageIdVs::ShareNexus => string_of("shareNexus"),
            MessageIdVs::UnshareNexus => string_of("unshareNexus"),
            MessageIdVs::RemoveNexusChild => string_of("removeNexusChild"),
            MessageIdVs::AddNexusChild => string_of("addNexusChild"),
            MessageIdVs::GetVolumes => string_of("getVolumes"),
            MessageIdVs::CreateVolume => string_of("createVolume"),
            MessageIdVs::DestroyVolume => string_of("destroyVolume"),
            MessageIdVs::AddVolumeNexus => string_of("addVolumeNexus"),
            MessageIdVs::RemoveVolumeNexus => string_of("removeVolumeNexus"),
            MessageIdVs::JsonGrpc => string_of("jsonGrpc"),
            MessageIdVs::GetBlockDevices => string_of("getBlockDevices"),
            MessageIdVs::CreateWatch => string_of("createWatch"),
            MessageIdVs::GetWatches => string_of("getWatches"),
            MessageIdVs::DeleteWatch => string_of("deleteWatch"),
            MessageIdVs::GetSpecs => string_of("getSpecs"),
        }
    }

    /// Parse the text form of a value; `None` where `s` is the text of no value.
    pub fn from_str(s: &str) -> (r: Option<Self>)
        ensures
            r matches Some(v) ==> s@ == message_id_vs_text(v),
            r is None ==> forall|v: MessageIdVs| s@ != #[trigger] message_id_vs_text(v),
    {
        proof {
            reveal_strlit("default");
            assert("default"@ =~= seq!['d', 'e', 'f', 'a', 'u', 'l', 't']);
            reveal_strlit("liveness");
            assert("liveness"@ =~= seq!['l', 'i', 'v', 'e', 'n', 'e', 's', 's']);
            reveal_strlit("configUpdate");
            assert("configUpdate"@ =~= seq!['c', 'o', 'n', 'f', 'i', 'g', 'U', 'p', 'd', 'a', 't', 'e']);
            reveal_strlit("configGetCurrent");
            assert("configGetCurrent"@ =~= seq!['c', 'o', 'n', 'f', 'i', 'g', 'G', 'e', 't', 'C', 'u', 'r', 'r', 'e', 'n', 't']);
            reveal_strlit("register");
            assert("register"@ =~= seq!['r', 'e', 'g', 'i', 's', 't', 'e', 'r']);
            reveal_strlit("deregister");
            assert("deregister"@ =~= seq!['d', 'e', 'r', 'e', 'g', 'i', 's', 't', 'e', 'r']);
            reveal_strlit("getNodes");
            assert("getNodes"@ =~= seq!['g', 'e', 't', 'N', 'o', 'd', 'e', 's']);
            reveal_strlit("getPools");
            assert("getPools"@ =~= seq!['g', 'e', 't', 'P', 'o', 'o', 'l', 's']);
            reveal_strlit("createPool");
            assert("createPool"@ =~= seq!['c', 'r', 'e', 'a', 't', 'e', 'P', 'o', 'o', 'l']);
            reveal_strlit("destroyPool");
            assert("destroyPool"@ =~= seq!['d', 'e', 's', 't', 'r', 'o', 'y', 'P', 'o', 'o', 'l']);
            reveal_strlit("getReplicas");
            assert("getReplicas"@ =~= seq!['g', 'e', 't', 'R', 'e', 'p', 'l', 'i', 'c', 'a', 's']);
            reveal_strlit("createReplica");
            assert("createReplica"@ =~= seq!['c', 'r', 'e', 'a', 't', 'e', 'R', 'e', 'p', 'l', 'i', 'c', 'a']);
            reveal_strlit("destroyReplica");
            assert("destroyReplica"@ =~= seq!['d', 'e', 's', 't', 'r', 'o', 'y', 'R', 'e', 'p', 'l', 'i', 'c', 'a']);
            reveal_strlit("shareReplica");
            assert("shareReplica"@ =~= seq!['s', 'h', 'a', 'r', 'e', 'R', 'e', 'p', 'l', 'i', 'c', 'a']);
            reveal_strlit("unshareReplica");
            assert("unshareReplica"@ =~= seq!['u', 'n', 's', 'h', 'a', 'r', 'e', 'R', 'e', 'p', 'l', 'i', 'c', 'a']);
            reveal_strlit("getNexuses");
            assert("getNexuses"@ =~= seq!['g', 'e', 't', 'N', 'e', 'x', 'u', 's', 'e', 's']);
            reveal_strlit("createNexus");
            assert("createNexus"@ =~= seq!['c', 'r', 'e', 'a', 't', 'e', 'N', 'e', 'x', 'u', 's']);
            reveal_strlit("destroyNexus");
            assert("destroyNexus"@ =~= seq!['d', 'e', 's', 't', 'r', 'o', 'y', 'N', 'e', 'x', 'u', 's']);
            reveal_strlit("shareNexus");
            assert("shareNexus"@ =~= seq!['s', 'h', 'a', 'r', 'e', 'N', 'e', 'x', 'u', 's']);
            reveal_strlit("unshareNexus");
            assert("unshareNexus"@ =~= seq!['u', 'n', 's', 'h', 'a', 'r', 'e', 'N', 'e', 'x', 'u', 's']);
            reveal_strlit("removeNexusChild");
            assert("removeNexusChild"@ =~= seq!['r', 'e', 'm', 'o', 'v', 'e', 'N', 'e', 'x', 'u', 's', 'C', 'h', 'i', 'l', 'd']);
            reveal_strlit("addNexusChild");
            assert("addNexusChild"@ =~= seq!['a', 'd', 'd', 'N', 'e', 'x', 'u', 's', 'C', 'h', 'i', 'l', 'd']);
            reveal_strlit("getVolumes");
            assert("getVolumes"@ =~= seq!['g', 'e', 't', 'V', 'o', 'l', 'u', 'm', 'e', 's']);
            reveal_strlit("createVolume");
            assert("createVolume"@ =~= seq!['c', 'r', 'e', 'a', 't', 'e', 'V', 'o', 'l', 'u', 'm', 'e']);
            reveal_strlit("destroyVolume");
            assert("destroyVolume"@ =~= seq!['d', 'e', 's', 't', 'r', 'o', 'y', 'V', 'o', 'l', 'u', 'm', 'e']);
            reveal_strlit("addVolumeNexus");
            assert("addVolumeNexus"@ =~= seq!['a', 'd', 'd', 'V', 'o', 'l', 'u', 'm', 'e', 'N', 'e', 'x', 'u', 's']);
            reveal_strlit("removeVolumeNexus");
            assert("removeVolumeNexus"@ =~= seq!['r', 'e', 'm', 'o', 'v', 'e', 'V', 'o', 'l', 'u', 'm', 'e', 'N', 'e', 'x', 'u', 's']);
            reveal_strlit("jsonGrpc");
            assert("jsonGrpc"@ =~= seq!['j', 's', 'o', 'n', 'G', 'r', 'p', 'c']);
            reveal_strlit("getBlockDevices");
            assert("getBlockDevices"@ =~= seq!['g', 'e', 't', 'B', 'l', 'o', 'c', 'k', 'D', 'e', 'v', 'i', 'c', 'e', 's']);
            reveal_strlit("createWatch");
            assert("createWatch"@ =~= seq!['c', 'r', 'e', 'a', 't', 'e', 'W', 'a', 't', 'c', 'h']);
            reveal_strlit("getWatches");
            assert("getWatches"@ =~= seq!['g', 'e', 't', 'W', 'a', 't', 'c', 'h', 'e', 's']);
            reveal_strlit("deleteWatch");
            assert("deleteWatch"@ =~= seq!['d', 'e', 'l', 'e', 't', 'e', 'W', 'a', 't', 'c', 'h']);
            reveal_strlit("getSpecs");
            assert("getSpecs"@ =~= seq!['g', 'e', 't', 'S', 'p', 'e', 'c', 's']);
        }
        if str_is(s, "default") {
            Some(MessageIdVs::Default)
        } else if str_is(s, "liveness") {
            Some(MessageIdVs::Liveness)
        } else if str_is(s, "configUpdate") {
            Some(MessageIdVs::ConfigUpdate)
        } else if str_is(s, "configGetCurrent") {
            Some(MessageIdVs::ConfigGetCurrent)
        } else if str_is(s, "register") {
            Some(MessageIdVs::Register)
        } else if str_is(s, "deregister") {
            Some(MessageIdVs::Deregister)
        } else if str_is(s, "getNodes") {
            Some(MessageIdVs::GetNodes)
        } else if str_is(s, "getPools") {
            Some(MessageIdVs::GetPools)
        } else if str_is(s, "createPool") {
            Some(MessageIdVs::CreatePool)
        } else if str_is(s, "destroyPool") {
            Some(MessageIdVs::DestroyPool)
        } else if str_is(s, "getReplicas") {
            Some(MessageIdVs::GetReplicas)
        } else if str_is(s, "createReplica") {
            Some(MessageIdVs::CreateReplica)
        } else if str_is(s, "destroyReplica") {
            Some(MessageIdVs::DestroyReplica)
        } else if str_is(s, "shareReplica") {
            Some(MessageIdVs::ShareReplica)
        } else if str_is(s, "unshareReplica") {
            Some(MessageIdVs::UnshareReplica)
        } else if str_is(s, "getNexuses") {
            Some(MessageIdVs::GetNexuses)
        } else if str_is(s, "createNexus") {
            Some(MessageIdVs::CreateNexus)
        } else if str_is(s, "destroyNexus") {
            Some(MessageIdVs::DestroyNexus)
        } else if str_is(s, "shareNexus") {
            Some(MessageIdVs::ShareNexus)
        } else if str_is(s, "unshareNexus") {
            Some(MessageIdVs::UnshareNexus)
        } else if str_is(s, "removeNexusChild") {
            Some(MessageIdVs::RemoveNexusChild)
        } else if str_is(s, "addNexusChild") {
            Some(MessageIdVs::AddNexusChild)
        } else if str_is(s, "getVolumes") {
            Some(MessageIdVs::GetVolumes)
        } else if str_is(s, "createVolume") {
            Some(MessageIdVs::CreateVolume)
        } else if str_is(s, "destroyVolume") {
            Some(MessageIdVs::DestroyVolume)
        } else if str_is(s, "addVolumeNexus") {
            Some(MessageIdVs::AddVolumeNexus)
        } else if str_is(s, "removeVolumeNexus") {
            Some(MessageIdVs::RemoveVolumeNexus)
        } else if str_is(s, "jsonGrpc") {
            Some(MessageIdVs::JsonGrpc)
        } else if str_is(s, "getBlockDevices") {
            Some(MessageIdVs::GetBlockDevices)
        } else if str_is(s, "createWatch") {
            Some(MessageIdVs::CreateWatch)
        } else if str_is(s, "getWatches") {
            Some(MessageIdVs::GetWatches)
        } else if str_is(s, "deleteWatch") {
            Some(MessageIdVs::DeleteWatch)
        } else if str_is(s, "getSpecs") {
            Some(MessageIdVs::GetSpecs)
        } else {
            None
        }
    }
}

/// Distinct values of `MessageIdVs` have distinct text forms, so parsing the text
/// of a value gives that value back.
pub proof fn lemma_message_id_vs_text_injective(a: MessageIdVs, b: MessageIdVs)
    requires
        message_id_vs_text(a) == message_id_vs_text(b),
    ensures
        a == b,
{
    assert(message_id_vs_text(a).len() == message_id_vs_text(b).len());
    assert(message_id_vs_text(a)[0] == message_id_vs_text(b)[0]);
    assert(message_id_vs_text(a)[1] == message_id_vs_text(b)[1]);
    assert(message_id_vs_text(a)[2] == message_id_vs_text(b)[2]);
    assert(message_id_vs_text(a)[3] == message_id_vs_text(b)[3]);
    assert(message_id_vs_text(a)[4] == message_id_vs_text(b)[4]);
    assert(message_id_vs_text(a)[5] == message_id_vs_text(b)[5]);
    assert(message_id_vs_text(a)[6] == message_id_vs_text(b)[6]);
    assert(message_id_vs_text(a)[7] == message_id_vs_text(b)[7]);
    assert(message_id_vs_text(a)[8] == message_id_vs_text(b)[8]);
    assert(message_id_vs_text(a)[9] == message_id_vs_text(b)[9]);
    assert(message_id_vs_text(a)[10] == message_id_vs_text(b)[10]);
    assert(message_id_vs_text(a)[11] == message_id_vs_text(b)[11]);
    assert(message_id_vs_text(a)[12] == message_id_vs_text(b)[12]);
    assert(message_id_vs_text(a)[13] == message_id_vs_text(b)[13]);
    assert(message_id_vs_text(a)[14] == message_id_vs_text(b)[14]);
    assert(message_id_vs_text(a)[15] == message_id_vs_text(b)[15]);
    assert(message_id_vs_text(a)[16] == message_id_vs_text(b)[16]);
}

/// Parsing the text form of a `MessageIdVs` gives the value back: whatever
/// `from_str` may return on the text of `v`, by its contract, is `Some(v)`.
pub proof fn lemma_message_id_vs_parse_roundtrip(v: MessageIdVs, r: Option<MessageIdVs>)
    requires
        r matches Some(w) ==> message_id_vs_text(v) == message_id_vs_text(w),
        r is None ==> forall|w: MessageIdVs| message_id_vs_text(v) != #[trigger] message_id_vs_text(w),
    ensures
        r == Some(v),
{
    match r {
        Some(w) => lemma_message_id_vs_text_injective(v, w),
        None => assert(message_id_vs_text(v) == message_id_vs_text(v)),
    }
}

/// Each value of `MessageIdVs` is written as the name it is declared under (camel case).
pub proof fn lemma_message_id_vs_declared_names()
    ensures
        message_id_vs_text(MessageIdVs::Default) == seq!['d', 'e', 'f', 'a', 'u', 'l', 't'],
        message_id_vs_text(MessageIdVs::Liveness) == seq!['l', 'i', 'v', 'e', 'n', 'e', 's', 's'],
        message_id_vs_text(MessageIdVs::ConfigUpdate) == seq!['c', 'o', 'n', 'f', 'i', 'g', 'U', 'p', 'd', 'a', 't', 'e'],
        message_id_vs_text(MessageIdVs::ConfigGetCurrent) == seq!['c', 'o', 'n', 'f', 'i', 'g', 'G', 'e', 't', 'C', 'u', 'r', 'r', 'e', 'n', 't'],
        message_id_vs_text(MessageIdVs::Register) == seq!['r', 'e', 'g', 'i', 's', 't', 'e', 'r'],
        message_id_vs_text(MessageIdVs::Deregister) == seq!['d', 'e', 'r', 'e', 'g', 'i', 's', 't', 'e', 'r'],
        message_id_vs_text(MessageIdVs::GetNodes) == seq!['g', 'e', 't', 'N', 'o', 'd', 'e', 's'],
        message_id_vs_text(MessageIdVs::GetPools) == seq!['g', 'e', 't', 'P', 'o', 'o', 'l', 's'],
        message_id_vs_text(MessageIdVs::CreatePool) == seq!['c', 'r', 'e', 'a', 't', 'e', 'P', 'o', 'o', 'l'],
        message_id_vs_text(MessageIdVs::DestroyPool) == seq!['d', 'e', 's', 't', 'r', 'o', 'y', 'P', 'o', 'o', 'l'],
        message_id_vs_text(MessageIdVs::GetReplicas) == seq!['g', 'e', 't', 'R', 'e', 'p', 'l', 'i', 'c', 'a', 's'],
        message_id_vs_text(MessageIdVs::CreateReplica) == seq!['c', 'r', 'e', 'a', 't', 'e', 'R', 'e', 'p', 'l', 'i', 'c', 'a'],
        message_id_vs_text(MessageIdVs::DestroyReplica) == seq!['d', 'e', 's', 't', 'r', 'o', 'y', 'R', 'e', 'p', 'l', 'i', 'c', 'a'],
        message_id_vs_text(MessageIdVs::ShareReplica) == seq!['s', 'h', 'a', 'r', 'e', 'R', 'e', 'p', 'l', 'i', 'c', 'a'],
        message_id_vs_text(MessageIdVs::UnshareReplica) == seq!['u', 'n', 's', 'h', 'a', 'r', 'e', 'R', 'e', 'p', 'l', 'i', 'c', 'a'],
        message_id_vs_text(MessageIdVs::GetNexuses) == seq!['g', 'e', 't', 'N', 'e', 'x', 'u', 's', 'e', 's'],
        message_id_vs_text(MessageIdVs::CreateNexus) == seq!['c', 'r', 'e', 'a', 't', 'e', 'N', 'e', 'x', 'u', 's'],
        message_id_vs_text(MessageIdVs::DestroyNexus) == seq!['d', 'e', 's', 't', 'r', 'o', 'y', 'N', 'e', 'x', 'u', 's'],
        message_id_vs_text(MessageIdVs::ShareNexus) == seq!['s', 'h', 'a', 'r', 'e', 'N', 'e', 'x', 'u', 's'],
        message_id_vs_text(MessageIdVs::UnshareNexus) == seq!['u', 'n', 's', 'h', 'a', 'r', 'e', 'N', 'e', 'x', 'u', 's'],
        message_id_vs_text(MessageIdVs::RemoveNexusChild) == seq!['r', 'e', 'm', 'o', 'v', 'e', 'N', 'e', 'x', 'u', 's', 'C', 'h', 'i', 'l', 'd'],
        message_id_vs_text(MessageIdVs::AddNexusChild) == seq!['a', 'd', 'd', 'N', 'e', 'x', 'u', 's', 'C', 'h', 'i', 'l', 'd'],
        message_id_vs_text(MessageIdVs::GetVolumes) == seq!['g', 'e', 't', 'V', 'o', 'l', 'u', 'm', 'e', 's'],
        message_id_vs_text(MessageIdVs::CreateVolume) == seq!['c', 'r', 'e', 'a', 't', 'e', 'V', 'o', 'l', 'u', 'm', 'e'],
        message_id_vs_text(MessageIdVs::DestroyVolume) == seq!['d', 'e', 's', 't', 'r', 'o', 'y', 'V', 'o', 'l', 'u', 'm', 'e'],
        message_id_vs_text(MessageIdVs::AddVolumeNexus) == seq!['a', 'd', 'd', 'V', 'o', 'l', 'u', 'm', 'e', 'N', 'e', 'x', 'u', 's'],
        message_id_vs_text(MessageIdVs::RemoveVolumeNexus) == seq!['r', 'e', 'm', 'o', 'v', 'e', 'V', 'o', 'l', 'u', 'm', 'e', 'N', 'e', 'x', 'u', 's'],
        message_id_vs_text(MessageIdVs::JsonGrpc) == seq!['j', 's', 'o', 'n', 'G', 'r', 'p', 'c'],
        message_id_vs_text(MessageIdVs::GetBlockDevices) == seq!['g', 'e', 't', 'B', 'l', 'o', 'c', 'k', 'D', 'e', 'v', 'i', 'c', 'e', 's'],
        message_id_vs_text(MessageIdVs::CreateWatch) == seq!['c', 'r', 'e', 'a', 't', 'e', 'W', 'a', 't', 'c', 'h'],
        message_id_vs_text(MessageIdVs::GetWatches) == seq!['g', 'e', 't', 'W', 'a', 't', 'c', 'h', 'e', 's'],
        message_id_vs_text(MessageIdVs::DeleteWatch) == seq!['d', 'e', 'l', 'e', 't', 'e', 'W', 'a', 't', 'c', 'h'],
        message_id_vs_text(MessageIdVs::GetSpecs) == seq!['g', 'e', 't', 'S', 'p', 'e', 'c', 's'],
{
}

/// Mayastor configurations: the global mayastor config and the child states config
#[derive(Debug, Clone, Copy, PartialEq, Eq, Structural)]
pub enum Config {
    /// Mayastor global config
    MayastorConfig,
    /// Mayastor child states config
    ChildStatesConfig,
}

impl Default for Config {
    /// `Config::MayastorConfig`.
    fn default() -> (r: Self)
        ensures
            r == Config::MayastorConfig,
    {
        Config::MayastorConfig
    }
}

/// State of the Node
#[derive(Debug, Clone, Copy, PartialEq, Eq, Structural)]
pub enum NodeState {
    /// Node has unexpectedly disappeared
    Unknown,
    /// Node is deemed online if it has not missed the registration keep alive deadline
    Online,
    /// Node is deemed offline if has missed the registration keep alive deadline
    Offline,
}

impl Default for NodeState {
    /// `NodeState::Unknown`.
    fn default() -> (r: Self)
        ensures
            r == NodeState::Unknown,
    {
        NodeState::Unknown
    }
}

/// The text form of a `NodeState`.
pub open spec fn node_state_text(v: NodeState) -> Seq<char> {
    match v {
        NodeState::Unknown => seq!['U', 'n', 'k', 'n', 'o', 'w', 'n'],
        NodeState::Online => seq!['O', 'n', 'l', 'i', 'n', 'e'],
        NodeState::Offline => seq!['O', 'f', 'f', 'l', 'i', 'n', 'e'],
    }
}

impl NodeState {
    /// The text form of the value.
    pub fn to_string(&self) -> (s: String)
        ensures
            s@ == node_state_text(*self),
    {
        proof {
            reveal_strlit("Unknown");
            assert("Unknown"@ =~= seq!['U', 'n', 'k', 'n', 'o', 'w', 'n']);
            reveal_strlit("Online");
            assert("Online"@ =~= seq!['O', 'n', 'l', 'i', 'n', 'e']);
            reveal_strlit("Offline");
            assert("Offline"@ =~= seq!['O', 'f', 'f', 'l', 'i', 'n', 'e']);
        }
        match self {
            NodeState::Unknown => string_of("Unknown"),
            NodeState::Online => string_of("Online"),
            NodeState::Offline => string_of("Offline"),
        }
    }

    /// Parse the text form of a value; `None` where `s` is the text of no value.
    pub fn from_str(s: &str) -> (r: Option<Self>)
        ensures
            r matches Some(v) ==> s@ == node_state_text(v),
            r is None ==> forall|v: NodeState| s@ != #[trigger] node_state_text(v),
    {
        proof {
            reveal_strlit("Unknown");
            assert("Unknown"@ =~= seq!['U', 'n', 'k', 'n', 'o', 'w', 'n']);
            reveal_strlit("Online");
            assert("Online"@ =~= seq!['O', 'n', 'l', 'i', 'n', 'e']);
            reveal_strlit("Offline");
            assert("Offline"@ =~= seq!['O', 'f', 'f', 'l', 'i', 'n', 'e']);
        }
        if str_is(s, "Unknown") {
            Some(NodeState::Unknown)
        } else if str_is(s, "Online") {
            Some(NodeState::Online)
        } else if str_is(s, "Offline") {
            Some(NodeState::Offline)
        } else {
            None
        }
    }
}

/// Distinct values of `NodeState` have distinct text forms, so parsing the text
/// of a value gives that value back.
pub proof fn lemma_node_state_text_injective(a: NodeState, b: NodeState)
    requires
        node_state_text(a) == node_state_text(b),
    ensures
        a == b,
{
    assert(node_state_text(a).len() == node_state_text(b).len());
    assert(node_state_text(a)[0] == node_state_text(b)[0]);
    assert(node_state_text(a)[1] == node_state_text(b)[1]);
    assert(node_state_text(a)[2] == node_state_text(b)[2]);
    assert(node_state_text(a)[3] == node_state_text(b)[3]);
    assert(node_state_text(a)[4] == node_state_text(b)[4]);
    assert(node_state_text(a)[5] == node_state_text(b)[5]);
    assert(node_state_text(a)[6] == node_state_text(b)[6]);
}

/// Parsing the text form of a `NodeState` gives the value back: whatever
/// `from_str` may return on the text of `v`, by its contract, is `Some(v)`.
pub proof fn lemma_node_state_parse_roundtrip(v: NodeState, r: Option<NodeState>)
    requires
        r matches Some(w) ==> node_state_text(v) == node_state_text(w),
        r is None ==> forall|w: NodeState| node_state_text(v) != #[trigger] node_state_text(w),
    ensures
        r == Some(v),
{
    match r {
        Some(w) => lemma_node_state_text_injective(v, w),
        None => assert(node_state_text(v) == node_state_text(v)),
    }
}

/// Each value of `NodeState` is written as the name it is declared under.
pub proof fn lemma_node_state_declared_names()
    ensures
        node_state_text(NodeState::Unknown) == seq!['U', 'n', 'k', 'n', 'o', 'w', 'n'],
        node_state_text(NodeState::Online) == seq!['O', 'n', 'l', 'i', 'n', 'e'],
        node_state_text(NodeState::Offline) == seq!['O', 'f', 'f', 'l', 'i', 'n', 'e'],
{
}

/// Indicates what protocol the bdev is shared as
#[derive(Debug, Clone, Copy, PartialEq, Eq, Structural)]
pub enum Protocol {
    /// not shared by any of the variants
    Off,
    /// shared as NVMe-oF TCP
    Nvmf,
    /// shared as iSCSI
    Iscsi,
    /// shared as NBD
    Nbd,
}

impl Default for Protocol {
    /// `Protocol::Off`.
    fn default() -> (r: Self)
        ensures
            r == Protocol::Off,
    {
        Protocol::Off
    }
}

/// The text form of a `Protocol` (camel case).
pub open spec fn protocol_text(v: Protocol) -> Seq<char> {
    match v {
        Protocol::Off => seq!['o', 'f', 'f'],
        Protocol::Nvmf => seq!['n', 'v', 'm', 'f'],
        Protocol::Iscsi => seq!['i', 's', 'c', 's', 'i'],
        Protocol::Nbd => seq!['n', 'b', 'd'],
    }
}

impl Protocol {
    /// The text form of the value.
    pub fn to_string(&self) -> (s: String)
        ensures
            s@ == protocol_text(*self),
    {
        proof {
            reveal_strlit("off");
            assert("off"@ =~= seq!['o', 'f', 'f']);
            reveal_strlit("nvmf");
            assert("nvmf"@ =~= seq!['n', 'v', 'm', 'f']);
            reveal_strlit("iscsi");
            assert("iscsi"@ =~= seq!['i', 's', 'c', 's', 'i']);
            reveal_strlit("nbd");
            assert("nbd"@ =~= seq!['n', 'b', 'd']);
        }
        match self {
            Protocol::Off => string_of("off"),
            Protocol::Nvmf => string_of("nvmf"),
            Protocol::Iscsi => string_of("iscsi"),
            Protocol::Nbd => string_of("nbd"),
        }
    }

    /// Parse the text form of a value; `None` where `s` is the text of no value.
    pub fn from_str(s: &str) -> (r: Option<Self>)
        ensures
            r matches Some(v) ==> s@ == protocol_text(v),
            r is None ==> forall|v: Protocol| s@ != #[trigger] protocol_text(v),
    {
        proof {
            reveal_strlit("off");
            assert("off"@ =~= seq!['o', 'f', 'f']);
            reveal_strlit("nvmf");
            assert("nvmf"@ =~= seq!['n', 'v', 'm', 'f']);
            reveal_strlit("iscsi");
            assert("iscsi"@ =~= seq!['i', 's', 'c', 's', 'i']);
            reveal_strlit("nbd");
            assert("nbd"@ =~= seq!['n', 'b', 'd']);
        }
        if str_is(s, "off") {
            Some(Protocol::Off)
        } else if str_is(s, "nvmf") {
            Some(Protocol::Nvmf)
        } else if str_is(s, "iscsi") {
            Some(Protocol::Iscsi)
        } else if str_is(s, "nbd") {
            Some(Protocol::Nbd)
        } else {
            None
        }
    }
}

/// Distinct values of `Protocol` have distinct text forms, so parsing the text
/// of a value gives that value back.
pub proof fn lemma_protocol_text_injective(a: Protocol, b: Protocol)
    requires
        protocol_text(a) == protocol_text(b),
    ensures
        a == b,
{
    assert(protocol_text(a).len() == protocol_text(b).len());
    assert(protocol_text(a)[0] == protocol_text(b)[0]);
    assert(protocol_text(a)[1] == protocol_text(b)[1]);
    assert(protocol_text(a)[2] == protocol_text(b)[2]);
    assert(protocol_text(a)[3] == protocol_text(b)[3]);
    assert(protocol_text(a)[4] == protocol_text(b)[4]);
}

/// Parsing the text form of a `Protocol` gives the value back: whatever
/// `from_str` may return on the text of `v`, by its contract, is `Some(v)`.
pub proof fn lemma_protocol_parse_roundtrip(v: Protocol, r: Option<Protocol>)
    requires
        r matches Some(w) ==> protocol_text(v) == protocol_text(w),
        r is None ==> forall|w: Protocol| protocol_text(v) != #[trigger] protocol_text(w),
    ensures
        r == Some(v),
{
    match r {
        Some(w) => lemma_protocol_text_injective(v, w),
        None => assert(protocol_text(v) == protocol_text(v)),
    }
}

/// Each value of `Protocol` is written as the name it is declared under (camel case).
pub proof fn lemma_protocol_declared_names()
    ensures
        protocol_text(Protocol::Off) == seq!['o', 'f', 'f'],
        protocol_text(Protocol::Nvmf) == seq!['n', 'v', 'm', 'f'],
        protocol_text(Protocol::Iscsi) == seq!['i', 's', 'c', 's', 'i'],
        protocol_text(Protocol::Nbd) == seq!['n', 'b', 'd'],
{
}

/// The `Protocol` that the wire code `src` stands for.
pub open spec fn protocol_from_code(src: i32) -> Protocol {
    if src == 0 {
        Protocol::Off
    } else if src == 1 {
        Protocol::Nvmf
    } else if src == 2 {
        Protocol::Iscsi
    } else {
        Protocol::Off
    }
}

impl From<i32> for Protocol {
    fn from(src: i32) -> (r: Self) {
        if src == 0 {
            Protocol::Off
        } else if src == 1 {
            Protocol::Nvmf
        } else if src == 2 {
            Protocol::Iscsi
        } else {
            Protocol::Off
        }
    }
}

impl FromSpecImpl<i32> for Protocol {
    open spec fn obeys_from_spec() -> bool {
        true
    }

    open spec fn from_spec(v: i32) -> Self {
        protocol_from_code(v)
    }
}

/// The protocol used to share the nexus.
#[derive(Debug, Clone, Copy, PartialEq, Eq, Structural)]
pub enum NexusShareProtocol {
    /// shared as NVMe-oF TCP
    Nvmf,
    /// shared as iSCSI
    Iscsi,
}

impl Default for NexusShareProtocol {
    /// `NexusShareProtocol::Nvmf`.
    fn default() -> (r: Self)
        ensures
            r == NexusShareProtocol::Nvmf,
    {
        NexusShareProtocol::Nvmf
    }
}

/// The text form of a `NexusShareProtocol` (camel case).
pub open spec fn nexus_share_protocol_text(v: NexusShareProtocol) -> Seq<char> {
    match v {
        NexusShareProtocol::Nvmf => seq!['n', 'v', 'm', 'f'],
        NexusShareProtocol::Iscsi => seq!['i', 's', 'c', 's', 'i'],
    }
}

impl NexusShareProtocol {
    /// The text form of the value.
    pub fn to_string(&self) -> (s: String)
        ensures
            s@ == nexus_share_protocol_text(*self),
    {
        proof {
            reveal_strlit("nvmf");
            assert("nvmf"@ =~= seq!['n', 'v', 'm', 'f']);
            reveal_strlit("iscsi");
            assert("iscsi"@ =~= seq!['i', 's', 'c', 's', 'i']);
        }
        match self {
            NexusShareProtocol::Nvmf => string_of("nvmf"),
            NexusShareProtocol::Iscsi => string_of("iscsi"),
        }
    }

    /// Parse the text form of a value; `None` where `s` is the text of no value.
    pub fn from_str(s: &str) -> (r: Option<Self>)
        ensures
            r matches Some(v) ==> s@ == nexus_share_protocol_text(v),
            r is None ==> forall|v: NexusShareProtocol| s@ != #[trigger] nexus_share_protocol_text(v),
    {
        proof {
            reveal_strlit("nvmf");
            assert("nvmf"@ =~= seq!['n', 'v', 'm', 'f']);
            reveal_strlit("iscsi");
            assert("iscsi"@ =~= seq!['i', 's', 'c', 's', 'i']);
        }
        if str_is(s, "nvmf") {
            Some(NexusShareProtocol::Nvmf)
        } else if str_is(s, "iscsi") {
            Some(NexusShareProtocol::Iscsi)
        } else {
            None
        }
    }
}

/// Distinct values of `NexusShareProtocol` have distinct text forms, so parsing the text
/// of a value gives that value back.
pub proof fn lemma_nexus_share_protocol_text_injective(a: NexusShareProtocol, b: NexusShareProtocol)
    requires
        nexus_share_protocol_text(a) == nexus_share_protocol_text(b),
    ensures
        a == b,
{
    assert(nexus_share_protocol_text(a).len() == nexus_share_protocol_text(b).len());
    assert(nexus_share_protocol_text(a)[0] == nexus_share_protocol_text(b)[0]);
    assert(nexus_share_protocol_text(a)[1] == nexus_share_protocol_text(b)[1]);
    assert(nexus_share_protocol_text(a)[2] == nexus_share_protocol_text(b)[2]);
    assert(nexus_share_protocol_text(a)[3] == nexus_share_protocol_text(b)[3]);
    assert(nexus_share_protocol_text(a)[4] == nexus_share_protocol_text(b)[4]);
}

/// Parsing the text form of a `NexusShareProtocol` gives the value back: whatever
/// `from_str` may return on the text of `v`, by its contract, is `Some(v)`.
pub proof fn lemma_nexus_share_protocol_parse_roundtrip(v: NexusShareProtocol, r: Option<NexusShareProtocol>)
    requires
        r matches Some(w) ==> nexus_share_protocol_text(v) == nexus_share_protocol_text(w),
        r is None ==> forall|w: NexusShareProtocol| nexus_share_protocol_text(v) != #[trigger] nexus_share_protocol_text(w),
    ensures
        r == Some(v),
{
    match r {
        Some(w) => lemma_nexus_share_protocol_text_injective(v, w),
        None => assert(nexus_share_protocol_text(v) == nexus_share_protocol_text(v)),
    }
}

/// Each value of `NexusShareProtocol` is written as the name it is declared under (camel case).
pub proof fn lemma_nexus_share_protocol_declared_names()
    ensures
        nexus_share_protocol_text(NexusShareProtocol::Nvmf) == seq!['n', 'v', 'm', 'f'],
        nexus_share_protocol_text(NexusShareProtocol::Iscsi) == seq!['i', 's', 'c', 's', 'i'],
{
}

/// The protocol used to share the replica.
#[derive(Debug, Clone, Copy, PartialEq, Eq, Structural)]
pub enum ReplicaShareProtocol {
    /// shared as NVMe-oF TCP
    Nvmf,
}

impl Default for ReplicaShareProtocol {
    /// `ReplicaShareProtocol::Nvmf`.
    fn default() -> (r: Self)
        ensures
            r == ReplicaShareProtocol::Nvmf,
    {
        ReplicaShareProtocol::Nvmf
    }
}

/// The text form of a `ReplicaShareProtocol` (camel case).
pub open spec fn replica_share_protocol_text(v: ReplicaShareProtocol) -> Seq<char> {
    match v {
        ReplicaShareProtocol::Nvmf => seq!['n', 'v', 'm', 'f'],
    }
}

impl ReplicaShareProtocol {
    /// The text form of the value.
    pub fn to_string(&self) -> (s: String)
        ensures
            s@ == replica_share_protocol_text(*self),
    {
        proof {
            reveal_strlit("nvmf");
            assert("nvmf"@ =~= seq!['n', 'v', 'm', 'f']);
        }
        match self {
            ReplicaShareProtocol::Nvmf => string_of("nvmf"),
        }
    }

    /// Parse the text form of a value; `None` where `s` is the text of no value.
    pub fn from_str(s: &str) -> (r: Option<Self>)
        ensures
            r matches Some(v) ==> s@ == replica_share_protocol_text(v),
            r is None ==> forall|v: ReplicaShareProtocol| s@ != #[trigger] replica_share_protocol_text(v),
    {
        proof {
            reveal_strlit("nvmf");
            assert("nvmf"@ =~= seq!['n', 'v', 'm', 'f']);
        }
        if str_is(s, "nvmf") {
            Some(ReplicaShareProtocol::Nvmf)
        } else {
            None
        }
    }
}

/// Distinct values of `ReplicaShareProtocol` have distinct text forms, so parsing the text
/// of a value gives that value back.
pub proof fn lemma_replica_share_protocol_text_injective(a: ReplicaShareProtocol, b: ReplicaShareProtocol)
    requires
        replica_share_protocol_text(a) == replica_share_protocol_text(b),
    ensures
        a == b,
{
    assert(replica_share_protocol_text(a).len() == replica_share_protocol_text(b).len());
    assert(replica_share_protocol_text(a)[0] == replica_share_protocol_text(b)[0]);
    assert(replica_share_protocol_text(a)[1] == replica_share_protocol_text(b)[1]);
    assert(replica_share_protocol_text(a)[2] == replica_share_protocol_text(b)[2]);
    assert(replica_share_protocol_text(a)[3] == replica_share_protocol_text(b)[3]);
}

/// Parsing the text form of a `ReplicaShareProtocol` gives the value back: whatever
/// `from_str` may return on the text of `v`, by its contract, is `Some(v)`.
pub proof fn lemma_replica_share_protocol_parse_roundtrip(v: ReplicaShareProtocol, r: Option<ReplicaShareProtocol>)
    requires
        r matches Some(w) ==> replica_share_protocol_text(v) == replica_share_protocol_text(w),
        r is None ==> forall|w: ReplicaShareProtocol| replica_share_protocol_text(v) != #[trigger] replica_share_protocol_text(w),
    ensures
        r == Some(v),
{
    match r {
        Some(w) => lemma_replica_share_protocol_text_injective(v, w),
        None => assert(replica_share_protocol_text(v) == replica_share_protocol_text(v)),
    }
}

/// Each value of `ReplicaShareProtocol` is written as the name it is declared under (camel case).
pub proof fn lemma_replica_share_protocol_declared_names()
    ensures
        replica_share_protocol_text(ReplicaShareProtocol::Nvmf) == seq!['n', 'v', 'm', 'f'],
{
}

/// State of the Replica
#[derive(Debug, Clone, Copy, PartialEq, Eq, Structural)]
pub enum ReplicaState {
    /// unknown state
    Unknown,
    /// the replica is in normal working order
    Online,
    /// the replica has experienced a failure but can still function
    Degraded,
    /// the replica is completely inaccessible
    Faulted,
}

impl Default for ReplicaState {
    /// `ReplicaState::Unknown`.
    fn default() -> (r: Self)
        ensures
            r == ReplicaState::Unknown,
    {
        ReplicaState::Unknown
    }
}

/// The text form of a `ReplicaState` (camel case).
pub open spec fn replica_state_text(v: ReplicaState) -> Seq<char> {
    match v {
        ReplicaState::Unknown => seq!['u', 'n', 'k', 'n', 'o', 'w', 'n'],
        ReplicaState::Online => seq!['o', 'n', 'l', 'i', 'n', 'e'],
        ReplicaState::Degraded => seq!['d', 'e', 'g', 'r', 'a', 'd', 'e', 'd'],
        ReplicaState::Faulted => seq!['f', 'a', 'u', 'l', 't', 'e', 'd'],
    }
}

impl ReplicaState {
    /// The text form of the value.
    pub fn to_string(&self) -> (s: String)
        ensures
            s@ == replica_state_text(*self),
    {
        proof {
            reveal_strlit("unknown");
            assert("unknown"@ =~= seq!['u', 'n', 'k', 'n', 'o', 'w', 'n']);
            reveal_strlit("online");
            assert("online"@ =~= seq!['o', 'n', 'l', 'i', 'n', 'e']);
            reveal_strlit("degraded");
            assert("degraded"@ =~= seq!['d', 'e', 'g', 'r', 'a', 'd', 'e', 'd']);
            reveal_strlit("faulted");
            assert("faulted"@ =~= seq!['f', 'a', 'u', 'l', 't', 'e', 'd']);
        }
        match self {
            ReplicaState::Unknown => string_of("unknown"),
            ReplicaState::Online => string_of("online"),
            ReplicaState::Degraded => string_of("degraded"),
            ReplicaState::Faulted => string_of("faulted"),
        }
    }

    /// Parse the text form of a value; `None` where `s` is the text of no value.
    pub fn from_str(s: &str) -> (r: Option<Self>)
        ensures
            r matches Some(v) ==> s@ == replica_state_text(v),
            r is None ==> forall|v: ReplicaState| s@ != #[trigger] replica_state_text(v),
    {
        proof {
            reveal_strlit("unknown");
            assert("unknown"@ =~= seq!['u', 'n', 'k', 'n', 'o', 'w', 'n']);
            reveal_strlit("online");
            assert("online"@ =~= seq!['o', 'n', 'l', 'i', 'n', 'e']);
            reveal_strlit("degraded");
            assert("degraded"@ =~= seq!['d', 'e', 'g', 'r', 'a', 'd', 'e', 'd']);
            reveal_strlit("faulted");
            assert("faulted"@ =~= seq!['f', 'a', 'u', 'l', 't', 'e', 'd']);
        }
        if str_is(s, "unknown") {
            Some(ReplicaState::Unknown)
        } else if str_is(s, "online") {
            Some(ReplicaState::Online)
        } else if str_is(s, "degraded") {
            Some(ReplicaState::Degraded)
        } else if str_is(s, "faulted") {
            Some(ReplicaState::Faulted)
        } else {
            None
        }
    }
}

/// Distinct values of `ReplicaState` have distinct text forms, so parsing the text
/// of a value gives that value back.
pub proof fn lemma_replica_state_text_injective(a: ReplicaState, b: ReplicaState)
    requires
        replica_state_text(a) == replica_state_text(b),
    ensures
        a == b,
{
    assert(replica_state_text(a).len() == replica_state_text(b).len());
    assert(replica_state_text(a)[0] == replica_state_text(b)[0]);
    assert(replica_state_text(a)[1] == replica_state_text(b)[1]);
    assert(replica_state_text(a)[2] == replica_state_text(b)[2]);
    assert(replica_state_text(a)[3] == replica_state_text(b)[3]);
    assert(replica_state_text(a)[4] == replica_state_text(b)[4]);
    assert(replica_state_text(a)[5] == replica_state_text(b)[5]);
    assert(replica_state_text(a)[6] == replica_state_text(b)[6]);
    assert(replica_state_text(a)[7] == replica_state_text(b)[7]);
}

/// Parsing the text form of a `ReplicaState` gives the value back: whatever
/// `from_str` may return on the text of `v`, by its contract, is `Some(v)`.
pub proof fn lemma_replica_state_parse_roundtrip(v: ReplicaState, r: Option<ReplicaState>)
    requires
        r matches Some(w) ==> replica_state_text(v) == replica_state_text(w),
        r is None ==> forall|w: ReplicaState| replica_state_text(v) != #[trigger] replica_state_text(w),
    ensures
        r == Some(v),
{
    match r {
        Some(w) => lemma_replica_state_text_injective(v, w),
        None => assert(replica_state_text(v) == replica_state_text(v)),
    }
}

/// Each value of `ReplicaState` is written as the name it is declared under (camel case).
pub proof fn lemma_replica_state_declared_names()
    ensures
        replica_state_text(ReplicaState::Unknown) == seq!['u', 'n', 'k', 'n', 'o', 'w', 'n'],
        replica_state_text(ReplicaState::Online) == seq!['o', 'n', 'l', 'i', 'n', 'e'],
        replica_state_text(ReplicaState::Degraded) == seq!['d', 'e', 'g', 'r', 'a', 'd', 'e', 'd'],
        replica_state_text(ReplicaState::Faulted) == seq!['f', 'a', 'u', 'l', 't', 'e', 'd'],
{
}

/// The `ReplicaState` that the wire code `src` stands for.
pub open spec fn replica_state_from_code(src: i32) -> ReplicaState {
    if src == 1 {
        ReplicaState::Online
    } else if src == 2 {
        ReplicaState::Degraded
    } else if src == 3 {
        ReplicaState::Faulted
    } else {
        ReplicaState::Unknown
    }
}

impl From<i32> for ReplicaState {
    fn from(src: i32) -> (r: Self) {
        if src == 1 {
            ReplicaState::Online
        } else if src == 2 {
            ReplicaState::Degraded
        } else if src == 3 {
            ReplicaState::Faulted
        } else {
            ReplicaState::Unknown
        }
    }
}

impl FromSpecImpl<i32> for ReplicaState {
    open spec fn obeys_from_spec() -> bool {
        true
    }

    open spec fn from_spec(v: i32) -> Self {
        replica_state_from_code(v)
    }
}

/// Child State information
#[derive(Debug, Clone, Copy, PartialEq, Eq, Structural)]
pub enum ChildState {
    /// Default Unknown state
    Unknown,
    /// healthy and contains the latest bits
    Online,
    /// rebuild is in progress (or other recoverable error)
    Degraded,
    /// unrecoverable error (control plane must act)
    Faulted,
}

impl Default for ChildState {
    /// `ChildState::Unknown`.
    fn default() -> (r: Self)
        ensures
            r == ChildState::Unknown,
    {
        ChildState::Unknown
    }
}

/// The `ChildState` that the wire code `src` stands for.
pub open spec fn child_state_from_code(src: i32) -> ChildState {
    if src == 1 {
        ChildState::Online
    } else if src == 2 {
        ChildState::Degraded
    } else if src == 3 {
        ChildState::Faulted
    } else {
        ChildState::Unknown
    }
}

impl From<i32> for ChildState {
    fn from(src: i32) -> (r: Self) {
        if src == 1 {
            ChildState::Online
        } else if src == 2 {
            ChildState::Degraded
        } else if src == 3 {
            ChildState::Faulted
        } else {
            ChildState::Unknown
        }
    }
}

impl FromSpecImpl<i32> for ChildState {
    open spec fn obeys_from_spec() -> bool {
        true
    }

    open spec fn from_spec(v: i32) -> Self {
        child_state_from_code(v)
    }
}

/// Nexus State information
#[derive(Debug, Clone, Copy, PartialEq, Eq, Structural)]
pub enum NexusState {
    /// Default Unknown state
    Unknown,
    /// healthy and working
    Online,
    /// not healthy but is able to serve IO (i.e. rebuild is in progress)
    Degraded,
    /// broken and unable to serve IO
    Faulted,
}

impl Default for NexusState {
    /// `NexusState::Unknown`.
    fn default() -> (r: Self)
        ensures
            r == NexusState::Unknown,
    {
        NexusState::Unknown
    }
}

/// The text form of a `NexusState`.
pub open spec fn nexus_state_text(v: NexusState) -> Seq<char> {
    match v {
        NexusState::Unknown => seq!['U', 'n', 'k', 'n', 'o', 'w', 'n'],
        NexusState::Online => seq!['O', 'n', 'l', 'i', 'n', 'e'],
        NexusState::Degraded => seq!['D', 'e', 'g', 'r', 'a', 'd', 'e', 'd'],
        NexusState::Faulted => seq!['F', 'a', 'u', 'l', 't', 'e', 'd'],
    }
}

impl NexusState {
    /// The text form of the value.
    pub fn to_string(&self) -> (s: String)
        ensures
            s@ == nexus_state_text(*self),
    {
        proof {
            reveal_strlit("Unknown");
            assert("Unknown"@ =~= seq!['U', 'n', 'k', 'n', 'o', 'w', 'n']);
            reveal_strlit("Online");
            assert("Online"@ =~= seq!['O', 'n', 'l', 'i', 'n', 'e']);
            reveal_strlit("Degraded");
            assert("Degraded"@ =~= seq!['D', 'e', 'g', 'r', 'a', 'd', 'e', 'd']);
            reveal_strlit("Faulted");
            assert("Faulted"@ =~= seq!['F', 'a', 'u', 'l', 't', 'e', 'd']);
        }
        match self {
            NexusState::Unknown => string_of("Unknown"),
            NexusState::Online => string_of("Online"),
            NexusState::Degraded => string_of("Degraded"),
            NexusState::Faulted => string_of("Faulted"),
        }
    }

    /// Parse the text form of a value; `None` where `s` is the text of no value.
    pub fn from_str(s: &str) -> (r: Option<Self>)
        ensures
            r matches Some(v) ==> s@ == nexus_state_text(v),
            r is None ==> forall|v: NexusState| s@ != #[trigger] nexus_state_text(v),
    {
        proof {
            reveal_strlit("Unknown");
            assert("Unknown"@ =~= seq!['U', 'n', 'k', 'n', 'o', 'w', 'n']);
            reveal_strlit("Online");
            assert("Online"@ =~= seq!['O', 'n', 'l', 'i', 'n', 'e']);
            reveal_strlit("Degraded");
            assert("Degraded"@ =~= seq!['D', 'e', 'g', 'r', 'a', 'd', 'e', 'd']);
            reveal_strlit("Faulted");
            assert("Faulted"@ =~= seq!['F', 'a', 'u', 'l', 't', 'e', 'd']);
        }
        if str_is(s, "Unknown") {
            Some(NexusState::Unknown)
        } else if str_is(s, "Online") {
            Some(NexusState::Online)
        } else if str_is(s, "Degraded") {
            Some(NexusState::Degraded)
        } else if str_is(s, "Faulted") {
            Some(NexusState::Faulted)
        } else {
            None
        }
    }
}

/// Distinct values of `NexusState` have distinct text forms, so parsing the text
/// of a value gives that value back.
pub proof fn lemma_nexus_state_text_injective(a: NexusState, b: NexusState)
    requires
        nexus_state_text(a) == nexus_state_text(b),
    ensures
        a == b,
{
    assert(nexus_state_text(a).len() == nexus_state_text(b).len());
    assert(nexus_state_text(a)[0] == nexus_state_text(b)[0]);
    assert(nexus_state_text(a)[1] == nexus_state_text(b)[1]);
    assert(nexus_state_text(a)[2] == nexus_state_text(b)[2]);
    assert(nexus_state_text(a)[3] == nexus_state_text(b)[3]);
    assert(nexus_state_text(a)[4] == nexus_state_text(b)[4]);
    assert(nexus_state_text(a)[5] == nexus_state_text(b)[5]);
    assert(nexus_state_text(a)[6] == nexus_state_text(b)[6]);
    assert(nexus_state_text(a)[7] == nexus_state_text(b)[7]);
}

/// Parsing the text form of a `NexusState` gives the value back: whatever
/// `from_str` may return on the text of `v`, by its contract, is `Some(v)`.
pub proof fn lemma_nexus_state_parse_roundtrip(v: NexusState, r: Option<NexusState>)
    requires
        r matches Some(w) ==> nexus_state_text(v) == nexus_state_text(w),
        r is None ==> forall|w: NexusState| nexus_state_text(v) != #[trigger] nexus_state_text(w),
    ensures
        r == Some(v),
{
    match r {
        Some(w) => lemma_nexus_state_text_injective(v, w),
        None => assert(nexus_state_text(v) == nexus_state_text(v)),
    }
}

/// Each value of `NexusState` is written as the name it is declared under.
pub proof fn lemma_nexus_state_declared_names()
    ensures
        nexus_state_text(NexusState::Unknown) == seq!['U', 'n', 'k', 'n', 'o', 'w', 'n'],
        nexus_state_text(NexusState::Online) == seq!['O', 'n', 'l', 'i', 'n', 'e'],
        nexus_state_text(NexusState::Degraded) == seq!['D', 'e', 'g', 'r', 'a', 'd', 'e', 'd'],
        nexus_state_text(NexusState::Faulted) == seq!['F', 'a', 'u', 'l', 't', 'e', 'd'],
{
}

/// The `NexusState` that the wire code `src` stands for.
pub open spec fn nexus_state_from_code(src: i32) -> NexusState {
    if src == 1 {
        NexusState::Online
    } else if src == 2 {
        NexusState::Degraded
    } else if src == 3 {
        NexusState::Faulted
    } else {
        NexusState::Unknown
    }
}

impl From<i32> for NexusState {
    fn from(src: i32) -> (r: Self) {
        if src == 1 {
            NexusState::Online
        } else if src == 2 {
            NexusState::Degraded
        } else if src == 3 {
            NexusState::Faulted
        } else {
            NexusState::Unknown
        }
    }
}

impl FromSpecImpl<i32> for NexusState {
    open spec fn obeys_from_spec() -> bool {
        true
    }

    open spec fn from_spec(v: i32) -> Self {
        nexus_state_from_code(v)
    }
}

/// The different types of watches
#[derive(Debug, Clone, Copy, PartialEq, Eq, Structural)]
pub enum WatchType {
    /// Watch for changes on the desired state
    Desired,
    /// Watch for changes on the actual state
    Actual,
    /// Watch for both `Desired` and `Actual` changes
    All,
}

impl Default for WatchType {
    /// `WatchType::All`.
    fn default() -> (r: Self)
        ensures
            r == WatchType::All,
    {
        WatchType::All
    }
}

/// The wire code of a replica state.
pub open spec fn replica_state_code(s: ReplicaState) -> i32 {
    match s {
        ReplicaState::Unknown => 0,
        ReplicaState::Online => 1,
        ReplicaState::Degraded => 2,
        ReplicaState::Faulted => 3,
    }
}

/// The wire code of a child state.
pub open spec fn child_state_code(s: ChildState) -> i32 {
    match s {
        ChildState::Unknown => 0,
        ChildState::Online => 1,
        ChildState::Degraded => 2,
        ChildState::Faulted => 3,
    }
}

/// The wire code of a nexus state.
pub open spec fn nexus_state_code(s: NexusState) -> i32 {
    match s {
        NexusState::Unknown => 0,
        NexusState::Online => 1,
        NexusState::Degraded => 2,
        NexusState::Faulted => 3,
    }
}

/// The wire code of a share protocol.
pub open spec fn protocol_code(p: Protocol) -> i32 {
    match p {
        Protocol::Off => 0,
        Protocol::Nvmf => 1,
        Protocol::Iscsi => 2,
        Protocol::Nbd => 3,
    }
}

impl ReplicaState {
    /// The wire code of the replica state.
    pub fn code(&self) -> (c: i32)
        ensures
            c == replica_state_code(*self),
    {
        match self {
            ReplicaState::Unknown => 0,
            ReplicaState::Online => 1,
            ReplicaState::Degraded => 2,
            ReplicaState::Faulted => 3,
        }
    }
}

impl ChildState {
    /// The wire code of the child state.
    pub fn code(&self) -> (c: i32)
        ensures
            c == child_state_code(*self),
    {
        match self {
            ChildState::Unknown => 0,
            ChildState::Online => 1,
            ChildState::Degraded => 2,
            ChildState::Faulted => 3,
        }
    }
}

impl NexusState {
    /// The wire code of the nexus state.
    pub fn code(&self) -> (c: i32)
        ensures
            c == nexus_state_code(*self),
    {
        match self {
            NexusState::Unknown => 0,
            NexusState::Online => 1,
            NexusState::Degraded => 2,
            NexusState::Faulted => 3,
        }
    }
}

impl Protocol {
    /// The wire code of the share protocol.
    pub fn code(&self) -> (c: i32)
        ensures
            c == protocol_code(*self),
    {
        match self {
            Protocol::Off => 0,
            Protocol::Nvmf => 1,
            Protocol::Iscsi => 2,
            Protocol::Nbd => 3,
        }
    }
}

/// Reading back the wire code of a replica, child or nexus state gives the
/// state; codes outside 1..=3 read as unknown.
pub proof fn lemma_state_codes_roundtrip(r: ReplicaState, c: ChildState, n: NexusState, src: i32)
    ensures
        replica_state_from_code(replica_state_code(r)) == r,
        child_state_from_code(child_state_code(c)) == c,
        nexus_state_from_code(nexus_state_code(n)) == n,
        !(1 <= src <= 3) ==> replica_state_from_code(src) == ReplicaState::Unknown
            && child_state_from_code(src) == ChildState::Unknown
            && nexus_state_from_code(src) == NexusState::Unknown,
{
}

/// Reading back the wire code of a protocol gives the protocol, except for
/// NBD, whose code reads as "off"; every unknown code reads as "off".
pub proof fn lemma_protocol_code_roundtrip(p: Protocol, src: i32)
    ensures
        p != Protocol::Nbd ==> protocol_from_code(protocol_code(p)) == p,
        protocol_from_code(protocol_code(Protocol::Nbd)) == Protocol::Off,
        !(0 <= src <= 2) ==> protocol_from_code(src) == Protocol::Off,
{
}

/// The wire code of a nexus share protocol.
pub open spec fn nexus_share_protocol_code(p: NexusShareProtocol) -> i32 {
    match p {
        NexusShareProtocol::Nvmf => 1,
        NexusShareProtocol::Iscsi => 2,
    }
}

/// The wire code of a replica share protocol.
pub open spec fn replica_share_protocol_code(p: ReplicaShareProtocol) -> i32 {
    match p {
        ReplicaShareProtocol::Nvmf => 1,
    }
}

impl NexusShareProtocol {
    /// The wire code of the nexus share protocol.
    pub fn code(&self) -> (c: i32)
        ensures
            c == nexus_share_protocol_code(*self),
    {
        match self {
            NexusShareProtocol::Nvmf => 1,
            NexusShareProtocol::Iscsi => 2,
        }
    }
}

impl ReplicaShareProtocol {
    /// The wire code of the replica share protocol.
    pub fn code(&self) -> (c: i32)
        ensures
            c == replica_share_protocol_code(*self),
    {
        match self {
            ReplicaShareProtocol::Nvmf => 1,
        }
    }
}

impl NexusShareProtocol {
    /// The nexus share protocol of a wire code; only 1 (NVMe-oF) and 2
    /// (iSCSI) are valid codes.
    pub fn from(src: i32) -> (r: Self)
        requires
            src == 1 || src == 2,
        ensures
            nexus_share_protocol_code(r) == src,
    {
        if src == 1 {
            NexusShareProtocol::Nvmf
        } else {
            NexusShareProtocol::Iscsi
        }
    }
}

impl ReplicaShareProtocol {
    /// The replica share protocol of a wire code; only 1 (NVMe-oF) is valid.
    pub fn from(src: i32) -> (r: Self)
        requires
            src == 1,
        ensures
            r == ReplicaShareProtocol::Nvmf,
            replica_share_protocol_code(r) == src,
    {
        ReplicaShareProtocol::Nvmf
    }
}

/// The general share protocol that a replica share protocol stands for.
pub open spec fn protocol_of_replica_share(p: ReplicaShareProtocol) -> Protocol {
    match p {
        ReplicaShareProtocol::Nvmf => Protocol::Nvmf,
    }
}

/// The general share protocol that a nexus share protocol stands for.
pub open spec fn protocol_of_nexus_share(p: NexusShareProtocol) -> Protocol {
    match p {
        NexusShareProtocol::Nvmf => Protocol::Nvmf,
        NexusShareProtocol::Iscsi => Protocol::Iscsi,
    }
}

impl From<ReplicaShareProtocol> for Protocol {
    fn from(src: ReplicaShareProtocol) -> (r: Self) {
        match src {
            ReplicaShareProtocol::Nvmf => Protocol::Nvmf,
        }
    }
}

impl FromSpecImpl<ReplicaShareProtocol> for Protocol {
    open spec fn obeys_from_spec() -> bool {
        true
    }

    open spec fn from_spec(v: ReplicaShareProtocol) -> Self {
        protocol_of_replica_share(v)
    }
}

impl From<NexusShareProtocol> for Protocol {
    fn from(src: NexusShareProtocol) -> (r: Self) {
        match src {
            NexusShareProtocol::Nvmf => Protocol::Nvmf,
            NexusShareProtocol::Iscsi => Protocol::Iscsi,
        }
    }
}

impl FromSpecImpl<NexusShareProtocol> for Protocol {
    open spec fn obeys_from_spec() -> bool {
        true
    }

    open spec fn from_spec(v: NexusShareProtocol) -> Self {
        protocol_of_nexus_share(v)
    }
}

/// A share protocol names the same wire code as the general protocol that it
/// stands for.
pub proof fn lemma_share_protocols_keep_codes(n: NexusShareProtocol, r: ReplicaShareProtocol)
    ensures
        protocol_code(protocol_of_nexus_share(n)) == nexus_share_protocol_code(n),
        protocol_code(protocol_of_replica_share(r)) == replica_share_protocol_code(r),
{
}

/// Filter Objects based on one of the following criteria
#[derive(Debug, Clone, PartialEq, Eq)]
pub enum Filter {
    /// All objects (no filter)
    All,
    /// Filter by Node id
    Node(NodeId),
    /// Filter by Pool id
    Pool(PoolId),
    /// Filter by Node and Pool id
    NodePool(NodeId, PoolId),
    /// Filter by Node and Replica id
    NodeReplica(NodeId, ReplicaId),
    /// Filter by Node, Pool and Replica id
    NodePoolReplica(NodeId, PoolId, ReplicaId),
    /// Filter by Pool and Replica id
    PoolReplica(PoolId, ReplicaId),
    /// Filter by Replica id
    Replica(ReplicaId),
    /// Filter by Node and Nexus
    NodeNexus(NodeId, NexusId),
    /// Filter by Nexus
    Nexus(NexusId),
    /// Filter by Node and Volume
    NodeVolume(NodeId, VolumeId),
    /// Filter by Volume
    Volume(VolumeId),
}

impl Default for Filter {
    /// All objects.
    fn default() -> (r: Self)
        ensures
            r == Filter::All,
    {
        Filter::All
    }
}

/// The text form of a filter: the name of its criterion ("None" for no
/// filter), without the ids it filters by.
pub open spec fn filter_text(f: Filter) -> Seq<char> {
    match f {
        Filter::All => seq!['N', 'o', 'n', 'e'],
        Filter::Node(_) => seq!['N', 'o', 'd', 'e'],
        Filter::Pool(_) => seq!['P', 'o', 'o', 'l'],
        Filter::NodePool(_, _) => seq!['N', 'o', 'd', 'e', 'P', 'o', 'o', 'l'],
        Filter::NodeReplica(_, _) => seq!['N', 'o', 'd', 'e', 'R', 'e', 'p', 'l', 'i', 'c', 'a'],
        Filter::NodePoolReplica(_, _, _) => seq!['N', 'o', 'd', 'e', 'P', 'o', 'o', 'l', 'R', 'e', 'p', 'l', 'i', 'c', 'a'],
        Filter::PoolReplica(_, _) => seq!['P', 'o', 'o', 'l', 'R', 'e', 'p', 'l', 'i', 'c', 'a'],
        Filter::Replica(_) => seq!['R', 'e', 'p', 'l', 'i', 'c', 'a'],
        Filter::NodeNexus(_, _) => seq!['N', 'o', 'd', 'e', 'N', 'e', 'x', 'u', 's'],
        Filter::Nexus(_) => seq!['N', 'e', 'x', 'u', 's'],
        Filter::NodeVolume(_, _) => seq!['N', 'o', 'd', 'e', 'V', 'o', 'l', 'u', 'm', 'e'],
        Filter::Volume(_) => seq!['V', 'o', 'l', 'u', 'm', 'e'],
    }
}

impl Filter {
    /// The text form of the filter.
    pub fn to_string(&self) -> (s: String)
        ensures
            s@ == filter_text(*self),
    {
        proof {
            reveal_strlit("None");
            assert("None"@ =~= seq!['N', 'o', 'n', 'e']);
            reveal_strlit("Node");
            assert("Node"@ =~= seq!['N', 'o', 'd', 'e']);
            reveal_strlit("Pool");
            assert("Pool"@ =~= seq!['P', 'o', 'o', 'l']);
            reveal_strlit("NodePool");
            assert("NodePool"@ =~= seq!['N', 'o', 'd', 'e', 'P', 'o', 'o', 'l']);
            reveal_strlit("NodeReplica");
            assert("NodeReplica"@ =~= seq!['N', 'o', 'd', 'e', 'R', 'e', 'p', 'l', 'i', 'c', 'a']);
            reveal_strlit("NodePoolReplica");
            assert("NodePoolReplica"@ =~= seq!['N', 'o', 'd', 'e', 'P', 'o', 'o', 'l', 'R', 'e', 'p', 'l', 'i', 'c', 'a']);
            reveal_strlit("PoolReplica");
            assert("PoolReplica"@ =~= seq!['P', 'o', 'o', 'l', 'R', 'e', 'p', 'l', 'i', 'c', 'a']);
            reveal_strlit("Replica");
            assert("Replica"@ =~= seq!['R', 'e', 'p', 'l', 'i', 'c', 'a']);
            reveal_strlit("NodeNexus");
            assert("NodeNexus"@ =~= seq!['N', 'o', 'd', 'e', 'N', 'e', 'x', 'u', 's']);
            reveal_strlit("Nexus");
            assert("Nexus"@ =~= seq!['N', 'e', 'x', 'u', 's']);
            reveal_strlit("NodeVolume");
            assert("NodeVolume"@ =~= seq!['N', 'o', 'd', 'e', 'V', 'o', 'l', 'u', 'm', 'e']);
            reveal_strlit("Volume");
            assert("Volume"@ =~= seq!['V', 'o', 'l', 'u', 'm', 'e']);
        }
        match self {
            Filter::All => string_of("None"),
            Filter::Node(_) => string_of("Node"),
            Filter::Pool(_) => string_of("Pool"),
            Filter::NodePool(_, _) => string_of("NodePool"),
            Filter::NodeReplica(_, _) => string_of("NodeReplica"),
            Filter::NodePoolReplica(_, _, _) => string_of("NodePoolReplica"),
            Filter::PoolReplica(_, _) => string_of("PoolReplica"),
            Filter::Replica(_) => string_of("Replica"),
            Filter::NodeNexus(_, _) => string_of("NodeNexus"),
            Filter::Nexus(_) => string_of("Nexus"),
            Filter::NodeVolume(_, _) => string_of("NodeVolume"),
            Filter::Volume(_) => string_of("Volume"),
        }
    }
}

/// Liveness Probe
#[derive(Debug, Clone, Default, PartialEq, Eq)]
pub struct Liveness {}

/// Update mayastor configuration
#[derive(Debug, Clone, Default, PartialEq, Eq)]
pub struct ConfigUpdate {
    /// type of config being updated
    pub kind: Config,
    /// actual config data
    pub data: Vec<u8>,
}

/// Request message configuration used by mayastor to request configuration
/// from a control plane service
#[derive(Debug, Clone, Default, PartialEq, Eq)]
pub struct ConfigGetCurrent {
    /// type of config requested
    pub kind: Config,
}

/// Reply message configuration returned by a control plane service to mayastor
#[derive(Debug, Clone, Default, PartialEq, Eq)]
pub struct ReplyConfig {
    /// config data
    pub config: Vec<u8>,
}

/// Register message payload
#[derive(Debug, Clone, Default, PartialEq, Eq)]
pub struct Register {
    /// id of the mayastor instance
    pub id: NodeId,
    /// grpc_endpoint of the mayastor instance
    pub grpc_endpoint: String,
}

/// Deregister message payload
#[derive(Debug, Clone, Default, PartialEq, Eq)]
pub struct Deregister {
    /// id of the mayastor instance
    pub id: NodeId,
}

/// Get all the nodes
#[derive(Debug, Clone, Default, PartialEq, Eq)]
pub struct GetNodes {}

/// Node information
#[derive(Debug, Clone, Default, PartialEq, Eq)]
pub struct Node {
    /// id of the mayastor instance
    pub id: NodeId,
    /// grpc_endpoint of the mayastor instance
    pub grpc_endpoint: String,
    /// deemed state of the node
    pub state: NodeState,
}

/// Get all the pools from specific node or None for all nodes
#[derive(Debug, Clone, Default, PartialEq, Eq)]
pub struct GetPools {
    /// Filter request
    pub filter: Filter,
}

/// Pool information
#[derive(Debug, Clone, Default, PartialEq, Eq)]
pub struct Pool {
    /// id of the mayastor instance
    pub node: NodeId,
    /// id of the pool
    pub id: PoolId,
    /// absolute disk paths claimed by the pool
    pub disks: Vec<String>,
    /// current state of the pool
    pub state: PoolState,
    /// size of the pool in bytes
    pub capacity: u64,
    /// used bytes from the pool
    pub used: u64,
}

/// Create Pool Request
#[derive(Debug, Clone, Default, PartialEq, Eq)]
pub struct CreatePool {
    /// id of the mayastor instance
    pub node: NodeId,
    /// id of the pool
    pub id: PoolId,
    /// disk device paths or URIs to be claimed by the pool
    pub disks: Vec<String>,
}

/// Destroy Pool Request
#[derive(Debug, Clone, Default, PartialEq, Eq)]
pub struct DestroyPool {
    /// id of the mayastor instance
    pub node: NodeId,
    /// id of the pool
    pub id: PoolId,
}

/// Get all the replicas from specific node and pool
/// or None for all nodes or all pools
#[derive(Debug, Clone, Default, PartialEq, Eq)]
pub struct GetReplicas {
    /// Filter request
    pub filter: Filter,
}

/// Replica information
#[derive(Debug, Clone, Default, PartialEq, Eq)]
pub struct Replica {
    /// id of the mayastor instance
    pub node: NodeId,
    /// uuid of the replica
    pub uuid: ReplicaId,
    /// id of the pool
    pub pool: PoolId,
    /// thin provisioning
    pub thin: bool,
    /// size of the replica in bytes
    pub size: u64,
    /// protocol used for exposing the replica
    pub share: Protocol,
    /// uri usable by nexus to access it
    pub uri: String,
    /// state of the replica
    pub state: ReplicaState,
}

/// Create Replica Request
#[derive(Debug, Clone, Default, PartialEq, Eq)]
pub struct CreateReplica {
    /// id of the mayastor instance
    pub node: NodeId,
    /// uuid of the replica
    pub uuid: ReplicaId,
    /// id of the pool
    pub pool: PoolId,
    /// size of the replica in bytes
    pub size: u64,
    /// thin provisioning
    pub thin: bool,
    /// protocol to expose the replica over
    pub share: Protocol,
    /// Managed by our control plane
    pub managed: bool,
    /// Owners of the resource
    pub owners: ReplicaOwners,
}

/// Replica owners which is a volume or none and a list of nexuses
#[derive(Debug, Clone, PartialEq, Eq)]
pub struct ReplicaOwners {
    volume: Option<VolumeId>,
    nexuses: Vec<NexusId>,
}

impl Default for ReplicaOwners {
    /// No owners.
    fn default() -> (r: Self)
        ensures
            r.spec_volume() is None,
            r.spec_nexuses().len() == 0,
    {
        ReplicaOwners { volume: None, nexuses: Vec::new() }
    }
}

impl ReplicaOwners {
    /// The owning volume, if any.
    pub closed spec fn spec_volume(&self) -> Option<Seq<char>> {
        match self.volume {
            Some(v) => Some(v@),
            None => None,
        }
    }

    /// The owning nexuses.
    pub closed spec fn spec_nexuses(&self) -> Seq<Seq<char>> {
        self.nexuses@.map_values(|n: NexusId| n@)
    }

    /// Check if this replica is owned by any nexuses or a volume
    pub fn is_owned(&self) -> (b: bool)
        ensures
            b == (self.spec_volume() is Some || self.spec_nexuses().len() > 0),
    {
        self.volume.is_some() || !self.nexuses.is_empty()
    }

    /// Check if this replica is owned by this volume
    pub fn owned_by(&self, id: &VolumeId) -> (b: bool)
        ensures
            b == (self.spec_volume() == Some(id@)),
    {
        match &self.volume {
            Some(v) => v.same(id),
            None => false,
        }
    }

    /// Create new owners from the volume Id
    pub fn new(volume: &VolumeId) -> (r: Self)
        ensures
            r.spec_volume() == Some(volume@),
            r.spec_nexuses().len() == 0,
    {
        ReplicaOwners { volume: Some(volume.clone()), nexuses: Vec::new() }
    }
}

/// Owners made from a volume own the replica, and are owned by exactly that
/// volume; whoever owns a replica by a volume owns it.
pub proof fn lemma_replica_owners_new(o: ReplicaOwners, v: Seq<char>, w: Seq<char>)
    requires
        o.spec_volume() == Some(v),
        o.spec_nexuses().len() == 0,
    ensures
        o.spec_volume() is Some || o.spec_nexuses().len() > 0,
        (o.spec_volume() == Some(w)) <==> v == w,
{
}

/// Destroy Replica Request
#[derive(Debug, Clone, Default, PartialEq, Eq)]
pub struct DestroyReplica {
    /// id of the mayastor instance
    pub node: NodeId,
    /// id of the pool
    pub pool: PoolId,
    /// uuid of the replica
    pub uuid: ReplicaId,
}

impl From<Replica> for DestroyReplica {
    fn from(replica: Replica) -> (r: Self) {
        DestroyReplica { node: replica.node, pool: replica.pool, uuid: replica.uuid }
    }
}

impl FromSpecImpl<Replica> for DestroyReplica {
    open spec fn obeys_from_spec() -> bool {
        true
    }

    open spec fn from_spec(v: Replica) -> Self {
        DestroyReplica { node: v.node, pool: v.pool, uuid: v.uuid }
    }
}

/// Share Replica Request
#[derive(Debug, Clone, Default, PartialEq, Eq)]
pub struct ShareReplica {
    /// id of the mayastor instance
    pub node: NodeId,
    /// id of the pool
    pub pool: PoolId,
    /// uuid of the replica
    pub uuid: ReplicaId,
    /// protocol used for exposing the replica
    pub protocol: ReplicaShareProtocol,
}

/// Unshare Replica Request
#[derive(Debug, Clone, Default, PartialEq, Eq)]
pub struct UnshareReplica {
    /// id of the mayastor instance
    pub node: NodeId,
    /// id of the pool
    pub pool: PoolId,
    /// uuid of the replica
    pub uuid: ReplicaId,
}

impl From<ShareReplica> for UnshareReplica {
    fn from(share: ShareReplica) -> (r: Self) {
        UnshareReplica { node: share.node, pool: share.pool, uuid: share.uuid }
    }
}

impl FromSpecImpl<ShareReplica> for UnshareReplica {
    open spec fn obeys_from_spec() -> bool {
        true
    }

    open spec fn from_spec(v: ShareReplica) -> Self {
        UnshareReplica { node: v.node, pool: v.pool, uuid: v.uuid }
    }
}

impl From<&Replica> for ShareReplica {
    fn from(from: &Replica) -> (r: Self) {
        ShareReplica {
            node: from.node.clone(),
            pool: from.pool.clone(),
            uuid: from.uuid.clone(),
            protocol: ReplicaShareProtocol::Nvmf,
        }
    }
}

impl FromSpecImpl<&Replica> for ShareReplica {
    open spec fn obeys_from_spec() -> bool {
        true
    }

    open spec fn from_spec(v: &Replica) -> Self {
        ShareReplica { node: v.node, pool: v.pool, uuid: v.uuid, protocol: ReplicaShareProtocol::Nvmf }
    }
}

impl From<&Replica> for UnshareReplica {
    fn from(from: &Replica) -> (r: Self) {
        UnshareReplica { node: from.node.clone(), pool: from.pool.clone(), uuid: from.uuid.clone() }
    }
}

impl FromSpecImpl<&Replica> for UnshareReplica {
    open spec fn obeys_from_spec() -> bool {
        true
    }

    open spec fn from_spec(v: &Replica) -> Self {
        UnshareReplica { node: v.node, pool: v.pool, uuid: v.uuid }
    }
}

impl From<UnshareReplica> for ShareReplica {
    fn from(share: UnshareReplica) -> (r: Self) {
        ShareReplica {
            node: share.node,
            pool: share.pool,
            uuid: share.uuid,
            protocol: ReplicaShareProtocol::Nvmf,
        }
    }
}

impl FromSpecImpl<UnshareReplica> for ShareReplica {
    open spec fn obeys_from_spec() -> bool {
        true
    }

    open spec fn from_spec(v: UnshareReplica) -> Self {
        ShareReplica { node: v.node, pool: v.pool, uuid: v.uuid, protocol: ReplicaShareProtocol::Nvmf }
    }
}

/// Undoing a share request gives back the unshare request it came from, and
/// sharing an unshare request gives back the share request (NVMe-oF being
/// the only replica share protocol); share and unshare requests made from a
/// replica address the same replica as the replica's destroy request.
pub proof fn lemma_replica_share_roundtrip(u: UnshareReplica, s: ShareReplica, r: Replica)
    ensures
        <UnshareReplica as FromSpec<ShareReplica>>::from_spec(
            <ShareReplica as FromSpec<UnshareReplica>>::from_spec(u),
        ) == u,
        <ShareReplica as FromSpec<UnshareReplica>>::from_spec(
            <UnshareReplica as FromSpec<ShareReplica>>::from_spec(s),
        ) == s,
        <UnshareReplica as FromSpec<ShareReplica>>::from_spec(
            <ShareReplica as FromSpec<&Replica>>::from_spec(&r),
        ) == <UnshareReplica as FromSpec<&Replica>>::from_spec(&r),
        <DestroyReplica as FromSpec<Replica>>::from_spec(r).uuid == r.uuid,
{
}

/// Get all the nexuses with a filter selection
#[derive(Debug, Clone, Default, PartialEq, Eq)]
pub struct GetNexuses {
    /// Filter request
    pub filter: Filter,
}

/// Nexus information
#[derive(Debug, Clone, Default, PartialEq, Eq)]
pub struct Nexus {
    /// id of the mayastor instance
    pub node: NodeId,
    /// uuid of the nexus
    pub uuid: NexusId,
    /// size of the volume in bytes
    pub size: u64,
    /// current state of the nexus
    pub state: NexusState,
    /// array of children
    pub children: Vec<Child>,
    /// URI of the device for the volume (missing if not published).
    /// Missing property and empty string are treated the same.
    pub device_uri: String,
    /// total number of rebuild tasks
    pub rebuilds: u32,
    /// protocol used for exposing the nexus
    pub share: Protocol,
}

/// Child information
#[derive(Debug, Clone, Default, PartialEq, Eq)]
pub struct Child {
    /// uri of the child device
    pub uri: ChildUri,
    /// state of the child
    pub state: ChildState,
    /// current rebuild progress (%)
    pub rebuild_progress: Option<i32>,
}

/// Create Nexus Request
#[derive(Debug, Clone, Default, PartialEq, Eq)]
pub struct CreateNexus {
    /// id of the mayastor instance
    pub node: NodeId,
    /// the nexus uuid will be set to this
    pub uuid: NexusId,
    /// size of the device in bytes
    pub size: u64,
    /// uris to the targets we connect to
    pub children: Vec<ChildUri>,
    /// Managed by our control plane
    pub managed: bool,
    /// Volume which owns this nexus, if any
    pub owner: Option<VolumeId>,
}

/// Destroy Nexus Request
#[derive(Debug, Clone, Default, PartialEq, Eq)]
pub struct DestroyNexus {
    /// id of the mayastor instance
    pub node: NodeId,
    /// uuid of the nexus
    pub uuid: NexusId,
}

/// Share Nexus Request
#[derive(Debug, Clone, Default, PartialEq, Eq)]
pub struct ShareNexus {
    /// id of the mayastor instance
    pub node: NodeId,
    /// uuid of the nexus
    pub uuid: NexusId,
    /// encryption key
    pub key: Option<String>,
    /// share protocol
    pub protocol: NexusShareProtocol,
}

/// Unshare Nexus Request
#[derive(Debug, Clone, Default, PartialEq, Eq)]
pub struct UnshareNexus {
    /// id of the mayastor instance
    pub node: NodeId,
    /// uuid of the nexus
    pub uuid: NexusId,
}

impl From<(&Nexus, Option<String>, NexusShareProtocol)> for ShareNexus {
    fn from(args: (&Nexus, Option<String>, NexusShareProtocol)) -> (r: Self) {
        let (nexus, key, protocol) = args;
        ShareNexus { node: nexus.node.clone(), uuid: nexus.uuid.clone(), key, protocol }
    }
}

impl FromSpecImpl<(&Nexus, Option<String>, NexusShareProtocol)> for ShareNexus {
    open spec fn obeys_from_spec() -> bool {
        true
    }

    open spec fn from_spec(v: (&Nexus, Option<String>, NexusShareProtocol)) -> Self {
        ShareNexus { node: v.0.node, uuid: v.0.uuid, key: v.1, protocol: v.2 }
    }
}

impl From<&Nexus> for UnshareNexus {
    fn from(from: &Nexus) -> (r: Self) {
        UnshareNexus { node: from.node.clone(), uuid: from.uuid.clone() }
    }
}

impl FromSpecImpl<&Nexus> for UnshareNexus {
    open spec fn obeys_from_spec() -> bool {
        true
    }

    open spec fn from_spec(v: &Nexus) -> Self {
        UnshareNexus { node: v.node, uuid: v.uuid }
    }
}

impl From<ShareNexus> for UnshareNexus {
    fn from(share: ShareNexus) -> (r: Self) {
        UnshareNexus { node: share.node, uuid: share.uuid }
    }
}

impl FromSpecImpl<ShareNexus> for UnshareNexus {
    open spec fn obeys_from_spec() -> bool {
        true
    }

    open spec fn from_spec(v: ShareNexus) -> Self {
        UnshareNexus { node: v.node, uuid: v.uuid }
    }
}

/// Undoing a share of a nexus addresses the same nexus as unsharing the
/// nexus directly, whatever key and protocol the share used.
pub proof fn lemma_nexus_share_roundtrip(n: Nexus, key: Option<String>, protocol: NexusShareProtocol)
    ensures
        <UnshareNexus as FromSpec<ShareNexus>>::from_spec(
            <ShareNexus as FromSpec<(&Nexus, Option<String>, NexusShareProtocol)>>::from_spec(
                (&n, key, protocol),
            ),
        ) == <UnshareNexus as FromSpec<&Nexus>>::from_spec(&n),
{
}

/// Remove Child from Nexus Request
#[derive(Debug, Clone, Default, PartialEq, Eq)]
pub struct RemoveNexusChild {
    /// id of the mayastor instance
    pub node: NodeId,
    /// uuid of the nexus
    pub nexus: NexusId,
    /// URI of the child device to be removed
    pub uri: ChildUri,
}

/// Add child to Nexus Request
#[derive(Debug, Clone, Default, PartialEq, Eq)]
pub struct AddNexusChild {
    /// id of the mayastor instance
    pub node: NodeId,
    /// uuid of the nexus
    pub nexus: NexusId,
    /// URI of the child device to be added
    pub uri: ChildUri,
    /// auto start rebuilding
    pub auto_rebuild: bool,
}

impl From<AddNexusChild> for RemoveNexusChild {
    fn from(add: AddNexusChild) -> (r: Self) {
        RemoveNexusChild { node: add.node, nexus: add.nexus, uri: add.uri }
    }
}

impl FromSpecImpl<AddNexusChild> for RemoveNexusChild {
    open spec fn obeys_from_spec() -> bool {
        true
    }

    open spec fn from_spec(v: AddNexusChild) -> Self {
        RemoveNexusChild { node: v.node, nexus: v.nexus, uri: v.uri }
    }
}

/// Volume information
#[derive(Debug, Clone, Default, PartialEq, Eq)]
pub struct Volume {
    /// name of the volume
    pub uuid: VolumeId,
    /// size of the volume in bytes
    pub size: u64,
    /// current state of the volume
    pub state: NexusState,
    /// array of children nexuses
    pub children: Vec<Nexus>,
}

/// Get volumes
#[derive(Debug, Clone, Default, PartialEq, Eq)]
pub struct GetVolumes {
    /// filter volumes
    pub filter: Filter,
}

/// Create volume
#[derive(Debug, Clone, Default, PartialEq, Eq)]
pub struct CreateVolume {
    /// uuid of the volume
    pub uuid: VolumeId,
    /// size of the volume in bytes
    pub size: u64,
    /// number of children nexuses (ANA)
    pub nexuses: u64,
    /// number of replicas per nexus
    pub replicas: u64,
    /// only these nodes can be used for the replicas
    pub allowed_nodes: Vec<NodeId>,
    /// preferred nodes for the replicas
    pub preferred_nodes: Vec<NodeId>,
    /// preferred nodes for the nexuses
    pub preferred_nexus_nodes: Vec<NodeId>,
}

/// Delete volume
#[derive(Debug, Clone, Default, PartialEq, Eq)]
pub struct DestroyVolume {
    /// uuid of the volume
    pub uuid: VolumeId,
}

/// Add ANA Nexus to volume
#[derive(Debug, Clone, Default, PartialEq, Eq)]
pub struct AddVolumeNexus {
    /// uuid of the volume
    pub uuid: VolumeId,
    /// preferred node id for the nexus
    pub preferred_node: Option<NodeId>,
}

/// Remove ANA Nexus from volume
#[derive(Debug, Clone, Default, PartialEq, Eq)]
pub struct RemoveVolumeNexus {
    /// uuid of the volume
    pub uuid: VolumeId,
    /// id of the node where the nexus lives
    pub node: Option<NodeId>,
}

/// Generic JSON gRPC request
#[derive(Debug, Clone, Default, PartialEq, Eq)]
pub struct JsonGrpcRequest {
    /// id of the mayastor instance
    pub node: NodeId,
    /// JSON gRPC method to call
    pub method: JsonGrpcMethod,
    /// parameters to be passed to the above method
    pub params: JsonGrpcParams,
}

/// Partition information
#[derive(Debug, Clone, Default, PartialEq, Eq)]
pub struct Partition {
    /// devname of parent device to which this partition belongs
    pub parent: String,
    /// partition number
    pub number: u32,
    /// partition name
    pub name: String,
    /// partition scheme: gpt, dos, ...
    pub scheme: String,
    /// partition type identifier
    pub typeid: String,
    /// UUID identifying partition
    pub uuid: String,
}

/// Filesystem information
#[derive(Debug, Clone, Default, PartialEq, Eq)]
pub struct Filesystem {
    /// filesystem type: ext3, ntfs, ...
    pub fstype: String,
    /// volume label
    pub label: String,
    /// UUID identifying the volume (filesystem)
    pub uuid: String,
    /// path where filesystem is currently mounted
    pub mountpoint: String,
}

/// Block device information
#[derive(Debug, Clone, Default, PartialEq, Eq)]
pub struct BlockDevice {
    /// entry in /dev associated with device
    pub devname: String,
    /// currently "disk" or "partition"
    pub devtype: String,
    /// major device number
    pub devmajor: u32,
    /// minor device number
    pub devminor: u32,
    /// device model - useful for identifying mayastor devices
    pub model: String,
    /// official device path
    pub devpath: String,
    /// list of udev generated symlinks by which device may be identified
    pub devlinks: Vec<String>,
    /// size of device in (512 byte) blocks
    pub size: u64,
    /// partition information in case where device represents a partition
    pub partition: Partition,
    /// filesystem information in case where a filesystem is present
    pub filesystem: Filesystem,
    /// identifies if device is available for use (ie. is not "currently" in use)
    pub available: bool,
}

/// Get block devices
#[derive(Debug, Clone, Default, PartialEq, Eq)]
pub struct GetBlockDevices {
    /// id of the mayastor instance
    pub node: NodeId,
    /// specifies whether to get all devices or only usable devices
    pub all: bool,
}

/// Watch Resource in the store
#[derive(Debug, Clone, Default, PartialEq, Eq)]
pub struct Watch {
    /// id of the resource to watch on
    pub id: WatchResourceId,
    /// callback used to notify the watcher of a change
    pub callback: WatchCallback,
    /// type of watch
    pub watch_type: WatchType,
}

/// Get Resource Watches
#[derive(Debug, Clone, Default, PartialEq, Eq)]
pub struct GetWatchers {
    /// id of the resource to get
    pub resource: WatchResourceId,
}

/// Delete Watch which was previously created by CreateWatcher
/// Fields should match the ones used for the creation
#[derive(Debug, Clone, Default, PartialEq, Eq)]
pub struct DeleteWatch {
    /// id of the resource to delete the watch from
    pub id: WatchResourceId,
    /// callback to be deleted
    pub callback: WatchCallback,
    /// type of watch to be deleted
    pub watch_type: WatchType,
}

/// Watcher Callback types
#[derive(Debug, Clone, PartialEq, Eq)]
pub enum WatchCallback {
    /// HTTP URI callback
    Uri(String),
}

impl Default for WatchCallback {
    /// A callback to the empty URI.
    fn default() -> (r: Self)
        ensures
            r matches WatchCallback::Uri(u) && u@.len() == 0,
    {
        WatchCallback::Uri(String::new())
    }
}

/// Volume State information; currently the same as the nexus state.
pub type VolumeState = NexusState;

/// Create new Resource Watch, uniquely identifiable by resource id and
/// callback.
pub type CreateWatch = Watch;

/// Uniquely Identify a Resource
pub type Resource = WatchResourceId;

/// A list of nodes.
#[derive(Debug, Clone, Default, PartialEq, Eq)]
pub struct Nodes(pub Vec<Node>);

/// A list of pools.
#[derive(Debug, Clone, Default, PartialEq, Eq)]
pub struct Pools(pub Vec<Pool>);

/// A list of replicas.
#[derive(Debug, Clone, Default, PartialEq, Eq)]
pub struct Replicas(pub Vec<Replica>);

/// A list of nexuses.
#[derive(Debug, Clone, Default, PartialEq, Eq)]
pub struct Nexuses(pub Vec<Nexus>);

/// A list of volumes.
#[derive(Debug, Clone, Default, PartialEq, Eq)]
pub struct Volumes(pub Vec<Volume>);

/// A list of block devices.
#[derive(Debug, Clone, Default, PartialEq, Eq)]
pub struct BlockDevices(pub Vec<BlockDevice>);

/// A list of watches.
#[derive(Debug, Clone, Default, PartialEq, Eq)]
pub struct Watches(pub Vec<Watch>);
/// The names of the states, in the order of their wire codes 0 to 3.
pub open spec fn state_names() -> Seq<Seq<char>> {
    seq![
        seq!['U', 'n', 'k', 'n', 'o', 'w', 'n'],
        seq!['O', 'n', 'l', 'i', 'n', 'e'],
        seq!['D', 'e', 'g', 'r', 'a', 'd', 'e', 'd'],
        seq!['F', 'a', 'u', 'l', 't', 'e', 'd'],
    ]
}

/// The camel-case names of the states, in the order of their wire codes.
pub open spec fn camel_state_names() -> Seq<Seq<char>> {
    seq![
        seq!['u', 'n', 'k', 'n', 'o', 'w', 'n'],
        seq!['o', 'n', 'l', 'i', 'n', 'e'],
        seq!['d', 'e', 'g', 'r', 'a', 'd', 'e', 'd'],
        seq!['f', 'a', 'u', 'l', 't', 'e', 'd'],
    ]
}

/// The camel-case names of the share protocols, in the order of their wire
/// codes 0 to 3.
pub open spec fn protocol_names() -> Seq<Seq<char>> {
    seq![
        seq!['o', 'f', 'f'],
        seq!['n', 'v', 'm', 'f'],
        seq!['i', 's', 'c', 's', 'i'],
        seq!['n', 'b', 'd'],
    ]
}

/// The name a child state goes by on the wire (camel case, as serialised).
pub open spec fn child_state_name(s: ChildState) -> Seq<char> {
    match s {
        ChildState::Unknown => seq!['u', 'n', 'k', 'n', 'o', 'w', 'n'],
        ChildState::Online => seq!['o', 'n', 'l', 'i', 'n', 'e'],
        ChildState::Degraded => seq!['d', 'e', 'g', 'r', 'a', 'd', 'e', 'd'],
        ChildState::Faulted => seq!['f', 'a', 'u', 'l', 't', 'e', 'd'],
    }
}

/// Wire codes follow the order in which the states are declared, from 0 to
/// 3, and codes and names agree: every state is sent as the code whose name
/// it bears, and each code from 0 to 3 reads as the state of that name, for
/// replica, child, nexus and pool states alike (1 is online, 2 degraded,
/// 3 faulted, 0 unknown).
pub proof fn lemma_state_codes_name_states(
    r: ReplicaState,
    c: ChildState,
    n: NexusState,
    p: PoolState,
    code: i32,
)
    ensures
        0 <= replica_state_code(r) < 4,
        0 <= child_state_code(c) < 4,
        0 <= nexus_state_code(n) < 4,
        0 <= crate::pool_state::pool_state_code(p) < 4,
        replica_state_code(ReplicaState::Unknown) < replica_state_code(ReplicaState::Online)
            < replica_state_code(ReplicaState::Degraded) < replica_state_code(ReplicaState::Faulted),
        child_state_code(ChildState::Unknown) < child_state_code(ChildState::Online)
            < child_state_code(ChildState::Degraded) < child_state_code(ChildState::Faulted),
        nexus_state_code(NexusState::Unknown) < nexus_state_code(NexusState::Online)
            < nexus_state_code(NexusState::Degraded) < nexus_state_code(NexusState::Faulted),
        crate::pool_state::pool_state_code(PoolState::Unknown) < crate::pool_state::pool_state_code(
            PoolState::Online,
        ) < crate::pool_state::pool_state_code(PoolState::Degraded)
            < crate::pool_state::pool_state_code(PoolState::Faulted),
        replica_state_text(r) == camel_state_names()[replica_state_code(r) as int],
        child_state_name(c) == camel_state_names()[child_state_code(c) as int],
        nexus_state_text(n) == state_names()[nexus_state_code(n) as int],
        crate::pool_state::pool_state_text(p) == state_names()[crate::pool_state::pool_state_code(p) as int],
        0 <= code < 4 ==> replica_state_text(replica_state_from_code(code)) == camel_state_names()[code as int],
        0 <= code < 4 ==> child_state_name(child_state_from_code(code)) == camel_state_names()[code as int],
        0 <= code < 4 ==> nexus_state_text(nexus_state_from_code(code)) == state_names()[code as int],
        0 <= code < 4 ==> crate::pool_state::pool_state_text(crate::pool_state::pool_state_from_code(code))
            == state_names()[code as int],
{
}

/// Protocol codes follow the order in which the protocols are declared, and
/// wire codes and names of share protocols agree: each protocol, and each
/// nexus or replica share protocol, is sent as the code whose name it bears
/// (0 off, 1 NVMe-oF, 2 iSCSI, 3 NBD), and the codes 0 to 2 read as the
/// protocol of that name.
pub proof fn lemma_protocol_codes_name_protocols(
    p: Protocol,
    n: NexusShareProtocol,
    r: ReplicaShareProtocol,
    code: i32,
)
    ensures
        0 <= protocol_code(p) < 4,
        protocol_code(Protocol::Off) < protocol_code(Protocol::Nvmf) < protocol_code(Protocol::Iscsi)
            < protocol_code(Protocol::Nbd),
        protocol_text(p) == protocol_names()[protocol_code(p) as int],
        nexus_share_protocol_text(n) == protocol_names()[nexus_share_protocol_code(n) as int],
        replica_share_protocol_text(r) == protocol_names()[replica_share_protocol_code(r) as int],
        0 <= code < 3 ==> protocol_text(protocol_from_code(code)) == protocol_names()[code as int],
{
}

/// A request made from a resource addresses that resource, and carries what
/// it is given: the key and protocol of a nexus share, the NVMe-oF protocol
/// (the only one) of a replica share.
pub proof fn lemma_requests_carry_their_arguments(
    r: Replica,
    n: Nexus,
    key: Option<String>,
    protocol: NexusShareProtocol,
    s: ShareReplica,
    u: UnshareReplica,
    sn: ShareNexus,
    a: AddNexusChild,
)
    ensures
        ({
            let d = <DestroyReplica as FromSpec<Replica>>::from_spec(r);
            d.node == r.node && d.pool == r.pool && d.uuid == r.uuid
        }),
        ({
            let x = <ShareReplica as FromSpec<&Replica>>::from_spec(&r);
            x.node == r.node && x.pool == r.pool && x.uuid == r.uuid && x.protocol
                == ReplicaShareProtocol::Nvmf
        }),
        ({
            let x = <UnshareReplica as FromSpec<&Replica>>::from_spec(&r);
            x.node == r.node && x.pool == r.pool && x.uuid == r.uuid
        }),
        ({
            let x = <UnshareReplica as FromSpec<ShareReplica>>::from_spec(s);
            x.node == s.node && x.pool == s.pool && x.uuid == s.uuid
        }),
        ({
            let x = <ShareReplica as FromSpec<UnshareReplica>>::from_spec(u);
            x.node == u.node && x.pool == u.pool && x.uuid == u.uuid && x.protocol
                == ReplicaShareProtocol::Nvmf
        }),
        ({
            let x = <ShareNexus as FromSpec<(&Nexus, Option<String>, NexusShareProtocol)>>::from_spec(
                (&n, key, protocol),
            );
            x.node == n.node && x.uuid == n.uuid && x.key == key && x.protocol == protocol
        }),
        ({
            let x = <UnshareNexus as FromSpec<&Nexus>>::from_spec(&n);
            x.node == n.node && x.uuid == n.uuid
        }),
        ({
            let x = <UnshareNexus as FromSpec<ShareNexus>>::from_spec(sn);
            x.node == sn.node && x.uuid == sn.uuid
        }),
        ({
            let x = <RemoveNexusChild as FromSpec<AddNexusChild>>::from_spec(a);
            x.node == a.node && x.nexus == a.nexus && x.uri == a.uri
        }),
{
}


/// The different resource types that can be watched
#[derive(Debug, Clone, PartialEq, Eq)]
pub enum WatchResourceId {
    /// nodes
    Node(NodeId),
    /// pools
    Pool(PoolId),
    /// replicas
    Replica(ReplicaId),
    /// replica state
    ReplicaState(ReplicaId),
    /// replica spec
    ReplicaSpec(ReplicaId),
    /// nexuses
    Nexus(NexusId),
    /// volumes
    Volume(VolumeId),
}

impl Default for WatchResourceId {
    /// The node with the default (nil-UUID) id.
    fn default() -> (r: Self)
        ensures
            r matches WatchResourceId::Node(id) && id@ == crate::ids::nil_uuid_text(),
    {
        WatchResourceId::Node(NodeId::default())
    }
}

/// The text that precedes the id in the text form of a watched resource.
pub open spec fn watch_resource_prefix(r: WatchResourceId) -> Seq<char> {
    match r {
        WatchResourceId::Node(_) => seq!['n', 'o', 'd', 'e', '/'],
        WatchResourceId::Pool(_) => seq!['p', 'o', 'o', 'l', '/'],
        WatchResourceId::Replica(_) => seq!['r', 'e', 'p', 'l', 'i', 'c', 'a', '/'],
        WatchResourceId::ReplicaState(_) => seq![
            'r', 'e', 'p', 'l', 'i', 'c', 'a', '_', 's', 't', 'a', 't', 'e', '/'
        ],
        WatchResourceId::ReplicaSpec(_) => seq![
            'r', 'e', 'p', 'l', 'i', 'c', 'a', '_', 's', 'p', 'e', 'c', '/'
        ],
        WatchResourceId::Nexus(_) => seq!['n', 'e', 'x', 'u', 's', '/'],
        WatchResourceId::Volume(_) => seq!['v', 'o', 'l', 'u', 'm', 'e', '/'],
    }
}

/// The id that a watched resource carries, as text.
pub open spec fn watch_resource_id_text(r: WatchResourceId) -> Seq<char> {
    match r {
        WatchResourceId::Node(id) => id@,
        WatchResourceId::Pool(id) => id@,
        WatchResourceId::Replica(id) => id@,
        WatchResourceId::ReplicaState(id) => id@,
        WatchResourceId::ReplicaSpec(id) => id@,
        WatchResourceId::Nexus(id) => id@,
        WatchResourceId::Volume(id) => id@,
    }
}

/// Which kind of resource is watched (0 to 6, in declaration order).
pub open spec fn watch_resource_kind(r: WatchResourceId) -> nat {
    match r {
        WatchResourceId::Node(_) => 0,
        WatchResourceId::Pool(_) => 1,
        WatchResourceId::Replica(_) => 2,
        WatchResourceId::ReplicaState(_) => 3,
        WatchResourceId::ReplicaSpec(_) => 4,
        WatchResourceId::Nexus(_) => 5,
        WatchResourceId::Volume(_) => 6,
    }
}

/// The text form of a watched resource: "<kind>/<id>".
pub open spec fn watch_resource_text(r: WatchResourceId) -> Seq<char> {
    watch_resource_prefix(r) + watch_resource_id_text(r)
}

/// The prefix text of a watched resource, as a string slice.
fn watch_resource_prefix_str(r: &WatchResourceId) -> (s: &'static str)
    ensures
        s@ == watch_resource_prefix(*r),
{
    match r {
        WatchResourceId::Node(_) => {
            proof {
                reveal_strlit("node/");
                assert("node/"@ =~= watch_resource_prefix(*r));
            }
            "node/"
        },
        WatchResourceId::Pool(_) => {
            proof {
                reveal_strlit("pool/");
                assert("pool/"@ =~= watch_resource_prefix(*r));
            }
            "pool/"
        },
        WatchResourceId::Replica(_) => {
            proof {
                reveal_strlit("replica/");
                assert("replica/"@ =~= watch_resource_prefix(*r));
            }
            "replica/"
        },
        WatchResourceId::ReplicaState(_) => {
            proof {
                reveal_strlit("replica_state/");
                assert("replica_state/"@ =~= watch_resource_prefix(*r));
            }
            "replica_state/"
        },
        WatchResourceId::ReplicaSpec(_) => {
            proof {
                reveal_strlit("replica_spec/");
                assert("replica_spec/"@ =~= watch_resource_prefix(*r));
            }
            "replica_spec/"
        },
        WatchResourceId::Nexus(_) => {
            proof {
                reveal_strlit("nexus/");
                assert("nexus/"@ =~= watch_resource_prefix(*r));
            }
            "nexus/"
        },
        WatchResourceId::Volume(_) => {
            proof {
                reveal_strlit("volume/");
                assert("volume/"@ =~= watch_resource_prefix(*r));
            }
            "volume/"
        },
    }
}

impl WatchResourceId {
    /// The text form of the resource, "<kind>/<id>", e.g. "node/<node id>".
    pub fn to_string(&self) -> (s: String)
        ensures
            s@ == watch_resource_text(*self),
    {
        let mut s = string_of(watch_resource_prefix_str(self));
        s.append(self.id_str());
        s
    }

    /// The id of the resource, as a string slice.
    fn id_str(&self) -> (s: &str)
        ensures
            s@ == watch_resource_id_text(*self),
    {
        match self {
            WatchResourceId::Node(id) => id.as_str(),
            WatchResourceId::Pool(id) => id.as_str(),
            WatchResourceId::Replica(id) => id.as_str(),
            WatchResourceId::ReplicaState(id) => id.as_str(),
            WatchResourceId::ReplicaSpec(id) => id.as_str(),
            WatchResourceId::Nexus(id) => id.as_str(),
            WatchResourceId::Volume(id) => id.as_str(),
        }
    }

    /// The store object type under which the resource is kept.
    pub fn key_type(&self) -> (t: StorableObjectType)
        ensures
            t == watch_resource_key_type(*self),
    {
        match self {
            WatchResourceId::Node(_) => StorableObjectType::Node,
            WatchResourceId::Pool(_) => StorableObjectType::Pool,
            WatchResourceId::Replica(_) => StorableObjectType::ReplicaSpec,
            WatchResourceId::ReplicaState(_) => StorableObjectType::ReplicaState,
            WatchResourceId::ReplicaSpec(_) => StorableObjectType::ReplicaSpec,
            WatchResourceId::Nexus(_) => StorableObjectType::NexusSpec,
            WatchResourceId::Volume(_) => StorableObjectType::VolumeSpec,
        }
    }

    /// The uuid part of the resource's store key: its id.
    pub fn key_uuid(&self) -> (s: String)
        ensures
            s@ == watch_resource_id_text(*self),
    {
        string_of(self.id_str())
    }
}

/// The store object type of a watched resource.
pub open spec fn watch_resource_key_type(r: WatchResourceId) -> StorableObjectType {
    match r {
        WatchResourceId::Node(_) => StorableObjectType::Node,
        WatchResourceId::Pool(_) => StorableObjectType::Pool,
        WatchResourceId::Replica(_) => StorableObjectType::ReplicaSpec,
        WatchResourceId::ReplicaState(_) => StorableObjectType::ReplicaState,
        WatchResourceId::ReplicaSpec(_) => StorableObjectType::ReplicaSpec,
        WatchResourceId::Nexus(_) => StorableObjectType::NexusSpec,
        WatchResourceId::Volume(_) => StorableObjectType::VolumeSpec,
    }
}

/// Distinct watched resources have distinct text forms: equal texts come
/// from the same kind of resource with the same id.
pub proof fn lemma_watch_resource_text_injective(a: WatchResourceId, b: WatchResourceId)
    requires
        watch_resource_text(a) == watch_resource_text(b),
    ensures
        watch_resource_kind(a) == watch_resource_kind(b),
        watch_resource_id_text(a) == watch_resource_id_text(b),
{
    let pa = watch_resource_prefix(a);
    let pb = watch_resource_prefix(b);
    let ta = watch_resource_text(a);
    let tb = watch_resource_text(b);
    assert(forall|i: int| 0 <= i < pa.len() ==> ta[i] == pa[i]);
    assert(forall|i: int| 0 <= i < pb.len() ==> tb[i] == pb[i]);
    assert(ta[0] == tb[0]);
    assert(ta[1] == tb[1]);
    assert(ta[4] == tb[4]);
    assert(ta[7] == tb[7]);
    assert(ta[9] == tb[9]);
    assert(watch_resource_kind(a) == watch_resource_kind(b));
    assert(pa == pb);
    assert(watch_resource_id_text(a) =~= ta.subrange(pa.len() as int, ta.len() as int));
    assert(watch_resource_id_text(b) =~= tb.subrange(pb.len() as int, tb.len() as int));
}

/// The kind of object a store type holds, as the resource texts name it.
pub open spec fn stored_object_name(t: StorableObjectType) -> Seq<char> {
    match t {
        StorableObjectType::Node | StorableObjectType::NodeSpec => seq!['n', 'o', 'd', 'e'],
        StorableObjectType::Pool => seq!['p', 'o', 'o', 'l'],
        StorableObjectType::ReplicaState | StorableObjectType::ReplicaSpec => seq![
            'r', 'e', 'p', 'l', 'i', 'c', 'a'
        ],
        StorableObjectType::NexusState | StorableObjectType::NexusSpec => seq!['n', 'e', 'x', 'u', 's'],
        StorableObjectType::VolumeState | StorableObjectType::VolumeSpec => seq!['v', 'o', 'l', 'u', 'm', 'e'],
        StorableObjectType::ChildState | StorableObjectType::ChildSpec => seq!['c', 'h', 'i', 'l', 'd'],
    }
}

/// The store type holds the state (the actual side) of its object.
pub open spec fn is_state_type(t: StorableObjectType) -> bool {
    t is ReplicaState || t is NexusState || t is VolumeState || t is ChildState
}

/// The store type is the plain type of its object (one with neither spec
/// nor state).
pub open spec fn is_plain_type(t: StorableObjectType) -> bool {
    t is Node || t is Pool
}

/// A watched resource is kept under the store type of the object that its
/// text names: the text begins with the object's name, followed by '/' or
/// '_'. The type is a state type exactly when the resource is a replica
/// state, and it is the plain type exactly where the object has one (nodes
/// and pools); every other resource is kept under its object's spec.
pub proof fn lemma_watch_key_type_names_resource(r: WatchResourceId)
    ensures
        ({
            let name = stored_object_name(watch_resource_key_type(r));
            let prefix = watch_resource_prefix(r);
            &&& name.len() < prefix.len()
            &&& prefix.subrange(0, name.len() as int) == name
            &&& (prefix[name.len() as int] == '/' || prefix[name.len() as int] == '_')
        }),
        is_state_type(watch_resource_key_type(r)) <==> r is ReplicaState,
        is_plain_type(watch_resource_key_type(r)) <==> (r is Node || r is Pool),
{
    let name = stored_object_name(watch_resource_key_type(r));
    let prefix = watch_resource_prefix(r);
    assert(prefix.subrange(0, name.len() as int) =~= name);
}

/// The channel that serves messages with the given id: the agent that
/// answers them; none for the ids that no message of this version carries.
pub open spec fn message_channel(id: MessageIdVs) -> Option<ChannelVs> {
    match id {
        MessageIdVs::Liveness => Some(ChannelVs::Default),
        MessageIdVs::ConfigUpdate => Some(ChannelVs::Kiiss),
        MessageIdVs::ConfigGetCurrent => Some(ChannelVs::Kiiss),
        MessageIdVs::Register => Some(ChannelVs::Registry),
        MessageIdVs::Deregister => Some(ChannelVs::Registry),
        MessageIdVs::GetNodes => Some(ChannelVs::Node),
        MessageIdVs::GetPools => Some(ChannelVs::Pool),
        MessageIdVs::CreatePool => Some(ChannelVs::Pool),
        MessageIdVs::DestroyPool => Some(ChannelVs::Pool),
        MessageIdVs::GetReplicas => Some(ChannelVs::Pool),
        MessageIdVs::CreateReplica => Some(ChannelVs::Pool),
        MessageIdVs::DestroyReplica => Some(ChannelVs::Pool),
        MessageIdVs::ShareReplica => Some(ChannelVs::Pool),
        MessageIdVs::UnshareReplica => Some(ChannelVs::Pool),
        MessageIdVs::GetNexuses => Some(ChannelVs::Nexus),
        MessageIdVs::CreateNexus => Some(ChannelVs::Nexus),
        MessageIdVs::DestroyNexus => Some(ChannelVs::Nexus),
        MessageIdVs::ShareNexus => Some(ChannelVs::Nexus),
        MessageIdVs::UnshareNexus => Some(ChannelVs::Nexus),
        MessageIdVs::RemoveNexusChild => Some(ChannelVs::Nexus),
        MessageIdVs::AddNexusChild => Some(ChannelVs::Nexus),
        MessageIdVs::GetVolumes => Some(ChannelVs::Volume),
        MessageIdVs::CreateVolume => Some(ChannelVs::Volume),
        MessageIdVs::DestroyVolume => Some(ChannelVs::Volume),
        MessageIdVs::AddVolumeNexus => Some(ChannelVs::Volume),
        MessageIdVs::RemoveVolumeNexus => Some(ChannelVs::Volume),
        MessageIdVs::JsonGrpc => Some(ChannelVs::JsonGrpc),
        MessageIdVs::GetBlockDevices => Some(ChannelVs::Node),
        MessageIdVs::CreateWatch => Some(ChannelVs::Watcher),
        MessageIdVs::GetWatches => Some(ChannelVs::Watcher),
        MessageIdVs::DeleteWatch => Some(ChannelVs::Watcher),
        _ => None,
    }
}

impl Liveness {
    /// The id of this message.
    pub fn id(&self) -> (r: MessageIdVs)
        ensures
            r == MessageIdVs::Liveness,
    {
        MessageIdVs::Liveness
    }

    /// The channel this message is sent on.
    pub fn channel(&self) -> (r: ChannelVs)
        ensures
            r == ChannelVs::Default,
            Some(r) == message_channel(MessageIdVs::Liveness),
    {
        ChannelVs::Default
    }
}

impl ConfigUpdate {
    /// The id of this message.
    pub fn id(&self) -> (r: MessageIdVs)
        ensures
            r == MessageIdVs::ConfigUpdate,
    {
        MessageIdVs::ConfigUpdate
    }

    /// The channel this message is sent on.
    pub fn channel(&self) -> (r: ChannelVs)
        ensures
            r == ChannelVs::Kiiss,
            Some(r) == message_channel(MessageIdVs::ConfigUpdate),
    {
        ChannelVs::Kiiss
    }
}

impl ConfigGetCurrent {
    /// The id of this message.
    pub fn id(&self) -> (r: MessageIdVs)
        ensures
            r == MessageIdVs::ConfigGetCurrent,
    {
        MessageIdVs::ConfigGetCurrent
    }

    /// The channel this message is sent on.
    pub fn channel(&self) -> (r: ChannelVs)
        ensures
            r == ChannelVs::Kiiss,
            Some(r) == message_channel(MessageIdVs::ConfigGetCurrent),
    {
        ChannelVs::Kiiss
    }
}

impl Register {
    /// The id of this message.
    pub fn id(&self) -> (r: MessageIdVs)
        ensures
            r == MessageIdVs::Register,
    {
        MessageIdVs::Register
    }

    /// The channel this message is sent on.
    pub fn channel(&self) -> (r: ChannelVs)
        ensures
            r == ChannelVs::Registry,
            Some(r) == message_channel(MessageIdVs::Register),
    {
        ChannelVs::Registry
    }
}

impl Deregister {
    /// The id of this message.
    pub fn id(&self) -> (r: MessageIdVs)
        ensures
            r == MessageIdVs::Deregister,
    {
        MessageIdVs::Deregister
    }

    /// The channel this message is sent on.
    pub fn channel(&self) -> (r: ChannelVs)
        ensures
            r == ChannelVs::Registry,
            Some(r) == message_channel(MessageIdVs::Deregister),
    {
        ChannelVs::Registry
    }
}

impl GetNodes {
    /// The id of this message.
    pub fn id(&self) -> (r: MessageIdVs)
        ensures
            r == MessageIdVs::GetNodes,
    {
        MessageIdVs::GetNodes
    }

    /// The channel this message is sent on.
    pub fn channel(&self) -> (r: ChannelVs)
        ensures
            r == ChannelVs::Node,
            Some(r) == message_channel(MessageIdVs::GetNodes),
    {
        ChannelVs::Node
    }
}

impl GetPools {
    /// The id of this message.
    pub fn id(&self) -> (r: MessageIdVs)
        ensures
            r == MessageIdVs::GetPools,
    {
        MessageIdVs::GetPools
    }

    /// The channel this message is sent on.
    pub fn channel(&self) -> (r: ChannelVs)
        ensures
            r == ChannelVs::Pool,
            Some(r) == message_channel(MessageIdVs::GetPools),
    {
        ChannelVs::Pool
    }
}

impl CreatePool {
    /// The id of this message.
    pub fn id(&self) -> (r: MessageIdVs)
        ensures
            r == MessageIdVs::CreatePool,
    {
        MessageIdVs::CreatePool
    }

    /// The channel this message is sent on.
    pub fn channel(&self) -> (r: ChannelVs)
        ensures
            r == ChannelVs::Pool,
            Some(r) == message_channel(MessageIdVs::CreatePool),
    {
        ChannelVs::Pool
    }
}

impl DestroyPool {
    /// The id of this message.
    pub fn id(&self) -> (r: MessageIdVs)
        ensures
            r == MessageIdVs::DestroyPool,
    {
        MessageIdVs::DestroyPool
    }

    /// The channel this message is sent on.
    pub fn channel(&self) -> (r: ChannelVs)
        ensures
            r == ChannelVs::Pool,
            Some(r) == message_channel(MessageIdVs::DestroyPool),
    {
        ChannelVs::Pool
    }
}

impl GetReplicas {
    /// The id of this message.
    pub fn id(&self) -> (r: MessageIdVs)
        ensures
            r == MessageIdVs::GetReplicas,
    {
        MessageIdVs::GetReplicas
    }

    /// The channel this message is sent on.
    pub fn channel(&self) -> (r: ChannelVs)
        ensures
            r == ChannelVs::Pool,
            Some(r) == message_channel(MessageIdVs::GetReplicas),
    {
        ChannelVs::Pool
    }
}

impl CreateReplica {
    /// The id of this message.
    pub fn id(&self) -> (r: MessageIdVs)
        ensures
            r == MessageIdVs::CreateReplica,
    {
        MessageIdVs::CreateReplica
    }

    /// The channel this message is sent on.
    pub fn channel(&self) -> (r: ChannelVs)
        ensures
            r == ChannelVs::Pool,
            Some(r) == message_channel(MessageIdVs::CreateReplica),
    {
        ChannelVs::Pool
    }
}

impl DestroyReplica {
    /// The id of this message.
    pub fn id(&self) -> (r: MessageIdVs)
        ensures
            r == MessageIdVs::DestroyReplica,
    {
        MessageIdVs::DestroyReplica
    }

    /// The channel this message is sent on.
    pub fn channel(&self) -> (r: ChannelVs)
        ensures
            r == ChannelVs::Pool,
            Some(r) == message_channel(MessageIdVs::DestroyReplica),
    {
        ChannelVs::Pool
    }
}

impl ShareReplica {
    /// The id of this message.
    pub fn id(&self) -> (r: MessageIdVs)
        ensures
            r == MessageIdVs::ShareReplica,
    {
        MessageIdVs::ShareReplica
    }

    /// The channel this message is sent on.
    pub fn channel(&self) -> (r: ChannelVs)
        ensures
            r == ChannelVs::Pool,
            Some(r) == message_channel(MessageIdVs::ShareReplica),
    {
        ChannelVs::Pool
    }
}

impl UnshareReplica {
    /// The id of this message.
    pub fn id(&self) -> (r: MessageIdVs)
        ensures
            r == MessageIdVs::UnshareReplica,
    {
        MessageIdVs::UnshareReplica
    }

    /// The channel this message is sent on.
    pub fn channel(&self) -> (r: ChannelVs)
        ensures
            r == ChannelVs::Pool,
            Some(r) == message_channel(MessageIdVs::UnshareReplica),
    {
        ChannelVs::Pool
    }
}

impl GetNexuses {
    /// The id of this message.
    pub fn id(&self) -> (r: MessageIdVs)
        ensures
            r == MessageIdVs::GetNexuses,
    {
        MessageIdVs::GetNexuses
    }

    /// The channel this message is sent on.
    pub fn channel(&self) -> (r: ChannelVs)
        ensures
            r == ChannelVs::Nexus,
            Some(r) == message_channel(MessageIdVs::GetNexuses),
    {
        ChannelVs::Nexus
    }
}

impl CreateNexus {
    /// The id of this message.
    pub fn id(&self) -> (r: MessageIdVs)
        ensures
            r == MessageIdVs::CreateNexus,
    {
        MessageIdVs::CreateNexus
    }

    /// The channel this message is sent on.
    pub fn channel(&self) -> (r: ChannelVs)
        ensures
            r == ChannelVs::Nexus,
            Some(r) == message_channel(MessageIdVs::CreateNexus),
    {
        ChannelVs::Nexus
    }
}

impl DestroyNexus {
    /// The id of this message.
    pub fn id(&self) -> (r: MessageIdVs)
        ensures
            r == MessageIdVs::DestroyNexus,
    {
        MessageIdVs::DestroyNexus
    }

    /// The channel this message is sent on.
    pub fn channel(&self) -> (r: ChannelVs)
        ensures
            r == ChannelVs::Nexus,
            Some(r) == message_channel(MessageIdVs::DestroyNexus),
    {
        ChannelVs::Nexus
    }
}

impl ShareNexus {
    /// The id of this message.
    pub fn id(&self) -> (r: MessageIdVs)
        ensures
            r == MessageIdVs::ShareNexus,
    {
        MessageIdVs::ShareNexus
    }

    /// The channel this message is sent on.
    pub fn channel(&self) -> (r: ChannelVs)
        ensures
            r == ChannelVs::Nexus,
            Some(r) == message_channel(MessageIdVs::ShareNexus),
    {
        ChannelVs::Nexus
    }
}

impl UnshareNexus {
    /// The id of this message.
    pub fn id(&self) -> (r: MessageIdVs)
        ensures
            r == MessageIdVs::UnshareNexus,
    {
        MessageIdVs::UnshareNexus
    }

    /// The channel this message is sent on.
    pub fn channel(&self) -> (r: ChannelVs)
        ensures
            r == ChannelVs::Nexus,
            Some(r) == message_channel(MessageIdVs::UnshareNexus),
    {
        ChannelVs::Nexus
    }
}

impl RemoveNexusChild {
    /// The id of this message.
    pub fn id(&self) -> (r: MessageIdVs)
        ensures
            r == MessageIdVs::RemoveNexusChild,
    {
        MessageIdVs::RemoveNexusChild
    }

    /// The channel this message is sent on.
    pub fn channel(&self) -> (r: ChannelVs)
        ensures
            r == ChannelVs::Nexus,
            Some(r) == message_channel(MessageIdVs::RemoveNexusChild),
    {
        ChannelVs::Nexus
    }
}

impl AddNexusChild {
    /// The id of this message.
    pub fn id(&self) -> (r: MessageIdVs)
        ensures
            r == MessageIdVs::AddNexusChild,
    {
        MessageIdVs::AddNexusChild
    }

    /// The channel this message is sent on.
    pub fn channel(&self) -> (r: ChannelVs)
        ensures
            r == ChannelVs::Nexus,
            Some(r) == message_channel(MessageIdVs::AddNexusChild),
    {
        ChannelVs::Nexus
    }
}

impl GetVolumes {
    /// The id of this message.
    pub fn id(&self) -> (r: MessageIdVs)
        ensures
            r == MessageIdVs::GetVolumes,
    {
        MessageIdVs::GetVolumes
    }

    /// The channel this message is sent on.
    pub fn channel(&self) -> (r: ChannelVs)
        ensures
            r == ChannelVs::Volume,
            Some(r) == message_channel(MessageIdVs::GetVolumes),
    {
        ChannelVs::Volume
    }
}

impl CreateVolume {
    /// The id of this message.
    pub fn id(&self) -> (r: MessageIdVs)
        ensures
            r == MessageIdVs::CreateVolume,
    {
        MessageIdVs::CreateVolume
    }

    /// The channel this message is sent on.
    pub fn channel(&self) -> (r: ChannelVs)
        ensures
            r == ChannelVs::Volume,
            Some(r) == message_channel(MessageIdVs::CreateVolume),
    {
        ChannelVs::Volume
    }
}

impl DestroyVolume {
    /// The id of this message.
    pub fn id(&self) -> (r: MessageIdVs)
        ensures
            r == MessageIdVs::DestroyVolume,
    {
        MessageIdVs::DestroyVolume
    }

    /// The channel this message is sent on.
    pub fn channel(&self) -> (r: ChannelVs)
        ensures
            r == ChannelVs::Volume,
            Some(r) == message_channel(MessageIdVs::DestroyVolume),
    {
        ChannelVs::Volume
    }
}

impl AddVolumeNexus {
    /// The id of this message.
    pub fn id(&self) -> (r: MessageIdVs)
        ensures
            r == MessageIdVs::AddVolumeNexus,
    {
        MessageIdVs::AddVolumeNexus
    }

    /// The channel this message is sent on.
    pub fn channel(&self) -> (r: ChannelVs)
        ensures
            r == ChannelVs::Volume,
            Some(r) == message_channel(MessageIdVs::AddVolumeNexus),
    {
        ChannelVs::Volume
    }
}

impl RemoveVolumeNexus {
    /// The id of this message.
    pub fn id(&self) -> (r: MessageIdVs)
        ensures
            r == MessageIdVs::RemoveVolumeNexus,
    {
        MessageIdVs::RemoveVolumeNexus
    }

    /// The channel this message is sent on.
    pub fn channel(&self) -> (r: ChannelVs)
        ensures
            r == ChannelVs::Volume,
            Some(r) == message_channel(MessageIdVs::RemoveVolumeNexus),
    {
        ChannelVs::Volume
    }
}

impl JsonGrpcRequest {
    /// The id of this message.
    pub fn id(&self) -> (r: MessageIdVs)
        ensures
            r == MessageIdVs::JsonGrpc,
    {
        MessageIdVs::JsonGrpc
    }

    /// The channel this message is sent on.
    pub fn channel(&self) -> (r: ChannelVs)
        ensures
            r == ChannelVs::JsonGrpc,
            Some(r) == message_channel(MessageIdVs::JsonGrpc),
    {
        ChannelVs::JsonGrpc
    }
}

impl GetBlockDevices {
    /// The id of this message.
    pub fn id(&self) -> (r: MessageIdVs)
        ensures
            r == MessageIdVs::GetBlockDevices,
    {
        MessageIdVs::GetBlockDevices
    }

    /// The channel this message is sent on.
    pub fn channel(&self) -> (r: ChannelVs)
        ensures
            r == ChannelVs::Node,
            Some(r) == message_channel(MessageIdVs::GetBlockDevices),
    {
        ChannelVs::Node
    }
}

impl Watch {
    /// The id of this message.
    pub fn id(&self) -> (r: MessageIdVs)
        ensures
            r == MessageIdVs::CreateWatch,
    {
        MessageIdVs::CreateWatch
    }

    /// The channel this message is sent on.
    pub fn channel(&self) -> (r: ChannelVs)
        ensures
            r == ChannelVs::Watcher,
            Some(r) == message_channel(MessageIdVs::CreateWatch),
    {
        ChannelVs::Watcher
    }
}

impl GetWatchers {
    /// The id of this message.
    pub fn id(&self) -> (r: MessageIdVs)
        ensures
            r == MessageIdVs::GetWatches,
    {
        MessageIdVs::GetWatches
    }

    /// The channel this message is sent on.
    pub fn channel(&self) -> (r: ChannelVs)
        ensures
            r == ChannelVs::Watcher,
            Some(r) == message_channel(MessageIdVs::GetWatches),
    {
        ChannelVs::Watcher
    }
}

impl DeleteWatch {
    /// The id of this message.
    pub fn id(&self) -> (r: MessageIdVs)
        ensures
            r == MessageIdVs::DeleteWatch,
    {
        MessageIdVs::DeleteWatch
    }

    /// The channel this message is sent on.
    pub fn channel(&self) -> (r: ChannelVs)
        ensures
            r == ChannelVs::Watcher,
            Some(r) == message_channel(MessageIdVs::DeleteWatch),
    {
        ChannelVs::Watcher
    }
}

} // verus!
