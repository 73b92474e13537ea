use control_plane::ids::{ChildUri, NexusId, NodeId, PoolId, ReplicaId, VolumeId};
use control_plane::pool_state::PoolState;
use control_plane::store::StorableObjectType;
use control_plane::v0::{
    AddNexusChild, ChannelVs, ChildState, DestroyReplica, Filter, MessageIdVs, Nexus,
    NexusShareProtocol, NexusState, NodeState, Protocol, RemoveNexusChild, Replica, ReplicaOwners,
    ReplicaShareProtocol, ReplicaState, ShareNexus, ShareReplica, UnshareNexus, UnshareReplica,
    WatchCallback, WatchResourceId, WatchType,
};
use control_plane::v0::{CreatePool, CreateWatch, GetNodes, JsonGrpcRequest};
use std::cmp::Ordering;

fn replica() -> Replica {
    Replica {
        node: NodeId::from("mayastor-2"),
        uuid: ReplicaId::from("replica"),
        pool: PoolId::from("pooloop2"),
        thin: true,
        size: 12582912,
        share: Protocol::Nvmf,
        uri: "nvmf://10.1.0.5:8420/replica".to_string(),
        state: ReplicaState::Online,
    }
}

fn nexus() -> Nexus {
    Nexus {
        node: NodeId::from("mayastor"),
        uuid: NexusId::from("f086f12c-1728-449e-be32-9415051090d6"),
        size: 5242880,
        ..Default::default()
    }
}

#[test]
fn protocol_text_roundtrip() {
    for p in [Protocol::Off, Protocol::Nvmf, Protocol::Iscsi, Protocol::Nbd] {
        assert_eq!(Protocol::from_str(&p.to_string()), Some(p));
    }
    assert_eq!(Protocol::Nvmf.to_string(), "nvmf");
    assert_eq!(Protocol::from_str("Nvmf"), None);
    assert_eq!(NexusShareProtocol::Iscsi.to_string(), "iscsi");
    assert_eq!(ReplicaShareProtocol::from_str("nvmf"), Some(ReplicaShareProtocol::Nvmf));
    assert_eq!(ReplicaState::Degraded.to_string(), "degraded");
    assert_eq!(NexusState::Degraded.to_string(), "Degraded");
    assert_eq!(NodeState::from_str("Offline"), Some(NodeState::Offline));
    assert_eq!(PoolState::Faulted.to_string(), "Faulted");
    assert_eq!(PoolState::from_str("faulted"), None);
}

#[test]
fn channel_and_message_ids_are_camel_case() {
    assert_eq!(ChannelVs::JsonGrpc.to_string(), "jsonGrpc");
    assert_eq!(ChannelVs::from_str("kiiss"), Some(ChannelVs::Kiiss));
    assert_eq!(MessageIdVs::RemoveNexusChild.to_string(), "removeNexusChild");
    assert_eq!(MessageIdVs::from_str("getSpecs"), Some(MessageIdVs::GetSpecs));
    assert_eq!(MessageIdVs::from_str("GetSpecs"), None);
    assert_eq!(ChannelVs::default(), ChannelVs::Default);
    assert_eq!(MessageIdVs::default(), MessageIdVs::Default);
}

#[test]
fn wire_codes() {
    assert_eq!(Protocol::from(0), Protocol::Off);
    assert_eq!(Protocol::from(1), Protocol::Nvmf);
    assert_eq!(Protocol::from(2), Protocol::Iscsi);
    assert_eq!(Protocol::from(3), Protocol::Off);
    assert_eq!(Protocol::from(-1), Protocol::Off);
    assert_eq!(ReplicaState::from(3), ReplicaState::Faulted);
    assert_eq!(ReplicaState::from(0), ReplicaState::Unknown);
    assert_eq!(ChildState::from(1), ChildState::Online);
    assert_eq!(ChildState::from(7), ChildState::Unknown);
    assert_eq!(NexusState::from(2), NexusState::Degraded);
    assert_eq!(PoolState::from(1), PoolState::Online);
    assert_eq!(PoolState::from(4), PoolState::Unknown);
    assert_eq!(NexusShareProtocol::from(1), NexusShareProtocol::Nvmf);
    assert_eq!(NexusShareProtocol::from(2), NexusShareProtocol::Iscsi);
    assert_eq!(ReplicaShareProtocol::from(1), ReplicaShareProtocol::Nvmf);
}

#[test]
fn share_protocols_as_protocol() {
    assert_eq!(Protocol::from(NexusShareProtocol::Iscsi), Protocol::Iscsi);
    assert_eq!(Protocol::from(NexusShareProtocol::Nvmf), Protocol::Nvmf);
    assert_eq!(Protocol::from(ReplicaShareProtocol::Nvmf), Protocol::Nvmf);
}

#[test]
fn defaults() {
    assert_eq!(Protocol::default(), Protocol::Off);
    assert_eq!(NexusShareProtocol::default(), NexusShareProtocol::Nvmf);
    assert_eq!(ReplicaState::default(), ReplicaState::Unknown);
    assert_eq!(PoolState::default(), PoolState::Unknown);
    assert_eq!(WatchType::default(), WatchType::All);
    assert_eq!(Filter::default(), Filter::All);
    assert_eq!(WatchCallback::default(), WatchCallback::Uri(String::new()));
    assert_eq!(
        WatchResourceId::default(),
        WatchResourceId::Node(NodeId::from("00000000-0000-0000-0000-000000000000"))
    );
}

#[test]
fn pool_state_order() {
    assert_eq!(PoolState::Online.partial_cmp(&PoolState::Degraded), Some(Ordering::Greater));
    assert!(PoolState::Online > PoolState::Degraded);
    assert!(PoolState::Degraded > PoolState::Unknown);
    assert!(PoolState::Degraded > PoolState::Faulted);
    assert!(PoolState::Faulted < PoolState::Online);
    assert_eq!(PoolState::Unknown.partial_cmp(&PoolState::Faulted), None);
    assert_eq!(PoolState::Faulted.partial_cmp(&PoolState::Unknown), None);
    assert_eq!(PoolState::Unknown.partial_cmp(&PoolState::Unknown), None);
    assert_eq!(PoolState::Faulted.partial_cmp(&PoolState::Faulted), Some(Ordering::Equal));
}

#[test]
fn replica_requests_from_a_replica() {
    let r = replica();
    let share = ShareReplica::from(&r);
    assert_eq!(share.node, r.node);
    assert_eq!(share.pool, r.pool);
    assert_eq!(share.uuid, r.uuid);
    assert_eq!(share.protocol, ReplicaShareProtocol::Nvmf);
    let unshare = UnshareReplica::from(share.clone());
    assert_eq!(unshare, UnshareReplica::from(&r));
    assert_eq!(ShareReplica::from(unshare), share);
    let destroy = DestroyReplica::from(r.clone());
    assert_eq!(destroy.node, r.node);
    assert_eq!(destroy.pool, r.pool);
    assert_eq!(destroy.uuid, r.uuid);
}

#[test]
fn nexus_requests_from_a_nexus() {
    let n = nexus();
    let share = ShareNexus::from((&n, None, NexusShareProtocol::Nvmf));
    assert_eq!(share.node, n.node);
    assert_eq!(share.uuid, n.uuid);
    assert_eq!(share.key, None);
    assert_eq!(share.protocol, NexusShareProtocol::Nvmf);
    let unshare = UnshareNexus::from(share);
    assert_eq!(unshare, UnshareNexus::from(&n));
    let add = AddNexusChild {
        node: n.node.clone(),
        nexus: n.uuid.clone(),
        uri: ChildUri::from("malloc:///ch2?size_mb=12"),
        auto_rebuild: true,
    };
    let rm = RemoveNexusChild::from(add.clone());
    assert_eq!(rm.node, add.node);
    assert_eq!(rm.nexus, add.nexus);
    assert_eq!(rm.uri.as_str(), "malloc:///ch2?size_mb=12");
}

#[test]
fn replica_owners() {
    let v = VolumeId::from("359b7e1a-b724-443b-98b4-e6d97fabbb40");
    let owners = ReplicaOwners::new(&v);
    assert!(owners.is_owned());
    assert!(owners.owned_by(&v));
    assert!(!owners.owned_by(&VolumeId::from("other")));
    let none = ReplicaOwners::default();
    assert!(!none.is_owned());
    assert!(!none.owned_by(&v));
}

#[test]
fn watch_resource_text_and_keys() {
    let node = WatchResourceId::Node(NodeId::from("n1"));
    assert_eq!(node.to_string(), "node/n1");
    assert_eq!(node.key_type(), StorableObjectType::Node);
    assert_eq!(node.key_uuid(), "n1");
    let state = WatchResourceId::ReplicaState(ReplicaId::from("r1"));
    assert_eq!(state.to_string(), "replica_state/r1");
    assert_eq!(state.key_type(), StorableObjectType::ReplicaState);
    let spec = WatchResourceId::ReplicaSpec(ReplicaId::from("r1"));
    assert_eq!(spec.to_string(), "replica_spec/r1");
    assert_eq!(WatchResourceId::Replica(ReplicaId::from("r1")).to_string(), "replica/r1");
    assert_eq!(WatchResourceId::Pool(PoolId::from("p")).to_string(), "pool/p");
    assert_eq!(WatchResourceId::Nexus(NexusId::from("x")).key_type(), StorableObjectType::NexusSpec);
    assert_eq!(WatchResourceId::Volume(VolumeId::from("v")).to_string(), "volume/v");
    assert_eq!(WatchResourceId::Volume(VolumeId::from("v")).key_type(), StorableObjectType::VolumeSpec);
}

#[test]
fn message_routing() {
    assert_eq!(CreatePool::default().channel(), ChannelVs::Pool);
    assert_eq!(CreatePool::default().id(), MessageIdVs::CreatePool);
    assert_eq!(GetNodes {}.channel(), ChannelVs::Node);
    assert_eq!(ShareNexus::default().channel(), ChannelVs::Nexus);
    assert_eq!(JsonGrpcRequest::default().id(), MessageIdVs::JsonGrpc);
    assert_eq!(CreateWatch::default().id(), MessageIdVs::CreateWatch);
    assert_eq!(CreateWatch::default().channel(), ChannelVs::Watcher);
}

#[test]
fn watch_resource_texts_are_distinct() {
    let id = "x";
    let texts: Vec<String> = vec![
        WatchResourceId::Node(NodeId::from(id)),
        WatchResourceId::Pool(PoolId::from(id)),
        WatchResourceId::Replica(ReplicaId::from(id)),
        WatchResourceId::ReplicaState(ReplicaId::from(id)),
        WatchResourceId::ReplicaSpec(ReplicaId::from(id)),
        WatchResourceId::Nexus(NexusId::from(id)),
        WatchResourceId::Volume(VolumeId::from(id)),
    ]
    .iter()
    .map(|r| r.to_string())
    .collect();
    let mut unique = texts.clone();
    unique.sort();
    unique.dedup();
    assert_eq!(unique.len(), 7);
}

#[test]
fn filter_text() {
    assert_eq!(Filter::All.to_string(), "None");
    assert_eq!(Filter::Node(NodeId::from("n")).to_string(), "Node");
    assert_eq!(
        Filter::NodePoolReplica(NodeId::from("n"), PoolId::from("p"), ReplicaId::from("r")).to_string(),
        "NodePoolReplica"
    );
    assert_eq!(Filter::Volume(VolumeId::from("v")).to_string(), "Volume");
}

#[test]
fn wire_codes_of_enum_values() {
    assert_eq!(NexusShareProtocol::Nvmf.code(), 1);
    assert_eq!(NexusShareProtocol::Iscsi.code(), 2);
    assert_eq!(ReplicaShareProtocol::Nvmf.code(), 1);
    assert_eq!(NexusShareProtocol::from(NexusShareProtocol::Iscsi.code()), NexusShareProtocol::Iscsi);
    assert_eq!(ReplicaShareProtocol::from(ReplicaShareProtocol::Nvmf.code()), ReplicaShareProtocol::Nvmf);
    assert_eq!(Protocol::Off.code(), 0);
    assert_eq!(Protocol::Nbd.code(), 3);
    assert_eq!(ReplicaState::Faulted.code(), 3);
    assert_eq!(ChildState::Online.code(), 1);
    assert_eq!(NexusState::Degraded.code(), 2);
    assert_eq!(PoolState::Unknown.code(), 0);
    assert_eq!(PoolState::Degraded.code(), 2);
}
