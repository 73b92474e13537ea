use control_plane::ids::{NexusId, NodeId, ReplicaId, VolumeId};
use control_plane::nexus_info::{ChildInfo, NexusInfo, NexusInfoKey};
use control_plane::openapi;
use control_plane::store::{NodeSpec, NodeSpecKey, StorableObjectType};
use std::collections::HashMap;

fn spec(labels: Option<Vec<&str>>) -> NodeSpec {
    let mut node_labels = HashMap::new();
    node_labels.insert("zone".to_string(), "a".to_string());
    NodeSpec::new(
        NodeId::from("node-1"),
        "10.1.0.4:10124".to_string(),
        node_labels,
        labels.map(|l| l.into_iter().map(|s| s.to_string()).collect()),
    )
}

#[test]
fn node_spec_fields() {
    let s = spec(None);
    assert_eq!(s.id().as_str(), "node-1");
    assert_eq!(s.endpoint(), "10.1.0.4:10124");
    assert_eq!(s.labels().get("zone"), Some(&"a".to_string()));
    assert!(!s.cordoned());
    assert!(s.cordon_labels().is_empty());
    assert_eq!(s.uuid().as_str(), "node-1");
    let key = s.key();
    assert_eq!(key.key_type(), StorableObjectType::NodeSpec);
    assert_eq!(key.key_uuid(), "node-1");
    assert_eq!(NodeSpecKey::from(&NodeId::from("x")).key_uuid(), "x");
}

#[test]
fn node_spec_set_endpoint() {
    let mut s = spec(Some(vec!["a"]));
    s.set_endpoint("10.1.0.5:10124".to_string());
    assert_eq!(s.endpoint(), "10.1.0.5:10124");
    assert_eq!(s.cordon_labels(), vec!["a".to_string()]);
}

#[test]
fn cordon_then_uncordon() {
    let mut s = spec(None);
    s.cordon("maintenance".to_string());
    assert!(s.cordoned());
    assert_eq!(s.cordon_labels(), vec!["maintenance".to_string()]);
    s.uncordon("maintenance".to_string());
    assert!(!s.cordoned());
}

#[test]
fn uncordon_unknown_label_changes_nothing() {
    let mut s = spec(Some(vec!["a", "b"]));
    s.uncordon("c".to_string());
    assert_eq!(s.cordon_labels(), vec!["a".to_string(), "b".to_string()]);
    assert!(s.cordoned());
}

#[test]
fn uncordon_removes_one_label() {
    let mut s = spec(Some(vec!["a", "b", "c"]));
    s.uncordon("b".to_string());
    assert_eq!(s.cordon_labels(), vec!["a".to_string(), "c".to_string()]);
    s.uncordon("a".to_string());
    s.uncordon("c".to_string());
    assert!(!s.cordoned());
}

#[test]
fn node_spec_as_rest_model() {
    let s = spec(Some(vec!["x"]));
    let model = openapi::NodeSpec::from(s);
    assert_eq!(model.id, "node-1");
    assert_eq!(model.grpc_endpoint, "10.1.0.4:10124");
    assert_eq!(model.cordon_labels, vec!["x".to_string()]);
}

fn info() -> NexusInfo {
    NexusInfo {
        uuid: NexusId::from("nexus-1"),
        volume_uuid: Some(VolumeId::from("vol-1")),
        clean_shutdown: false,
        children: vec![
            ChildInfo { uuid: "r1".to_string(), healthy: true },
            ChildInfo { uuid: "r2".to_string(), healthy: false },
            ChildInfo { uuid: "r1".to_string(), healthy: false },
        ],
    }
}

#[test]
fn replica_health() {
    let i = info();
    assert!(i.is_replica_healthy(&ReplicaId::from("r1")));
    assert!(!i.is_replica_healthy(&ReplicaId::from("r2")));
    assert!(!i.is_replica_healthy(&ReplicaId::from("r3")));
    assert!(!NexusInfo::default().is_replica_healthy(&ReplicaId::from("r1")));
}

#[test]
fn nexus_info_keys() {
    let i = info();
    assert_eq!(i.key().key_in_namespace("default"), "/namespace/default/volume/vol-1/nexus/nexus-1/info");
    let k = NexusInfoKey::from(&NexusId::from("n2"));
    assert_eq!(k.key_in_namespace("ns"), "/namespace/ns/nexus/n2/info");
    let v = VolumeId::from("v3");
    let n = NexusId::from("n3");
    let k = NexusInfoKey::from((&v, &n));
    assert_eq!(k.key_in_namespace("ns"), "/namespace/ns/volume/v3/nexus/n3/info");
}

#[test]
fn uncordon_unsorted_labels_removes_the_label() {
    let mut s = spec(Some(vec!["b", "a"]));
    s.uncordon("b".to_string());
    assert_eq!(s.cordon_labels(), vec!["a".to_string()]);
    assert!(s.cordoned());
    assert_eq!(s.endpoint(), "10.1.0.4:10124");
    assert_eq!(s.id().as_str(), "node-1");
}

#[test]
fn uncordon_removes_the_first_occurrence_only() {
    let mut s = spec(Some(vec!["z", "m", "z", "a"]));
    s.uncordon("z".to_string());
    assert_eq!(s.cordon_labels(), vec!["m".to_string(), "z".to_string(), "a".to_string()]);
}

#[test]
fn cordon_with_a_label_already_there_then_uncordon_keeps_the_count() {
    let mut s = spec(Some(vec!["x", "y"]));
    s.cordon("x".to_string());
    s.uncordon("x".to_string());
    assert_eq!(s.cordon_labels(), vec!["y".to_string(), "x".to_string()]);
}

#[test]
fn cordon_with_a_new_label_then_uncordon_restores() {
    let mut s = spec(Some(vec!["zeta", "beta"]));
    s.cordon("gamma".to_string());
    s.uncordon("gamma".to_string());
    assert_eq!(s.cordon_labels(), vec!["zeta".to_string(), "beta".to_string()]);
}

#[test]
fn cordon_with_a_new_last_label_then_uncordon_restores() {
    let mut s = spec(Some(vec!["alpha", "beta"]));
    s.cordon("gamma".to_string());
    assert_eq!(s.cordon_labels().len(), 3);
    s.uncordon("gamma".to_string());
    assert_eq!(s.cordon_labels(), vec!["alpha".to_string(), "beta".to_string()]);
}

#[test]
fn nexus_keys_with_and_without_volume_differ() {
    let n = NexusId::from("n");
    let v = VolumeId::from("v");
    assert_ne!(
        NexusInfoKey::from(&n).key_in_namespace("ns"),
        NexusInfoKey::from((&v, &n)).key_in_namespace("ns")
    );
}

#[test]
fn nexus_keys_identify_volume_and_nexus() {
    let key = |v: Option<&str>, n: &str| {
        let n = NexusId::from(n);
        match v {
            Some(v) => NexusInfoKey::from((&VolumeId::from(v), &n)).key_in_namespace("ns"),
            None => NexusInfoKey::from(&n).key_in_namespace("ns"),
        }
    };
    let keys = vec![
        key(Some("v1"), "n1"),
        key(Some("v1"), "n2"),
        key(Some("v2"), "n1"),
        key(Some("v1n"), "1"),
        key(None, "n1"),
        key(None, "v1"),
    ];
    for (i, a) in keys.iter().enumerate() {
        for (j, b) in keys.iter().enumerate() {
            assert_eq!(i == j, a == b);
        }
    }
    // a volume id holding '/' can make two keys meet
    assert_eq!(key(Some("v/nexus/x"), "y"), key(Some("v"), "x/nexus/y"));
}
