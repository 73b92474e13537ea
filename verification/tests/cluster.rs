use control_plane::deployer::{Mayastor, NatsArg, Nats, StartOptions};
use control_plane::grpc::{CreatePoolRequest, DestroyPoolRequest, PoolInfo, PoolLabel};
use control_plane::openapi::{self, NodeRow, NodeStatus, UncordonReport};
use control_plane::testlib::{
    bus_timeout_opts, option_str, replica, test_verdict, ClusterBuilder, PoolDisk, RestOutcome,
    TestVerdict, TimeoutOptions,
};
use control_plane::v0::Protocol;
use std::collections::HashMap;

fn options(mayastors: u32) -> StartOptions {
    StartOptions { mayastors, ..Default::default() }
}

#[test]
fn mayastor_names() {
    assert_eq!(Mayastor::name(0, &options(1)), "mayastor");
    assert_eq!(Mayastor::name(5, &options(1)), "mayastor");
    assert_eq!(Mayastor::name(0, &options(2)), "mayastor-1");
    assert_eq!(Mayastor::name(1, &options(2)), "mayastor-2");
    assert_eq!(Mayastor::name(9, &options(12)), "mayastor-10");
    assert_eq!(Mayastor::names(&options(3)), vec!["mayastor-1", "mayastor-2", "mayastor-3"]);
    assert!(Mayastor::names(&options(0)).is_empty());
}

#[test]
fn mayastor_binaries() {
    let opts = options(2);
    assert!(Mayastor::supported(&opts));
    let b = Mayastor::binary(1, &opts, "10.1.0.5");
    assert_eq!(b.name, "mayastor-2");
    assert_eq!(b.nats, NatsArg::Composer);
    assert_eq!(b.grpc_endpoint, "10.1.0.5:10124");
    assert_eq!(b.program, "mayastor");
    assert_eq!(b.args, vec!["-N", "mayastor-2", "-g", "10.1.0.5:10124"]);

    let single = StartOptions {
        mayastors: 1,
        grpc_mayastor_ip: Some("0.0.0.0:10124".to_string()),
        nats_server: Some("10.0.0.1:4222".to_string()),
        ..Default::default()
    };
    assert!(Mayastor::supported(&single));
    let b = Mayastor::binary(0, &single, "10.1.0.5");
    assert_eq!(b.name, "mayastor");
    assert_eq!(b.nats, NatsArg::Server("10.0.0.1:4222".to_string()));
    assert_eq!(b.grpc_endpoint, "0.0.0.0:10124");
    assert_eq!(b.program, "mayastor");
    assert_eq!(b.args, vec!["-N", "mayastor", "-n", "10.0.0.1:4222", "-g", "0.0.0.0:10124"]);

    let many = StartOptions { mayastors: 2, ..single };
    assert!(!Mayastor::supported(&many));
}

#[test]
fn nats_plan() {
    let own = Nats::plan(&options(1));
    assert!(own.start_container);
    assert_eq!(own.endpoint, "nats");
    let c = own.container.expect("own NATS container");
    assert_eq!(c.name, "nats");
    assert_eq!(c.program, "nats-server");
    assert_eq!(c.args, vec!["-DV"]);
    assert_eq!((c.host_port.as_str(), c.container_port.as_str()), ("4222", "4222"));
    let given = Nats::plan(&StartOptions { nats_server: Some("bus:4222".to_string()), ..options(1) });
    assert!(!given.start_container);
    assert_eq!(given.endpoint, "bus:4222");
    assert!(given.container.is_none());
}

#[test]
fn replica_ids() {
    assert_eq!(replica(0, 0, 0).as_str(), "00000000-0000-0000-0000-000000000000");
    assert_eq!(replica(1, 2, 3).as_str(), "00000000-0000-0000-0000-010200000003");
    assert_eq!(replica(10, 11, 0xabcdef).as_str(), "00000000-0000-0000-0000-0a0b00abcdef");
    // node and pool are taken modulo 256
    assert_eq!(replica(256 + 15, 255, 1).as_str(), "00000000-0000-0000-0000-0fff00000001");
    // every id has the length of a UUID
    assert_eq!(replica(255, 255, u32::MAX).as_str(), "00000000-0000-0000-0000-ffffffffffff");
    // two digits for the node and the pool keep ids apart
    assert_ne!(replica(1, 16, 0).as_str(), replica(17, 0, 0).as_str());
    assert_ne!(replica(1, 35, 0).as_str(), replica(18, 3, 0).as_str());
}

#[test]
fn cluster_layout() {
    let b = ClusterBuilder::builder()
        .with_mayastors(2)
        .with_pools(1)
        .with_pool("aio:///dev/sdb")
        .with_replicas(2, 1048576, Protocol::Nvmf)
        .with_tracing(false);
    assert!(!b.trace);
    assert_eq!(b.node(1).as_str(), "mayastor-2");
    assert_eq!(b.pool(0, 0).as_str(), "mayastor-1-pool-1");
    let pools = b.pools();
    assert_eq!(pools.len(), 4);
    assert_eq!(pools[0].node, "mayastor-1");
    assert_eq!(pools[0].index, 1);
    assert_eq!(pools[0].disk, PoolDisk::Malloc(104857600));
    assert_eq!(pools[0].disk(), "malloc:///disk1?size_mb=100");
    assert_eq!(pools[0].id().as_str(), "mayastor-1-pool-1");
    assert_eq!(pools[1].disk(), "aio:///dev/sdb");
    assert_eq!(pools[1].id().as_str(), "mayastor-1-pool-2");
    assert_eq!(pools[3].node, "mayastor-2");
    assert_eq!(pools[3].id().as_str(), "mayastor-2-pool-2");
    let r = &pools[3].replicas[1];
    assert_eq!(r.node.as_str(), "mayastor-2");
    assert_eq!(r.uuid.as_str(), "00000000-0000-0000-0000-010100000001");
    assert_eq!(r.pool.as_str(), "mayastor-2-pool-2");
    assert_eq!(r.size, 1048576);
    assert!(!r.thin);
    assert!(!r.managed);
    assert_eq!(r.share, Protocol::Nvmf);
    assert!(!r.owners.is_owned());
}

#[test]
fn default_builder_has_one_node_and_no_pools() {
    let b = ClusterBuilder::builder();
    assert_eq!(b.opts.mayastors, 1);
    assert!(b.trace);
    assert!(b.pools().is_empty());
    assert_eq!(b.node(0).as_str(), "mayastor");
}

#[test]
fn option_text() {
    assert_eq!(option_str(Some("cmd".to_string())), "cmd");
    assert_eq!(option_str(None), "?");
}

#[test]
fn test_verdicts() {
    assert_eq!(test_verdict(true, RestOutcome::Succeeded), TestVerdict::Pass);
    assert_eq!(test_verdict(false, RestOutcome::ServerError), TestVerdict::Pass);
    assert_eq!(test_verdict(false, RestOutcome::OtherError), TestVerdict::InvalidResponse);
    assert_eq!(test_verdict(true, RestOutcome::ServerError), TestVerdict::UnexpectedFailure);
    assert_eq!(test_verdict(true, RestOutcome::OtherError), TestVerdict::UnexpectedFailure);
    assert_eq!(test_verdict(false, RestOutcome::Succeeded), TestVerdict::UnexpectedSuccess);
}

#[test]
fn pool_info_of_requests() {
    let mut labels = HashMap::new();
    labels.insert("tier".to_string(), "fast".to_string());
    let req = CreatePoolRequest {
        pool_id: "p1".to_string(),
        node_id: "n1".to_string(),
        disks: vec![],
        labels: Some(PoolLabel { labels: labels.clone() }),
    };
    assert_eq!(req.pool_id(), "p1");
    assert_eq!(req.node_id(), "n1");
    assert_eq!(req.disks(), Some(vec![]));
    assert_eq!(req.labels(), Some(labels));
    assert_eq!(CreatePoolRequest::from(&req), req);

    let with_disks = CreatePoolRequest { disks: vec!["/dev/sda".to_string()], ..req.clone() };
    assert_eq!(with_disks.disks(), None);

    let destroy = DestroyPoolRequest { pool_id: "p1".to_string() };
    assert_eq!(destroy.pool_id(), "p1");
    assert_eq!(destroy.node_id(), "");
    assert_eq!(destroy.disks(), None);
    assert_eq!(destroy.labels(), None);
}

#[test]
fn node_rows() {
    let spec = openapi::NodeSpec::new("10.1.0.4:10124".to_string(), "n1".to_string(), vec!["c".to_string()]);
    let offline = openapi::Node { id: "n1".to_string(), spec: Some(spec.clone()), state: None };
    assert_eq!(
        offline.create_rows(),
        vec![NodeRow {
            id: "n1".to_string(),
            grpc_endpoint: "10.1.0.4:10124".to_string(),
            status: NodeStatus::Unknown,
            cordoned: true,
        }]
    );
    let online = openapi::Node {
        id: "n1".to_string(),
        spec: None,
        state: Some(openapi::NodeState {
            id: "n1".to_string(),
            grpc_endpoint: "10.1.0.9:10124".to_string(),
            status: NodeStatus::Online,
        }),
    };
    assert_eq!(
        online.create_rows(),
        vec![NodeRow {
            id: "n1".to_string(),
            grpc_endpoint: "10.1.0.9:10124".to_string(),
            status: NodeStatus::Online,
            cordoned: false,
        }]
    );
    assert_eq!(openapi::uncordon_report(&offline), UncordonReport::LabelsRemain(vec!["c".to_string()]));
    assert_eq!(openapi::uncordon_report(&online), UncordonReport::Uncordoned);
}

#[test]
fn volume_model() {
    let v = openapi::Volume::new(1u32, "online");
    assert_eq!(v.spec, 1);
    assert_eq!(v.state, "online");
    assert_eq!(openapi::Volume::new_all(2u8, 3u8), openapi::Volume { spec: 2, state: 3 });
}

#[test]
fn layout_ids_are_unique() {
    let b = ClusterBuilder::builder().with_mayastors(3).with_pools(2).with_replicas(3, 1, Protocol::Off);
    let pools = b.pools();
    let mut pool_ids: Vec<String> = pools.iter().map(|p| p.id().as_str().to_string()).collect();
    pool_ids.sort();
    pool_ids.dedup();
    assert_eq!(pool_ids.len(), 6);
    let mut replica_ids: Vec<String> = pools
        .iter()
        .flat_map(|p| p.replicas.iter().map(|r| r.uuid.as_str().to_string()))
        .collect();
    replica_ids.sort();
    replica_ids.dedup();
    assert_eq!(replica_ids.len(), 18);
    let names = Mayastor::names(&options(12));
    let mut unique = names.clone();
    unique.sort();
    unique.dedup();
    assert_eq!(unique.len(), 12);
}

#[test]
fn node_status_text() {
    assert_eq!(NodeStatus::Unknown.to_string(), "Unknown");
    assert_eq!(NodeStatus::Online.to_string(), "Online");
    assert_eq!(NodeStatus::Offline.to_string(), "Offline");
}

#[test]
fn cluster_timeouts() {
    let opts = bus_timeout_opts();
    assert_eq!(opts.timeout_ms, Some(500));
    assert_eq!(opts.timeout_backoff_ms, Some(500));
    assert_eq!(opts.max_retries, Some(2));
    let b = ClusterBuilder::builder();
    assert_eq!(b.rest_timeout_ms, 3000);
    assert_eq!(b.bus_timeout, opts);
    let none = TimeoutOptions::default();
    assert_eq!((none.timeout_ms, none.timeout_backoff_ms, none.max_retries), (None, None, None));
    let b = b.with_bus_timeouts(none.with_max_retries(7)).with_rest_timeout(10);
    assert_eq!(b.bus_timeout.max_retries, Some(7));
    assert_eq!(b.bus_timeout.timeout_ms, None);
    assert_eq!(b.rest_timeout_ms, 10);
    assert!(b.trace);
}

#[test]
fn cluster_pool_requests() {
    let b = ClusterBuilder::builder()
        .with_mayastors(2)
        .with_pools(1)
        .with_pool("aio:///dev/sdb");
    let requests = b.pool_requests();
    assert_eq!(requests.len(), 4);
    assert_eq!(requests[0].node.as_str(), "mayastor-1");
    assert_eq!(requests[0].id.as_str(), "mayastor-1-pool-1");
    assert_eq!(requests[0].disks, vec!["malloc:///disk1?size_mb=100".to_string()]);
    assert_eq!(requests[3].node.as_str(), "mayastor-2");
    assert_eq!(requests[3].id.as_str(), "mayastor-2-pool-2");
    assert_eq!(requests[3].disks, vec!["aio:///dev/sdb".to_string()]);
    let pools = b.pools();
    let first = pools[2].create_request();
    assert_eq!(first.id.as_str(), "mayastor-2-pool-1");
    assert_eq!(first.disks, vec!["malloc:///disk1?size_mb=100".to_string()]);
}
