//! Control-plane data model and decision logic for a storage cluster:
//! resource identifiers, message-bus types, persistent-store keys and
//! specs, and the pure decisions that the agents and tools take.
pub mod ids;
pub mod text;
pub mod pool_state;
pub mod v0;
pub mod store;
pub mod nexus_info;
pub mod etcd;
pub mod deployer;
pub mod testlib;
pub mod grpc;
pub mod openapi;
