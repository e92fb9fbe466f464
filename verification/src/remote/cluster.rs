//! Cluster membership and sharding.
pub mod discovery;
pub mod node;
pub mod registry;
pub mod sharding;
