//! The session protocol between two nodes.
pub mod client;
pub mod codec;
pub mod message;
pub mod proto;
pub mod server;
