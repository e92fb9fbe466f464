//! The server side of a connection.
pub mod session;
pub mod store;

use vstd::prelude::*;

verus! {

/// How a node listens and how it lets itself be found.
#[derive(Debug)]
pub struct RemoteServerConfig {
    /// The address that the server listens on.
    pub listen_addr: String,
    /// The address under which other nodes reach this node.
    pub external_node_addr: String,
    /// Whether the address that a connecting node announces for itself is
    /// replaced by the address that the connection comes from.
    pub override_incoming_node_addr: bool,
}

impl Clone for RemoteServerConfig {
    fn clone(&self) -> (config: RemoteServerConfig)
        ensures
            config == *self,
    {
        RemoteServerConfig {
            listen_addr: self.listen_addr.clone(),
            external_node_addr: self.external_node_addr.clone(),
            override_incoming_node_addr: self.override_incoming_node_addr,
        }
    }
}

} // verus!
