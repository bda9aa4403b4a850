//! The configuration held in memory: the ordered list of persisted
//! bindings the process was started with. Reading it from and writing it
//! back to disk happens outside the library.

use vstd::prelude::*;

use crate::server_config::ServerConfig;

verus! {

/// The process configuration: one binding record per managed server, in
/// the order they were added.
#[derive(Clone, Debug, PartialEq, Eq)]
pub struct Config {
    pub servers: Vec<ServerConfig>,
}

impl Config {
    /// An empty configuration.
    pub fn new() -> (c: Config)
        ensures
            c.servers@ == Seq::<ServerConfig>::empty(),
    {
        Config { servers: Vec::new() }
    }

    /// Append one binding to the configuration; every existing binding
    /// keeps its place. The caller persists the new configuration.
    pub fn add_server(&mut self, server_config: ServerConfig)
        ensures
            final(self).servers@ == old(self).servers@.push(server_config),
    {
        self.servers.push(server_config);
    }
}

} // verus!
