//! Server state synchronization and control surface for remotely hosted
//! compute resources ("managed servers") bound to chat channels.
//!
//! The library holds the verified core: the per-resource lifecycle state
//! machine, the store of bound resources with its lookup, the renderer that
//! projects state into a UI artifact, the publisher bookkeeping that keeps at
//! most one live artifact per resource, and the dispatcher that turns UI
//! actions into control-plane power commands. All surrounding I/O (the chat
//! platform, the control plane's REST and websocket clients, configuration
//! files) lives outside the library and hands it plain values.

use vstd::prelude::*;

pub mod config;
pub mod dispatcher;
pub mod listener;
pub mod parse;
pub mod publisher;
pub mod render;
pub mod server;
pub mod server_config;

verus! {

/// Failure taxonomy of the control surface.
///
/// `NotFound` is a resource or channel lookup miss, `RemoteError` a
/// control-plane request failure, `PlatformError` a chat-platform API
/// failure, and `ParseError` a malformed channel or action identifier.
#[derive(Clone, Copy, Debug, PartialEq, Eq, Structural)]
pub enum Error {
    NotFound,
    RemoteError,
    PlatformError,
    ParseError,
}

} // verus!
