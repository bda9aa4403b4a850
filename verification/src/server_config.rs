//! Persisted binding record: which remote resource is shown in which chat
//! channel, and under what display name.

use vstd::prelude::*;

use crate::parse::spec_parse_u64;
use crate::parse::parse_u64;
use crate::Error;

verus! {

/// One persisted binding between a managed server and a chat channel.
///
/// `ptero_server_id` is the opaque identifier issued by the control plane,
/// `discord_channel_id` the bound channel's identifier as a decimal string,
/// and `discord_channle_name` the display name used when rendering.
#[derive(Clone, Debug, PartialEq, Eq)]
pub struct ServerConfig {
    pub ptero_server_id: String,
    pub discord_channel_id: String,
    pub discord_channle_name: String,
}

impl ServerConfig {
    /// Build a binding record for a newly added server. A channel
    /// identifier that is not a decimal number is rejected with
    /// `ParseError` before anything is persisted.
    pub fn new(
        ptero_server_id: String,
        discord_channel_id: String,
        discord_channle_name: String,
    ) -> (r: Result<ServerConfig, Error>)
        ensures
            match r {
                Ok(c) => {
                    &&& spec_parse_u64(discord_channel_id@) is Some
                    &&& c.ptero_server_id == ptero_server_id
                    &&& c.discord_channel_id == discord_channel_id
                    &&& c.discord_channle_name == discord_channle_name
                },
                Err(e) => {
                    &&& e == Error::ParseError
                    &&& spec_parse_u64(discord_channel_id@) is None
                },
            },
    {
        match parse_u64(discord_channel_id.as_str()) {
            Some(_) => Ok(
                ServerConfig { ptero_server_id, discord_channel_id, discord_channle_name },
            ),
            None => Err(Error::ParseError),
        }
    }
}

} // verus!
