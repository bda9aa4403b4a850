//! The managed-server record and the store lookup.
//!
//! A `Server` is the authoritative record for one remotely hosted resource:
//! its control-plane identifier, the chat channel it is bound to, its last
//! known lifecycle state, and the handle of the one live UI artifact
//! published for it. A `Vec<Server>` is the state store; lookup by channel
//! identifier returns the first bound record or `NotFound`.

use vstd::prelude::*;

use crate::parse::spec_parse_u64;
use crate::parse::parse_u64;
use crate::server_config::ServerConfig;
use crate::Error;

verus! {

/// Lifecycle state of a managed server, as reported by the control plane.
///
/// Only push events from the control plane move a record between these
/// states; the library never infers a transition on its own.
#[derive(Clone, Copy, Debug, PartialEq, Eq, Structural)]
pub enum ServerState {
    Offline,
    Starting,
    Running,
    Stopping,
}

/// A UI action offered on a rendered artifact.
#[derive(Clone, Copy, Debug, PartialEq, Eq, Structural)]
pub enum ServerActionButton {
    Start,
    Stop,
    Restart,
    Kill,
}

/// The token under which an action is carried by an interaction event.
pub open spec fn spec_action_token(a: ServerActionButton) -> Seq<char> {
    match a {
        ServerActionButton::Start => "Start"@,
        ServerActionButton::Stop => "Stop"@,
        ServerActionButton::Restart => "Restart"@,
        ServerActionButton::Kill => "Kill"@,
    }
}

/// The action named by a token, or `None` for any other string.
pub open spec fn spec_action_from_token(s: Seq<char>) -> Option<ServerActionButton> {
    if s == "Start"@ {
        Some(ServerActionButton::Start)
    } else if s == "Stop"@ {
        Some(ServerActionButton::Stop)
    } else if s == "Restart"@ {
        Some(ServerActionButton::Restart)
    } else if s == "Kill"@ {
        Some(ServerActionButton::Kill)
    } else {
        None
    }
}

/// String equality by contents.
fn str_eq(a: &str, b: &str) -> (r: bool)
    ensures
        r == (a@ == b@),
{
    let a1: String = a.to_owned();
    let b1: String = b.to_owned();
    a1 == b1
}

impl ServerActionButton {
    /// The token this action travels under in an interaction event.
    pub fn to_token(&self) -> (r: &'static str)
        ensures
            r@ == spec_action_token(*self),
    {
        match self {
            ServerActionButton::Start => "Start",
            ServerActionButton::Stop => "Stop",
            ServerActionButton::Restart => "Restart",
            ServerActionButton::Kill => "Kill",
        }
    }

    /// Parse an interaction token back into an action; any unknown token is
    /// a `ParseError`.
    pub fn from_token(s: &str) -> (r: Result<ServerActionButton, Error>)
        ensures
            r == match spec_action_from_token(s@) {
                Some(a) => Ok::<ServerActionButton, Error>(a),
                None => Err::<ServerActionButton, Error>(Error::ParseError),
            },
    {
        if str_eq(s, "Start") {
            Ok(ServerActionButton::Start)
        } else if str_eq(s, "Stop") {
            Ok(ServerActionButton::Stop)
        } else if str_eq(s, "Restart") {
            Ok(ServerActionButton::Restart)
        } else if str_eq(s, "Kill") {
            Ok(ServerActionButton::Kill)
        } else {
            Err(Error::ParseError)
        }
    }
}

/// One managed server: identity, binding, lifecycle state, and the handle of
/// its one live artifact (`None` until the first publish).
#[derive(Clone, Debug, PartialEq, Eq)]
pub struct Server {
    pub config: ServerConfig,
    pub discord_channel_id: u64,
    pub server_state: ServerState,
    pub discord_msg: Option<u64>,
}

/// `i` is the index the store lookup yields for `channel`: the first record
/// bound to that channel identifier.
pub open spec fn spec_first_match(servers: Seq<Server>, channel: u64, i: int) -> bool {
    &&& 0 <= i < servers.len()
    &&& servers[i].discord_channel_id == channel
    &&& forall|j: int| 0 <= j < i ==> servers[j].discord_channel_id != channel
}

/// No record in the store is bound to `channel`.
pub open spec fn spec_no_match(servers: Seq<Server>, channel: u64) -> bool {
    forall|j: int| 0 <= j < servers.len() ==> servers[j].discord_channel_id != channel
}

/// One record per channel: no two records in the store share a bound
/// channel identifier.
pub open spec fn unique_channel_bindings(servers: Seq<Server>) -> bool {
    forall|i: int, j: int|
        0 <= i < j < servers.len() ==> servers[i].discord_channel_id
            != servers[j].discord_channel_id
}

impl Server {
    /// The numeric channel key agrees with the decimal string in the
    /// persisted binding.
    pub open spec fn wf(&self) -> bool {
        spec_parse_u64(self.config.discord_channel_id@) == Some(self.discord_channel_id)
    }

    /// Build the record for one persisted binding: state starts `Offline`
    /// and no artifact is published yet. A binding whose channel identifier
    /// is not a decimal number is rejected with `ParseError`.
    pub fn new(config: ServerConfig) -> (r: Result<Server, Error>)
        ensures
            match r {
                Ok(srv) => {
                    &&& srv.wf()
                    &&& srv.config == config
                    &&& Some(srv.discord_channel_id) == spec_parse_u64(
                        config.discord_channel_id@,
                    )
                    &&& srv.server_state == ServerState::Offline
                    &&& srv.discord_msg is None
                },
                Err(e) => {
                    &&& e == Error::ParseError
                    &&& spec_parse_u64(config.discord_channel_id@) is None
                },
            },
    {
        match parse_u64(config.discord_channel_id.as_str()) {
            Some(id) => Ok(
                Server {
                    config,
                    discord_channel_id: id,
                    server_state: ServerState::Offline,
                    discord_msg: None,
                },
            ),
            None => Err(Error::ParseError),
        }
    }

    /// Look a channel up in the store: the first record bound to
    /// `discord_channel_id`, or `NotFound` when no record is. Total over
    /// every store and every channel identifier.
    pub fn find_by_discord_channel_id(servers: &Vec<Server>, discord_channel_id: u64) -> (r:
        Result<usize, Error>)
        ensures
            match r {
                Ok(i) => spec_first_match(servers@, discord_channel_id, i as int),
                Err(e) => e == Error::NotFound && spec_no_match(servers@, discord_channel_id),
            },
    {
        let n = servers.len();
        let mut i: usize = 0;
        while i < n
            invariant
                n == servers@.len(),
                i <= n,
                forall|j: int| 0 <= j < i ==> servers@[j].discord_channel_id != discord_channel_id,
            decreases n - i,
        {
            if servers[i].discord_channel_id == discord_channel_id {
                return Ok(i);
            }
            i = i + 1;
        }
        Err(Error::NotFound)
    }
}

/// Law: under the store invariant (one record per channel), the index the
/// lookup returns is the only one bound to that channel — lookup-by-channel
/// is unambiguous.
pub proof fn lemma_lookup_unambiguous(servers: Seq<Server>, i: int, j: int, id: u64)
    requires
        unique_channel_bindings(servers),
        0 <= i < servers.len(),
        0 <= j < servers.len(),
        servers[i].discord_channel_id == id,
        servers[j].discord_channel_id == id,
    ensures
        i == j,
{
}

} // verus!
