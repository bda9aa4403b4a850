//! The action dispatcher: from an inbound UI interaction to exactly one
//! control-plane power command.
//!
//! An interaction carries the channel it came from and an action token. The
//! dispatcher parses the token, resolves the acting resource by its bound
//! channel, and yields the one power command to send; an unknown token is a
//! `ParseError`, an unbound channel a `NotFound`, and in either failure no
//! command exists to send — the dispatcher itself never talks to the
//! control plane. The visible lifecycle state is left untouched: it updates
//! only through the next push event or refresher tick.

use vstd::prelude::*;

use crate::server::spec_action_from_token;
use crate::server::spec_first_match;
use crate::server::spec_no_match;
use crate::server::Server;
use crate::server::ServerActionButton;
use crate::Error;

verus! {

/// A power signal understood by the control plane.
#[derive(Clone, Copy, Debug, PartialEq, Eq, Structural)]
pub enum PowerSignal {
    Start,
    Stop,
    Restart,
    Kill,
}

/// The power signal a UI action stands for.
pub open spec fn spec_signal_of(a: ServerActionButton) -> PowerSignal {
    match a {
        ServerActionButton::Start => PowerSignal::Start,
        ServerActionButton::Stop => PowerSignal::Stop,
        ServerActionButton::Restart => PowerSignal::Restart,
        ServerActionButton::Kill => PowerSignal::Kill,
    }
}

/// Map a UI action to its control-plane power signal.
pub fn power_signal_of(action: ServerActionButton) -> (s: PowerSignal)
    ensures
        s == spec_signal_of(action),
{
    match action {
        ServerActionButton::Start => PowerSignal::Start,
        ServerActionButton::Stop => PowerSignal::Stop,
        ServerActionButton::Restart => PowerSignal::Restart,
        ServerActionButton::Kill => PowerSignal::Kill,
    }
}

/// The one control-plane command a dispatched action results in.
#[derive(Clone, Debug, PartialEq, Eq)]
pub struct PowerCommand {
    pub ptero_server_id: String,
    pub signal: PowerSignal,
}

/// Dispatch one inbound UI action: parse its token, resolve the acting
/// resource by the channel the interaction came from, and yield the power
/// command to send.
///
/// Returns `Ok` exactly when the token names an action and some record is
/// bound to the channel; the command then addresses the first such record
/// and carries the action's signal. An unknown token yields `ParseError`;
/// a known token on an unbound channel yields `NotFound`. No control-plane
/// call is made here in any case: a failure leaves nothing to send.
pub fn dispatch_action(servers: &Vec<Server>, source_channel_id: u64, action_token: &str) -> (r:
    Result<PowerCommand, Error>)
    ensures
        match r {
            Ok(cmd) => {
                &&& spec_action_from_token(action_token@) matches Some(a) && cmd.signal
                    == spec_signal_of(a)
                &&& exists|i: int|
                    spec_first_match(servers@, source_channel_id, i)
                        && cmd.ptero_server_id@ == servers@[i].config.ptero_server_id@
            },
            Err(e) => {
                ||| {
                    &&& e == Error::ParseError
                    &&& spec_action_from_token(action_token@) is None
                }
                ||| {
                    &&& e == Error::NotFound
                    &&& spec_action_from_token(action_token@) is Some
                    &&& spec_no_match(servers@, source_channel_id)
                }
            },
        },
{
    let action = match ServerActionButton::from_token(action_token) {
        Ok(a) => a,
        Err(e) => {
            return Err(e);
        },
    };
    let idx = match Server::find_by_discord_channel_id(servers, source_channel_id) {
        Ok(i) => i,
        Err(e) => {
            return Err(e);
        },
    };
    let cmd = PowerCommand {
        ptero_server_id: servers[idx].config.ptero_server_id.clone(),
        signal: power_signal_of(action),
    };
    proof {
        assert(spec_first_match(servers@, source_channel_id, idx as int));
    }
    Ok(cmd)
}

} // verus!
