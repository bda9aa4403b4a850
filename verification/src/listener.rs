//! The status listener's decision core: how one push event changes a
//! managed-server record.
//!
//! The surrounding task owns the subscription and its reconnect policy; the
//! library decides, for each event, what the single writer does to the
//! record and whether a re-render is due. Only a `Status` event changes
//! anything, and it changes `server_state` alone.

use vstd::prelude::*;

use crate::server::Server;
use crate::server::ServerState;

verus! {

/// One notification from a resource's push stream.
///
/// `Ready` announces the subscription; `Status` carries a new lifecycle
/// state; console output and statistics are delivered but ignored by this
/// core.
#[derive(Clone, Copy, Debug, PartialEq, Eq, Structural)]
pub enum PushEvent {
    Ready,
    Status(ServerState),
    ConsoleOutput,
    Stats,
}

/// The record after one push event: a `Status` event overwrites
/// `server_state`, every other event leaves the record unchanged.
pub open spec fn spec_apply(srv: Server, event: PushEvent) -> Server {
    match event {
        PushEvent::Status(state) => Server { server_state: state, ..srv },
        _ => srv,
    }
}

/// Whether an event triggers a render-and-publish cycle: exactly the
/// `Status` events do.
pub open spec fn spec_render_needed(event: PushEvent) -> bool {
    event is Status
}

/// The record after a whole sequence of push events, applied in order.
pub open spec fn spec_apply_all(srv: Server, events: Seq<PushEvent>) -> Server
    decreases events.len(),
{
    if events.len() == 0 {
        srv
    } else {
        spec_apply_all(spec_apply(srv, events[0]), events.drop_first())
    }
}

/// Apply one push event to the record. Returns whether the caller owes a
/// render-and-publish cycle for this resource.
pub fn apply_event(server: &mut Server, event: PushEvent) -> (render: bool)
    ensures
        *final(server) == spec_apply(*old(server), event),
        render == spec_render_needed(event),
{
    match event {
        PushEvent::Status(state) => {
            server.server_state = state;
            true
        },
        _ => false,
    }
}

/// Law: a push event only ever writes `server_state` — the identity, the
/// binding, and the published artifact handle survive every event.
pub proof fn lemma_apply_preserves_identity(srv: Server, event: PushEvent)
    ensures
        spec_apply(srv, event).config == srv.config,
        spec_apply(srv, event).discord_channel_id == srv.discord_channel_id,
        spec_apply(srv, event).discord_msg == srv.discord_msg,
{
}

/// Law: a whole sequence of push events preserves the identity, the
/// binding, and the published artifact handle.
pub proof fn lemma_apply_all_preserves_identity(srv: Server, events: Seq<PushEvent>)
    ensures
        spec_apply_all(srv, events).config == srv.config,
        spec_apply_all(srv, events).discord_channel_id == srv.discord_channel_id,
        spec_apply_all(srv, events).discord_msg == srv.discord_msg,
    decreases events.len(),
{
    if events.len() > 0 {
        lemma_apply_all_preserves_identity(spec_apply(srv, events[0]), events.drop_first());
    }
}

/// Law: status writes are last-write-wins — after two status events, in
/// whatever states, the record holds the second state.
pub proof fn lemma_status_last_write_wins(
    srv: Server,
    first: ServerState,
    second: ServerState,
)
    ensures
        spec_apply(
            spec_apply(srv, PushEvent::Status(first)),
            PushEvent::Status(second),
        ).server_state == second,
{
}

} // verus!
