//! The publisher's bookkeeping: at most one live artifact per resource.
//!
//! Initialization creates the first artifact in the bound channel and
//! records its handle; every later cycle edits that artifact in place,
//! never creating a second one. The library owns the handle and the
//! decision which message a cycle targets; the chat-platform calls that
//! create or edit the message stay outside.

use vstd::prelude::*;

use crate::listener::spec_apply_all;
use crate::listener::lemma_apply_all_preserves_identity;
use crate::listener::PushEvent;
use crate::server::Server;
use crate::Error;

verus! {

/// The record after the initialization publish recorded its artifact.
pub open spec fn spec_record_published(srv: Server, message_ref: u64) -> Server {
    Server { discord_msg: Some(message_ref), ..srv }
}

/// The message a refresh cycle edits: the one recorded artifact, or
/// `NotFound` before initialization has published one.
pub open spec fn spec_refresh_target(srv: Server) -> Result<u64, Error> {
    match srv.discord_msg {
        Some(m) => Ok(m),
        None => Err(Error::NotFound),
    }
}

/// Whether the initialization publish is still owed for this resource:
/// true exactly until an artifact handle has been recorded.
pub fn needs_initialization(server: &Server) -> (r: bool)
    ensures
        r == (server.discord_msg is None),
{
    match server.discord_msg {
        None => true,
        Some(_) => false,
    }
}

/// Record the handle of the artifact the initialization publish created.
/// Nothing else in the record changes.
pub fn record_published(server: &mut Server, message_ref: u64)
    ensures
        *final(server) == spec_record_published(*old(server), message_ref),
{
    server.discord_msg = Some(message_ref);
}

/// The message the next refresh cycle must edit, or `NotFound` when
/// initialization has not published one yet.
pub fn refresh_target(server: &Server) -> (r: Result<u64, Error>)
    ensures
        r == spec_refresh_target(*server),
{
    match server.discord_msg {
        Some(m) => Ok(m),
        None => Err(Error::NotFound),
    }
}

/// Law: at most one live artifact per resource — once initialization has
/// recorded an artifact, any sequence of push events later the record still
/// holds that same handle, and every refresh cycle targets exactly it.
pub proof fn lemma_single_live_artifact(srv: Server, message_ref: u64, events: Seq<PushEvent>)
    ensures
        spec_apply_all(spec_record_published(srv, message_ref), events).discord_msg == Some(
            message_ref,
        ),
        spec_refresh_target(spec_apply_all(spec_record_published(srv, message_ref), events))
            == Ok::<u64, Error>(message_ref),
{
    lemma_apply_all_preserves_identity(spec_record_published(srv, message_ref), events);
}

} // verus!
