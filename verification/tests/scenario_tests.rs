//! End-to-end walk of one managed server through initialization, a push
//! event, a refresh cycle, and a dispatched UI action.

use pterocord::dispatcher::dispatch_action;
use pterocord::dispatcher::PowerSignal;
use pterocord::listener::apply_event;
use pterocord::listener::PushEvent;
use pterocord::publisher::needs_initialization;
use pterocord::publisher::record_published;
use pterocord::publisher::refresh_target;
use pterocord::render::build_msg;
use pterocord::render::ServerDetails;
use pterocord::server::Server;
use pterocord::server::ServerActionButton;
use pterocord::server::ServerState;
use pterocord::server_config::ServerConfig;

#[test]
fn lifecycle_of_one_bound_server() {
    // Resource srv-1 bound to channel 100, initial state Offline.
    let mut srv = Server::new(ServerConfig {
        ptero_server_id: "srv-1".to_string(),
        discord_channel_id: "100".to_string(),
        discord_channle_name: "lobby".to_string(),
    })
    .unwrap();
    assert_eq!(srv.server_state, ServerState::Offline);
    let details = ServerDetails {
        name: "Lobby".to_string(),
        description: None,
    };

    // Initialization publishes one artifact offering a single Start button.
    assert!(needs_initialization(&srv));
    let first = build_msg(srv.server_state, &details);
    assert_eq!(first.actions, vec![ServerActionButton::Start]);
    record_published(&mut srv, 1);
    assert!(!needs_initialization(&srv));

    // A push event reports the server starting.
    let render = apply_event(&mut srv, PushEvent::Status(ServerState::Starting));
    assert!(render);

    // The refresh edits the same artifact, now with Stop and Restart under
    // the amber marker.
    assert_eq!(refresh_target(&srv).unwrap(), 1);
    let refreshed = build_msg(srv.server_state, &details);
    assert_eq!(
        refreshed.actions,
        vec![ServerActionButton::Stop, ServerActionButton::Restart]
    );
    assert_eq!(refreshed.color, 0xFFCC32);
    assert!(refreshed.summary.starts_with("\u{1F7E1}"));

    // A Stop press in channel 100 dispatches exactly one power command,
    // addressed to srv-1.
    let servers = vec![srv];
    let cmd = dispatch_action(&servers, 100, "Stop").unwrap();
    assert_eq!(cmd.ptero_server_id, "srv-1");
    assert_eq!(cmd.signal, PowerSignal::Stop);
}
