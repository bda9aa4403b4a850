use pterocord::render::action_label;
use pterocord::render::action_style;
use pterocord::render::build_channel;
use pterocord::render::ActionStyle;
use pterocord::render::build_list_msg;
use pterocord::render::build_msg;
use pterocord::render::chose_color;
use pterocord::render::chose_emoji;
use pterocord::render::resolve_description;
use pterocord::render::should_update_channel;
use pterocord::render::state_label;
use pterocord::render::ServerDetails;
use pterocord::render::ServerListEntry;
use pterocord::server::ServerActionButton;
use pterocord::server::ServerState;

fn details(name: &str, description: Option<&str>) -> ServerDetails {
    ServerDetails {
        name: name.to_string(),
        description: description.map(|d| d.to_string()),
    }
}

#[test]
fn action_set_offline_is_start_only() {
    let a = build_msg(ServerState::Offline, &details("srv", None));
    assert_eq!(a.actions, vec![ServerActionButton::Start]);
}

#[test]
fn action_set_starting_is_stop_restart() {
    let a = build_msg(ServerState::Starting, &details("srv", None));
    assert_eq!(
        a.actions,
        vec![ServerActionButton::Stop, ServerActionButton::Restart]
    );
}

#[test]
fn action_set_running_is_stop_restart() {
    let a = build_msg(ServerState::Running, &details("srv", None));
    assert_eq!(
        a.actions,
        vec![ServerActionButton::Stop, ServerActionButton::Restart]
    );
}

#[test]
fn action_set_stopping_is_kill_only() {
    let a = build_msg(ServerState::Stopping, &details("srv", None));
    assert_eq!(a.actions, vec![ServerActionButton::Kill]);
}

#[test]
fn action_set_never_empty() {
    for state in [
        ServerState::Offline,
        ServerState::Starting,
        ServerState::Running,
        ServerState::Stopping,
    ] {
        let a = build_msg(state, &details("srv", None));
        assert!(!a.actions.is_empty());
    }
}

#[test]
fn renderer_is_idempotent() {
    for state in [
        ServerState::Offline,
        ServerState::Starting,
        ServerState::Running,
        ServerState::Stopping,
    ] {
        let d = details("A survival world", Some("play nice"));
        let first = build_msg(state, &d);
        let second = build_msg(state, &d);
        assert_eq!(first, second);
    }
}

#[test]
fn markers_match_states() {
    assert_eq!(chose_emoji(ServerState::Offline), "\u{1F534}");
    assert_eq!(chose_emoji(ServerState::Running), "\u{1F7E2}");
    assert_eq!(chose_emoji(ServerState::Starting), "\u{1F7E1}");
    assert_eq!(chose_emoji(ServerState::Stopping), "\u{1F7E1}");
}

#[test]
fn colors_match_states() {
    assert_eq!(chose_color(ServerState::Offline), 0x8b1300);
    assert_eq!(chose_color(ServerState::Running), 0x0B6623);
    assert_eq!(chose_color(ServerState::Starting), 0xFFCC32);
    assert_eq!(chose_color(ServerState::Stopping), 0xFFCC32);
}

#[test]
fn state_labels() {
    assert_eq!(state_label(ServerState::Offline), "Offline");
    assert_eq!(state_label(ServerState::Starting), "Starting");
    assert_eq!(state_label(ServerState::Running), "Running");
    assert_eq!(state_label(ServerState::Stopping), "Stopping");
}

#[test]
fn button_labels_and_styles() {
    assert_eq!(action_label(ServerActionButton::Start), "Start Server");
    assert_eq!(action_label(ServerActionButton::Stop), "Stop Server");
    assert_eq!(action_label(ServerActionButton::Restart), "Restart Server");
    assert_eq!(action_label(ServerActionButton::Kill), "Kill Server");
    assert_eq!(action_style(ServerActionButton::Start), ActionStyle::Success);
    assert_eq!(action_style(ServerActionButton::Stop), ActionStyle::Danger);
    assert_eq!(
        action_style(ServerActionButton::Restart),
        ActionStyle::Primary
    );
    assert_eq!(action_style(ServerActionButton::Kill), ActionStyle::Danger);
}

#[test]
fn missing_description_gets_placeholder() {
    assert_eq!(resolve_description(&None), " - ");
    assert_eq!(resolve_description(&Some(String::new())), " - ");
    assert_eq!(resolve_description(&Some("hello".to_string())), "hello");
}

#[test]
fn embed_contents_for_running_server() {
    let a = build_msg(ServerState::Running, &details("lobby", Some("the hub")));
    assert_eq!(a.title, "Pterocord");
    assert_eq!(a.summary, "\u{1F7E2} lobby");
    assert_eq!(a.thumbnail, "https://i.imgur.com/aBDbmTu.png");
    assert_eq!(a.color, 0x0B6623);
    assert_eq!(a.fields.len(), 2);
    assert_eq!(a.fields[0].name, "Description:");
    assert_eq!(a.fields[0].value, "the hub");
    assert!(!a.fields[0].inline);
    assert_eq!(a.fields[1].name, "Status:");
    assert_eq!(a.fields[1].value, "Running");
    assert!(!a.fields[1].inline);
}

#[test]
fn channel_label_has_marker_and_name() {
    assert_eq!(
        build_channel(ServerState::Offline, "lobby"),
        "\u{1F534}-lobby"
    );
    assert_eq!(
        build_channel(ServerState::Running, "lobby"),
        "\u{1F7E2}-lobby"
    );
}

#[test]
fn channel_rename_skipped_in_transitions() {
    assert!(should_update_channel(ServerState::Offline));
    assert!(should_update_channel(ServerState::Running));
    assert!(!should_update_channel(ServerState::Starting));
    assert!(!should_update_channel(ServerState::Stopping));
}

#[test]
fn listing_renders_one_field_per_entry() {
    let entries = vec![
        ServerListEntry {
            identifier: "srv-1".to_string(),
            name: "lobby".to_string(),
            description: Some("the hub".to_string()),
            current_state: ServerState::Running,
        },
        ServerListEntry {
            identifier: "srv-2".to_string(),
            name: "build".to_string(),
            description: None,
            current_state: ServerState::Offline,
        },
    ];
    let a = build_list_msg(&entries);
    assert_eq!(a.title, "Pterocord");
    assert_eq!(a.summary, "Servers:");
    assert_eq!(a.color, 0x0000BB);
    assert!(a.actions.is_empty());
    assert_eq!(a.fields.len(), 2);
    assert_eq!(a.fields[0].name, "lobby");
    assert_eq!(
        a.fields[0].value,
        "ID: srv-1\nDescription: the hub\nStatus: Running"
    );
    assert_eq!(a.fields[1].name, "build");
    assert_eq!(
        a.fields[1].value,
        "ID: srv-2\nDescription:  - \nStatus: Offline"
    );
}

#[test]
fn listing_of_nothing_is_empty() {
    let a = build_list_msg(&Vec::new());
    assert_eq!(a.fields.len(), 0);
}
