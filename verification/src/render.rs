//! The renderer: a pure projection of lifecycle state and a control-plane
//! detail snapshot into the UI artifact published for a managed server.
//!
//! The artifact carries a status summary (marker iconography and color keyed
//! by state), the embed fields, and the action set offered for the state:
//! `Offline` offers `Start`, `Starting` and `Running` offer `Stop` and
//! `Restart`, and `Stopping` offers `Kill` only. The mapping is total over
//! the four states and every state yields a non-empty action set.

use vstd::prelude::*;
use vstd::string::StringExecFns;

use crate::server::ServerActionButton;
use crate::server::ServerState;

verus! {

/// Detail snapshot of one resource, as fetched from the control plane
/// immediately before rendering.
#[derive(Clone, Debug, PartialEq, Eq)]
pub struct ServerDetails {
    pub name: String,
    pub description: Option<String>,
}

/// Mathematical image of a `ServerDetails` snapshot.
#[verifier::ext_equal]
pub struct ServerDetailsView {
    pub name: Seq<char>,
    pub description: Option<Seq<char>>,
}

/// The contents of an optional string.
pub open spec fn spec_opt_view(d: Option<String>) -> Option<Seq<char>> {
    match d {
        Some(s) => Some(s@),
        None => None,
    }
}

impl View for ServerDetails {
    type V = ServerDetailsView;

    open spec fn view(&self) -> ServerDetailsView {
        ServerDetailsView { name: self.name@, description: spec_opt_view(self.description) }
    }
}

/// One field of the rendered embed.
#[derive(Clone, Debug, PartialEq, Eq)]
pub struct EmbedField {
    pub name: String,
    pub value: String,
    pub inline: bool,
}

/// Mathematical image of an embed field.
#[verifier::ext_equal]
pub struct EmbedFieldView {
    pub name: Seq<char>,
    pub value: Seq<char>,
    pub inline: bool,
}

impl View for EmbedField {
    type V = EmbedFieldView;

    open spec fn view(&self) -> EmbedFieldView {
        EmbedFieldView { name: self.name@, value: self.value@, inline: self.inline }
    }
}

/// The UI artifact for one managed server: the embed contents and the
/// action buttons offered under it.
#[derive(Clone, Debug, PartialEq, Eq)]
pub struct Artifact {
    pub title: String,
    pub summary: String,
    pub thumbnail: String,
    pub color: u32,
    pub fields: Vec<EmbedField>,
    pub actions: Vec<ServerActionButton>,
}

/// Mathematical image of an artifact.
#[verifier::ext_equal]
pub struct ArtifactView {
    pub title: Seq<char>,
    pub summary: Seq<char>,
    pub thumbnail: Seq<char>,
    pub color: u32,
    pub fields: Seq<EmbedFieldView>,
    pub actions: Seq<ServerActionButton>,
}

impl View for Artifact {
    type V = ArtifactView;

    open spec fn view(&self) -> ArtifactView {
        ArtifactView {
            title: self.title@,
            summary: self.summary@,
            thumbnail: self.thumbnail@,
            color: self.color,
            fields: self.fields@.map_values(|f: EmbedField| f@),
            actions: self.actions@,
        }
    }
}

/// Status marker shown for a state: red for `Offline`, green for `Running`,
/// amber for the transitional states.
pub open spec fn spec_emoji(state: ServerState) -> Seq<char> {
    match state {
        ServerState::Offline => "\u{1F534}"@,
        ServerState::Running => "\u{1F7E2}"@,
        _ => "\u{1F7E1}"@,
    }
}

/// Embed color for a state: dark red for `Offline`, green for `Running`,
/// amber for the transitional states.
pub open spec fn spec_color(state: ServerState) -> u32 {
    match state {
        ServerState::Offline => 0x8b1300,
        ServerState::Running => 0x0B6623,
        _ => 0xFFCC32,
    }
}

/// Human-readable name of a state.
pub open spec fn spec_state_label(state: ServerState) -> Seq<char> {
    match state {
        ServerState::Offline => "Offline"@,
        ServerState::Starting => "Starting"@,
        ServerState::Running => "Running"@,
        ServerState::Stopping => "Stopping"@,
    }
}

/// Description shown for a resource: the control plane's description, or
/// `" - "` when it gives none or an empty one.
pub open spec fn spec_resolve_description(d: Option<Seq<char>>) -> Seq<char> {
    match d {
        Some(s) => if s.len() == 0 {
            " - "@
        } else {
            s
        },
        None => " - "@,
    }
}

/// The action set offered for a state.
pub open spec fn spec_action_buttons(state: ServerState) -> Seq<ServerActionButton> {
    match state {
        ServerState::Offline => seq![ServerActionButton::Start],
        ServerState::Running | ServerState::Starting => seq![
            ServerActionButton::Stop,
            ServerActionButton::Restart,
        ],
        ServerState::Stopping => seq![ServerActionButton::Kill],
    }
}

/// Visual weight of an action button.
#[derive(Clone, Copy, Debug, PartialEq, Eq, Structural)]
pub enum ActionStyle {
    Success,
    Primary,
    Danger,
}

/// The label shown on an action button.
pub open spec fn spec_action_label(a: ServerActionButton) -> Seq<char> {
    match a {
        ServerActionButton::Start => "Start Server"@,
        ServerActionButton::Stop => "Stop Server"@,
        ServerActionButton::Restart => "Restart Server"@,
        ServerActionButton::Kill => "Kill Server"@,
    }
}

/// The visual style of an action button: starting is affirmative,
/// restarting neutral, stopping and killing destructive.
pub open spec fn spec_action_style(a: ServerActionButton) -> ActionStyle {
    match a {
        ServerActionButton::Start => ActionStyle::Success,
        ServerActionButton::Stop => ActionStyle::Danger,
        ServerActionButton::Restart => ActionStyle::Primary,
        ServerActionButton::Kill => ActionStyle::Danger,
    }
}

/// The label shown on an action button.
pub fn action_label(a: ServerActionButton) -> (r: &'static str)
    ensures
        r@ == spec_action_label(a),
{
    match a {
        ServerActionButton::Start => "Start Server",
        ServerActionButton::Stop => "Stop Server",
        ServerActionButton::Restart => "Restart Server",
        ServerActionButton::Kill => "Kill Server",
    }
}

/// The visual style of an action button.
pub fn action_style(a: ServerActionButton) -> (r: ActionStyle)
    ensures
        r == spec_action_style(a),
{
    match a {
        ServerActionButton::Start => ActionStyle::Success,
        ServerActionButton::Stop => ActionStyle::Danger,
        ServerActionButton::Restart => ActionStyle::Primary,
        ServerActionButton::Kill => ActionStyle::Danger,
    }
}

/// The artifact rendered for a state and a detail snapshot.
pub open spec fn spec_artifact(state: ServerState, details: ServerDetailsView) -> ArtifactView {
    ArtifactView {
        title: "Pterocord"@,
        summary: spec_emoji(state) + " "@ + details.name,
        thumbnail: "https://i.imgur.com/aBDbmTu.png"@,
        color: spec_color(state),
        fields: seq![
            EmbedFieldView {
                name: "Description:"@,
                value: spec_resolve_description(details.description),
                inline: false,
            },
            EmbedFieldView {
                name: "Status:"@,
                value: spec_state_label(state),
                inline: false,
            },
        ],
        actions: spec_action_buttons(state),
    }
}

/// Law: the renderer's action table is total and never empty — `Offline`
/// offers exactly `Start`; `Starting` and `Running` offer exactly `Stop`
/// then `Restart`; `Stopping` offers exactly `Kill`.
pub proof fn lemma_action_set_total(state: ServerState)
    ensures
        spec_action_buttons(state).len() > 0,
        state is Offline ==> spec_action_buttons(state) =~= seq![ServerActionButton::Start],
        (state is Starting || state is Running) ==> spec_action_buttons(state) =~= seq![
            ServerActionButton::Stop,
            ServerActionButton::Restart,
        ],
        state is Stopping ==> spec_action_buttons(state) =~= seq![ServerActionButton::Kill],
{
}

/// Law: the renderer is idempotent — two artifacts rendered from the same
/// state and the same detail snapshot are equal, field for field.
pub proof fn lemma_renderer_idempotent(
    state: ServerState,
    details: ServerDetailsView,
    a1: ArtifactView,
    a2: ArtifactView,
)
    requires
        a1 == spec_artifact(state, details),
        a2 == spec_artifact(state, details),
    ensures
        a1 == a2,
{
}

/// Status marker for a state.
pub fn chose_emoji(state: ServerState) -> (r: &'static str)
    ensures
        r@ == spec_emoji(state),
{
    match state {
        ServerState::Offline => "\u{1F534}",
        ServerState::Running => "\u{1F7E2}",
        _ => "\u{1F7E1}",
    }
}

/// Embed color for a state.
pub fn chose_color(state: ServerState) -> (r: u32)
    ensures
        r == spec_color(state),
{
    match state {
        ServerState::Offline => 0x8b1300,
        ServerState::Running => 0x0B6623,
        _ => 0xFFCC32,
    }
}

/// Human-readable name of a state.
pub fn state_label(state: ServerState) -> (r: &'static str)
    ensures
        r@ == spec_state_label(state),
{
    match state {
        ServerState::Offline => "Offline",
        ServerState::Starting => "Starting",
        ServerState::Running => "Running",
        ServerState::Stopping => "Stopping",
    }
}

/// Description shown for a resource.
pub fn resolve_description(d: &Option<String>) -> (r: String)
    ensures
        r@ == spec_resolve_description(spec_opt_view(*d)),
{
    match d {
        Some(s) => {
            if s.as_str().is_empty() {
                String::from_str(" - ")
            } else {
                s.clone()
            }
        },
        None => String::from_str(" - "),
    }
}

/// The action buttons offered for a state.
pub fn action_buttons(state: ServerState) -> (r: Vec<ServerActionButton>)
    ensures
        r@ == spec_action_buttons(state),
{
    let mut v: Vec<ServerActionButton> = Vec::new();
    match state {
        ServerState::Offline => {
            v.push(ServerActionButton::Start);
        },
        ServerState::Running | ServerState::Starting => {
            v.push(ServerActionButton::Stop);
            v.push(ServerActionButton::Restart);
        },
        ServerState::Stopping => {
            v.push(ServerActionButton::Kill);
        },
    }
    proof {
        assert(v@ =~= spec_action_buttons(state));
    }
    v
}

/// Render the artifact for one managed server from its lifecycle state and
/// a freshly fetched detail snapshot. Pure: the result is a function of the
/// two inputs alone.
pub fn build_msg(state: ServerState, details: &ServerDetails) -> (a: Artifact)
    ensures
        a@ == spec_artifact(state, details@),
{
    let summary = String::from_str(chose_emoji(state)).concat(" ").concat(details.name.as_str());
    let description = resolve_description(&details.description);
    let mut fields: Vec<EmbedField> = Vec::new();
    fields.push(
        EmbedField { name: String::from_str("Description:"), value: description, inline: false },
    );
    fields.push(
        EmbedField {
            name: String::from_str("Status:"),
            value: String::from_str(state_label(state)),
            inline: false,
        },
    );
    let a = Artifact {
        title: String::from_str("Pterocord"),
        summary,
        thumbnail: String::from_str("https://i.imgur.com/aBDbmTu.png"),
        color: chose_color(state),
        fields,
        actions: action_buttons(state),
    };
    proof {
        assert(a@.fields =~= spec_artifact(state, details@).fields);
        assert(a@ =~~= spec_artifact(state, details@));
    }
    a
}

/// One row of the server listing: the control plane's identity and detail
/// snapshot for a resource, plus the lifecycle state read from its resource
/// usage.
#[derive(Clone, Debug, PartialEq, Eq)]
pub struct ServerListEntry {
    pub identifier: String,
    pub name: String,
    pub description: Option<String>,
    pub current_state: ServerState,
}

/// Mathematical image of a listing row.
#[verifier::ext_equal]
pub struct ServerListEntryView {
    pub identifier: Seq<char>,
    pub name: Seq<char>,
    pub description: Option<Seq<char>>,
    pub current_state: ServerState,
}

impl View for ServerListEntry {
    type V = ServerListEntryView;

    open spec fn view(&self) -> ServerListEntryView {
        ServerListEntryView {
            identifier: self.identifier@,
            name: self.name@,
            description: spec_opt_view(self.description),
            current_state: self.current_state,
        }
    }
}

/// The embed field rendered for one listing row.
pub open spec fn spec_list_field(e: ServerListEntryView) -> EmbedFieldView {
    EmbedFieldView {
        name: e.name,
        value: "ID: "@ + e.identifier + "\nDescription: "@ + spec_resolve_description(
            e.description,
        ) + "\nStatus: "@ + spec_state_label(e.current_state),
        inline: false,
    }
}

/// The artifact rendered for the whole server listing.
pub open spec fn spec_list_artifact(entries: Seq<ServerListEntryView>) -> ArtifactView {
    ArtifactView {
        title: "Pterocord"@,
        summary: "Servers:"@,
        thumbnail: "https://i.imgur.com/aBDbmTu.png"@,
        color: 0x0000BB,
        fields: entries.map_values(|e: ServerListEntryView| spec_list_field(e)),
        actions: Seq::empty(),
    }
}

/// Render the embed field for one listing row.
pub fn build_list_field(entry: &ServerListEntry) -> (f: EmbedField)
    ensures
        f@ == spec_list_field(entry@),
{
    let value = String::from_str("ID: ").concat(entry.identifier.as_str()).concat(
        "\nDescription: ",
    ).concat(resolve_description(&entry.description).as_str()).concat("\nStatus: ").concat(
        state_label(entry.current_state),
    );
    EmbedField { name: entry.name.clone(), value, inline: false }
}

/// Render the server listing: one embed field per row, in order, under the
/// listing header. Offers no actions.
pub fn build_list_msg(entries: &Vec<ServerListEntry>) -> (a: Artifact)
    ensures
        a@ == spec_list_artifact(entries@.map_values(|e: ServerListEntry| e@)),
{
    let ghost entry_views = entries@.map_values(|e: ServerListEntry| e@);
    let n = entries.len();
    let mut fields: Vec<EmbedField> = Vec::new();
    let mut i: usize = 0;
    while i < n
        invariant
            n == entries@.len(),
            entry_views == entries@.map_values(|e: ServerListEntry| e@),
            i <= n,
            fields@.len() == i,
            forall|j: int| 0 <= j < i ==> fields@[j]@ == spec_list_field(entry_views[j]),
        decreases n - i,
    {
        let f = build_list_field(&entries[i]);
        fields.push(f);
        i = i + 1;
    }
    let a = Artifact {
        title: String::from_str("Pterocord"),
        summary: String::from_str("Servers:"),
        thumbnail: String::from_str("https://i.imgur.com/aBDbmTu.png"),
        color: 0x0000BB,
        fields,
        actions: Vec::new(),
    };
    proof {
        assert(a@.fields =~= spec_list_artifact(entry_views).fields);
        assert(a@ =~~= spec_list_artifact(entry_views));
    }
    a
}

/// Channel label for a state and display name: the status marker, a dash,
/// and the name.
pub open spec fn spec_channel_label(state: ServerState, name: Seq<char>) -> Seq<char> {
    spec_emoji(state) + "-"@ + name
}

/// Build the channel label shown beside a managed server's channel.
pub fn build_channel(state: ServerState, discord_channle_name: &str) -> (r: String)
    ensures
        r@ == spec_channel_label(state, discord_channle_name@),
{
    String::from_str(chose_emoji(state)).concat("-").concat(discord_channle_name)
}

/// Whether a channel rename should be sent for this state: renames are
/// skipped while a transition (`Starting` or `Stopping`) is in flight.
pub fn should_update_channel(state: ServerState) -> (r: bool)
    ensures
        r == (state != ServerState::Starting && state != ServerState::Stopping),
{
    match state {
        ServerState::Starting | ServerState::Stopping => false,
        _ => true,
    }
}

} // verus!
