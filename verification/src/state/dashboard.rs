//! The dashboard state: navigation, the member pane, popups, key bindings and
//! what is known of Discord.
use super::discord::DiscordState;
use super::popups::{MemberLeaderActionState, Popups};
use crate::ids::{GuildMarker, Id, UserMarker};
use crate::keybindings::KeyBindings;
use vstd::prelude::*;

verus! {

/// The pane that has keyboard focus.
#[derive(Clone, Copy, Debug, PartialEq, Eq, Structural)]
pub enum FocusPane {
    Guilds,
    Channels,
    Members,
    Messages,
}

/// Which guild the panes show.
#[derive(Clone, Copy, Debug)]
pub enum ActiveGuildScope {
    Unset,
    DirectMessages,
    Guild(Id<GuildMarker>),
}

/// The guild that a scope names, if it names one.
pub open spec fn scope_guild(scope: ActiveGuildScope) -> Option<Id<GuildMarker>> {
    match scope {
        ActiveGuildScope::Guild(guild_id) => Some(guild_id),
        ActiveGuildScope::DirectMessages | ActiveGuildScope::Unset => None,
    }
}

/// The guild that a scope names, if it names one.
pub fn guild_of_scope(scope: ActiveGuildScope) -> (guild_id: Option<Id<GuildMarker>>)
    ensures
        guild_id == scope_guild(scope),
{
    match scope {
        ActiveGuildScope::Guild(guild_id) => Some(guild_id),
        ActiveGuildScope::DirectMessages | ActiveGuildScope::Unset => None,
    }
}

/// Focus and guild scope of the dashboard.
#[derive(Clone, Copy, Debug)]
pub struct Navigation {
    pub focus: FocusPane,
    pub active_guild: ActiveGuildScope,
}

/// A row of the member pane, groups already flattened.
#[derive(Clone, Debug)]
pub struct MemberEntry {
    pub user_id: Id<UserMarker>,
    pub display_name: String,
}

impl MemberEntry {
    pub fn user_id(&self) -> (user_id: Id<UserMarker>)
        ensures
            user_id == self.user_id,
    {
        self.user_id
    }
}

/// What an entry of the member action menu does.
#[derive(Clone, Copy, Debug, PartialEq, Eq, Structural)]
pub enum MemberActionKind {
    ShowProfile,
}

/// An entry of the member action menu.
#[derive(Clone, Debug)]
pub struct MemberActionItem {
    pub kind: MemberActionKind,
    pub label: String,
    pub enabled: bool,
}

/// The whole dashboard state.
#[derive(Clone, Debug)]
pub struct DashboardState {
    pub navigation: Navigation,
    pub members: Vec<MemberEntry>,
    pub selected_member: usize,
    pub popups: Popups,
    pub discord: DiscordState,
    pub key_bindings: KeyBindings,
}

impl DashboardState {
    /// The same dashboard with a different modal popup layer.
    pub open spec fn with_popups(self, popups: Popups) -> Self {
        DashboardState { popups: popups, ..self }
    }

    /// The member action menu for the selected row of the member pane, when
    /// the member pane has focus and a row is selected.
    pub open spec fn spec_selected_member_action_context(self) -> Option<MemberLeaderActionState> {
        if self.navigation.focus != FocusPane::Members || self.selected_member
            >= self.members@.len() {
            None
        } else {
            Some(
                MemberLeaderActionState {
                    user_id: self.members@[self.selected_member as int].user_id,
                    guild_id: scope_guild(self.navigation.active_guild),
                    selection: super::popups::ListSelection::initial(),
                },
            )
        }
    }

    pub fn focus(&self) -> (focus: FocusPane)
        ensures
            focus == self.navigation.focus,
    {
        self.navigation.focus
    }

    pub fn selected_member(&self) -> (index: usize)
        ensures
            index == self.selected_member,
    {
        self.selected_member
    }

    pub fn key_bindings(&self) -> (bindings: &KeyBindings)
        ensures
            *bindings == self.key_bindings,
    {
        &self.key_bindings
    }
}

/// A guild scope names its guild; the direct messages scope and an unset
/// scope name none.
pub proof fn lemma_scope_guild(guild_id: Id<GuildMarker>)
    ensures
        scope_guild(ActiveGuildScope::Guild(guild_id)) == Some(guild_id),
        scope_guild(ActiveGuildScope::DirectMessages) is None,
        scope_guild(ActiveGuildScope::Unset) is None,
{
}

/// The member actions are offered only while the member pane has the focus
/// and a row is selected; they are for the member of the selected row, in
/// the guild of the current scope, with the first entry selected. Changing
/// the popups changes nothing else.
pub proof fn lemma_member_action_context(state: DashboardState, popups: Popups)
    ensures
        state.spec_selected_member_action_context() is Some <==> (state.navigation.focus
            == FocusPane::Members && state.selected_member < state.members@.len()),
        state.spec_selected_member_action_context() matches Some(a) ==> a.user_id
            == state.members@[state.selected_member as int].user_id && a.guild_id == scope_guild(
            state.navigation.active_guild,
        ) && a.selection.selected == 0,
        state.with_popups(popups).popups == popups,
        state.with_popups(popups).navigation == state.navigation,
        state.with_popups(popups).members == state.members,
        state.with_popups(popups).selected_member == state.selected_member,
{
}

} // verus!
