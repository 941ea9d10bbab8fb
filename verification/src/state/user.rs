//! Member actions and the user profile popup.
use super::dashboard::{guild_of_scope, DashboardState, FocusPane, MemberActionItem, MemberActionKind};
use super::discord::{
    cached_activities_index, cached_presence, cached_profile_index, direct_recipient_status,
    guild_presence, member_status, ActivityInfo, UserProfileInfo,
};
use super::popups::{
    ActiveModalPopupKind, LeaderActionState, LeaderMode, LeaderPopupState, ListSelection,
    MemberLeaderActionState, ModalPopup, Popups, ScrollState, UserProfilePopupState,
};
use crate::commands::{AppCommand, PresenceStatus};
use crate::ids::{GuildMarker, Id, UserMarker};
use crate::keybindings::{member_action_hit, row_shortcut_typed};
use crate::keys::KeyChord;
use vstd::prelude::*;

verus! {

/// The popups layer with a freshly opened profile popup for `user_id`.
pub open spec fn profile_popup_for(user_id: Id<UserMarker>, guild_id: Option<Id<GuildMarker>>) -> Popups {
    Popups {
        modal: Some(
            ModalPopup::UserProfile(
                UserProfilePopupState {
                    user_id: user_id,
                    guild_id: guild_id,
                    load_error: None,
                    scroll: ScrollState::initial(),
                },
            ),
        ),
    }
}

/// The popups layer with the leader popup showing `action`.
pub open spec fn is_member_action_menu(popups: Popups, action: MemberLeaderActionState) -> bool {
    match popups.modal {
        Some(ModalPopup::Leader(leader)) => {
            &&& leader.mode == LeaderMode::Actions
            &&& leader.keymap_prefix@.len() == 0
            &&& leader.action matches Some(LeaderActionState::Member(a)) && a == action
        },
        _ => false,
    }
}

/// The first row of the member action menu: the one entry it offers.
pub open spec fn is_show_profile_item(item: MemberActionItem) -> bool {
    item.kind == MemberActionKind::ShowProfile && item.label@ == "Show profile"@ && item.enabled
}

/// The presence that the profile popup shows: the guild member list first,
/// then the guild's presence updates, then a direct message channel that
/// lists the user (unless it shows nothing useful), then the last presence
/// seen anywhere.
pub open spec fn popup_status(state: DashboardState) -> PresenceStatus {
    match state.popups.profile() {
        None => PresenceStatus::Unknown,
        Some(popup) => {
            let user = popup.user_id@;
            let from_members = match popup.guild_id {
                Some(g) => member_status(state.discord.guild_members@, g@, user),
                None => None,
            };
            let from_guild = match popup.guild_id {
                Some(g) => guild_presence(state.discord.guild_presences@, g@, user),
                None => None,
            };
            let from_recipient = direct_recipient_status(state.discord.direct_channels@, user);
            if from_members is Some {
                from_members->0
            } else if from_guild is Some {
                from_guild->0
            } else if from_recipient is Some && from_recipient->0 != PresenceStatus::Unknown {
                from_recipient->0
            } else {
                match cached_presence(state.discord.cache.presences@, user) {
                    Some(status) => status,
                    None => PresenceStatus::Unknown,
                }
            }
        },
    }
}

impl DashboardState {
    pub fn is_member_leader_action_active(&self) -> (active: bool)
        ensures
            active == self.popups.member_action() is Some,
    {
        self.popups.member_leader_action().is_some()
    }

    /// Direct shortcut from the member pane: opens the profile popup of the
    /// selected member without going through the leader actions.
    pub fn show_selected_member_profile(&mut self) -> (command: Option<AppCommand>)
        ensures
            match old(self).spec_selected_member_action_context() {
                None => *final(self) == *old(self) && command is None,
                Some(ctx) => *final(self) == old(self).with_popups(
                    profile_popup_for(ctx.user_id, ctx.guild_id),
                ) && command == Some(
                    AppCommand::LoadUserProfile { user_id: ctx.user_id, guild_id: ctx.guild_id },
                ),
            },
    {
        if self.navigation.focus != FocusPane::Members {
            return None;
        }
        if self.selected_member() >= self.members.len() {
            return None;
        }
        let user_id = self.members[self.selected_member()].user_id();
        let guild_id = guild_of_scope(self.navigation.active_guild);
        self.open_user_profile_popup(user_id, guild_id)
    }

    /// Opens the member action menu for the selected member.
    pub fn open_selected_member_actions(&mut self)
        ensures
            match old(self).spec_selected_member_action_context() {
                None => *final(self) == *old(self),
                Some(ctx) => {
                    &&& is_member_action_menu(final(self).popups, ctx)
                    &&& final(self).navigation == old(self).navigation
                    &&& final(self).members == old(self).members
                    &&& final(self).selected_member == old(self).selected_member
                    &&& final(self).discord == old(self).discord
                    &&& final(self).key_bindings == old(self).key_bindings
                },
            },
    {
        if let Some(action) = self.selected_member_action_context() {
            self.popups.modal = Some(
                ModalPopup::Leader(
                    LeaderPopupState {
                        mode: LeaderMode::Actions,
                        keymap_prefix: Vec::new(),
                        action: Some(LeaderActionState::Member(action)),
                    },
                ),
            );
        }
    }

    /// The member action menu for the selected member, when the member pane
    /// has focus and a member is selected.
    pub fn selected_member_action_context(&self) -> (context: Option<MemberLeaderActionState>)
        ensures
            context == self.spec_selected_member_action_context(),
    {
        if self.navigation.focus != FocusPane::Members {
            return None;
        }
        if self.selected_member() >= self.members.len() {
            return None;
        }
        let user_id = self.members[self.selected_member()].user_id();
        // Direct message panes have no guild: the profile fetch then leaves
        // the guild out and skips the guild member section.
        let guild_id = guild_of_scope(self.navigation.active_guild);
        Some(MemberLeaderActionState { user_id, guild_id, selection: ListSelection::default() })
    }

    /// Closes the member action menu, and only that popup.
    pub fn close_member_leader_action(&mut self)
        ensures
            old(self).popups.member_action() is Some ==> *final(self) == old(self).with_popups(
                Popups { modal: None },
            ),
            old(self).popups.member_action() is None ==> *final(self) == *old(self),
    {
        if self.is_member_leader_action_active() {
            self.popups.clear_modal();
        }
    }

    /// The entries of the member action menu; none while it is closed.
    pub fn selected_member_action_items(&self) -> (items: Vec<MemberActionItem>)
        ensures
            self.popups.member_action() is None ==> items@.len() == 0,
            self.popups.member_action() is Some ==> items@.len() == 1 && is_show_profile_item(
                items@[0],
            ),
    {
        if self.popups.member_leader_action().is_none() {
            return Vec::new();
        }
        let mut items = Vec::new();
        items.push(
            MemberActionItem {
                kind: MemberActionKind::ShowProfile,
                label: String::from_str("Show profile"),
                enabled: true,
            },
        );
        proof {
            reveal_strlit("Show profile");
        }
        items
    }

    /// Selects a row of the member action menu. Fails, changing nothing, when
    /// the menu is closed or has no such row.
    pub fn select_member_action_row(&mut self, row: usize) -> (selected: bool)
        ensures
            selected == (old(self).popups.member_action() is Some && row < 1),
            selected ==> final(self).popups.member_action() == Some(
                MemberLeaderActionState {
                    selection: ListSelection { selected: row },
                    ..old(self).popups.member_action()->0
                },
            ) && final(self).popups.active_kind() == old(self).popups.active_kind()
                && final(self).popups.leader()->0.mode == old(self).popups.leader()->0.mode
                && final(self).popups.leader()->0.keymap_prefix@
                    == old(self).popups.leader()->0.keymap_prefix@
                && *final(self) == old(self).with_popups(final(self).popups),
            !selected ==> *final(self) == *old(self),
    {
        if row >= self.selected_member_action_items().len() {
            return false;
        }
        if self.is_member_leader_action_active() {
            self.popups.select_member_action(row);
            return true;
        }
        false
    }

    /// Runs the selected entry of the member action menu: it closes the menu
    /// and opens the member's profile.
    pub fn activate_selected_member_action(&mut self) -> (command: Option<AppCommand>)
        ensures
            match old(self).popups.member_action() {
                None => *final(self) == *old(self) && command is None,
                Some(action) => *final(self) == old(self).with_popups(
                    profile_popup_for(action.user_id, action.guild_id),
                ) && command == Some(
                    AppCommand::LoadUserProfile {
                        user_id: action.user_id,
                        guild_id: action.guild_id,
                    },
                ),
            },
    {
        let action = match self.popups.member_leader_action() {
            Some(action) => *action,
            None => return None,
        };
        let items = self.selected_member_action_items();
        let row = action.selection.selected_for_len(items.len());
        if row >= items.len() {
            return None;
        }
        let item = &items[row];
        if !item.enabled {
            return None;
        }
        match item.kind {
            MemberActionKind::ShowProfile => {
                self.close_member_leader_action();
                self.open_user_profile_popup(action.user_id, action.guild_id)
            },
        }
    }

    /// Runs the member action whose shortcut is `shortcut`, if the member
    /// action menu is open and an enabled entry has that shortcut.
    pub fn activate_member_action_shortcut(&mut self, shortcut: KeyChord) -> (command: Option<
        AppCommand,
    >)
        ensures
            match old(self).popups.member_action() {
                Some(action) => if row_shortcut_typed(old(self).key_bindings@, shortcut, 0) {
                    *final(self) == old(self).with_popups(
                        profile_popup_for(action.user_id, action.guild_id),
                    ) && command == Some(
                        AppCommand::LoadUserProfile {
                            user_id: action.user_id,
                            guild_id: action.guild_id,
                        },
                    )
                } else {
                    *final(self) == *old(self) && command is None
                },
                None => *final(self) == *old(self) && command is None,
            },
    {
        let actions = self.selected_member_action_items();
        let index = match self.key_bindings.matching_member_action_shortcut_index(&actions, shortcut) {
            Some(index) => index,
            None => {
                proof {
                    if actions@.len() > 0 {
                        assert(!member_action_hit(self.key_bindings@, actions@, shortcut, 0));
                    }
                }
                return None;
            },
        };
        self.select_member_action_row(index);
        self.activate_selected_member_action()
    }

    /// Opens the profile popup of `user_id`, replacing any modal popup, and
    /// asks the backend for the profile.
    pub fn open_user_profile_popup(
        &mut self,
        user_id: Id<UserMarker>,
        guild_id: Option<Id<GuildMarker>>,
    ) -> (command: Option<AppCommand>)
        ensures
            *final(self) == old(self).with_popups(profile_popup_for(user_id, guild_id)),
            command == Some(AppCommand::LoadUserProfile { user_id, guild_id }),
    {
        self.popups.modal = Some(
            ModalPopup::UserProfile(
                UserProfilePopupState {
                    user_id,
                    guild_id,
                    load_error: None,
                    scroll: ScrollState::default(),
                },
            ),
        );
        Some(AppCommand::LoadUserProfile { user_id, guild_id })
    }

    /// Closes the profile popup, and only that popup.
    pub fn close_user_profile_popup(&mut self)
        ensures
            old(self).popups.profile() is Some ==> *final(self) == old(self).with_popups(
                Popups { modal: None },
            ),
            old(self).popups.profile() is None ==> *final(self) == *old(self),
    {
        if self.is_active_modal_popup(ActiveModalPopupKind::UserProfile) {
            self.popups.clear_modal();
        }
    }

    pub fn is_active_modal_popup(&self, kind: ActiveModalPopupKind) -> (active: bool)
        ensures
            active == (self.popups.active_kind() == Some(kind)),
    {
        match self.popups.active_modal_popup_kind() {
            Some(open) => open == kind,
            None => false,
        }
    }

    /// The cached profile of the user whose profile popup is open.
    pub fn user_profile_popup_data(&self) -> (profile: Option<&UserProfileInfo>)
        ensures
            match self.popups.profile() {
                None => profile is None,
                Some(popup) => match cached_profile_index(
                    self.discord.cache.profiles@,
                    popup.user_id@,
                    popup.guild_id,
                    0,
                ) {
                    Some(i) => profile == Some(&self.discord.cache.profiles@[i].profile),
                    None => profile is None,
                },
            },
    {
        let popup = match self.popups.user_profile_popup() {
            Some(popup) => popup,
            None => return None,
        };
        self.discord.cache.user_profile(popup.user_id, popup.guild_id)
    }

    /// Why the profile of the open profile popup could not be loaded.
    pub fn user_profile_popup_load_error(&self) -> (error: Option<&str>)
        ensures
            match self.popups.profile() {
                Some(popup) => match popup.load_error {
                    Some(e) => error matches Some(s) && s@ == e@,
                    None => error is None,
                },
                None => error is None,
            },
    {
        match self.popups.user_profile_popup() {
            Some(popup) => match &popup.load_error {
                Some(error) => Some(error.as_str()),
                None => None,
            },
            None => None,
        }
    }

    /// The presence shown in the profile popup.
    pub fn user_profile_popup_status(&self) -> (status: PresenceStatus)
        ensures
            status == popup_status(*self),
    {
        let popup = match self.popups.user_profile_popup() {
            Some(popup) => popup,
            None => return PresenceStatus::Unknown,
        };
        if let Some(guild_id) = popup.guild_id {
            if let Some(status) = self.discord.member_status(guild_id, popup.user_id) {
                return status;
            }
        }
        if let Some(guild_id) = popup.guild_id {
            if let Some(status) = self.discord.user_presence_for_guild(guild_id, popup.user_id) {
                return status;
            }
        }
        let recipient_status = self.discord.direct_recipient_status(popup.user_id);
        match recipient_status {
            Some(status) => {
                if status != PresenceStatus::Unknown {
                    return status;
                }
            },
            None => {},
        }
        match self.discord.cache.user_presence(popup.user_id) {
            Some(status) => status,
            None => PresenceStatus::Unknown,
        }
    }

    /// URL of the avatar to draw in the open profile popup: none while the
    /// popup is closed, the profile is not loaded, or the user has no avatar.
    pub fn user_profile_popup_avatar_url(&self) -> (url: Option<&str>)
        ensures
            match self.popups.profile() {
                None => url is None,
                Some(popup) => match cached_profile_index(
                    self.discord.cache.profiles@,
                    popup.user_id@,
                    popup.guild_id,
                    0,
                ) {
                    Some(i) => match self.discord.cache.profiles@[i].profile.avatar_url {
                        Some(a) => url matches Some(s) && s@ == a@,
                        None => url is None,
                    },
                    None => url is None,
                },
            },
    {
        match self.user_profile_popup_data() {
            Some(profile) => match &profile.avatar_url {
                Some(url) => Some(url.as_str()),
                None => None,
            },
            None => None,
        }
    }

    /// The activities shown in the open profile popup.
    pub fn user_profile_popup_activities(&self) -> (activities: &[ActivityInfo])
        ensures
            match self.popups.profile() {
                None => activities@.len() == 0,
                Some(popup) => match cached_activities_index(
                    self.discord.cache.activities@,
                    popup.guild_id,
                    popup.user_id@,
                    0,
                ) {
                    Some(i) => activities@ == self.discord.cache.activities@[i].activities@,
                    None => activities@.len() == 0,
                },
            },
    {
        match self.popups.user_profile_popup() {
            Some(popup) => self.discord.cache.user_activities_for_guild(popup.guild_id, popup.user_id),
            None => &[],
        }
    }

    /// First visible row of the profile popup body; 0 while it is closed.
    pub fn user_profile_popup_scroll(&self) -> (row: usize)
        ensures
            row == match self.popups.profile() {
                Some(popup) => popup.scroll.scroll,
                None => 0,
            },
    {
        match self.popups.user_profile_popup() {
            Some(popup) => popup.scroll.scroll(),
            None => 0,
        }
    }

    /// Renderer hook: records the viewport height of the profile popup so the
    /// scroll methods can stop at the last row.
    pub fn set_user_profile_popup_view_height(&mut self, height: usize)
        ensures
            match old(self).popups.profile() {
                Some(popup) => *final(self) == old(self).with_popups(
                    final(self).popups,
                ) && final(self).popups.profile() == Some(
                    UserProfilePopupState {
                        scroll: ScrollState { view_height: height, ..popup.scroll },
                        ..popup
                    },
                ),
                None => *final(self) == *old(self),
            },
    {
        let scroll = match self.popups.user_profile_popup() {
            Some(popup) => {
                let mut scroll = popup.scroll;
                scroll.set_view_height(height);
                scroll
            },
            None => return ,
        };
        self.popups.update_profile_scroll(scroll);
    }

    /// Renderer hook: records how many rows the profile popup body has.
    pub fn set_user_profile_popup_total_lines(&mut self, total_lines: usize)
        ensures
            match old(self).popups.profile() {
                Some(popup) => *final(self) == old(self).with_popups(
                    final(self).popups,
                ) && final(self).popups.profile() == Some(
                    UserProfilePopupState {
                        scroll: ScrollState { total_lines: total_lines, ..popup.scroll },
                        ..popup
                    },
                ),
                None => *final(self) == *old(self),
            },
    {
        let scroll = match self.popups.user_profile_popup() {
            Some(popup) => {
                let mut scroll = popup.scroll;
                scroll.set_total_lines(total_lines);
                scroll
            },
            None => return ,
        };
        self.popups.update_profile_scroll(scroll);
    }

    /// Scrolls the profile popup body one row down, not past its last row.
    pub fn scroll_user_profile_popup_down(&mut self)
        ensures
            match old(self).popups.profile() {
                Some(popup) => *final(self) == old(self).with_popups(
                    final(self).popups,
                ) && final(self).popups.profile() == Some(
                    UserProfilePopupState {
                        scroll: popup.scroll.scrolled_down(),
                        ..popup
                    },
                ),
                None => *final(self) == *old(self),
            },
    {
        let scroll = match self.popups.user_profile_popup() {
            Some(popup) => {
                let mut scroll = popup.scroll;
                scroll.scroll_down();
                scroll
            },
            None => return ,
        };
        self.popups.update_profile_scroll(scroll);
    }

    /// Scrolls the profile popup body one row up, not past its top.
    pub fn scroll_user_profile_popup_up(&mut self)
        ensures
            match old(self).popups.profile() {
                Some(popup) => *final(self) == old(self).with_popups(
                    final(self).popups,
                ) && final(self).popups.profile() == Some(
                    UserProfilePopupState {
                        scroll: popup.scroll.scrolled_up(),
                        ..popup
                    },
                ),
                None => *final(self) == *old(self),
            },
    {
        let scroll = match self.popups.user_profile_popup() {
            Some(popup) => {
                let mut scroll = popup.scroll;
                scroll.scroll_up();
                scroll
            },
            None => return ,
        };
        self.popups.update_profile_scroll(scroll);
    }
}

/// A freshly opened profile popup is the open modal popup, shows the top of
/// its body and no load error.
pub proof fn lemma_opened_profile_popup(
    state: DashboardState,
    user_id: Id<UserMarker>,
    guild_id: Option<Id<GuildMarker>>,
)
    ensures
        state.with_popups(profile_popup_for(user_id, guild_id)).popups.active_kind() == Some(
            ActiveModalPopupKind::UserProfile,
        ),
        state.with_popups(profile_popup_for(user_id, guild_id)).popups.profile() matches Some(p)
            && p.user_id == user_id && p.guild_id == guild_id && p.load_error is None
            && p.scroll.scroll == 0,
        state.with_popups(profile_popup_for(user_id, guild_id)).popups.member_action() is None,
{
}

/// Opening a member's profile from the member action menu leaves the menu
/// closed: at most one modal popup is open at a time.
pub proof fn lemma_profile_replaces_member_menu(
    state: DashboardState,
    action: MemberLeaderActionState,
)
    requires
        state.popups.member_action() == Some(action),
    ensures
        state.with_popups(profile_popup_for(action.user_id, action.guild_id)).popups.member_action()
            is None,
        state.with_popups(profile_popup_for(action.user_id, action.guild_id)).popups.profile()
            is Some,
{
}

/// The profile popup shows the guild member list's status whenever the
/// member list knows the user.
pub proof fn lemma_member_list_status_wins(state: DashboardState)
    requires
        state.popups.profile() matches Some(p) && p.guild_id matches Some(g) && member_status(
            state.discord.guild_members@,
            g@,
            p.user_id@,
        ) is Some,
    ensures
        Some(popup_status(state)) == member_status(
            state.discord.guild_members@,
            state.popups.profile()->0.guild_id->0@,
            state.popups.profile()->0.user_id@,
        ),
{
}

/// With no popup open, the profile popup status is unknown.
pub proof fn lemma_closed_popup_status_is_unknown(state: DashboardState)
    requires
        state.popups.profile() is None,
    ensures
        popup_status(state) == PresenceStatus::Unknown,
{
}

/// The status the profile popup shows, by precedence: the guild member list
/// when it knows the user, else the guild's presence updates, else the
/// first direct message channel that lists the user unless it shows an
/// unknown status, else the last presence seen anywhere, else unknown.
pub proof fn lemma_popup_status_precedence(state: DashboardState, p: UserProfilePopupState)
    requires
        state.popups.profile() == Some(p),
    ensures
        ({
            let user = p.user_id@;
            let from_members = match p.guild_id {
                Some(g) => member_status(state.discord.guild_members@, g@, user),
                None => None,
            };
            let from_guild = match p.guild_id {
                Some(g) => guild_presence(state.discord.guild_presences@, g@, user),
                None => None,
            };
            let from_recipient = direct_recipient_status(state.discord.direct_channels@, user);
            let cached = cached_presence(state.discord.cache.presences@, user);
            let recipient_known = from_recipient is Some && from_recipient->0
                != PresenceStatus::Unknown;
            &&& from_members is Some ==> popup_status(state) == from_members->0
            &&& (from_members is None && from_guild is Some) ==> popup_status(state)
                == from_guild->0
            &&& (from_members is None && from_guild is None && recipient_known) ==> popup_status(
                state,
            ) == from_recipient->0
            &&& (from_members is None && from_guild is None && !recipient_known && cached is Some)
                ==> popup_status(state) == cached->0
            &&& (from_members is None && from_guild is None && !recipient_known && cached is None)
                ==> popup_status(state) == PresenceStatus::Unknown
            &&& p.guild_id is None ==> from_members is None && from_guild is None
        }),
{
}

/// The member action menu is the leader popup in action mode, with no keys
/// typed, showing the actions of that member.
pub proof fn lemma_member_action_menu(popups: Popups, action: MemberLeaderActionState)
    requires
        is_member_action_menu(popups, action),
    ensures
        popups.member_action() == Some(action),
        popups.leader() matches Some(l) && l.mode == LeaderMode::Actions && l.keymap_prefix@.len()
            == 0,
        popups.active_kind() == Some(ActiveModalPopupKind::Leader),
{
}

/// The one entry of the member action menu shows the member's profile, is
/// labelled `Show profile` and is enabled.
pub proof fn lemma_show_profile_item(item: MemberActionItem)
    requires
        is_show_profile_item(item),
    ensures
        item.kind == MemberActionKind::ShowProfile,
        item.label@ == "Show profile"@,
        item.enabled,
{
}

} // verus!
