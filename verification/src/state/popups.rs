//! Modal popups of the dashboard and the small pieces of state they keep.
use crate::ids::{GuildMarker, Id, UserMarker};
use crate::keys::KeyChord;
use vstd::prelude::*;

verus! {

/// A row selection in a list popup.
#[derive(Clone, Copy, Debug, PartialEq, Eq, Structural)]
pub struct ListSelection {
    pub selected: usize,
}

impl ListSelection {
    /// The selection of a freshly opened list: its first row.
    pub open spec fn initial() -> Self {
        ListSelection { selected: 0 }
    }

    /// The row that is selected in a list of `len` rows: the chosen row,
    /// pulled back onto the last row when the list got shorter.
    pub open spec fn spec_selected_for_len(self, len: int) -> int {
        if len <= 0 {
            0
        } else if self.selected < len {
            self.selected as int
        } else {
            len - 1
        }
    }

    pub fn select(&mut self, row: usize)
        ensures
            final(self).selected == row,
    {
        self.selected = row;
    }

    pub fn selected_for_len(&self, len: usize) -> (row: usize)
        ensures
            row == self.spec_selected_for_len(len as int),
    {
        if len == 0 {
            0
        } else if self.selected < len {
            self.selected
        } else {
            len - 1
        }
    }
}

impl Default for ListSelection {
    fn default() -> (selection: Self)
        ensures
            selection == ListSelection::initial(),
    {
        ListSelection { selected: 0 }
    }
}

/// Vertical scrolling of a popup body: the first visible row, and the sizes
/// that the renderer last reported.
#[derive(Clone, Copy, Debug, PartialEq, Eq, Structural)]
pub struct ScrollState {
    pub scroll: usize,
    pub view_height: usize,
    pub total_lines: usize,
}

impl ScrollState {
    /// The scroll state of a freshly opened popup.
    pub open spec fn initial() -> Self {
        ScrollState { scroll: 0, view_height: 0, total_lines: 0 }
    }

    /// The last first-visible row that still fills the viewport.
    pub open spec fn max_scroll(self) -> int {
        if self.total_lines > self.view_height {
            self.total_lines - self.view_height
        } else {
            0
        }
    }

    /// One row down, not past the last row that fills the viewport.
    pub open spec fn scrolled_down(self) -> Self {
        ScrollState {
            scroll: if self.scroll + 1 <= self.max_scroll() {
                (self.scroll + 1) as usize
            } else {
                self.max_scroll() as usize
            },
            ..self
        }
    }

    /// One row up, not past the top.
    pub open spec fn scrolled_up(self) -> Self {
        ScrollState { scroll: if self.scroll > 0 { (self.scroll - 1) as usize } else { 0 }, ..self }
    }

    pub fn scroll(&self) -> (row: usize)
        ensures
            row == self.scroll,
    {
        self.scroll
    }

    pub fn set_view_height(&mut self, height: usize)
        ensures
            *final(self) == (ScrollState { view_height: height, ..*old(self) }),
    {
        self.view_height = height;
    }

    pub fn set_total_lines(&mut self, total_lines: usize)
        ensures
            *final(self) == (ScrollState { total_lines: total_lines, ..*old(self) }),
    {
        self.total_lines = total_lines;
    }

    /// Moves one row down, never past the last row that fills the viewport.
    pub fn scroll_down(&mut self)
        ensures
            *final(self) == old(self).scrolled_down(),
    {
        let max_scroll = self.total_lines.saturating_sub(self.view_height);
        let next = self.scroll.saturating_add(1);
        self.scroll = if next <= max_scroll { next } else { max_scroll };
    }

    /// Moves one row up, stopping at the top.
    pub fn scroll_up(&mut self)
        ensures
            *final(self) == old(self).scrolled_up(),
    {
        self.scroll = self.scroll.saturating_sub(1);
    }
}

/// Scrolling down from a row above the last one, then up, comes back to the
/// same row.
pub proof fn lemma_scroll_down_then_up(state: ScrollState)
    requires
        state.scroll < state.max_scroll(),
    ensures
        state.scrolled_down().scrolled_up() == state,
{
}

/// Scrolling down never goes past the last row that fills the viewport, and
/// scrolling up never goes below the top.
pub proof fn lemma_scroll_stays_in_range(state: ScrollState)
    requires
        state.scroll <= state.max_scroll(),
    ensures
        state.scrolled_down().scroll <= state.scrolled_down().max_scroll(),
        state.scrolled_up().scroll <= state.scrolled_up().max_scroll(),
        state.scrolled_down().scroll >= state.scroll,
        state.scrolled_up().scroll <= state.scroll,
{
}

impl Default for ScrollState {
    fn default() -> (state: Self)
        ensures
            state == ScrollState::initial(),
    {
        ScrollState { scroll: 0, view_height: 0, total_lines: 0 }
    }
}

/// Leader actions offered for a member of the member pane.
#[derive(Clone, Copy, Debug)]
pub struct MemberLeaderActionState {
    pub user_id: Id<UserMarker>,
    pub guild_id: Option<Id<GuildMarker>>,
    pub selection: ListSelection,
}

/// Whether the leader popup shows the keymap or an action menu.
#[derive(Clone, Copy, Debug, PartialEq, Eq, Structural)]
pub enum LeaderMode {
    Keymap,
    Actions,
}

/// The action menu that the leader popup shows.
#[derive(Clone, Copy, Debug)]
pub enum LeaderActionState {
    Message(ListSelection),
    Channel(ListSelection),
    Guild(ListSelection),
    Member(MemberLeaderActionState),
}

/// The leader popup: the keys typed so far and the action menu, if any.
#[derive(Clone, Debug)]
pub struct LeaderPopupState {
    pub mode: LeaderMode,
    pub keymap_prefix: Vec<KeyChord>,
    pub action: Option<LeaderActionState>,
}

/// The profile popup of a user.
#[derive(Clone, Debug)]
pub struct UserProfilePopupState {
    pub user_id: Id<UserMarker>,
    pub guild_id: Option<Id<GuildMarker>>,
    pub load_error: Option<String>,
    pub scroll: ScrollState,
}

/// The modal popup on top of the dashboard.
#[derive(Clone, Debug)]
pub enum ModalPopup {
    KeymapHelp,
    DebugLog,
    QuitConfirmation,
    Options,
    ReactionUsers,
    MessageDeleteConfirmation,
    MessagePinConfirmation,
    GuildLeaveConfirmation,
    PollVotePicker,
    EmojiReactionPicker,
    MessageActionMenu,
    MessageUrlPicker,
    AttachmentViewer,
    Leader(LeaderPopupState),
    UserProfile(UserProfilePopupState),
    ChannelSwitcher,
}

/// Which modal popup is open.
#[derive(Clone, Copy, Debug, PartialEq, Eq, Structural)]
pub enum ActiveModalPopupKind {
    KeymapHelp,
    DebugLog,
    QuitConfirmation,
    Options,
    ReactionUsers,
    MessageDeleteConfirmation,
    MessagePinConfirmation,
    GuildLeaveConfirmation,
    PollVotePicker,
    EmojiReactionPicker,
    MessageActionMenu,
    MessageUrlPicker,
    AttachmentViewer,
    Leader,
    UserProfile,
    ChannelSwitcher,
}

/// The kind of a modal popup.
pub open spec fn spec_modal_kind(modal: ModalPopup) -> ActiveModalPopupKind {
    match modal {
        ModalPopup::KeymapHelp => ActiveModalPopupKind::KeymapHelp,
        ModalPopup::DebugLog => ActiveModalPopupKind::DebugLog,
        ModalPopup::QuitConfirmation => ActiveModalPopupKind::QuitConfirmation,
        ModalPopup::Options => ActiveModalPopupKind::Options,
        ModalPopup::ReactionUsers => ActiveModalPopupKind::ReactionUsers,
        ModalPopup::MessageDeleteConfirmation => ActiveModalPopupKind::MessageDeleteConfirmation,
        ModalPopup::MessagePinConfirmation => ActiveModalPopupKind::MessagePinConfirmation,
        ModalPopup::GuildLeaveConfirmation => ActiveModalPopupKind::GuildLeaveConfirmation,
        ModalPopup::PollVotePicker => ActiveModalPopupKind::PollVotePicker,
        ModalPopup::EmojiReactionPicker => ActiveModalPopupKind::EmojiReactionPicker,
        ModalPopup::MessageActionMenu => ActiveModalPopupKind::MessageActionMenu,
        ModalPopup::MessageUrlPicker => ActiveModalPopupKind::MessageUrlPicker,
        ModalPopup::AttachmentViewer => ActiveModalPopupKind::AttachmentViewer,
        ModalPopup::Leader(..) => ActiveModalPopupKind::Leader,
        ModalPopup::UserProfile(..) => ActiveModalPopupKind::UserProfile,
        ModalPopup::ChannelSwitcher => ActiveModalPopupKind::ChannelSwitcher,
    }
}

/// The kind of a modal popup.
pub fn modal_kind(modal: &ModalPopup) -> (kind: ActiveModalPopupKind)
    ensures
        kind == spec_modal_kind(*modal),
{
    match modal {
        ModalPopup::KeymapHelp => ActiveModalPopupKind::KeymapHelp,
        ModalPopup::DebugLog => ActiveModalPopupKind::DebugLog,
        ModalPopup::QuitConfirmation => ActiveModalPopupKind::QuitConfirmation,
        ModalPopup::Options => ActiveModalPopupKind::Options,
        ModalPopup::ReactionUsers => ActiveModalPopupKind::ReactionUsers,
        ModalPopup::MessageDeleteConfirmation => ActiveModalPopupKind::MessageDeleteConfirmation,
        ModalPopup::MessagePinConfirmation => ActiveModalPopupKind::MessagePinConfirmation,
        ModalPopup::GuildLeaveConfirmation => ActiveModalPopupKind::GuildLeaveConfirmation,
        ModalPopup::PollVotePicker => ActiveModalPopupKind::PollVotePicker,
        ModalPopup::EmojiReactionPicker => ActiveModalPopupKind::EmojiReactionPicker,
        ModalPopup::MessageActionMenu => ActiveModalPopupKind::MessageActionMenu,
        ModalPopup::MessageUrlPicker => ActiveModalPopupKind::MessageUrlPicker,
        ModalPopup::AttachmentViewer => ActiveModalPopupKind::AttachmentViewer,
        ModalPopup::Leader(..) => ActiveModalPopupKind::Leader,
        ModalPopup::UserProfile(..) => ActiveModalPopupKind::UserProfile,
        ModalPopup::ChannelSwitcher => ActiveModalPopupKind::ChannelSwitcher,
    }
}

/// The popups layer of the dashboard: at most one modal popup is open.
#[derive(Clone, Debug)]
pub struct Popups {
    pub modal: Option<ModalPopup>,
}

impl Popups {
    /// The member action menu, when the leader popup shows one.
    pub open spec fn member_action(self) -> Option<MemberLeaderActionState> {
        match self.modal {
            Some(ModalPopup::Leader(leader)) => match leader.action {
                Some(LeaderActionState::Member(action)) => Some(action),
                _ => None,
            },
            _ => None,
        }
    }

    /// The profile popup, when it is open.
    pub open spec fn profile(self) -> Option<UserProfilePopupState> {
        match self.modal {
            Some(ModalPopup::UserProfile(popup)) => Some(popup),
            _ => None,
        }
    }

    /// The leader popup, when it is the open modal popup.
    pub open spec fn leader(self) -> Option<LeaderPopupState> {
        match self.modal {
            Some(ModalPopup::Leader(leader)) => Some(leader),
            _ => None,
        }
    }

    /// The kind of the open modal popup.
    pub open spec fn active_kind(self) -> Option<ActiveModalPopupKind> {
        match self.modal {
            Some(modal) => Some(spec_modal_kind(modal)),
            None => None,
        }
    }

    pub fn member_leader_action(&self) -> (action: Option<&MemberLeaderActionState>)
        ensures
            match self.member_action() {
                Some(a) => action == Some(&a),
                None => action is None,
            },
    {
        match &self.modal {
            Some(ModalPopup::Leader(leader)) => match &leader.action {
                Some(LeaderActionState::Member(action)) => Some(action),
                _ => None,
            },
            _ => None,
        }
    }

    pub fn user_profile_popup(&self) -> (popup: Option<&UserProfilePopupState>)
        ensures
            match self.profile() {
                Some(p) => popup == Some(&p),
                None => popup is None,
            },
    {
        match &self.modal {
            Some(ModalPopup::UserProfile(popup)) => Some(popup),
            _ => None,
        }
    }

    pub fn active_modal_popup_kind(&self) -> (kind: Option<ActiveModalPopupKind>)
        ensures
            kind == self.active_kind(),
    {
        match &self.modal {
            Some(modal) => Some(modal_kind(modal)),
            None => None,
        }
    }

    pub fn clear_modal(&mut self)
        ensures
            final(self).modal is None,
    {
        self.modal = None;
    }

    /// Selects `row` of the member action menu, when one is shown; nothing
    /// else changes: the leader popup keeps its mode and its keymap prefix.
    pub fn select_member_action(&mut self, row: usize)
        ensures
            match old(self).member_action() {
                Some(a) => {
                    &&& final(self).modal == Some(
                        ModalPopup::Leader(
                            LeaderPopupState {
                                action: Some(
                                    LeaderActionState::Member(
                                        MemberLeaderActionState {
                                            selection: ListSelection { selected: row },
                                            ..a
                                        },
                                    ),
                                ),
                                ..old(self).leader()->0
                            },
                        ),
                    )
                    &&& final(self).member_action() == Some(
                        MemberLeaderActionState { selection: ListSelection { selected: row }, ..a },
                    )
                    &&& final(self).active_kind() == old(self).active_kind()
                    &&& final(self).leader()->0.mode == old(self).leader()->0.mode
                    &&& final(self).leader()->0.keymap_prefix@ == old(self).leader()->0.keymap_prefix@
                },
                None => *final(self) == *old(self),
            },
    {
        match self.modal.take() {
            Some(ModalPopup::Leader(leader)) => {
                let LeaderPopupState { mode, keymap_prefix, action } = leader;
                let action = match action {
                    Some(LeaderActionState::Member(member)) => {
                        let mut member = member;
                        member.selection.select(row);
                        Some(LeaderActionState::Member(member))
                    },
                    other => other,
                };
                self.modal = Some(ModalPopup::Leader(LeaderPopupState { mode, keymap_prefix, action }));
            },
            other => {
                self.modal = other;
            },
        }
    }

    /// Replaces the scroll state of the profile popup with `scroll`, when the
    /// popup is open; nothing else changes.
    pub fn update_profile_scroll(&mut self, scroll: ScrollState)
        ensures
            match old(self).profile() {
                Some(p) => final(self).profile() == Some(
                    UserProfilePopupState { scroll: scroll, ..p },
                ),
                None => *final(self) == *old(self),
            },
    {
        match self.modal.take() {
            Some(ModalPopup::UserProfile(popup)) => {
                let UserProfilePopupState { user_id, guild_id, load_error, scroll: _ } = popup;
                self.modal = Some(
                    ModalPopup::UserProfile(
                        UserProfilePopupState { user_id, guild_id, load_error, scroll },
                    ),
                );
            },
            other => {
                self.modal = other;
            },
        }
    }
}

/// The selected row of a list stays on the list: the chosen row while the
/// list still has it, the last row once the list got shorter, and the first
/// row of an empty list.
pub proof fn lemma_selection_stays_on_the_list(selection: ListSelection, len: int)
    ensures
        len > 0 ==> 0 <= selection.spec_selected_for_len(len) < len,
        selection.selected < len ==> selection.spec_selected_for_len(len) == selection.selected,
        len > 0 && selection.selected >= len ==> selection.spec_selected_for_len(len) == len - 1,
        len <= 0 ==> selection.spec_selected_for_len(len) == 0,
        ListSelection::initial().selected == 0,
{
}

/// The last row that fills the viewport is as far down as the body is
/// longer than the viewport; scrolling moves one row at a time, down until
/// that row and up until the top, and changes nothing else.
pub proof fn lemma_scroll_steps(state: ScrollState)
    ensures
        state.max_scroll() == (if state.total_lines > state.view_height {
            state.total_lines - state.view_height
        } else {
            0
        }),
        state.scroll < state.max_scroll() ==> state.scrolled_down().scroll == state.scroll + 1,
        state.scroll >= state.max_scroll() ==> state.scrolled_down().scroll == state.max_scroll(),
        state.scroll > 0 ==> state.scrolled_up().scroll == state.scroll - 1,
        state.scroll == 0 ==> state.scrolled_up().scroll == 0,
        state.scrolled_down().view_height == state.view_height && state.scrolled_down().total_lines
            == state.total_lines,
        state.scrolled_up().view_height == state.view_height && state.scrolled_up().total_lines
            == state.total_lines,
        ScrollState::initial() == (ScrollState { scroll: 0, view_height: 0, total_lines: 0 }),
{
}

/// Each modal popup is of its own kind.
pub proof fn lemma_modal_kinds(leader: LeaderPopupState, profile: UserProfilePopupState)
    ensures
        spec_modal_kind(ModalPopup::KeymapHelp) == ActiveModalPopupKind::KeymapHelp,
        spec_modal_kind(ModalPopup::DebugLog) == ActiveModalPopupKind::DebugLog,
        spec_modal_kind(ModalPopup::QuitConfirmation) == ActiveModalPopupKind::QuitConfirmation,
        spec_modal_kind(ModalPopup::Options) == ActiveModalPopupKind::Options,
        spec_modal_kind(ModalPopup::ReactionUsers) == ActiveModalPopupKind::ReactionUsers,
        spec_modal_kind(ModalPopup::MessageDeleteConfirmation)
            == ActiveModalPopupKind::MessageDeleteConfirmation,
        spec_modal_kind(ModalPopup::MessagePinConfirmation)
            == ActiveModalPopupKind::MessagePinConfirmation,
        spec_modal_kind(ModalPopup::GuildLeaveConfirmation)
            == ActiveModalPopupKind::GuildLeaveConfirmation,
        spec_modal_kind(ModalPopup::PollVotePicker) == ActiveModalPopupKind::PollVotePicker,
        spec_modal_kind(ModalPopup::EmojiReactionPicker)
            == ActiveModalPopupKind::EmojiReactionPicker,
        spec_modal_kind(ModalPopup::MessageActionMenu) == ActiveModalPopupKind::MessageActionMenu,
        spec_modal_kind(ModalPopup::MessageUrlPicker) == ActiveModalPopupKind::MessageUrlPicker,
        spec_modal_kind(ModalPopup::AttachmentViewer) == ActiveModalPopupKind::AttachmentViewer,
        spec_modal_kind(ModalPopup::Leader(leader)) == ActiveModalPopupKind::Leader,
        spec_modal_kind(ModalPopup::UserProfile(profile)) == ActiveModalPopupKind::UserProfile,
        spec_modal_kind(ModalPopup::ChannelSwitcher) == ActiveModalPopupKind::ChannelSwitcher,
{
}

/// The member action menu is the one a leader popup shows for a member; the
/// profile popup and the leader popup are the open popup of that kind;
/// nothing is open without a modal popup.
pub proof fn lemma_open_popup_parts(popups: Popups, leader: LeaderPopupState, action: MemberLeaderActionState)
    ensures
        popups.modal is None ==> popups.active_kind() is None && popups.member_action() is None
            && popups.profile() is None && popups.leader() is None,
        popups.modal matches Some(m) ==> popups.active_kind() == Some(spec_modal_kind(m)),
        popups.modal == Some(ModalPopup::Leader(leader)) ==> popups.leader() == Some(leader),
        popups.modal matches Some(ModalPopup::UserProfile(p)) ==> popups.profile() == Some(p),
        popups.leader() matches Some(l) ==> (popups.member_action() == Some(action) <==> l.action
            == Some(LeaderActionState::Member(action))),
        popups.leader() is None ==> popups.member_action() is None,
{
}

} // verus!
