use discord_tui::commands::{AppCommand, PresenceStatus};
use discord_tui::ids::Id;
use discord_tui::keybindings::KeyBindings;
use discord_tui::keys::KeyChord;
use discord_tui::state::dashboard::{
    ActiveGuildScope, DashboardState, FocusPane, MemberActionKind, MemberEntry, Navigation,
};
use discord_tui::state::discord::{
    ActivityInfo, ActivityKind, CachedActivities, CachedPresence, CachedUserProfile,
    ChannelRecipientState, ChannelState, DiscordCache, DiscordState, GuildMemberState,
    GuildPresenceState, UserProfileInfo,
};
use discord_tui::state::popups::{ActiveModalPopupKind, ModalPopup, Popups};

fn profile(user: u64, avatar: Option<&str>) -> UserProfileInfo {
    UserProfileInfo {
        user_id: Id::new(user),
        username: format!("user{user}"),
        global_name: None,
        bio: None,
        avatar_url: avatar.map(str::to_owned),
    }
}

fn dashboard(focus: FocusPane, scope: ActiveGuildScope) -> DashboardState {
    DashboardState {
        navigation: Navigation { focus, active_guild: scope },
        members: vec![
            MemberEntry { user_id: Id::new(10), display_name: "ten".to_owned() },
            MemberEntry { user_id: Id::new(20), display_name: "twenty".to_owned() },
        ],
        selected_member: 1,
        popups: Popups { modal: None },
        discord: DiscordState {
            guild_members: Vec::new(),
            guild_presences: Vec::new(),
            direct_channels: Vec::new(),
            cache: DiscordCache {
                profiles: Vec::new(),
                presences: Vec::new(),
                activities: Vec::new(),
            },
        },
        key_bindings: KeyBindings::default(),
    }
}

fn is_load_profile(command: &Option<AppCommand>, user: u64, guild: Option<u64>) -> bool {
    match command {
        Some(AppCommand::LoadUserProfile { user_id, guild_id }) => {
            user_id.get() == user && guild_id.map(|g| g.get()) == guild
        }
        _ => false,
    }
}

#[test]
fn showing_the_selected_member_opens_their_profile() {
    let mut state = dashboard(FocusPane::Members, ActiveGuildScope::Guild(Id::new(5)));
    let command = state.show_selected_member_profile();
    assert!(is_load_profile(&command, 20, Some(5)));
    assert!(state.is_active_modal_popup(ActiveModalPopupKind::UserProfile));
    assert_eq!(state.user_profile_popup_scroll(), 0);
    assert_eq!(state.user_profile_popup_load_error(), None);
}

#[test]
fn showing_a_member_needs_the_member_pane() {
    let mut state = dashboard(FocusPane::Messages, ActiveGuildScope::Guild(Id::new(5)));
    assert!(state.show_selected_member_profile().is_none());
    assert!(state.popups.modal.is_none());

    let mut state = dashboard(FocusPane::Members, ActiveGuildScope::Unset);
    state.selected_member = 7;
    assert!(state.show_selected_member_profile().is_none());
    assert!(state.popups.modal.is_none());
}

#[test]
fn direct_message_panes_fetch_profiles_without_a_guild() {
    let mut state = dashboard(FocusPane::Members, ActiveGuildScope::DirectMessages);
    state.selected_member = 0;
    let command = state.show_selected_member_profile();
    assert!(is_load_profile(&command, 10, None));
}

#[test]
fn member_action_menu_offers_show_profile() {
    let mut state = dashboard(FocusPane::Members, ActiveGuildScope::Guild(Id::new(5)));
    assert!(state.selected_member_action_items().is_empty());
    state.open_selected_member_actions();
    assert!(state.is_member_leader_action_active());
    let items = state.selected_member_action_items();
    assert_eq!(items.len(), 1);
    assert_eq!(items[0].kind, MemberActionKind::ShowProfile);
    assert_eq!(items[0].label, "Show profile");
    assert!(items[0].enabled);
}

#[test]
fn selecting_member_action_rows() {
    let mut state = dashboard(FocusPane::Members, ActiveGuildScope::Unset);
    assert!(!state.select_member_action_row(0));
    state.open_selected_member_actions();
    assert!(state.select_member_action_row(0));
    assert!(!state.select_member_action_row(1));
    assert!(state.is_member_leader_action_active());
}

#[test]
fn activating_the_member_action_closes_the_menu_and_opens_the_profile() {
    let mut state = dashboard(FocusPane::Members, ActiveGuildScope::Guild(Id::new(9)));
    assert!(state.activate_selected_member_action().is_none());
    state.open_selected_member_actions();
    let command = state.activate_selected_member_action();
    assert!(is_load_profile(&command, 20, Some(9)));
    assert!(!state.is_member_leader_action_active());
    assert!(state.is_active_modal_popup(ActiveModalPopupKind::UserProfile));
}

#[test]
fn member_action_shortcut_runs_the_numbered_entry() {
    let mut state = dashboard(FocusPane::Members, ActiveGuildScope::Unset);
    state.open_selected_member_actions();
    assert!(state.activate_member_action_shortcut(KeyChord::char('2')).is_none());
    assert!(state.is_member_leader_action_active());
    let command = state.activate_member_action_shortcut(KeyChord::char('1'));
    assert!(is_load_profile(&command, 20, None));
    assert!(!state.is_member_leader_action_active());
}

#[test]
fn closing_popups_only_closes_the_matching_one() {
    let mut state = dashboard(FocusPane::Members, ActiveGuildScope::Unset);
    state.open_selected_member_actions();
    state.close_user_profile_popup();
    assert!(state.is_member_leader_action_active());
    state.close_member_leader_action();
    assert!(state.popups.modal.is_none());

    state.popups.modal = Some(ModalPopup::QuitConfirmation);
    state.close_member_leader_action();
    state.close_user_profile_popup();
    assert!(state.is_active_modal_popup(ActiveModalPopupKind::QuitConfirmation));

    state.open_user_profile_popup(Id::new(3), None);
    state.close_user_profile_popup();
    assert!(state.popups.modal.is_none());
}

#[test]
fn profile_popup_shows_cached_profile_and_avatar() {
    let mut state = dashboard(FocusPane::Members, ActiveGuildScope::Unset);
    state.discord.cache.profiles.push(CachedUserProfile {
        user_id: Id::new(3),
        guild_id: Some(Id::new(5)),
        profile: profile(3, Some("https://cdn.example/guild.png")),
    });
    state.discord.cache.profiles.push(CachedUserProfile {
        user_id: Id::new(3),
        guild_id: None,
        profile: profile(3, Some("https://cdn.example/a.png")),
    });
    assert!(state.user_profile_popup_data().is_none());
    assert_eq!(state.user_profile_popup_avatar_url(), None);

    state.open_user_profile_popup(Id::new(3), None);
    assert_eq!(state.user_profile_popup_data().unwrap().username, "user3");
    assert_eq!(state.user_profile_popup_avatar_url(), Some("https://cdn.example/a.png"));

    state.open_user_profile_popup(Id::new(3), Some(Id::new(5)));
    assert_eq!(state.user_profile_popup_avatar_url(), Some("https://cdn.example/guild.png"));

    state.open_user_profile_popup(Id::new(4), None);
    assert!(state.user_profile_popup_data().is_none());
}

#[test]
fn profile_popup_reports_its_load_error() {
    let mut state = dashboard(FocusPane::Members, ActiveGuildScope::Unset);
    state.open_user_profile_popup(Id::new(3), None);
    if let Some(ModalPopup::UserProfile(popup)) = &mut state.popups.modal {
        popup.load_error = Some("profile request failed".to_owned());
    }
    assert_eq!(state.user_profile_popup_load_error(), Some("profile request failed"));
}

#[test]
fn profile_popup_activities_follow_the_guild_scope() {
    let mut state = dashboard(FocusPane::Members, ActiveGuildScope::Unset);
    state.discord.cache.activities.push(CachedActivities {
        guild_id: Some(Id::new(5)),
        user_id: Id::new(3),
        activities: vec![ActivityInfo {
            kind: ActivityKind::Playing,
            name: "chess".to_owned(),
            details: None,
        }],
    });
    assert!(state.user_profile_popup_activities().is_empty());
    state.open_user_profile_popup(Id::new(3), None);
    assert!(state.user_profile_popup_activities().is_empty());
    state.open_user_profile_popup(Id::new(3), Some(Id::new(5)));
    assert_eq!(state.user_profile_popup_activities().len(), 1);
    assert_eq!(state.user_profile_popup_activities()[0].name, "chess");
}

#[test]
fn profile_popup_status_prefers_the_member_list() {
    let mut state = dashboard(FocusPane::Members, ActiveGuildScope::Unset);
    assert_eq!(state.user_profile_popup_status(), PresenceStatus::Unknown);
    state.discord.cache.presences.push(CachedPresence {
        user_id: Id::new(3),
        status: PresenceStatus::Offline,
    });
    state.discord.direct_channels.push(ChannelState {
        channel_id: Id::new(40),
        recipients: vec![ChannelRecipientState { user_id: Id::new(3), status: PresenceStatus::Unknown }],
    });
    state.open_user_profile_popup(Id::new(3), Some(Id::new(5)));
    // the direct message recipient shows nothing useful: the cache answers
    assert_eq!(state.user_profile_popup_status(), PresenceStatus::Offline);

    state.discord.direct_channels.push(ChannelState {
        channel_id: Id::new(41),
        recipients: vec![ChannelRecipientState { user_id: Id::new(3), status: PresenceStatus::Idle }],
    });
    // the first channel that lists the user decides, even when it is unknown
    assert_eq!(state.user_profile_popup_status(), PresenceStatus::Offline);
    state.discord.direct_channels.remove(0);
    assert_eq!(state.user_profile_popup_status(), PresenceStatus::Idle);

    state.discord.guild_presences.push(GuildPresenceState {
        guild_id: Id::new(5),
        user_id: Id::new(3),
        status: PresenceStatus::DoNotDisturb,
    });
    assert_eq!(state.user_profile_popup_status(), PresenceStatus::DoNotDisturb);

    state.discord.guild_members.push(GuildMemberState {
        guild_id: Id::new(6),
        user_id: Id::new(3),
        status: PresenceStatus::Invisible,
    });
    assert_eq!(state.user_profile_popup_status(), PresenceStatus::DoNotDisturb);
    state.discord.guild_members.push(GuildMemberState {
        guild_id: Id::new(5),
        user_id: Id::new(3),
        status: PresenceStatus::Online,
    });
    assert_eq!(state.user_profile_popup_status(), PresenceStatus::Online);

    // outside a guild only the direct message and cached presences count
    state.open_user_profile_popup(Id::new(3), None);
    assert_eq!(state.user_profile_popup_status(), PresenceStatus::Idle);
}

#[test]
fn profile_popup_scrolls_within_its_content() {
    let mut state = dashboard(FocusPane::Members, ActiveGuildScope::Unset);
    state.scroll_user_profile_popup_down();
    assert_eq!(state.user_profile_popup_scroll(), 0);
    state.open_user_profile_popup(Id::new(3), None);
    state.set_user_profile_popup_view_height(3);
    state.set_user_profile_popup_total_lines(5);
    state.scroll_user_profile_popup_down();
    assert_eq!(state.user_profile_popup_scroll(), 1);
    state.scroll_user_profile_popup_down();
    state.scroll_user_profile_popup_down();
    assert_eq!(state.user_profile_popup_scroll(), 2);
    state.scroll_user_profile_popup_up();
    assert_eq!(state.user_profile_popup_scroll(), 1);
    state.scroll_user_profile_popup_up();
    state.scroll_user_profile_popup_up();
    assert_eq!(state.user_profile_popup_scroll(), 0);
    state.set_user_profile_popup_total_lines(2);
    state.scroll_user_profile_popup_down();
    assert_eq!(state.user_profile_popup_scroll(), 0);
}
