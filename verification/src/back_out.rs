//! The order in which Back steps out of nested views, and what the leader
//! popup does with a key: each step is tried only when the one before it
//! did not apply.
use crate::keybindings::{spec_indexed_shortcut_matches, KeyBindings};
use crate::keyboard::{LeaderActionMenuAction, UiAction};
use crate::keys::KeyChord;
use vstd::prelude::*;

verus! {

/// A view that Back in the dashboard steps out of.
#[derive(Clone, Copy, Debug, PartialEq, Eq, Structural)]
pub enum ReturnAttempt {
    PinnedMessageView,
    OpenedThread,
}

/// The next view Back tries to leave, given the last one tried and whether
/// leaving it succeeded: first the pinned message view, then, only when that
/// view was not shown, the opened thread.
pub open spec fn spec_return_attempt_after(previous: Option<(ReturnAttempt, bool)>) -> Option<ReturnAttempt> {
    match previous {
        None => Some(ReturnAttempt::PinnedMessageView),
        Some((ReturnAttempt::PinnedMessageView, false)) => Some(ReturnAttempt::OpenedThread),
        Some(_) => None,
    }
}

/// The next view Back tries to leave; `None` when Back is done.
pub fn return_attempt_after(previous: Option<(ReturnAttempt, bool)>) -> (next: Option<ReturnAttempt>)
    ensures
        next == spec_return_attempt_after(previous),
{
    match previous {
        None => Some(ReturnAttempt::PinnedMessageView),
        Some((ReturnAttempt::PinnedMessageView, false)) => Some(ReturnAttempt::OpenedThread),
        Some(_) => None,
    }
}

/// Back leaves the opened thread exactly when leaving the pinned message
/// view failed, and it stops after the thread whatever came of it.
pub proof fn lemma_thread_left_only_after_pinned_view(left_pinned_view: bool, left_thread: bool)
    ensures
        spec_return_attempt_after(None) == Some(ReturnAttempt::PinnedMessageView),
        spec_return_attempt_after(Some((ReturnAttempt::PinnedMessageView, left_pinned_view)))
            == Some(ReturnAttempt::OpenedThread) <==> !left_pinned_view,
        spec_return_attempt_after(Some((ReturnAttempt::OpenedThread, left_thread))) is None,
{
}

/// A submenu of the leader action menus that Back steps out of.
#[derive(Clone, Copy, Debug, PartialEq, Eq, Structural)]
pub enum LeaderBackOut {
    ChannelSubmenu,
    GuildSubmenu,
}

/// The next submenu that a leader menu key steps out of: only Back does,
/// and only when no URL picker is open (Back then closes the picker); it
/// tries the channel submenu first and the guild submenu only when the
/// channel one had nothing to step back from.
pub open spec fn spec_leader_back_out_after(
    action: LeaderActionMenuAction,
    url_picker_open: bool,
    previous: Option<(LeaderBackOut, bool)>,
) -> Option<LeaderBackOut> {
    if action != LeaderActionMenuAction::BackOrClose || url_picker_open {
        None
    } else {
        match previous {
            None => Some(LeaderBackOut::ChannelSubmenu),
            Some((LeaderBackOut::ChannelSubmenu, false)) => Some(LeaderBackOut::GuildSubmenu),
            Some(_) => None,
        }
    }
}

/// The next submenu a leader menu key tries to step out of; `None` when
/// there is nothing more to try.
pub fn leader_back_out_after(
    action: LeaderActionMenuAction,
    url_picker_open: bool,
    previous: Option<(LeaderBackOut, bool)>,
) -> (next: Option<LeaderBackOut>)
    ensures
        next == spec_leader_back_out_after(action, url_picker_open, previous),
{
    match action {
        LeaderActionMenuAction::BackOrClose => {},
        _ => return None,
    }
    if url_picker_open {
        return None;
    }
    match previous {
        None => Some(LeaderBackOut::ChannelSubmenu),
        Some((LeaderBackOut::ChannelSubmenu, false)) => Some(LeaderBackOut::GuildSubmenu),
        Some(_) => None,
    }
}

/// The guild submenu is stepped out of only when the channel submenu was
/// tried first and had nothing to step back from; keys other than Back
/// never step out of a submenu.
pub proof fn lemma_guild_back_out_only_after_channel(
    action: LeaderActionMenuAction,
    url_picker_open: bool,
    previous: Option<(LeaderBackOut, bool)>,
)
    ensures
        spec_leader_back_out_after(action, url_picker_open, previous) == Some(
            LeaderBackOut::GuildSubmenu,
        ) <==> (action == LeaderActionMenuAction::BackOrClose && !url_picker_open && previous
            == Some((LeaderBackOut::ChannelSubmenu, false))),
        action != LeaderActionMenuAction::BackOrClose ==> spec_leader_back_out_after(
            action,
            url_picker_open,
            previous,
        ) is None,
{
}

/// What the global key map says of the keys typed since the leader key.
#[derive(Clone, Copy, Debug, PartialEq, Eq, Structural)]
pub enum KeyMapLookup {
    /// The keys begin a longer binding.
    Pending,
    /// The keys are bound to an action.
    Action(UiAction),
}

/// What the leader popup does with a key.
#[derive(Clone, Copy, Debug, PartialEq, Eq, Structural)]
pub enum LeaderKeyStep {
    /// The action menus are shown: the key is an action menu key.
    ActionMenuKey,
    /// The key continues a binding: it is added to the typed keys and the
    /// popup stays open.
    PushChord,
    /// The key completes a binding: the popup closes, then the action runs
    /// and its command is handed back.
    CloseThenRun(UiAction),
    /// The key is bound to nothing after the typed keys: the popup closes.
    Close,
}

pub open spec fn spec_leader_key_step(action_mode: bool, lookup: Option<KeyMapLookup>) -> LeaderKeyStep {
    if action_mode {
        LeaderKeyStep::ActionMenuKey
    } else {
        match lookup {
            Some(KeyMapLookup::Pending) => LeaderKeyStep::PushChord,
            Some(KeyMapLookup::Action(action)) => LeaderKeyStep::CloseThenRun(action),
            None => LeaderKeyStep::Close,
        }
    }
}

/// What the leader popup does with a key: in action mode the action menus
/// take it; otherwise the global key map decides. A key bound to nothing
/// closes the popup, whether or not a longer binding was under way.
pub fn leader_key_step(action_mode: bool, lookup: Option<KeyMapLookup>) -> (step: LeaderKeyStep)
    ensures
        step == spec_leader_key_step(action_mode, lookup),
{
    if action_mode {
        return LeaderKeyStep::ActionMenuKey;
    }
    match lookup {
        Some(KeyMapLookup::Pending) => LeaderKeyStep::PushChord,
        Some(KeyMapLookup::Action(action)) => LeaderKeyStep::CloseThenRun(action),
        None => LeaderKeyStep::Close,
    }
}

/// Where the shortcuts of the open channel action menu come from: the
/// numbered shortcuts of the thread list or of the mute durations while one
/// of those is shown, otherwise the channel actions' own shortcuts.
#[derive(Clone, Copy, Debug, PartialEq, Eq, Structural)]
pub enum ChannelShortcutSource {
    Threads,
    MuteDurations,
    Actions,
}

pub open spec fn channel_shortcut_source_of(threads_phase: bool, mute_duration_phase: bool) -> ChannelShortcutSource {
    if threads_phase {
        ChannelShortcutSource::Threads
    } else if mute_duration_phase {
        ChannelShortcutSource::MuteDurations
    } else {
        ChannelShortcutSource::Actions
    }
}

/// The threads list comes before the mute durations, which come before the
/// channel actions.
pub fn channel_shortcut_source(threads_phase: bool, mute_duration_phase: bool) -> (source:
    ChannelShortcutSource)
    ensures
        source == channel_shortcut_source_of(threads_phase, mute_duration_phase),
{
    if threads_phase {
        ChannelShortcutSource::Threads
    } else if mute_duration_phase {
        ChannelShortcutSource::MuteDurations
    } else {
        ChannelShortcutSource::Actions
    }
}

/// Where the shortcuts of the open guild action menu come from.
#[derive(Clone, Copy, Debug, PartialEq, Eq, Structural)]
pub enum GuildShortcutSource {
    MuteDurations,
    Actions,
}

/// The mute durations, while they are shown, come before the guild actions.
pub fn guild_shortcut_source(mute_duration_phase: bool) -> (source: GuildShortcutSource)
    ensures
        source == (if mute_duration_phase {
            GuildShortcutSource::MuteDurations
        } else {
            GuildShortcutSource::Actions
        }),
{
    if mute_duration_phase {
        GuildShortcutSource::MuteDurations
    } else {
        GuildShortcutSource::Actions
    }
}

/// Back in the leader menus first tries the channel submenu, and stops as
/// soon as stepping out succeeded or the guild submenu was tried.
pub proof fn lemma_leader_back_out_order(url_picker_open: bool, stepped_out: bool)
    ensures
        spec_leader_back_out_after(LeaderActionMenuAction::BackOrClose, false, None) == Some(
            LeaderBackOut::ChannelSubmenu,
        ),
        spec_leader_back_out_after(
            LeaderActionMenuAction::BackOrClose,
            url_picker_open,
            Some((LeaderBackOut::ChannelSubmenu, true)),
        ) is None,
        spec_leader_back_out_after(
            LeaderActionMenuAction::BackOrClose,
            url_picker_open,
            Some((LeaderBackOut::GuildSubmenu, stepped_out)),
        ) is None,
        spec_leader_back_out_after(LeaderActionMenuAction::BackOrClose, true, None) is None,
{
}

/// In action mode every key goes to the action menus; otherwise a key that
/// continues a binding is added to the typed keys, a key that completes one
/// closes the popup and runs that very action, and a key bound to nothing
/// closes the popup.
pub proof fn lemma_leader_keys(lookup: Option<KeyMapLookup>, action: UiAction)
    ensures
        spec_leader_key_step(true, lookup) == LeaderKeyStep::ActionMenuKey,
        spec_leader_key_step(false, Some(KeyMapLookup::Pending)) == LeaderKeyStep::PushChord,
        spec_leader_key_step(false, Some(KeyMapLookup::Action(action)))
            == LeaderKeyStep::CloseThenRun(action),
        spec_leader_key_step(false, None) == LeaderKeyStep::Close,
{
}

/// While the thread list is shown its numbers are the shortcuts, whatever
/// else is shown; the mute durations come next; the channel actions' own
/// shortcuts apply only when neither list is shown.
pub proof fn lemma_channel_shortcut_sources(mute_duration_phase: bool)
    ensures
        channel_shortcut_source_of(true, mute_duration_phase) == ChannelShortcutSource::Threads,
        channel_shortcut_source_of(false, true) == ChannelShortcutSource::MuteDurations,
        channel_shortcut_source_of(false, false) == ChannelShortcutSource::Actions,
{
}

/// Whether a shortcut runs an entry of the open channel action menu, in
/// the phase it is in: the number of a listed thread or mute duration, or,
/// among the channel actions, what `action_matched` says (an enabled action
/// with that shortcut).
pub fn leader_channel_shortcut_matches(
    bindings: &KeyBindings,
    shortcut: KeyChord,
    threads_phase: bool,
    mute_duration_phase: bool,
    thread_count: usize,
    mute_duration_count: usize,
    action_matched: bool,
) -> (matched: bool)
    ensures
        matched == match channel_shortcut_source_of(threads_phase, mute_duration_phase) {
            ChannelShortcutSource::Threads => spec_indexed_shortcut_matches(
                bindings@,
                shortcut,
                thread_count as int,
            ),
            ChannelShortcutSource::MuteDurations => spec_indexed_shortcut_matches(
                bindings@,
                shortcut,
                mute_duration_count as int,
            ),
            ChannelShortcutSource::Actions => action_matched,
        },
{
    match channel_shortcut_source(threads_phase, mute_duration_phase) {
        ChannelShortcutSource::Threads => bindings.indexed_shortcut_matches(shortcut, thread_count),
        ChannelShortcutSource::MuteDurations => bindings.indexed_shortcut_matches(
            shortcut,
            mute_duration_count,
        ),
        ChannelShortcutSource::Actions => action_matched,
    }
}

/// Whether a shortcut runs an entry of the open guild action menu, in the
/// phase it is in.
pub fn leader_guild_shortcut_matches(
    bindings: &KeyBindings,
    shortcut: KeyChord,
    mute_duration_phase: bool,
    mute_duration_count: usize,
    action_matched: bool,
) -> (matched: bool)
    ensures
        matched == (if mute_duration_phase {
            spec_indexed_shortcut_matches(bindings@, shortcut, mute_duration_count as int)
        } else {
            action_matched
        }),
{
    match guild_shortcut_source(mute_duration_phase) {
        GuildShortcutSource::MuteDurations => bindings.indexed_shortcut_matches(
            shortcut,
            mute_duration_count,
        ),
        GuildShortcutSource::Actions => action_matched,
    }
}

} // verus!
