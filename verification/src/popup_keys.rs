//! What the modal popups do with a key once their handler ran: whether a
//! popup took the key, and which handled keys hand a command back.
use crate::commands::AppCommand;
use crate::keyboard::{DeferredPopupKeyTarget, PriorityPopupKeyTarget, SelectionAction};
use crate::keys::KeyChord;
use vstd::prelude::*;

verus! {

/// Whether the popups that come before the global bindings took a key: a
/// popup page key (page up or down in the open popup's list) is taken with
/// no command; otherwise the open priority popup takes every key and its
/// handler's command is handed back; with no such popup open the key goes
/// on.
pub open spec fn spec_priority_popup_result(
    page_key_handled: bool,
    target: Option<PriorityPopupKeyTarget>,
    handler_command: Option<AppCommand>,
) -> Option<Option<AppCommand>> {
    if page_key_handled {
        Some(None)
    } else if target is Some {
        Some(handler_command)
    } else {
        None
    }
}

/// `Some(command)` when a priority popup took the key and the caller returns
/// `command`; `None` when the key goes on to the global bindings.
pub fn priority_popup_result(
    page_key_handled: bool,
    target: Option<PriorityPopupKeyTarget>,
    handler_command: Option<AppCommand>,
) -> (taken: Option<Option<AppCommand>>)
    ensures
        taken == spec_priority_popup_result(page_key_handled, target, handler_command),
{
    if page_key_handled {
        Some(None)
    } else if target.is_some() {
        Some(handler_command)
    } else {
        None
    }
}

/// A page key is always taken, with no command, before any popup handler;
/// otherwise an open priority popup takes the key with exactly its
/// handler's command, and with none open the key goes on.
pub proof fn lemma_priority_popups_take_keys(
    target: Option<PriorityPopupKeyTarget>,
    handler_command: Option<AppCommand>,
)
    ensures
        spec_priority_popup_result(true, target, handler_command) == Some(None::<AppCommand>),
        target is Some ==> spec_priority_popup_result(false, target, handler_command) == Some(
            handler_command,
        ),
        target is None ==> spec_priority_popup_result(false, target, handler_command) is None,
{
}

/// `Some(command)` when a deferred popup is open: it takes every key that
/// reaches it and hands back its handler's command; `None` when none is
/// open.
pub fn deferred_popup_result(
    target: Option<DeferredPopupKeyTarget>,
    handler_command: Option<AppCommand>,
) -> (taken: Option<Option<AppCommand>>)
    ensures
        taken == (if target is Some {
            Some(handler_command)
        } else {
            None
        }),
{
    match target {
        Some(_) => Some(handler_command),
        None => None,
    }
}

/// An action of the key bindings of a popup list: the message URL picker and
/// the message action menu.
#[derive(Clone, Copy, Debug, PartialEq, Eq, Structural)]
pub enum PopupListAction {
    Close,
    Select(SelectionAction),
    ActivateSelected,
    ActivateShortcut(KeyChord),
}

/// A popup list hands back a command only when an entry is activated, the
/// selected one or the one of a shortcut: the activation's own command.
pub fn popup_list_result(action: Option<PopupListAction>, activation_command: Option<AppCommand>) -> (command:
    Option<AppCommand>)
    ensures
        command == (if action matches Some(PopupListAction::ActivateSelected) || action matches Some(
            PopupListAction::ActivateShortcut(_),
        ) {
            activation_command
        } else {
            None
        }),
{
    match action {
        Some(PopupListAction::ActivateSelected) | Some(PopupListAction::ActivateShortcut(_)) => {
            activation_command
        },
        _ => None,
    }
}

/// The popups that ask to confirm an action.
#[derive(Clone, Copy, Debug, PartialEq, Eq, Structural)]
pub enum ConfirmationPopup {
    Quit,
    MessageDelete,
    MessagePin,
    GuildLeave,
}

/// An action of a confirmation popup's key bindings.
#[derive(Clone, Copy, Debug, PartialEq, Eq, Structural)]
pub enum MessageConfirmationAction {
    Confirm,
    Cancel,
}

/// A confirmation hands back the command of the confirmed action: deleting
/// or pinning a message, or leaving a guild. Confirming quit sets the quit
/// flag and sends nothing; cancelling and unbound keys send nothing.
pub fn confirmation_result(
    popup: ConfirmationPopup,
    action: Option<MessageConfirmationAction>,
    confirm_command: Option<AppCommand>,
) -> (command: Option<AppCommand>)
    ensures
        command == (if action == Some(MessageConfirmationAction::Confirm) && popup
            != ConfirmationPopup::Quit {
            confirm_command
        } else {
            None
        }),
{
    match (popup, action) {
        (ConfirmationPopup::Quit, _) => None,
        (_, Some(MessageConfirmationAction::Confirm)) => confirm_command,
        _ => None,
    }
}

/// An action of the attachment viewer's key bindings.
#[derive(Clone, Copy, Debug, PartialEq, Eq, Structural)]
pub enum AttachmentViewerAction {
    Close,
    Previous,
    Next,
    DownloadSelected,
    ToggleZoom,
    ZoomIn,
    ZoomOut,
}

/// The attachment viewer hands back a command only for a download of the
/// shown attachment.
pub fn attachment_viewer_result(
    action: Option<AttachmentViewerAction>,
    download_command: Option<AppCommand>,
) -> (command: Option<AppCommand>)
    ensures
        command == (if action == Some(AttachmentViewerAction::DownloadSelected) {
            download_command
        } else {
            None
        }),
{
    match action {
        Some(AttachmentViewerAction::DownloadSelected) => download_command,
        _ => None,
    }
}

/// An action of the poll vote picker's key bindings.
#[derive(Clone, Copy, Debug, PartialEq, Eq, Structural)]
pub enum PollVotePickerAction {
    Close,
    Select(SelectionAction),
    ToggleSelected,
    Submit,
    ToggleShortcut(KeyChord),
}

/// The poll vote picker hands back a command only when the vote is
/// submitted.
pub fn poll_vote_picker_result(action: Option<PollVotePickerAction>, submit_command: Option<AppCommand>) -> (command:
    Option<AppCommand>)
    ensures
        command == (if action == Some(PollVotePickerAction::Submit) {
            submit_command
        } else {
            None
        }),
{
    match action {
        Some(PollVotePickerAction::Submit) => submit_command,
        _ => None,
    }
}

} // verus!
