//! What a terminal event does to the dashboard: whether it must be redrawn,
//! which command it sends, whether options must be saved, and the frame area.
use crate::commands::AppCommand;
use crate::keys::KeyEvent;
use vstd::prelude::*;

verus! {

/// Whether a key went down, repeated or came up.
#[derive(Clone, Copy, Debug, PartialEq, Eq, Structural)]
pub enum KeyEventKind {
    Press,
    Repeat,
    Release,
}

/// An event from the terminal.
#[derive(Clone, Debug)]
pub enum TerminalEvent {
    Key(KeyEvent, KeyEventKind),
    Mouse,
    Resize { width: u16, height: u16 },
    Paste(String),
    FocusGained,
    FocusLost,
}

/// The area of the terminal that the last frame covered.
#[derive(Clone, Copy, Debug, PartialEq, Eq, Structural)]
pub struct FrameArea {
    pub x: u16,
    pub y: u16,
    pub width: u16,
    pub height: u16,
}

/// What the input handlers reported for the event. Each field is read only
/// for the events that run that handler: the native paste handler for key
/// presses, the key handler for other keys and for presses it did not
/// handle, the mouse handler for mouse events, the paste handler for pasted
/// text.
#[derive(Debug)]
pub struct TerminalHandlerResults {
    pub native_paste_handled: bool,
    pub key_command: Option<AppCommand>,
    pub mouse_handled: bool,
    pub mouse_command: Option<AppCommand>,
    pub paste_handled: bool,
}

/// What an event leaves behind.
#[derive(Debug)]
pub struct TerminalEventOutcome {
    /// The dashboard must be redrawn.
    pub dirty: bool,
    /// A command for the backend.
    pub command: Option<AppCommand>,
    /// Changed options must be saved now.
    pub save_options: bool,
    /// The area of the next frame.
    pub area: FrameArea,
}

/// Whether a key handler runs for a key event: always, unless the key was a
/// press that the native paste handler took.
pub open spec fn runs_key_handler(kind: KeyEventKind, native_paste_handled: bool) -> bool {
    !(kind == KeyEventKind::Press && native_paste_handled)
}

pub open spec fn is_event_outcome(
    outcome: TerminalEventOutcome,
    event: TerminalEvent,
    results: TerminalHandlerResults,
    area: FrameArea,
) -> bool {
    match event {
        TerminalEvent::Key(_, kind) => {
            &&& outcome.dirty == (kind == KeyEventKind::Press)
            &&& outcome.save_options == (kind == KeyEventKind::Press)
            &&& outcome.command == (if runs_key_handler(kind, results.native_paste_handled) {
                results.key_command
            } else {
                None
            })
            &&& outcome.area == area
        },
        TerminalEvent::Mouse => {
            &&& outcome.dirty == results.mouse_handled
            &&& !outcome.save_options
            &&& outcome.command == results.mouse_command
            &&& outcome.area == area
        },
        TerminalEvent::Resize { width, height } => {
            &&& outcome.dirty
            &&& !outcome.save_options
            &&& outcome.command is None
            &&& outcome.area == (FrameArea { x: 0, y: 0, width: width, height: height })
        },
        TerminalEvent::Paste(_) => {
            &&& outcome.dirty == results.paste_handled
            &&& !outcome.save_options
            &&& outcome.command is None
            &&& outcome.area == area
        },
        TerminalEvent::FocusGained | TerminalEvent::FocusLost => {
            &&& !outcome.dirty
            &&& !outcome.save_options
            &&& outcome.command is None
            &&& outcome.area == area
        },
    }
}

/// Whether the key handler must run for a key event, once the native paste
/// handler reported on presses.
pub fn key_handler_runs(kind: KeyEventKind, native_paste_handled: bool) -> (runs: bool)
    ensures
        runs == runs_key_handler(kind, native_paste_handled),
{
    !(kind == KeyEventKind::Press && native_paste_handled)
}

/// What an event does, given what its handlers reported and the area of the
/// last frame. Every key press redraws and saves changed options; a resize
/// redraws with a frame of the new size at the origin; mouse events and
/// pastes redraw when their handler took them.
pub fn terminal_event_outcome(
    event: &TerminalEvent,
    results: TerminalHandlerResults,
    area: FrameArea,
) -> (outcome: TerminalEventOutcome)
    ensures
        is_event_outcome(outcome, *event, results, area),
{
    match event {
        TerminalEvent::Key(_, kind) => {
            let pressed = *kind == KeyEventKind::Press;
            let command = if key_handler_runs(*kind, results.native_paste_handled) {
                results.key_command
            } else {
                None
            };
            TerminalEventOutcome { dirty: pressed, command, save_options: pressed, area }
        },
        TerminalEvent::Mouse => TerminalEventOutcome {
            dirty: results.mouse_handled,
            command: results.mouse_command,
            save_options: false,
            area,
        },
        TerminalEvent::Resize { width, height } => TerminalEventOutcome {
            dirty: true,
            command: None,
            save_options: false,
            area: FrameArea { x: 0, y: 0, width: *width, height: *height },
        },
        TerminalEvent::Paste(_) => TerminalEventOutcome {
            dirty: results.paste_handled,
            command: None,
            save_options: false,
            area,
        },
        TerminalEvent::FocusGained | TerminalEvent::FocusLost => TerminalEventOutcome {
            dirty: false,
            command: None,
            save_options: false,
            area,
        },
    }
}

/// The key handler runs for every repeat and release, and for a press
/// unless the native paste handler took it.
pub proof fn lemma_key_handler_runs(native_paste_handled: bool)
    ensures
        runs_key_handler(KeyEventKind::Press, native_paste_handled) == !native_paste_handled,
        runs_key_handler(KeyEventKind::Repeat, native_paste_handled),
        runs_key_handler(KeyEventKind::Release, native_paste_handled),
{
}

/// What each event leaves behind. A mouse event carries exactly the
/// command the mouse handler returned and redraws when the handler handled
/// it; pasted text redraws when the paste handler took it; a key carries the
/// key handler's command when that handler ran, and a press redraws and
/// saves the options; a resize redraws with the new size at the origin.
/// Only key presses save options, only keys and mouse events carry a
/// command, and only a resize changes the area.
pub proof fn lemma_event_outcomes(
    outcome: TerminalEventOutcome,
    event: TerminalEvent,
    results: TerminalHandlerResults,
    area: FrameArea,
)
    requires
        is_event_outcome(outcome, event, results, area),
    ensures
        event is Mouse ==> outcome.command == results.mouse_command && outcome.dirty
            == results.mouse_handled,
        event is Paste ==> outcome.dirty == results.paste_handled,
        (event is FocusGained || event is FocusLost) ==> !outcome.dirty,
        event is Resize ==> outcome.dirty,
        event matches TerminalEvent::Resize { width, height } ==> outcome.area == (FrameArea {
            x: 0,
            y: 0,
            width: width,
            height: height,
        }),
        !(event is Resize) ==> outcome.area == area,
        outcome.save_options <==> event matches TerminalEvent::Key(_, KeyEventKind::Press),
        event matches TerminalEvent::Key(_, kind) ==> outcome.dirty == (kind == KeyEventKind::Press)
            && outcome.command == (if kind == KeyEventKind::Press && results.native_paste_handled {
            None
        } else {
            results.key_command
        }),
        !(event is Key || event is Mouse) ==> outcome.command is None,
{
}

/// What a failed save of the options reports, as a gateway error event:
/// `save options failed: ` and the error. A save that succeeded reports
/// nothing.
pub fn options_save_report(save_error: Option<&str>) -> (report: Option<String>)
    ensures
        match save_error {
            Some(error) => report matches Some(m) && m@ == "save options failed: "@ + error@,
            None => report is None,
        },
{
    match save_error {
        Some(error) => {
            let mut message = String::from_str("save options failed: ");
            message.append(error);
            Some(message)
        },
        None => None,
    }
}

} // verus!
