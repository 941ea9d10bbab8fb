//! Pasting from the system clipboard into the composer with Control+V: text
//! first, then an image when the composer takes attachments.
use crate::keys::{is_native_paste_key, spec_is_native_paste_key, KeyEvent};
use vstd::prelude::*;

verus! {

/// How reading and inserting the clipboard's text went.
#[derive(Clone, Debug, PartialEq, Eq)]
pub enum TextPasteOutcome {
    /// The text was read and the composer took it.
    Pasted,
    /// The text was read but the composer did not take it.
    NotPasted,
    /// The clipboard's text could not be read.
    Failed(String),
}

/// What to do after the text step.
#[derive(Clone, Debug, PartialEq, Eq)]
pub enum AfterTextPaste {
    /// The key was handled; stop.
    Handled,
    /// The key was not handled; let the normal key handling have it.
    NotHandled,
    /// Try to attach the clipboard's image; remember why the text failed.
    TryImage { text_error: Option<String> },
}

/// The image step, carrying why the text step failed, if it did.
pub open spec fn tries_image_after(next: AfterTextPaste, text: TextPasteOutcome) -> bool {
    &&& next matches AfterTextPaste::TryImage { text_error }
    &&& match text {
        TextPasteOutcome::Failed(e) => text_error matches Some(t) && t@ == e@,
        _ => text_error is None,
    }
}

/// Whether a key starts a native paste: Control+V while composing.
pub fn native_paste_starts(key: KeyEvent, composing: bool) -> (starts: bool)
    ensures
        starts == (spec_is_native_paste_key(key) && composing),
{
    is_native_paste_key(key) && composing
}

/// The step after the text: pasted text ends the paste; otherwise an image
/// is tried when the composer takes attachments, and the key is left
/// unhandled when it does not.
pub fn after_text_paste(text: TextPasteOutcome, accepts_attachments: bool) -> (next: AfterTextPaste)
    ensures
        text is Pasted ==> next is Handled,
        !(text is Pasted) && !accepts_attachments ==> next is NotHandled,
        !(text is Pasted) && accepts_attachments ==> tries_image_after(next, text),
{
    let text_error = match text {
        TextPasteOutcome::Pasted => return AfterTextPaste::Handled,
        TextPasteOutcome::NotPasted => None,
        TextPasteOutcome::Failed(error) => Some(error),
    };
    if accepts_attachments {
        AfterTextPaste::TryImage { text_error }
    } else {
        AfterTextPaste::NotHandled
    }
}

/// The toast shown when the clipboard's image was attached.
pub open spec fn image_attached_toast() -> Seq<char> {
    "Clipboard image attached"@
}

/// The toast shown when the clipboard had nothing to paste.
pub open spec fn no_clipboard_content_toast() -> Seq<char> {
    "No clipboard content"@
}

pub fn image_attached_message() -> (message: &'static str)
    ensures
        message@ == image_attached_toast(),
{
    "Clipboard image attached"
}

pub fn no_clipboard_content_message() -> (message: &'static str)
    ensures
        message@ == no_clipboard_content_toast(),
{
    "No clipboard content"
}

/// The lines to log when neither text nor image could be pasted: why the
/// text failed, if it did, then why the image failed.
pub fn paste_failure_log_lines(text_error: Option<&str>, image_error: &str) -> (lines: Vec<String>)
    ensures
        match text_error {
            Some(t) => lines@.len() == 2 && lines@[0]@ == "native text paste failed: "@ + t@
                && lines@[1]@ == "native image paste failed: "@ + image_error@,
            None => lines@.len() == 1 && lines@[0]@ == "native image paste failed: "@
                + image_error@,
        },
{
    let mut lines = Vec::new();
    if let Some(text_error) = text_error {
        let mut line = String::from_str("native text paste failed: ");
        line.append(text_error);
        lines.push(line);
    }
    let mut line = String::from_str("native image paste failed: ");
    line.append(image_error);
    lines.push(line);
    lines
}

/// The toasts of a native paste name what happened: the image was attached,
/// or the clipboard had nothing to paste.
pub proof fn lemma_paste_toasts()
    ensures
        image_attached_toast() == "Clipboard image attached"@,
        no_clipboard_content_toast() == "No clipboard content"@,
{
}

/// The image step carries exactly the text step's error: the error when
/// reading the text failed, nothing when the text was read.
pub proof fn lemma_image_step_carries_the_text_error(text_error: Option<String>, text: TextPasteOutcome)
    ensures
        tries_image_after(AfterTextPaste::TryImage { text_error }, text) <==> match text {
            TextPasteOutcome::Failed(e) => text_error matches Some(t) && t@ == e@,
            _ => text_error is None,
        },
        !tries_image_after(AfterTextPaste::Handled, text),
        !tries_image_after(AfterTextPaste::NotHandled, text),
{
}

} // verus!
