//! Verified core of a terminal Discord client: command routing, request
//! bookkeeping, text cursor movement, popup state and request building.
use vstd::prelude::*;

pub mod back_out;
pub mod clipboard;
pub mod commands;
pub mod decimal;
pub mod display_width;
pub mod ids;
pub mod keybindings;
pub mod keyboard;
pub mod keys;
pub mod layout;
pub mod paste;
pub mod popup_keys;
pub mod request_lifecycle;
pub mod rest;
pub mod state;
pub mod terminal;
pub mod text_cursor;
pub mod url_picker;

verus! {

} // verus!
