//! Heights of rendered message rows.
use vstd::prelude::*;

verus! {

/// Blank rows left after each message.
pub const MESSAGE_ROW_GAP: usize = 1;

/// Rows taken by a message drawn on its own: the author line, the content,
/// the reactions, the previews and the gap after it.
pub fn standalone_message_rendered_height(
    content_rows: usize,
    reaction_rows: usize,
    preview_rows: usize,
) -> (height: usize)
    requires
        1 + content_rows + reaction_rows + preview_rows + MESSAGE_ROW_GAP <= usize::MAX,
    ensures
        height == 1 + content_rows + reaction_rows + preview_rows + MESSAGE_ROW_GAP,
{
    1 + content_rows + reaction_rows + preview_rows + MESSAGE_ROW_GAP
}

} // verus!
