//! The key bindings that list popups use for their numbered shortcuts.
use crate::keys::{chord_types_char, KeyChord};
use crate::state::dashboard::MemberActionItem;
use vstd::prelude::*;

verus! {

/// Key bindings: the characters that pick the first, second, ... row of a
/// list popup.
#[derive(Clone, Debug)]
pub struct KeyBindings {
    indexed_shortcuts: Vec<char>,
}

impl View for KeyBindings {
    type V = Seq<char>;

    closed spec fn view(&self) -> Seq<char> {
        self.indexed_shortcuts@
    }
}

/// The numbered shortcuts of the default bindings: `1` to `9`.
pub open spec fn default_indexed_shortcuts() -> Seq<char> {
    seq!['1', '2', '3', '4', '5', '6', '7', '8', '9']
}

/// The shortcut character of row `index`, if that row has one.
pub open spec fn spec_indexed_shortcut(shortcuts: Seq<char>, index: int) -> Option<char> {
    if 0 <= index < shortcuts.len() {
        Some(shortcuts[index])
    } else {
        None
    }
}

/// Whether `shortcut` types the numbered shortcut of row `index`.
pub open spec fn row_shortcut_typed(shortcuts: Seq<char>, shortcut: KeyChord, index: int) -> bool {
    match spec_indexed_shortcut(shortcuts, index) {
        Some(c) => chord_types_char(shortcut, c),
        None => false,
    }
}

/// Whether `shortcut` types the numbered shortcut of one of the first `len`
/// rows.
pub open spec fn spec_indexed_shortcut_matches(
    shortcuts: Seq<char>,
    shortcut: KeyChord,
    len: int,
) -> bool {
    exists|index: int| 0 <= index < len && #[trigger] row_shortcut_typed(shortcuts, shortcut, index)
}

/// Whether `shortcut` runs entry `index` of a member action menu: the entry
/// is enabled and the shortcut types its number.
pub open spec fn member_action_hit(
    shortcuts: Seq<char>,
    actions: Seq<MemberActionItem>,
    shortcut: KeyChord,
    index: int,
) -> bool {
    actions[index].enabled && row_shortcut_typed(shortcuts, shortcut, index)
}

impl Default for KeyBindings {
    fn default() -> (bindings: Self)
        ensures
            bindings@ == default_indexed_shortcuts(),
    {
        KeyBindings { indexed_shortcuts: vec!['1', '2', '3', '4', '5', '6', '7', '8', '9'] }
    }
}

impl KeyBindings {
    /// Bindings with the given numbered shortcuts, row 0 first.
    pub fn with_indexed_shortcuts(indexed_shortcuts: Vec<char>) -> (bindings: Self)
        ensures
            bindings@ == indexed_shortcuts@,
    {
        KeyBindings { indexed_shortcuts }
    }

    /// The shortcut character of row `index`, if that row has one.
    pub fn indexed_shortcut(&self, index: usize) -> (shortcut: Option<char>)
        ensures
            shortcut == spec_indexed_shortcut(self@, index as int),
    {
        if index < self.indexed_shortcuts.len() {
            Some(self.indexed_shortcuts[index])
        } else {
            None
        }
    }

    /// Whether `shortcut` picks one of the first `len` rows by its number.
    pub fn indexed_shortcut_matches(&self, shortcut: KeyChord, len: usize) -> (matched: bool)
        ensures
            matched == spec_indexed_shortcut_matches(self@, shortcut, len as int),
    {
        let mut index: usize = 0;
        while index < len
            invariant
                index <= len,
                forall|j: int| 0 <= j < index ==> !#[trigger] row_shortcut_typed(self@, shortcut, j),
            decreases len - index,
        {
            match self.indexed_shortcut(index) {
                Some(candidate) => {
                    if shortcut.matches_char(candidate) {
                        assert(row_shortcut_typed(self@, shortcut, index as int));
                        return true;
                    }
                },
                None => {},
            }
            index += 1;
        }
        false
    }

    /// The first enabled entry of a member action menu whose shortcut is
    /// `shortcut`.
    pub fn matching_member_action_shortcut_index(
        &self,
        actions: &Vec<MemberActionItem>,
        shortcut: KeyChord,
    ) -> (index: Option<usize>)
        ensures
            index matches Some(i) ==> i < actions@.len() && member_action_hit(
                self@,
                actions@,
                shortcut,
                i as int,
            ) && forall|j: int|
                0 <= j < i ==> !#[trigger] member_action_hit(self@, actions@, shortcut, j),
            index is None ==> forall|j: int|
                0 <= j < actions@.len() ==> !#[trigger] member_action_hit(
                    self@,
                    actions@,
                    shortcut,
                    j,
                ),
    {
        let mut index: usize = 0;
        while index < actions.len()
            invariant
                index <= actions@.len(),
                forall|j: int|
                    0 <= j < index ==> !#[trigger] member_action_hit(self@, actions@, shortcut, j),
            decreases actions.len() - index,
        {
            if actions[index].enabled {
                match self.indexed_shortcut(index) {
                    Some(candidate) => {
                        if shortcut.matches_char(candidate) {
                            return Some(index);
                        }
                    },
                    None => {},
                }
            }
            index += 1;
        }
        None
    }
}

/// The default numbered shortcuts are the digits `1` to `9`, row 0 first;
/// rows past the last shortcut have none.
pub proof fn lemma_default_numbered_shortcuts(index: int)
    ensures
        default_indexed_shortcuts().len() == 9,
        0 <= index < 9 ==> spec_indexed_shortcut(default_indexed_shortcuts(), index) == Some(
            (('1' as int) + index) as char,
        ),
        !(0 <= index < 9) ==> spec_indexed_shortcut(default_indexed_shortcuts(), index) is None,
{
    let d = default_indexed_shortcuts();
    if 0 <= index < 9 {
        assert(d[0] == '1' && d[1] == '2' && d[2] == '3' && d[3] == '4' && d[4] == '5');
        assert(d[5] == '6' && d[6] == '7' && d[7] == '8' && d[8] == '9');
    }
}

/// A shortcut picks one of the first `len` rows exactly when some such row
/// has a numbered shortcut and the shortcut types it; a row runs a member
/// action only when the action is enabled.
pub proof fn lemma_numbered_shortcut_matching(
    shortcuts: Seq<char>,
    shortcut: KeyChord,
    len: int,
    actions: Seq<MemberActionItem>,
    index: int,
)
    ensures
        spec_indexed_shortcut_matches(shortcuts, shortcut, len) <==> exists|i: int|
            0 <= i < len && 0 <= i < shortcuts.len() && #[trigger] chord_types_char(
                shortcut,
                shortcuts[i],
            ),
        member_action_hit(shortcuts, actions, shortcut, index) ==> actions[index].enabled,
        member_action_hit(shortcuts, actions, shortcut, index) ==> 0 <= index < shortcuts.len()
            && chord_types_char(shortcut, shortcuts[index]),
{
    if spec_indexed_shortcut_matches(shortcuts, shortcut, len) {
        let i = choose|i: int| 0 <= i < len && #[trigger] row_shortcut_typed(shortcuts, shortcut, i);
        assert(chord_types_char(shortcut, shortcuts[i]));
    }
    if exists|i: int|
        0 <= i < len && 0 <= i < shortcuts.len() && #[trigger] chord_types_char(
            shortcut,
            shortcuts[i],
        ) {
        let i = choose|i: int|
            0 <= i < len && 0 <= i < shortcuts.len() && #[trigger] chord_types_char(
                shortcut,
                shortcuts[i],
            );
        assert(row_shortcut_typed(shortcuts, shortcut, i));
    }
}

} // verus!
