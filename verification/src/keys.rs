//! Keys as the terminal reports them, and the chords that key bindings name.
use vstd::prelude::*;

verus! {

/// The key that was pressed.
#[derive(Clone, Copy, Debug, PartialEq, Eq, Structural)]
pub enum KeyCode {
    Char(char),
    Enter,
    Esc,
    Backspace,
    Tab,
    BackTab,
    Up,
    Down,
    Left,
    Right,
    Home,
    End,
    PageUp,
    PageDown,
    Delete,
    Insert,
    F(u8),
    Other,
}

/// Modifier keys held while a key was pressed.
#[derive(Clone, Copy, Debug, PartialEq, Eq, Structural)]
pub struct KeyModifiers {
    pub shift: bool,
    pub control: bool,
    pub alt: bool,
    pub super_key: bool,
    pub hyper: bool,
    pub meta: bool,
}

impl KeyModifiers {
    /// The empty set of modifiers.
    pub open spec fn spec_none() -> Self {
        KeyModifiers {
            shift: false,
            control: false,
            alt: false,
            super_key: false,
            hyper: false,
            meta: false,
        }
    }

    /// No modifier held.
    #[verifier::when_used_as_spec(spec_none)]
    pub fn none() -> (m: Self)
        ensures
            m == Self::spec_none(),
    {
        KeyModifiers {
            shift: false,
            control: false,
            alt: false,
            super_key: false,
            hyper: false,
            meta: false,
        }
    }

    /// Only Shift held.
    pub fn shift() -> (m: Self)
        ensures
            m.shift && !m.control && !m.alt && !m.super_key && !m.hyper && !m.meta,
    {
        KeyModifiers { shift: true, ..Self::none() }
    }

    /// Only Control held.
    pub fn control() -> (m: Self)
        ensures
            !m.shift && m.control && !m.alt && !m.super_key && !m.hyper && !m.meta,
    {
        KeyModifiers { control: true, ..Self::none() }
    }

    /// Only Alt held.
    pub fn alt() -> (m: Self)
        ensures
            !m.shift && !m.control && m.alt && !m.super_key && !m.hyper && !m.meta,
    {
        KeyModifiers { alt: true, ..Self::none() }
    }

    /// The modifiers held in either set.
    pub fn union(self, other: Self) -> (m: Self)
        ensures
            m.shift == (self.shift || other.shift),
            m.control == (self.control || other.control),
            m.alt == (self.alt || other.alt),
            m.super_key == (self.super_key || other.super_key),
            m.hyper == (self.hyper || other.hyper),
            m.meta == (self.meta || other.meta),
    {
        KeyModifiers {
            shift: self.shift || other.shift,
            control: self.control || other.control,
            alt: self.alt || other.alt,
            super_key: self.super_key || other.super_key,
            hyper: self.hyper || other.hyper,
            meta: self.meta || other.meta,
        }
    }

    /// Whether every modifier of `other` is held here.
    pub fn contains(self, other: Self) -> (b: bool)
        ensures
            b == ((other.shift ==> self.shift) && (other.control ==> self.control) && (other.alt
                ==> self.alt) && (other.super_key ==> self.super_key) && (other.hyper
                ==> self.hyper) && (other.meta ==> self.meta)),
    {
        (!other.shift || self.shift) && (!other.control || self.control) && (!other.alt
            || self.alt) && (!other.super_key || self.super_key) && (!other.hyper || self.hyper)
            && (!other.meta || self.meta)
    }
}

/// A key press: the key and the modifiers held with it.
#[derive(Clone, Copy, Debug, PartialEq, Eq, Structural)]
pub struct KeyEvent {
    pub code: KeyCode,
    pub modifiers: KeyModifiers,
}

impl KeyEvent {
    pub fn new(code: KeyCode, modifiers: KeyModifiers) -> (key: Self)
        ensures
            key.code == code,
            key.modifiers == modifiers,
    {
        KeyEvent { code, modifiers }
    }
}

/// A key chord named by a key binding.
#[derive(Clone, Copy, Debug, PartialEq, Eq, Structural)]
pub struct KeyChord {
    pub code: KeyCode,
    pub modifiers: KeyModifiers,
}

/// A chord types the character `c` when it is that character key pressed
/// without Control or Alt.
pub open spec fn chord_types_char(chord: KeyChord, c: char) -> bool {
    chord.code == KeyCode::Char(c) && !chord.modifiers.control && !chord.modifiers.alt
}

impl KeyChord {
    /// The chord that a key press makes.
    pub fn from_event(key: KeyEvent) -> (chord: Self)
        ensures
            chord.code == key.code,
            chord.modifiers == key.modifiers,
    {
        KeyChord { code: key.code, modifiers: key.modifiers }
    }

    /// The chord of a bare character key.
    pub fn char(c: char) -> (chord: Self)
        ensures
            chord.code == KeyCode::Char(c),
            chord.modifiers == KeyModifiers::none(),
    {
        KeyChord { code: KeyCode::Char(c), modifiers: KeyModifiers::none() }
    }

    /// Whether this chord types the character `c`.
    pub fn matches_char(&self, c: char) -> (b: bool)
        ensures
            b == chord_types_char(*self, c),
    {
        match self.code {
            KeyCode::Char(typed) => typed == c && !self.modifiers.control && !self.modifiers.alt,
            _ => false,
        }
    }
}

/// Control+V (either case) asks for a paste from the system clipboard.
pub open spec fn spec_is_native_paste_key(key: KeyEvent) -> bool {
    key.modifiers.control && (key.code == KeyCode::Char('v') || key.code == KeyCode::Char('V'))
}

/// Whether a key press asks for a paste from the system clipboard.
pub fn is_native_paste_key(key: KeyEvent) -> (paste: bool)
    ensures
        paste == spec_is_native_paste_key(key),
{
    let paste_modifier = key.modifiers.contains(KeyModifiers::control());
    let is_v = match key.code {
        KeyCode::Char(c) => c == 'v' || c == 'V',
        _ => false,
    };
    is_v && paste_modifier
}

/// Control+V, lower or upper case, asks for a paste, whatever other
/// modifiers are held; V without Control and other keys with Control do
/// not.
pub proof fn lemma_native_paste_keys(key: KeyEvent)
    ensures
        key.modifiers.control && key.code == KeyCode::Char('v') ==> spec_is_native_paste_key(key),
        key.modifiers.control && key.code == KeyCode::Char('V') ==> spec_is_native_paste_key(key),
        !key.modifiers.control ==> !spec_is_native_paste_key(key),
        !(key.code == KeyCode::Char('v') || key.code == KeyCode::Char('V'))
            ==> !spec_is_native_paste_key(key),
{
}

/// A chord types a character exactly when it is that character's key with
/// neither Control nor Alt held; Shift does not matter.
pub proof fn lemma_chord_types_char(chord: KeyChord, c: char)
    ensures
        chord_types_char(chord, c) ==> chord.code == KeyCode::Char(c),
        chord.modifiers.control || chord.modifiers.alt ==> !chord_types_char(chord, c),
        chord.code == KeyCode::Char(c) && !chord.modifiers.control && !chord.modifiers.alt
            ==> chord_types_char(chord, c),
{
}

} // verus!
