//! The key-event abstraction the core consumes: a key code plus the
//! modifier combination held with it. A terminal-input collaborator maps
//! its own event type onto this one; the core never reads the terminal.

use vstd::prelude::*;

verus! {

/// The keys the core's routing distinguishes; anything else is `Other`
/// and is ignored everywhere.
#[derive(Clone, Copy, PartialEq, Eq, Structural, Debug)]
pub enum KeyCode {
    Char(char),
    Enter,
    Tab,
    BackTab,
    Backspace,
    Delete,
    Left,
    Right,
    Up,
    Down,
    Home,
    End,
    Esc,
    Other,
}

/// The modifier combinations the core's routing distinguishes; `NoMods`
/// means no modifier key is held.
#[derive(Clone, Copy, PartialEq, Eq, Structural, Debug)]
pub enum KeyModifiers {
    NoMods,
    Shift,
    Control,
    ControlShift,
    Other,
}

/// A key event.
#[derive(Clone, Copy, PartialEq, Eq, Structural, Debug)]
pub struct KeyEvent {
    pub code: KeyCode,
    pub modifiers: KeyModifiers,
}

/// Whether the modifiers are plain typing modifiers: none, or shift alone.
pub open spec fn plain_mods(m: KeyModifiers) -> bool {
    m is NoMods || m is Shift
}

} // verus!
