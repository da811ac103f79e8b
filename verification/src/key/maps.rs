//! Textual key descriptions and the table of configurable bindings.
//!
//! A description is a key character, alone or behind modifier marks: `x` is
//! the key itself, `c-x` is Control with it, `a-x` Alt with it, and two
//! marks name two modifiers, as in `c-s-x` or `a-c-x`. The marks are `c`,
//! `a` and `s` for Control, Alt and Shift, in either case; the key
//! character is one that a single byte encodes.

use crate::error::LxConfigError;
use crate::key::{KeyCode, KeyEvent, KeyModifiers};
use vstd::prelude::*;
use vstd::string::*;

verus! {

/// A key combination as a configuration names it.
#[derive(Debug, Clone, Copy, PartialEq, Eq, Structural)]
pub enum KeyMap {
    Char(char),
    Ctrl(char),
    Alt(char),
    AltShift(char),
    CtrlShift(char),
    CtrlAlt(char),
}

/// A modifier that a description can name.
#[derive(Debug, Clone, Copy, PartialEq, Eq, Structural)]
pub enum Mark {
    Control,
    Alt,
    Shift,
}

/// True for the characters that a single byte encodes.
pub open spec fn spec_is_key_char(c: char) -> bool {
    (c as u32) < 0x80
}

/// The modifier that the letter `c` marks: `c` Control, `a` Alt and `s`
/// Shift, in either case.
pub open spec fn spec_mark(c: char) -> Option<Mark> {
    if c == 'c' || c == 'C' {
        Some(Mark::Control)
    } else if c == 'a' || c == 'A' {
        Some(Mark::Alt)
    } else if c == 's' || c == 'S' {
        Some(Mark::Shift)
    } else {
        None
    }
}

/// The combination of the key `key` with the one modifier `mark`. Shift
/// alone makes no combination.
pub open spec fn spec_with_one(mark: Option<Mark>, key: char) -> Option<KeyMap> {
    match mark {
        Some(Mark::Control) => Some(KeyMap::Ctrl(key)),
        Some(Mark::Alt) => Some(KeyMap::Alt(key)),
        _ => None,
    }
}

/// The combination of the key `key` with the two modifiers `first` and
/// `second`, which must differ; their order does not matter.
pub open spec fn spec_with_two(first: Option<Mark>, second: Option<Mark>, key: char) -> Option<
    KeyMap,
> {
    match (first, second) {
        (Some(Mark::Control), Some(Mark::Shift)) | (Some(Mark::Shift), Some(Mark::Control)) => Some(
            KeyMap::CtrlShift(key),
        ),
        (Some(Mark::Alt), Some(Mark::Shift)) | (Some(Mark::Shift), Some(Mark::Alt)) => Some(
            KeyMap::AltShift(key),
        ),
        (Some(Mark::Control), Some(Mark::Alt)) | (Some(Mark::Alt), Some(Mark::Control)) => Some(
            KeyMap::CtrlAlt(key),
        ),
        _ => None,
    }
}

/// The combination that the description `s` names, if it names one: a key
/// character alone, or behind one mark and a hyphen, or behind two marks
/// with a hyphen after each.
pub open spec fn parse_keymap(s: Seq<char>) -> Option<KeyMap> {
    if s.len() == 1 && spec_is_key_char(s[0]) {
        Some(KeyMap::Char(s[0]))
    } else if s.len() == 3 && s[1] == '-' && spec_is_key_char(s[2]) {
        spec_with_one(spec_mark(s[0]), s[2])
    } else if s.len() == 5 && s[1] == '-' && s[3] == '-' && spec_is_key_char(s[4]) {
        spec_with_two(spec_mark(s[0]), spec_mark(s[2]), s[4])
    } else {
        None
    }
}

#[verifier::when_used_as_spec(spec_is_key_char)]
fn is_key_char(c: char) -> (b: bool)
    ensures
        b == spec_is_key_char(c),
{
    (c as u32) < 0x80
}

#[verifier::when_used_as_spec(spec_mark)]
fn mark(c: char) -> (m: Option<Mark>)
    ensures
        m == spec_mark(c),
{
    if c == 'c' || c == 'C' {
        Some(Mark::Control)
    } else if c == 'a' || c == 'A' {
        Some(Mark::Alt)
    } else if c == 's' || c == 'S' {
        Some(Mark::Shift)
    } else {
        None
    }
}

impl KeyMap {
    /// The combination that the description `map` names, if it names one.
    pub fn parse(map: &str) -> (r: Option<KeyMap>)
        ensures
            r == parse_keymap(map@),
    {
        let n = map.unicode_len();
        if n == 1 {
            let key = map.get_char(0);
            if is_key_char(key) {
                return Some(KeyMap::Char(key));
            }
        } else if n == 3 {
            let key = map.get_char(2);
            if map.get_char(1) == '-' && is_key_char(key) {
                return match mark(map.get_char(0)) {
                    Some(Mark::Control) => Some(KeyMap::Ctrl(key)),
                    Some(Mark::Alt) => Some(KeyMap::Alt(key)),
                    _ => None,
                };
            }
        } else if n == 5 {
            let key = map.get_char(4);
            if map.get_char(1) == '-' && map.get_char(3) == '-' && is_key_char(key) {
                return match (mark(map.get_char(0)), mark(map.get_char(2))) {
                    (Some(Mark::Control), Some(Mark::Shift))
                    | (Some(Mark::Shift), Some(Mark::Control)) => Some(KeyMap::CtrlShift(key)),
                    (Some(Mark::Alt), Some(Mark::Shift)) | (Some(Mark::Shift), Some(Mark::Alt)) => Some(
                        KeyMap::AltShift(key),
                    ),
                    (Some(Mark::Control), Some(Mark::Alt))
                    | (Some(Mark::Alt), Some(Mark::Control)) => Some(KeyMap::CtrlAlt(key)),
                    _ => None,
                };
            }
        }
        None
    }

    /// The key event that the combination stands for.
    pub open spec fn event(self) -> KeyEvent {
        match self {
            KeyMap::Char(c) => KeyEvent {
                modifiers: KeyModifiers::spec_none(),
                code: KeyCode::Char(c),
            },
            KeyMap::Ctrl(c) => KeyEvent {
                modifiers: KeyModifiers::spec_control(),
                code: KeyCode::Char(c),
            },
            KeyMap::Alt(c) => KeyEvent {
                modifiers: KeyModifiers::spec_alt(),
                code: KeyCode::Char(c),
            },
            KeyMap::CtrlShift(c) => KeyEvent {
                modifiers: KeyModifiers::spec_control().spec_union(KeyModifiers::spec_shift()),
                code: KeyCode::Char(c),
            },
            KeyMap::AltShift(c) => KeyEvent {
                modifiers: KeyModifiers::spec_alt().spec_union(KeyModifiers::spec_shift()),
                code: KeyCode::Char(c),
            },
            KeyMap::CtrlAlt(c) => KeyEvent {
                modifiers: KeyModifiers::spec_control().spec_union(KeyModifiers::spec_alt()),
                code: KeyCode::Char(c),
            },
        }
    }
}

impl TryFrom<String> for KeyMap {
    type Error = LxConfigError;

    /// Reads a key description. A description that names no combination is
    /// refused, and the error carries it as it was written.
    fn try_from(map: String) -> (r: Result<Self, Self::Error>) {
        match KeyMap::parse(map.as_str()) {
            Some(keymap) => Ok(keymap),
            None => Err(LxConfigError::InvalidKeymap(map)),
        }
    }
}

impl vstd::std_specs::convert::TryFromSpecImpl<String> for KeyMap {
    open spec fn obeys_try_from_spec() -> bool {
        true
    }

    open spec fn try_from_spec(map: String) -> Result<Self, Self::Error> {
        match parse_keymap(map@) {
            Some(keymap) => Ok(keymap),
            None => Err(LxConfigError::InvalidKeymap(map)),
        }
    }
}

impl From<KeyMap> for KeyEvent {
    fn from(map: KeyMap) -> (r: KeyEvent) {
        match map {
            KeyMap::Char(c) => KeyEvent { modifiers: KeyModifiers::none(), code: KeyCode::Char(c) },
            KeyMap::Ctrl(c) => KeyEvent {
                modifiers: KeyModifiers::control(),
                code: KeyCode::Char(c),
            },
            KeyMap::Alt(c) => KeyEvent { modifiers: KeyModifiers::alt(), code: KeyCode::Char(c) },
            KeyMap::CtrlShift(c) => KeyEvent {
                modifiers: KeyModifiers::control().union(KeyModifiers::shift()),
                code: KeyCode::Char(c),
            },
            KeyMap::AltShift(c) => KeyEvent {
                modifiers: KeyModifiers::alt().union(KeyModifiers::shift()),
                code: KeyCode::Char(c),
            },
            KeyMap::CtrlAlt(c) => KeyEvent {
                modifiers: KeyModifiers::control().union(KeyModifiers::alt()),
                code: KeyCode::Char(c),
            },
        }
    }
}

impl vstd::std_specs::convert::FromSpecImpl<KeyMap> for KeyEvent {
    open spec fn obeys_from_spec() -> bool {
        true
    }

    open spec fn from_spec(map: KeyMap) -> KeyEvent {
        map.event()
    }
}

/// The keys that step the cursor.
#[derive(Debug, Clone, Copy, PartialEq, Eq, Structural)]
pub struct DirectionKeys {
    pub up: KeyMap,
    pub down: KeyMap,
    pub left: KeyMap,
    pub right: KeyMap,
}

/// The keys that cycle through a list.
#[derive(Debug, Clone, Copy, PartialEq, Eq, Structural)]
pub struct CycleKeys {
    pub next: KeyMap,
    pub previous: KeyMap,
}

/// The table of configurable bindings.
#[derive(Debug, Clone, Copy, PartialEq, Eq, Structural)]
pub struct KeyMaps {
    pub cursor: DirectionKeys,
    pub navigation: CycleKeys,
    pub edit_toggle: KeyMap,
    pub focus_toggle: KeyMap,
    pub overview_toggle: KeyMap,
}

impl KeyMaps {
    /// The bindings of an editor that has not been configured.
    pub open spec fn standard() -> KeyMaps {
        KeyMaps {
            navigation: CycleKeys { next: KeyMap::Char('\t'), previous: KeyMap::Ctrl('\t') },
            cursor: DirectionKeys {
                up: KeyMap::Char('k'),
                down: KeyMap::Char('j'),
                left: KeyMap::Char('h'),
                right: KeyMap::Char('l'),
            },
            edit_toggle: KeyMap::Char('\n'),
            focus_toggle: KeyMap::Ctrl(' '),
            overview_toggle: KeyMap::Ctrl('o'),
        }
    }
}

impl Default for KeyMaps {
    fn default() -> (maps: Self)
        ensures
            maps == KeyMaps::standard(),
    {
        KeyMaps {
            navigation: CycleKeys { next: KeyMap::Char('\t'), previous: KeyMap::Ctrl('\t') },
            cursor: DirectionKeys {
                up: KeyMap::Char('k'),
                down: KeyMap::Char('j'),
                left: KeyMap::Char('h'),
                right: KeyMap::Char('l'),
            },
            edit_toggle: KeyMap::Char('\n'),
            focus_toggle: KeyMap::Ctrl(' '),
            overview_toggle: KeyMap::Ctrl('o'),
        }
    }
}

} // verus!
