//! Key events as the editor core sees them, and the trait that binds a value
//! to the one key combination which triggers it.

pub mod maps;

use vstd::prelude::*;

verus! {

/// The physical key of a key event.
#[derive(Debug, Clone, Copy, PartialEq, Eq, Hash, Structural)]
pub enum KeyCode {
    Backspace,
    Enter,
    Left,
    Right,
    Up,
    Down,
    Home,
    End,
    PageUp,
    PageDown,
    Tab,
    BackTab,
    Delete,
    Insert,
    /// A function key: `F(1)` is F1.
    F(u8),
    /// A character key.
    Char(char),
    Null,
    Esc,
}

/// The set of modifiers held while a key was pressed. Any combination of the
/// three can occur; the empty set is an unmodified key.
#[derive(Debug, Clone, Copy, PartialEq, Eq, Hash, Structural)]
pub struct KeyModifiers {
    pub shift: bool,
    pub control: bool,
    pub alt: bool,
}

impl KeyModifiers {
    pub open spec fn spec_none() -> KeyModifiers {
        KeyModifiers { shift: false, control: false, alt: false }
    }

    pub open spec fn spec_shift() -> KeyModifiers {
        KeyModifiers { shift: true, control: false, alt: false }
    }

    pub open spec fn spec_control() -> KeyModifiers {
        KeyModifiers { shift: false, control: true, alt: false }
    }

    pub open spec fn spec_alt() -> KeyModifiers {
        KeyModifiers { shift: false, control: false, alt: true }
    }

    pub open spec fn spec_union(self, other: KeyModifiers) -> KeyModifiers {
        KeyModifiers {
            shift: self.shift || other.shift,
            control: self.control || other.control,
            alt: self.alt || other.alt,
        }
    }

    /// No modifier at all.
    #[verifier::when_used_as_spec(spec_none)]
    pub fn none() -> (m: KeyModifiers)
        ensures
            m == Self::spec_none(),
    {
        KeyModifiers { shift: false, control: false, alt: false }
    }

    /// Shift alone.
    #[verifier::when_used_as_spec(spec_shift)]
    pub fn shift() -> (m: KeyModifiers)
        ensures
            m == Self::spec_shift(),
    {
        KeyModifiers { shift: true, control: false, alt: false }
    }

    /// Control alone.
    #[verifier::when_used_as_spec(spec_control)]
    pub fn control() -> (m: KeyModifiers)
        ensures
            m == Self::spec_control(),
    {
        KeyModifiers { shift: false, control: true, alt: false }
    }

    /// Alt alone.
    #[verifier::when_used_as_spec(spec_alt)]
    pub fn alt() -> (m: KeyModifiers)
        ensures
            m == Self::spec_alt(),
    {
        KeyModifiers { shift: false, control: false, alt: true }
    }

    /// The modifiers of either set.
    #[verifier::when_used_as_spec(spec_union)]
    pub fn union(self, other: KeyModifiers) -> (m: KeyModifiers)
        ensures
            m == self.spec_union(other),
    {
        KeyModifiers {
            shift: self.shift || other.shift,
            control: self.control || other.control,
            alt: self.alt || other.alt,
        }
    }
}

/// One key press: a key and the modifiers held with it. Two events are equal
/// exactly when both parts are.
#[derive(Debug, Clone, Copy, PartialEq, Eq, Hash, Structural)]
pub struct KeyEvent {
    pub code: KeyCode,
    pub modifiers: KeyModifiers,
}

impl KeyEvent {
    pub open spec fn spec_new(code: KeyCode, modifiers: KeyModifiers) -> KeyEvent {
        KeyEvent { code, modifiers }
    }

    pub open spec fn spec_plain(code: KeyCode) -> KeyEvent {
        KeyEvent { code, modifiers: KeyModifiers::spec_none() }
    }

    pub open spec fn spec_ctrl(c: char) -> KeyEvent {
        KeyEvent { code: KeyCode::Char(c), modifiers: KeyModifiers::spec_control() }
    }

    /// True when no modifier is held.
    pub open spec fn spec_is_plain(self) -> bool {
        self.modifiers == KeyModifiers::spec_none()
    }

    /// True when Control, and nothing else, is held.
    pub open spec fn spec_is_ctrl(self) -> bool {
        self.modifiers == KeyModifiers::spec_control()
    }

    #[verifier::when_used_as_spec(spec_new)]
    pub fn new(code: KeyCode, modifiers: KeyModifiers) -> (k: KeyEvent)
        ensures
            k == Self::spec_new(code, modifiers),
    {
        KeyEvent { code, modifiers }
    }

    /// The unmodified press of `code`.
    #[verifier::when_used_as_spec(spec_plain)]
    pub fn plain(code: KeyCode) -> (k: KeyEvent)
        ensures
            k == Self::spec_plain(code),
    {
        KeyEvent { code, modifiers: KeyModifiers::none() }
    }

    /// The character `c` pressed with Control alone.
    #[verifier::when_used_as_spec(spec_ctrl)]
    pub fn ctrl(c: char) -> (k: KeyEvent)
        ensures
            k == Self::spec_ctrl(c),
    {
        KeyEvent { code: KeyCode::Char(c), modifiers: KeyModifiers::control() }
    }

    #[verifier::when_used_as_spec(spec_is_plain)]
    pub fn is_plain(self) -> (b: bool)
        ensures
            b == self.spec_is_plain(),
    {
        !self.modifiers.shift && !self.modifiers.control && !self.modifiers.alt
    }

    #[verifier::when_used_as_spec(spec_is_ctrl)]
    pub fn is_ctrl(self) -> (b: bool)
        ensures
            b == self.spec_is_ctrl(),
    {
        !self.modifiers.shift && self.modifiers.control && !self.modifiers.alt
    }
}

/// A value that one fixed key combination brings about in every mode. Such
/// combinations are looked at before any mode's own bindings; mode switches
/// and prefixes are bound this way.
pub trait GlobalKey: Default {
    /// The combination that triggers the value.
    spec fn trigger() -> KeyEvent;

    /// The combination that triggers the value.
    fn key() -> (k: KeyEvent)
        ensures
            k == Self::trigger(),
    ;

    /// The default value if `ke` is the trigger, else nothing.
    fn match_key(ke: KeyEvent) -> (r: Option<Self>)
        ensures
            r.is_some() <==> ke == Self::trigger(),
            r matches Some(v) ==> call_ensures(Self::default, (), v),
    {
        if Self::key() == ke {
            Some(Self::default())
        } else {
            None
        }
    }
}

} // verus!
