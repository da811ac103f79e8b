//! The binding tables: what a key means in each mode, and what it means
//! after a prefix. Each table is a function from the key to the operation it
//! stands for; a key that a table does not bind stands for nothing.

use crate::app::Lx;
use crate::key::{KeyCode, KeyEvent, KeyModifiers};
use crate::mode::ModeView;
use crate::op::{CommandOp, EditOp, GlobalOp, InsertOp, Operation};
use crate::prefix::Prefix;
use crate::types::{CursorDirection, Direction};
use vstd::prelude::*;

verus! {

/// How many lines a page key scrolls.
pub const PAGE_SCROLL_LINES: u16 = 3;

/// What the key after an armed prefix comes to.
#[derive(Debug, PartialEq, Eq)]
pub enum Resolution {
    /// The two keys together stand for this operation.
    Resolved(Operation),
    /// The key arms this prefix in place of the one before.
    Rearmed(Prefix),
    /// The key completes nothing. It is used up all the same.
    Dropped,
}

/// The character of an unmodified character key.
pub open spec fn printable(kv: KeyEvent) -> Option<char> {
    match kv.code {
        KeyCode::Char(c) if kv.spec_is_plain() => Some(c),
        _ => None,
    }
}

/// The zero-based buffer index that a digit key names: `'1'` names buffer 0
/// and `'9'` buffer 8. Other characters name none.
pub open spec fn digit_index(c: char) -> Option<usize> {
    if '1' <= c && c <= '9' {
        Some((c as int - '1' as int) as usize)
    } else {
        None
    }
}

/// What a key pressed with Control alone means in Insert and in Command
/// mode: `h`, `j`, `k` and `l` step the cursor left, down, up and right, and
/// `q` ends the session.
pub open spec fn insert_ctrl_table(code: KeyCode) -> Option<Operation> {
    match code {
        KeyCode::Char('h') => Some(Operation::MoveCursor(CursorDirection::Left, 1)),
        KeyCode::Char('j') => Some(Operation::MoveCursor(CursorDirection::Down, 1)),
        KeyCode::Char('k') => Some(Operation::MoveCursor(CursorDirection::Up, 1)),
        KeyCode::Char('l') => Some(Operation::MoveCursor(CursorDirection::Right, 1)),
        KeyCode::Char('q') => Some(Operation::Quit),
        _ => None,
    }
}

/// The bindings of Insert mode. The page keys scroll; Control with a key
/// goes by the table of control keys; Backspace takes one character off the
/// text; an unmodified character key inserts its character.
pub open spec fn insert_table(kv: KeyEvent) -> Option<Operation> {
    if kv == KeyEvent::spec_plain(KeyCode::PageUp) {
        Some(Operation::ScrollUp(PAGE_SCROLL_LINES))
    } else if kv == KeyEvent::spec_plain(KeyCode::PageDown) {
        Some(Operation::ScrollDown(PAGE_SCROLL_LINES))
    } else if kv.spec_is_ctrl() {
        insert_ctrl_table(kv.code)
    } else if kv == KeyEvent::spec_plain(KeyCode::Backspace) {
        Some(Operation::Insert(InsertOp::Backspace(1)))
    } else {
        match printable(kv) {
            Some(c) => Some(Operation::Insert(InsertOp::InsertChar(c))),
            None => None,
        }
    }
}

/// The bindings of Command mode. Enter runs the command line; Control with
/// a key goes by the table of control keys; Backspace takes one character
/// off the command line; an unmodified character key appends its character
/// to it.
pub open spec fn command_table(kv: KeyEvent) -> Option<Operation> {
    if kv == KeyEvent::spec_plain(KeyCode::Enter) {
        Some(Operation::Command(CommandOp::Enter))
    } else if kv.spec_is_ctrl() {
        insert_ctrl_table(kv.code)
    } else if kv == KeyEvent::spec_plain(KeyCode::Backspace) {
        Some(Operation::Command(CommandOp::Backspace(1)))
    } else {
        match printable(kv) {
            Some(c) => Some(Operation::Command(CommandOp::InsertChar(c))),
            None => None,
        }
    }
}

/// What an unmodified key means in Edit mode.
pub open spec fn edit_plain_table(code: KeyCode) -> Option<Operation> {
    match code {
        KeyCode::Char('q') => Some(Operation::CloseBuffer),
        KeyCode::Char('c') => Some(Operation::Global(GlobalOp::NewBuffer)),
        KeyCode::Char('n') => Some(Operation::Edit(EditOp::MoveLine(Direction::Next, 1))),
        KeyCode::Char('p') => Some(Operation::Edit(EditOp::MoveLine(Direction::Prev, 1))),
        KeyCode::Char('j') | KeyCode::Down => Some(
            Operation::MoveCursor(CursorDirection::Down, 1),
        ),
        KeyCode::Char('h') | KeyCode::Left => Some(
            Operation::MoveCursor(CursorDirection::Left, 1),
        ),
        KeyCode::Char('k') | KeyCode::Up => Some(Operation::MoveCursor(CursorDirection::Up, 1)),
        KeyCode::Char('l') | KeyCode::Right => Some(
            Operation::MoveCursor(CursorDirection::Right, 1),
        ),
        KeyCode::PageUp => Some(Operation::ScrollUp(PAGE_SCROLL_LINES)),
        KeyCode::PageDown => Some(Operation::ScrollDown(PAGE_SCROLL_LINES)),
        _ => None,
    }
}

/// The bindings of Edit mode. Control with `q` ends the session. Unmodified,
/// `q` closes the active buffer and `c` opens a new one; `n` and `p` go to
/// the next and the previous line; `h`, `j`, `k`, `l` and the arrow keys
/// step the cursor; the page keys scroll.
pub open spec fn edit_table(kv: KeyEvent) -> Option<Operation> {
    if kv.spec_is_ctrl() {
        if kv.code == KeyCode::Char('q') {
            Some(Operation::Quit)
        } else {
            None
        }
    } else if kv.spec_is_plain() {
        edit_plain_table(kv.code)
    } else {
        None
    }
}

/// The bindings of Overview mode: none. The mode is left by the keys that
/// switch modes, and by nothing else.
pub open spec fn overview_table(kv: KeyEvent) -> Option<Operation> {
    None
}

/// The bindings of `mode`.
pub open spec fn local_table(mode: ModeView, kv: KeyEvent) -> Option<Operation> {
    match mode {
        ModeView::Insert => insert_table(kv),
        ModeView::Edit => edit_table(kv),
        ModeView::Command(_) => command_table(kv),
        ModeView::Overview(_) => overview_table(kv),
    }
}

/// What a key after the leader comes to, whatever modifiers it carries. A
/// digit from 1 to 9 switches to the buffer of that number, counted from
/// one; `b`, `f`, `w`, `/` and `t` arm the buffer, find, window, search and
/// tab prefix; every other key is dropped.
pub open spec fn leader_table(ke: KeyEvent) -> Resolution {
    match ke.code {
        KeyCode::Char(c) => match digit_index(c) {
            Some(n) => Resolution::Resolved(Operation::SwitchBuffer(n)),
            None => if c == 'b' {
                Resolution::Rearmed(Prefix::spec_buffer())
            } else if c == 'f' {
                Resolution::Rearmed(Prefix::spec_find())
            } else if c == 'w' {
                Resolution::Rearmed(Prefix::spec_window())
            } else if c == '/' {
                Resolution::Rearmed(Prefix::spec_search())
            } else if c == 't' {
                Resolution::Rearmed(Prefix::spec_tab())
            } else {
                Resolution::Dropped
            },
        },
        _ => Resolution::Dropped,
    }
}

/// What the key `kv` comes to after the armed `prefix`. Only the leader has
/// keys that complete it; after any other prefix the key is dropped.
pub open spec fn resolve(prefix: Prefix, kv: KeyEvent) -> Resolution {
    match prefix {
        Prefix::Leader(_) => leader_table(kv),
        _ => Resolution::Dropped,
    }
}

impl Lx {
    /// The operation that a key pressed with Control alone stands for in
    /// Insert and in Command mode.
    pub fn match_insert_ctrl(code: KeyCode) -> (op: Option<Operation>)
        ensures
            op == insert_ctrl_table(code),
    {
        match code {
            KeyCode::Char('h') => Some(Operation::MoveCursor(CursorDirection::Left, 1)),
            KeyCode::Char('j') => Some(Operation::MoveCursor(CursorDirection::Down, 1)),
            KeyCode::Char('k') => Some(Operation::MoveCursor(CursorDirection::Up, 1)),
            KeyCode::Char('l') => Some(Operation::MoveCursor(CursorDirection::Right, 1)),
            KeyCode::Char('q') => Some(Operation::Quit),
            _ => None,
        }
    }

    /// The operation that `kv` stands for in Insert mode.
    pub fn match_insert_key_event(kv: KeyEvent) -> (op: Option<Operation>)
        ensures
            op == insert_table(kv),
    {
        match kv {
            KeyEvent {
                modifiers: KeyModifiers { shift: false, control: false, alt: false },
                code: KeyCode::PageUp,
            } => Some(Operation::ScrollUp(PAGE_SCROLL_LINES)),
            KeyEvent {
                modifiers: KeyModifiers { shift: false, control: false, alt: false },
                code: KeyCode::PageDown,
            } => Some(Operation::ScrollDown(PAGE_SCROLL_LINES)),
            KeyEvent {
                modifiers: KeyModifiers { shift: false, control: true, alt: false },
                code,
            } => Self::match_insert_ctrl(code),
            KeyEvent {
                modifiers: KeyModifiers { shift: false, control: false, alt: false },
                code: KeyCode::Backspace,
            } => Some(Operation::Insert(InsertOp::Backspace(1))),
            KeyEvent {
                modifiers: KeyModifiers { shift: false, control: false, alt: false },
                code: KeyCode::Char(c),
            } => Some(Operation::Insert(InsertOp::InsertChar(c))),
            _ => None,
        }
    }

    /// The operation that `kv` stands for in Overview mode: none.
    pub fn match_overview_key_event(kv: KeyEvent) -> (op: Option<Operation>)
        ensures
            op == overview_table(kv),
    {
        None
    }

    /// The operation that `kv` stands for in Command mode.
    pub fn match_command_key_event(kv: KeyEvent) -> (op: Option<Operation>)
        ensures
            op == command_table(kv),
    {
        match kv {
            KeyEvent {
                modifiers: KeyModifiers { shift: false, control: false, alt: false },
                code: KeyCode::Enter,
            } => Some(Operation::Command(CommandOp::Enter)),
            KeyEvent {
                modifiers: KeyModifiers { shift: false, control: true, alt: false },
                code,
            } => Self::match_insert_ctrl(code),
            KeyEvent {
                modifiers: KeyModifiers { shift: false, control: false, alt: false },
                code: KeyCode::Backspace,
            } => Some(Operation::Command(CommandOp::Backspace(1))),
            KeyEvent {
                modifiers: KeyModifiers { shift: false, control: false, alt: false },
                code: KeyCode::Char(c),
            } => Some(Operation::Command(CommandOp::InsertChar(c))),
            _ => None,
        }
    }

    /// The operation that `kv` stands for in Edit mode.
    pub fn match_edit_key_event(kv: KeyEvent) -> (op: Option<Operation>)
        ensures
            op == edit_table(kv),
    {
        match kv {
            KeyEvent {
                modifiers: KeyModifiers { shift: false, control: true, alt: false },
                code,
            } => match code {
                KeyCode::Char('q') => Some(Operation::Quit),
                _ => None,
            },
            KeyEvent {
                modifiers: KeyModifiers { shift: false, control: false, alt: false },
                code,
            } => match code {
                KeyCode::Char('q') => Some(Operation::CloseBuffer),
                KeyCode::Char('c') => Some(Operation::Global(GlobalOp::NewBuffer)),
                KeyCode::Char('n') => Some(Operation::Edit(EditOp::MoveLine(Direction::Next, 1))),
                KeyCode::Char('p') => Some(Operation::Edit(EditOp::MoveLine(Direction::Prev, 1))),
                KeyCode::Char('j') | KeyCode::Down => Some(
                    Operation::MoveCursor(CursorDirection::Down, 1),
                ),
                KeyCode::Char('h') | KeyCode::Left => Some(
                    Operation::MoveCursor(CursorDirection::Left, 1),
                ),
                KeyCode::Char('k') | KeyCode::Up => Some(
                    Operation::MoveCursor(CursorDirection::Up, 1),
                ),
                KeyCode::Char('l') | KeyCode::Right => Some(
                    Operation::MoveCursor(CursorDirection::Right, 1),
                ),
                KeyCode::PageUp => Some(Operation::ScrollUp(PAGE_SCROLL_LINES)),
                KeyCode::PageDown => Some(Operation::ScrollDown(PAGE_SCROLL_LINES)),
                _ => None,
            },
            _ => None,
        }
    }

    /// What the key `ke` comes to after the leader.
    pub fn match_leader_event(ke: KeyEvent) -> (r: Resolution)
        ensures
            r == leader_table(ke),
    {
        match ke.code {
            KeyCode::Char(c) => {
                if c >= '1' && c <= '9' {
                    Resolution::Resolved(Operation::SwitchBuffer((c as u32 - '1' as u32) as usize))
                } else if c == 'b' {
                    Resolution::Rearmed(Prefix::buffer())
                } else if c == 'f' {
                    Resolution::Rearmed(Prefix::find())
                } else if c == 'w' {
                    Resolution::Rearmed(Prefix::window())
                } else if c == '/' {
                    Resolution::Rearmed(Prefix::search())
                } else if c == 't' {
                    Resolution::Rearmed(Prefix::tab())
                } else {
                    Resolution::Dropped
                }
            },
            _ => Resolution::Dropped,
        }
    }

    /// What the key `kv` comes to after the armed `prefix`.
    pub fn match_prefix_key_event(prefix: Prefix, kv: KeyEvent) -> (r: Resolution)
        ensures
            r == resolve(prefix, kv),
    {
        match prefix {
            Prefix::Leader(_) => Self::match_leader_event(kv),
            _ => Resolution::Dropped,
        }
    }
}

} // verus!
