//! The editor state and the two halves of a cycle: dispatch, which turns a
//! key into an operation, and execution, which applies the operation.

use crate::bindings::Resolution;
use crate::buffer::{clamp16, BufferRegistry};
use crate::effect::{CursorShape, Effect};
use crate::key::KeyEvent;
use crate::mode::Mode;
use crate::model::{record, LxView, HISTORY_LEN};
use crate::op::{CommandOp, EditOp, GlobalOp, InsertOp, Operation};
use crate::prefix::{PendingPrefix, Prefix};
use crate::text::{push_char, reads_as, remove_tail};
use crate::types::{CursorDirection, Direction};
use crate::ui::Snapshot;
use vstd::prelude::*;

verus! {

/// The editor: the mode, the pending prefix, the buffers, the last keys and
/// the termination flag.
#[derive(Debug)]
pub struct Lx {
    prev_keys: Vec<KeyEvent>,
    prefix: Option<PendingPrefix>,
    buffers: BufferRegistry,
    mode: Mode,
    quit: bool,
}

impl View for Lx {
    type V = LxView;

    closed spec fn view(&self) -> LxView {
        LxView {
            mode: self.mode@,
            prefix: self.prefix,
            registry: self.buffers@,
            history: self.prev_keys@,
            quit: self.quit,
        }
    }
}

impl Default for Lx {
    fn default() -> (lx: Self)
        ensures
            lx@ == LxView::init(),
            lx.wf(),
    {
        Lx::new()
    }
}

impl Lx {
    /// The state is one that the editor can be in.
    pub open spec fn wf(&self) -> bool {
        self@.wf()
    }

    /// The editor at startup.
    pub fn new() -> (lx: Self)
        ensures
            lx@ == LxView::init(),
            lx.wf(),
    {
        Lx {
            quit: false,
            prefix: None,
            buffers: BufferRegistry::new(),
            mode: Mode::insert(),
            prev_keys: Vec::with_capacity(HISTORY_LEN),
        }
    }

    /// Tests whether the state is one that the editor can be in. Every
    /// state that the functions of this library hand out is.
    pub fn well_formed(&self) -> (b: bool)
        ensures
            b == self.wf(),
    {
        self.buffers.well_formed() && self.prev_keys.len() <= HISTORY_LEN
    }

    /// The mode the editor is in.
    pub fn mode(&self) -> (m: &Mode)
        ensures
            m@ == self@.mode,
    {
        &self.mode
    }

    /// The kind of the pending prefix, if one is armed.
    pub fn prefix(&self) -> (p: Option<Prefix>)
        ensures
            p == (match self@.prefix {
                Some(pending) => Some(pending.prefix),
                None => None,
            }),
    {
        match self.prefix {
            Some(pending) => Some(pending.prefix),
            None => None,
        }
    }

    /// The pending prefix with the time of its arming, if one is armed.
    pub fn pending(&self) -> (p: Option<PendingPrefix>)
        ensures
            p == self@.prefix,
    {
        self.prefix
    }

    /// The open buffers.
    pub fn buffers(&self) -> (r: &BufferRegistry)
        ensures
            r@ == self@.registry,
    {
        &self.buffers
    }

    /// The last key events, oldest first.
    pub fn prev_keys(&self) -> (keys: &Vec<KeyEvent>)
        ensures
            keys@ == self@.history,
    {
        &self.prev_keys
    }

    /// The termination flag: true once the session has ended.
    pub fn quit(&self) -> (q: bool)
        ensures
            q == self@.quit,
    {
        self.quit
    }

    /// How many milliseconds the host may wait at `now` for the next key
    /// before it has to report a timeout. With no prefix pending, or after
    /// the end of the session, there is no bound.
    pub fn wait_budget(&self, now: u64) -> (ms: Option<u64>)
        ensures
            ms == self@.wait_budget(now),
    {
        if self.quit {
            None
        } else {
            match self.prefix {
                Some(p) => Some(p.remaining(now)),
                None => None,
            }
        }
    }

    /// What the screen shows of the editor.
    pub fn snapshot(&self) -> (shot: Snapshot)
        requires
            self.wf(),
        ensures
            shot@ == self@.snapshot(),
    {
        Snapshot {
            mode: self.mode.to_string(),
            prefix: match self.prefix {
                Some(p) => Some(p.prefix.to_string()),
                None => None,
            },
            buffer_index: self.buffers.active(),
            buffer_count: self.buffers.len(),
            text: self.buffers.active_text().clone(),
            command_line: match &self.mode {
                Mode::Command(m) => Some(m.command_buf.clone()),
                _ => None,
            },
            quit: self.quit,
        }
    }

    /// Appends `kv` to the history; the oldest key leaves once the history
    /// is full.
    fn remember(&mut self, kv: KeyEvent)
        requires
            old(self).wf(),
        ensures
            final(self)@ == (LxView { history: record(old(self)@.history, kv), ..old(self)@ }),
            final(self).wf(),
    {
        if self.prev_keys.len() >= HISTORY_LEN {
            self.prev_keys.remove(0);
        }
        self.prev_keys.push(kv);
        assert(self.prev_keys@ =~= record(old(self)@.history, kv));
    }

    /// Dispatches the key `kv`, which arrived at `now` on the host's
    /// monotonic clock, in milliseconds. Returns the operation that the key
    /// stands for, if it stands for one. Of the state, dispatch touches the
    /// pending prefix and the history alone.
    pub fn dispatch(&mut self, kv: KeyEvent, now: u64) -> (op: Option<Operation>)
        requires
            old(self).wf(),
        ensures
            (final(self)@, op) == old(self)@.dispatch(kv, now),
            final(self).wf(),
    {
        if self.quit {
            return None;
        }
        let live = match self.prefix {
            Some(p) => if p.expired(now) {
                None
            } else {
                Some(p.prefix)
            },
            None => None,
        };
        self.prefix = None;
        let op = if let Some(p) = live {
            match Self::match_prefix_key_event(p, kv) {
                Resolution::Resolved(op) => Some(op),
                Resolution::Rearmed(sub) => {
                    self.prefix = Some(PendingPrefix::new(sub, now));
                    None
                },
                Resolution::Dropped => None,
            }
        } else if let Some(p) = Prefix::match_global_key(kv) {
            self.prefix = Some(PendingPrefix::new(p, now));
            None
        } else if let Some(m) = self.mode.match_key(kv) {
            Some(Operation::Mode(m.switch_op()))
        } else {
            match &self.mode {
                Mode::Insert(_) => Self::match_insert_key_event(kv),
                Mode::Edit(_) => Self::match_edit_key_event(kv),
                Mode::Command(_) => Self::match_command_key_event(kv),
                Mode::Overview(_) => Self::match_overview_key_event(kv),
            }
        };
        self.remember(kv);
        op
    }

    /// Drops the pending prefix if at `now` its deadline has passed. The
    /// host calls this when its wait for the next key has run out.
    pub fn prefix_timeout(&mut self, now: u64)
        requires
            old(self).wf(),
        ensures
            final(self)@ == old(self)@.timeout(now),
            final(self).wf(),
    {
        if self.quit {
            return ;
        }
        match self.prefix {
            Some(p) => {
                if p.expired(now) {
                    self.prefix = None;
                }
            },
            None => {},
        }
    }

    /// Switches to `mode` and returns what the host is to do to the
    /// terminal for it, in order. A switch to the variant that is already
    /// active does nothing at all.
    pub fn mode_switch(&mut self, mode: Mode) -> (effects: Vec<Effect>)
        requires
            old(self).wf(),
        ensures
            (final(self)@, effects@) == old(self)@.mode_switch(mode@),
            final(self).wf(),
    {
        let mut effects = Vec::new();
        if !self.mode.same_kind(&mode) {
            match self.mode {
                Mode::Insert(_) | Mode::Edit(_) => {
                    effects.push(Effect::SaveCursor);
                },
                _ => {},
            }
            match mode {
                Mode::Insert(_) => {
                    effects.push(Effect::RestoreCursor);
                    effects.push(Effect::SetCursorShape(CursorShape::Line));
                },
                Mode::Command(_) => {
                    effects.push(Effect::MoveToStatusRow);
                    effects.push(Effect::SetCursorShape(CursorShape::Line));
                },
                Mode::Edit(_) => {
                    effects.push(Effect::SetCursorShape(CursorShape::Block));
                    effects.push(Effect::RestoreCursor);
                },
                Mode::Overview(_) => {
                    effects.push(Effect::SetCursorShape(CursorShape::Block));
                },
            }
            self.mode = mode;
            assert(effects@ =~= old(self)@.mode_switch(mode@).1);
        }
        effects
    }

    /// Runs the command line as a command and returns what the host is to
    /// do for it. Outside Command mode there is no command line and nothing
    /// happens.
    pub fn exec_cmd(&mut self) -> (effects: Vec<Effect>)
        requires
            old(self).wf(),
        ensures
            (final(self)@, effects@) == old(self)@.exec_cmd(),
            final(self).wf(),
    {
        let target = match &self.mode {
            Mode::Command(m) => {
                if reads_as(&m.command_buf, "quit") {
                    self.quit = true;
                    None
                } else if reads_as(&m.command_buf, "command") {
                    Some(Mode::command())
                } else if reads_as(&m.command_buf, "insert") {
                    Some(Mode::insert())
                } else if reads_as(&m.command_buf, "edit") {
                    Some(Mode::edit())
                } else if reads_as(&m.command_buf, "overview") {
                    Some(Mode::overview())
                } else {
                    None
                }
            },
            _ => None,
        };
        match target {
            Some(mode) => self.mode_switch(mode),
            None => Vec::new(),
        }
    }

    /// Appends `ch` to the text of the active buffer.
    pub fn write_char(&mut self, ch: char)
        requires
            old(self).wf(),
        ensures
            final(self)@ == old(self)@.with_registry(old(self)@.registry.insert_char(ch)),
            final(self).wf(),
    {
        self.buffers.insert_char(ch);
    }

    /// Appends `ch` to the command line. Outside Command mode there is no
    /// command line and nothing happens.
    pub fn write_cmd_char(&mut self, ch: char)
        requires
            old(self).wf(),
        ensures
            final(self)@ == old(self)@.write_cmd_char(ch),
            final(self).wf(),
    {
        match &mut self.mode {
            Mode::Command(m) => {
                push_char(&mut m.command_buf, ch);
            },
            _ => {},
        }
    }

    /// Opens a new empty buffer and makes it the active one.
    pub fn create_buf(&mut self)
        requires
            old(self).wf(),
        ensures
            final(self)@ == old(self)@.with_registry(old(self)@.registry.create()),
            final(self).wf(),
    {
        self.buffers.create();
    }

    /// Closes the active buffer. Closing the last buffer ends the session
    /// instead, and the registry keeps that buffer.
    pub fn close_buf(&mut self)
        requires
            old(self).wf(),
        ensures
            final(self)@ == old(self)@.close_buf(),
            final(self).wf(),
    {
        let last = self.buffers.close();
        if last {
            self.quit = true;
        }
    }

    /// Makes buffer `idx`, counted from zero, the active one. If there is no
    /// such buffer, nothing changes.
    pub fn switch_buf(&mut self, idx: usize)
        requires
            old(self).wf(),
        ensures
            final(self)@ == old(self)@.with_registry(old(self)@.registry.switch_to(idx as int)),
            final(self).wf(),
    {
        self.buffers.switch_to(idx);
    }

    /// Applies `op` to the state and returns what the host is to do to the
    /// terminal for it, in order.
    pub fn execute(&mut self, op: Operation) -> (effects: Vec<Effect>)
        requires
            old(self).wf(),
        ensures
            (final(self)@, effects@) == old(self)@.execute(op),
            final(self).wf(),
    {
        if self.quit {
            return Vec::new();
        }
        let mut effects = Vec::new();
        match op {
            Operation::Insert(InsertOp::InsertChar(c)) => {
                self.write_char(c);
            },
            Operation::Insert(InsertOp::Backspace(n)) => {
                self.buffers.backspace(n);
                self.buffers.move_cursor(CursorDirection::Left, clamp16(n));
                effects.push(Effect::MoveCursor(CursorDirection::Left, clamp16(n)));
            },
            Operation::Command(CommandOp::InsertChar(c)) => {
                self.write_cmd_char(c);
            },
            Operation::Command(CommandOp::Backspace(n)) => {
                match &mut self.mode {
                    Mode::Command(m) => {
                        remove_tail(&mut m.command_buf, n);
                    },
                    _ => {},
                }
            },
            Operation::Command(CommandOp::Enter) => {
                match self.mode {
                    Mode::Command(_) => {
                        effects = self.exec_cmd();
                        let mut back = self.mode_switch(Mode::edit());
                        effects.append(&mut back);
                    },
                    _ => {},
                }
            },
            Operation::Edit(EditOp::MoveLine(dir, n)) => {
                self.buffers.move_line(dir, clamp16(n));
                match dir {
                    Direction::Next => {
                        effects.push(Effect::MoveToNextLine(clamp16(n)));
                    },
                    Direction::Prev => {
                        effects.push(Effect::MoveToPreviousLine(clamp16(n)));
                    },
                }
            },
            Operation::Global(GlobalOp::NewBuffer) => {
                self.create_buf();
            },
            Operation::Mode(m) => {
                match m.target() {
                    Some(mode) => {
                        effects = self.mode_switch(mode);
                    },
                    None => {},
                }
            },
            Operation::MoveCursor(dir, n) => {
                self.buffers.move_cursor(dir, n);
                effects.push(Effect::MoveCursor(dir, n));
            },
            Operation::ScrollUp(n) => {
                effects.push(Effect::ScrollUp(n));
            },
            Operation::ScrollDown(n) => {
                effects.push(Effect::ScrollDown(n));
            },
            Operation::CloseBuffer => {
                self.close_buf();
            },
            Operation::SwitchBuffer(n) => {
                self.switch_buf(n);
            },
            Operation::Quit => {
                self.quit = true;
            },
            _ => {},
        }
        assert(effects@ =~= old(self)@.execute(op).1);
        effects
    }

    /// One whole cycle for the key `kv`, which arrived at `now` on the
    /// host's monotonic clock, in milliseconds: the key is dispatched and
    /// the operation it stands for, if any, is applied. Returns what the
    /// host is to do to the terminal, in order.
    pub fn match_key_event(&mut self, kv: KeyEvent, now: u64) -> (effects: Vec<Effect>)
        requires
            old(self).wf(),
        ensures
            (final(self)@, effects@) == old(self)@.cycle(kv, now),
            final(self).wf(),
    {
        match self.dispatch(kv, now) {
            Some(op) => self.execute(op),
            None => Vec::new(),
        }
    }
}

} // verus!
