//! The editor as a state machine over plain values. Every function here is
//! a specification: the executable editor is proved to follow them step by
//! step.

use crate::bindings::{local_table, resolve, Resolution};
use crate::buffer::{spec_clamp16, RegistryView};
use crate::effect::{CursorShape, Effect};
use crate::key::KeyEvent;
use crate::mode::ModeView;
use crate::op::{CommandOp, EditOp, GlobalOp, InsertOp, Operation};
use crate::prefix::{PendingPrefix, Prefix};
use crate::text::without_tail;
use crate::types::{CursorDirection, Direction};
use vstd::prelude::*;

verus! {

/// How many key events the history keeps.
pub const HISTORY_LEN: usize = 4;

/// The history after one more key: the key is appended, and the oldest key
/// leaves once the history is full.
pub open spec fn record(history: Seq<KeyEvent>, kv: KeyEvent) -> Seq<KeyEvent> {
    if history.len() < HISTORY_LEN {
        history.push(kv)
    } else {
        history.subrange(history.len() - HISTORY_LEN + 1, history.len() as int).push(kv)
    }
}

/// What the host does on leaving `from`: on leaving Insert or Edit the
/// cursor position is saved.
pub open spec fn leave_effects(from: ModeView) -> Seq<Effect> {
    match from {
        ModeView::Insert | ModeView::Edit => seq![Effect::SaveCursor],
        _ => Seq::empty(),
    }
}

/// What the host does on entering `to`. Insert restores the saved position
/// and draws a line cursor; Edit draws a block cursor and restores the
/// position; Command puts the cursor on the status row, as a line; Overview
/// draws a block cursor.
pub open spec fn enter_effects(to: ModeView) -> Seq<Effect> {
    match to {
        ModeView::Insert => seq![Effect::RestoreCursor, Effect::SetCursorShape(CursorShape::Line)],
        ModeView::Command(_) => seq![
            Effect::MoveToStatusRow,
            Effect::SetCursorShape(CursorShape::Line),
        ],
        ModeView::Edit => seq![Effect::SetCursorShape(CursorShape::Block), Effect::RestoreCursor],
        ModeView::Overview(_) => seq![Effect::SetCursorShape(CursorShape::Block)],
    }
}

/// One thing that happens to the editor: a key arrives, or the host's wait
/// for a key runs out. Either carries the reading of the clock.
pub enum Tick {
    Key(KeyEvent, u64),
    Idle(u64),
}

/// The whole state of the editor as contracts see it.
pub struct LxView {
    /// The one active mode.
    pub mode: ModeView,
    /// The pending prefix, if one is armed.
    pub prefix: Option<PendingPrefix>,
    /// The open buffers and the active index.
    pub registry: RegistryView,
    /// The last key events, oldest first.
    pub history: Seq<KeyEvent>,
    /// The termination flag.
    pub quit: bool,
}

impl LxView {
    /// The state at startup: Insert mode, no prefix, one empty buffer, no
    /// history, running.
    pub open spec fn init() -> LxView {
        LxView {
            mode: ModeView::Insert,
            prefix: None,
            registry: RegistryView::init(),
            history: Seq::empty(),
            quit: false,
        }
    }

    /// The registry is well formed and the history within its bound.
    pub open spec fn wf(self) -> bool {
        &&& self.registry.wf()
        &&& self.history.len() <= HISTORY_LEN
    }

    /// The prefix that captures a key arriving at `now`: the pending one,
    /// unless its deadline has passed.
    pub open spec fn live_prefix(self, now: u64) -> Option<Prefix> {
        match self.prefix {
            Some(p) if !p.spec_expired(now) => Some(p.prefix),
            _ => None,
        }
    }

    /// How long the host may wait at `now` for the next key: until the
    /// deadline of the pending prefix. With no prefix pending, or after the
    /// end of the session, there is no bound.
    pub open spec fn wait_budget(self, now: u64) -> Option<u64> {
        match self.prefix {
            Some(p) if !self.quit => Some(p.spec_remaining(now) as u64),
            _ => None,
        }
    }

    /// The state after the deadline check at `now` with no key: a prefix
    /// whose deadline has passed is dropped. Nothing else changes.
    pub open spec fn timeout(self, now: u64) -> LxView {
        if !self.quit && self.prefix is Some && self.live_prefix(now) is None {
            LxView { prefix: None, ..self }
        } else {
            self
        }
    }

    /// The prefix left pending, and the operation named, by the key `kv`
    /// arriving at `now`. In this order, the first that applies decides:
    /// a live prefix captures the key; a trigger arms its prefix; a mode
    /// switch is asked for; the current mode's bindings are looked up.
    pub open spec fn decide(self, kv: KeyEvent, now: u64) -> (Option<PendingPrefix>, Option<Operation>) {
        match self.live_prefix(now) {
            Some(p) => match resolve(p, kv) {
                Resolution::Resolved(op) => (None, Some(op)),
                Resolution::Rearmed(sub) => (Some(PendingPrefix { prefix: sub, armed_at: now }), None),
                Resolution::Dropped => (None, None),
            },
            None => match Prefix::arms(kv) {
                Some(p) => (Some(PendingPrefix { prefix: p, armed_at: now }), None),
                None => match self.mode.transition(kv) {
                    Some(m) => (None, Some(Operation::Mode(m.switch_op()))),
                    None => (None, local_table(self.mode, kv)),
                },
            },
        }
    }

    /// One dispatch: the state after the key `kv` arriving at `now` has been
    /// dispatched, and the operation it stands for. Dispatch changes the
    /// pending prefix and the history and nothing else. Once the session has
    /// ended, nothing is dispatched any more.
    pub open spec fn dispatch(self, kv: KeyEvent, now: u64) -> (LxView, Option<Operation>) {
        if self.quit {
            (self, None)
        } else {
            (
                LxView {
                    prefix: self.decide(kv, now).0,
                    history: record(self.history, kv),
                    ..self
                },
                self.decide(kv, now).1,
            )
        }
    }

    /// The state after a switch to mode `to`, and what the host is to do
    /// for it. A switch to the mode that is already active changes nothing
    /// and asks for nothing.
    pub open spec fn mode_switch(self, to: ModeView) -> (LxView, Seq<Effect>) {
        if self.mode.same_kind(to) {
            (self, Seq::empty())
        } else {
            (LxView { mode: to, ..self }, leave_effects(self.mode) + enter_effects(to))
        }
    }

    /// The state after the command line has been run as a command. The
    /// commands are `quit`, which ends the session, and the names of the
    /// four modes, which switch to them. Any other line does nothing, and
    /// so does running a command outside Command mode.
    pub open spec fn exec_cmd(self) -> (LxView, Seq<Effect>) {
        match self.mode {
            ModeView::Command(line) => if line == "quit"@ {
                (LxView { quit: true, ..self }, Seq::empty())
            } else if line == "command"@ {
                self.mode_switch(ModeView::command())
            } else if line == "insert"@ {
                self.mode_switch(ModeView::insert())
            } else if line == "edit"@ {
                self.mode_switch(ModeView::edit())
            } else if line == "overview"@ {
                self.mode_switch(ModeView::overview())
            } else {
                (self, Seq::empty())
            },
            _ => (self, Seq::empty()),
        }
    }

    /// The state after Enter in Command mode: the command line is run, and
    /// then the editor returns to Edit mode, whatever the command was.
    pub open spec fn run_command_line(self) -> (LxView, Seq<Effect>) {
        let (ran, first) = self.exec_cmd();
        let (back, second) = ran.mode_switch(ModeView::edit());
        (back, first + second)
    }

    /// The state with `registry` for its registry.
    pub open spec fn with_registry(self, registry: RegistryView) -> LxView {
        LxView { registry, ..self }
    }

    /// The state with `c` appended to the command line, if it is in Command
    /// mode; else the state itself.
    pub open spec fn write_cmd_char(self, c: char) -> LxView {
        match self.mode {
            ModeView::Command(line) => LxView { mode: ModeView::Command(line.push(c)), ..self },
            _ => self,
        }
    }

    /// The state with the last `n` characters off the command line, if it is
    /// in Command mode; else the state itself.
    pub open spec fn erase_cmd_chars(self, n: nat) -> LxView {
        match self.mode {
            ModeView::Command(line) => LxView {
                mode: ModeView::Command(without_tail(line, n)),
                ..self
            },
            _ => self,
        }
    }

    /// The state after the active buffer has been closed. Closing the last
    /// buffer ends the session and leaves the registry as it is.
    pub open spec fn close_buf(self) -> LxView {
        if self.registry.closes_last() {
            LxView { quit: true, ..self }
        } else {
            self.with_registry(self.registry.close())
        }
    }

    /// The state after `op` has been applied, and what the host is to do
    /// for it. Once the session has ended, no operation applies any more.
    /// Operations that this core gives no meaning leave the state as it is.
    pub open spec fn execute(self, op: Operation) -> (LxView, Seq<Effect>) {
        if self.quit {
            (self, Seq::empty())
        } else {
            match op {
                Operation::Insert(InsertOp::InsertChar(c)) => (
                    self.with_registry(self.registry.insert_char(c)),
                    Seq::empty(),
                ),
                Operation::Insert(InsertOp::Backspace(n)) => (
                    self.with_registry(
                        self.registry.backspace(n as nat).move_cursor(
                            CursorDirection::Left,
                            spec_clamp16(n),
                        ),
                    ),
                    seq![Effect::MoveCursor(CursorDirection::Left, spec_clamp16(n))],
                ),
                Operation::Command(CommandOp::InsertChar(c)) => (
                    self.write_cmd_char(c),
                    Seq::empty(),
                ),
                Operation::Command(CommandOp::Backspace(n)) => (
                    self.erase_cmd_chars(n as nat),
                    Seq::empty(),
                ),
                Operation::Command(CommandOp::Enter) => if self.mode is Command {
                    self.run_command_line()
                } else {
                    (self, Seq::empty())
                },
                Operation::Edit(EditOp::MoveLine(dir, n)) => (
                    self.with_registry(self.registry.move_line(dir, spec_clamp16(n))),
                    seq![
                        match dir {
                            Direction::Next => Effect::MoveToNextLine(spec_clamp16(n)),
                            Direction::Prev => Effect::MoveToPreviousLine(spec_clamp16(n)),
                        },
                    ],
                ),
                Operation::Global(GlobalOp::NewBuffer) => (
                    self.with_registry(self.registry.create()),
                    Seq::empty(),
                ),
                Operation::Mode(m) => match m.spec_target() {
                    Some(to) => self.mode_switch(to),
                    None => (self, Seq::empty()),
                },
                Operation::MoveCursor(dir, n) => (
                    self.with_registry(self.registry.move_cursor(dir, n)),
                    seq![Effect::MoveCursor(dir, n)],
                ),
                Operation::ScrollUp(n) => (self, seq![Effect::ScrollUp(n)]),
                Operation::ScrollDown(n) => (self, seq![Effect::ScrollDown(n)]),
                Operation::CloseBuffer => (self.close_buf(), Seq::empty()),
                Operation::SwitchBuffer(n) => (
                    self.with_registry(self.registry.switch_to(n as int)),
                    Seq::empty(),
                ),
                Operation::Quit => (LxView { quit: true, ..self }, Seq::empty()),
                _ => (self, Seq::empty()),
            }
        }
    }

    /// One whole cycle: the key is dispatched, and the operation it stands
    /// for, if any, is applied.
    pub open spec fn cycle(self, kv: KeyEvent, now: u64) -> (LxView, Seq<Effect>) {
        let (dispatched, op) = self.dispatch(kv, now);
        match op {
            Some(op) => dispatched.execute(op),
            None => (dispatched, Seq::empty()),
        }
    }

    /// The state after one tick.
    pub open spec fn step(self, tick: Tick) -> LxView {
        match tick {
            Tick::Key(kv, now) => self.cycle(kv, now).0,
            Tick::Idle(now) => self.timeout(now),
        }
    }

    /// The state after the ticks of `ticks`, first to last.
    pub open spec fn run(self, ticks: Seq<Tick>) -> LxView
        decreases ticks.len(),
    {
        if ticks.len() == 0 {
            self
        } else {
            self.run(ticks.drop_last()).step(ticks.last())
        }
    }

    /// True when the editor can get into this state from startup.
    pub open spec fn reachable(self) -> bool {
        exists|ticks: Seq<Tick>| LxView::init().run(ticks) == self
    }
}

} // verus!
