//! Text buffers and the registry that holds them. The registry is never
//! empty and always has one active buffer; all editing goes to that one.

use crate::text::{push_char, remove_tail, without_tail};
use crate::types::{CursorDirection, Direction};
use vstd::prelude::*;

verus! {

/// `n` as a `u16`, or the largest `u16` if `n` does not fit.
pub open spec fn spec_clamp16(n: usize) -> u16 {
    if n > u16::MAX {
        u16::MAX
    } else {
        n as u16
    }
}

/// `n` as a `u16`, or the largest `u16` if `n` does not fit.
#[verifier::when_used_as_spec(spec_clamp16)]
pub fn clamp16(n: usize) -> (r: u16)
    ensures
        r == spec_clamp16(n),
{
    if n > u16::MAX as usize {
        u16::MAX
    } else {
        n as u16
    }
}

/// A place on the screen grid. Columns count from the left and rows from the
/// top, both from zero.
#[derive(Debug, Clone, Copy, PartialEq, Eq, Structural)]
pub struct Position {
    pub col: u16,
    pub row: u16,
}

impl Position {
    /// The position `n` cells away in direction `dir`, stopping at the edge
    /// of the grid.
    pub open spec fn spec_step(self, dir: CursorDirection, n: u16) -> Position {
        match dir {
            CursorDirection::Left => Position {
                col: if self.col >= n {
                    (self.col - n) as u16
                } else {
                    0
                },
                ..self
            },
            CursorDirection::Right => Position {
                col: if self.col + n <= u16::MAX {
                    (self.col + n) as u16
                } else {
                    u16::MAX
                },
                ..self
            },
            CursorDirection::Up => Position {
                row: if self.row >= n {
                    (self.row - n) as u16
                } else {
                    0
                },
                ..self
            },
            CursorDirection::Down => Position {
                row: if self.row + n <= u16::MAX {
                    (self.row + n) as u16
                } else {
                    u16::MAX
                },
                ..self
            },
        }
    }

    /// The start of the line `n` lines away in direction `dir`, stopping at
    /// the edge of the grid.
    pub open spec fn spec_line(self, dir: Direction, n: u16) -> Position {
        match dir {
            Direction::Next => Position {
                col: 0,
                row: self.spec_step(CursorDirection::Down, n).row,
            },
            Direction::Prev => Position { col: 0, row: self.spec_step(CursorDirection::Up, n).row },
        }
    }

    /// The position `n` cells away in direction `dir`, stopping at the edge
    /// of the grid.
    #[verifier::when_used_as_spec(spec_step)]
    pub fn step(self, dir: CursorDirection, n: u16) -> (p: Position)
        ensures
            p == self.spec_step(dir, n),
    {
        match dir {
            CursorDirection::Left => Position { col: self.col.saturating_sub(n), row: self.row },
            CursorDirection::Right => Position { col: self.col.saturating_add(n), row: self.row },
            CursorDirection::Up => Position { col: self.col, row: self.row.saturating_sub(n) },
            CursorDirection::Down => Position { col: self.col, row: self.row.saturating_add(n) },
        }
    }

    /// The start of the line `n` lines away in direction `dir`, stopping at
    /// the edge of the grid.
    #[verifier::when_used_as_spec(spec_line)]
    pub fn line(self, dir: Direction, n: u16) -> (p: Position)
        ensures
            p == self.spec_line(dir, n),
    {
        match dir {
            Direction::Next => Position { col: 0, row: self.row.saturating_add(n) },
            Direction::Prev => Position { col: 0, row: self.row.saturating_sub(n) },
        }
    }
}

/// One text buffer: its text and where its cursor is. Which buffer it is, is
/// its place in the registry.
#[derive(Debug, PartialEq, Eq)]
pub struct Buffer {
    pub text: String,
    pub cursor: Position,
}

/// A buffer as contracts see it.
pub struct BufferView {
    pub text: Seq<char>,
    pub cursor: Position,
}

impl View for Buffer {
    type V = BufferView;

    open spec fn view(&self) -> BufferView {
        BufferView { text: self.text@, cursor: self.cursor }
    }
}

impl BufferView {
    /// The buffer that a new buffer is: no text, the cursor at the origin.
    pub open spec fn empty() -> BufferView {
        BufferView { text: Seq::empty(), cursor: Position { col: 0, row: 0 } }
    }
}

impl Buffer {
    /// A buffer with no text and the cursor at the origin.
    pub fn new() -> (b: Buffer)
        ensures
            b@ == BufferView::empty(),
    {
        Buffer { text: String::new(), cursor: Position { col: 0, row: 0 } }
    }
}

/// The registry as contracts see it: the buffers in order, and the index of
/// the active one.
pub struct RegistryView {
    pub buffers: Seq<BufferView>,
    pub active: int,
}

impl RegistryView {
    /// The registry holds a buffer, and the active index names one.
    pub open spec fn wf(self) -> bool {
        0 <= self.active < self.buffers.len()
    }

    /// The registry at startup: one empty buffer, which is active.
    pub open spec fn init() -> RegistryView {
        RegistryView { buffers: seq![BufferView::empty()], active: 0 }
    }

    /// The active buffer.
    pub open spec fn current(self) -> BufferView {
        self.buffers[self.active]
    }

    /// The registry with `b` in place of the active buffer.
    pub open spec fn with_current(self, b: BufferView) -> RegistryView {
        RegistryView { buffers: self.buffers.update(self.active, b), ..self }
    }

    /// A new empty buffer is appended and becomes the active one.
    pub open spec fn create(self) -> RegistryView {
        RegistryView {
            buffers: self.buffers.push(BufferView::empty()),
            active: self.buffers.len() as int,
        }
    }

    /// True when closing the active buffer would leave no buffer.
    pub open spec fn closes_last(self) -> bool {
        self.buffers.len() <= 1
    }

    /// The active buffer is removed and the one before it becomes active;
    /// when the first is removed, the buffer that follows it does. The last
    /// remaining buffer is not removed: the registry stays as it is.
    pub open spec fn close(self) -> RegistryView {
        if self.closes_last() {
            self
        } else {
            RegistryView {
                buffers: self.buffers.remove(self.active),
                active: if self.active == 0 {
                    0
                } else {
                    self.active - 1
                },
            }
        }
    }

    /// Buffer `n` becomes the active one if there is a buffer `n`.
    pub open spec fn switch_to(self, n: int) -> RegistryView {
        if 0 <= n < self.buffers.len() {
            RegistryView { active: n, ..self }
        } else {
            self
        }
    }

    /// `c` is appended to the text of the active buffer.
    pub open spec fn insert_char(self, c: char) -> RegistryView {
        self.with_current(BufferView { text: self.current().text.push(c), ..self.current() })
    }

    /// The last `n` characters leave the text of the active buffer.
    pub open spec fn backspace(self, n: nat) -> RegistryView {
        self.with_current(
            BufferView { text: without_tail(self.current().text, n), ..self.current() },
        )
    }

    /// The cursor of the active buffer steps `n` cells.
    pub open spec fn move_cursor(self, dir: CursorDirection, n: u16) -> RegistryView {
        self.with_current(
            BufferView { cursor: self.current().cursor.spec_step(dir, n), ..self.current() },
        )
    }

    /// The cursor of the active buffer goes to the start of a line `n` lines
    /// away.
    pub open spec fn move_line(self, dir: Direction, n: u16) -> RegistryView {
        self.with_current(
            BufferView { cursor: self.current().cursor.spec_line(dir, n), ..self.current() },
        )
    }
}

/// The open buffers, in order, and which of them is active.
#[derive(Debug)]
pub struct BufferRegistry {
    buffers: Vec<Buffer>,
    active: usize,
}

impl View for BufferRegistry {
    type V = RegistryView;

    closed spec fn view(&self) -> RegistryView {
        RegistryView {
            buffers: Seq::new(self.buffers.len() as nat, |i: int| self.buffers[i]@),
            active: self.active as int,
        }
    }
}

impl BufferRegistry {
    /// The registry is never empty and its active index names a buffer.
    pub open spec fn wf(&self) -> bool {
        self@.wf()
    }

    /// The registry at startup: one empty buffer, which is active.
    pub fn new() -> (r: Self)
        ensures
            r@ == RegistryView::init(),
            r.wf(),
    {
        let mut buffers = Vec::new();
        buffers.push(Buffer::new());
        let r = BufferRegistry { buffers, active: 0 };
        assert(r@.buffers =~= RegistryView::init().buffers);
        r
    }

    /// Tests whether the registry is well formed. Every registry that the
    /// functions of this library hand out is.
    pub fn well_formed(&self) -> (b: bool)
        ensures
            b == self.wf(),
    {
        self.active < self.buffers.len()
    }

    /// The number of open buffers.
    pub fn len(&self) -> (n: usize)
        ensures
            n == self@.buffers.len(),
    {
        self.buffers.len()
    }

    /// The index of the active buffer.
    pub fn active(&self) -> (i: usize)
        ensures
            i == self@.active,
    {
        self.active
    }

    /// The text of the active buffer.
    pub fn active_text(&self) -> (t: &String)
        requires
            self.wf(),
        ensures
            t@ == self@.current().text,
    {
        &self.buffers[self.active].text
    }

    /// The cursor of the active buffer.
    pub fn active_cursor(&self) -> (p: Position)
        requires
            self.wf(),
        ensures
            p == self@.current().cursor,
    {
        self.buffers[self.active].cursor
    }

    /// The buffer at index `i`, if there is one.
    pub fn get(&self, i: usize) -> (b: Option<&Buffer>)
        ensures
            i < self@.buffers.len() ==> (b matches Some(x) && x@ == self@.buffers[i as int]),
            i >= self@.buffers.len() ==> b.is_none(),
    {
        if i < self.buffers.len() {
            Some(&self.buffers[i])
        } else {
            None
        }
    }

    /// Appends a new empty buffer and makes it the active one.
    pub fn create(&mut self)
        requires
            old(self).wf(),
        ensures
            final(self)@ == old(self)@.create(),
            final(self).wf(),
    {
        self.active = self.buffers.len();
        self.buffers.push(Buffer::new());
        assert(self@.buffers =~= old(self)@.create().buffers);
    }

    /// Closes the active buffer, unless it is the last one. Returns true
    /// exactly when it is the last one: the registry then stays as it is, and
    /// the caller is to end the session.
    pub fn close(&mut self) -> (last: bool)
        requires
            old(self).wf(),
        ensures
            last == old(self)@.closes_last(),
            final(self)@ == old(self)@.close(),
            final(self).wf(),
    {
        if self.buffers.len() <= 1 {
            true
        } else {
            let at = self.active;
            self.buffers.remove(at);
            self.active = at.saturating_sub(1);
            assert(self@.buffers =~= old(self)@.close().buffers);
            false
        }
    }

    /// Makes buffer `n` the active one. If there is no buffer `n`, nothing
    /// changes.
    pub fn switch_to(&mut self, n: usize)
        requires
            old(self).wf(),
        ensures
            final(self)@ == old(self)@.switch_to(n as int),
            final(self).wf(),
    {
        if n < self.buffers.len() {
            self.active = n;
        }
    }

    /// Appends `c` to the text of the active buffer.
    pub fn insert_char(&mut self, c: char)
        requires
            old(self).wf(),
        ensures
            final(self)@ == old(self)@.insert_char(c),
            final(self).wf(),
    {
        let at = self.active;
        push_char(&mut self.buffers[at].text, c);
        assert(self@.buffers =~= old(self)@.insert_char(c).buffers);
    }

    /// Removes the last `n` characters of the active buffer's text, or all
    /// of them if there are fewer.
    pub fn backspace(&mut self, n: usize)
        requires
            old(self).wf(),
        ensures
            final(self)@ == old(self)@.backspace(n as nat),
            final(self).wf(),
    {
        let at = self.active;
        remove_tail(&mut self.buffers[at].text, n);
        assert(self@.buffers =~= old(self)@.backspace(n as nat).buffers);
    }

    /// Steps the cursor of the active buffer `n` cells in direction `dir`.
    pub fn move_cursor(&mut self, dir: CursorDirection, n: u16)
        requires
            old(self).wf(),
        ensures
            final(self)@ == old(self)@.move_cursor(dir, n),
            final(self).wf(),
    {
        let at = self.active;
        let to = self.buffers[at].cursor.step(dir, n);
        self.buffers[at].cursor = to;
        assert(self@.buffers =~= old(self)@.move_cursor(dir, n).buffers);
    }

    /// Puts the cursor of the active buffer at the start of the line `n`
    /// lines away in direction `dir`.
    pub fn move_line(&mut self, dir: Direction, n: u16)
        requires
            old(self).wf(),
        ensures
            final(self)@ == old(self)@.move_line(dir, n),
            final(self).wf(),
    {
        let at = self.active;
        let to = self.buffers[at].cursor.line(dir, n);
        self.buffers[at].cursor = to;
        assert(self@.buffers =~= old(self)@.move_line(dir, n).buffers);
    }
}

} // verus!
