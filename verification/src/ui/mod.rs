//! What the renderer gets to see. After each cycle the host takes a
//! snapshot of the editor and paints it; the core itself paints nothing.

use crate::model::LxView;
use crate::mode::ModeView;
use vstd::prelude::*;

verus! {

/// The state of the editor as far as the screen shows it.
#[derive(Debug, PartialEq, Eq)]
pub struct Snapshot {
    /// The name of the mode.
    pub mode: String,
    /// The name of the pending prefix, if one is armed.
    pub prefix: Option<String>,
    /// The index of the active buffer, counted from zero.
    pub buffer_index: usize,
    /// The number of open buffers.
    pub buffer_count: usize,
    /// The text of the active buffer.
    pub text: String,
    /// The command line, in Command mode.
    pub command_line: Option<String>,
    /// The termination flag.
    pub quit: bool,
}

/// A snapshot as contracts see it.
pub struct SnapshotView {
    pub mode: Seq<char>,
    pub prefix: Option<Seq<char>>,
    pub buffer_index: int,
    pub buffer_count: int,
    pub text: Seq<char>,
    pub command_line: Option<Seq<char>>,
    pub quit: bool,
}

impl View for Snapshot {
    type V = SnapshotView;

    open spec fn view(&self) -> SnapshotView {
        SnapshotView {
            mode: self.mode@,
            prefix: match self.prefix {
                Some(p) => Some(p@),
                None => None,
            },
            buffer_index: self.buffer_index as int,
            buffer_count: self.buffer_count as int,
            text: self.text@,
            command_line: match self.command_line {
                Some(line) => Some(line@),
                None => None,
            },
            quit: self.quit,
        }
    }
}

impl LxView {
    /// What the screen shows of this state.
    pub open spec fn snapshot(self) -> SnapshotView {
        SnapshotView {
            mode: self.mode.label(),
            prefix: match self.prefix {
                Some(p) => Some(p.prefix.label()),
                None => None,
            },
            buffer_index: self.registry.active,
            buffer_count: self.registry.buffers.len() as int,
            text: self.registry.current().text,
            command_line: match self.mode {
                ModeView::Command(line) => Some(line),
                _ => None,
            },
            quit: self.quit,
        }
    }
}

} // verus!
