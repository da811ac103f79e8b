//! Operations: what a key press asks of the editor. The dispatcher only
//! names an operation; applying it to the editor state is a separate step.

use crate::prefix::FindTarget;
use crate::types::{CursorDirection, Direction};
use std::path::PathBuf;
use vstd::prelude::*;

verus! {

/// `std::path::PathBuf`, which the core carries in an operation and never
/// looks into.
#[verifier::external_type_specification]
#[verifier::external_body]
pub struct ExPathBuf(std::path::PathBuf);

/// Operations on the text of the active buffer in Insert mode.
#[derive(Debug, Clone, Copy, PartialEq, Eq, Structural)]
pub enum InsertOp {
    /// Append the character to the text.
    InsertChar(char),
    /// Remove that many characters from the end of the text, or all of them
    /// if there are fewer.
    Backspace(usize),
    Delete(usize),
    Return(usize),
    Nothing,
}

/// A request to change the mode.
#[derive(Debug, Clone, Copy, PartialEq, Eq, Structural)]
pub enum ModeOp {
    ToggleInsert,
    Insert,
    Edit,
    Overview,
    Command,
}

/// Operations on the command line in Command mode.
#[derive(Debug, Clone, Copy, PartialEq, Eq, Structural)]
pub enum CommandOp {
    /// Append the character to the command line.
    InsertChar(char),
    /// Remove that many characters from the end of the command line, or all
    /// of them if there are fewer.
    Backspace(usize),
    Delete(usize),
    /// Run the command line as a command and return to Edit mode.
    Enter,
    Nothing,
}

/// Operations of Edit mode.
#[derive(Debug, Clone, Copy, PartialEq, Eq, Structural)]
pub enum EditOp {
    InsertChar(char),
    CutChar(Direction, usize),
    CutLine,
    Paste(Direction),
    Backspace(usize),
    /// Put the cursor at the start of the line that many lines further on
    /// or back.
    MoveLine(Direction, usize),
    InsertLine(Direction, usize),
    Delete(usize),
    Return(usize),
    Nothing,
}

/// Operations that do not depend on the mode.
#[derive(Debug, PartialEq, Eq)]
pub enum GlobalOp {
    Find(FindTarget),
    OpenFile(PathBuf),
    /// Open a new, empty buffer and make it the active one.
    NewBuffer,
    InsertChar(char),
    Backspace(usize),
    Delete,
    Return,
    Nothing,
}

/// Requests to search or replace.
#[derive(Debug, PartialEq, Eq)]
pub enum SearchOp {
    Nothing,
    SearchInBuffer(Direction, String),
    ReplaceCharInBuffer(Direction, String),
    SearchInDir(String),
    ReplaceInDir(String),
}

/// Requests to move by words or to a character.
#[derive(Debug, Clone, Copy, PartialEq, Eq, Structural)]
pub enum MotionOp {
    Nothing,
    SkipWord(Direction, usize),
    SkipWordEnd(Direction, usize),
    GoToChar(Direction, char, usize),
    GoFindChar(Direction, char, usize),
    GoToBufferEnd(Direction),
}

impl Default for EditOp {
    fn default() -> (op: Self)
        ensures
            op == EditOp::Nothing,
    {
        EditOp::Nothing
    }
}

impl Default for CommandOp {
    fn default() -> (op: Self)
        ensures
            op == CommandOp::Nothing,
    {
        CommandOp::Nothing
    }
}

impl Default for GlobalOp {
    fn default() -> (op: Self)
        ensures
            op == GlobalOp::Nothing,
    {
        GlobalOp::Nothing
    }
}

impl Default for InsertOp {
    fn default() -> (op: Self)
        ensures
            op == InsertOp::Nothing,
    {
        InsertOp::Nothing
    }
}

impl Default for SearchOp {
    fn default() -> (op: Self)
        ensures
            op == SearchOp::Nothing,
    {
        SearchOp::Nothing
    }
}

impl Default for MotionOp {
    fn default() -> (op: Self)
        ensures
            op == MotionOp::Nothing,
    {
        MotionOp::Nothing
    }
}

impl Default for ModeOp {
    fn default() -> (op: Self)
        ensures
            op == ModeOp::Insert,
    {
        ModeOp::Insert
    }
}

/// The one value through which the dispatcher tells the executor what a key
/// press means.
#[derive(Debug, PartialEq, Eq)]
pub enum Operation {
    Insert(InsertOp),
    Command(CommandOp),
    Edit(EditOp),
    Global(GlobalOp),
    Mode(ModeOp),
    Motion(MotionOp),
    Search(SearchOp),
    /// Step the cursor of the active buffer that many cells.
    MoveCursor(CursorDirection, u16),
    /// Scroll the page up by that many lines.
    ScrollUp(u16),
    /// Scroll the page down by that many lines.
    ScrollDown(u16),
    /// Close the active buffer.
    CloseBuffer,
    /// Make the buffer at that zero-based index the active one.
    SwitchBuffer(usize),
    /// End the session.
    Quit,
}

impl Default for Operation {
    fn default() -> (op: Self)
        ensures
            op == Operation::Global(GlobalOp::Nothing),
    {
        Operation::Global(GlobalOp::Nothing)
    }
}

} // verus!
