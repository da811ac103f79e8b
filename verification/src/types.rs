//! Small direction vocabularies shared by operations and prefixes.

use vstd::prelude::*;
use vstd::string::*;

verus! {

/// One of the four ways the cursor can step on the screen grid.
#[derive(Debug, Clone, Copy, PartialEq, Eq, Structural)]
pub enum CursorDirection {
    Up,
    Down,
    Left,
    Right,
}

impl CursorDirection {
    /// The one-letter label of the direction.
    pub open spec fn label(self) -> Seq<char> {
        match self {
            CursorDirection::Up => "U"@,
            CursorDirection::Down => "D"@,
            CursorDirection::Left => "L"@,
            CursorDirection::Right => "R"@,
        }
    }

    /// Renders the direction as its one-letter label.
    pub fn to_string(&self) -> (s: String)
        ensures
            s@ == self.label(),
    {
        match self {
            CursorDirection::Up => String::from_str("U"),
            CursorDirection::Down => String::from_str("D"),
            CursorDirection::Left => String::from_str("L"),
            CursorDirection::Right => String::from_str("R"),
        }
    }
}

/// Forward or backward along a sequence: of lines, of words, of matches.
#[derive(Debug, Clone, Copy, PartialEq, Eq, Structural)]
pub enum Direction {
    Next,
    Prev,
}

impl Default for Direction {
    fn default() -> (d: Self)
        ensures
            d == Direction::Next,
    {
        Direction::Next
    }
}

impl Direction {
    /// The arrow that stands for the direction.
    pub open spec fn label(self) -> Seq<char> {
        match self {
            Direction::Next => "->"@,
            Direction::Prev => "<-"@,
        }
    }

    /// Renders the direction as an arrow.
    pub fn to_string(&self) -> (s: String)
        ensures
            s@ == self.label(),
    {
        match self {
            Direction::Next => String::from_str("->"),
            Direction::Prev => String::from_str("<-"),
        }
    }
}

} // verus!
