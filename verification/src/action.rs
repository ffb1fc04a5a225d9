//! The commands that start an easy motion session.

use vstd::prelude::*;

verus! {

/// Which side of the newest selection a command labels.
#[derive(Clone, Copy, Debug, PartialEq, Eq, Structural)]
pub enum Direction {
    Both,
    Forwards,
    Backwards,
}

impl Default for Direction {
    fn default() -> (direction: Self)
        ensures
            direction == Direction::Both,
    {
        Direction::Both
    }
}

/// Label the start of every word.
#[derive(Clone, Copy, Debug, PartialEq, Eq, Structural)]
pub struct Word(pub Direction);

/// Label the start of every full word.
#[derive(Clone, Copy, Debug, PartialEq, Eq, Structural)]
pub struct FullWord(pub Direction);

/// Label the start of every row.
#[derive(Clone, Copy, Debug, PartialEq, Eq, Structural)]
pub struct Row(pub Direction);

/// What counts as a word.
#[derive(Clone, Copy, Debug, PartialEq, Eq, Structural)]
pub enum WordType {
    Word,
    FullWord,
}

/// What a command labels.
#[derive(Clone, Copy, Debug, PartialEq, Eq, Structural)]
pub enum Target {
    Words(WordType),
    Rows,
}

} // verus!
