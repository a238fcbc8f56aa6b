//! Direction of a pane change handed to the terminal-multiplexer
//! collaborator; the process call itself is outside the core.

use vstd::prelude::*;

verus! {

/// A direction in which focus can leave the interface.
#[derive(Clone, Copy, PartialEq, Eq, Structural, Debug)]
pub enum Direction {
    Left,
    Down,
    Up,
    Right,
}

impl Direction {
    /// The target-pane token the multiplexer expects.
    pub open spec fn spec_label(self) -> Seq<char> {
        match self {
            Direction::Left => "{left-of}"@,
            Direction::Down => "{down-of}"@,
            Direction::Up => "{up-of}"@,
            Direction::Right => "{right-of}"@,
        }
    }

    pub fn serialize(&self) -> (r: &str)
        ensures
            r@ == self.spec_label(),
    {
        match self {
            Direction::Left => "{left-of}",
            Direction::Down => "{down-of}",
            Direction::Up => "{up-of}",
            Direction::Right => "{right-of}",
        }
    }
}

} // verus!
