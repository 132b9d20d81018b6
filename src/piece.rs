//! Board markers.

use vstd::prelude::*;

verus! {

/// A marker that can be put on the board.
#[derive(Clone, Copy, Debug, PartialEq, Eq, Structural)]
pub enum Piece {
    Cross,
    Circle,
    Triangle,
}

impl Piece {
    pub open spec fn symbol(self) -> char {
        match self {
            Piece::Cross => 'x',
            Piece::Circle => 'o',
            Piece::Triangle => '\u{25B2}',
        }
    }

    /// The character the piece is drawn with.
    pub fn char(&self) -> (r: char)
        ensures
            r == self.symbol(),
    {
        match self {
            Piece::Cross => 'x',
            Piece::Circle => 'o',
            Piece::Triangle => '\u{25B2}',
        }
    }
}

} // verus!
