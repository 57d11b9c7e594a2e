use vstd::prelude::*;
use crate::piece::Piece;

verus! {

/// What stands on a square: a piece kind, the number of its owner (0 for
/// none, 1 and 2 for the two sides) and whether it has moved yet.
#[derive(Debug, Clone, Copy, PartialEq, Eq, Structural)]
pub struct Square {
    pub piece: Piece,
    pub player: i32,
    pub moved: bool,
}

/// The content of an empty square.
pub open spec fn empty_square() -> Square {
    Square { piece: Piece::Empty, player: 0, moved: false }
}

impl Square {
    /// An unmoved occupant of the given kind and owner.
    pub fn from(piece: Piece, player: i32) -> (r: Square)
        ensures
            r == (Square { piece, player, moved: false }),
    {
        Square { piece, player, moved: false }
    }

    pub fn is_none(&self) -> (r: bool)
        ensures
            r == (self.piece == Piece::Empty),
    {
        self.piece == Piece::Empty
    }

    pub fn is_white(&self) -> (r: bool)
        ensures
            r == (self.player == 1),
    {
        self.player == 1
    }

    pub fn is_black(&self) -> (r: bool)
        ensures
            r == (self.player == 2),
    {
        self.player == 2
    }
}

} // verus!
