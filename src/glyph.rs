use vstd::prelude::*;
use vstd::string::StringExecFns;
use crate::piece::Piece;
use crate::square::Square;

verus! {

/// The glyph shown for an occupant of kind `piece`; a blank for an empty square.
pub open spec fn glyph_of(piece: Piece) -> char {
    match piece {
        Piece::Empty => ' ',
        Piece::Bishop => '♝',
        Piece::King => '♚',
        Piece::Knight => '♞',
        Piece::Pawn => '♟',
        Piece::Queen => '♛',
        Piece::Rook => '♜',
    }
}

/// The glyph shown for a square's occupant; both sides share the filled
/// glyphs and are told apart by colour.
pub fn square_letter(square: &Square) -> (r: char)
    ensures
        r == glyph_of(square.piece),
{
    match square.piece {
        Piece::Empty => ' ',
        Piece::Bishop => '♝',
        Piece::King => '♚',
        Piece::Knight => '♞',
        Piece::Pawn => '♟',
        Piece::Queen => '♛',
        Piece::Rook => '♜',
    }
}

/// The name of a side's colour: "White" for side 1, "Black" otherwise.
pub fn player_color(player: i32) -> (r: String)
    ensures
        r@ == (if player == 1 {
            "White"@
        } else {
            "Black"@
        }),
{
    if player == 1 {
        String::from_str("White")
    } else {
        String::from_str("Black")
    }
}

} // verus!
