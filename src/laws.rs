use vstd::prelude::*;
use crate::board::{Grid, at, put, full, other_side, lemma_put};
use crate::game::lemma_legal_applicable;
use crate::legality::{moved, castle_rook_from, castle_rook_to};
use crate::square::empty_square;
use crate::game::{checkmate, stalemate, move_allowed, turn_after, promotion_square};
use crate::legality::{legal_moves, apply_move, candidates, castle_options, safe, is_castling};
use crate::movegen::pseudo_moves;
use crate::moves::Move;
use crate::piece::Piece;
use crate::position::{Position, parse_spec, notation_spec};

verus! {

/// Reading back the notation of a valid square gives that square.
pub proof fn lemma_notation_round_trip(p: Position)
    requires
        p.valid(),
    ensures
        parse_spec(notation_spec(p)) == Some(p),
{
}

/// Right after a move was played, playing the same move again is refused:
/// its origin is now empty.
pub proof fn lemma_repeat_move_refused(g: Grid, turn: i32, m: Move)
    requires
        full(g),
        move_allowed(g, turn, m),
    ensures
        !move_allowed(apply_move(g, m), turn_after(g, turn, m), m),
{
    let g2 = apply_move(g, m);
    let t2 = turn_after(g, turn, m);
    lemma_legal_applicable(g, turn, m);
    let g0 = put(g, m.to, moved(at(g, m.from)));
    lemma_put(g, m.to, moved(at(g, m.from)));
    let g1 = put(g0, m.from, empty_square());
    lemma_put(g0, m.from, empty_square());
    if is_castling(g, m) {
        let g3 = put(g1, castle_rook_from(m), empty_square());
        lemma_put(g1, castle_rook_from(m), empty_square());
        assert(at(g3, m.from) == empty_square());
        assert(castle_rook_to(m) != m.from);
        lemma_put(g3, castle_rook_to(m), moved(at(g1, castle_rook_from(m))));
    }
    assert(at(g2, m.from).piece == Piece::Empty);
    let c = candidates(g2, t2, m.from);
    assert(c =~= seq![]);
    reveal(Seq::filter);
    assert(legal_moves(g2, t2, m.from) =~= seq![]);
}

/// After a move that leaves no pawn awaiting promotion the turn passes to
/// the other side; after one that does, it stays with the mover.
pub proof fn lemma_turn_after_move(g: Grid, turn: i32, m: Move)
    requires
        move_allowed(g, turn, m),
    ensures
        promotion_square(apply_move(g, m), turn).is_none() ==> turn_after(g, turn, m)
            == other_side(turn) && other_side(turn) != turn,
        promotion_square(apply_move(g, m), turn).is_some() ==> turn_after(g, turn, m) == turn,
{
}

/// No side is both checkmated and stalemated.
pub proof fn lemma_mate_excludes_stalemate(g: Grid, turn: i32)
    ensures
        !(checkmate(g, turn) && stalemate(g, turn)),
{
}

/// Where no castling move is offered for `p`, every restricted move of `p`
/// is one of its pseudo-legal moves.
pub proof fn lemma_restricted_within_pseudo(g: Grid, turn: i32, p: Position)
    requires
        p.valid(),
        castle_options(g, turn, p).len() == 0,
    ensures
        forall|m: Move| #[trigger]
            legal_moves(g, turn, p).contains(m) ==> pseudo_moves(g, p).contains(m),
{
    let c = candidates(g, turn, p);
    assert(c =~= pseudo_moves(g, p));
    assert forall|m: Move| #[trigger]
        legal_moves(g, turn, p).contains(m) implies pseudo_moves(g, p).contains(m) by {
        c.lemma_filter_contains_rev(|mv: Move| safe(g, turn, mv), m);
    }
}

} // verus!
