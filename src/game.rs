use vstd::prelude::*;
use vstd::string::StringSliceAdditionalSpecFns;
use crate::board::{Board, Grid, at, put, other_side};
use crate::legality::{in_check, legal_moves, apply_move, applicable, candidates, safe, lemma_candidates_applicable};
use crate::moves::Move;
use crate::piece::Piece;
use crate::position::{Position, parse_spec};
use crate::square::Square;

verus! {

/// The occupant at `q` belongs to side `turn` and has a restricted move.
pub open spec fn can_move_from(g: Grid, turn: i32, q: Position) -> bool {
    q.valid() && at(g, q).player == turn && legal_moves(g, turn, q).len() > 0
}

/// Side `turn` has some legal move.
pub open spec fn has_legal_move(g: Grid, turn: i32) -> bool {
    exists|q: Position| #[trigger] can_move_from(g, turn, q)
}

/// Side `turn` is in check and has no legal move.
pub open spec fn checkmate(g: Grid, turn: i32) -> bool {
    in_check(g, turn) && !has_legal_move(g, turn)
}

/// Side `turn` is not in check and has no legal move.
pub open spec fn stalemate(g: Grid, turn: i32) -> bool {
    !in_check(g, turn) && !has_legal_move(g, turn)
}

/// The rank on which pawns of side `turn` are promoted: the far edge.
pub open spec fn promotion_rank(turn: i32) -> int {
    if turn == 1 {
        7
    } else {
        0
    }
}

/// File `x` of the promotion rank of `turn` holds a pawn of `turn`.
pub open spec fn pawn_waiting(g: Grid, turn: i32, x: int) -> bool {
    let s = at(g, Position { x: x as i32, y: promotion_rank(turn) as i32 });
    s.player == turn && s.piece == Piece::Pawn
}

/// The first file, from `x` on, whose promotion square holds a pawn of
/// `turn`; 8 if there is none.
pub open spec fn first_waiting(g: Grid, turn: i32, x: int) -> int
    decreases 8 - x,
{
    if x >= 8 {
        8
    } else if pawn_waiting(g, turn, x) {
        x
    } else {
        first_waiting(g, turn, x + 1)
    }
}

proof fn lemma_first_waiting_range(g: Grid, turn: i32, x: int)
    requires
        0 <= x,
    ensures
        x <= first_waiting(g, turn, x) <= 8 || x > 8,
    decreases 8 - x,
{
    if x < 8 && !pawn_waiting(g, turn, x) {
        lemma_first_waiting_range(g, turn, x + 1);
    }
}

/// The square of the pawn of side `turn` awaiting promotion, if any (the
/// first on its rank).
pub open spec fn promotion_square(g: Grid, turn: i32) -> Option<Position> {
    let x = first_waiting(g, turn, 0);
    if x < 8 {
        Some(Position { x: x as i32, y: promotion_rank(turn) as i32 })
    } else {
        None
    }
}

/// Side `turn` may play `m`: both ends lie on the board, the origin holds an
/// occupant of `turn`, the destination holds none of it, and `m` is among
/// the origin's restricted moves.
pub open spec fn move_allowed(g: Grid, turn: i32, m: Move) -> bool {
    m.from.valid() && m.to.valid() && legal_moves(g, turn, m.from).contains(m) && at(
        g,
        m.from,
    ).player == turn && at(g, m.to).player != turn
}

/// Whose turn it is after `turn` plays `m`: unchanged while a pawn awaits
/// promotion, else the other side's.
pub open spec fn turn_after(g: Grid, turn: i32, m: Move) -> i32 {
    if promotion_square(apply_move(g, m), turn).is_some() {
        turn
    } else {
        other_side(turn)
    }
}

/// A legal move can be carried out.
pub proof fn lemma_legal_applicable(g: Grid, turn: i32, m: Move)
    requires
        m.from.valid(),
        legal_moves(g, turn, m.from).contains(m),
    ensures
        applicable(g, m),
{
    let c = candidates(g, turn, m.from);
    c.lemma_filter_contains_rev(|mv: Move| safe(g, turn, mv), m);
    lemma_candidates_applicable(g, turn, m.from);
    let j = choose|j: int| 0 <= j < c.len() && c[j] == m;
    assert(applicable(g, c[j]));
}

/// Whether `m` is among `moves`.
fn contains_move(moves: &Vec<Move>, m: &Move) -> (r: bool)
    ensures
        r == moves@.contains(*m),
{
    let mut i: usize = 0;
    while i < moves.len()
        invariant
            i <= moves@.len(),
            forall|j: int| 0 <= j < i ==> #[trigger] moves@[j] != *m,
        decreases moves@.len() - i,
    {
        if moves[i] == *m {
            assert(moves@[i as int] == *m);
            return true;
        }
        i = i + 1;
    }
    false
}

impl Board {
    /// Whether `mv` is among the restricted moves of its (valid) origin.
    pub fn can_move(&self, mv: &Move) -> (r: bool)
        requires
            mv.from.valid(),
        ensures
            r == legal_moves(self.cells(), self.turn, mv.from).contains(*mv),
    {
        let moves = self.get_moves(&mv.from, false);
        contains_move(&moves, mv)
    }

    /// Whether the side to move has any legal move.
    pub fn can_move_any(&self) -> (r: bool)
        ensures
            r == has_legal_move(self.cells(), self.turn),
    {
        let ghost g = self.cells();
        let mut y: i32 = 0;
        while y < 8
            invariant
                0 <= y <= 8,
                g == self.cells(),
                forall|q: Position| q.y < y ==> !#[trigger] can_move_from(g, self.turn, q),
            decreases 8 - y,
        {
            let mut x: i32 = 0;
            while x < 8
                invariant
                    0 <= y < 8,
                    0 <= x <= 8,
                    g == self.cells(),
                    forall|q: Position|
                        (q.y < y || (q.y == y && q.x < x)) ==> !#[trigger] can_move_from(
                            g,
                            self.turn,
                            q,
                        ),
                decreases 8 - x,
            {
                let q = Position::new(x, y);
                let square = self.get(x, y);
                if square.player == self.turn {
                    let moves = self.get_moves(&q, false);
                    if moves.len() > 0 {
                        assert(can_move_from(g, self.turn, q));
                        return true;
                    }
                }
                x = x + 1;
            }
            y = y + 1;
        }
        false
    }

    /// The side to move is not in check and has no legal move.
    pub fn is_stalemate(&self) -> (r: bool)
        ensures
            r == stalemate(self.cells(), self.turn),
    {
        !self.is_check() && !self.can_move_any()
    }

    /// The side to move is in check and has no legal move.
    pub fn is_checkmate(&self) -> (r: bool)
        ensures
            r == checkmate(self.cells(), self.turn),
    {
        self.is_check() && !self.can_move_any()
    }

    /// The square of the pawn of the side to move that awaits promotion, if any.
    pub fn get_promoting(&self) -> (r: Option<Position>)
        ensures
            r == promotion_square(self.cells(), self.turn),
    {
        let ghost g = self.cells();
        let y: i32 = if self.turn == 1 {
            7
        } else {
            0
        };
        let mut x: i32 = 0;
        while x < 8
            invariant
                0 <= x <= 8,
                y == promotion_rank(self.turn),
                g == self.cells(),
                first_waiting(g, self.turn, 0) == first_waiting(g, self.turn, x as int),
            decreases 8 - x,
        {
            let square = self.get(x, y);
            if square.player == self.turn && square.piece == Piece::Pawn {
                return Some(Position::new(x, y));
            }
            x = x + 1;
        }
        None
    }
    /// Plays `mv` for the side to move, if it is allowed: the occupant moves
    /// (a castling carries the rook too) and the move is recorded as the last
    /// one; the turn passes unless a pawn now awaits promotion. A refused
    /// move changes nothing.
    pub fn do_move(&mut self, mv: &Move) -> (r: bool)
        ensures
            r == move_allowed(old(self).cells(), old(self).turn, *mv),
            r ==> final(self).cells() == apply_move(old(self).cells(), *mv) && final(self).turn
                == turn_after(old(self).cells(), old(self).turn, *mv) && final(self).prev_move
                == Some(*mv) && final(self).cur_pos == old(self).cur_pos && final(self).cur_moves@ == old(self).cur_moves@ && final(self).player1 == old(self).player1
                && final(self).player2 == old(self).player2,
            !r ==> *final(self) == *old(self),
    {
        if !mv.from.is_valid() || !mv.to.is_valid() {
            return false;
        }
        if !self.can_move(mv) {
            return false;
        }
        let from_sq = *self.getp(&mv.from);
        let to_sq = *self.getp(&mv.to);
        if from_sq.player != self.turn || from_sq.player == to_sq.player {
            return false;
        }
        proof {
            lemma_legal_applicable(self.cells(), self.turn, *mv);
        }
        self.perform_move(mv);
        self.prev_move = Some(*mv);
        if self.get_promoting().is_none() {
            self.next_turn();
        }
        true
    }

    /// Replaces the pawn awaiting promotion by an unmoved occupant of kind
    /// `piece` (Bishop, Knight, Queen or Rook) and passes the turn. Fails,
    /// changing nothing, when no pawn awaits or `piece` is another kind.
    pub fn promote(&mut self, piece: Piece) -> (r: bool)
        ensures
            r == (promotion_square(old(self).cells(), old(self).turn).is_some()
                && piece.promotable()),
            r ==> final(self).cells() == put(
                old(self).cells(),
                promotion_square(old(self).cells(), old(self).turn).unwrap(),
                Square { piece, player: old(self).turn, moved: false },
            ) && final(self).turn == other_side(old(self).turn) && final(self).prev_move == old(self).prev_move && final(self).cur_pos == old(self).cur_pos && final(self).cur_moves@
                == old(self).cur_moves@,
            !r ==> *final(self) == *old(self),
    {
        let pos = self.get_promoting();
        match pos {
            None => false,
            Some(pos) => {
                if piece != Piece::Bishop && piece != Piece::Knight && piece != Piece::Queen
                    && piece != Piece::Rook {
                    return false;
                }
                proof {
                    lemma_first_waiting_range(self.cells(), self.turn, 0);
                }
                let turn = self.turn;
                self.setp(&pos, &Square::from(piece, turn));
                self.next_turn();
                true
            },
        }
    }

    /// Selects the square named by `pos_str` ("e2") for the side to move and
    /// records its restricted moves; with no name, clears the selection.
    /// Fails, leaving nothing selected, when the name does not parse or the
    /// square does not hold an occupant of the side to move.
    pub fn select(&mut self, pos_str: Option<&&str>) -> (r: bool)
        ensures
            final(self).cells() == old(self).cells(),
            final(self).turn == old(self).turn,
            final(self).prev_move == old(self).prev_move,
            final(self).player1 == old(self).player1,
            final(self).player2 == old(self).player2,
            match pos_str {
                None => r && final(self).cur_pos.is_none() && final(self).cur_moves@.len() == 0,
                Some(s) => match parse_spec(s.spec_bytes()) {
                    Some(pos) => if at(old(self).cells(), pos).player == old(self).turn {
                        r && final(self).cur_pos == Some(pos) && final(self).cur_moves@
                            == legal_moves(old(self).cells(), old(self).turn, pos)
                    } else {
                        !r && final(self).cur_pos.is_none() && final(self).cur_moves@.len() == 0
                    },
                    None => !r && final(self).cur_pos.is_none() && final(self).cur_moves@.len()
                        == 0,
                },
            },
    {
        self.cur_pos = None;
        self.cur_moves = Vec::new();
        match pos_str {
            None => true,
            Some(s) => {
                let pos_opt = Position::from(s.as_bytes());
                match pos_opt {
                    None => false,
                    Some(pos) => {
                        let square = self.getp(&pos);
                        if square.player != self.turn {
                            return false;
                        }
                        self.cur_moves = self.get_moves(&pos, false);
                        self.cur_pos = Some(pos);
                        true
                    },
                }
            },
        }
    }
}

} // verus!
