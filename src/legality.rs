use vstd::prelude::*;
use crate::board::{Board, Grid, at, put};
use crate::movegen::{pseudo_moves, ray, rays, king_steps, knight_jumps, pawn_moves};
use crate::moves::Move;
use crate::piece::Piece;
use crate::position::{Position, on_board};
use crate::square::{Square, empty_square};

verus! {

/// Some move of `ms` ends on `t`.
pub open spec fn reaches(ms: Seq<Move>, t: Position) -> bool {
    exists|i: int| 0 <= i < ms.len() && #[trigger] ms[i].to == t
}

/// The occupant at `q` belongs to a side, not to `turn`, and has a
/// pseudo-legal move onto `target`.
pub open spec fn attacks(g: Grid, turn: i32, q: Position, target: Position) -> bool {
    q.valid() && at(g, q).player != 0 && at(g, q).player != turn && reaches(
        pseudo_moves(g, q),
        target,
    )
}

/// Some occupant of the side opposing `turn` threatens `target`.
pub open spec fn threatened(g: Grid, turn: i32, target: Position) -> bool {
    exists|q: Position| #[trigger] attacks(g, turn, q, target)
}

/// `k` holds a king of side `turn`.
pub open spec fn king_of(g: Grid, turn: i32, k: Position) -> bool {
    k.valid() && at(g, k).piece == Piece::King && at(g, k).player == turn
}

/// Side `turn` is in check: one of its kings is threatened. A side without
/// a king is never in check.
pub open spec fn in_check(g: Grid, turn: i32) -> bool {
    exists|k: Position| #[trigger] king_of(g, turn, k) && threatened(g, turn, k)
}

/// The occupant of `s`, marked as moved.
pub open spec fn moved(s: Square) -> Square {
    Square { piece: s.piece, player: s.player, moved: true }
}

/// A king move of more than one file: a castling.
pub open spec fn is_castling(g: Grid, m: Move) -> bool {
    at(g, m.from).piece == Piece::King && (m.from.x - m.to.x > 1 || m.to.x - m.from.x > 1)
}

/// The direction, along the rank, of a castling move.
pub open spec fn castle_dir(m: Move) -> int {
    if m.to.x < m.from.x {
        -1
    } else {
        1
    }
}

/// The corner from which the rook of a castling move comes.
pub open spec fn castle_rook_from(m: Move) -> Position {
    Position { x: if m.to.x < m.from.x { 0 } else { 7 }, y: m.to.y }
}

/// Where the rook of a castling move lands: next to the king's new square,
/// on the side the rook came from.
pub open spec fn castle_rook_to(m: Move) -> Position {
    Position { x: (m.to.x + castle_dir(m)) as i32, y: m.to.y }
}

/// The grid after `m`: the occupant moves, marked as moved, and its origin
/// empties; a castling also carries the rook, marked as moved.
pub open spec fn apply_move(g: Grid, m: Move) -> Grid {
    let g2 = put(put(g, m.to, moved(at(g, m.from))), m.from, empty_square());
    if is_castling(g, m) {
        let rook = moved(at(g2, castle_rook_from(m)));
        put(put(g2, castle_rook_from(m), empty_square()), castle_rook_to(m), rook)
    } else {
        g2
    }
}

/// A move that can be carried out on the grid: both ends on the board, and
/// for a castling, the rook's landing square too.
pub open spec fn applicable(g: Grid, m: Move) -> bool {
    m.from.valid() && m.to.valid() && (is_castling(g, m) ==> castle_rook_to(m).valid())
}

/// The castling move of the king at `p` toward the corner of `side` (0 for
/// file a, else file h), when it is available to side `turn`: the king and
/// the rook in that corner have not moved, every square between them is
/// empty, the king's square and the two it crosses and lands on are not
/// threatened, and the squares where king and rook land lie on the board.
pub open spec fn castle_move(g: Grid, turn: i32, p: Position, side: i32) -> Option<Move> {
    let dir: int = if side == 0 { -1 } else { 1 };
    let rook = at(g, Position { x: if side == 0 { 0 } else { 7 }, y: p.y });
    let p1 = Position { x: (p.x + dir) as i32, y: p.y };
    let p2 = Position { x: (p.x + 2 * dir) as i32, y: p.y };
    if !at(g, p).moved && !rook.moved && rook.piece == Piece::Rook && (forall|x: int|
        (if side == 0 { 1 <= x < p.x } else { p.x < x < 7 }) ==> #[trigger] at(
            g,
            Position { x: x as i32, y: p.y },
        ).piece == Piece::Empty) && on_board(p.x + 3 * dir, p.y as int) && !threatened(g, turn, p)
        && !threatened(g, turn, p1) && !threatened(g, turn, p2) {
        Some(Move { from: p, to: p2 })
    } else {
        None
    }
}

/// The move of an option, if any.
pub open spec fn opt_seq(o: Option<Move>) -> Seq<Move> {
    match o {
        Some(m) => seq![m],
        None => seq![],
    }
}

/// The castling moves offered for the square `p`: only for a king, and only
/// when side `turn` is not in check.
pub open spec fn castle_options(g: Grid, turn: i32, p: Position) -> Seq<Move> {
    if at(g, p).piece == Piece::King && !in_check(g, turn) {
        opt_seq(castle_move(g, turn, p, 0)) + opt_seq(castle_move(g, turn, p, 1))
    } else {
        seq![]
    }
}

/// The moves considered for `p` before the self-check filter.
pub open spec fn candidates(g: Grid, turn: i32, p: Position) -> Seq<Move> {
    pseudo_moves(g, p) + castle_options(g, turn, p)
}

/// After `m`, side `turn` is not in check.
pub open spec fn safe(g: Grid, turn: i32, m: Move) -> bool {
    !in_check(apply_move(g, m), turn)
}

/// The moves of `ms` that do not leave side `turn` in check, in order.
pub open spec fn safe_only(g: Grid, turn: i32, ms: Seq<Move>) -> Seq<Move> {
    ms.filter(|m: Move| safe(g, turn, m))
}

/// The restricted (legal) moves of `p` for side `turn`: the candidates that
/// do not leave `turn` in check.
pub open spec fn legal_moves(g: Grid, turn: i32, p: Position) -> Seq<Move> {
    safe_only(g, turn, candidates(g, turn, p))
}

/// Every move of `ms` leaves `p` for a square on the board.
pub open spec fn all_from(ms: Seq<Move>, p: Position) -> bool {
    forall|i: int| 0 <= i < ms.len() ==> (#[trigger] ms[i]).from == p && ms[i].to.valid()
}

/// Every move of `ms` changes the file by at most one.
pub open spec fn all_short(ms: Seq<Move>) -> bool {
    forall|i: int|
        0 <= i < ms.len() ==> -1 <= (#[trigger] ms[i]).to.x - ms[i].from.x <= 1
}

proof fn lemma_ray_from(g: Grid, p: Position, player: i32, diag: bool, idx: int, dist: int)
    ensures
        all_from(ray(g, p, player, diag, idx, dist), p),
    decreases 8 - dist,
{
    if 1 <= dist < 8 {
        lemma_ray_from(g, p, player, diag, idx, dist + 1);
    }
}

proof fn lemma_rays_from(g: Grid, p: Position, player: i32, diag: bool, idx: int)
    ensures
        all_from(rays(g, p, player, diag, idx), p),
    decreases 4 - idx,
{
    if 0 <= idx < 4 {
        lemma_ray_from(g, p, player, diag, idx, 1);
        lemma_rays_from(g, p, player, diag, idx + 1);
    }
}

proof fn lemma_king_steps_from(g: Grid, p: Position, player: i32, idx: int)
    requires
        p.valid(),
    ensures
        all_from(king_steps(g, p, player, idx), p),
        all_short(king_steps(g, p, player, idx)),
    decreases 4 - idx,
{
    if 0 <= idx < 4 {
        lemma_king_steps_from(g, p, player, idx + 1);
    }
}

proof fn lemma_knight_jumps_from(g: Grid, p: Position, player: i32, idx: int)
    ensures
        all_from(knight_jumps(g, p, player, idx), p),
    decreases 4 - idx,
{
    if 0 <= idx < 4 {
        lemma_knight_jumps_from(g, p, player, idx + 1);
    }
}

proof fn lemma_pawn_moves_from(g: Grid, p: Position, player: i32)
    ensures
        all_from(pawn_moves(g, p, player), p),
{
}

/// Every pseudo-legal move of `p` leaves `p` for a square on the board, and
/// none of them is a castling.
pub proof fn lemma_pseudo_from(g: Grid, p: Position)
    requires
        p.valid(),
    ensures
        all_from(pseudo_moves(g, p), p),
        forall|i: int|
            0 <= i < pseudo_moves(g, p).len() ==> !is_castling(g, #[trigger] pseudo_moves(g, p)[i]),
{
    let s = at(g, p);
    let ms = pseudo_moves(g, p);
    match s.piece {
        Piece::Pawn => lemma_pawn_moves_from(g, p, s.player),
        Piece::Bishop => lemma_rays_from(g, p, s.player, true, 0),
        Piece::Rook => lemma_rays_from(g, p, s.player, false, 0),
        Piece::Queen => {
            lemma_rays_from(g, p, s.player, false, 0);
            lemma_rays_from(g, p, s.player, true, 0);
        },
        Piece::King => {
            lemma_king_steps_from(g, p, s.player, 0);
        },
        Piece::Knight => lemma_knight_jumps_from(g, p, s.player, 0),
        Piece::Empty => {},
    }
    assert forall|i: int| 0 <= i < ms.len() implies !is_castling(g, #[trigger] ms[i]) by {
        assert(ms[i].from == p);
    }
}

/// Whether some move of `moves` ends on `t`.
fn any_to(moves: &Vec<Move>, t: &Position) -> (r: bool)
    ensures
        r == reaches(moves@, *t),
{
    let mut i: usize = 0;
    while i < moves.len()
        invariant
            i <= moves@.len(),
            forall|j: int| 0 <= j < i ==> #[trigger] moves@[j].to != *t,
        decreases moves@.len() - i,
    {
        if moves[i].to == *t {
            return true;
        }
        i = i + 1;
    }
    false
}

impl Board {
    /// Whether an occupant of the side not to move threatens `pos`.
    pub fn square_vulnerable(&self, pos: &Position) -> (r: bool)
        ensures
            r == threatened(self.cells(), self.turn, *pos),
    {
        let ghost g = self.cells();
        let mut y: i32 = 0;
        while y < 8
            invariant
                0 <= y <= 8,
                g == self.cells(),
                forall|q: Position| q.valid() && q.y < y ==> !#[trigger] attacks(g, self.turn, q, *pos),
            decreases 8 - y,
        {
            let mut x: i32 = 0;
            while x < 8
                invariant
                    0 <= y < 8,
                    0 <= x <= 8,
                    g == self.cells(),
                    forall|q: Position|
                        q.valid() && (q.y < y || (q.y == y && q.x < x)) ==> !#[trigger] attacks(
                            g,
                            self.turn,
                            q,
                            *pos,
                        ),
                decreases 8 - x,
            {
                let q = Position::new(x, y);
                let from_sq = self.get(x, y);
                if from_sq.player != 0 && from_sq.player != self.turn {
                    let moves = self.pseudo_moves(&q);
                    if any_to(&moves, pos) {
                        assert(attacks(g, self.turn, q, *pos));
                        return true;
                    }
                }
                x = x + 1;
            }
            y = y + 1;
        }
        false
    }

    /// Whether the side to move is in check: one of its kings is threatened.
    /// A side without a king is not in check.
    pub fn is_check(&self) -> (r: bool)
        ensures
            r == in_check(self.cells(), self.turn),
    {
        let ghost g = self.cells();
        let mut y: i32 = 0;
        while y < 8
            invariant
                0 <= y <= 8,
                g == self.cells(),
                forall|k: Position|
                    k.y < y && #[trigger] king_of(g, self.turn, k) ==> !threatened(g, self.turn, k),
            decreases 8 - y,
        {
            let mut x: i32 = 0;
            while x < 8
                invariant
                    0 <= y < 8,
                    0 <= x <= 8,
                    g == self.cells(),
                    forall|k: Position|
                        (k.y < y || (k.y == y && k.x < x)) && #[trigger] king_of(g, self.turn, k)
                            ==> !threatened(g, self.turn, k),
                decreases 8 - x,
            {
                let k = Position::new(x, y);
                let square = self.get(x, y);
                if square.piece == Piece::King && square.player == self.turn {
                    if self.square_vulnerable(&k) {
                        assert(king_of(g, self.turn, k));
                        return true;
                    }
                }
                x = x + 1;
            }
            y = y + 1;
        }
        false
    }
}

impl Board {
    /// Carries out a move on the grid: the occupant moves, marked as moved,
    /// and its origin empties; a castling also carries the rook.
    pub(crate) fn perform_move(&mut self, mv: &Move)
        requires
            applicable(old(self).cells(), *mv),
        ensures
            final(self).cells() == apply_move(old(self).cells(), *mv),
            final(self).same_but_grid(old(self)),
    {
        let ghost g = self.cells();
        let mut from_sq = *self.getp(&mv.from);
        from_sq.moved = true;
        self.setp(&mv.to, &from_sq);
        self.setp(&mv.from, &Square::from(Piece::Empty, 0));
        if from_sq.piece == Piece::King && (mv.from.x - mv.to.x > 1 || mv.to.x - mv.from.x > 1) {
            let xr: i32 = if mv.to.x < mv.from.x {
                0
            } else {
                7
            };
            let sign: i32 = if mv.to.x < mv.from.x {
                -1
            } else {
                1
            };
            let pr = Position::new(xr, mv.to.y);
            let mut rook_sq = *self.getp(&pr);
            rook_sq.moved = true;
            self.setp(&pr, &Square::from(Piece::Empty, 0));
            self.setp(&Position::new(mv.to.x + sign, mv.to.y), &rook_sq);
        }
    }

    /// A copy of the game's grid and turn, with nothing selected and no last move.
    fn scratch(&self) -> (r: Board)
        ensures
            r.cells() == self.cells(),
            r.turn == self.turn,
    {
        Board {
            player1: self.player1,
            player2: self.player2,
            turn: self.turn,
            cur_pos: None,
            cur_moves: Vec::new(),
            prev_move: None,
            grid: self.grid,
        }
    }

    /// The castling move of the king at `pos` toward the corner of `side`
    /// (0 for file a, else file h), if it is available to the side to move.
    pub fn get_castling_move(&self, pos: &Position, side: i32) -> (r: Option<Move>)
        requires
            pos.valid(),
        ensures
            r == castle_move(self.cells(), self.turn, *pos, side),
    {
        let ghost g = self.cells();
        let square = self.getp(pos);
        if square.moved {
            return None;
        }
        let xr: i32 = if side == 0 {
            0
        } else {
            7
        };
        let sign: i32 = if side == 0 {
            -1
        } else {
            1
        };
        let rook_sq = self.get(xr, pos.y);
        if rook_sq.moved || rook_sq.piece != Piece::Rook {
            return None;
        }
        let lo: i32 = if side == 0 {
            1
        } else {
            pos.x + 1
        };
        let hi: i32 = if side == 0 {
            pos.x
        } else {
            7
        };
        let mut x: i32 = lo;
        while x < hi
            invariant
                pos.valid(),
                1 <= lo <= x,
                hi <= 7,
                lo == (if side == 0 { 1 } else { pos.x + 1 }),
                hi == (if side == 0 { pos.x } else { 7 }),
                g == self.cells(),
                forall|xx: int|
                    lo <= xx < x ==> #[trigger] at(g, Position { x: xx as i32, y: pos.y }).piece
                        == Piece::Empty,
            decreases hi - x,
        {
            if !self.get(x, pos.y).is_none() {
                assert(at(g, Position { x: (x as int) as i32, y: pos.y }).piece != Piece::Empty);
                return None;
            }
            x = x + 1;
        }
        let landing = pos.x + 3 * sign;
        if landing < 0 || landing >= 8 {
            return None;
        }
        let p1 = Position::new(pos.x + sign, pos.y);
        let p2 = Position::new(pos.x + 2 * sign, pos.y);
        if self.square_vulnerable(pos) || self.square_vulnerable(&p1) || self.square_vulnerable(
            &p2,
        ) {
            return None;
        }
        Move::new(*pos, p2)
    }

    /// The restricted moves of a valid square: its pseudo-legal moves, the
    /// castling moves of a king whose side is not in check, and of those only
    /// the ones after which the side to move is not in check.
    fn restricted_moves(&self, p: &Position) -> (r: Vec<Move>)
        requires
            p.valid(),
        ensures
            r@ == legal_moves(self.cells(), self.turn, *p),
    {
        let ghost g = self.cells();
        let ghost t = self.turn;
        let mut cands = self.pseudo_moves(p);
        let square = self.getp(p);
        if square.piece == Piece::King && !self.is_check() {
            let m1 = self.get_castling_move(p, 0);
            let m2 = self.get_castling_move(p, 1);
            if let Some(m) = m1 {
                cands.push(m);
            }
            if let Some(m) = m2 {
                cands.push(m);
            }
        }
        assert(cands@ =~= candidates(g, t, *p));
        proof {
            lemma_candidates_applicable(g, t, *p);
        }
        let mut result: Vec<Move> = Vec::new();
        let mut i: usize = 0;
        while i < cands.len()
            invariant
                i <= cands@.len(),
                cands@ == candidates(g, t, *p),
                forall|j: int| 0 <= j < cands@.len() ==> applicable(g, #[trigger] cands@[j]),
                g == self.cells(),
                t == self.turn,
                result@ == safe_only(g, t, cands@.take(i as int)),
            decreases cands@.len() - i,
        {
            let m = cands[i];
            let mut copy = self.scratch();
            copy.perform_move(&m);
            let keep = !copy.is_check();
            if keep {
                result.push(m);
            }
            proof {
                reveal(Seq::filter);
                assert(cands@.take(i + 1).drop_last() =~= cands@.take(i as int));
                assert(cands@.take(i + 1).last() == m);
            }
            i = i + 1;
        }
        assert(cands@.take(i as int) =~= cands@);
        result
    }

    /// The moves of the occupant of a valid square: with `all`, every
    /// pseudo-legal move (what it threatens); else its restricted moves for
    /// the side to move.
    pub fn get_moves(&self, p: &Position, all: bool) -> (r: Vec<Move>)
        requires
            p.valid(),
        ensures
            r@ == if all {
                pseudo_moves(self.cells(), *p)
            } else {
                legal_moves(self.cells(), self.turn, *p)
            },
    {
        if all {
            self.pseudo_moves(p)
        } else {
            self.restricted_moves(p)
        }
    }
}

/// Every candidate move of `p` can be carried out.
pub proof fn lemma_candidates_applicable(g: Grid, turn: i32, p: Position)
    requires
        p.valid(),
    ensures
        forall|j: int|
            0 <= j < candidates(g, turn, p).len() ==> applicable(
                g,
                #[trigger] candidates(g, turn, p)[j],
            ),
{
    lemma_pseudo_from(g, p);
    let c = candidates(g, turn, p);
    let n = pseudo_moves(g, p).len();
    assert forall|j: int| 0 <= j < c.len() implies applicable(g, #[trigger] c[j]) by {
        if j < n {
            assert(c[j] == pseudo_moves(g, p)[j]);
        } else {
            let o = castle_options(g, turn, p);
            assert(c[j] == o[j - n]);
        }
    }
}

} // verus!
