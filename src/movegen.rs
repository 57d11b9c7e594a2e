use vstd::prelude::*;
use crate::board::{Board, Grid, at};
use crate::moves::Move;
use crate::piece::Piece;
use crate::position::Position;
use crate::square::Square;

verus! {

/// The single admission rule of every piece kind: a piece owned by `player`
/// may enter `t` when `t` is on the board and is empty, or, where capture is
/// allowed, holds an occupant of another owner.
pub open spec fn enterable(g: Grid, player: i32, t: Position, capture: bool) -> bool {
    t.valid() && (at(g, t).piece == Piece::Empty || (capture && at(g, t).player != player))
}

/// The square `dist` steps from `p` along direction `idx`, diagonal or orthogonal.
pub open spec fn step(p: Position, diag: bool, idx: int, dist: int) -> Position {
    if diag {
        p.corner_spec(idx, dist)
    } else {
        p.side_spec(idx, dist)
    }
}

/// The move from `p` to `t` where `ok` holds, else nothing.
pub open spec fn single(p: Position, t: Position, ok: bool) -> Seq<Move> {
    if ok {
        seq![Move { from: p, to: t }]
    } else {
        seq![]
    }
}

/// The moves of a sliding piece along one ray, from distance `dist` on: each
/// empty square, then the first occupied square if it holds an enemy; the ray
/// ends at a friendly piece or the edge of the board.
pub open spec fn ray(g: Grid, p: Position, player: i32, diag: bool, idx: int, dist: int) -> Seq<
    Move,
>
    decreases 8 - dist,
{
    if dist < 1 || dist >= 8 {
        seq![]
    } else {
        let t = step(p, diag, idx, dist);
        if !enterable(g, player, t, true) {
            seq![]
        } else if at(g, t).piece == Piece::Empty {
            seq![Move { from: p, to: t }] + ray(g, p, player, diag, idx, dist + 1)
        } else {
            seq![Move { from: p, to: t }]
        }
    }
}

/// The moves along the rays `idx` to 3 of one family (diagonal or orthogonal).
pub open spec fn rays(g: Grid, p: Position, player: i32, diag: bool, idx: int) -> Seq<Move>
    decreases 4 - idx,
{
    if idx < 0 || idx >= 4 {
        seq![]
    } else {
        ray(g, p, player, diag, idx, 1) + rays(g, p, player, diag, idx + 1)
    }
}

/// The king's one-square steps, orthogonal then diagonal, for directions `idx` to 3.
pub open spec fn king_steps(g: Grid, p: Position, player: i32, idx: int) -> Seq<Move>
    decreases 4 - idx,
{
    if idx < 0 || idx >= 4 {
        seq![]
    } else {
        let s = p.side_spec(idx, 1);
        let c = p.corner_spec(idx, 1);
        single(p, s, enterable(g, player, s, true)) + single(p, c, enterable(g, player, c, true))
            + king_steps(g, p, player, idx + 1)
    }
}

/// The first L-shaped jump of base direction `idx`: two squares along it, one
/// square to the following direction.
pub open spec fn jump_a(p: Position, idx: int) -> Position {
    p.side_spec(idx, 2).side_spec((idx + 1) % 4, 1)
}

/// The second L-shaped jump of base direction `idx`: two squares along it, one
/// square to the preceding direction.
pub open spec fn jump_b(p: Position, idx: int) -> Position {
    p.side_spec(idx, 2).side_spec((idx + 3) % 4, 1)
}

/// The knight's jumps for base directions `idx` to 3.
pub open spec fn knight_jumps(g: Grid, p: Position, player: i32, idx: int) -> Seq<Move>
    decreases 4 - idx,
{
    if idx < 0 || idx >= 4 {
        seq![]
    } else {
        let a = jump_a(p, idx);
        let b = jump_b(p, idx);
        single(p, a, enterable(g, player, a, true)) + single(p, b, enterable(g, player, b, true))
            + knight_jumps(g, p, player, idx + 1)
    }
}

/// The direction in which a pawn of `player` advances: up for side 1, down otherwise.
pub open spec fn pawn_dir(player: i32) -> int {
    if player == 1 {
        1
    } else {
        -1
    }
}

/// How many ranks a square lies from the home edge of `player`.
pub open spec fn row_of(player: i32, y: int) -> int {
    if player == 1 {
        y
    } else {
        7 - y
    }
}

/// `t` is on the board and holds an occupant of an owner other than `player`.
pub open spec fn capturable(g: Grid, player: i32, t: Position) -> bool {
    t.valid() && at(g, t).piece != Piece::Empty && at(g, t).player != player
}

/// A pawn's moves: one square forward onto an empty square, then two from
/// its starting rank when both squares are empty; then the two diagonal
/// captures, each only onto an enemy.
pub open spec fn pawn_moves(g: Grid, p: Position, player: i32) -> Seq<Move> {
    let dir = pawn_dir(player);
    let f1 = Position { x: p.x, y: (p.y + dir) as i32 };
    let f2 = Position { x: p.x, y: (p.y + 2 * dir) as i32 };
    let c1 = Position { x: (p.x + 1) as i32, y: (p.y + dir) as i32 };
    let c2 = Position { x: (p.x - 1) as i32, y: (p.y + dir) as i32 };
    let forward = if enterable(g, player, f1, false) {
        seq![Move { from: p, to: f1 }] + single(
            p,
            f2,
            row_of(player, p.y as int) == 1 && enterable(g, player, f2, false),
        )
    } else {
        seq![]
    };
    forward + single(p, c1, capturable(g, player, c1)) + single(p, c2, capturable(g, player, c2))
}

/// The pseudo-legal moves of the occupant of `p`, in the order they are
/// generated: geometrically possible, whether or not they expose the mover's king.
pub open spec fn pseudo_moves(g: Grid, p: Position) -> Seq<Move> {
    let s = at(g, p);
    match s.piece {
        Piece::Pawn => pawn_moves(g, p, s.player),
        Piece::Bishop => rays(g, p, s.player, true, 0),
        Piece::Rook => rays(g, p, s.player, false, 0),
        Piece::Queen => rays(g, p, s.player, false, 0) + rays(g, p, s.player, true, 0),
        Piece::King => king_steps(g, p, s.player, 0),
        Piece::Knight => knight_jumps(g, p, s.player, 0),
        Piece::Empty => seq![],
    }
}

impl Board {
    /// Whether the occupant `square` may enter `pos`: `pos` is on the board
    /// and empty, or, with `attack`, holds another owner's occupant.
    pub fn can_move_to(&self, square: &Square, pos: &Position, attack: bool) -> (r: bool)
        ensures
            r == enterable(self.cells(), square.player, *pos, attack),
    {
        if pos.x < 0 || pos.x >= 8 || pos.y < 0 || pos.y >= 8 {
            false
        } else {
            let other_square = self.getp(pos);
            other_square.is_none() || (attack && other_square.player != square.player)
        }
    }

    /// The rank of `pos` counted from the home edge of the owner of `square`.
    pub fn get_row(&self, square: &Square, pos: &Position) -> (r: i32)
        requires
            pos.y > i32::MIN + 7,
        ensures
            r == row_of(square.player, pos.y as int),
    {
        if square.is_white() {
            pos.y
        } else {
            7 - pos.y
        }
    }

    /// Appends the move from `p` to `t` where the occupant may enter `t`;
    /// says whether `t` was entered and is empty, so that a ray goes on.
    fn try_add(&self, p: &Position, square: &Square, t: Position, capture: bool, moves: &mut Vec<
        Move,
    >) -> (r: bool)
        ensures
            enterable(self.cells(), square.player, t, capture) ==> final(moves)@ == old(
                moves,
            )@.push(Move { from: *p, to: t }) && r == (at(self.cells(), t).piece == Piece::Empty),
            !enterable(self.cells(), square.player, t, capture) ==> final(moves)@ == old(moves)@
                && !r,
    {
        if self.can_move_to(square, &t, capture) {
            let is_none = self.getp(&t).is_none();
            moves.push(Move { from: *p, to: t });
            is_none
        } else {
            false
        }
    }

    /// Appends the moves of one ray.
    fn add_ray(&self, p: &Position, square: &Square, diag: bool, idx: i32, moves: &mut Vec<Move>)
        requires
            p.valid(),
            0 <= idx < 4,
        ensures
            final(moves)@ == old(moves)@ + ray(
                self.cells(),
                *p,
                square.player,
                diag,
                idx as int,
                1,
            ),
    {
        let ghost g = self.cells();
        let ghost target = old(moves)@ + ray(g, *p, square.player, diag, idx as int, 1);
        let mut dist: i32 = 1;
        let mut open = true;
        while open && dist < 8
            invariant
                p.valid(),
                0 <= idx < 4,
                1 <= dist <= 8,
                g == self.cells(),
                open ==> moves@ + ray(g, *p, square.player, diag, idx as int, dist as int)
                    == target,
                !open ==> moves@ == target,
            decreases 8 - dist + if open {
                1int
            } else {
                0int
            },
        {
            let t = if diag {
                p.corner(idx, dist)
            } else {
                p.side(idx, dist)
            };
            let ghost before = moves@;
            let ghost rest = ray(g, *p, square.player, diag, idx as int, dist + 1);
            assert(t == step(*p, diag, idx as int, dist as int));
            if self.try_add(p, square, t, true, moves) {
                assert(before + ray(g, *p, square.player, diag, idx as int, dist as int) == before + (
                seq![Move { from: *p, to: t }] + rest));
                assert(moves@ + rest =~= before + (seq![Move { from: *p, to: t }] + rest));
                dist = dist + 1;
            } else {
                proof {
                    if enterable(g, square.player, t, true) {
                        assert(moves@ =~= before + seq![Move { from: *p, to: t }]);
                    } else {
                        assert(moves@ =~= before + seq![]);
                    }
                }
                open = false;
            }
        }
        if open {
            assert(moves@ + seq![] =~= moves@);
        }
    }
    /// Appends the moves of the four rays of one family.
    fn add_rays(&self, p: &Position, square: &Square, diag: bool, moves: &mut Vec<Move>)
        requires
            p.valid(),
        ensures
            final(moves)@ == old(moves)@ + rays(self.cells(), *p, square.player, diag, 0),
    {
        let ghost g = self.cells();
        let ghost target = old(moves)@ + rays(g, *p, square.player, diag, 0);
        let mut idx: i32 = 0;
        while idx < 4
            invariant
                p.valid(),
                0 <= idx <= 4,
                g == self.cells(),
                moves@ + rays(g, *p, square.player, diag, idx as int) == target,
            decreases 4 - idx,
        {
            let ghost before = moves@;
            self.add_ray(p, square, diag, idx, moves);
            assert(moves@ + rays(g, *p, square.player, diag, idx + 1) =~= before + rays(
                g,
                *p,
                square.player,
                diag,
                idx as int,
            ));
            idx = idx + 1;
        }
        assert(moves@ + seq![] =~= moves@);
    }

    /// Appends the king's one-square steps.
    fn add_king_steps(&self, p: &Position, square: &Square, moves: &mut Vec<Move>)
        requires
            p.valid(),
        ensures
            final(moves)@ == old(moves)@ + king_steps(self.cells(), *p, square.player, 0),
    {
        let ghost g = self.cells();
        let ghost target = old(moves)@ + king_steps(g, *p, square.player, 0);
        let mut idx: i32 = 0;
        while idx < 4
            invariant
                p.valid(),
                0 <= idx <= 4,
                g == self.cells(),
                moves@ + king_steps(g, *p, square.player, idx as int) == target,
            decreases 4 - idx,
        {
            let ghost before = moves@;
            let s = p.side(idx, 1);
            let c = p.corner(idx, 1);
            self.try_add(p, square, s, true, moves);
            let ghost mid = moves@;
            self.try_add(p, square, c, true, moves);
            assert(mid =~= before + single(*p, s, enterable(g, square.player, s, true)));
            assert(moves@ =~= mid + single(*p, c, enterable(g, square.player, c, true)));
            assert(moves@ + king_steps(g, *p, square.player, idx + 1) =~= before + king_steps(
                g,
                *p,
                square.player,
                idx as int,
            ));
            idx = idx + 1;
        }
        assert(moves@ + seq![] =~= moves@);
    }

    /// Appends the knight's jumps.
    fn add_knight_jumps(&self, p: &Position, square: &Square, moves: &mut Vec<Move>)
        requires
            p.valid(),
        ensures
            final(moves)@ == old(moves)@ + knight_jumps(self.cells(), *p, square.player, 0),
    {
        let ghost g = self.cells();
        let ghost target = old(moves)@ + knight_jumps(g, *p, square.player, 0);
        let mut idx: i32 = 0;
        while idx < 4
            invariant
                p.valid(),
                0 <= idx <= 4,
                g == self.cells(),
                moves@ + knight_jumps(g, *p, square.player, idx as int) == target,
            decreases 4 - idx,
        {
            let ghost before = moves@;
            let a = p.side(idx, 2).side((idx + 1) % 4, 1);
            let b = p.side(idx, 2).side((idx + 3) % 4, 1);
            assert(a == jump_a(*p, idx as int));
            assert(b == jump_b(*p, idx as int));
            self.try_add(p, square, a, true, moves);
            let ghost mid = moves@;
            self.try_add(p, square, b, true, moves);
            assert(mid =~= before + single(*p, a, enterable(g, square.player, a, true)));
            assert(moves@ =~= mid + single(*p, b, enterable(g, square.player, b, true)));
            assert(moves@ + knight_jumps(g, *p, square.player, idx + 1) =~= before
                + knight_jumps(g, *p, square.player, idx as int));
            idx = idx + 1;
        }
        assert(moves@ + seq![] =~= moves@);
    }

    /// Appends the capture onto `t` where `t` holds an enemy.
    fn try_capture(&self, p: &Position, square: &Square, t: Position, moves: &mut Vec<Move>)
        ensures
            final(moves)@ == old(moves)@ + single(
                *p,
                t,
                capturable(self.cells(), square.player, t),
            ),
    {
        if self.can_move_to(square, &t, true) {
            let other = self.getp(&t);
            if !other.is_none() && other.player != square.player {
                self.try_add(p, square, t, true, moves);
                assert(moves@ =~= old(moves)@ + seq![Move { from: *p, to: t }]);
                return ;
            }
        }
        assert(moves@ =~= old(moves)@ + seq![]);
    }

    /// Appends a pawn's moves.
    fn add_pawn_moves(&self, p: &Position, square: &Square, moves: &mut Vec<Move>)
        requires
            p.valid(),
        ensures
            final(moves)@ == old(moves)@ + pawn_moves(self.cells(), *p, square.player),
    {
        let ghost g = self.cells();
        let ghost start = moves@;
        let sign: i32 = if square.is_white() {
            1
        } else {
            -1
        };
        let row = self.get_row(square, p);
        let f1 = Position::new(p.x, p.y + sign);
        let f2 = Position::new(p.x, p.y + 2 * sign);
        if self.try_add(p, square, f1, false, moves) {
            let ghost mid = moves@;
            if row == 1 {
                self.try_add(p, square, f2, false, moves);
            }
            assert(moves@ =~= mid + single(
                *p,
                f2,
                row_of(square.player, p.y as int) == 1 && enterable(g, square.player, f2, false),
            ));
        }
        let ghost fwd = moves@;
        assert(fwd =~= start + if enterable(g, square.player, f1, false) {
            seq![Move { from: *p, to: f1 }] + single(
                *p,
                f2,
                row_of(square.player, p.y as int) == 1 && enterable(g, square.player, f2, false),
            )
        } else {
            seq![]
        });
        let c1 = Position::new(p.x + 1, p.y + sign);
        let c2 = Position::new(p.x - 1, p.y + sign);
        self.try_capture(p, square, c1, moves);
        self.try_capture(p, square, c2, moves);
        assert(moves@ =~= start + pawn_moves(g, *p, square.player));
    }

    /// The pseudo-legal moves of the occupant of a valid square, in order of generation.
    pub fn pseudo_moves(&self, p: &Position) -> (r: Vec<Move>)
        requires
            p.valid(),
        ensures
            r@ == pseudo_moves(self.cells(), *p),
    {
        let mut moves: Vec<Move> = Vec::new();
        let square = *self.getp(p);
        match square.piece {
            Piece::Pawn => self.add_pawn_moves(p, &square, &mut moves),
            Piece::Bishop => self.add_rays(p, &square, true, &mut moves),
            Piece::Rook => self.add_rays(p, &square, false, &mut moves),
            Piece::Queen => {
                self.add_rays(p, &square, false, &mut moves);
                self.add_rays(p, &square, true, &mut moves);
            },
            Piece::King => self.add_king_steps(p, &square, &mut moves),
            Piece::Knight => self.add_knight_jumps(p, &square, &mut moves),
            Piece::Empty => {},
        }
        assert(moves@ =~= pseudo_moves(self.cells(), *p));
        moves
    }
}

} // verus!
