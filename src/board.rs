use vstd::prelude::*;
use crate::moves::Move;
use crate::piece::Piece;
use crate::player::Player;
use crate::position::Position;
use crate::square::{Square, empty_square};

verus! {

/// The board's squares as a sequence of ranks, each a sequence of files:
/// `g[y][x]` is the square at file `x`, rank `y`.
pub type Grid = Seq<Seq<Square>>;

/// The square at a position of a grid.
pub open spec fn at(g: Grid, p: Position) -> Square {
    g[p.y as int][p.x as int]
}

/// The grid has eight ranks of eight squares.
pub open spec fn full(g: Grid) -> bool {
    g.len() == 8 && forall|y: int| 0 <= y < 8 ==> #[trigger] g[y].len() == 8
}

/// The grid with the square at `p` replaced by `s`.
pub open spec fn put(g: Grid, p: Position, s: Square) -> Grid {
    g.update(p.y as int, g[p.y as int].update(p.x as int, s))
}

/// Replacing one square keeps the grid full, and changes that square only.
pub proof fn lemma_put(g: Grid, p: Position, s: Square)
    requires
        full(g),
        p.valid(),
    ensures
        full(put(g, p, s)),
        at(put(g, p, s), p) == s,
        forall|q: Position| q.valid() && q != p ==> at(#[trigger] put(g, p, s), q) == at(g, q),
{
    let g2 = put(g, p, s);
    assert forall|q: Position| q.valid() && q != p implies at(#[trigger] put(g, p, s), q) == at(
        g,
        q,
    ) by {
        if q.y != p.y {
        } else {
            assert(q.x != p.x);
        }
    }
}

/// The side that moves after `turn`.
pub open spec fn other_side(turn: i32) -> i32 {
    if turn == 1 {
        2
    } else {
        1
    }
}

/// The state of a game: the grid, whose turn it is (1 or 2), the square a
/// player has selected with its legal moves, and the last move played.
#[derive(Debug)]
pub struct Board {
    pub player1: Player,
    pub player2: Player,
    pub turn: i32,
    pub cur_pos: Option<Position>,
    pub cur_moves: Vec<Move>,
    pub prev_move: Option<Move>,
    pub grid: [[Square; 8]; 8],
}

/// The occupant of each square at the start of a game: first side's back rank
/// on rank 1 and its pawns on rank 2, the second side's mirrored on ranks 8 and 7.
pub open spec fn initial_square(x: int, y: int) -> Square {
    let back = if x == 0 || x == 7 {
        Piece::Rook
    } else if x == 1 || x == 6 {
        Piece::Knight
    } else if x == 2 || x == 5 {
        Piece::Bishop
    } else if x == 3 {
        Piece::King
    } else {
        Piece::Queen
    };
    if y == 0 {
        Square { piece: back, player: 1, moved: false }
    } else if y == 1 {
        Square { piece: Piece::Pawn, player: 1, moved: false }
    } else if y == 6 {
        Square { piece: Piece::Pawn, player: 2, moved: false }
    } else if y == 7 {
        Square { piece: back, player: 2, moved: false }
    } else {
        empty_square()
    }
}

/// The occupant of each square in the preset test position: the first
/// side's king on e1 and rooks on a1 and h1, its pawn on b7, and a knight of
/// the second side on c6.
pub open spec fn test_square(x: int, y: int) -> Square {
    if x == 4 && y == 0 {
        Square { piece: Piece::King, player: 1, moved: false }
    } else if x == 2 && y == 5 {
        Square { piece: Piece::Knight, player: 2, moved: false }
    } else if x == 1 && y == 6 {
        Square { piece: Piece::Pawn, player: 1, moved: false }
    } else if (x == 0 || x == 7) && y == 0 {
        Square { piece: Piece::Rook, player: 1, moved: false }
    } else {
        empty_square()
    }
}

impl Board {
    /// The grid as nested sequences.
    pub open spec fn cells(&self) -> Grid {
        self.grid@.map_values(|r: [Square; 8]| r@)
    }

    /// The grid of a board is always full.
    pub proof fn lemma_cells_full(&self)
        ensures
            full(self.cells()),
    {
    }

    /// The square at a position.
    pub open spec fn at(&self, p: Position) -> Square {
        at(self.cells(), p)
    }

    /// The same game with another grid.
    pub open spec fn same_but_grid(&self, other: &Board) -> bool {
        self.player1 == other.player1 && self.player2 == other.player2 && self.turn == other.turn
            && self.cur_pos == other.cur_pos && self.cur_moves@ == other.cur_moves@
            && self.prev_move == other.prev_move
    }

    pub fn white_turn(&self) -> (r: bool)
        ensures
            r == (self.turn == 1),
    {
        self.turn == 1
    }

    pub fn black_turn(&self) -> (r: bool)
        ensures
            r == (self.turn == 2),
    {
        self.turn == 2
    }

    /// The square at file `x`, rank `y`.
    pub fn get(&self, x: i32, y: i32) -> (r: &Square)
        requires
            0 <= x < 8,
            0 <= y < 8,
        ensures
            *r == self.cells()[y as int][x as int],
    {
        &self.grid[y as usize][x as usize]
    }

    /// The square at a valid position.
    pub fn getp(&self, pos: &Position) -> (r: &Square)
        requires
            pos.valid(),
        ensures
            *r == self.at(*pos),
    {
        self.get(pos.x, pos.y)
    }

    /// Replaces the square at file `x`, rank `y`.
    pub fn set(&mut self, x: i32, y: i32, square: &Square)
        requires
            0 <= x < 8,
            0 <= y < 8,
        ensures
            final(self).cells() == put(old(self).cells(), Position { x, y }, *square),
            final(self).same_but_grid(old(self)),
    {
        let ghost before = self.cells();
        let mut row = self.grid[y as usize];
        row[x as usize] = *square;
        self.grid[y as usize] = row;
        assert(self.cells() =~= put(before, Position { x, y }, *square));
    }

    /// Replaces the square at a valid position.
    pub fn setp(&mut self, pos: &Position, square: &Square)
        requires
            pos.valid(),
        ensures
            final(self).cells() == put(old(self).cells(), *pos, *square),
            final(self).same_but_grid(old(self)),
    {
        self.set(pos.x, pos.y, square);
    }

    /// A game at its start: the standard placement, first side to move,
    /// nothing selected and no move played.
    pub fn new() -> (r: Board)
        ensures
            forall|x: int, y: int|
                0 <= x < 8 && 0 <= y < 8 ==> #[trigger] r.cells()[y][x] == initial_square(x, y),
            r.cells().len() == 8,
            forall|y: int| 0 <= y < 8 ==> #[trigger] r.cells()[y].len() == 8,
            r.turn == 1,
            r.player1 == (Player { num: 1 }),
            r.player2 == (Player { num: 2 }),
            r.cur_pos.is_none(),
            r.cur_moves@.len() == 0,
            r.prev_move.is_none(),
    {
        let e = Square::from(Piece::Empty, 0);
        let back1 = [
            Square::from(Piece::Rook, 1),
            Square::from(Piece::Knight, 1),
            Square::from(Piece::Bishop, 1),
            Square::from(Piece::King, 1),
            Square::from(Piece::Queen, 1),
            Square::from(Piece::Bishop, 1),
            Square::from(Piece::Knight, 1),
            Square::from(Piece::Rook, 1),
        ];
        let back2 = [
            Square::from(Piece::Rook, 2),
            Square::from(Piece::Knight, 2),
            Square::from(Piece::Bishop, 2),
            Square::from(Piece::King, 2),
            Square::from(Piece::Queen, 2),
            Square::from(Piece::Bishop, 2),
            Square::from(Piece::Knight, 2),
            Square::from(Piece::Rook, 2),
        ];
        let pawns1 = [Square::from(Piece::Pawn, 1); 8];
        let pawns2 = [Square::from(Piece::Pawn, 2); 8];
        let empty = [e; 8];
        let r = Board {
            player1: Player { num: 1 },
            player2: Player { num: 2 },
            turn: 1,
            cur_pos: None,
            cur_moves: Vec::new(),
            prev_move: None,
            grid: [back1, pawns1, empty, empty, empty, empty, pawns2, back2],
        };
        assert forall|x: int, y: int| 0 <= x < 8 && 0 <= y < 8 implies #[trigger] r.cells()[y][x]
            == initial_square(x, y) by {
            assert(r.cells()[y] == r.grid@[y]@);
        }
        r
    }

    /// Sets up the preset test position on an otherwise empty grid.
    pub fn test(&mut self)
        ensures
            forall|x: int, y: int|
                0 <= x < 8 && 0 <= y < 8 ==> #[trigger] final(self).cells()[y][x] == test_square(
                    x,
                    y,
                ),
            final(self).same_but_grid(old(self)),
    {
        self.grid = [[Square::from(Piece::Empty, 0); 8]; 8];
        self.set(4, 0, &Square::from(Piece::King, 1));
        self.set(2, 5, &Square::from(Piece::Knight, 2));
        self.set(1, 6, &Square::from(Piece::Pawn, 1));
        self.set(0, 0, &Square::from(Piece::Rook, 1));
        self.set(7, 0, &Square::from(Piece::Rook, 1));
    }

    /// Passes the turn to the other side.
    pub fn next_turn(&mut self)
        ensures
            final(self).turn == other_side(old(self).turn),
            final(self).cells() == old(self).cells(),
            final(self).player1 == old(self).player1,
            final(self).player2 == old(self).player2,
            final(self).cur_pos == old(self).cur_pos,
            final(self).cur_moves@ == old(self).cur_moves@,
            final(self).prev_move == old(self).prev_move,
    {
        self.turn = if self.turn == 1 {
            2
        } else {
            1
        };
    }
}

} // verus!
