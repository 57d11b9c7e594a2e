use vstd::prelude::*;

verus! {

/// A square of the board: `x` is the file (a-h), `y` the rank (1-8), both
/// zero-based. A position is valid when both lie in `[0, 7]`; positions off
/// the board are representable and are checked where they are used.
#[derive(Debug, Clone, Copy, PartialEq, Eq, Structural)]
pub struct Position {
    pub x: i32,
    pub y: i32,
}

/// Both components lie on the board.
pub open spec fn on_board(x: int, y: int) -> bool {
    0 <= x < 8 && 0 <= y < 8
}

/// The square for a file letter byte and a rank digit byte, if both are in range.
pub open spec fn decode_spec(file: u8, rank: u8) -> Option<Position> {
    let x = file as int - 97;
    let y = rank as int - 49;
    if on_board(x, y) {
        Some(Position { x: x as i32, y: y as i32 })
    } else {
        None
    }
}

/// The two-character notation of a square ("e4"), read back.
pub open spec fn parse_spec(text: Seq<u8>) -> Option<Position> {
    if text.len() != 2 {
        None
    } else {
        decode_spec(text[0], text[1])
    }
}

/// The two-character notation of a valid square: a letter 'a'-'h' and a digit '1'-'8'.
pub open spec fn notation_spec(p: Position) -> Seq<u8> {
    seq![(p.x + 97) as u8, (p.y + 49) as u8]
}

impl Position {
    pub open spec fn valid(self) -> bool {
        on_board(self.x as int, self.y as int)
    }

    /// The position `dist` squares away along orthogonal direction `idx`.
    pub open spec fn side_spec(self, idx: int, dist: int) -> Position {
        if idx == 0 {
            Position { x: self.x, y: (self.y + dist) as i32 }
        } else if idx == 1 {
            Position { x: (self.x + dist) as i32, y: self.y }
        } else if idx == 2 {
            Position { x: self.x, y: (self.y - dist) as i32 }
        } else {
            Position { x: (self.x - dist) as i32, y: self.y }
        }
    }

    /// The position `dist` squares away along diagonal direction `idx`.
    pub open spec fn corner_spec(self, idx: int, dist: int) -> Position {
        if idx == 0 {
            Position { x: (self.x + dist) as i32, y: (self.y + dist) as i32 }
        } else if idx == 1 {
            Position { x: (self.x + dist) as i32, y: (self.y - dist) as i32 }
        } else if idx == 2 {
            Position { x: (self.x - dist) as i32, y: (self.y + dist) as i32 }
        } else {
            Position { x: (self.x - dist) as i32, y: (self.y - dist) as i32 }
        }
    }

    /// Neither coordinate moves out of `i32` when stepped by `dist`.
    pub open spec fn steppable(self, dist: int) -> bool {
        i32::MIN + dist <= self.x <= i32::MAX - dist && i32::MIN + dist <= self.y <= i32::MAX
            - dist
    }

    pub fn new(x: i32, y: i32) -> (r: Position)
        ensures
            r == (Position { x, y }),
    {
        Position { x, y }
    }

    /// Reads the two-character notation ("e4"); anything else gives `None`.
    pub fn from(text: &[u8]) -> (r: Option<Position>)
        ensures
            r == parse_spec(text@),
    {
        if text.len() != 2 {
            return None;
        }
        Position::decode(text[0], text[1])
    }

    /// The square named by a file letter and a rank digit, if both are in range.
    pub fn decode(file: u8, rank: u8) -> (r: Option<Position>)
        ensures
            r == decode_spec(file, rank),
    {
        let x: i32 = (file as i32) - 97;
        let y: i32 = (rank as i32) - 49;
        if x < 0 || x >= 8 || y < 0 || y >= 8 {
            return None;
        }
        Some(Position { x, y })
    }

    /// The two-character notation of a valid square.
    pub fn notation(&self) -> (r: Vec<u8>)
        requires
            self.valid(),
        ensures
            r@ == notation_spec(*self),
    {
        let mut r: Vec<u8> = Vec::new();
        r.push((self.x + 97) as u8);
        r.push((self.y + 49) as u8);
        r
    }

    /// Steps `dist` squares along orthogonal direction `idx` (0 north, 1 east,
    /// 2 south, 3 west). The result may lie off the board.
    pub fn side(&self, idx: i32, dist: i32) -> (r: Position)
        requires
            0 <= idx < 4,
            dist > 0,
            self.steppable(dist as int),
        ensures
            r == self.side_spec(idx as int, dist as int),
    {
        match idx {
            0 => Position::new(self.x, self.y + dist),
            1 => Position::new(self.x + dist, self.y),
            2 => Position::new(self.x, self.y - dist),
            _ => Position::new(self.x - dist, self.y),
        }
    }

    /// Steps `dist` squares along diagonal direction `idx` (0 north-east,
    /// 1 south-east, 2 north-west, 3 south-west). The result may lie off the board.
    pub fn corner(&self, idx: i32, dist: i32) -> (r: Position)
        requires
            0 <= idx < 4,
            dist > 0,
            self.steppable(dist as int),
        ensures
            r == self.corner_spec(idx as int, dist as int),
    {
        match idx {
            0 => Position::new(self.x + dist, self.y + dist),
            1 => Position::new(self.x + dist, self.y - dist),
            2 => Position::new(self.x - dist, self.y + dist),
            _ => Position::new(self.x - dist, self.y - dist),
        }
    }

    pub fn is_valid(&self) -> (r: bool)
        ensures
            r == self.valid(),
    {
        !(self.x < 0 || self.x >= 8 || self.y < 0 || self.y >= 8)
    }
}

} // verus!
