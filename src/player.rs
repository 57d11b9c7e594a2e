use vstd::prelude::*;

verus! {

/// A side of the game: 1 is the first player (white), 2 the second (black);
/// any other number stands for no side.
#[derive(Debug, Clone, Copy, PartialEq, Eq, Structural)]
pub struct Player {
    pub num: i32,
}

impl Player {
    pub fn is_white(&self) -> (r: bool)
        ensures
            r == (self.num == 1),
    {
        self.num == 1
    }

    pub fn is_black(&self) -> (r: bool)
        ensures
            r == (self.num == 2),
    {
        self.num == 2
    }

    pub fn is_none(&self) -> (r: bool)
        ensures
            r == (self.num != 1 && self.num != 2),
    {
        !self.is_white() && !self.is_black()
    }
}

} // verus!
