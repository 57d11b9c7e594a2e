use vstd::prelude::*;
use vstd::string::StrSliceExecFns;

verus! {

/// The kind of what stands on a square; `Empty` marks an empty square.
#[derive(Debug, Clone, Copy, PartialEq, Eq, Structural)]
pub enum Piece {
    Empty,
    Bishop,
    King,
    Knight,
    Pawn,
    Queen,
    Rook,
}

/// The kind whose name is `name` ("Bishop", "King", ...); any other text names no piece.
pub open spec fn piece_named(name: Seq<char>) -> Piece {
    if name == seq!['B', 'i', 's', 'h', 'o', 'p'] {
        Piece::Bishop
    } else if name == seq!['K', 'i', 'n', 'g'] {
        Piece::King
    } else if name == seq!['K', 'n', 'i', 'g', 'h', 't'] {
        Piece::Knight
    } else if name == seq!['P', 'a', 'w', 'n'] {
        Piece::Pawn
    } else if name == seq!['Q', 'u', 'e', 'e', 'n'] {
        Piece::Queen
    } else if name == seq!['R', 'o', 'o', 'k'] {
        Piece::Rook
    } else {
        Piece::Empty
    }
}

/// Whether the text of `name` is exactly `word`.
fn text_is(name: &str, word: &str) -> (r: bool)
    ensures
        r == (name@ == word@),
{
    let n = name.unicode_len();
    let w = word.unicode_len();
    if n != w {
        return false;
    }
    let mut i: usize = 0;
    while i < n
        invariant
            n == name@.len(),
            w == word@.len(),
            n == w,
            i <= n,
            forall|j: int| 0 <= j < i ==> name@[j] == word@[j],
        decreases n - i,
    {
        if name.get_char(i) != word.get_char(i) {
            return false;
        }
        i = i + 1;
    }
    assert(name@ =~= word@);
    true
}

impl Piece {
    /// The kind named by `name`, as written by its variant ("Queen"); unknown names give `Empty`.
    pub fn from(name: &str) -> (r: Piece)
        ensures
            r == piece_named(name@),
    {
        proof {
            reveal_strlit("Bishop");
            reveal_strlit("King");
            reveal_strlit("Knight");
            reveal_strlit("Pawn");
            reveal_strlit("Queen");
            reveal_strlit("Rook");
            assert("Bishop"@ =~= seq!['B', 'i', 's', 'h', 'o', 'p']);
            assert("King"@ =~= seq!['K', 'i', 'n', 'g']);
            assert("Knight"@ =~= seq!['K', 'n', 'i', 'g', 'h', 't']);
            assert("Pawn"@ =~= seq!['P', 'a', 'w', 'n']);
            assert("Queen"@ =~= seq!['Q', 'u', 'e', 'e', 'n']);
            assert("Rook"@ =~= seq!['R', 'o', 'o', 'k']);
        }
        if text_is(name, "Bishop") {
            Piece::Bishop
        } else if text_is(name, "King") {
            Piece::King
        } else if text_is(name, "Knight") {
            Piece::Knight
        } else if text_is(name, "Pawn") {
            Piece::Pawn
        } else if text_is(name, "Queen") {
            Piece::Queen
        } else if text_is(name, "Rook") {
            Piece::Rook
        } else {
            Piece::Empty
        }
    }

    /// One of the four kinds a pawn may be promoted to.
    pub open spec fn promotable(self) -> bool {
        self == Piece::Bishop || self == Piece::Knight || self == Piece::Queen || self
            == Piece::Rook
    }
}

} // verus!
