use vstd::prelude::*;
use crate::position::{Position, decode_spec};
use vstd::string::StringSliceAdditionalSpecFns;

verus! {

/// A move of the occupant of `from` to `to`.
#[derive(Debug, Clone, Copy, PartialEq, Eq, Structural)]
pub struct Move {
    pub from: Position,
    pub to: Position,
}

/// A move written as two squares and one space between them ("e2 e4").
pub open spec fn parse_move_spec(text: Seq<u8>) -> Option<Move> {
    if text.len() != 5 || text[2] != 32u8 {
        None
    } else {
        match (decode_spec(text[0], text[1]), decode_spec(text[3], text[4])) {
            (Some(from), Some(to)) => Some(Move { from, to }),
            _ => None,
        }
    }
}

impl Move {
    /// A move from a valid origin; the destination is not checked here.
    pub fn new(from: Position, to: Position) -> (r: Option<Move>)
        ensures
            r == (if from.valid() {
                Some(Move { from, to })
            } else {
                None
            }),
    {
        if from.x < 0 || from.x >= 8 || from.y < 0 || from.y >= 8 {
            None
        } else {
            Some(Move { from, to })
        }
    }

    /// Reads a move written as "e2 e4".
    pub fn from(move_str: &str) -> (r: Option<Move>)
        ensures
            r == parse_move_spec(move_str.spec_bytes()),
    {
        let bytes = move_str.as_bytes();
        if bytes.len() != 5 || bytes[2] != 32u8 {
            return None;
        }
        let from = Position::decode(bytes[0], bytes[1]);
        let to = Position::decode(bytes[3], bytes[4]);
        match (from, to) {
            (Some(from), Some(to)) => Some(Move { from, to }),
            _ => None,
        }
    }
}

} // verus!
