use chess::{player_color, square_letter, Board, Move, Piece, Player, Position, Square};

fn pos(x: i32, y: i32) -> Position {
    Position::new(x, y)
}

fn mv(fx: i32, fy: i32, tx: i32, ty: i32) -> Move {
    Move { from: pos(fx, fy), to: pos(tx, ty) }
}

fn empty_board() -> Board {
    let mut b = Board::new();
    b.grid = [[Square::from(Piece::Empty, 0); 8]; 8];
    b
}

fn put(b: &mut Board, x: i32, y: i32, piece: Piece, player: i32) {
    b.set(x, y, &Square::from(piece, player));
}

fn dests(moves: &[Move]) -> Vec<(i32, i32)> {
    let mut d: Vec<(i32, i32)> = moves.iter().map(|m| (m.to.x, m.to.y)).collect();
    d.sort();
    d
}

#[test]
fn position_parses_notation() {
    assert_eq!(Position::from(b"a1"), Some(pos(0, 0)));
    assert_eq!(Position::from(b"h8"), Some(pos(7, 7)));
    assert_eq!(Position::from(b"e2"), Some(pos(4, 1)));
    assert_eq!(Position::from(b"i1"), None);
    assert_eq!(Position::from(b"a9"), None);
    assert_eq!(Position::from(b"a0"), None);
    assert_eq!(Position::from(b"A1"), None);
    assert_eq!(Position::from(b"e"), None);
    assert_eq!(Position::from(b"e22"), None);
    assert_eq!(Position::from(b""), None);
}

#[test]
fn notation_round_trips_for_every_square() {
    for x in 0..8 {
        for y in 0..8 {
            let p = pos(x, y);
            let text = p.notation();
            assert_eq!(text.len(), 2);
            assert_eq!(Position::from(&text), Some(p));
        }
    }
    assert_eq!(pos(4, 3).notation(), b"e4".to_vec());
}

#[test]
fn position_steps() {
    let p = pos(3, 3);
    assert_eq!(p.side(0, 2), pos(3, 5));
    assert_eq!(p.side(1, 2), pos(5, 3));
    assert_eq!(p.side(2, 2), pos(3, 1));
    assert_eq!(p.side(3, 2), pos(1, 3));
    assert_eq!(p.corner(0, 1), pos(4, 4));
    assert_eq!(p.corner(1, 1), pos(4, 2));
    assert_eq!(p.corner(2, 1), pos(2, 4));
    assert_eq!(p.corner(3, 1), pos(2, 2));
    assert_eq!(pos(0, 0).side(3, 1), pos(-1, 0));
    assert!(!pos(0, 0).side(3, 1).is_valid());
    assert!(pos(7, 7).is_valid());
    assert!(!pos(8, 0).is_valid());
    assert!(!pos(0, -1).is_valid());
}

#[test]
fn move_new_checks_origin_only() {
    assert_eq!(Move::new(pos(0, 0), pos(9, 9)), Some(mv(0, 0, 9, 9)));
    assert_eq!(Move::new(pos(-1, 0), pos(0, 0)), None);
    assert_eq!(Move::new(pos(0, 8), pos(0, 0)), None);
}

#[test]
fn move_parses_text() {
    assert_eq!(Move::from("e2 e4"), Some(mv(4, 1, 4, 3)));
    assert_eq!(Move::from("a1 h8"), Some(mv(0, 0, 7, 7)));
    assert_eq!(Move::from("e2e4"), None);
    assert_eq!(Move::from("e2  e4"), None);
    assert_eq!(Move::from("e2-e4"), None);
    assert_eq!(Move::from("e9 e4"), None);
    assert_eq!(Move::from("e2 z4"), None);
}

#[test]
fn piece_from_name() {
    assert_eq!(Piece::from("Bishop"), Piece::Bishop);
    assert_eq!(Piece::from("King"), Piece::King);
    assert_eq!(Piece::from("Knight"), Piece::Knight);
    assert_eq!(Piece::from("Pawn"), Piece::Pawn);
    assert_eq!(Piece::from("Queen"), Piece::Queen);
    assert_eq!(Piece::from("Rook"), Piece::Rook);
    assert_eq!(Piece::from("queen"), Piece::Empty);
    assert_eq!(Piece::from(""), Piece::Empty);
}

#[test]
fn square_and_player_predicates() {
    let s = Square::from(Piece::Rook, 2);
    assert!(!s.moved);
    assert!(s.is_black() && !s.is_white() && !s.is_none());
    let e = Square::from(Piece::Empty, 0);
    assert!(e.is_none() && !e.is_white() && !e.is_black());
    assert!(Player { num: 1 }.is_white());
    assert!(Player { num: 2 }.is_black());
    assert!(Player { num: 0 }.is_none());
    assert!(!Player { num: 1 }.is_none());
}

#[test]
fn initial_board_layout() {
    let b = Board::new();
    assert_eq!(b.turn, 1);
    assert!(b.white_turn() && !b.black_turn());
    assert_eq!(b.get(3, 0).piece, Piece::King);
    assert_eq!(b.get(4, 0).piece, Piece::Queen);
    assert_eq!(b.get(0, 7).piece, Piece::Rook);
    assert_eq!(b.get(0, 7).player, 2);
    assert_eq!(b.get(5, 1).piece, Piece::Pawn);
    assert_eq!(b.get(5, 6).player, 2);
    assert!(b.get(4, 4).is_none());
    assert!(b.cur_pos.is_none() && b.cur_moves.is_empty() && b.prev_move.is_none());
}

#[test]
fn initial_pawn_has_single_and_double_advance() {
    let b = Board::new();
    let moves = b.get_moves(&pos(4, 1), false);
    assert_eq!(dests(&moves), vec![(4, 2), (4, 3)]);
    assert!(moves.iter().all(|m| m.from == pos(4, 1)));
    assert_eq!(dests(&b.get_moves(&pos(4, 1), true)), vec![(4, 2), (4, 3)]);
}

#[test]
fn initial_knight_and_blocked_pieces() {
    let b = Board::new();
    assert_eq!(dests(&b.get_moves(&pos(1, 0), false)), vec![(0, 2), (2, 2)]);
    assert!(b.get_moves(&pos(0, 0), false).is_empty());
    assert!(b.get_moves(&pos(4, 0), false).is_empty());
    assert!(b.get_moves(&pos(4, 4), false).is_empty());
}

#[test]
fn sliding_pieces_stop_at_blockers() {
    let mut b = empty_board();
    put(&mut b, 0, 0, Piece::Rook, 1);
    put(&mut b, 0, 3, Piece::Pawn, 1);
    put(&mut b, 2, 0, Piece::Pawn, 2);
    assert_eq!(dests(&b.get_moves(&pos(0, 0), true)), vec![(0, 1), (0, 2), (1, 0), (2, 0)]);
    put(&mut b, 4, 4, Piece::Bishop, 1);
    put(&mut b, 6, 6, Piece::Knight, 2);
    let d = dests(&b.get_moves(&pos(4, 4), true));
    assert_eq!(d.len(), 11);
    assert!(d.contains(&(6, 6)) && !d.contains(&(7, 7)));
    assert!(d.contains(&(1, 1)) && !d.contains(&(0, 0)));
    let mut q = empty_board();
    put(&mut q, 3, 3, Piece::Queen, 2);
    assert_eq!(q.get_moves(&pos(3, 3), true).len(), 27);
}

#[test]
fn king_and_knight_steps() {
    let mut b = empty_board();
    put(&mut b, 4, 4, Piece::Knight, 1);
    assert_eq!(b.get_moves(&pos(4, 4), true).len(), 8);
    put(&mut b, 0, 0, Piece::Knight, 1);
    assert_eq!(dests(&b.get_moves(&pos(0, 0), true)), vec![(1, 2), (2, 1)]);
    put(&mut b, 7, 3, Piece::King, 2);
    put(&mut b, 6, 3, Piece::Pawn, 2);
    put(&mut b, 7, 4, Piece::Pawn, 1);
    assert_eq!(
        dests(&b.get_moves(&pos(7, 3), true)),
        vec![(6, 2), (6, 4), (7, 2), (7, 4)]
    );
}

#[test]
fn pawn_captures_only_enemies() {
    let mut b = empty_board();
    put(&mut b, 3, 3, Piece::Pawn, 1);
    put(&mut b, 4, 4, Piece::Pawn, 2);
    put(&mut b, 2, 4, Piece::Pawn, 1);
    put(&mut b, 3, 4, Piece::Knight, 2);
    assert_eq!(dests(&b.get_moves(&pos(3, 3), true)), vec![(4, 4)]);
    put(&mut b, 5, 6, Piece::Pawn, 2);
    assert_eq!(dests(&b.get_moves(&pos(5, 6), true)), vec![(5, 4), (5, 5)]);
}

#[test]
fn can_move_to_and_row() {
    let b = Board::new();
    let white = Square::from(Piece::Rook, 1);
    assert!(b.can_move_to(&white, &pos(4, 4), false));
    assert!(!b.can_move_to(&white, &pos(4, 6), false));
    assert!(b.can_move_to(&white, &pos(4, 6), true));
    assert!(!b.can_move_to(&white, &pos(4, 1), true));
    assert!(!b.can_move_to(&white, &pos(8, 1), true));
    assert_eq!(b.get_row(&white, &pos(0, 1)), 1);
    assert_eq!(b.get_row(&Square::from(Piece::Pawn, 2), &pos(0, 6)), 1);
}

#[test]
fn threats_and_check() {
    let mut b = empty_board();
    put(&mut b, 4, 0, Piece::King, 1);
    put(&mut b, 4, 7, Piece::Rook, 2);
    assert!(b.square_vulnerable(&pos(4, 3)));
    assert!(!b.square_vulnerable(&pos(3, 3)));
    assert!(b.is_check());
    put(&mut b, 4, 5, Piece::Pawn, 1);
    assert!(!b.is_check());
    let kingless = empty_board();
    assert!(!kingless.is_check());
}

#[test]
fn pinned_piece_has_no_legal_moves() {
    let mut b = empty_board();
    put(&mut b, 4, 0, Piece::King, 1);
    put(&mut b, 4, 1, Piece::Rook, 1);
    put(&mut b, 4, 7, Piece::Rook, 2);
    let legal = dests(&b.get_moves(&pos(4, 1), false));
    assert_eq!(legal, vec![(4, 2), (4, 3), (4, 4), (4, 5), (4, 6), (4, 7)]);
    assert_eq!(b.get_moves(&pos(4, 1), true).len(), 6 + 4 + 3);
}

#[test]
fn castling_toward_file_h_from_a1() {
    let mut b = empty_board();
    put(&mut b, 0, 0, Piece::King, 1);
    put(&mut b, 7, 0, Piece::Rook, 1);
    assert_eq!(b.get_castling_move(&pos(0, 0), 0), None);
    assert_eq!(b.get_castling_move(&pos(0, 0), 1), Some(mv(0, 0, 2, 0)));
    assert!(b.get_moves(&pos(0, 0), false).contains(&mv(0, 0, 2, 0)));
    assert!(b.do_move(&mv(0, 0, 2, 0)));
    assert_eq!(b.get(2, 0).piece, Piece::King);
    assert!(b.get(2, 0).moved);
    assert_eq!(b.get(3, 0).piece, Piece::Rook);
    assert_eq!(b.get(3, 0).player, 1);
    assert!(b.get(3, 0).moved);
    assert!(b.get(7, 0).is_none());
    assert!(b.get(0, 0).is_none());
    assert!(b.get(1, 0).is_none());
    assert_eq!(b.turn, 2);
}

#[test]
fn castling_refused_when_path_attacked_or_pieces_moved() {
    let mut b = empty_board();
    put(&mut b, 0, 0, Piece::King, 1);
    put(&mut b, 7, 0, Piece::Rook, 1);
    put(&mut b, 1, 7, Piece::Rook, 2);
    assert_eq!(b.get_castling_move(&pos(0, 0), 1), None);

    let mut b = empty_board();
    put(&mut b, 0, 0, Piece::King, 1);
    put(&mut b, 7, 0, Piece::Rook, 1);
    put(&mut b, 5, 0, Piece::Bishop, 1);
    assert_eq!(b.get_castling_move(&pos(0, 0), 1), None);

    let mut b = empty_board();
    put(&mut b, 0, 0, Piece::King, 1);
    b.set(7, 0, &Square { piece: Piece::Rook, player: 1, moved: true });
    assert_eq!(b.get_castling_move(&pos(0, 0), 1), None);

    let mut b = empty_board();
    put(&mut b, 0, 0, Piece::King, 1);
    put(&mut b, 7, 0, Piece::Rook, 1);
    put(&mut b, 0, 7, Piece::Rook, 2);
    assert_eq!(b.get_castling_move(&pos(0, 0), 1), None);
    assert!(!b.get_moves(&pos(0, 0), false).contains(&mv(0, 0, 2, 0)));
}

#[test]
fn castling_from_standard_king_square() {
    let mut b = empty_board();
    put(&mut b, 3, 0, Piece::King, 1);
    put(&mut b, 0, 0, Piece::Rook, 1);
    put(&mut b, 7, 0, Piece::Rook, 1);
    assert_eq!(b.get_castling_move(&pos(3, 0), 0), Some(mv(3, 0, 1, 0)));
    assert_eq!(b.get_castling_move(&pos(3, 0), 1), Some(mv(3, 0, 5, 0)));
    assert!(b.do_move(&mv(3, 0, 5, 0)));
    assert_eq!(b.get(5, 0).piece, Piece::King);
    assert_eq!(b.get(6, 0).piece, Piece::Rook);
    assert!(b.get(7, 0).is_none());
}

#[test]
fn queen_and_king_deliver_checkmate() {
    let mut b = empty_board();
    put(&mut b, 7, 7, Piece::King, 2);
    put(&mut b, 6, 6, Piece::Queen, 1);
    put(&mut b, 5, 5, Piece::King, 1);
    b.next_turn();
    assert_eq!(b.turn, 2);
    assert!(b.is_check());
    assert!(!b.can_move_any());
    assert!(b.is_checkmate());
    assert!(!b.is_stalemate());
}

#[test]
fn lone_king_is_stalemated() {
    let mut b = empty_board();
    put(&mut b, 0, 7, Piece::King, 2);
    put(&mut b, 2, 6, Piece::Queen, 1);
    put(&mut b, 7, 0, Piece::King, 1);
    b.next_turn();
    assert!(!b.is_check());
    assert!(b.is_stalemate());
    assert!(!b.is_checkmate());
}

#[test]
fn initial_board_is_neither_mate_nor_stalemate() {
    let b = Board::new();
    assert!(b.can_move_any());
    assert!(!b.is_check());
    assert!(!b.is_checkmate());
    assert!(!b.is_stalemate());
}

#[test]
fn pawn_promotion_waits_for_choice() {
    let mut b = empty_board();
    put(&mut b, 1, 6, Piece::Pawn, 1);
    put(&mut b, 4, 0, Piece::King, 1);
    put(&mut b, 4, 7, Piece::King, 2);
    assert_eq!(b.get_promoting(), None);
    assert!(b.do_move(&mv(1, 6, 1, 7)));
    assert_eq!(b.get_promoting(), Some(pos(1, 7)));
    assert_eq!(b.turn, 1);
    assert!(!b.promote(Piece::King));
    assert!(!b.promote(Piece::Pawn));
    assert_eq!(b.turn, 1);
    assert!(b.promote(Piece::Queen));
    assert_eq!(b.get(1, 7).piece, Piece::Queen);
    assert_eq!(b.get(1, 7).player, 1);
    assert_eq!(b.turn, 2);
    assert_eq!(b.get_promoting(), None);
}

#[test]
fn promote_without_pending_pawn_fails() {
    let mut b = Board::new();
    assert!(!b.promote(Piece::Queen));
    assert_eq!(b.turn, 1);
    assert_eq!(b.get(4, 0).piece, Piece::Queen);
}

#[test]
fn moves_alternate_turns() {
    let mut b = Board::new();
    assert!(b.do_move(&mv(4, 1, 4, 3)));
    assert_eq!(b.turn, 2);
    assert_eq!(b.prev_move, Some(mv(4, 1, 4, 3)));
    assert!(b.get(4, 1).is_none());
    assert!(b.get(4, 3).moved);
    assert!(b.do_move(&mv(4, 6, 4, 4)));
    assert_eq!(b.turn, 1);
}

#[test]
fn repeated_move_is_refused() {
    let mut b = Board::new();
    let m = mv(6, 0, 5, 2);
    assert!(b.do_move(&m));
    assert!(!b.do_move(&m));
    assert_eq!(b.turn, 2);
    assert_eq!(b.get(5, 2).piece, Piece::Knight);
}

#[test]
fn illegal_moves_change_nothing() {
    let mut b = Board::new();
    assert!(!b.do_move(&mv(4, 6, 4, 4)));
    assert!(!b.do_move(&mv(4, 1, 4, 4)));
    assert!(!b.do_move(&mv(4, 1, 4, 8)));
    assert!(!b.do_move(&mv(-1, 1, 4, 3)));
    assert!(!b.do_move(&mv(4, 4, 4, 5)));
    assert_eq!(b.turn, 1);
    assert!(b.prev_move.is_none());
    assert_eq!(b.get(4, 1).piece, Piece::Pawn);
    assert!(!b.can_move(&mv(4, 1, 4, 4)));
    assert!(b.can_move(&mv(4, 1, 4, 3)));
}

#[test]
fn move_exposing_king_is_refused() {
    let mut b = empty_board();
    put(&mut b, 4, 0, Piece::King, 1);
    put(&mut b, 4, 1, Piece::Bishop, 1);
    put(&mut b, 4, 7, Piece::Rook, 2);
    assert!(!b.do_move(&mv(4, 1, 3, 2)));
    assert_eq!(b.get(4, 1).piece, Piece::Bishop);
}

#[test]
fn restricted_moves_are_pseudo_moves() {
    let mut b = Board::new();
    b.do_move(&mv(4, 1, 4, 3));
    b.do_move(&mv(3, 6, 3, 4));
    for x in 0..8 {
        for y in 0..8 {
            let legal = b.get_moves(&pos(x, y), false);
            let pseudo = b.get_moves(&pos(x, y), true);
            for m in legal.iter() {
                assert!(pseudo.contains(m));
            }
        }
    }
}

#[test]
fn select_records_moves() {
    let mut b = Board::new();
    assert!(b.select(Some(&"e2")));
    assert_eq!(b.cur_pos, Some(pos(4, 1)));
    assert_eq!(dests(&b.cur_moves), vec![(4, 2), (4, 3)]);
    assert!(!b.select(Some(&"e7")));
    assert!(b.cur_pos.is_none() && b.cur_moves.is_empty());
    assert!(!b.select(Some(&"z9")));
    assert!(b.cur_pos.is_none());
    assert!(b.select(Some(&"g1")));
    assert!(b.select(None));
    assert!(b.cur_pos.is_none() && b.cur_moves.is_empty());
}

#[test]
fn next_turn_toggles() {
    let mut b = Board::new();
    b.next_turn();
    assert!(b.black_turn());
    b.next_turn();
    assert!(b.white_turn());
}

#[test]
fn test_preset_position() {
    let mut b = Board::new();
    b.test();
    assert_eq!(b.get(4, 0).piece, Piece::King);
    assert_eq!(b.get(2, 5).piece, Piece::Knight);
    assert_eq!(b.get(2, 5).player, 2);
    assert_eq!(b.get(1, 6).piece, Piece::Pawn);
    assert_eq!(b.get(0, 0).piece, Piece::Rook);
    assert_eq!(b.get(7, 0).piece, Piece::Rook);
    assert!(b.get(3, 0).is_none());
    assert!(b.get(0, 1).is_none());
    assert_eq!(b.turn, 1);
}

fn census(b: &Board) -> Vec<(i32, i32, bool)> {
    let mut v: Vec<(i32, i32, bool)> = Vec::new();
    for y in 0..8 {
        for x in 0..8 {
            let s = b.get(x, y);
            v.push((s.piece as i32, s.player, s.moved));
        }
    }
    v.sort();
    v
}

#[test]
fn randomize_keeps_the_occupants() {
    let start = Board::new();
    let mut changed = false;
    for _ in 0..20 {
        let mut b = Board::new();
        b.randomize();
        assert_eq!(census(&b), census(&start));
        assert_eq!(b.turn, 1);
        if b.grid != start.grid {
            changed = true;
        }
    }
    assert!(changed);
}

#[test]
fn glyphs_and_colours() {
    assert_eq!(square_letter(&Square::from(Piece::Queen, 1)), '♛');
    assert_eq!(square_letter(&Square::from(Piece::Knight, 2)), '♞');
    assert_eq!(square_letter(&Square::from(Piece::Empty, 0)), ' ');
    assert_eq!(player_color(1), "White");
    assert_eq!(player_color(2), "Black");
}
