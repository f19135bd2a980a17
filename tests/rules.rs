use chess_engine::{
    in_check, possible_bishop_moves, possible_king_moves, possible_knight_moves,
    possible_pawn_moves, possible_queen_moves, possible_rook_moves, Color, Coord, GameState,
    MoveError, Piece, PieceType, SquareSet,
};

fn empty_board(turn: Color) -> GameState {
    GameState {
        grid: [[None; 8]; 8],
        rows: 8,
        cols: 8,
        last_move: (None, None),
        turn,
        king_checked: false,
        checking_state: false,
    }
}

fn put(gs: &mut GameState, piece_type: PieceType, color: Color, row: usize, col: usize, has_moved: bool) -> Piece {
    let piece = Piece { piece_type, has_moved, row, col, color };
    gs.grid[row][col] = Some(piece);
    piece
}

fn coords(set: &SquareSet) -> Vec<(usize, usize)> {
    set.to_vec().iter().map(|c| (c.row, c.col)).collect()
}

fn total_moves(gs: &GameState, color: Color) -> usize {
    let mut n = 0;
    for piece in gs.piece_list() {
        if piece.color == color {
            n += gs.possible_moves(piece).to_vec().len();
        }
    }
    n
}

#[test]
fn start_position_has_twenty_moves() {
    let gs = GameState::new();
    assert_eq!(total_moves(&gs, Color::White), 20);
    assert_eq!(total_moves(&gs, Color::Black), 20);
    let mut pawn_moves = 0;
    let mut knight_moves = 0;
    for piece in gs.piece_list() {
        if piece.color == Color::White {
            let n = gs.possible_moves(piece).to_vec().len();
            match piece.piece_type {
                PieceType::Pawn => pawn_moves += n,
                PieceType::Knight => knight_moves += n,
                _ => assert_eq!(n, 0),
            }
        }
    }
    assert_eq!(pawn_moves, 16);
    assert_eq!(knight_moves, 4);
}

#[test]
fn start_position_layout() {
    let gs = GameState::default();
    assert_eq!(gs.piece_list().len(), 32);
    assert_eq!(gs.turn, Color::White);
    let king = gs.grid[7][4].unwrap();
    assert_eq!(king.piece_type, PieceType::King);
    assert_eq!(king.color, Color::White);
    assert_eq!(gs.grid[0][3].unwrap().piece_type, PieceType::Queen);
    assert_eq!(gs.grid[1][5].unwrap().piece_type, PieceType::Pawn);
    assert!(gs.grid[4][4].is_none());
    assert!(gs.has_any_legal_move(Color::White));
}

#[test]
fn pinned_bishop_cannot_move() {
    let mut gs = empty_board(Color::White);
    put(&mut gs, PieceType::King, Color::White, 7, 4, true);
    let bishop = put(&mut gs, PieceType::Bishop, Color::White, 6, 4, true);
    put(&mut gs, PieceType::Rook, Color::Black, 0, 4, true);
    put(&mut gs, PieceType::King, Color::Black, 0, 0, true);
    assert_eq!(possible_bishop_moves(&gs, &bishop).to_vec().len(), 9);
    assert!(gs.possible_moves(bishop).is_empty());
}

#[test]
fn pinned_rook_moves_along_the_pin() {
    let mut gs = empty_board(Color::White);
    put(&mut gs, PieceType::King, Color::White, 7, 4, true);
    let rook = put(&mut gs, PieceType::Rook, Color::White, 5, 4, true);
    put(&mut gs, PieceType::Rook, Color::Black, 2, 4, true);
    put(&mut gs, PieceType::King, Color::Black, 0, 0, true);
    assert_eq!(coords(&gs.possible_moves(rook)), vec![(2, 4), (3, 4), (4, 4), (6, 4)]);
    for c in gs.possible_moves(rook).to_vec() {
        let mut after = gs;
        assert_eq!(after.move_piece(5, 4, c.row, c.col), Ok(()));
        let king = after.grid[7][4].unwrap();
        assert!(!in_check(&after, Coord { row: 7, col: 4 }, &king));
    }
}

#[test]
fn blocking_piece_must_answer_check() {
    let mut gs = empty_board(Color::White);
    put(&mut gs, PieceType::King, Color::White, 7, 4, true);
    let knight = put(&mut gs, PieceType::Knight, Color::White, 7, 1, true);
    put(&mut gs, PieceType::Rook, Color::Black, 0, 4, true);
    put(&mut gs, PieceType::King, Color::Black, 0, 0, true);
    assert_eq!(coords(&gs.possible_moves(knight)), Vec::<(usize, usize)>::new());
    let knight2 = put(&mut gs, PieceType::Knight, Color::White, 6, 2, true);
    assert_eq!(coords(&gs.possible_moves(knight2)), vec![(5, 4)]);
}

#[test]
fn king_avoids_attacked_squares() {
    let mut gs = empty_board(Color::White);
    let king = put(&mut gs, PieceType::King, Color::White, 7, 4, true);
    put(&mut gs, PieceType::Rook, Color::Black, 0, 3, true);
    put(&mut gs, PieceType::King, Color::Black, 0, 7, true);
    let moves = gs.possible_moves(king);
    assert_eq!(coords(&moves), vec![(6, 4), (6, 5), (7, 5)]);
    for c in moves.to_vec() {
        assert!(!in_check(&gs, c, &king));
    }
    assert!(in_check(&gs, Coord { row: 6, col: 3 }, &king));
    assert!(in_check(&gs, Coord { row: 7, col: 3 }, &king));
    assert!(!moves.contains(&Coord { row: 7, col: 4 }));
}

#[test]
fn king_in_check_must_leave_the_line() {
    let mut gs = empty_board(Color::White);
    let king = put(&mut gs, PieceType::King, Color::White, 4, 4, true);
    put(&mut gs, PieceType::Queen, Color::Black, 4, 0, true);
    put(&mut gs, PieceType::King, Color::Black, 0, 7, true);
    assert!(in_check(&gs, Coord { row: 4, col: 4 }, &king));
    let moves = gs.possible_moves(king);
    assert!(!moves.contains(&Coord { row: 4, col: 3 }));
    assert!(moves.contains(&Coord { row: 3, col: 4 }));
    assert!(moves.contains(&Coord { row: 5, col: 4 }));
}

#[test]
fn kingside_castling_needs_clear_path() {
    let mut gs = GameState::new();
    let king = gs.grid[7][4].unwrap();
    assert!(!gs.possible_moves(king).contains(&Coord { row: 7, col: 6 }));
    assert_eq!(gs.move_piece(7, 6, 5, 5), Ok(()));
    assert_eq!(gs.move_piece(1, 0, 2, 0), Ok(()));
    let king = gs.grid[7][4].unwrap();
    assert!(!gs.possible_moves(king).contains(&Coord { row: 7, col: 6 }));
    assert_eq!(gs.move_piece(6, 6, 5, 6), Ok(()));
    assert_eq!(gs.move_piece(1, 1, 2, 1), Ok(()));
    assert_eq!(gs.move_piece(7, 5, 6, 6), Ok(()));
    assert_eq!(gs.move_piece(1, 2, 2, 2), Ok(()));
    let king = gs.grid[7][4].unwrap();
    assert!(gs.possible_moves(king).contains(&Coord { row: 7, col: 6 }));
    assert_eq!(gs.move_piece(7, 4, 7, 6), Ok(()));
    let king = gs.grid[7][6].unwrap();
    let rook = gs.grid[7][5].unwrap();
    assert_eq!(king.piece_type, PieceType::King);
    assert_eq!(rook.piece_type, PieceType::Rook);
    assert_eq!((rook.row, rook.col), (7, 5));
    assert!(!rook.has_moved);
    assert!(gs.grid[7][7].is_none());
    assert!(gs.grid[7][4].is_none());
    assert_eq!(gs.turn, Color::Black);
}

#[test]
fn queenside_castling_moves_rook() {
    let mut gs = empty_board(Color::Black);
    put(&mut gs, PieceType::King, Color::Black, 0, 4, false);
    put(&mut gs, PieceType::Rook, Color::Black, 0, 0, false);
    put(&mut gs, PieceType::King, Color::White, 7, 7, true);
    let king = gs.grid[0][4].unwrap();
    assert!(gs.possible_moves(king).contains(&Coord { row: 0, col: 2 }));
    assert_eq!(gs.move_piece(0, 4, 0, 2), Ok(()));
    assert_eq!(gs.grid[0][3].unwrap().piece_type, PieceType::Rook);
    assert!(gs.grid[0][0].is_none());
    assert_eq!(gs.grid[0][2].unwrap().piece_type, PieceType::King);
}

#[test]
fn moved_king_cannot_castle_after_returning() {
    let mut gs = empty_board(Color::White);
    put(&mut gs, PieceType::King, Color::White, 7, 4, false);
    put(&mut gs, PieceType::Rook, Color::White, 7, 7, false);
    put(&mut gs, PieceType::King, Color::Black, 0, 0, true);
    let king = gs.grid[7][4].unwrap();
    assert!(gs.possible_moves(king).contains(&Coord { row: 7, col: 6 }));
    assert_eq!(gs.move_piece(7, 4, 6, 4), Ok(()));
    assert_eq!(gs.move_piece(0, 0, 0, 1), Ok(()));
    assert_eq!(gs.move_piece(6, 4, 7, 4), Ok(()));
    assert_eq!(gs.move_piece(0, 1, 0, 0), Ok(()));
    let king = gs.grid[7][4].unwrap();
    assert!(king.has_moved);
    assert!(!gs.possible_moves(king).contains(&Coord { row: 7, col: 6 }));
    assert_eq!(gs.move_piece(7, 4, 7, 6), Err(MoveError::IllegalDestination));
}

#[test]
fn moved_rook_cannot_castle_after_returning() {
    let mut gs = empty_board(Color::White);
    put(&mut gs, PieceType::King, Color::White, 7, 4, false);
    put(&mut gs, PieceType::Rook, Color::White, 7, 7, false);
    put(&mut gs, PieceType::King, Color::Black, 0, 0, true);
    assert_eq!(gs.move_piece(7, 7, 6, 7), Ok(()));
    assert_eq!(gs.move_piece(0, 0, 0, 1), Ok(()));
    assert_eq!(gs.move_piece(6, 7, 7, 7), Ok(()));
    assert_eq!(gs.move_piece(0, 1, 0, 0), Ok(()));
    let king = gs.grid[7][4].unwrap();
    assert!(!king.has_moved);
    assert!(!possible_king_moves(&gs, &king).contains(&Coord { row: 7, col: 6 }));
}

#[test]
fn en_passant_only_right_after_double_step() {
    let mut gs = GameState::new();
    assert_eq!(gs.move_piece(6, 4, 4, 4), Ok(()));
    assert_eq!(gs.move_piece(1, 0, 2, 0), Ok(()));
    assert_eq!(gs.move_piece(4, 4, 3, 4), Ok(()));
    assert_eq!(gs.move_piece(1, 3, 3, 3), Ok(()));
    let pawn = gs.grid[3][4].unwrap();
    let moves = gs.possible_moves(pawn);
    assert_eq!(coords(&moves), vec![(2, 3), (2, 4)]);
    let mut taken = gs;
    assert_eq!(taken.move_piece(3, 4, 2, 3), Ok(()));
    assert!(taken.grid[3][3].is_none());
    assert_eq!(taken.grid[2][3].unwrap().color, Color::White);
    assert_eq!(taken.piece_list().len(), 31);
    assert_eq!(gs.move_piece(6, 7, 5, 7), Ok(()));
    assert_eq!(gs.move_piece(2, 0, 3, 0), Ok(()));
    let pawn = gs.grid[3][4].unwrap();
    assert_eq!(coords(&gs.possible_moves(pawn)), vec![(2, 4)]);
    assert_eq!(gs.move_piece(3, 4, 2, 3), Err(MoveError::IllegalDestination));
}

#[test]
fn single_step_beside_pawn_is_not_en_passant() {
    let mut gs = empty_board(Color::White);
    let pawn = put(&mut gs, PieceType::Pawn, Color::White, 3, 4, true);
    put(&mut gs, PieceType::Pawn, Color::Black, 3, 5, true);
    gs.last_move = (gs.grid[3][5], Some(Coord { row: 2, col: 5 }));
    assert_eq!(coords(&possible_pawn_moves(&gs, &pawn)), vec![(2, 4)]);
}

#[test]
fn pawn_promotes_to_queen() {
    let mut gs = empty_board(Color::White);
    put(&mut gs, PieceType::Pawn, Color::White, 1, 0, true);
    put(&mut gs, PieceType::King, Color::White, 7, 7, true);
    put(&mut gs, PieceType::King, Color::Black, 0, 7, true);
    assert_eq!(gs.move_piece(1, 0, 0, 0), Ok(()));
    let queen = gs.grid[0][0].unwrap();
    assert_eq!(queen.piece_type, PieceType::Queen);
    assert_eq!(queen.color, Color::White);
    assert!(queen.has_moved);
    let moves = gs.legal_moves(Coord { row: 0, col: 0 });
    assert!(moves.contains(&Coord { row: 7, col: 0 }));
    assert!(moves.contains(&Coord { row: 6, col: 6 }));
    assert!(moves.contains(&Coord { row: 0, col: 6 }));
    assert_eq!(moves.to_vec().len(), 20);
    assert_eq!(coords(&moves), coords(&possible_queen_moves(&gs, &queen)));
}

#[test]
fn black_pawn_promotes_on_row_seven() {
    let mut gs = empty_board(Color::Black);
    put(&mut gs, PieceType::Pawn, Color::Black, 6, 3, true);
    put(&mut gs, PieceType::Knight, Color::White, 7, 2, true);
    put(&mut gs, PieceType::King, Color::White, 0, 0, true);
    put(&mut gs, PieceType::King, Color::Black, 2, 7, true);
    assert_eq!(gs.move_piece(6, 3, 7, 2), Ok(()));
    assert_eq!(gs.grid[7][2].unwrap().piece_type, PieceType::Queen);
    assert_eq!(gs.grid[7][2].unwrap().color, Color::Black);
}

#[test]
fn illegal_move_leaves_state_unchanged() {
    let mut gs = GameState::new();
    let before = gs;
    assert_eq!(gs.move_piece(6, 4, 3, 4), Err(MoveError::IllegalDestination));
    assert_eq!(gs.grid, before.grid);
    assert_eq!(gs.turn, before.turn);
    assert_eq!(gs.last_move, before.last_move);
    assert_eq!(gs.move_piece(7, 0, 6, 0), Err(MoveError::IllegalDestination));
    assert_eq!(gs.move_piece(7, 4, 9, 9), Err(MoveError::IllegalDestination));
    assert_eq!(gs.grid, before.grid);
}

#[test]
fn move_from_empty_square_is_refused() {
    let mut gs = GameState::new();
    let before = gs;
    assert_eq!(gs.move_piece(4, 4, 3, 4), Err(MoveError::NoPieceAtOrigin));
    assert_eq!(gs.move_piece(8, 0, 3, 4), Err(MoveError::NoPieceAtOrigin));
    assert_eq!(gs.grid, before.grid);
    assert!(gs.legal_moves(Coord { row: 4, col: 4 }).is_empty());
}

#[test]
fn play_move_checks_turn() {
    let mut gs = GameState::new();
    assert_eq!(gs.play_move(1, 4, 3, 4), Err(MoveError::WrongTurn));
    assert_eq!(gs.turn, Color::White);
    assert_eq!(gs.play_move(6, 4, 4, 4), Ok(()));
    assert_eq!(gs.turn, Color::Black);
    assert_eq!(gs.play_move(4, 4, 3, 4), Err(MoveError::WrongTurn));
    assert_eq!(gs.play_move(1, 4, 3, 4), Ok(()));
    assert_eq!(gs.play_move(5, 5, 4, 5), Err(MoveError::NoPieceAtOrigin));
    assert_eq!(gs.play_move(6, 3, 3, 3), Err(MoveError::IllegalDestination));
}

#[test]
fn checkmate_leaves_no_legal_move() {
    let mut gs = empty_board(Color::Black);
    let king = put(&mut gs, PieceType::King, Color::Black, 0, 7, true);
    put(&mut gs, PieceType::Rook, Color::White, 0, 0, true);
    put(&mut gs, PieceType::Rook, Color::White, 1, 0, true);
    put(&mut gs, PieceType::King, Color::White, 7, 4, true);
    assert!(in_check(&gs, Coord { row: 0, col: 7 }, &king));
    assert!(!gs.has_any_legal_move(Color::Black));
    assert!(gs.has_any_legal_move(Color::White));
}

#[test]
fn stalemate_leaves_no_legal_move() {
    let mut gs = empty_board(Color::Black);
    let king = put(&mut gs, PieceType::King, Color::Black, 0, 0, true);
    put(&mut gs, PieceType::Queen, Color::White, 2, 1, true);
    put(&mut gs, PieceType::King, Color::White, 7, 7, true);
    assert!(!in_check(&gs, Coord { row: 0, col: 0 }, &king));
    assert!(!gs.has_any_legal_move(Color::Black));
}

#[test]
fn blockable_check_is_not_mate() {
    let mut gs = empty_board(Color::Black);
    let king = put(&mut gs, PieceType::King, Color::Black, 0, 7, true);
    put(&mut gs, PieceType::Rook, Color::White, 0, 0, true);
    put(&mut gs, PieceType::Rook, Color::White, 1, 0, true);
    put(&mut gs, PieceType::Bishop, Color::Black, 2, 5, true);
    put(&mut gs, PieceType::King, Color::White, 7, 4, true);
    assert!(in_check(&gs, Coord { row: 0, col: 7 }, &king));
    assert!(gs.has_any_legal_move(Color::Black));
    let bishop = gs.grid[2][5].unwrap();
    assert_eq!(coords(&gs.possible_moves(bishop)), vec![(0, 3)]);
}

#[test]
fn knight_moves_from_corner_and_centre() {
    let mut gs = empty_board(Color::White);
    let corner = put(&mut gs, PieceType::Knight, Color::White, 7, 0, true);
    assert_eq!(coords(&possible_knight_moves(&gs, &corner)), vec![(5, 1), (6, 2)]);
    let centre = put(&mut gs, PieceType::Knight, Color::White, 4, 4, true);
    put(&mut gs, PieceType::Pawn, Color::White, 2, 3, true);
    put(&mut gs, PieceType::Pawn, Color::Black, 2, 5, true);
    assert_eq!(
        coords(&possible_knight_moves(&gs, &centre)),
        vec![(2, 5), (3, 2), (3, 6), (5, 2), (5, 6), (6, 3), (6, 5)]
    );
}

#[test]
fn sliding_pieces_stop_at_blockers() {
    let mut gs = empty_board(Color::White);
    let rook = put(&mut gs, PieceType::Rook, Color::White, 4, 4, true);
    put(&mut gs, PieceType::Pawn, Color::White, 4, 6, true);
    put(&mut gs, PieceType::Pawn, Color::Black, 2, 4, true);
    assert_eq!(
        coords(&possible_rook_moves(&gs, &rook)),
        vec![(2, 4), (3, 4), (4, 0), (4, 1), (4, 2), (4, 3), (4, 5), (5, 4), (6, 4), (7, 4)]
    );
    let bishop = put(&mut gs, PieceType::Bishop, Color::White, 7, 2, true);
    put(&mut gs, PieceType::Knight, Color::Black, 5, 4, true);
    assert_eq!(coords(&possible_bishop_moves(&gs, &bishop)), vec![(5, 0), (5, 4), (6, 1), (6, 3)]);
    let queen = put(&mut gs, PieceType::Queen, Color::Black, 0, 0, true);
    assert_eq!(possible_queen_moves(&gs, &queen).to_vec().len(), 18);
}

#[test]
fn pawn_moves_forward_and_captures() {
    let mut gs = empty_board(Color::White);
    let pawn = put(&mut gs, PieceType::Pawn, Color::White, 6, 0, false);
    assert_eq!(coords(&possible_pawn_moves(&gs, &pawn)), vec![(4, 0), (5, 0)]);
    put(&mut gs, PieceType::Knight, Color::Black, 5, 1, true);
    put(&mut gs, PieceType::Knight, Color::Black, 4, 0, true);
    assert_eq!(coords(&possible_pawn_moves(&gs, &pawn)), vec![(5, 0), (5, 1)]);
    put(&mut gs, PieceType::Knight, Color::Black, 5, 0, true);
    assert_eq!(coords(&possible_pawn_moves(&gs, &pawn)), vec![(5, 1)]);
    let black = put(&mut gs, PieceType::Pawn, Color::Black, 1, 7, false);
    assert_eq!(coords(&possible_pawn_moves(&gs, &black)), vec![(2, 7), (3, 7)]);
}

#[test]
fn in_bounds_and_filter() {
    let gs = GameState::new();
    assert!(gs.in_bounds(7, 7));
    assert!(!gs.in_bounds(8, 0));
    assert!(!gs.in_bounds(0, 8));
    let knight = gs.grid[7][1].unwrap();
    assert!(gs.valid_move(knight, 5, 2));
    assert!(!gs.valid_move(knight, 6, 3));
    assert!(!gs.valid_move(knight, 9, 3));
    let mut set = SquareSet::new();
    gs.insert_if_valid(knight, 5, 0, &mut set);
    gs.insert_if_valid(knight, 6, 3, &mut set);
    assert_eq!(coords(&set), vec![(5, 0)]);
}

#[test]
fn square_set_operations() {
    let mut a = SquareSet::new();
    assert!(a.is_empty());
    a.insert(3, 4);
    a.insert(0, 7);
    a.insert(3, 4);
    let mut b = SquareSet::new();
    b.insert(7, 0);
    a.extend(&b);
    assert!(!a.is_empty());
    assert!(a.contains(&Coord { row: 3, col: 4 }));
    assert!(!a.contains(&Coord { row: 4, col: 3 }));
    assert!(!a.contains(&Coord { row: 30, col: 4 }));
    assert_eq!(coords(&a), vec![(0, 7), (3, 4), (7, 0)]);
}

#[test]
fn color_opposite() {
    assert_eq!(Color::White.opposite(), Color::Black);
    assert_eq!(Color::Black.opposite(), Color::White);
}

#[test]
fn en_passant_needs_the_recorded_pawn_beside() {
    let mut gs = empty_board(Color::White);
    let pawn = put(&mut gs, PieceType::Pawn, Color::White, 3, 4, true);
    let recorded = Piece { piece_type: PieceType::Pawn, has_moved: true, row: 3, col: 3, color: Color::Black };
    gs.last_move = (Some(recorded), Some(Coord { row: 1, col: 3 }));
    assert_eq!(coords(&possible_pawn_moves(&gs, &pawn)), vec![(2, 4)]);
    put(&mut gs, PieceType::King, Color::White, 3, 3, true);
    assert_eq!(coords(&possible_pawn_moves(&gs, &pawn)), vec![(2, 4)]);
    gs.grid[3][3] = Some(recorded);
    assert_eq!(coords(&possible_pawn_moves(&gs, &pawn)), vec![(2, 3), (2, 4)]);
}
