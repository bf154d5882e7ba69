use chess_engine::{
    get_valid_movements_positions, move_piece, Board, BoardMovement, BoardPosition, ChessCell,
    ChessPiece, MovementError, MovementSuccess, PieceColors, PieceTypes,
};

fn sq(text: &str) -> BoardPosition {
    BoardPosition::from_algebraic(text).unwrap()
}

fn piece(kind: PieceTypes, square: &str, color: PieceColors) -> ChessPiece {
    ChessPiece::new(kind, sq(square), color)
}

fn squares(names: &[&str]) -> Vec<BoardPosition> {
    names.iter().map(|name| sq(name)).collect()
}

fn board_with(pieces: &[ChessPiece]) -> Board {
    let mut cells: Vec<Vec<ChessCell>> = (0..8)
        .map(|_| (0..8).map(|_| ChessCell::none()).collect())
        .collect();
    let mut white = Vec::new();
    let mut black = Vec::new();
    let mut white_king = sq("a1");
    let mut black_king = sq("a1");
    for placed in pieces {
        let (row, column) = placed.position();
        cells[row][column] = ChessCell::some(*placed);
        match placed.color() {
            PieceColors::White => white.push(*placed),
            PieceColors::Black => black.push(*placed),
        }
        if *placed.kind() == PieceTypes::King {
            match placed.color() {
                PieceColors::White => white_king = *placed.board_position(),
                PieceColors::Black => black_king = *placed.board_position(),
            }
        }
    }
    Board::try_new(
        cells, black, white, white_king, black_king, None, None, None, None,
    )
    .unwrap()
}

fn play(board: &mut Board, from: &str, to: &str) -> Result<MovementSuccess, MovementError> {
    let moving = board.get_piece(&sq(from)).unwrap();
    move_piece(
        BoardMovement {
            piece: moving,
            destination: sq(to),
        },
        board,
    )
}

#[test]
fn attacks_follow_the_resolved_paths() {
    let board = board_with(&[
        piece(PieceTypes::King, "a1", PieceColors::White),
        piece(PieceTypes::King, "h8", PieceColors::Black),
        piece(PieceTypes::Rook, "d4", PieceColors::Black),
        piece(PieceTypes::Pawn, "d2", PieceColors::White),
    ]);
    assert!(board.position_in_check(&sq("d3"), &PieceColors::White));
    assert!(board.position_in_check(&sq("d2"), &PieceColors::White));
    // Behind the pawn the rook does not reach.
    assert!(!board.position_in_check(&sq("d1"), &PieceColors::White));
    assert!(board.position_in_check(&sq("a4"), &PieceColors::White));
    assert!(!board.position_in_check(&sq("e5"), &PieceColors::White));
    // The white pieces attack what the black side asks about.
    assert!(board.position_in_check(&sq("b2"), &PieceColors::Black));
    assert!(board.position_in_check(&sq("d3"), &PieceColors::Black));
    assert!(!board.position_in_check(&sq("d4"), &PieceColors::White));
}

#[test]
fn check_is_recorded_with_the_attacking_path() {
    let mut board = board_with(&[
        piece(PieceTypes::King, "e1", PieceColors::White),
        piece(PieceTypes::King, "h8", PieceColors::Black),
        piece(PieceTypes::Rook, "a8", PieceColors::Black),
        piece(PieceTypes::Rook, "b2", PieceColors::White),
    ]);
    assert_eq!(play(&mut board, "a8", "e8"), Ok(MovementSuccess::NormalMovement));
    assert!(board.is_in_check(&PieceColors::White));
    assert!(!board.is_in_check(&PieceColors::Black));
    assert!(board.color_in_check(&PieceColors::White));
    assert_eq!(
        board.get_check_positions(),
        Some(squares(&["e7", "e6", "e5", "e4", "e3", "e2", "e1"]))
    );
    let recorded = board.get_check_state().clone().unwrap();
    assert_eq!(recorded.color_in_check, PieceColors::White);
    assert_eq!(recorded.check_paths.len(), 1);
    assert!(!board.is_checkmate(&PieceColors::White));
    assert!(!board.is_stalemate(&PieceColors::White));

    // The rook may only go onto the attacking path.
    let rook = board.get_piece(&sq("b2")).unwrap();
    assert_eq!(get_valid_movements_positions(&rook, &board), squares(&["e2"]));
    let before = board.clone();
    assert_eq!(
        play(&mut board, "b2", "b3"),
        Err(MovementError::MoveDoesNotResolveCheck)
    );
    assert_eq!(board, before);
    // The king may not stay on the attacking path.
    assert_eq!(
        play(&mut board, "e1", "e2"),
        Err(MovementError::MoveWouldCauseSelfCheck)
    );
    assert_eq!(board, before);
    // Blocking the path ends the check.
    assert_eq!(play(&mut board, "b2", "e2"), Ok(MovementSuccess::NormalMovement));
    assert!(!board.is_in_check(&PieceColors::White));
    assert!(board.get_check_state().is_none());
}

#[test]
fn king_may_leave_the_attacking_path() {
    let mut board = board_with(&[
        piece(PieceTypes::King, "e1", PieceColors::White),
        piece(PieceTypes::King, "h8", PieceColors::Black),
        piece(PieceTypes::Rook, "a8", PieceColors::Black),
    ]);
    assert_eq!(play(&mut board, "a8", "e8"), Ok(MovementSuccess::NormalMovement));
    let king = board.get_piece(&sq("e1")).unwrap();
    assert_eq!(
        get_valid_movements_positions(&king, &board),
        squares(&["d2", "f2", "d1", "f1"])
    );
    assert_eq!(play(&mut board, "e1", "d2"), Ok(MovementSuccess::NormalMovement));
    assert!(!board.is_in_check(&PieceColors::White));
}

#[test]
fn move_that_uncovers_the_king_is_refused() {
    let mut board = board_with(&[
        piece(PieceTypes::King, "e1", PieceColors::White),
        piece(PieceTypes::Bishop, "e2", PieceColors::White),
        piece(PieceTypes::King, "h8", PieceColors::Black),
        piece(PieceTypes::Rook, "e8", PieceColors::Black),
    ]);
    let before = board.clone();
    assert_eq!(
        play(&mut board, "e2", "d3"),
        Err(MovementError::MoveWouldCauseSelfCheck)
    );
    assert_eq!(board, before);
}

#[test]
fn a_king_cannot_be_captured() {
    let mut board = board_with(&[
        piece(PieceTypes::King, "e1", PieceColors::White),
        piece(PieceTypes::King, "h8", PieceColors::Black),
        piece(PieceTypes::Rook, "e8", PieceColors::Black),
    ]);
    let before = board.clone();
    assert_eq!(
        play(&mut board, "e8", "e1"),
        Err(MovementError::DestinationDoesNotFollowMovementPattern)
    );
    assert_eq!(board, before);
}

#[test]
fn back_rank_mate_is_checkmate() {
    let mut board = board_with(&[
        piece(PieceTypes::King, "g1", PieceColors::White),
        piece(PieceTypes::Knight, "h1", PieceColors::White),
        piece(PieceTypes::Pawn, "f2", PieceColors::White),
        piece(PieceTypes::Pawn, "g2", PieceColors::White),
        piece(PieceTypes::Pawn, "h2", PieceColors::White),
        piece(PieceTypes::King, "h8", PieceColors::Black),
        piece(PieceTypes::Rook, "a8", PieceColors::Black),
    ]);
    assert_eq!(
        play(&mut board, "a8", "a1"),
        Ok(MovementSuccess::CheckmateMovement)
    );
    assert!(board.is_checkmate(&PieceColors::White));
    assert!(!board.is_stalemate(&PieceColors::White));
    let king = board.get_piece(&sq("g1")).unwrap();
    assert_eq!(
        get_valid_movements_positions(&king, &board),
        Vec::<BoardPosition>::new()
    );
}

#[test]
fn square_behind_the_king_is_found_attacked_when_the_king_goes_there() {
    // The rook's path ends on the king's square, so h1 behind the king does
    // not count as attacked while the king stands on g1; the move to h1 is
    // refused once it has been tried on the board.
    let mut board = board_with(&[
        piece(PieceTypes::King, "g1", PieceColors::White),
        piece(PieceTypes::Pawn, "f2", PieceColors::White),
        piece(PieceTypes::Pawn, "g2", PieceColors::White),
        piece(PieceTypes::Pawn, "h2", PieceColors::White),
        piece(PieceTypes::King, "h8", PieceColors::Black),
        piece(PieceTypes::Rook, "a8", PieceColors::Black),
    ]);
    assert_eq!(play(&mut board, "a8", "a1"), Ok(MovementSuccess::NormalMovement));
    assert!(board.is_in_check(&PieceColors::White));
    assert!(!board.is_checkmate(&PieceColors::White));
    let king = board.get_piece(&sq("g1")).unwrap();
    assert_eq!(get_valid_movements_positions(&king, &board), squares(&["h1"]));
    let before = board.clone();
    assert_eq!(
        play(&mut board, "g1", "h1"),
        Err(MovementError::MoveWouldCauseSelfCheck)
    );
    assert_eq!(board, before);
}

#[test]
fn check_that_can_be_blocked_is_no_checkmate() {
    let mut board = board_with(&[
        piece(PieceTypes::King, "g1", PieceColors::White),
        piece(PieceTypes::Pawn, "f2", PieceColors::White),
        piece(PieceTypes::Pawn, "g2", PieceColors::White),
        piece(PieceTypes::Pawn, "h2", PieceColors::White),
        piece(PieceTypes::Rook, "d7", PieceColors::White),
        piece(PieceTypes::King, "h8", PieceColors::Black),
        piece(PieceTypes::Rook, "a8", PieceColors::Black),
    ]);
    assert_eq!(play(&mut board, "a8", "a1"), Ok(MovementSuccess::NormalMovement));
    assert!(board.is_in_check(&PieceColors::White));
    assert!(!board.is_checkmate(&PieceColors::White));
    assert_eq!(play(&mut board, "d7", "d1"), Ok(MovementSuccess::NormalMovement));
    assert!(!board.is_in_check(&PieceColors::White));
}

#[test]
fn double_check_cannot_be_blocked() {
    // The knight gives check from f3 and uncovers the rook on e8: the bishop
    // on c4 could block the rook's path on e2, but not the knight's.
    let mut board = board_with(&[
        piece(PieceTypes::King, "e1", PieceColors::White),
        piece(PieceTypes::Bishop, "c4", PieceColors::White),
        piece(PieceTypes::Pawn, "d2", PieceColors::White),
        piece(PieceTypes::Queen, "d1", PieceColors::White),
        piece(PieceTypes::Rook, "f1", PieceColors::White),
        piece(PieceTypes::Pawn, "f2", PieceColors::White),
        piece(PieceTypes::King, "h8", PieceColors::Black),
        piece(PieceTypes::Rook, "e8", PieceColors::Black),
        piece(PieceTypes::Knight, "e5", PieceColors::Black),
    ]);
    assert_eq!(
        play(&mut board, "e5", "f3"),
        Ok(MovementSuccess::CheckmateMovement)
    );
    let recorded = board.get_check_state().clone().unwrap();
    assert_eq!(recorded.color_in_check, PieceColors::White);
    assert_eq!(recorded.check_paths.len(), 2);
    assert!(board.is_checkmate(&PieceColors::White));
    // The bishop reaches the rook's path, which is not enough.
    let bishop = board.get_piece(&sq("c4")).unwrap();
    assert_eq!(
        get_valid_movements_positions(&bishop, &board),
        squares(&["e6", "e2"])
    );
    let before = board.clone();
    assert_eq!(
        play(&mut board, "c4", "e2"),
        Err(MovementError::MoveWouldCauseSelfCheck)
    );
    assert_eq!(board, before);
}

#[test]
fn side_without_moves_and_without_check_is_stalemated() {
    // The black king on a8 has no square left, and Black has nothing else.
    let mut board = board_with(&[
        piece(PieceTypes::King, "c7", PieceColors::White),
        piece(PieceTypes::Queen, "b1", PieceColors::White),
        piece(PieceTypes::King, "a8", PieceColors::Black),
    ]);
    assert!(!board.is_stalemate(&PieceColors::Black));
    assert_eq!(
        play(&mut board, "b1", "b6"),
        Ok(MovementSuccess::StalemateMovement)
    );
    assert!(board.is_stalemate(&PieceColors::Black));
    assert!(!board.is_checkmate(&PieceColors::Black));
    assert!(!board.is_stalemate(&PieceColors::White));
    assert!(!board.can_any_piece_move(&PieceColors::Black));
    assert!(board.can_any_piece_move(&PieceColors::White));
}

#[test]
fn en_passant_is_only_open_right_after_the_double_step() {
    let mut board = board_with(&[
        piece(PieceTypes::King, "h1", PieceColors::White),
        piece(PieceTypes::Pawn, "e2", PieceColors::White),
        piece(PieceTypes::King, "a8", PieceColors::Black),
        piece(PieceTypes::Pawn, "d4", PieceColors::Black),
    ]);
    assert_eq!(play(&mut board, "e2", "e4"), Ok(MovementSuccess::NormalMovement));
    assert_eq!(board.get_en_passant_position(), Some(sq("e4")));
    let pawn = board.get_piece(&sq("d4")).unwrap();
    assert_eq!(board.get_en_passant_destination(&pawn), Some(sq("e3")));
    assert_eq!(
        get_valid_movements_positions(&pawn, &board),
        squares(&["d3", "e3"])
    );
    // Another move is made first: the chance is gone.
    assert_eq!(play(&mut board, "a8", "a7"), Ok(MovementSuccess::NormalMovement));
    assert_eq!(board.get_en_passant_position(), None);
    assert_eq!(board.get_en_passant_destination(&pawn), None);
    let before = board.clone();
    assert_eq!(
        play(&mut board, "d4", "e3"),
        Err(MovementError::DestinationDoesNotFollowMovementPattern)
    );
    assert_eq!(board, before);
}

#[test]
fn single_step_of_a_pawn_records_nothing_to_take() {
    let mut board = board_with(&[
        piece(PieceTypes::King, "h1", PieceColors::White),
        piece(PieceTypes::Pawn, "e2", PieceColors::White),
        piece(PieceTypes::King, "a8", PieceColors::Black),
        piece(PieceTypes::Pawn, "d7", PieceColors::Black),
    ]);
    assert_eq!(play(&mut board, "d7", "d5"), Ok(MovementSuccess::NormalMovement));
    assert_eq!(board.get_en_passant_position(), Some(sq("d5")));
    assert_eq!(play(&mut board, "e2", "e3"), Ok(MovementSuccess::NormalMovement));
    assert_eq!(board.get_en_passant_position(), None);
}

#[test]
fn boards_stay_well_formed_through_a_game() {
    let mut board = chess_engine::get_starting_board();
    let moves = [
        ("e2", "e4"),
        ("d7", "d5"),
        ("e4", "d5"),
        ("d8", "d5"),
        ("b1", "c3"),
        ("d5", "e5"),
        ("f1", "e2"),
        ("c8", "g4"),
        ("g1", "f3"),
        ("g4", "f3"),
        ("g2", "f3"),
    ];
    for (from, to) in moves {
        let result = play(&mut board, from, to);
        assert!(result.is_ok(), "{}{}: {:?}", from, to, result);
        assert!(board.is_well_formed());
    }
    assert_eq!(board.get_pieces_from(&PieceColors::White).len(), 14);
    assert_eq!(board.get_pieces_from(&PieceColors::Black).len(), 14);
    let copy = board.duplicate();
    assert_eq!(copy, board);
}
