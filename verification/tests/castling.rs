use chess_engine::{
    check_castle_left, check_castle_right, get_starting_board, is_king_on_starting_position,
    move_piece, Board, BoardMovement, BoardPosition, CastlingState, ChessCell, ChessPiece,
    MovementError, MovementSuccess, PieceColors, PieceTypes,
};

fn sq(text: &str) -> BoardPosition {
    BoardPosition::from_algebraic(text).unwrap()
}

fn piece(kind: PieceTypes, square: &str, color: PieceColors) -> ChessPiece {
    ChessPiece::new(kind, sq(square), color)
}

fn both_rights() -> Option<CastlingState> {
    Some(CastlingState {
        can_use_left_rook: true,
        can_use_right_rook: true,
    })
}

fn board_with(
    pieces: &[ChessPiece],
    white_rights: Option<CastlingState>,
    black_rights: Option<CastlingState>,
) -> Board {
    let mut cells: Vec<Vec<ChessCell>> = (0..8)
        .map(|_| (0..8).map(|_| ChessCell::none()).collect())
        .collect();
    let mut white = Vec::new();
    let mut black = Vec::new();
    let mut white_king = sq("a1");
    let mut black_king = sq("a1");
    for placed in pieces {
        let (row, column) = placed.position();
        cells[row][column] = ChessCell::some(*placed);
        match placed.color() {
            PieceColors::White => white.push(*placed),
            PieceColors::Black => black.push(*placed),
        }
        if *placed.kind() == PieceTypes::King {
            match placed.color() {
                PieceColors::White => white_king = *placed.board_position(),
                PieceColors::Black => black_king = *placed.board_position(),
            }
        }
    }
    Board::try_new(
        cells,
        black,
        white,
        white_king,
        black_king,
        None,
        None,
        white_rights,
        black_rights,
    )
    .unwrap()
}

fn kings_and_rooks() -> Vec<ChessPiece> {
    vec![
        piece(PieceTypes::King, "e1", PieceColors::White),
        piece(PieceTypes::Rook, "a1", PieceColors::White),
        piece(PieceTypes::Rook, "h1", PieceColors::White),
        piece(PieceTypes::King, "e8", PieceColors::Black),
        piece(PieceTypes::Rook, "a8", PieceColors::Black),
        piece(PieceTypes::Rook, "h8", PieceColors::Black),
    ]
}

fn play(board: &mut Board, from: &str, to: &str) -> Result<MovementSuccess, MovementError> {
    let moving = board.get_piece(&sq(from)).unwrap();
    move_piece(
        BoardMovement {
            piece: moving,
            destination: sq(to),
        },
        board,
    )
}

#[test]
fn castling_is_asked_for_by_a_hop_of_two_files() {
    assert!(check_castle_left(&sq("e1"), &sq("c1")));
    assert!(!check_castle_left(&sq("e1"), &sq("g1")));
    assert!(!check_castle_left(&sq("e1"), &sq("d1")));
    assert!(!check_castle_left(&sq("e1"), &sq("c2")));
    assert!(!check_castle_left(&sq("b1"), &sq("a1")));
    assert!(check_castle_right(&sq("e8"), &sq("g8")));
    assert!(!check_castle_right(&sq("e8"), &sq("c8")));
    assert!(!check_castle_right(&sq("e8"), &sq("f8")));
    assert!(!check_castle_right(&sq("g1"), &sq("h1")));
}

#[test]
fn king_is_at_home_on_e1_or_e8() {
    assert!(is_king_on_starting_position(&piece(
        PieceTypes::King,
        "e1",
        PieceColors::White
    )));
    assert!(is_king_on_starting_position(&piece(
        PieceTypes::King,
        "e8",
        PieceColors::Black
    )));
    assert!(!is_king_on_starting_position(&piece(
        PieceTypes::King,
        "e8",
        PieceColors::White
    )));
    assert!(!is_king_on_starting_position(&piece(
        PieceTypes::King,
        "d1",
        PieceColors::White
    )));
    assert!(!is_king_on_starting_position(&piece(
        PieceTypes::Queen,
        "e1",
        PieceColors::White
    )));
}

#[test]
fn castling_right_moves_king_and_rook() {
    let mut board = board_with(&kings_and_rooks(), both_rights(), both_rights());
    assert_eq!(play(&mut board, "e1", "g1"), Ok(MovementSuccess::NormalMovement));
    assert_eq!(
        board.get_piece(&sq("g1")),
        Some(piece(PieceTypes::King, "g1", PieceColors::White))
    );
    assert_eq!(
        board.get_piece(&sq("f1")),
        Some(piece(PieceTypes::Rook, "f1", PieceColors::White))
    );
    assert_eq!(board.get_piece(&sq("e1")), None);
    assert_eq!(board.get_piece(&sq("h1")), None);
    assert_eq!(board.get_king_position(&PieceColors::White), sq("g1"));
    assert_eq!(*board.get_castling_state(&PieceColors::White), None);
    assert_eq!(*board.get_castling_state(&PieceColors::Black), both_rights());
    assert_eq!(board.get_pieces_from(&PieceColors::White).len(), 3);
    assert!(board.is_well_formed());
}

#[test]
fn castling_left_moves_king_and_rook() {
    let mut board = board_with(&kings_and_rooks(), both_rights(), both_rights());
    assert_eq!(play(&mut board, "e8", "c8"), Ok(MovementSuccess::NormalMovement));
    assert_eq!(
        board.get_piece(&sq("c8")),
        Some(piece(PieceTypes::King, "c8", PieceColors::Black))
    );
    assert_eq!(
        board.get_piece(&sq("d8")),
        Some(piece(PieceTypes::Rook, "d8", PieceColors::Black))
    );
    assert_eq!(board.get_piece(&sq("a8")), None);
    assert_eq!(board.get_piece(&sq("e8")), None);
    assert_eq!(board.get_king_position(&PieceColors::Black), sq("c8"));
    assert_eq!(*board.get_castling_state(&PieceColors::Black), None);
    assert!(board.is_well_formed());
}

#[test]
fn castling_after_the_king_has_moved_is_refused() {
    let mut board = board_with(&kings_and_rooks(), both_rights(), both_rights());
    assert_eq!(play(&mut board, "e1", "e2"), Ok(MovementSuccess::NormalMovement));
    assert_eq!(*board.get_castling_state(&PieceColors::White), None);
    assert_eq!(play(&mut board, "e2", "e1"), Ok(MovementSuccess::NormalMovement));
    let before = board.clone();
    assert_eq!(
        play(&mut board, "e1", "g1"),
        Err(MovementError::CastlingRightUnavailable)
    );
    assert_eq!(
        play(&mut board, "e1", "c1"),
        Err(MovementError::CastlingRightUnavailable)
    );
    assert_eq!(board, before);
    // The other side keeps its rights.
    assert_eq!(play(&mut board, "e8", "g8"), Ok(MovementSuccess::NormalMovement));
}

#[test]
fn castling_twice_is_refused() {
    let mut board = board_with(&kings_and_rooks(), both_rights(), both_rights());
    assert_eq!(play(&mut board, "e1", "g1"), Ok(MovementSuccess::NormalMovement));
    assert_eq!(play(&mut board, "g1", "f2"), Ok(MovementSuccess::NormalMovement));
    assert_eq!(play(&mut board, "f2", "e1"), Ok(MovementSuccess::NormalMovement));
    assert_eq!(
        play(&mut board, "e1", "c1"),
        Err(MovementError::CastlingRightUnavailable)
    );
}

#[test]
fn castling_with_one_right_gone() {
    let left_only = Some(CastlingState {
        can_use_left_rook: true,
        can_use_right_rook: false,
    });
    let mut board = board_with(&kings_and_rooks(), left_only, both_rights());
    assert_eq!(
        play(&mut board, "e1", "g1"),
        Err(MovementError::CastlingRightUnavailable)
    );
    assert_eq!(play(&mut board, "e1", "c1"), Ok(MovementSuccess::NormalMovement));
}

#[test]
fn castling_needs_the_rook_and_an_empty_way() {
    // From the starting position the squares between king and rook are taken.
    let mut board = get_starting_board();
    let before = board.clone();
    assert_eq!(
        play(&mut board, "e1", "g1"),
        Err(MovementError::DestinationOccupiedBySameColor)
    );
    assert_eq!(board, before);

    // A piece between the king's destination and the rook blocks the left side.
    let mut pieces = kings_and_rooks();
    pieces.push(piece(PieceTypes::Knight, "b1", PieceColors::White));
    let mut board = board_with(&pieces, both_rights(), both_rights());
    assert_eq!(
        play(&mut board, "e1", "c1"),
        Err(MovementError::DestinationDoesNotFollowMovementPattern)
    );

    // No rook in the corner.
    let pieces = vec![
        piece(PieceTypes::King, "e1", PieceColors::White),
        piece(PieceTypes::King, "e8", PieceColors::Black),
    ];
    let mut board = board_with(&pieces, both_rights(), both_rights());
    assert_eq!(
        play(&mut board, "e1", "g1"),
        Err(MovementError::DestinationDoesNotFollowMovementPattern)
    );
}

#[test]
fn castling_over_an_attacked_square_is_allowed() {
    // The black rook on f8 attacks f1, which the king passes over: squares
    // passed over are not tested for attacks.
    let pieces = vec![
        piece(PieceTypes::King, "e1", PieceColors::White),
        piece(PieceTypes::Rook, "h1", PieceColors::White),
        piece(PieceTypes::King, "a8", PieceColors::Black),
        piece(PieceTypes::Rook, "f8", PieceColors::Black),
    ];
    let mut board = board_with(&pieces, both_rights(), None);
    assert_eq!(play(&mut board, "e1", "g1"), Ok(MovementSuccess::NormalMovement));
    assert_eq!(
        board.get_piece(&sq("f1")),
        Some(piece(PieceTypes::Rook, "f1", PieceColors::White))
    );
}

#[test]
fn castling_onto_an_attacked_square_is_refused() {
    let pieces = vec![
        piece(PieceTypes::King, "e1", PieceColors::White),
        piece(PieceTypes::Rook, "h1", PieceColors::White),
        piece(PieceTypes::King, "a8", PieceColors::Black),
        piece(PieceTypes::Rook, "g8", PieceColors::Black),
    ];
    let mut board = board_with(&pieces, both_rights(), None);
    let before = board.clone();
    assert_eq!(
        play(&mut board, "e1", "g1"),
        Err(MovementError::MoveWouldCauseSelfCheck)
    );
    assert_eq!(board, before);
}

#[test]
fn king_two_files_away_from_elsewhere_is_no_castling() {
    let pieces = vec![
        piece(PieceTypes::King, "e2", PieceColors::White),
        piece(PieceTypes::Rook, "h1", PieceColors::White),
        piece(PieceTypes::King, "a8", PieceColors::Black),
    ];
    let mut board = board_with(&pieces, both_rights(), None);
    assert_eq!(
        play(&mut board, "e2", "g2"),
        Err(MovementError::DestinationDoesNotFollowMovementPattern)
    );
}
