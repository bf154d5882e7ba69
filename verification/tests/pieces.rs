use chess_engine::board_path::{duplicate_paths, flatten_paths};
use chess_engine::{
    get_en_passant_to_the_left_pos, get_en_passant_to_the_right_pos, get_starting_board,
    is_en_passant_to_the_left, is_en_passant_to_the_right, is_pawn_on_starting_position,
    BoardPath, BoardPosition, ChessBoardDirections, ChessCell, ChessPiece, PieceColors,
    PieceTypes,
};

fn sq(text: &str) -> BoardPosition {
    BoardPosition::from_algebraic(text).unwrap()
}

fn piece(kind: PieceTypes, square: &str, color: PieceColors) -> ChessPiece {
    ChessPiece::new(kind, sq(square), color)
}

#[test]
fn piece_gives_back_what_it_was_made_of() {
    let mut knight = piece(PieceTypes::Knight, "g1", PieceColors::White);
    assert_eq!(*knight.kind(), PieceTypes::Knight);
    assert_eq!(*knight.color(), PieceColors::White);
    assert_eq!(knight.position(), (0, 6));
    assert_eq!(*knight.board_position(), sq("g1"));
    knight.update_position(sq("f3"));
    assert_eq!(knight, piece(PieceTypes::Knight, "f3", PieceColors::White));
    assert_eq!(knight.position(), (2, 5));
}

#[test]
fn cell_is_empty_or_holds_a_piece() {
    let empty = ChessCell::none();
    assert!(empty.is_empty());
    assert!(!empty.is_occupied());
    assert!(!empty.piece_has_color(&PieceColors::White));
    assert!(!empty.piece_has_color(&PieceColors::Black));
    assert_eq!(empty.piece(), None);
    assert_eq!(empty.position(), None);

    let queen = piece(PieceTypes::Queen, "d8", PieceColors::Black);
    let held = ChessCell::some(queen);
    assert!(!held.is_empty());
    assert!(held.is_occupied());
    assert!(held.piece_has_color(&PieceColors::Black));
    assert!(!held.piece_has_color(&PieceColors::White));
    assert_eq!(held.piece(), Some(queen));
    assert_eq!(held.position(), Some((7, 3)));
}

#[test]
fn pawns_start_on_the_second_and_seventh_rank() {
    assert!(is_pawn_on_starting_position(&piece(
        PieceTypes::Pawn,
        "a2",
        PieceColors::White
    )));
    assert!(is_pawn_on_starting_position(&piece(
        PieceTypes::Pawn,
        "h7",
        PieceColors::Black
    )));
    assert!(!is_pawn_on_starting_position(&piece(
        PieceTypes::Pawn,
        "a7",
        PieceColors::White
    )));
    assert!(!is_pawn_on_starting_position(&piece(
        PieceTypes::Pawn,
        "h2",
        PieceColors::Black
    )));
    assert!(!is_pawn_on_starting_position(&piece(
        PieceTypes::Pawn,
        "a3",
        PieceColors::White
    )));
    assert!(!is_pawn_on_starting_position(&piece(
        PieceTypes::Rook,
        "a2",
        PieceColors::White
    )));
}

#[test]
fn diagonal_neighbours_to_the_right_and_left() {
    assert!(is_en_passant_to_the_right(&sq("d4"), &sq("e5")));
    assert!(is_en_passant_to_the_right(&sq("d4"), &sq("e3")));
    assert!(!is_en_passant_to_the_right(&sq("d4"), &sq("c5")));
    assert!(!is_en_passant_to_the_right(&sq("d4"), &sq("e4")));
    assert!(!is_en_passant_to_the_right(&sq("d4"), &sq("f5")));
    assert!(!is_en_passant_to_the_right(&sq("h4"), &sq("a5")));
    assert!(is_en_passant_to_the_left(&sq("d4"), &sq("c5")));
    assert!(is_en_passant_to_the_left(&sq("d4"), &sq("c3")));
    assert!(!is_en_passant_to_the_left(&sq("d4"), &sq("e5")));
    assert!(!is_en_passant_to_the_left(&sq("d4"), &sq("d5")));
    assert!(!is_en_passant_to_the_left(&sq("a4"), &sq("h3")));
    assert!(is_en_passant_to_the_left(&sq("b1"), &sq("a2")));
    assert!(is_en_passant_to_the_right(&sq("g8"), &sq("h7")));
}

#[test]
fn squares_beside_on_the_same_rank() {
    assert_eq!(get_en_passant_to_the_right_pos(&sq("d4")), sq("e4"));
    assert_eq!(get_en_passant_to_the_left_pos(&sq("d4")), sq("c4"));
    assert_eq!(get_en_passant_to_the_right_pos(&sq("a5")), sq("b5"));
    assert_eq!(get_en_passant_to_the_left_pos(&sq("h5")), sq("g5"));
}

#[test]
fn paths_are_flattened_in_order() {
    let first = BoardPath::from(vec![sq("a1"), sq("a2")]);
    let second = BoardPath::from(vec![]);
    let third = BoardPath(vec![sq("h8")]);
    let paths = vec![first, second, third];
    assert_eq!(flatten_paths(&paths), vec![sq("a1"), sq("a2"), sq("h8")]);
    assert_eq!(flatten_paths(&Vec::new()), Vec::<BoardPosition>::new());
    let copy = duplicate_paths(&paths);
    assert_eq!(copy, paths);
    assert_eq!(paths[0].duplicate(), paths[0]);
}

#[test]
fn starting_board_lists_the_back_rank_then_the_pawns() {
    let board = get_starting_board();
    let white = board.get_pieces_from(&PieceColors::White);
    assert_eq!(white[0], piece(PieceTypes::Rook, "a1", PieceColors::White));
    assert_eq!(white[4], piece(PieceTypes::King, "e1", PieceColors::White));
    assert_eq!(white[7], piece(PieceTypes::Rook, "h1", PieceColors::White));
    assert_eq!(white[8], piece(PieceTypes::Pawn, "a2", PieceColors::White));
    assert_eq!(white[15], piece(PieceTypes::Pawn, "h2", PieceColors::White));
    let black = board.get_pieces_from(&PieceColors::Black);
    assert_eq!(black[3], piece(PieceTypes::Queen, "d8", PieceColors::Black));
    assert_eq!(black[12], piece(PieceTypes::Pawn, "e7", PieceColors::Black));
    assert_eq!(board.get_cell(&sq("e1")), Some(&ChessCell::some(white[4])));
    assert_eq!(board.get_cell(&sq("e4")), Some(&ChessCell::none()));
    assert!(board.is_well_formed());
    assert!(board.is_castling_way_clear(&PieceColors::White, &ChessBoardDirections::Left) == false);
    let rights = board.get_castling_state(&PieceColors::White).unwrap();
    assert!(rights.can_use_left_rook && rights.can_use_right_rook);
}

#[test]
fn knights_open_the_game() {
    let board = get_starting_board();
    let knight = board.get_piece(&sq("b1")).unwrap();
    let reached = chess_engine::get_valid_movements_positions(&knight, &board);
    assert_eq!(reached, vec![sq("c3"), sq("a3")]);
    let rook = board.get_piece(&sq("a1")).unwrap();
    assert!(chess_engine::get_valid_movements_positions(&rook, &board).is_empty());
    let king = board.get_piece(&sq("e1")).unwrap();
    assert!(chess_engine::get_valid_movements_positions(&king, &board).is_empty());
    let pawn = board.get_piece(&sq("e7")).unwrap();
    assert_eq!(
        chess_engine::get_valid_movements_positions(&pawn, &board),
        vec![sq("e6"), sq("e5")]
    );
    assert!(board.can_any_piece_move(&PieceColors::White));
    assert!(!board.is_stalemate(&PieceColors::White));
    assert!(!board.is_checkmate(&PieceColors::Black));
}
