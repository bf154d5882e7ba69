//! A chess rules engine: coordinates, pieces, move generation and move
//! application, with every rule stated as a contract.

pub mod array_index;
pub mod board;
pub mod board_movement;
pub mod board_path;
pub mod board_validation;
pub mod board_position;
pub mod check_evaluation;
pub mod chess_cell;
pub mod chess_file;
pub mod chess_piece;
pub mod chess_rank;
pub mod get_starting_board;
pub mod laws;
pub mod matrix_position;
pub mod move_piece;
pub mod move_rules;
pub mod movement_paths;
pub mod movement_pattern;
pub mod piece_colors;
pub mod piece_types;
pub mod rules;
pub mod session;
pub mod special_moves;
pub mod transitions;

pub use array_index::{ArrayIndex, FromArrayIndexError};
pub use board::{Board, BoardView, CastlingState, CheckedState, CheckedStateView};
pub use board_movement::BoardMovement;
pub use board_path::BoardPath;
pub use board_position::{
    BoardPosition, BoardPositionFromIsizeErrors, BoardPositionFromStrErrors,
    BoardPositionFromUsizeErrors,
};
pub use chess_cell::ChessCell;
pub use chess_file::{ChessFile, FileInstancingErrors};
pub use chess_piece::ChessPiece;
pub use chess_rank::{ChessRank, RankInstancingErrors};
pub use get_starting_board::get_starting_board;
pub use matrix_position::{FromMatrixPositionError, MatrixPosition};
pub use move_piece::move_piece;
pub use move_rules::{MovementError, MovementSuccess};
pub use movement_pattern::{get_movement_pattern, is_pawn_on_starting_position};
pub use piece_colors::PieceColors;
pub use piece_types::PieceTypes;
pub use session::{
    JoinedGameResponses, MovementNotice, PlayerClock, PlayerTimeChanged, RegisterErrors,
};
pub use special_moves::{
    check_castle_left, check_castle_right, get_en_passant_to_the_left_pos,
    get_en_passant_to_the_right_pos, is_en_passant_to_the_left, is_en_passant_to_the_right,
    is_king_on_starting_position, ChessBoardDirections,
};
pub mod valid_movements_positions;
pub use valid_movements_positions::get_valid_movements_positions;
