use crate::board_position::BoardPosition;
use crate::chess_piece::ChessPiece;
use crate::piece_colors::PieceColors;
use crate::piece_types::PieceTypes;
use vstd::prelude::*;

verus! {

/// The two sides of the board a king can castle towards, as White sees
/// them: left is the queen's side, right the king's side.
#[derive(Debug, Clone, Copy, PartialEq, Eq, Structural)]
pub enum ChessBoardDirections {
    Left,
    Right,
}

/// The square a side's king starts from: `e1` for White, `e8` for Black.
pub open spec fn king_home(color: PieceColors) -> BoardPosition {
    match color {
        PieceColors::White => BoardPosition::at(0, 4),
        PieceColors::Black => BoardPosition::at(7, 4),
    }
}

/// Whether a piece is a king on the square its side's king starts from.
pub open spec fn king_on_home_square(piece: ChessPiece) -> bool {
    piece.kind == PieceTypes::King && piece.position == king_home(piece.owner)
}

/// Whether the destination lies on the origin's rank, two files towards
/// file `a`.
pub open spec fn castles_left(origin: BoardPosition, destination: BoardPosition) -> bool {
    destination.row_index() == origin.row_index() && destination.column_index()
        == origin.column_index() - 2
}

/// Whether the destination lies on the origin's rank, two files towards
/// file `h`.
pub open spec fn castles_right(origin: BoardPosition, destination: BoardPosition) -> bool {
    destination.row_index() == origin.row_index() && destination.column_index()
        == origin.column_index() + 2
}

/// Whether the destination is one of the two squares diagonally next to the
/// origin in the given direction of files.
pub open spec fn diagonal_neighbour(
    origin: BoardPosition,
    destination: BoardPosition,
    columns: int,
) -> bool {
    destination.column_index() == origin.column_index() + columns && (destination.row_index()
        == origin.row_index() + 1 || destination.row_index() == origin.row_index() - 1)
}

/// Whether the piece is a king on the square its side's king starts from:
/// `e1` for White, `e8` for Black.
pub fn is_king_on_starting_position(piece: &ChessPiece) -> (starting: bool)
    requires
        piece.wf(),
    ensures
        starting == king_on_home_square(*piece),
{
    let home = match piece.owner {
        PieceColors::White => BoardPosition::from_indices(0, 4),
        PieceColors::Black => BoardPosition::from_indices(7, 4),
    };
    match piece.kind {
        PieceTypes::King => piece.position == home,
        _ => false,
    }
}

/// Whether a king on `origin` that is sent to `destination` asks to castle
/// to the left: the destination is two files towards file `a` on the same
/// rank.
pub fn check_castle_left(origin: &BoardPosition, destination: &BoardPosition) -> (wanted: bool)
    requires
        origin.wf(),
        destination.wf(),
    ensures
        wanted == castles_left(*origin, *destination),
{
    let (row, column) = origin.indices();
    let (to_row, to_column) = destination.indices();
    row == to_row && to_column + 2 == column
}

/// Whether a king on `origin` that is sent to `destination` asks to castle
/// to the right: the destination is two files towards file `h` on the same
/// rank.
pub fn check_castle_right(origin: &BoardPosition, destination: &BoardPosition) -> (wanted: bool)
    requires
        origin.wf(),
        destination.wf(),
    ensures
        wanted == castles_right(*origin, *destination),
{
    let (row, column) = origin.indices();
    let (to_row, to_column) = destination.indices();
    row == to_row && column + 2 == to_column
}

/// Whether the destination is diagonally next to the origin, one file
/// towards file `h`: where a pawn lands that takes to the right in passing.
pub fn is_en_passant_to_the_right(origin: &BoardPosition, destination: &BoardPosition) -> (diagonal:
    bool)
    requires
        origin.wf(),
        destination.wf(),
    ensures
        diagonal == diagonal_neighbour(*origin, *destination, 1),
{
    let (row, column) = origin.indices();
    let (to_row, to_column) = destination.indices();
    to_column == column + 1 && (to_row == row + 1 || to_row + 1 == row)
}

/// Whether the destination is diagonally next to the origin, one file
/// towards file `a`: where a pawn lands that takes to the left in passing.
pub fn is_en_passant_to_the_left(origin: &BoardPosition, destination: &BoardPosition) -> (diagonal:
    bool)
    requires
        origin.wf(),
        destination.wf(),
    ensures
        diagonal == diagonal_neighbour(*origin, *destination, -1),
{
    let (row, column) = origin.indices();
    let (to_row, to_column) = destination.indices();
    to_column + 1 == column && (to_row == row + 1 || to_row + 1 == row)
}

/// Returns the square next to `position` on its rank, one file towards
/// file `h`: where the pawn stands that is taken in passing to the right.
pub fn get_en_passant_to_the_right_pos(position: &BoardPosition) -> (beside: BoardPosition)
    requires
        position.wf(),
        position.column_index() < 7,
    ensures
        beside == BoardPosition::at(position.row_index(), position.column_index() + 1),
        beside.wf(),
{
    let (row, column) = position.indices();
    BoardPosition::from_indices(row, column + 1)
}

/// Returns the square next to `position` on its rank, one file towards
/// file `a`: where the pawn stands that is taken in passing to the left.
pub fn get_en_passant_to_the_left_pos(position: &BoardPosition) -> (beside: BoardPosition)
    requires
        position.wf(),
        position.column_index() > 0,
    ensures
        beside == BoardPosition::at(position.row_index(), position.column_index() - 1),
        beside.wf(),
{
    let (row, column) = position.indices();
    BoardPosition::from_indices(row, column - 1)
}

} // verus!
