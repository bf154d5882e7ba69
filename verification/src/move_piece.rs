use crate::board::{Board, BoardView};
use crate::board_movement::BoardMovement;
use crate::board_path::flatten_paths;
use crate::board_position::BoardPosition;
use crate::chess_piece::ChessPiece;
use crate::move_rules::{
    castling_asked, is_double_step, rook_home, rook_landing, MovementError,
    MovementSuccess,
};
use crate::movement_paths::squares_contain;
use crate::movement_pattern::{forward, is_pawn_on_starting_position};
use crate::piece_colors::PieceColors;
use crate::piece_types::PieceTypes;
use crate::special_moves::{
    check_castle_left, check_castle_right, get_en_passant_to_the_left_pos,
    get_en_passant_to_the_right_pos, is_en_passant_to_the_left, is_king_on_starting_position,
    ChessBoardDirections,
};
use vstd::prelude::*;

verus! {

/// Returns the castling a move asks for, if any.
pub fn get_castling_asked(movement: &BoardMovement) -> (asked: Option<ChessBoardDirections>)
    requires
        movement.wf(),
    ensures
        asked == castling_asked(*movement),
{
    if is_king_on_starting_position(&movement.piece) {
        if check_castle_left(&movement.piece.position, &movement.destination) {
            Some(ChessBoardDirections::Left)
        } else if check_castle_right(&movement.piece.position, &movement.destination) {
            Some(ChessBoardDirections::Right)
        } else {
            None
        }
    } else {
        None
    }
}

/// Whether a move is a pawn's advance of two squares from its starting
/// rank.
fn advances_two(movement: &BoardMovement) -> (double: bool)
    requires
        movement.wf(),
    ensures
        double == is_double_step(*movement),
{
    let (row, column) = movement.piece.position.indices();
    let (to_row, to_column) = movement.destination.indices();
    is_pawn_on_starting_position(&movement.piece) && column == to_column && (to_row == row + 2
        || to_row + 2 == row)
}

impl Board {
    /// Whether the way is clear for a side to castle towards a side of the
    /// board: its rook stands in the corner, and the squares between the
    /// king's home and the rook are empty.
    pub fn is_castling_way_clear(&self, color: &PieceColors, side: &ChessBoardDirections) -> (clear:
        bool)
        requires
            self@.grid_wf(),
        ensures
            clear == self@.castling_way_clear(*color, *side),
    {
        let row: usize = match color {
            PieceColors::White => 0,
            PieceColors::Black => 7,
        };
        let corner = match side {
            ChessBoardDirections::Left => BoardPosition::from_indices(row, 0),
            ChessBoardDirections::Right => BoardPosition::from_indices(row, 7),
        };
        let rook = ChessPiece { kind: PieceTypes::Rook, position: corner, owner: *color };
        match self.get_piece(&corner) {
            Some(found) => {
                if found != rook {
                    return false;
                }
            },
            None => {
                return false;
            },
        }
        match side {
            ChessBoardDirections::Left => {
                self.get_piece(&BoardPosition::from_indices(row, 1)).is_none() && self.get_piece(
                    &BoardPosition::from_indices(row, 2),
                ).is_none() && self.get_piece(&BoardPosition::from_indices(row, 3)).is_none()
            },
            ChessBoardDirections::Right => {
                self.get_piece(&BoardPosition::from_indices(row, 5)).is_none() && self.get_piece(
                    &BoardPosition::from_indices(row, 6),
                ).is_none()
            },
        }
    }

    /// Takes off the board the piece that an accepted move captures: the
    /// piece on the destination, or the pawn taken in passing.
    fn clear_captured(&mut self, movement: &BoardMovement)
        requires
            old(self)@.wf(),
            movement.wf(),
            old(self)@.rejection(*movement) is None,
        ensures
            final(self)@ == old(self)@.cleared(*movement),
    {
        let ghost before = self@;
        proof {
            before.lemma_cleared(*movement);
        }
        if self.get_piece(&movement.destination).is_some() {
            self.remove_piece_at(&movement.destination);
        } else {
            match self.get_en_passant_destination(&movement.piece) {
                Some(square) => {
                    if square == movement.destination {
                        let origin = movement.piece.position;
                        proof {
                            let beside = before.passed_pawn(movement.piece)->Some_0;
                            origin.lemma_at_indices();
                            beside.lemma_at_indices();
                            BoardPosition::lemma_at(
                                origin.row_index() + forward(movement.piece.owner),
                                beside.column_index(),
                            );
                        }
                        let beside = if is_en_passant_to_the_left(&origin, &square) {
                            get_en_passant_to_the_left_pos(&origin)
                        } else {
                            get_en_passant_to_the_right_pos(&origin)
                        };
                        self.remove_piece_at(&beside);
                    }
                },
                None => {},
            }
        }
    }

    /// Puts the rook beside the king that has castled.
    fn move_rook_in_position(&mut self, color: PieceColors, side: ChessBoardDirections)
        requires
            old(self)@.pieces_wf(),
            old(self)@.piece_at(rook_home(color, side)) is Some,
            old(self)@.piece_at(rook_landing(color, side)) is None,
        ensures
            final(self)@ == old(self)@.relocated(rook_home(color, side), rook_landing(color, side)),
    {
        let row: usize = match color {
            PieceColors::White => 0,
            PieceColors::Black => 7,
        };
        let (from, to) = match side {
            ChessBoardDirections::Left => (
                BoardPosition::from_indices(row, 0),
                BoardPosition::from_indices(row, 3),
            ),
            ChessBoardDirections::Right => (
                BoardPosition::from_indices(row, 7),
                BoardPosition::from_indices(row, 5),
            ),
        };
        self.relocate_piece(&from, &to);
    }

    /// Records what a move changes beside the places of the pieces: a move
    /// of the king takes its side's castling rights away, and the pawn that
    /// may be taken in passing is recorded after an advance of two squares
    /// and forgotten after any other move.
    fn settle_records(&mut self, movement: &BoardMovement)
        requires
            movement.wf(),
        ensures
            final(self)@ == (BoardView {
                en_passant_position: if is_double_step(*movement) {
                    Some(movement.destination)
                } else {
                    None
                },
                ..if movement.piece.kind == PieceTypes::King {
                    old(self)@.without_castling(movement.piece.owner)
                } else {
                    old(self)@
                }
            }),
    {
        if movement.piece.kind == PieceTypes::King {
            self.revoke_castling(movement.piece.owner);
        }
        if advances_two(movement) {
            self.set_en_passant_position(Some(movement.destination));
        } else {
            self.set_en_passant_position(None);
        }
    }

    /// Makes a move on the board that has passed every test of
    /// `BoardView::rejection`: takes the captured piece off, puts the moving
    /// piece on its destination and the rook beside the king where the move
    /// castles, updates the castling rights and the pawn that may be taken
    /// in passing, and looks for a check again.
    pub(crate) fn move_piece(
        &mut self,
        piece: ChessPiece,
        destination: &BoardPosition,
        is_castling: Option<ChessBoardDirections>,
    )
        requires
            old(self)@.wf(),
            piece.wf(),
            destination.wf(),
            old(self)@.rejection(BoardMovement { piece, destination: *destination }) is None,
            is_castling == castling_asked(BoardMovement { piece, destination: *destination }),
        ensures
            final(self)@ == old(self)@.committed(BoardMovement { piece, destination: *destination }),
            final(self)@.wf(),
    {
        let movement = BoardMovement { piece, destination: *destination };
        let ghost before = self@;
        proof {
            before.lemma_cleared(movement);
            before.lemma_placed(movement);
        }
        self.clear_captured(&movement);
        self.relocate_piece(&piece.position, destination);
        match is_castling {
            Some(side) => {
                self.move_rook_in_position(piece.owner, side);
            },
            None => {},
        }
        self.settle_records(&movement);
        assert(self@ == before.placed(movement));
        self.update_check_state(&piece.owner);
    }
}

/// Applies a move to the board. The move is refused, and the board left as
/// it was, for the first of these reasons that holds: the piece does not
/// stand on the board as the move describes it; a piece of its side stands
/// on the destination; a check is recorded and the move is a king's onto an
/// attacking path, or another piece's off the attacking paths; the move asks
/// to castle towards a side for which the right is gone; the piece cannot
/// go to the destination; the move would leave the king of the moving side
/// attacked. Otherwise the board becomes the board after the move, and the
/// result says how the move leaves the opponent: checkmated, stalemated, or
/// free to play on.
pub fn move_piece(movement: BoardMovement, board: &mut Board) -> (result: Result<
    MovementSuccess,
    MovementError,
>)
    requires
        old(board)@.wf(),
        movement.wf(),
    ensures
        final(board)@.wf(),
        result is Err ==> *final(board) == *old(board),
        match old(board)@.apply(movement) {
            Ok((next, outcome)) => result == Ok::<_, MovementError>(outcome) && final(board)@ == next,
            Err(reason) => result == Err::<MovementSuccess, _>(reason),
        },
{
    let piece = movement.piece;
    let destination = movement.destination;
    let color = piece.owner;
    match board.get_piece(&piece.position) {
        Some(found) => {
            if found != piece {
                return Err(MovementError::NoPieceAtOrigin);
            }
        },
        None => {
            return Err(MovementError::NoPieceAtOrigin);
        },
    }
    let on_destination = board.get_piece(&destination);
    match on_destination {
        Some(found) => {
            if found.owner == color {
                return Err(MovementError::DestinationOccupiedBySameColor);
            }
        },
        None => {},
    }
    let is_king = piece.kind == PieceTypes::King;
    match board.get_check_positions() {
        Some(squares) => {
            let on_path = squares_contain(&squares, &destination);
            if is_king && on_path {
                return Err(MovementError::MoveWouldCauseSelfCheck);
            }
            if !is_king && !on_path {
                return Err(MovementError::MoveDoesNotResolveCheck);
            }
        },
        None => {},
    }
    inner_move_piece(is_king, piece, destination, board)
}

/// Applies a move that the tests of `BoardView::gate_refusal` have let
/// through: looks at the castling right and at the piece's own movement,
/// tries the move on a copy of the board, and puts the copy in the board's
/// place unless the move leaves the king of the moving side attacked.
fn inner_move_piece(
    is_king: bool,
    piece: ChessPiece,
    destination: BoardPosition,
    board: &mut Board,
) -> (result: Result<MovementSuccess, MovementError>)
    requires
        old(board)@.wf(),
        piece.wf(),
        destination.wf(),
        is_king == (piece.kind == PieceTypes::King),
        old(board)@.gate_refusal(BoardMovement { piece, destination }) is None,
    ensures
        final(board)@.wf(),
        result is Err ==> *final(board) == *old(board),
        match old(board)@.apply(BoardMovement { piece, destination }) {
            Ok((next, outcome)) => result == Ok::<_, MovementError>(outcome) && final(board)@ == next,
            Err(reason) => result == Err::<MovementSuccess, _>(reason),
        },
{
    let movement = BoardMovement { piece, destination };
    let color = piece.owner;
    let on_destination = board.get_piece(&destination);
    let asked = get_castling_asked(&movement);
    match asked {
        Some(side) => {
            let entitled = match board.get_castling_state(&color) {
                Some(rights) => match side {
                    ChessBoardDirections::Left => rights.can_use_left_rook,
                    ChessBoardDirections::Right => rights.can_use_right_rook,
                },
                None => false,
            };
            if !entitled {
                return Err(MovementError::CastlingRightUnavailable);
            }
            if !board.is_castling_way_clear(&color, &side) {
                return Err(MovementError::DestinationDoesNotFollowMovementPattern);
            }
        },
        None => {
            let paths = board.get_movement_paths(&piece);
            let reached = flatten_paths(&paths);
            if !squares_contain(&reached, &destination) {
                return Err(MovementError::DestinationDoesNotFollowMovementPattern);
            }
            match on_destination {
                Some(found) => {
                    if found.kind == PieceTypes::King {
                        return Err(MovementError::DestinationDoesNotFollowMovementPattern);
                    }
                },
                None => {},
            }
        },
    }
    assert(board@.rejection(movement) is None);
    let mut next = board.duplicate();
    next.move_piece(piece, &destination, asked);
    let king = next.get_king_position(&color);
    if next.position_in_check(&king, &color) {
        return Err(MovementError::MoveWouldCauseSelfCheck);
    }
    let opponent = color.opponent();
    let outcome = if next.is_checkmate(&opponent) {
        MovementSuccess::CheckmateMovement
    } else if next.is_stalemate(&opponent) {
        MovementSuccess::StalemateMovement
    } else {
        MovementSuccess::NormalMovement
    };
    *board = next;
    Ok(outcome)
}

} // verus!
