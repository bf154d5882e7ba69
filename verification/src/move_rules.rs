use crate::board::BoardView;
use crate::board_movement::BoardMovement;
use crate::board_path::flatten;
use crate::board_position::BoardPosition;
use crate::chess_piece::ChessPiece;
use crate::movement_pattern::{forward, pawn_on_starting_rank};
use crate::piece_colors::PieceColors;
use crate::piece_types::PieceTypes;
use crate::special_moves::{castles_left, castles_right, king_on_home_square, ChessBoardDirections};
use vstd::prelude::*;

verus! {

/// How a move that was made left the game.
#[derive(Debug, Clone, Copy, PartialEq, Eq, Structural)]
pub enum MovementSuccess {
    /// The game goes on.
    NormalMovement,
    /// The opponent of the side that moved is checkmated.
    CheckmateMovement,
    /// The opponent of the side that moved is stalemated.
    StalemateMovement,
}

/// Why a move was refused. A refused move leaves the board as it was.
#[derive(Debug, Clone, Copy, PartialEq, Eq, Structural)]
pub enum MovementError {
    /// The piece of the move does not stand on the board as the move
    /// describes it.
    NoPieceAtOrigin,
    /// A piece of the moving side stands on the destination.
    DestinationOccupiedBySameColor,
    /// The piece cannot reach the destination.
    DestinationDoesNotFollowMovementPattern,
    /// A check is recorded and the move, which is not the king's, does not
    /// land on an attacking path.
    MoveDoesNotResolveCheck,
    /// The move would leave the king of the moving side attacked.
    MoveWouldCauseSelfCheck,
    /// The king asks to castle towards a side for which its castling right
    /// is gone.
    CastlingRightUnavailable,
}

impl MovementError {
    /// A sentence describing the error.
    pub fn message(&self) -> (text: &'static str)
        ensures
            text@ == (match *self {
                MovementError::NoPieceAtOrigin => "There is no such piece on the origin cell."@,
                MovementError::DestinationOccupiedBySameColor =>
                    "The destination cell is already occupied by a piece of the same color."@,
                MovementError::DestinationDoesNotFollowMovementPattern =>
                    "The destination positions doesn't follow the movement pattern."@,
                MovementError::MoveDoesNotResolveCheck => "The king of this piece is in check!"@,
                MovementError::MoveWouldCauseSelfCheck =>
                    "The movement of this piece would cause a check to the king."@,
                MovementError::CastlingRightUnavailable =>
                    "The king can't castle because the castling right is gone!"@,
            }),
    {
        match self {
            MovementError::NoPieceAtOrigin => "There is no such piece on the origin cell.",
            MovementError::DestinationOccupiedBySameColor =>
                "The destination cell is already occupied by a piece of the same color.",
            MovementError::DestinationDoesNotFollowMovementPattern =>
                "The destination positions doesn't follow the movement pattern.",
            MovementError::MoveDoesNotResolveCheck => "The king of this piece is in check!",
            MovementError::MoveWouldCauseSelfCheck =>
                "The movement of this piece would cause a check to the king.",
            MovementError::CastlingRightUnavailable =>
                "The king can't castle because the castling right is gone!",
        }
    }
}

/// The zero-based row on which a side's pieces start.
pub open spec fn home_row(color: PieceColors) -> int {
    match color {
        PieceColors::White => 0,
        PieceColors::Black => 7,
    }
}

/// The square from which a side's rook castles: the corner on the side
/// asked for.
pub open spec fn rook_home(color: PieceColors, side: ChessBoardDirections) -> BoardPosition {
    match side {
        ChessBoardDirections::Left => BoardPosition::at(home_row(color), 0),
        ChessBoardDirections::Right => BoardPosition::at(home_row(color), 7),
    }
}

/// The square on which a side's rook lands when it castles: the one the
/// king has passed over.
pub open spec fn rook_landing(color: PieceColors, side: ChessBoardDirections) -> BoardPosition {
    match side {
        ChessBoardDirections::Left => BoardPosition::at(home_row(color), 3),
        ChessBoardDirections::Right => BoardPosition::at(home_row(color), 5),
    }
}

/// The castling a move asks for, if any: the piece is a king on the square
/// its side's king starts from, and the destination lies two files away on
/// the same rank.
pub open spec fn castling_asked(movement: BoardMovement) -> Option<ChessBoardDirections> {
    if king_on_home_square(movement.piece) {
        if castles_left(movement.piece.position, movement.destination) {
            Some(ChessBoardDirections::Left)
        } else if castles_right(movement.piece.position, movement.destination) {
            Some(ChessBoardDirections::Right)
        } else {
            None
        }
    } else {
        None
    }
}

/// Whether a move is a pawn's advance of two squares from its starting
/// rank.
pub open spec fn is_double_step(movement: BoardMovement) -> bool {
    &&& pawn_on_starting_rank(movement.piece)
    &&& movement.destination.column_index() == movement.piece.position.column_index()
    &&& (movement.destination.row_index() == movement.piece.position.row_index() + 2
        || movement.destination.row_index() == movement.piece.position.row_index() - 2)
}

impl BoardView {
    /// Whether a side still has the castling right towards a side of the
    /// board.
    pub open spec fn castling_right(self, color: PieceColors, side: ChessBoardDirections) -> bool {
        match side {
            ChessBoardDirections::Left => self.may_castle_left(color),
            ChessBoardDirections::Right => self.may_castle_right(color),
        }
    }

    /// Whether the way is clear for a side to castle towards a side of the
    /// board: its rook stands in the corner, and the squares between the
    /// king's home and the rook are empty.
    pub open spec fn castling_way_clear(self, color: PieceColors, side: ChessBoardDirections) -> bool {
        let row = home_row(color);
        &&& self.piece_at(rook_home(color, side)) == Some(
            ChessPiece { kind: PieceTypes::Rook, position: rook_home(color, side), owner: color },
        )
        &&& match side {
            ChessBoardDirections::Left => {
                &&& self.piece_at(BoardPosition::at(row, 1)) is None
                &&& self.piece_at(BoardPosition::at(row, 2)) is None
                &&& self.piece_at(BoardPosition::at(row, 3)) is None
            },
            ChessBoardDirections::Right => {
                &&& self.piece_at(BoardPosition::at(row, 5)) is None
                &&& self.piece_at(BoardPosition::at(row, 6)) is None
            },
        }
    }

    /// Why the recorded check forbids a move, if it does: while a check is
    /// recorded, a king may not land on an attacking path, and any other
    /// piece must land on one.
    pub open spec fn check_refusal(self, movement: BoardMovement) -> Option<MovementError> {
        match self.check_positions() {
            Some(squares) => if movement.piece.kind == PieceTypes::King {
                if squares.contains(movement.destination) {
                    Some(MovementError::MoveWouldCauseSelfCheck)
                } else {
                    None
                }
            } else {
                if squares.contains(movement.destination) {
                    None
                } else {
                    Some(MovementError::MoveDoesNotResolveCheck)
                }
            },
            None => None,
        }
    }

    /// Whether the piece of a move can go to its destination: when the move
    /// asks to castle, the way must be clear; otherwise the destination must
    /// be a square of one of the piece's paths, and no king may stand on it.
    pub open spec fn reachable(self, movement: BoardMovement) -> bool {
        match castling_asked(movement) {
            Some(side) => self.castling_way_clear(movement.piece.owner, side),
            None => {
                &&& flatten(self.movement_paths(movement.piece)).contains(movement.destination)
                &&& !(self.piece_at(movement.destination) is Some && self.piece_at(
                    movement.destination,
                )->Some_0.kind == PieceTypes::King)
            },
        }
    }

    /// Why a move is refused before the piece's own movement is looked at,
    /// if it is. The tests are made in this order: the piece stands on the
    /// board as the move describes it; no piece of its side stands on the
    /// destination; the recorded check allows the move.
    pub open spec fn gate_refusal(self, movement: BoardMovement) -> Option<MovementError> {
        if self.piece_at(movement.piece.position) != Some(movement.piece) {
            Some(MovementError::NoPieceAtOrigin)
        } else if self.piece_at(movement.destination) is Some && self.piece_at(
            movement.destination,
        )->Some_0.owner == movement.piece.owner {
            Some(MovementError::DestinationOccupiedBySameColor)
        } else {
            self.check_refusal(movement)
        }
    }

    /// Why the piece's own movement forbids a move, if it does: the castling
    /// right is gone, where the move asks to castle; or the piece cannot go
    /// to the destination.
    pub open spec fn pattern_refusal(self, movement: BoardMovement) -> Option<MovementError> {
        if castling_asked(movement) is Some && !self.castling_right(
            movement.piece.owner,
            castling_asked(movement)->Some_0,
        ) {
            Some(MovementError::CastlingRightUnavailable)
        } else if !self.reachable(movement) {
            Some(MovementError::DestinationDoesNotFollowMovementPattern)
        } else {
            None
        }
    }

    /// Why a move is refused before it is tried on the board, if it is: the
    /// first reason that `gate_refusal` gives, or else the one that
    /// `pattern_refusal` gives.
    pub open spec fn rejection(self, movement: BoardMovement) -> Option<MovementError> {
        match self.gate_refusal(movement) {
            Some(reason) => Some(reason),
            None => self.pattern_refusal(movement),
        }
    }

    /// Whether a move takes a pawn in passing.
    pub open spec fn takes_in_passing(self, movement: BoardMovement) -> bool {
        self.en_passant_destination(movement.piece) == Some(movement.destination)
    }

    /// The board once the piece that a move captures has been taken off: the
    /// piece on the destination, or the pawn taken in passing, which stands
    /// beside the moving pawn and not on the destination.
    pub open spec fn cleared(self, movement: BoardMovement) -> BoardView {
        if self.piece_at(movement.destination) is Some {
            self.removed(movement.destination)
        } else if self.takes_in_passing(movement) {
            self.removed(self.passed_pawn(movement.piece)->Some_0)
        } else {
            self
        }
    }

    /// The board once the pieces of a move stand on their new squares: the
    /// captured piece is off, the moving piece on its destination, the rook
    /// beside the king where the move castles. A move of the king takes its
    /// side's castling rights away, and the pawn that may be taken in
    /// passing is recorded after an advance of two squares and forgotten
    /// after any other move.
    pub open spec fn placed(self, movement: BoardMovement) -> BoardView {
        let color = movement.piece.owner;
        let moved = self.cleared(movement).relocated(
            movement.piece.position,
            movement.destination,
        );
        let castled = match castling_asked(movement) {
            Some(side) => moved.relocated(rook_home(color, side), rook_landing(color, side)),
            None => moved,
        };
        let righted = if movement.piece.kind == PieceTypes::King {
            castled.without_castling(color)
        } else {
            castled
        };
        BoardView {
            en_passant_position: if is_double_step(movement) {
                Some(movement.destination)
            } else {
                None
            },
            ..righted
        }
    }

    /// The board after a move: the pieces placed and the check looked for
    /// again, the moving side's first.
    pub open spec fn committed(self, movement: BoardMovement) -> BoardView {
        BoardView {
            check_state: self.placed(movement).check_after(movement.piece.owner),
            ..self.placed(movement)
        }
    }

    /// How the board leaves the game for the opponent of the side that has
    /// moved.
    pub open spec fn outcome(self, mover: PieceColors) -> MovementSuccess {
        if self.checkmate(mover.spec_opponent()) {
            MovementSuccess::CheckmateMovement
        } else if self.stalemate(mover.spec_opponent()) {
            MovementSuccess::StalemateMovement
        } else {
            MovementSuccess::NormalMovement
        }
    }

    /// What applying a move to the board gives: the reason for which it is
    /// refused, or the board after it and how that leaves the game. A move
    /// that passes the tests of `rejection` is still refused where it leaves
    /// the king of the moving side attacked.
    pub open spec fn apply(self, movement: BoardMovement) -> Result<
        (BoardView, MovementSuccess),
        MovementError,
    > {
        match self.rejection(movement) {
            Some(reason) => Err(reason),
            None => {
                let next = self.committed(movement);
                if next.attacked(next.king_position(movement.piece.owner), movement.piece.owner) {
                    Err(MovementError::MoveWouldCauseSelfCheck)
                } else {
                    Ok((next, next.outcome(movement.piece.owner)))
                }
            },
        }
    }
}

impl BoardView {
    /// On a well-formed board, taking off the piece that an accepted move
    /// captures leaves the moving piece where it stood, the destination
    /// empty, the grid and the lists in agreement and the kings where they
    /// are recorded. A move that castles captures nothing.
    pub proof fn lemma_cleared(self, movement: BoardMovement)
        requires
            self.wf(),
            movement.wf(),
            self.rejection(movement) is None,
        ensures
            self.cleared(movement).pieces_wf(),
            self.cleared(movement).king_consistent(PieceColors::White),
            self.cleared(movement).king_consistent(PieceColors::Black),
            self.cleared(movement).piece_at(movement.piece.position) == Some(movement.piece),
            self.cleared(movement).piece_at(movement.destination) is None,
            castling_asked(movement) is Some ==> self.cleared(movement) == self,
            self.takes_in_passing(movement) ==> self.passed_pawn(movement.piece) is Some
                && self.passed_pawn(movement.piece) == self.en_passant_position
                && self.piece_at(self.passed_pawn(movement.piece)->Some_0) is Some,
    {
        let origin = movement.piece.position;
        let target = movement.destination;
        origin.lemma_at_indices();
        target.lemma_at_indices();
        if castling_asked(movement) is Some {
            let side = castling_asked(movement)->Some_0;
            let row = home_row(movement.piece.owner);
            BoardPosition::lemma_at(row, 4);
            assert(origin.row_index() == row && origin.column_index() == 4);
            assert(self.castling_way_clear(movement.piece.owner, side));
            assert(target == BoardPosition::at(row, target.column_index()));
            assert(self.piece_at(target) is None);
        }
        if self.piece_at(target) is Some {
            assert(castling_asked(movement) is None);
            assert(origin != target);
            self.lemma_removed(target);
        } else if self.takes_in_passing(movement) {
            let beside = self.passed_pawn(movement.piece)->Some_0;
            beside.lemma_at_indices();
            assert(beside != origin);
            BoardPosition::lemma_at(
                origin.row_index() + forward(movement.piece.owner),
                origin.column_index() + (beside.column_index() - origin.column_index()),
            );
            assert(beside != target);
            self.lemma_removed(beside);
        }
    }

    /// On a well-formed board, placing the pieces of an accepted move gives
    /// a well-formed board again. Where the move castles, the rook stands in
    /// its corner and the square it lands on is empty once the king has
    /// moved.
    pub proof fn lemma_placed(self, movement: BoardMovement)
        requires
            self.wf(),
            movement.wf(),
            self.rejection(movement) is None,
        ensures
            self.placed(movement).wf(),
            self.cleared(movement).relocated(
                movement.piece.position,
                movement.destination,
            ).pieces_wf(),
            castling_asked(movement) is Some ==> {
                let moved = self.cleared(movement).relocated(
                    movement.piece.position,
                    movement.destination,
                );
                let from = rook_home(movement.piece.owner, castling_asked(movement)->Some_0);
                let to = rook_landing(movement.piece.owner, castling_asked(movement)->Some_0);
                &&& from.wf()
                &&& to.wf()
                &&& moved.piece_at(from) is Some
                &&& moved.piece_at(to) is None
            },
    {
        let color = movement.piece.owner;
        let origin = movement.piece.position;
        let target = movement.destination;
        self.lemma_cleared(movement);
        let cleared = self.cleared(movement);
        cleared.lemma_relocated(origin, target);
        let moved = cleared.relocated(origin, target);
        assert(moved.king_consistent(PieceColors::White));
        assert(moved.king_consistent(PieceColors::Black));
        origin.lemma_at_indices();
        target.lemma_at_indices();
        let castled = match castling_asked(movement) {
            Some(side) => moved.relocated(rook_home(color, side), rook_landing(color, side)),
            None => moved,
        };
        if castling_asked(movement) is Some {
            let side = castling_asked(movement)->Some_0;
            let from = rook_home(color, side);
            let to = rook_landing(color, side);
            let row = home_row(color);
            BoardPosition::lemma_at(row, 0);
            BoardPosition::lemma_at(row, 3);
            BoardPosition::lemma_at(row, 4);
            BoardPosition::lemma_at(row, 5);
            BoardPosition::lemma_at(row, 7);
            assert(self.castling_way_clear(color, side));
            assert(from != origin && from != target);
            assert(to != origin && to != target);
            assert(moved.piece_at(from) == self.piece_at(from));
            assert(moved.piece_at(to) == self.piece_at(to));
            moved.lemma_relocated(from, to);
            assert(castled.king_consistent(PieceColors::White));
            assert(castled.king_consistent(PieceColors::Black));
        }
        assert(castled.pieces_wf());
        let righted = if movement.piece.kind == PieceTypes::King {
            castled.without_castling(color)
        } else {
            castled
        };
        assert(righted.cells == castled.cells);
        assert(righted.pieces(PieceColors::White) == castled.pieces(PieceColors::White));
        assert(righted.pieces(PieceColors::Black) == castled.pieces(PieceColors::Black));
        assert(righted.king_position(PieceColors::White) == castled.king_position(
            PieceColors::White,
        ));
        assert(righted.king_position(PieceColors::Black) == castled.king_position(
            PieceColors::Black,
        ));
        let placed = self.placed(movement);
        assert(placed.cells == castled.cells);
        assert(placed.pieces(PieceColors::White) == castled.pieces(PieceColors::White));
        assert(placed.pieces(PieceColors::Black) == castled.pieces(PieceColors::Black));
        assert(placed.king_position(PieceColors::White) == castled.king_position(
            PieceColors::White,
        ));
        assert(placed.king_position(PieceColors::Black) == castled.king_position(
            PieceColors::Black,
        ));
        assert(placed.check_state == self.check_state);
        assert(placed.pieces_wf());
        assert(placed.king_consistent(PieceColors::White));
        assert(placed.king_consistent(PieceColors::Black));
    }
}

} // verus!
