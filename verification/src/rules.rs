use crate::board::{BoardView, CheckedStateView};
use crate::board_path::flatten;
use crate::board_position::BoardPosition;
use crate::chess_piece::ChessPiece;
use crate::movement_pattern::{forward, movement_pattern};
use crate::piece_colors::PieceColors;
use crate::piece_types::PieceTypes;
use vstd::prelude::*;

verus! {

/// The paths of a list that pass through a square, in order.
pub open spec fn paths_through(paths: Seq<Seq<BoardPosition>>, target: BoardPosition) -> Seq<
    Seq<BoardPosition>,
>
    decreases paths.len(),
{
    if paths.len() == 0 {
        Seq::empty()
    } else {
        let before = paths_through(paths.drop_last(), target);
        if paths.last().contains(target) {
            before.push(paths.last())
        } else {
            before
        }
    }
}

/// Whether one of the paths passes through a square.
pub open spec fn some_path_contains(paths: Seq<Seq<BoardPosition>>, target: BoardPosition) -> bool {
    exists|j: int| 0 <= j < paths.len() && (#[trigger] paths[j]).contains(target)
}

/// Whether every one of the paths passes through a square.
pub open spec fn every_path_contains(paths: Seq<Seq<BoardPosition>>, target: BoardPosition) -> bool {
    forall|j: int| 0 <= j < paths.len() ==> (#[trigger] paths[j]).contains(target)
}

impl BoardView {
    /// A path as far as a piece of the given side can follow it: the squares
    /// before the first occupied one, and that one too where `captures`
    /// holds and an opposing piece stands on it.
    pub open spec fn resolve(self, path: Seq<BoardPosition>, color: PieceColors, captures: bool) -> Seq<
        BoardPosition,
    >
        decreases path.len(),
    {
        if path.len() == 0 {
            Seq::empty()
        } else {
            match self.piece_at(path[0]) {
                None => seq![path[0]] + self.resolve(path.drop_first(), color, captures),
                Some(blocker) => if captures && blocker.owner != color {
                    seq![path[0]]
                } else {
                    Seq::empty()
                },
            }
        }
    }

    /// Each path of a list, resolved.
    pub open spec fn resolve_all(
        self,
        paths: Seq<Seq<BoardPosition>>,
        color: PieceColors,
        captures: bool,
    ) -> Seq<Seq<BoardPosition>> {
        Seq::new(paths.len(), |i: int| self.resolve(paths[i], color, captures))
    }

    /// The capture of a pawn on the diagonal towards the given side: the
    /// square diagonally ahead, where it holds an opposing piece.
    pub open spec fn pawn_diagonal(self, pawn: ChessPiece, columns: int) -> Seq<Seq<BoardPosition>> {
        match pawn.position.spec_offset(forward(pawn.owner), columns) {
            Some(square) => match self.piece_at(square) {
                Some(target) => if target.owner != pawn.owner {
                    seq![seq![square]]
                } else {
                    Seq::empty()
                },
                None => Seq::empty(),
            },
            None => Seq::empty(),
        }
    }

    /// The pawn that the given pawn may take in passing, if any: an opposing
    /// pawn that has just advanced two squares and stands beside it on its
    /// rank.
    pub open spec fn passed_pawn(self, pawn: ChessPiece) -> Option<BoardPosition> {
        match self.en_passant_position {
            Some(beside) => if pawn.kind == PieceTypes::Pawn && beside.row_index()
                == pawn.position.row_index() && (beside.column_index()
                == pawn.position.column_index() + 1 || beside.column_index()
                == pawn.position.column_index() - 1) && self.piece_at(beside) == Some(
                ChessPiece {
                    kind: PieceTypes::Pawn,
                    position: beside,
                    owner: pawn.owner.spec_opponent(),
                },
            ) {
                Some(beside)
            } else {
                None
            },
            None => None,
        }
    }

    /// The square on which the given pawn lands when it takes in passing, if
    /// it may: the empty square diagonally ahead, behind the pawn taken.
    pub open spec fn en_passant_destination(self, pawn: ChessPiece) -> Option<BoardPosition> {
        match self.passed_pawn(pawn) {
            Some(beside) => match pawn.position.spec_offset(
                forward(pawn.owner),
                beside.column_index() - pawn.position.column_index(),
            ) {
                Some(square) => if self.piece_at(square) is None {
                    Some(square)
                } else {
                    None
                },
                None => None,
            },
            None => None,
        }
    }

    /// The capturing paths of a pawn: the diagonal towards file `a`, the
    /// diagonal towards file `h`, then the capture in passing.
    pub open spec fn pawn_captures(self, pawn: ChessPiece) -> Seq<Seq<BoardPosition>> {
        self.pawn_diagonal(pawn, -1) + self.pawn_diagonal(pawn, 1) + (
        match self.en_passant_destination(pawn) {
            Some(square) => seq![seq![square]],
            None => Seq::empty(),
        })
    }

    /// The paths a piece can follow on this board, other pieces considered
    /// and the recorded check left aside. A pawn advances on empty squares
    /// only and captures on its diagonals; every other piece follows each
    /// path of its pattern up to the first occupied square, which it reaches
    /// where an opposing piece stands on it.
    pub open spec fn movement_paths(self, piece: ChessPiece) -> Seq<Seq<BoardPosition>> {
        if piece.kind == PieceTypes::Pawn {
            self.resolve_all(movement_pattern(piece), piece.owner, false) + self.pawn_captures(
                piece,
            )
        } else {
            self.resolve_all(movement_pattern(piece), piece.owner, true)
        }
    }

    /// Whether a piece can reach a square along one of its paths.
    pub open spec fn reaches(self, piece: ChessPiece, target: BoardPosition) -> bool {
        some_path_contains(self.movement_paths(piece), target)
    }

    /// Whether one of the given pieces can reach a square.
    pub open spec fn reached_by(self, attackers: Seq<ChessPiece>, target: BoardPosition) -> bool {
        exists|i: int| 0 <= i < attackers.len() && self.reaches(#[trigger] attackers[i], target)
    }

    /// Whether a square is attacked by the opponent of the given side: one
    /// of the opponent's pieces can reach it.
    pub open spec fn attacked(self, target: BoardPosition, color: PieceColors) -> bool {
        self.reached_by(self.pieces(color.spec_opponent()), target)
    }

    /// The paths of the given pieces that pass through a square, piece by
    /// piece in the order of the list.
    pub open spec fn paths_reaching(self, attackers: Seq<ChessPiece>, target: BoardPosition) -> Seq<
        Seq<BoardPosition>,
    >
        decreases attackers.len(),
    {
        if attackers.len() == 0 {
            Seq::empty()
        } else {
            self.paths_reaching(attackers.drop_last(), target) + paths_through(
                self.movement_paths(attackers.last()),
                target,
            )
        }
    }

    /// The paths of the opponent's pieces that reach the king of the given
    /// side.
    pub open spec fn attacking_paths(self, color: PieceColors) -> Seq<Seq<BoardPosition>> {
        self.paths_reaching(self.pieces(color.spec_opponent()), self.king_position(color))
    }

    /// The check to record after a move of the given side: that side's, if
    /// its king is reached; else its opponent's, if that king is reached;
    /// else none.
    pub open spec fn check_after(self, mover: PieceColors) -> Option<CheckedStateView> {
        if self.attacking_paths(mover).len() > 0 {
            Some(
                CheckedStateView {
                    color_in_check: mover,
                    check_paths: self.attacking_paths(mover),
                },
            )
        } else if self.attacking_paths(mover.spec_opponent()).len() > 0 {
            Some(
                CheckedStateView {
                    color_in_check: mover.spec_opponent(),
                    check_paths: self.attacking_paths(mover.spec_opponent()),
                },
            )
        } else {
            None
        }
    }

    /// Whether a piece may go to a square as far as the recorded check is
    /// concerned: a king may go where the opponent reaches no square, any
    /// other piece may go anywhere while no check is recorded and only onto
    /// the attacking paths while one is.
    pub open spec fn allowed(self, piece: ChessPiece, square: BoardPosition) -> bool {
        if piece.kind == PieceTypes::King {
            !self.attacked(square, piece.owner)
        } else {
            match self.check_positions() {
                Some(squares) => squares.contains(square),
                None => true,
            }
        }
    }

    /// The squares of a list that are allowed to a piece, in order.
    pub open spec fn allowed_of(self, piece: ChessPiece, squares: Seq<BoardPosition>) -> Seq<
        BoardPosition,
    >
        decreases squares.len(),
    {
        if squares.len() == 0 {
            Seq::empty()
        } else {
            let before = self.allowed_of(piece, squares.drop_last());
            if self.allowed(piece, squares.last()) {
                before.push(squares.last())
            } else {
                before
            }
        }
    }

    /// The squares a piece may move to: the squares of its paths, in order,
    /// that are allowed to it.
    pub open spec fn legal_destinations(self, piece: ChessPiece) -> Seq<BoardPosition> {
        self.allowed_of(piece, flatten(self.movement_paths(piece)))
    }

    /// Whether one of the given pieces has a square it may move to.
    pub open spec fn any_can_move(self, pieces: Seq<ChessPiece>) -> bool {
        exists|i: int|
            0 <= i < pieces.len() && self.legal_destinations(#[trigger] pieces[i]).len() > 0
    }

    /// Whether a piece that is no king has a square it may move to that lies
    /// on every attacking path of the recorded check.
    pub open spec fn can_block(self, piece: ChessPiece) -> bool {
        piece.kind != PieceTypes::King && exists|k: int|
            0 <= k < self.legal_destinations(piece).len() && every_path_contains(
                self.check_state->Some_0.check_paths,
                #[trigger] self.legal_destinations(piece)[k],
            )
    }

    /// Whether one of the given pieces can block the recorded check.
    pub open spec fn any_can_block(self, pieces: Seq<ChessPiece>) -> bool {
        exists|i: int| 0 <= i < pieces.len() && self.can_block(#[trigger] pieces[i])
    }

    /// Whether a side is checkmated: it is the side recorded in check, its
    /// king has no square it may move to, and no other piece of it may move
    /// onto a square that lies on every attacking path.
    pub open spec fn checkmate(self, color: PieceColors) -> bool {
        &&& self.in_check(color)
        &&& self.legal_destinations(
            ChessPiece {
                kind: PieceTypes::King,
                position: self.king_position(color),
                owner: color,
            },
        ).len() == 0
        &&& !self.any_can_block(self.pieces(color))
    }

    /// Whether a side is stalemated: it is not the side recorded in check,
    /// and none of its pieces has a square it may move to.
    pub open spec fn stalemate(self, color: PieceColors) -> bool {
        !self.in_check(color) && !self.any_can_move(self.pieces(color))
    }
}

} // verus!
