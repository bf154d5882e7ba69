use crate::board_position::BoardPosition;
use crate::piece_colors::PieceColors;
use crate::piece_types::PieceTypes;
use vstd::prelude::*;

verus! {

/// A piece: its kind, the square it stands on and the side that owns it. A
/// piece has no identity beyond these three.
#[derive(Debug, Clone, Copy, PartialEq, Eq, Hash, Structural)]
pub struct ChessPiece {
    pub kind: PieceTypes,
    pub position: BoardPosition,
    pub owner: PieceColors,
}

impl ChessPiece {
    /// A piece is well formed when its square is.
    pub open spec fn wf(self) -> bool {
        self.position.wf()
    }

    /// The same piece standing on another square.
    pub open spec fn moved_to(self, destination: BoardPosition) -> ChessPiece {
        ChessPiece { kind: self.kind, position: destination, owner: self.owner }
    }

    /// Makes a piece of the given kind and side on the given square.
    pub fn new(kind: PieceTypes, position: BoardPosition, owner: PieceColors) -> (piece: ChessPiece)
        ensures
            piece == (ChessPiece { kind, position, owner }),
    {
        ChessPiece { kind, position, owner }
    }

    /// Returns the piece's kind.
    pub fn kind(&self) -> (kind: &PieceTypes)
        ensures
            *kind == self.kind,
    {
        &self.kind
    }

    /// Returns the side that owns the piece.
    pub fn color(&self) -> (color: &PieceColors)
        ensures
            *color == self.owner,
    {
        &self.owner
    }

    /// Returns the zero-based row and column of the piece's square.
    pub fn position(&self) -> (cell: (usize, usize))
        requires
            self.wf(),
        ensures
            cell.0 == self.position.row_index(),
            cell.1 == self.position.column_index(),
            cell.0 < 8,
            cell.1 < 8,
    {
        self.position.indices()
    }

    /// Returns the square the piece stands on.
    pub fn board_position(&self) -> (square: &BoardPosition)
        ensures
            *square == self.position,
    {
        &self.position
    }

    /// Puts the piece on another square.
    pub fn update_position(&mut self, destination: BoardPosition)
        ensures
            *final(self) == old(self).moved_to(destination),
    {
        self.position = destination;
    }
}

} // verus!
