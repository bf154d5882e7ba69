use crate::chess_piece::ChessPiece;
use crate::piece_colors::PieceColors;
use vstd::prelude::*;

verus! {

/// A cell of the board: empty, or holding one piece.
#[derive(Debug, Clone, Copy, PartialEq, Eq, Structural)]
pub struct ChessCell(pub Option<ChessPiece>);

impl ChessCell {
    /// A cell is well formed when the piece it holds, if any, is.
    pub open spec fn wf(self) -> bool {
        self.0 is Some ==> self.0->Some_0.wf()
    }

    /// A cell holding the given piece.
    pub fn some(piece: ChessPiece) -> (cell: ChessCell)
        ensures
            cell == ChessCell(Some(piece)),
    {
        ChessCell(Some(piece))
    }

    /// An empty cell.
    pub fn none() -> (cell: ChessCell)
        ensures
            cell == ChessCell(None),
    {
        ChessCell(None)
    }

    /// Whether the cell holds a piece.
    pub fn is_occupied(&self) -> (occupied: bool)
        ensures
            occupied == (self.0 is Some),
    {
        self.0.is_some()
    }

    /// Whether the cell holds a piece of the given side.
    pub fn piece_has_color(&self, color: &PieceColors) -> (matches: bool)
        ensures
            matches == (self.0 is Some && self.0->Some_0.owner == *color),
    {
        match &self.0 {
            Some(piece) => piece.owner == *color,
            None => false,
        }
    }

    /// Whether the cell holds no piece.
    pub fn is_empty(&self) -> (empty: bool)
        ensures
            empty == (self.0 is None),
    {
        self.0.is_none()
    }

    /// Returns the piece in the cell, if any.
    pub fn piece(&self) -> (piece: Option<ChessPiece>)
        ensures
            piece == self.0,
    {
        self.0
    }

    /// Returns the zero-based row and column of the piece in the cell, if
    /// any.
    pub fn position(&self) -> (cell: Option<(usize, usize)>)
        requires
            self.wf(),
        ensures
            cell is Some == self.0 is Some,
            cell is Some ==> cell->Some_0.0 == self.0->Some_0.position.row_index()
                && cell->Some_0.1 == self.0->Some_0.position.column_index(),
    {
        match &self.0 {
            Some(piece) => Some(piece.position()),
            None => None,
        }
    }
}

} // verus!
