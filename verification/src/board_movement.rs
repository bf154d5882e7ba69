use crate::board_position::BoardPosition;
use crate::chess_piece::ChessPiece;
use vstd::prelude::*;

verus! {

/// A move that is asked for: the piece to move, as it stands on the board,
/// and the square it should go to.
#[derive(Debug, Clone, Copy, PartialEq, Eq, Structural)]
pub struct BoardMovement {
    pub piece: ChessPiece,
    pub destination: BoardPosition,
}

impl BoardMovement {
    /// A move is well formed when its piece and its destination are.
    pub open spec fn wf(self) -> bool {
        self.piece.wf() && self.destination.wf()
    }
}

} // verus!
