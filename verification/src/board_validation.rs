use crate::board::{cells_view, Board};
use crate::board_path::{path_wf, paths_view, paths_wf, BoardPath};
use crate::board_position::{on_board, BoardPosition};
use crate::chess_piece::ChessPiece;
use crate::piece_colors::PieceColors;
use crate::piece_types::PieceTypes;
use vstd::prelude::*;

verus! {

/// Whether a piece is one of the pieces of a list.
pub fn pieces_contain(pieces: &Vec<ChessPiece>, piece: &ChessPiece) -> (found: bool)
    ensures
        found == pieces@.contains(*piece),
{
    let mut i: usize = 0;
    while i < pieces.len()
        invariant
            i <= pieces.len(),
            forall|k: int| 0 <= k < i ==> pieces@[k] != *piece,
        decreases pieces.len() - i,
    {
        if pieces[i] == *piece {
            return true;
        }
        i += 1;
    }
    false
}

/// Whether every square of every path is a square of the board.
pub fn paths_are_valid(paths: &Vec<BoardPath>) -> (valid: bool)
    ensures
        valid == paths_wf(paths_view(paths@)),
{
    let ghost all = paths_view(paths@);
    let mut i: usize = 0;
    while i < paths.len()
        invariant
            all == paths_view(paths@),
            i <= paths.len(),
            forall|k: int| 0 <= k < i ==> path_wf(#[trigger] all[k]),
        decreases paths.len() - i,
    {
        let path = &paths[i].0;
        let mut j: usize = 0;
        while j < path.len()
            invariant
                all == paths_view(paths@),
                i < paths.len(),
                path@ == all[i as int],
                j <= path.len(),
                forall|k: int| 0 <= k < j ==> (#[trigger] path@[k]).wf(),
            decreases path.len() - j,
        {
            if !path[j].is_valid() {
                assert(!path_wf(all[i as int]));
                return false;
            }
            j += 1;
        }
        i += 1;
    }
    true
}

impl Board {
    /// Whether the grid has eight rows of eight cells.
    fn grid_is_well_formed(&self) -> (ok: bool)
        ensures
            ok == self@.grid_wf(),
    {
        let cells = self.get_cells();
        if cells.len() != 8 {
            return false;
        }
        let mut row: usize = 0;
        while row < 8
            invariant
                cells_view(cells@) == self@.cells,
                cells@.len() == 8,
                row <= 8,
                forall|k: int| 0 <= k < row ==> (#[trigger] self@.cells[k]).len() == 8,
            decreases 8 - row,
        {
            if cells[row].len() != 8 {
                assert(self@.cells[row as int].len() != 8);
                return false;
            }
            row += 1;
        }
        true
    }

    /// Whether every piece in a cell stands on that cell's square and is in
    /// the list of its side.
    fn cells_are_consistent(&self) -> (ok: bool)
        requires
            self@.grid_wf(),
        ensures
            ok == self@.cells_consistent(),
    {
        let cells = self.get_cells();
        let mut row: usize = 0;
        while row < 8
            invariant
                self@.grid_wf(),
                cells_view(cells@) == self@.cells,
                row <= 8,
                forall|r: int, c: int|
                    0 <= r < row && 0 <= c < 8 && (#[trigger] self@.cells[r][c]).0 is Some ==> {
                        let piece = self@.cells[r][c].0->Some_0;
                        &&& piece.position == BoardPosition::at(r, c)
                        &&& self@.pieces(piece.owner).contains(piece)
                    },
            decreases 8 - row,
        {
            let mut column: usize = 0;
            assert(self@.cells[row as int].len() == 8);
            while column < 8
                invariant
                    self@.grid_wf(),
                    cells_view(cells@) == self@.cells,
                    row < 8,
                    column <= 8,
                    forall|r: int, c: int|
                        0 <= r < row && 0 <= c < 8 && (#[trigger] self@.cells[r][c]).0 is Some ==> {
                            let piece = self@.cells[r][c].0->Some_0;
                            &&& piece.position == BoardPosition::at(r, c)
                            &&& self@.pieces(piece.owner).contains(piece)
                        },
                    forall|c: int|
                        0 <= c < column && (#[trigger] self@.cells[row as int][c]).0 is Some ==> {
                            let piece = self@.cells[row as int][c].0->Some_0;
                            &&& piece.position == BoardPosition::at(row as int, c)
                            &&& self@.pieces(piece.owner).contains(piece)
                        },
                decreases 8 - column,
            {
                assert(cells@[row as int]@ == self@.cells[row as int]);
                match cells[row][column].0 {
                    Some(piece) => {
                        let listed = pieces_contain(self.get_pieces_from(&piece.owner), &piece);
                        if piece.position != BoardPosition::from_indices(row, column) || !listed {
                            assert(on_board(row as int, column as int));
                            assert(self@.cells[row as int][column as int].0 == Some(piece));
                            return false;
                        }
                    },
                    None => {},
                }
                column += 1;
            }
            row += 1;
        }
        true
    }

    /// Whether every piece in a side's list belongs to that side and is the
    /// piece in the cell of its square, and no piece is listed twice.
    fn list_is_consistent(&self, color: PieceColors) -> (ok: bool)
        requires
            self@.grid_wf(),
        ensures
            ok == self@.list_consistent(color),
    {
        let pieces = self.get_pieces_from(&color);
        let mut i: usize = 0;
        while i < pieces.len()
            invariant
                self@.grid_wf(),
                pieces@ == self@.pieces(color),
                i <= pieces.len(),
                forall|k: int|
                    0 <= k < i ==> {
                        let piece = #[trigger] pieces@[k];
                        &&& piece.owner == color
                        &&& piece.position.wf()
                        &&& self@.piece_at(piece.position) == Some(piece)
                    },
                forall|k: int, m: int| 0 <= k < m < i ==> pieces@[k] != pieces@[m],
            decreases pieces.len() - i,
        {
            let piece = pieces[i];
            if piece.owner != color || !piece.position.is_valid() {
                return false;
            }
            match self.get_piece(&piece.position) {
                Some(found) => {
                    if found != piece {
                        return false;
                    }
                },
                None => {
                    return false;
                },
            }
            let mut k: usize = 0;
            while k < i
                invariant
                    pieces@ == self@.pieces(color),
                    i < pieces.len(),
                    piece == pieces@[i as int],
                    k <= i,
                    forall|m: int| 0 <= m < k ==> pieces@[m] != piece,
                decreases i - k,
            {
                if pieces[k] == piece {
                    assert(pieces@[k as int] == pieces@[i as int]);
                    return false;
                }
                k += 1;
            }
            i += 1;
        }
        true
    }

    /// Whether the square recorded for a side's king holds that side's king,
    /// and the side has no other king.
    fn king_is_consistent(&self, color: PieceColors) -> (ok: bool)
        requires
            self@.grid_wf(),
        ensures
            ok == self@.king_consistent(color),
    {
        let square = self.get_king_position(&color);
        if !square.is_valid() {
            return false;
        }
        let king = ChessPiece { kind: PieceTypes::King, position: square, owner: color };
        match self.get_piece(&square) {
            Some(found) => {
                if found != king {
                    return false;
                }
            },
            None => {
                return false;
            },
        }
        let pieces = self.get_pieces_from(&color);
        let mut i: usize = 0;
        while i < pieces.len()
            invariant
                pieces@ == self@.pieces(color),
                square == self@.king_position(color),
                i <= pieces.len(),
                forall|k: int|
                    0 <= k < i && (#[trigger] pieces@[k]).kind == PieceTypes::King
                        ==> pieces@[k].position == square,
            decreases pieces.len() - i,
        {
            if pieces[i].kind == PieceTypes::King && pieces[i].position != square {
                return false;
            }
            i += 1;
        }
        true
    }

    /// Whether the recorded squares are squares of the board.
    fn records_are_well_formed(&self) -> (ok: bool)
        ensures
            ok == self@.records_wf(),
    {
        match self.get_en_passant_position() {
            Some(square) => {
                if !square.is_valid() {
                    return false;
                }
            },
            None => {},
        }
        match self.get_check_state() {
            Some(recorded) => paths_are_valid(&recorded.check_paths),
            None => true,
        }
    }

    /// Whether the board is well formed: the grid and the lists of pieces
    /// agree, each side's king stands where it is recorded, and the recorded
    /// squares are squares of the board.
    pub fn is_well_formed(&self) -> (ok: bool)
        ensures
            ok == self@.wf(),
    {
        self.grid_is_well_formed() && self.cells_are_consistent() && self.list_is_consistent(
            PieceColors::White,
        ) && self.list_is_consistent(PieceColors::Black) && self.king_is_consistent(
            PieceColors::White,
        ) && self.king_is_consistent(PieceColors::Black) && self.records_are_well_formed()
    }
}

} // verus!
