use crate::board_path::{duplicate_paths, flatten, flatten_paths, paths_view, paths_wf, BoardPath};
use crate::board_position::{on_board, BoardPosition};
use crate::chess_cell::ChessCell;
use crate::chess_piece::ChessPiece;
use crate::piece_colors::PieceColors;
use crate::piece_types::PieceTypes;
use vstd::prelude::*;

verus! {

/// A recorded check: the side whose king is attacked, and the paths of the
/// attacking pieces that reach the king.
#[derive(Debug, Clone, PartialEq, Eq)]
pub struct CheckedState {
    pub color_in_check: PieceColors,
    pub check_paths: Vec<BoardPath>,
}

/// The castling rights of one side: whether it may still castle with the
/// rook on the left (file `a`) and with the rook on the right (file `h`).
#[derive(Debug, Clone, Copy, PartialEq, Eq, Structural)]
pub struct CastlingState {
    pub can_use_left_rook: bool,
    pub can_use_right_rook: bool,
}

/// The board: the grid of cells, the pieces of each side, where the kings
/// stand, the recorded check, the pawn that may be taken in passing and the
/// castling rights. Its fields are reached through its methods only, so
/// that the grid and the lists of pieces cannot be made to disagree.
#[derive(Debug, Clone, PartialEq, Eq)]
pub struct Board {
    black_pieces: Vec<ChessPiece>,
    white_pieces: Vec<ChessPiece>,
    white_king_position: BoardPosition,
    black_king_position: BoardPosition,
    check_state: Option<CheckedState>,
    en_passant_position: Option<BoardPosition>,
    white_castling: Option<CastlingState>,
    black_castling: Option<CastlingState>,
    cells: Vec<Vec<ChessCell>>,
}

/// What a recorded check holds, as mathematical values.
pub struct CheckedStateView {
    pub color_in_check: PieceColors,
    pub check_paths: Seq<Seq<BoardPosition>>,
}

/// What a board holds, as mathematical values.
pub struct BoardView {
    pub cells: Seq<Seq<ChessCell>>,
    pub black_pieces: Seq<ChessPiece>,
    pub white_pieces: Seq<ChessPiece>,
    pub white_king_position: BoardPosition,
    pub black_king_position: BoardPosition,
    pub check_state: Option<CheckedStateView>,
    pub en_passant_position: Option<BoardPosition>,
    pub white_castling: Option<CastlingState>,
    pub black_castling: Option<CastlingState>,
}

impl View for CheckedState {
    type V = CheckedStateView;

    open spec fn view(&self) -> CheckedStateView {
        CheckedStateView {
            color_in_check: self.color_in_check,
            check_paths: paths_view(self.check_paths@),
        }
    }
}

/// The cells of a grid of vectors, row by row.
pub open spec fn cells_view(cells: Seq<Vec<ChessCell>>) -> Seq<Seq<ChessCell>> {
    Seq::new(cells.len(), |row: int| cells[row]@)
}

/// The view of a recorded check, if there is one.
pub open spec fn check_view(state: Option<CheckedState>) -> Option<CheckedStateView> {
    match state {
        Some(recorded) => Some(recorded@),
        None => None,
    }
}

impl View for Board {
    type V = BoardView;

    closed spec fn view(&self) -> BoardView {
        BoardView {
            cells: cells_view(self.cells@),
            black_pieces: self.black_pieces@,
            white_pieces: self.white_pieces@,
            white_king_position: self.white_king_position,
            black_king_position: self.black_king_position,
            check_state: check_view(self.check_state),
            en_passant_position: self.en_passant_position,
            white_castling: self.white_castling,
            black_castling: self.black_castling,
        }
    }
}

impl BoardView {
    /// The cell of a square.
    pub open spec fn cell_at(self, position: BoardPosition) -> ChessCell {
        self.cells[position.row_index()][position.column_index()]
    }

    /// The piece on a square, if any.
    pub open spec fn piece_at(self, position: BoardPosition) -> Option<ChessPiece> {
        self.cell_at(position).0
    }

    /// The pieces of a side, in the order of its list.
    pub open spec fn pieces(self, color: PieceColors) -> Seq<ChessPiece> {
        match color {
            PieceColors::Black => self.black_pieces,
            PieceColors::White => self.white_pieces,
        }
    }

    /// The square on which a side's king is recorded to stand.
    pub open spec fn king_position(self, color: PieceColors) -> BoardPosition {
        match color {
            PieceColors::Black => self.black_king_position,
            PieceColors::White => self.white_king_position,
        }
    }

    /// The castling rights recorded for a side; none are recorded once its
    /// king has moved.
    pub open spec fn castling(self, color: PieceColors) -> Option<CastlingState> {
        match color {
            PieceColors::Black => self.black_castling,
            PieceColors::White => self.white_castling,
        }
    }

    /// Whether a side may still castle with its left rook.
    pub open spec fn may_castle_left(self, color: PieceColors) -> bool {
        self.castling(color) is Some && self.castling(color)->Some_0.can_use_left_rook
    }

    /// Whether a side may still castle with its right rook.
    pub open spec fn may_castle_right(self, color: PieceColors) -> bool {
        self.castling(color) is Some && self.castling(color)->Some_0.can_use_right_rook
    }

    /// Whether a side is the one recorded as being in check.
    pub open spec fn in_check(self, color: PieceColors) -> bool {
        self.check_state is Some && self.check_state->Some_0.color_in_check == color
    }

    /// The grid has eight rows of eight cells.
    pub open spec fn grid_wf(self) -> bool {
        &&& self.cells.len() == 8
        &&& forall|row: int| 0 <= row < 8 ==> (#[trigger] self.cells[row]).len() == 8
    }

    /// Every piece in a cell stands on that cell's square and is in the list
    /// of its side.
    pub open spec fn cells_consistent(self) -> bool {
        forall|row: int, column: int|
            on_board(row, column) && (#[trigger] self.cells[row][column]).0 is Some ==> {
                let piece = self.cells[row][column].0->Some_0;
                &&& piece.position == BoardPosition::at(row, column)
                &&& self.pieces(piece.owner).contains(piece)
            }
    }

    /// Every piece in a side's list belongs to that side and is the piece in
    /// the cell of its square, and no piece is listed twice.
    pub open spec fn list_consistent(self, color: PieceColors) -> bool {
        &&& forall|i: int|
            0 <= i < self.pieces(color).len() ==> {
                let piece = #[trigger] self.pieces(color)[i];
                &&& piece.owner == color
                &&& piece.position.wf()
                &&& self.piece_at(piece.position) == Some(piece)
            }
        &&& forall|i: int, j: int|
            0 <= i < j < self.pieces(color).len() ==> self.pieces(color)[i] != self.pieces(
                color,
            )[j]
    }

    /// The square recorded for a side's king holds that side's king, and the
    /// side has no other king.
    pub open spec fn king_consistent(self, color: PieceColors) -> bool {
        &&& self.king_position(color).wf()
        &&& self.piece_at(self.king_position(color)) == Some(
            ChessPiece {
                kind: PieceTypes::King,
                position: self.king_position(color),
                owner: color,
            },
        )
        &&& forall|i: int|
            0 <= i < self.pieces(color).len() && (#[trigger] self.pieces(color)[i]).kind
                == PieceTypes::King ==> self.pieces(color)[i].position == self.king_position(
                color,
            )
    }

    /// The grid and the lists of pieces agree: the part of well-formedness
    /// that does not speak of the kings.
    pub open spec fn pieces_wf(self) -> bool {
        &&& self.grid_wf()
        &&& self.cells_consistent()
        &&& self.list_consistent(PieceColors::White)
        &&& self.list_consistent(PieceColors::Black)
    }

    /// The recorded squares are squares of the board.
    pub open spec fn records_wf(self) -> bool {
        &&& self.en_passant_position is Some ==> self.en_passant_position->Some_0.wf()
        &&& self.check_state is Some ==> paths_wf(self.check_state->Some_0.check_paths)
    }

    /// A board is well formed when the grid and the lists of pieces agree,
    /// each side's king stands where it is recorded, and the recorded squares
    /// are squares of the board.
    pub open spec fn wf(self) -> bool {
        &&& self.pieces_wf()
        &&& self.king_consistent(PieceColors::White)
        &&& self.king_consistent(PieceColors::Black)
        &&& self.records_wf()
    }

    /// The board with the castling rights of a side taken away.
    pub open spec fn without_castling(self, color: PieceColors) -> BoardView {
        match color {
            PieceColors::Black => BoardView { black_castling: None, ..self },
            PieceColors::White => BoardView { white_castling: None, ..self },
        }
    }

    /// The squares of all the attacking paths of the recorded check, if a
    /// check is recorded.
    pub open spec fn check_positions(self) -> Option<Seq<BoardPosition>> {
        match self.check_state {
            Some(recorded) => Some(flatten(recorded.check_paths)),
            None => None,
        }
    }
}

/// The board made of the given parts.
pub open spec fn assembled(
    cells: Seq<Seq<ChessCell>>,
    black_pieces: Seq<ChessPiece>,
    white_pieces: Seq<ChessPiece>,
    white_king_position: BoardPosition,
    black_king_position: BoardPosition,
    check_state: Option<CheckedStateView>,
    en_passant_position: Option<BoardPosition>,
    white_castling: Option<CastlingState>,
    black_castling: Option<CastlingState>,
) -> BoardView {
    BoardView {
        cells,
        black_pieces,
        white_pieces,
        white_king_position,
        black_king_position,
        check_state,
        en_passant_position,
        white_castling,
        black_castling,
    }
}

impl CheckedState {
    /// A copy of the recorded check.
    pub fn duplicate(&self) -> (copy: CheckedState)
        ensures
            copy@ == self@,
    {
        CheckedState {
            color_in_check: self.color_in_check,
            check_paths: duplicate_paths(&self.check_paths),
        }
    }
}

impl Board {
    /// Makes a board of the given parts, which must agree with each other as
    /// `BoardView::wf` says. `try_new` makes the same board after testing
    /// that they do.
    pub fn new(
        cells: Vec<Vec<ChessCell>>,
        black_pieces: Vec<ChessPiece>,
        white_pieces: Vec<ChessPiece>,
        white_king_position: BoardPosition,
        black_king_position: BoardPosition,
        check_state: Option<CheckedState>,
        en_passant_position: Option<BoardPosition>,
        white_castling: Option<CastlingState>,
        black_castling: Option<CastlingState>,
    ) -> (board: Board)
        requires
            assembled(
                cells_view(cells@),
                black_pieces@,
                white_pieces@,
                white_king_position,
                black_king_position,
                check_view(check_state),
                en_passant_position,
                white_castling,
                black_castling,
            ).wf(),
        ensures
            board@ == assembled(
                cells_view(cells@),
                black_pieces@,
                white_pieces@,
                white_king_position,
                black_king_position,
                check_view(check_state),
                en_passant_position,
                white_castling,
                black_castling,
            ),
            board@.wf(),
    {
        Board {
            cells,
            black_pieces,
            white_pieces,
            check_state,
            white_king_position,
            black_king_position,
            en_passant_position,
            white_castling,
            black_castling,
        }
    }

    /// Makes a board of the given parts if they agree with each other as
    /// `BoardView::wf` says, and gives `None` if they do not.
    pub fn try_new(
        cells: Vec<Vec<ChessCell>>,
        black_pieces: Vec<ChessPiece>,
        white_pieces: Vec<ChessPiece>,
        white_king_position: BoardPosition,
        black_king_position: BoardPosition,
        check_state: Option<CheckedState>,
        en_passant_position: Option<BoardPosition>,
        white_castling: Option<CastlingState>,
        black_castling: Option<CastlingState>,
    ) -> (board: Option<Board>)
        ensures
            board is Some <==> assembled(
                cells_view(cells@),
                black_pieces@,
                white_pieces@,
                white_king_position,
                black_king_position,
                check_view(check_state),
                en_passant_position,
                white_castling,
                black_castling,
            ).wf(),
            board is Some ==> board->Some_0@ == assembled(
                cells_view(cells@),
                black_pieces@,
                white_pieces@,
                white_king_position,
                black_king_position,
                check_view(check_state),
                en_passant_position,
                white_castling,
                black_castling,
            ),
    {
        let candidate = Board {
            cells,
            black_pieces,
            white_pieces,
            check_state,
            white_king_position,
            black_king_position,
            en_passant_position,
            white_castling,
            black_castling,
        };
        if candidate.is_well_formed() {
            Some(candidate)
        } else {
            None
        }
    }

    /// Whether the given side is the one recorded as being in check.
    pub fn is_in_check(&self, owner: &PieceColors) -> (checked: bool)
        ensures
            checked == self@.in_check(*owner),
    {
        match &self.check_state {
            Some(recorded) => recorded.color_in_check == *owner,
            None => false,
        }
    }

    /// Whether the given side is the one recorded as being in check.
    pub fn color_in_check(&self, owner: &PieceColors) -> (checked: bool)
        ensures
            checked == self@.in_check(*owner),
    {
        self.is_in_check(owner)
    }

    /// Returns the cell of a square.
    pub fn get_cell(&self, position: &BoardPosition) -> (cell: Option<&ChessCell>)
        requires
            self@.grid_wf(),
            position.wf(),
        ensures
            cell == Some(&self@.cell_at(*position)),
    {
        let (row, column) = position.indices();
        assert(self@.cells[row as int].len() == 8);
        Some(&self.cells[row][column])
    }

    /// Returns the piece on a square, if there is one.
    pub fn get_piece(&self, position: &BoardPosition) -> (piece: Option<ChessPiece>)
        requires
            self@.grid_wf(),
            position.wf(),
        ensures
            piece == self@.piece_at(*position),
    {
        let (row, column) = position.indices();
        assert(self@.cells[row as int].len() == 8);
        self.cells[row][column].0
    }

    /// Returns the squares of all the attacking paths of the recorded check,
    /// one path after another, or `None` while no check is recorded.
    pub fn get_check_positions(&self) -> (squares: Option<Vec<BoardPosition>>)
        ensures
            squares is Some <==> self@.check_positions() is Some,
            squares is Some ==> squares->Some_0@ == self@.check_positions()->Some_0,
    {
        match &self.check_state {
            Some(recorded) => Some(flatten_paths(&recorded.check_paths)),
            None => None,
        }
    }

    /// Returns the recorded check, if there is one.
    pub fn get_check_state(&self) -> (recorded: &Option<CheckedState>)
        ensures
            check_view(*recorded) == self@.check_state,
    {
        &self.check_state
    }

    /// Returns the grid of cells, row by row from rank 1.
    pub fn get_cells(&self) -> (cells: &Vec<Vec<ChessCell>>)
        ensures
            cells_view(cells@) == self@.cells,
    {
        &self.cells
    }

    /// Returns the pieces of a side, in the order of its list.
    pub fn get_pieces_from(&self, color: &PieceColors) -> (pieces: &Vec<ChessPiece>)
        ensures
            pieces@ == self@.pieces(*color),
    {
        match color {
            PieceColors::Black => &self.black_pieces,
            PieceColors::White => &self.white_pieces,
        }
    }

    /// Returns the square on which a side's king is recorded to stand.
    pub fn get_king_position(&self, piece_color: &PieceColors) -> (square: BoardPosition)
        ensures
            square == self@.king_position(*piece_color),
    {
        match piece_color {
            PieceColors::Black => self.black_king_position,
            PieceColors::White => self.white_king_position,
        }
    }

    /// Returns the castling rights recorded for a side.
    pub fn get_castling_state(&self, color: &PieceColors) -> (rights: &Option<CastlingState>)
        ensures
            *rights == self@.castling(*color),
    {
        match color {
            PieceColors::Black => &self.black_castling,
            PieceColors::White => &self.white_castling,
        }
    }

    /// Returns the pawn that has just advanced two squares, if the last move
    /// was such an advance.
    pub fn get_en_passant_position(&self) -> (square: Option<BoardPosition>)
        ensures
            square == self@.en_passant_position,
    {
        self.en_passant_position
    }
}

impl Board {
    /// Replaces the recorded check.
    pub(crate) fn set_check_state(&mut self, recorded: Option<CheckedState>)
        ensures
            final(self)@ == (BoardView { check_state: check_view(recorded), ..old(self)@ }),
    {
        self.check_state = recorded;
    }

    /// Replaces the record of the pawn that may be taken in passing.
    pub(crate) fn set_en_passant_position(&mut self, square: Option<BoardPosition>)
        ensures
            final(self)@ == (BoardView { en_passant_position: square, ..old(self)@ }),
    {
        self.en_passant_position = square;
    }

    /// Takes away the castling rights of a side.
    pub(crate) fn revoke_castling(&mut self, color: PieceColors)
        ensures
            final(self)@ == old(self)@.without_castling(color),
    {
        match color {
            PieceColors::Black => {
                self.black_castling = None;
            },
            PieceColors::White => {
                self.white_castling = None;
            },
        }
    }
}

/// Returns the place of a piece in a list that holds it.
fn find_piece(pieces: &Vec<ChessPiece>, piece: &ChessPiece) -> (index: usize)
    requires
        pieces@.contains(*piece),
    ensures
        index < pieces.len(),
        pieces@[index as int] == *piece,
{
    let mut i: usize = 0;
    while i < pieces.len()
        invariant
            i <= pieces.len(),
            pieces@.contains(*piece),
            forall|k: int| 0 <= k < i ==> pieces@[k] != *piece,
        decreases pieces.len() - i,
    {
        if pieces[i] == *piece {
            return i;
        }
        i += 1;
    }
    proof {
        let k = choose|k: int| 0 <= k < pieces@.len() && pieces@[k] == *piece;
        assert(pieces@[k] != *piece);
    }
    vstd::pervasive::unreached()
}

impl Board {
    /// Replaces the cell of a square.
    fn set_cell(&mut self, position: &BoardPosition, cell: ChessCell)
        requires
            old(self)@.grid_wf(),
            position.wf(),
        ensures
            final(self)@ == old(self)@.with_cell(*position, cell),
    {
        let ghost before = self@;
        let (row, column) = position.indices();
        assert(before.cells[row as int].len() == 8);
        self.cells[row][column] = cell;
        assert(self@.cells =~~= before.with_cell(*position, cell).cells);
    }

    /// Replaces the list of a side by the same list without the piece at the
    /// given place.
    fn unlist(&mut self, color: PieceColors, index: usize)
        requires
            index < old(self)@.pieces(color).len(),
        ensures
            final(self)@ == old(self)@.with_pieces(
                color,
                old(self)@.pieces(color).remove(index as int),
            ),
    {
        match color {
            PieceColors::Black => {
                self.black_pieces.remove(index);
            },
            PieceColors::White => {
                self.white_pieces.remove(index);
            },
        }
    }

    /// Replaces the piece at the given place of a side's list.
    fn relist(&mut self, color: PieceColors, index: usize, piece: ChessPiece)
        requires
            index < old(self)@.pieces(color).len(),
        ensures
            final(self)@ == old(self)@.with_pieces(
                color,
                old(self)@.pieces(color).update(index as int, piece),
            ),
    {
        match color {
            PieceColors::Black => {
                self.black_pieces[index] = piece;
            },
            PieceColors::White => {
                self.white_pieces[index] = piece;
            },
        }
    }

    /// Records the square of a side's king.
    fn set_king_position(&mut self, color: PieceColors, position: BoardPosition)
        ensures
            final(self)@ == old(self)@.with_king_position(color, position),
    {
        match color {
            PieceColors::Black => {
                self.black_king_position = position;
            },
            PieceColors::White => {
                self.white_king_position = position;
            },
        }
    }

    /// Takes the piece on a square off the board: its cell is emptied and
    /// the piece leaves the list of its side.
    pub(crate) fn remove_piece_at(&mut self, position: &BoardPosition)
        requires
            old(self)@.pieces_wf(),
            position.wf(),
            old(self)@.piece_at(*position) is Some,
        ensures
            final(self)@ == old(self)@.removed(*position),
            final(self)@.pieces_wf(),
    {
        let ghost before = self@;
        let piece = match self.get_piece(position) {
            Some(piece) => piece,
            None => vstd::pervasive::unreached(),
        };
        proof {
            position.lemma_at_indices();
            assert(before.cells[position.row_index()][position.column_index()].0 is Some);
            before.lemma_listed(piece);
            before.lemma_removed(*position);
        }
        let index = find_piece(self.get_pieces_from(&piece.owner), &piece);
        self.set_cell(position, ChessCell(None));
        self.unlist(piece.owner, index);
    }

    /// Moves the piece on `from` to the empty square `to`: the cells and the
    /// piece's entry in the list of its side are updated, and so is the
    /// recorded square of the king where the piece is one.
    pub(crate) fn relocate_piece(&mut self, from: &BoardPosition, to: &BoardPosition)
        requires
            old(self)@.pieces_wf(),
            from.wf(),
            to.wf(),
            old(self)@.piece_at(*from) is Some,
            old(self)@.piece_at(*to) is None,
        ensures
            final(self)@ == old(self)@.relocated(*from, *to),
            final(self)@.pieces_wf(),
    {
        let ghost before = self@;
        let piece = match self.get_piece(from) {
            Some(piece) => piece,
            None => vstd::pervasive::unreached(),
        };
        proof {
            from.lemma_at_indices();
            assert(before.cells[from.row_index()][from.column_index()].0 is Some);
            before.lemma_listed(piece);
            before.lemma_relocated(*from, *to);
            before.lemma_with_cell(*from, ChessCell(None));
        }
        let index = find_piece(self.get_pieces_from(&piece.owner), &piece);
        let mut landed = piece;
        landed.update_position(*to);
        self.set_cell(from, ChessCell(None));
        self.set_cell(to, ChessCell(Some(landed)));
        self.relist(piece.owner, index, landed);
        if piece.kind == PieceTypes::King {
            self.set_king_position(piece.owner, *to);
        }
    }
}

/// Returns a copy of a list of pieces.
fn copy_pieces(pieces: &Vec<ChessPiece>) -> (copy: Vec<ChessPiece>)
    ensures
        copy@ == pieces@,
{
    let mut copy: Vec<ChessPiece> = Vec::new();
    let mut i: usize = 0;
    while i < pieces.len()
        invariant
            i <= pieces.len(),
            copy@ == pieces@.take(i as int),
        decreases pieces.len() - i,
    {
        copy.push(pieces[i]);
        assert(copy@ =~= pieces@.take(i + 1));
        i += 1;
    }
    assert(pieces@.take(pieces.len() as int) =~= pieces@);
    copy
}

/// Returns a copy of a row of cells.
fn copy_row(row: &Vec<ChessCell>) -> (copy: Vec<ChessCell>)
    ensures
        copy@ == row@,
{
    let mut copy: Vec<ChessCell> = Vec::new();
    let mut i: usize = 0;
    while i < row.len()
        invariant
            i <= row.len(),
            copy@ == row@.take(i as int),
        decreases row.len() - i,
    {
        copy.push(row[i]);
        assert(copy@ =~= row@.take(i + 1));
        i += 1;
    }
    assert(row@.take(row.len() as int) =~= row@);
    copy
}

/// Returns a copy of a grid of cells.
fn copy_cells(cells: &Vec<Vec<ChessCell>>) -> (copy: Vec<Vec<ChessCell>>)
    ensures
        cells_view(copy@) == cells_view(cells@),
{
    let mut copy: Vec<Vec<ChessCell>> = Vec::new();
    let mut i: usize = 0;
    while i < cells.len()
        invariant
            i <= cells.len(),
            copy@.len() == i,
            forall|k: int| 0 <= k < i ==> (#[trigger] copy@[k])@ == cells@[k]@,
        decreases cells.len() - i,
    {
        copy.push(copy_row(&cells[i]));
        i += 1;
    }
    assert(cells_view(copy@) =~= cells_view(cells@));
    copy
}

impl Board {
    /// Returns a copy of the board.
    pub fn duplicate(&self) -> (copy: Board)
        ensures
            copy@ == self@,
    {
        Board {
            black_pieces: copy_pieces(&self.black_pieces),
            white_pieces: copy_pieces(&self.white_pieces),
            white_king_position: self.white_king_position,
            black_king_position: self.black_king_position,
            check_state: match &self.check_state {
                Some(recorded) => Some(recorded.duplicate()),
                None => None,
            },
            en_passant_position: self.en_passant_position,
            white_castling: self.white_castling,
            black_castling: self.black_castling,
            cells: copy_cells(&self.cells),
        }
    }
}

} // verus!
