use crate::board::{assembled, cells_view, Board, BoardView, CastlingState};
use crate::board_position::{on_board, BoardPosition};
use crate::chess_cell::ChessCell;
use crate::chess_piece::ChessPiece;
use crate::move_rules::home_row;
use crate::piece_colors::PieceColors;
use crate::piece_types::PieceTypes;
use vstd::prelude::*;

verus! {

/// The kind of the piece that starts on the given file of its side's back
/// rank.
pub open spec fn back_rank_kind(column: int) -> PieceTypes {
    if column == 0 || column == 7 {
        PieceTypes::Rook
    } else if column == 1 || column == 6 {
        PieceTypes::Knight
    } else if column == 2 || column == 5 {
        PieceTypes::Bishop
    } else if column == 3 {
        PieceTypes::Queen
    } else {
        PieceTypes::King
    }
}

/// The zero-based row on which a side's pawns start.
pub open spec fn pawn_row(color: PieceColors) -> int {
    match color {
        PieceColors::White => 1,
        PieceColors::Black => 6,
    }
}

/// The piece that starts on the given file of a side's back rank.
pub open spec fn starting_officer(color: PieceColors, column: int) -> ChessPiece {
    ChessPiece {
        kind: back_rank_kind(column),
        position: BoardPosition::at(home_row(color), column),
        owner: color,
    }
}

/// The pawn that starts on the given file for a side.
pub open spec fn starting_pawn(color: PieceColors, column: int) -> ChessPiece {
    ChessPiece {
        kind: PieceTypes::Pawn,
        position: BoardPosition::at(pawn_row(color), column),
        owner: color,
    }
}

/// The cell of a square when a game starts.
pub open spec fn starting_cell(row: int, column: int) -> ChessCell {
    if row == 0 {
        ChessCell(Some(starting_officer(PieceColors::White, column)))
    } else if row == 1 {
        ChessCell(Some(starting_pawn(PieceColors::White, column)))
    } else if row == 6 {
        ChessCell(Some(starting_pawn(PieceColors::Black, column)))
    } else if row == 7 {
        ChessCell(Some(starting_officer(PieceColors::Black, column)))
    } else {
        ChessCell(None)
    }
}

/// The sixteen pieces of a side when a game starts: the back rank from file
/// `a` to file `h`, then the pawns from file `a` to file `h`.
pub open spec fn starting_pieces(color: PieceColors) -> Seq<ChessPiece> {
    Seq::new(
        16,
        |i: int|
            if i < 8 {
                starting_officer(color, i)
            } else {
                starting_pawn(color, i - 8)
            },
    )
}

/// The board when a game starts: the thirty-two pieces on their squares, no
/// check, no pawn to take in passing, and every castling right.
pub open spec fn starting_view() -> BoardView {
    BoardView {
        cells: Seq::new(8, |row: int| Seq::new(8, |column: int| starting_cell(row, column))),
        black_pieces: starting_pieces(PieceColors::Black),
        white_pieces: starting_pieces(PieceColors::White),
        white_king_position: BoardPosition::at(0, 4),
        black_king_position: BoardPosition::at(7, 4),
        check_state: None,
        en_passant_position: None,
        white_castling: Some(CastlingState { can_use_left_rook: true, can_use_right_rook: true }),
        black_castling: Some(CastlingState { can_use_left_rook: true, can_use_right_rook: true }),
    }
}

/// The pieces of a side at the start agree with the grid at the start.
proof fn lemma_starting_list(color: PieceColors)
    ensures
        starting_view().list_consistent(color),
        starting_view().king_consistent(color),
{
    let board = starting_view();
    let listed = board.pieces(color);
    assert(listed == starting_pieces(color));
    assert forall|i: int| 0 <= i < listed.len() implies {
        let piece = #[trigger] listed[i];
        &&& piece.owner == color
        &&& piece.position.wf()
        &&& board.piece_at(piece.position) == Some(piece)
        &&& piece.position.row_index() == (if i < 8 {
            home_row(color)
        } else {
            pawn_row(color)
        })
        &&& piece.position.column_index() == (if i < 8 {
            i
        } else {
            i - 8
        })
    } by {
        if i < 8 {
            BoardPosition::lemma_at(home_row(color), i);
        } else {
            BoardPosition::lemma_at(pawn_row(color), i - 8);
        }
    }
    BoardPosition::lemma_at(home_row(color), 4);
    assert(listed[4] == starting_officer(color, 4));
    assert(board.king_position(color) == BoardPosition::at(home_row(color), 4));
    assert forall|i: int|
        0 <= i < listed.len() && (#[trigger] listed[i]).kind == PieceTypes::King implies listed[i].position
        == board.king_position(color) by {
        assert(i == 4);
    }
}

/// The board at the start of a game is well formed.
pub proof fn lemma_starting_wf()
    ensures
        starting_view().wf(),
{
    let board = starting_view();
    lemma_starting_list(PieceColors::White);
    lemma_starting_list(PieceColors::Black);
    assert forall|row: int, column: int|
        on_board(row, column) && (#[trigger] board.cells[row][column]).0 is Some implies {
        let piece = board.cells[row][column].0->Some_0;
        &&& piece.position == BoardPosition::at(row, column)
        &&& board.pieces(piece.owner).contains(piece)
    } by {
        let piece = board.cells[row][column].0->Some_0;
        assert(board.cells[row][column] == starting_cell(row, column));
        let index = if row == 0 || row == 7 {
            column
        } else {
            column + 8
        };
        assert(board.pieces(piece.owner)[index] == piece);
    }
}

/// Returns the kind of the piece that starts on the given file of its
/// side's back rank.
fn officer_kind(column: usize) -> (kind: PieceTypes)
    ensures
        kind == back_rank_kind(column as int),
{
    if column == 0 || column == 7 {
        PieceTypes::Rook
    } else if column == 1 || column == 6 {
        PieceTypes::Knight
    } else if column == 2 || column == 5 {
        PieceTypes::Bishop
    } else if column == 3 {
        PieceTypes::Queen
    } else {
        PieceTypes::King
    }
}

/// Returns the eight cells of a rank at the start of a game.
fn starting_rank(row: usize) -> (cells: Vec<ChessCell>)
    requires
        row < 8,
    ensures
        cells@ == Seq::new(8, |column: int| starting_cell(row as int, column)),
{
    let mut cells: Vec<ChessCell> = Vec::new();
    let mut column: usize = 0;
    while column < 8
        invariant
            row < 8,
            column <= 8,
            cells@.len() == column,
            forall|k: int| 0 <= k < column ==> cells@[k] == starting_cell(row as int, k),
        decreases 8 - column,
    {
        let position = BoardPosition::from_indices(row, column);
        let cell = if row == 0 {
            ChessCell::some(ChessPiece::new(officer_kind(column), position, PieceColors::White))
        } else if row == 1 {
            ChessCell::some(ChessPiece::new(PieceTypes::Pawn, position, PieceColors::White))
        } else if row == 6 {
            ChessCell::some(ChessPiece::new(PieceTypes::Pawn, position, PieceColors::Black))
        } else if row == 7 {
            ChessCell::some(ChessPiece::new(officer_kind(column), position, PieceColors::Black))
        } else {
            ChessCell::none()
        };
        cells.push(cell);
        column += 1;
    }
    assert(cells@ =~= Seq::new(8, |column: int| starting_cell(row as int, column)));
    cells
}

/// Returns the sixteen pieces of a side at the start of a game.
fn starting_side(color: PieceColors) -> (pieces: Vec<ChessPiece>)
    ensures
        pieces@ == starting_pieces(color),
{
    let (home, pawns): (usize, usize) = match color {
        PieceColors::White => (0, 1),
        PieceColors::Black => (7, 6),
    };
    let mut pieces: Vec<ChessPiece> = Vec::new();
    let mut i: usize = 0;
    while i < 16
        invariant
            i <= 16,
            home == home_row(color),
            pawns == pawn_row(color),
            pieces@.len() == i,
            forall|k: int| 0 <= k < i ==> pieces@[k] == starting_pieces(color)[k],
        decreases 16 - i,
    {
        let piece = if i < 8 {
            ChessPiece::new(officer_kind(i), BoardPosition::from_indices(home, i), color)
        } else {
            ChessPiece::new(PieceTypes::Pawn, BoardPosition::from_indices(pawns, i - 8), color)
        };
        pieces.push(piece);
        i += 1;
    }
    assert(pieces@ =~= starting_pieces(color));
    pieces
}

/// Returns the pieces of White, the pieces of Black and the grid of cells
/// at the start of a game.
pub fn generate_starting_chess_cells() -> (parts: (
    Vec<ChessPiece>,
    Vec<ChessPiece>,
    Vec<Vec<ChessCell>>,
))
    ensures
        parts.0@ == starting_pieces(PieceColors::White),
        parts.1@ == starting_pieces(PieceColors::Black),
        cells_view(parts.2@) == starting_view().cells,
{
    let mut cells: Vec<Vec<ChessCell>> = Vec::new();
    let mut row: usize = 0;
    while row < 8
        invariant
            row <= 8,
            cells@.len() == row,
            forall|k: int|
                0 <= k < row ==> (#[trigger] cells@[k])@ == Seq::new(
                    8,
                    |column: int| starting_cell(k, column),
                ),
        decreases 8 - row,
    {
        cells.push(starting_rank(row));
        row += 1;
    }
    assert(cells_view(cells@) =~= starting_view().cells);
    (starting_side(PieceColors::White), starting_side(PieceColors::Black), cells)
}

/// Returns the board at the start of a game: sixteen pieces a side on their
/// squares, the white king on `e1` and the black king on `e8`, no check
/// recorded, no pawn to take in passing, and every castling right.
pub fn get_starting_board() -> (board: Board)
    ensures
        board@ == starting_view(),
        board@.wf(),
        board@.pieces(PieceColors::White).len() == 16,
        board@.pieces(PieceColors::Black).len() == 16,
        board@.king_position(PieceColors::White) == BoardPosition::at(0, 4),
        board@.king_position(PieceColors::Black) == BoardPosition::at(7, 4),
        board@.check_state is None,
{
    let (white_pieces, black_pieces, cells) = generate_starting_chess_cells();
    let white_king_position = BoardPosition::from_indices(0, 4);
    let black_king_position = BoardPosition::from_indices(7, 4);
    let rights = CastlingState { can_use_left_rook: true, can_use_right_rook: true };
    proof {
        lemma_starting_wf();
        assert(assembled(
            cells_view(cells@),
            black_pieces@,
            white_pieces@,
            white_king_position,
            black_king_position,
            None,
            None,
            Some(rights),
            Some(rights),
        ) == starting_view());
    }
    Board::new(
        cells,
        black_pieces,
        white_pieces,
        white_king_position,
        black_king_position,
        None,
        None,
        Some(rights),
        Some(rights),
    )
}

} // verus!
