use crate::board_path::{path_wf, paths_view, paths_wf, BoardPath};
use crate::board_position::{on_board, BoardPosition};
use crate::chess_piece::ChessPiece;
use crate::piece_colors::PieceColors;
use crate::piece_types::PieceTypes;
use vstd::prelude::*;

verus! {

/// A number of steps taken in a direction along one axis: the direction
/// counts only by its sign.
pub open spec fn scaled(steps: int, direction: int) -> int {
    if direction > 0 {
        steps
    } else if direction < 0 {
        -steps
    } else {
        0
    }
}

/// How many steps can be taken from an index in a direction along one axis
/// before the board ends.
pub open spec fn axis_room(index: int, direction: int) -> int {
    if direction > 0 {
        7 - index
    } else if direction < 0 {
        index
    } else {
        7
    }
}

/// The number of squares of the ray that leaves a square in a direction.
pub open spec fn ray_length(origin: BoardPosition, rows: int, columns: int) -> int {
    let by_row = axis_room(origin.row_index(), rows);
    let by_column = axis_room(origin.column_index(), columns);
    if by_row <= by_column {
        by_row
    } else {
        by_column
    }
}

/// The ray that leaves a square in a direction: every square in that
/// direction up to the edge of the board, nearest first, without the square
/// itself.
pub open spec fn ray(origin: BoardPosition, rows: int, columns: int) -> Seq<BoardPosition> {
    Seq::new(
        ray_length(origin, rows, columns) as nat,
        |i: int|
            BoardPosition::at(
                origin.row_index() + scaled(i + 1, rows),
                origin.column_index() + scaled(i + 1, columns),
            ),
    )
}

/// The four straight rays: towards rank 8, towards file `h`, towards
/// rank 1, towards file `a`.
pub open spec fn rook_rays(origin: BoardPosition) -> Seq<Seq<BoardPosition>> {
    seq![ray(origin, 1, 0), ray(origin, 0, 1), ray(origin, -1, 0), ray(origin, 0, -1)]
}

/// The four diagonal rays.
pub open spec fn bishop_rays(origin: BoardPosition) -> Seq<Seq<BoardPosition>> {
    seq![ray(origin, 1, 1), ray(origin, 1, -1), ray(origin, -1, 1), ray(origin, -1, -1)]
}

/// One path of a single square for each offset that stays on the board, in
/// the order of the offsets.
pub open spec fn single_steps(origin: BoardPosition, offsets: Seq<(isize, isize)>) -> Seq<
    Seq<BoardPosition>,
>
    decreases offsets.len(),
{
    if offsets.len() == 0 {
        Seq::empty()
    } else {
        let before = single_steps(origin, offsets.drop_last());
        match origin.spec_offset(offsets.last().0 as int, offsets.last().1 as int) {
            Some(square) => before.push(seq![square]),
            None => before,
        }
    }
}

/// The eight jumps of a knight.
pub open spec fn knight_offsets() -> Seq<(isize, isize)> {
    seq![
        (2isize, 1isize),
        (1isize, 2isize),
        (2isize, -1isize),
        (1isize, -2isize),
        (-1isize, -2isize),
        (-2isize, -1isize),
        (-2isize, 1isize),
        (-1isize, 2isize),
    ]
}

/// The eight steps of a king.
pub open spec fn king_offsets() -> Seq<(isize, isize)> {
    seq![
        (1isize, -1isize),
        (1isize, 0isize),
        (1isize, 1isize),
        (0isize, -1isize),
        (0isize, 1isize),
        (-1isize, -1isize),
        (-1isize, 1isize),
        (-1isize, 0isize),
    ]
}

/// The direction in which the pawns of a side advance, in rows.
pub open spec fn forward(color: PieceColors) -> int {
    match color {
        PieceColors::White => 1,
        PieceColors::Black => -1,
    }
}

/// Whether a piece is a pawn on the rank its side's pawns start from: the
/// second for White, the seventh for Black.
pub open spec fn pawn_on_starting_rank(piece: ChessPiece) -> bool {
    piece.kind == PieceTypes::Pawn && piece.position.row_index() == (match piece.owner {
        PieceColors::White => 1int,
        PieceColors::Black => 6int,
    })
}

/// The squares straight ahead of a pawn: one step, and a second one where
/// the pawn stands on its starting rank.
pub open spec fn pawn_advance(piece: ChessPiece) -> Seq<BoardPosition> {
    let ahead = forward(piece.owner);
    match piece.position.spec_offset(ahead, 0) {
        Some(one) => if pawn_on_starting_rank(piece) {
            seq![one, piece.position.spec_offset(2 * ahead, 0)->Some_0]
        } else {
            seq![one]
        },
        None => Seq::empty(),
    }
}

/// The paths along which a piece of the given kind moves from its square on
/// an empty board.
pub open spec fn movement_pattern(piece: ChessPiece) -> Seq<Seq<BoardPosition>> {
    match piece.kind {
        PieceTypes::Pawn => seq![pawn_advance(piece)],
        PieceTypes::Rook => rook_rays(piece.position),
        PieceTypes::Knight => single_steps(piece.position, knight_offsets()),
        PieceTypes::Bishop => bishop_rays(piece.position),
        PieceTypes::Queen => rook_rays(piece.position) + bishop_rays(piece.position),
        PieceTypes::King => single_steps(piece.position, king_offsets()),
    }
}

/// Whether a pair of steps is one of the eight directions of the board.
pub open spec fn is_direction(rows: int, columns: int) -> bool {
    -1 <= rows <= 1 && -1 <= columns <= 1 && !(rows == 0 && columns == 0)
}

/// The squares of a ray lie on the board, and the square after the last one
/// does not.
pub proof fn lemma_ray_bounds(origin: BoardPosition, rows: int, columns: int, steps: int)
    requires
        origin.wf(),
        is_direction(rows, columns),
        1 <= steps,
    ensures
        on_board(
            origin.row_index() + scaled(steps, rows),
            origin.column_index() + scaled(steps, columns),
        ) <==> steps <= ray_length(origin, rows, columns),
        0 <= ray_length(origin, rows, columns) <= 7,
{
    origin.lemma_at_indices();
}

/// Every square of a ray is well formed.
pub proof fn lemma_ray_wf(origin: BoardPosition, rows: int, columns: int)
    requires
        origin.wf(),
        is_direction(rows, columns),
    ensures
        path_wf(ray(origin, rows, columns)),
{
    let squares = ray(origin, rows, columns);
    assert forall|i: int| 0 <= i < squares.len() implies (#[trigger] squares[i]).wf() by {
        lemma_ray_bounds(origin, rows, columns, i + 1);
        BoardPosition::lemma_at(
            origin.row_index() + scaled(i + 1, rows),
            origin.column_index() + scaled(i + 1, columns),
        );
    }
}

/// Returns the ray that leaves a square in one of the eight directions.
pub fn ray_path(origin: &BoardPosition, rows: isize, columns: isize) -> (path: BoardPath)
    requires
        origin.wf(),
        is_direction(rows as int, columns as int),
    ensures
        path@ == ray(*origin, rows as int, columns as int),
        path_wf(path@),
{
    let ghost whole = ray(*origin, rows as int, columns as int);
    let mut squares: Vec<BoardPosition> = Vec::new();
    let mut steps: isize = 1;
    loop
        invariant
            origin.wf(),
            is_direction(rows as int, columns as int),
            whole == ray(*origin, rows as int, columns as int),
            1 <= steps <= 8,
            steps - 1 <= whole.len(),
            squares@ == whole.take(steps - 1),
        ensures
            squares@ == whole,
        decreases 8 - steps,
    {
        proof {
            lemma_ray_bounds(*origin, rows as int, columns as int, steps as int);
        }
        let by_rows: isize = if rows > 0 {
            steps
        } else if rows < 0 {
            -steps
        } else {
            0
        };
        let by_columns: isize = if columns > 0 {
            steps
        } else if columns < 0 {
            -steps
        } else {
            0
        };
        match origin.offset(by_rows, by_columns) {
            Some(square) => {
                squares.push(square);
                assert(squares@ =~= whole.take(steps as int));
                steps += 1;
            },
            None => {
                assert(squares@ =~= whole);
                break ;
            },
        }
    }
    proof {
        lemma_ray_wf(*origin, rows as int, columns as int);
    }
    BoardPath(squares)
}

/// Returns the four straight rays that leave the square in the given
/// zero-based row and column.
pub fn rook_movement_pattern(row: usize, column: usize) -> (paths: Vec<BoardPath>)
    requires
        row < 8,
        column < 8,
    ensures
        paths_view(paths@) == rook_rays(BoardPosition::at(row as int, column as int)),
        paths_wf(paths_view(paths@)),
{
    let origin = BoardPosition::from_indices(row, column);
    let mut paths: Vec<BoardPath> = Vec::new();
    paths.push(ray_path(&origin, 1, 0));
    paths.push(ray_path(&origin, 0, 1));
    paths.push(ray_path(&origin, -1, 0));
    paths.push(ray_path(&origin, 0, -1));
    assert(paths_view(paths@) =~= rook_rays(origin));
    paths
}

/// Returns the four diagonal rays that leave the square in the given
/// zero-based row and column.
pub fn bishop_movement_pattern(row: usize, column: usize) -> (paths: Vec<BoardPath>)
    requires
        row < 8,
        column < 8,
    ensures
        paths_view(paths@) == bishop_rays(BoardPosition::at(row as int, column as int)),
        paths_wf(paths_view(paths@)),
{
    let origin = BoardPosition::from_indices(row, column);
    let mut paths: Vec<BoardPath> = Vec::new();
    paths.push(ray_path(&origin, 1, 1));
    paths.push(ray_path(&origin, 1, -1));
    paths.push(ray_path(&origin, -1, 1));
    paths.push(ray_path(&origin, -1, -1));
    assert(paths_view(paths@) =~= bishop_rays(origin));
    paths
}

/// Every square of a list of single steps is well formed.
pub proof fn lemma_single_steps_wf(origin: BoardPosition, offsets: Seq<(isize, isize)>)
    requires
        origin.wf(),
    ensures
        paths_wf(single_steps(origin, offsets)),
    decreases offsets.len(),
{
    if offsets.len() > 0 {
        lemma_single_steps_wf(origin, offsets.drop_last());
        let rows = offsets.last().0 as int;
        let columns = offsets.last().1 as int;
        if on_board(origin.row_index() + rows, origin.column_index() + columns) {
            BoardPosition::lemma_at(origin.row_index() + rows, origin.column_index() + columns);
        }
    }
}

/// Returns one path of a single square for each offset that, taken from the
/// square in the given zero-based row and column, stays on the board.
pub fn pattern_from_vec(offsets: Vec<(isize, isize)>, row: usize, column: usize) -> (paths: Vec<
    BoardPath,
>)
    requires
        row < 8,
        column < 8,
    ensures
        paths_view(paths@) == single_steps(
            BoardPosition::at(row as int, column as int),
            offsets@,
        ),
        paths_wf(paths_view(paths@)),
{
    let origin = BoardPosition::from_indices(row, column);
    let mut paths: Vec<BoardPath> = Vec::new();
    let mut i: usize = 0;
    assert(offsets@.take(0) =~= Seq::<(isize, isize)>::empty());
    assert(paths_view(paths@) =~= single_steps(origin, offsets@.take(0)));
    while i < offsets.len()
        invariant
            origin.wf(),
            i <= offsets.len(),
            paths_view(paths@) == single_steps(origin, offsets@.take(i as int)),
        decreases offsets.len() - i,
    {
        let ghost before = paths_view(paths@);
        let (rows, columns) = offsets[i];
        proof {
            assert(offsets@.take(i + 1).drop_last() =~= offsets@.take(i as int));
            assert(offsets@.take(i + 1).last() == offsets@[i as int]);
        }
        match origin.offset(rows, columns) {
            Some(square) => {
                let mut squares: Vec<BoardPosition> = Vec::new();
                squares.push(square);
                assert(squares@ =~= seq![square]);
                paths.push(BoardPath(squares));
                assert(paths_view(paths@) =~= before.push(seq![square]));
            },
            None => {},
        }
        i += 1;
    }
    proof {
        assert(offsets@.take(offsets.len() as int) =~= offsets@);
        lemma_single_steps_wf(origin, offsets@);
    }
    paths
}

/// Whether the piece is a pawn on the rank its side's pawns start from: the
/// second for White, the seventh for Black.
pub fn is_pawn_on_starting_position(piece: &ChessPiece) -> (starting: bool)
    requires
        piece.wf(),
    ensures
        starting == pawn_on_starting_rank(*piece),
{
    let (row, _) = piece.position();
    match piece.kind {
        PieceTypes::Pawn => match piece.owner {
            PieceColors::Black => row == 6,
            PieceColors::White => row == 1,
        },
        _ => false,
    }
}

/// Returns the squares straight ahead of a pawn that it may advance to on
/// an empty board.
fn pawn_advance_path(piece: &ChessPiece) -> (path: BoardPath)
    requires
        piece.wf(),
    ensures
        path@ == pawn_advance(*piece),
        path_wf(path@),
{
    let ahead: isize = match piece.owner {
        PieceColors::White => 1,
        PieceColors::Black => -1,
    };
    let mut squares: Vec<BoardPosition> = Vec::new();
    match piece.position.offset(ahead, 0) {
        Some(one) => {
            squares.push(one);
            if is_pawn_on_starting_position(piece) {
                match piece.position.offset(2 * ahead, 0) {
                    Some(two) => {
                        squares.push(two);
                    },
                    None => {
                        proof {
                            piece.position.lemma_at_indices();
                            assert(false);
                        }
                    },
                }
            }
        },
        None => {},
    }
    assert(squares@ =~= pawn_advance(*piece));
    BoardPath(squares)
}

/// Returns the paths along which the piece moves from its square on an
/// empty board: other pieces are not looked at, and a pawn's captures are
/// not among them.
pub fn get_movement_pattern(piece: &ChessPiece) -> (paths: Vec<BoardPath>)
    requires
        piece.wf(),
    ensures
        paths_view(paths@) == movement_pattern(*piece),
        paths_wf(paths_view(paths@)),
{
    let (row, column) = piece.position();
    proof {
        piece.position.lemma_at_indices();
    }
    match piece.kind {
        PieceTypes::Pawn => {
            let mut paths: Vec<BoardPath> = Vec::new();
            paths.push(pawn_advance_path(piece));
            assert(paths_view(paths@) =~= movement_pattern(*piece));
            paths
        },
        PieceTypes::Rook => rook_movement_pattern(row, column),
        PieceTypes::Knight => {
            let offsets: Vec<(isize, isize)> = vec![
                (2, 1),
                (1, 2),
                (2, -1),
                (1, -2),
                (-1, -2),
                (-2, -1),
                (-2, 1),
                (-1, 2),
            ];
            assert(offsets@ =~= knight_offsets());
            pattern_from_vec(offsets, row, column)
        },
        PieceTypes::Bishop => bishop_movement_pattern(row, column),
        PieceTypes::Queen => {
            let mut paths = rook_movement_pattern(row, column);
            let mut diagonals = bishop_movement_pattern(row, column);
            let ghost straight = paths_view(paths@);
            let ghost slanted = paths_view(diagonals@);
            paths.append(&mut diagonals);
            assert(paths_view(paths@) =~= straight + slanted);
            paths
        },
        PieceTypes::King => {
            let offsets: Vec<(isize, isize)> = vec![
                (1, -1),
                (1, 0),
                (1, 1),
                (0, -1),
                (0, 1),
                (-1, -1),
                (-1, 1),
                (-1, 0),
            ];
            assert(offsets@ =~= king_offsets());
            pattern_from_vec(offsets, row, column)
        },
    }
}

} // verus!
