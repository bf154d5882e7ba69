use crate::board::Board;
use crate::board_path::{path_wf, paths_view, paths_wf, BoardPath};
use crate::board_position::BoardPosition;
use crate::chess_piece::ChessPiece;
use crate::movement_pattern::get_movement_pattern;
use crate::piece_colors::PieceColors;
use crate::piece_types::PieceTypes;
use crate::rules::some_path_contains;
use vstd::prelude::*;

verus! {

/// Whether a square is one of the squares of a path.
pub fn path_contains(path: &BoardPath, target: &BoardPosition) -> (found: bool)
    ensures
        found == path@.contains(*target),
{
    let mut i: usize = 0;
    while i < path.0.len()
        invariant
            i <= path.0.len(),
            forall|k: int| 0 <= k < i ==> path@[k] != *target,
        decreases path.0.len() - i,
    {
        if path.0[i] == *target {
            return true;
        }
        i += 1;
    }
    false
}

/// Whether a square is one of the squares of a list.
pub fn squares_contain(squares: &Vec<BoardPosition>, target: &BoardPosition) -> (found: bool)
    ensures
        found == squares@.contains(*target),
{
    let mut i: usize = 0;
    while i < squares.len()
        invariant
            i <= squares.len(),
            forall|k: int| 0 <= k < i ==> squares@[k] != *target,
        decreases squares.len() - i,
    {
        if squares[i] == *target {
            return true;
        }
        i += 1;
    }
    false
}

/// Whether one of the paths passes through a square.
pub fn paths_contain(paths: &Vec<BoardPath>, target: &BoardPosition) -> (found: bool)
    ensures
        found == some_path_contains(paths_view(paths@), *target),
{
    let mut i: usize = 0;
    while i < paths.len()
        invariant
            i <= paths.len(),
            forall|k: int| 0 <= k < i ==> !(#[trigger] paths_view(paths@)[k]).contains(*target),
        decreases paths.len() - i,
    {
        if path_contains(&paths[i], target) {
            assert(paths_view(paths@)[i as int].contains(*target));
            return true;
        }
        i += 1;
    }
    false
}

impl Board {
    /// Follows a path as far as a piece of the given side can: up to the
    /// first occupied square, which is kept where `captures` holds and an
    /// opposing piece stands on it.
    fn resolve_path(&self, path: &BoardPath, color: PieceColors, captures: bool) -> (resolved:
        BoardPath)
        requires
            self@.grid_wf(),
            path_wf(path@),
        ensures
            resolved@ == self@.resolve(path@, color, captures),
            path_wf(resolved@),
    {
        let ghost whole = self@.resolve(path@, color, captures);
        let mut squares: Vec<BoardPosition> = Vec::new();
        let mut i: usize = 0;
        assert(path@.skip(0) =~= path@);
        while i < path.0.len()
            invariant
                self@.grid_wf(),
                path_wf(path@),
                i <= path.0.len(),
                whole == self@.resolve(path@, color, captures),
                squares@ + self@.resolve(path@.skip(i as int), color, captures) == whole,
                path_wf(squares@),
            decreases path.0.len() - i,
        {
            let square = path.0[i];
            let ghost rest = path@.skip(i as int);
            let ghost before = squares@;
            proof {
                assert(rest[0] == square);
                assert(rest.drop_first() =~= path@.skip(i + 1));
                assert(path@[i as int].wf());
            }
            match self.get_piece(&square) {
                None => {
                    squares.push(square);
                    assert(squares@ + self@.resolve(path@.skip(i + 1), color, captures) =~= before
                        + self@.resolve(rest, color, captures));
                    i += 1;
                },
                Some(blocker) => {
                    if captures && blocker.owner != color {
                        squares.push(square);
                    }
                    assert(squares@ =~= before + self@.resolve(rest, color, captures));
                    return BoardPath(squares);
                },
            }
        }
        assert(squares@ =~= squares@ + self@.resolve(path@.skip(i as int), color, captures));
        BoardPath(squares)
    }

    /// Cuts each path of a pattern where another piece stands in the way of
    /// the given piece. A path ends before the first occupied square; that
    /// square is kept where an opposing piece stands on it and the moving
    /// piece is no pawn, which cannot capture straight ahead.
    pub fn colission_detection(&self, pattern: Vec<BoardPath>, piece: &ChessPiece) -> (paths: Vec<
        BoardPath,
    >)
        requires
            self@.grid_wf(),
            paths_wf(paths_view(pattern@)),
        ensures
            paths_view(paths@) == self@.resolve_all(
                paths_view(pattern@),
                piece.owner,
                piece.kind != PieceTypes::Pawn,
            ),
            paths_wf(paths_view(paths@)),
    {
        let captures = piece.kind != PieceTypes::Pawn;
        let ghost wanted = self@.resolve_all(paths_view(pattern@), piece.owner, captures);
        let mut paths: Vec<BoardPath> = Vec::new();
        let mut i: usize = 0;
        while i < pattern.len()
            invariant
                self@.grid_wf(),
                paths_wf(paths_view(pattern@)),
                i <= pattern.len(),
                paths@.len() == i,
                forall|k: int| 0 <= k < i ==> (#[trigger] paths@[k])@ == wanted[k],
                forall|k: int| 0 <= k < i ==> path_wf((#[trigger] paths@[k])@),
                wanted == self@.resolve_all(paths_view(pattern@), piece.owner, captures),
            decreases pattern.len() - i,
        {
            assert(path_wf(paths_view(pattern@)[i as int]));
            let resolved = self.resolve_path(&pattern[i], piece.owner, captures);
            paths.push(resolved);
            i += 1;
        }
        assert(paths_view(paths@) =~= wanted);
        paths
    }

    /// The capture of a pawn on one diagonal: a path of the square diagonally
    /// ahead, where an opposing piece stands on it.
    fn pawn_diagonal_paths(&self, pawn: &ChessPiece, columns: isize) -> (paths: Vec<BoardPath>)
        requires
            self@.grid_wf(),
            pawn.wf(),
        ensures
            paths_view(paths@) == self@.pawn_diagonal(*pawn, columns as int),
            paths_wf(paths_view(paths@)),
    {
        let ahead: isize = match pawn.owner {
            PieceColors::White => 1,
            PieceColors::Black => -1,
        };
        let mut paths: Vec<BoardPath> = Vec::new();
        match pawn.position.offset(ahead, columns) {
            Some(square) => match self.get_piece(&square) {
                Some(target) => {
                    if target.owner != pawn.owner {
                        let mut squares: Vec<BoardPosition> = Vec::new();
                        squares.push(square);
                        paths.push(BoardPath(squares));
                        assert(paths_view(paths@) =~= seq![seq![square]]);
                    }
                },
                None => {},
            },
            None => {},
        }
        assert(paths_view(paths@) =~= self@.pawn_diagonal(*pawn, columns as int));
        paths
    }

    /// Returns the square on which the pawn lands when it takes in passing,
    /// if it may: an opposing pawn that has just advanced two squares stands
    /// beside it, and the square behind that pawn is empty.
    pub fn get_en_passant_destination(&self, pawn: &ChessPiece) -> (landing: Option<BoardPosition>)
        requires
            self@.grid_wf(),
            self@.en_passant_position is Some ==> self@.en_passant_position->Some_0.wf(),
            pawn.wf(),
        ensures
            landing == self@.en_passant_destination(*pawn),
            landing is Some ==> landing->Some_0.wf(),
    {
        let beside = match self.get_en_passant_position() {
            Some(beside) => beside,
            None => {
                return None;
            },
        };
        if pawn.kind != PieceTypes::Pawn {
            return None;
        }
        let (row, column) = pawn.position.indices();
        let (other_row, other_column) = beside.indices();
        if row != other_row || !(other_column == column + 1 || other_column + 1 == column) {
            return None;
        }
        let taken = ChessPiece {
            kind: PieceTypes::Pawn,
            position: beside,
            owner: pawn.owner.opponent(),
        };
        match self.get_piece(&beside) {
            Some(found) => {
                if found != taken {
                    return None;
                }
            },
            None => {
                return None;
            },
        }
        let ahead: isize = match pawn.owner {
            PieceColors::White => 1,
            PieceColors::Black => -1,
        };
        let sideways: isize = if other_column == column + 1 {
            1
        } else {
            -1
        };
        match pawn.position.offset(ahead, sideways) {
            Some(square) => {
                if self.get_piece(&square).is_none() {
                    Some(square)
                } else {
                    None
                }
            },
            None => None,
        }
    }

    /// Returns the capturing paths of a pawn, each of one square: the
    /// diagonal towards file `a`, the diagonal towards file `h`, then the
    /// capture in passing. For a piece that is no pawn there are none to
    /// give, and the result is `None`.
    pub fn get_capture_pattern(&self, piece: &ChessPiece) -> (paths: Option<Vec<BoardPath>>)
        requires
            self@.grid_wf(),
            self@.en_passant_position is Some ==> self@.en_passant_position->Some_0.wf(),
            piece.wf(),
        ensures
            paths is Some <==> piece.kind == PieceTypes::Pawn,
            paths is Some ==> paths_view(paths->Some_0@) == self@.pawn_captures(*piece),
            paths is Some ==> paths_wf(paths_view(paths->Some_0@)),
    {
        if piece.kind != PieceTypes::Pawn {
            return None;
        }
        let mut paths = self.pawn_diagonal_paths(piece, -1);
        let mut right = self.pawn_diagonal_paths(piece, 1);
        let ghost first = paths_view(paths@);
        let ghost second = paths_view(right@);
        paths.append(&mut right);
        assert(paths_view(paths@) =~= first + second);
        match self.get_en_passant_destination(piece) {
            Some(square) => {
                let mut squares: Vec<BoardPosition> = Vec::new();
                squares.push(square);
                paths.push(BoardPath(squares));
                assert(paths_view(paths@) =~= first + second + seq![seq![square]]);
            },
            None => {
                assert(paths_view(paths@) =~= first + second + Seq::<Seq<BoardPosition>>::empty());
            },
        }
        Some(paths)
    }

    /// Returns the paths the piece can follow on this board, other pieces
    /// considered and the recorded check left aside.
    pub fn get_movement_paths(&self, piece: &ChessPiece) -> (paths: Vec<BoardPath>)
        requires
            self@.grid_wf(),
            self@.en_passant_position is Some ==> self@.en_passant_position->Some_0.wf(),
            piece.wf(),
        ensures
            paths_view(paths@) == self@.movement_paths(*piece),
            paths_wf(paths_view(paths@)),
    {
        let pattern = get_movement_pattern(piece);
        let mut paths = self.colission_detection(pattern, piece);
        match self.get_capture_pattern(piece) {
            Some(captures) => {
                let mut captures = captures;
                let ghost first = paths_view(paths@);
                let ghost second = paths_view(captures@);
                paths.append(&mut captures);
                assert(paths_view(paths@) =~= first + second);
            },
            None => {},
        }
        paths
    }

    /// Whether a king of the given side on the given square would be
    /// attacked: one of the opponent's pieces can reach the square.
    pub fn position_in_check(&self, position: &BoardPosition, color: &PieceColors) -> (attacked:
        bool)
        requires
            self@.pieces_wf(),
            self@.en_passant_position is Some ==> self@.en_passant_position->Some_0.wf(),
        ensures
            attacked == self@.attacked(*position, *color),
    {
        let opponents = self.get_pieces_from(&color.opponent());
        let mut i: usize = 0;
        while i < opponents.len()
            invariant
                self@.pieces_wf(),
                self@.en_passant_position is Some ==> self@.en_passant_position->Some_0.wf(),
                opponents@ == self@.pieces(color.spec_opponent()),
                i <= opponents.len(),
                forall|k: int| 0 <= k < i ==> !self@.reaches(#[trigger] opponents@[k], *position),
            decreases opponents.len() - i,
        {
            let paths = self.get_movement_paths(&opponents[i]);
            if paths_contain(&paths, position) {
                return true;
            }
            i += 1;
        }
        false
    }
}

} // verus!
