use crate::board::BoardView;
use crate::board_movement::BoardMovement;
use crate::board_path::flatten;
use crate::board_position::BoardPosition;
use crate::chess_piece::ChessPiece;
use crate::move_rules::{castling_asked, is_double_step, MovementError, MovementSuccess};
use crate::movement_pattern::{movement_pattern, ray, rook_rays};
use crate::rules::{paths_through, some_path_contains};
use crate::piece_colors::PieceColors;
use crate::piece_types::PieceTypes;
use crate::special_moves::ChessBoardDirections;
use vstd::prelude::*;

verus! {

/// A path on which no piece stands is followed to its end.
pub proof fn lemma_open_path_is_kept(
    board: BoardView,
    path: Seq<BoardPosition>,
    color: PieceColors,
    captures: bool,
)
    requires
        forall|i: int| 0 <= i < path.len() ==> board.piece_at(#[trigger] path[i]) is None,
    ensures
        board.resolve(path, color, captures) == path,
    decreases path.len(),
{
    if path.len() > 0 {
        let rest = path.drop_first();
        assert forall|i: int| 0 <= i < rest.len() implies board.piece_at(#[trigger] rest[i]) is None by {
            assert(rest[i] == path[i + 1]);
        }
        lemma_open_path_is_kept(board, rest, color, captures);
        assert(seq![path[0]] + rest =~= path);
    } else {
        assert(path =~= Seq::<BoardPosition>::empty());
    }
}

/// A path is cut at the first piece that stands on it. Where that piece is
/// of the moving side, or the moving piece cannot capture along the path,
/// the path ends before the piece's square: neither that square nor any
/// behind it is kept. Where the piece is of the other side and the moving
/// piece can capture, the piece's square is kept as the last one.
pub proof fn lemma_path_is_cut_at_first_piece(
    board: BoardView,
    path: Seq<BoardPosition>,
    color: PieceColors,
    captures: bool,
    first: int,
)
    requires
        0 <= first < path.len(),
        forall|i: int| 0 <= i < first ==> board.piece_at(#[trigger] path[i]) is None,
        board.piece_at(path[first]) is Some,
    ensures
        board.resolve(path, color, captures) == if captures && board.piece_at(
            path[first],
        )->Some_0.owner != color {
            path.take(first + 1)
        } else {
            path.take(first)
        },
    decreases first,
{
    let rest = path.drop_first();
    if first == 0 {
        assert(path.take(1) =~= seq![path[0]]);
        assert(path.take(0) =~= Seq::<BoardPosition>::empty());
    } else {
        assert(board.piece_at(path[0]) is None);
        assert forall|i: int| 0 <= i < first - 1 implies board.piece_at(#[trigger] rest[i]) is None by {
            assert(rest[i] == path[i + 1]);
        }
        assert(rest[first - 1] == path[first]);
        lemma_path_is_cut_at_first_piece(board, rest, color, captures, first - 1);
        assert(seq![path[0]] + rest.take(first) =~= path.take(first + 1));
        assert(seq![path[0]] + rest.take(first - 1) =~= path.take(first));
    }
}

/// From any square, the four rays of a rook hold fourteen squares between
/// them: the rest of its rank and of its file.
pub proof fn lemma_rook_rays_hold_fourteen_squares(origin: BoardPosition)
    requires
        origin.wf(),
    ensures
        rook_rays(origin).len() == 4,
        rook_rays(origin)[0].len() + rook_rays(origin)[1].len() + rook_rays(origin)[2].len()
            + rook_rays(origin)[3].len() == 14,
{
    origin.lemma_at_indices();
    assert(ray(origin, 1, 0).len() == 7 - origin.row_index());
    assert(ray(origin, 0, 1).len() == 7 - origin.column_index());
    assert(ray(origin, -1, 0).len() == origin.row_index());
    assert(ray(origin, 0, -1).len() == origin.column_index());
}

/// A rook whose four rays are free of pieces can follow each of them to the
/// edge of the board: it reaches fourteen squares.
pub proof fn lemma_rook_on_open_lines_reaches_fourteen_squares(board: BoardView, rook: ChessPiece)
    requires
        rook.wf(),
        rook.kind == PieceTypes::Rook,
        forall|k: int, i: int|
            0 <= k < 4 && 0 <= i < rook_rays(rook.position)[k].len() ==> board.piece_at(
                #[trigger] rook_rays(rook.position)[k][i],
            ) is None,
    ensures
        board.movement_paths(rook) == rook_rays(rook.position),
        flatten(board.movement_paths(rook)).len() == 14,
{
    let rays = rook_rays(rook.position);
    let paths = board.movement_paths(rook);
    lemma_rook_rays_hold_fourteen_squares(rook.position);
    assert forall|k: int| 0 <= k < 4 implies #[trigger] paths[k] == rays[k] by {
        assert forall|i: int| 0 <= i < rays[k].len() implies board.piece_at(
            #[trigger] rays[k][i],
        ) is None by {
            assert(board.piece_at(rook_rays(rook.position)[k][i]) is None);
        }
        lemma_open_path_is_kept(board, rays[k], rook.owner, true);
    }
    assert(paths =~= rays);
    let three = rays.drop_last();
    let two = three.drop_last();
    let one = two.drop_last();
    assert(one.drop_last() =~= Seq::<Seq<BoardPosition>>::empty());
    assert(flatten(one.drop_last()).len() == 0);
    assert(flatten(one).len() == rays[0].len());
    assert(flatten(two).len() == rays[0].len() + rays[1].len());
    assert(flatten(three).len() == rays[0].len() + rays[1].len() + rays[2].len());
}

/// A move to a square that the piece cannot reach is refused as not
/// following the movement pattern, provided the move gets as far as that
/// test: the piece stands on the board as described, no piece of its side
/// stands on the destination, the recorded check does not forbid the move,
/// and the move does not ask to castle.
pub proof fn lemma_unreachable_destination_is_refused(board: BoardView, movement: BoardMovement)
    requires
        board.piece_at(movement.piece.position) == Some(movement.piece),
        !(board.piece_at(movement.destination) is Some && board.piece_at(
            movement.destination,
        )->Some_0.owner == movement.piece.owner),
        board.check_refusal(movement) is None,
        castling_asked(movement) is None,
        !flatten(board.movement_paths(movement.piece)).contains(movement.destination),
    ensures
        board.apply(movement) == Err::<(BoardView, MovementSuccess), _>(
            MovementError::DestinationDoesNotFollowMovementPattern,
        ),
{
}

/// After a move that was made, a pawn that may be taken in passing is
/// recorded exactly when the move was a pawn's advance of two squares, and
/// it is the pawn that advanced.
pub proof fn lemma_en_passant_record_follows_the_last_move(
    board: BoardView,
    movement: BoardMovement,
)
    requires
        board.apply(movement) is Ok,
    ensures
        board.apply(movement)->Ok_0.0.en_passant_position == if is_double_step(movement) {
            Some(movement.destination)
        } else {
            None
        },
{
}

/// No move changes the castling rights of a side other than by taking them
/// away: a right that is there after a move was there before it.
pub proof fn lemma_castling_rights_never_return(
    board: BoardView,
    movement: BoardMovement,
    color: PieceColors,
    side: ChessBoardDirections,
)
    requires
        board.apply(movement) is Ok,
        board.apply(movement)->Ok_0.0.castling_right(color, side),
    ensures
        board.castling_right(color, side),
{
    let cleared = board.cleared(movement);
    assert(cleared.castling(color) == board.castling(color));
    let moved = cleared.relocated(movement.piece.position, movement.destination);
    assert(moved.castling(color) == board.castling(color));
}

/// A move of a king that was made leaves its side without castling rights.
pub proof fn lemma_king_move_takes_castling_rights_away(
    board: BoardView,
    movement: BoardMovement,
    side: ChessBoardDirections,
)
    requires
        board.apply(movement) is Ok,
        movement.piece.kind == PieceTypes::King,
    ensures
        !board.apply(movement)->Ok_0.0.castling_right(movement.piece.owner, side),
{
}

/// The board reached from a board by trying a list of moves one after
/// another: a move that is refused leaves the board as it was.
pub open spec fn played(board: BoardView, moves: Seq<BoardMovement>) -> BoardView
    decreases moves.len(),
{
    if moves.len() == 0 {
        board
    } else {
        let before = played(board, moves.drop_last());
        match before.apply(moves.last()) {
            Ok((next, _)) => next,
            Err(_) => before,
        }
    }
}

/// A castling right that a side lacks does not come back, whatever moves
/// are tried.
pub proof fn lemma_castling_rights_stay_away(
    board: BoardView,
    moves: Seq<BoardMovement>,
    color: PieceColors,
    side: ChessBoardDirections,
)
    requires
        !board.castling_right(color, side),
    ensures
        !played(board, moves).castling_right(color, side),
    decreases moves.len(),
{
    if moves.len() > 0 {
        let before = played(board, moves.drop_last());
        lemma_castling_rights_stay_away(board, moves.drop_last(), color, side);
        if before.apply(moves.last()) is Ok && before.apply(
            moves.last(),
        )->Ok_0.0.castling_right(color, side) {
            lemma_castling_rights_never_return(before, moves.last(), color, side);
        }
    }
}

/// Once the king of a side has moved, whatever moves are tried afterwards,
/// a move by which that side asks to castle is refused; and it is refused
/// for want of the castling right whenever it gets as far as that test: the
/// king stands on the board as described, no piece of its side stands on
/// the destination, and the recorded check does not forbid the move.
pub proof fn lemma_no_castling_after_king_has_moved(
    board: BoardView,
    king_move: BoardMovement,
    moves: Seq<BoardMovement>,
    attempt: BoardMovement,
)
    requires
        board.apply(king_move) is Ok,
        king_move.piece.kind == PieceTypes::King,
        attempt.piece.owner == king_move.piece.owner,
        castling_asked(attempt) is Some,
    ensures
        played(board.apply(king_move)->Ok_0.0, moves).apply(attempt) is Err,
        ({
            let later = played(board.apply(king_move)->Ok_0.0, moves);
            later.piece_at(attempt.piece.position) == Some(attempt.piece) && !(later.piece_at(
                attempt.destination,
            ) is Some && later.piece_at(attempt.destination)->Some_0.owner == attempt.piece.owner)
                && later.check_refusal(attempt) is None ==> later.apply(attempt) == Err::<
                (BoardView, MovementSuccess),
                _,
            >(MovementError::CastlingRightUnavailable)
        }),
{
    let next = board.apply(king_move)->Ok_0.0;
    let side = castling_asked(attempt)->Some_0;
    lemma_king_move_takes_castling_rights_away(board, king_move, side);
    lemma_castling_rights_stay_away(next, moves, attempt.piece.owner, side);
}

/// A move that is made on a well-formed board gives a well-formed board:
/// the grid and the lists of pieces still agree, and each king still stands
/// where it is recorded.
pub proof fn lemma_moves_keep_the_pieces_in_place(board: BoardView, movement: BoardMovement)
    requires
        board.wf(),
        movement.wf(),
        board.apply(movement) is Ok,
    ensures
        board.apply(movement)->Ok_0.0.pieces_wf(),
        board.apply(movement)->Ok_0.0.king_consistent(PieceColors::White),
        board.apply(movement)->Ok_0.0.king_consistent(PieceColors::Black),
{
    board.lemma_placed(movement);
    let placed = board.placed(movement);
    let next = board.committed(movement);
    assert(next.cells == placed.cells);
    assert(next.pieces(PieceColors::White) == placed.pieces(PieceColors::White));
    assert(next.pieces(PieceColors::Black) == placed.pieces(PieceColors::Black));
    assert(next.king_position(PieceColors::White) == placed.king_position(PieceColors::White));
    assert(next.king_position(PieceColors::Black) == placed.king_position(PieceColors::Black));
}

/// Among the paths that pass through a square there is one exactly when one
/// of the paths passes through it.
pub proof fn lemma_paths_through_exist(paths: Seq<Seq<BoardPosition>>, target: BoardPosition)
    ensures
        paths_through(paths, target).len() > 0 <==> some_path_contains(paths, target),
    decreases paths.len(),
{
    if paths.len() > 0 {
        let before = paths.drop_last();
        lemma_paths_through_exist(before, target);
        if some_path_contains(paths, target) {
            let j = choose|j: int| 0 <= j < paths.len() && (#[trigger] paths[j]).contains(target);
            if j < paths.len() - 1 {
                assert(before[j].contains(target));
            }
        }
        if some_path_contains(before, target) {
            let j = choose|j: int| 0 <= j < before.len() && (#[trigger] before[j]).contains(target);
            assert(paths[j].contains(target));
        }
        if paths.last().contains(target) {
            assert(paths[paths.len() - 1].contains(target));
        }
    }
}

/// Pieces have a path that reaches a square exactly when one of them can
/// reach it.
pub proof fn lemma_paths_reaching_exist(
    board: BoardView,
    attackers: Seq<ChessPiece>,
    target: BoardPosition,
)
    ensures
        board.paths_reaching(attackers, target).len() > 0 <==> board.reached_by(attackers, target),
    decreases attackers.len(),
{
    if attackers.len() > 0 {
        let before = attackers.drop_last();
        lemma_paths_reaching_exist(board, before, target);
        lemma_paths_through_exist(board.movement_paths(attackers.last()), target);
        if board.reached_by(attackers, target) {
            let i = choose|i: int|
                0 <= i < attackers.len() && board.reaches(#[trigger] attackers[i], target);
            if i < attackers.len() - 1 {
                assert(board.reaches(before[i], target));
            }
        }
        if board.reached_by(before, target) {
            let i = choose|i: int| 0 <= i < before.len() && board.reaches(#[trigger] before[i], target);
            assert(board.reaches(attackers[i], target));
        }
        if board.reaches(attackers.last(), target) {
            assert(board.reaches(attackers[attackers.len() - 1], target));
        }
    }
}

/// What a path resolves to depends on the cells of the board alone.
pub proof fn lemma_resolve_reads_the_cells(
    board: BoardView,
    other: BoardView,
    path: Seq<BoardPosition>,
    color: PieceColors,
    captures: bool,
)
    requires
        board.cells == other.cells,
    ensures
        board.resolve(path, color, captures) == other.resolve(path, color, captures),
    decreases path.len(),
{
    if path.len() > 0 {
        lemma_resolve_reads_the_cells(board, other, path.drop_first(), color, captures);
    }
}

/// The paths a piece can follow depend on the cells of the board and on the
/// pawn that may be taken in passing, and on nothing else.
pub proof fn lemma_movement_paths_read_cells_and_passing(
    board: BoardView,
    other: BoardView,
    piece: ChessPiece,
)
    requires
        board.cells == other.cells,
        board.en_passant_position == other.en_passant_position,
    ensures
        board.movement_paths(piece) == other.movement_paths(piece),
{
    let pattern = movement_pattern(piece);
    let captures = piece.kind != PieceTypes::Pawn;
    assert forall|i: int| 0 <= i < pattern.len() implies board.resolve(
        #[trigger] pattern[i],
        piece.owner,
        captures,
    ) == other.resolve(pattern[i], piece.owner, captures) by {
        lemma_resolve_reads_the_cells(board, other, pattern[i], piece.owner, captures);
    }
    assert(board.resolve_all(pattern, piece.owner, captures) =~= other.resolve_all(
        pattern,
        piece.owner,
        captures,
    ));
    assert(board.pawn_diagonal(piece, -1) == other.pawn_diagonal(piece, -1));
    assert(board.pawn_diagonal(piece, 1) == other.pawn_diagonal(piece, 1));
    assert(board.passed_pawn(piece) == other.passed_pawn(piece));
    assert(board.en_passant_destination(piece) == other.en_passant_destination(piece));
}

/// After a move that was made, the side that moved is not the one recorded
/// in check: a check that is recorded is its opponent's, and one is recorded
/// exactly when the opponent's king is attacked.
pub proof fn lemma_check_is_recorded_for_the_opponent_only(
    board: BoardView,
    movement: BoardMovement,
)
    requires
        board.apply(movement) is Ok,
    ensures
        !board.apply(movement)->Ok_0.0.in_check(movement.piece.owner),
        ({
            let next = board.apply(movement)->Ok_0.0;
            let opponent = movement.piece.owner.spec_opponent();
            next.in_check(opponent) <==> next.attacked(next.king_position(opponent), opponent)
        }),
{
    let mover = movement.piece.owner;
    let opponent = mover.spec_opponent();
    let placed = board.placed(movement);
    let next = board.committed(movement);
    assert forall|color: PieceColors|
        next.attacked(next.king_position(color), color) <==> placed.attacking_paths(color).len()
            > 0 by {
        let attackers = placed.pieces(color.spec_opponent());
        let target = placed.king_position(color);
        assert(next.pieces(color.spec_opponent()) == attackers);
        assert(next.king_position(color) == target);
        lemma_paths_reaching_exist(placed, attackers, target);
        assert forall|i: int| 0 <= i < attackers.len() implies next.reaches(
            #[trigger] attackers[i],
            target,
        ) == placed.reaches(attackers[i], target) by {
            lemma_movement_paths_read_cells_and_passing(next, placed, attackers[i]);
        }
        if next.reached_by(attackers, target) {
            let i = choose|i: int|
                0 <= i < attackers.len() && next.reaches(#[trigger] attackers[i], target);
            assert(placed.reaches(attackers[i], target));
        }
        if placed.reached_by(attackers, target) {
            let i = choose|i: int|
                0 <= i < attackers.len() && placed.reaches(#[trigger] attackers[i], target);
            assert(next.reaches(attackers[i], target));
        }
    }
    assert(!next.attacked(next.king_position(mover), mover));
    assert(next.attacked(next.king_position(opponent), opponent) <==> placed.attacking_paths(
        opponent,
    ).len() > 0);
}

/// No side is checkmated and stalemated at once, and a side that is
/// checkmated is in check.
pub proof fn lemma_checkmate_excludes_stalemate(board: BoardView, color: PieceColors)
    ensures
        !(board.checkmate(color) && board.stalemate(color)),
        board.checkmate(color) ==> board.in_check(color),
        board.stalemate(color) ==> !board.in_check(color),
{
}

} // verus!
