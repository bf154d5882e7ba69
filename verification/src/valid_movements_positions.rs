use crate::board::Board;
use crate::board_path::flatten_paths;
use crate::board_position::BoardPosition;
use crate::chess_piece::ChessPiece;
use crate::movement_paths::squares_contain;
use crate::piece_types::PieceTypes;
use vstd::prelude::*;

verus! {

/// Returns the squares the piece may move to on the board: the squares of
/// its paths, in order, that are allowed to it. A king is allowed the
/// squares that no opposing piece can reach. Any other piece is allowed
/// every square while no check is recorded, and only the squares of the
/// attacking paths while one is.
pub fn get_valid_movements_positions(piece: &ChessPiece, board: &Board) -> (squares: Vec<
    BoardPosition,
>)
    requires
        board@.pieces_wf(),
        board@.en_passant_position is Some ==> board@.en_passant_position->Some_0.wf(),
        piece.wf(),
    ensures
        squares@ == board@.legal_destinations(*piece),
{
    let paths = board.get_movement_paths(piece);
    let reached = flatten_paths(&paths);
    let checked = board.get_check_positions();
    let is_king = piece.kind == PieceTypes::King;
    let mut squares: Vec<BoardPosition> = Vec::new();
    let mut i: usize = 0;
    assert(reached@.take(0) =~= Seq::<BoardPosition>::empty());
    while i < reached.len()
        invariant
            board@.pieces_wf(),
            board@.en_passant_position is Some ==> board@.en_passant_position->Some_0.wf(),
            i <= reached.len(),
            is_king == (piece.kind == PieceTypes::King),
            checked is Some <==> board@.check_positions() is Some,
            checked is Some ==> checked->Some_0@ == board@.check_positions()->Some_0,
            squares@ == board@.allowed_of(*piece, reached@.take(i as int)),
        decreases reached.len() - i,
    {
        let square = reached[i];
        proof {
            assert(reached@.take(i + 1).drop_last() =~= reached@.take(i as int));
            assert(reached@.take(i + 1).last() == square);
        }
        let allowed = if is_king {
            !board.position_in_check(&square, &piece.owner)
        } else {
            match &checked {
                Some(on_paths) => squares_contain(on_paths, &square),
                None => true,
            }
        };
        if allowed {
            squares.push(square);
        }
        i += 1;
    }
    assert(reached@.take(reached.len() as int) =~= reached@);
    squares
}

} // verus!
