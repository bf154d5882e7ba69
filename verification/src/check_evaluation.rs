use crate::board::{Board, BoardView, CheckedState};
use crate::board_path::{paths_view, paths_wf, BoardPath};
use crate::board_position::BoardPosition;
use crate::chess_piece::ChessPiece;
use crate::movement_paths::path_contains;
use crate::piece_colors::PieceColors;
use crate::piece_types::PieceTypes;
use crate::rules::{every_path_contains, paths_through};
use crate::valid_movements_positions::get_valid_movements_positions;
use vstd::prelude::*;

verus! {

/// Whether every one of the paths passes through a square.
pub fn all_paths_contain(paths: &Vec<BoardPath>, target: &BoardPosition) -> (all: bool)
    ensures
        all == every_path_contains(paths_view(paths@), *target),
{
    let mut i: usize = 0;
    while i < paths.len()
        invariant
            i <= paths.len(),
            forall|k: int| 0 <= k < i ==> (#[trigger] paths_view(paths@)[k]).contains(*target),
        decreases paths.len() - i,
    {
        if !path_contains(&paths[i], target) {
            assert(!paths_view(paths@)[i as int].contains(*target));
            return false;
        }
        i += 1;
    }
    true
}

/// Every path among those that pass through a square keeps its squares well
/// formed.
pub proof fn lemma_paths_through_wf(paths: Seq<Seq<BoardPosition>>, target: BoardPosition)
    requires
        paths_wf(paths),
    ensures
        paths_wf(paths_through(paths, target)),
    decreases paths.len(),
{
    if paths.len() > 0 {
        lemma_paths_through_wf(paths.drop_last(), target);
    }
}

impl Board {
    /// Adds to `found` the paths of a list that pass through a square.
    fn collect_paths_through(paths: &Vec<BoardPath>, target: &BoardPosition, found: &mut Vec<
        BoardPath,
    >)
        ensures
            paths_view(final(found)@) == paths_view(old(found)@) + paths_through(
                paths_view(paths@),
                *target,
            ),
    {
        let ghost before = paths_view(found@);
        let ghost all = paths_view(paths@);
        let mut j: usize = 0;
        assert(all.take(0) =~= Seq::<Seq<BoardPosition>>::empty());
        assert(paths_view(found@) =~= before + paths_through(all.take(0), *target));
        while j < paths.len()
            invariant
                all == paths_view(paths@),
                j <= paths.len(),
                paths_view(found@) == before + paths_through(all.take(j as int), *target),
            decreases paths.len() - j,
        {
            let ghost so_far = paths_view(found@);
            proof {
                assert(all.take(j + 1).drop_last() =~= all.take(j as int));
                assert(all.take(j + 1).last() == paths@[j as int]@);
            }
            if path_contains(&paths[j], target) {
                found.push(paths[j].duplicate());
                assert(paths_view(found@) =~= so_far.push(paths@[j as int]@));
                assert(paths_view(found@) =~= before + paths_through(all.take(j + 1), *target));
            }
            j += 1;
        }
        assert(all.take(paths.len() as int) =~= all);
    }

    /// Returns the paths of the opponent's pieces that reach the king of the
    /// given side, piece by piece in the order of the opponent's list.
    pub fn get_attacking_paths(&self, color: &PieceColors) -> (paths: Vec<BoardPath>)
        requires
            self@.pieces_wf(),
            self@.en_passant_position is Some ==> self@.en_passant_position->Some_0.wf(),
        ensures
            paths_view(paths@) == self@.attacking_paths(*color),
            paths_wf(paths_view(paths@)),
    {
        let king = self.get_king_position(color);
        let opponents = self.get_pieces_from(&color.opponent());
        let mut found: Vec<BoardPath> = Vec::new();
        let mut i: usize = 0;
        assert(opponents@.take(0) =~= Seq::<ChessPiece>::empty());
        assert(paths_view(found@) =~= Seq::<Seq<BoardPosition>>::empty());
        while i < opponents.len()
            invariant
                self@.pieces_wf(),
                self@.en_passant_position is Some ==> self@.en_passant_position->Some_0.wf(),
                opponents@ == self@.pieces(color.spec_opponent()),
                king == self@.king_position(*color),
                i <= opponents.len(),
                paths_view(found@) == self@.paths_reaching(opponents@.take(i as int), king),
                paths_wf(paths_view(found@)),
            decreases opponents.len() - i,
        {
            let paths = self.get_movement_paths(&opponents[i]);
            proof {
                assert(opponents@.take(i + 1).drop_last() =~= opponents@.take(i as int));
                assert(opponents@.take(i + 1).last() == opponents@[i as int]);
                lemma_paths_through_wf(paths_view(paths@), king);
            }
            Board::collect_paths_through(&paths, &king, &mut found);
            i += 1;
        }
        assert(opponents@.take(opponents.len() as int) =~= opponents@);
        found
    }

    /// Looks again for a check after a move of the given side and records
    /// what it finds: that side's check, if its king is reached; else its
    /// opponent's, if that king is reached; else none.
    pub(crate) fn update_check_state(&mut self, color_to_check_first: &PieceColors)
        requires
            old(self)@.pieces_wf(),
            old(self)@.en_passant_position is Some ==> old(self)@.en_passant_position->Some_0.wf(),
        ensures
            final(self)@ == (BoardView {
                check_state: old(self)@.check_after(*color_to_check_first),
                ..old(self)@
            }),
            final(self)@.check_state is Some ==> paths_wf(final(self)@.check_state->Some_0.check_paths),
    {
        let first = *color_to_check_first;
        let on_first = self.get_attacking_paths(&first);
        if on_first.len() > 0 {
            self.set_check_state(Some(CheckedState { color_in_check: first, check_paths: on_first }));
            return ;
        }
        let second = first.opponent();
        let on_second = self.get_attacking_paths(&second);
        if on_second.len() > 0 {
            self.set_check_state(
                Some(CheckedState { color_in_check: second, check_paths: on_second }),
            );
        } else {
            self.set_check_state(None);
        }
    }

    /// Whether one of the pieces of a side has a square it may move to.
    pub fn can_any_piece_move(&self, color: &PieceColors) -> (movable: bool)
        requires
            self@.pieces_wf(),
            self@.en_passant_position is Some ==> self@.en_passant_position->Some_0.wf(),
        ensures
            movable == self@.any_can_move(self@.pieces(*color)),
    {
        let pieces = self.get_pieces_from(color);
        let mut i: usize = 0;
        while i < pieces.len()
            invariant
                self@.pieces_wf(),
                self@.en_passant_position is Some ==> self@.en_passant_position->Some_0.wf(),
                pieces@ == self@.pieces(*color),
                i <= pieces.len(),
                forall|k: int|
                    0 <= k < i ==> self@.legal_destinations(#[trigger] pieces@[k]).len() == 0,
            decreases pieces.len() - i,
        {
            let squares = get_valid_movements_positions(&pieces[i], self);
            if squares.len() > 0 {
                return true;
            }
            i += 1;
        }
        false
    }

    /// Whether the given side is stalemated: it is not the side recorded in
    /// check, and none of its pieces has a square it may move to.
    pub fn is_stalemate(&self, color: &PieceColors) -> (stalemated: bool)
        requires
            self@.pieces_wf(),
            self@.en_passant_position is Some ==> self@.en_passant_position->Some_0.wf(),
        ensures
            stalemated == self@.stalemate(*color),
    {
        if self.is_in_check(color) {
            false
        } else {
            !self.can_any_piece_move(color)
        }
    }

    /// Whether a piece that is no king may move onto a square that lies on
    /// every one of the given attacking paths.
    fn can_block_check(&self, piece: &ChessPiece, attacks: &Vec<BoardPath>) -> (blocks: bool)
        requires
            self@.pieces_wf(),
            self@.en_passant_position is Some ==> self@.en_passant_position->Some_0.wf(),
            piece.wf(),
            self@.check_state is Some,
            paths_view(attacks@) == self@.check_state->Some_0.check_paths,
        ensures
            blocks == self@.can_block(*piece),
    {
        if piece.kind == PieceTypes::King {
            return false;
        }
        let squares = get_valid_movements_positions(piece, self);
        let mut k: usize = 0;
        while k < squares.len()
            invariant
                piece.kind != PieceTypes::King,
                squares@ == self@.legal_destinations(*piece),
                paths_view(attacks@) == self@.check_state->Some_0.check_paths,
                k <= squares.len(),
                forall|m: int|
                    0 <= m < k ==> !every_path_contains(
                        paths_view(attacks@),
                        #[trigger] squares@[m],
                    ),
            decreases squares.len() - k,
        {
            if all_paths_contain(attacks, &squares[k]) {
                assert(every_path_contains(
                    self@.check_state->Some_0.check_paths,
                    self@.legal_destinations(*piece)[k as int],
                ));
                return true;
            }
            k += 1;
        }
        false
    }

    /// Whether the given side is checkmated: it is the side recorded in
    /// check, its king has no square it may move to, and no other piece of
    /// it may move onto a square that lies on every attacking path.
    pub fn is_checkmate(&self, king_color: &PieceColors) -> (mated: bool)
        requires
            self@.pieces_wf(),
            self@.king_position(*king_color).wf(),
            self@.en_passant_position is Some ==> self@.en_passant_position->Some_0.wf(),
        ensures
            mated == self@.checkmate(*king_color),
    {
        let attacks = match self.get_check_state() {
            Some(recorded) => {
                if recorded.color_in_check != *king_color {
                    return false;
                }
                &recorded.check_paths
            },
            None => {
                return false;
            },
        };
        let king = ChessPiece {
            kind: PieceTypes::King,
            position: self.get_king_position(king_color),
            owner: *king_color,
        };
        let escapes = get_valid_movements_positions(&king, self);
        if escapes.len() > 0 {
            return false;
        }
        let pieces = self.get_pieces_from(king_color);
        let mut i: usize = 0;
        while i < pieces.len()
            invariant
                self@.pieces_wf(),
                self@.en_passant_position is Some ==> self@.en_passant_position->Some_0.wf(),
                self@.check_state is Some,
                paths_view(attacks@) == self@.check_state->Some_0.check_paths,
                pieces@ == self@.pieces(*king_color),
                i <= pieces.len(),
                forall|k: int| 0 <= k < i ==> !self@.can_block(#[trigger] pieces@[k]),
            decreases pieces.len() - i,
        {
            if self.can_block_check(&pieces[i], attacks) {
                return false;
            }
            i += 1;
        }
        true
    }
}

} // verus!
