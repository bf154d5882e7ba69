use crate::board::BoardView;
use crate::board_position::{on_board, BoardPosition};
use crate::chess_cell::ChessCell;
use crate::chess_piece::ChessPiece;
use crate::piece_colors::PieceColors;
use crate::piece_types::PieceTypes;
use vstd::prelude::*;

verus! {

impl BoardView {
    /// The board with the cell of one square replaced.
    pub open spec fn with_cell(self, position: BoardPosition, cell: ChessCell) -> BoardView {
        BoardView {
            cells: self.cells.update(
                position.row_index(),
                self.cells[position.row_index()].update(position.column_index(), cell),
            ),
            ..self
        }
    }

    /// The board with the list of one side replaced.
    pub open spec fn with_pieces(self, color: PieceColors, pieces: Seq<ChessPiece>) -> BoardView {
        match color {
            PieceColors::Black => BoardView { black_pieces: pieces, ..self },
            PieceColors::White => BoardView { white_pieces: pieces, ..self },
        }
    }

    /// The board with the recorded square of one side's king replaced.
    pub open spec fn with_king_position(self, color: PieceColors, position: BoardPosition) -> BoardView {
        match color {
            PieceColors::Black => BoardView { black_king_position: position, ..self },
            PieceColors::White => BoardView { white_king_position: position, ..self },
        }
    }

    /// The board without the piece on the given square: its cell is empty
    /// and the piece has left the list of its side, the others keeping their
    /// order.
    pub open spec fn removed(self, position: BoardPosition) -> BoardView {
        let piece = self.piece_at(position)->Some_0;
        let listed = self.pieces(piece.owner);
        self.with_cell(position, ChessCell(None)).with_pieces(
            piece.owner,
            listed.remove(listed.index_of(piece)),
        )
    }

    /// The board with the piece on `from` standing on `to`: the first cell
    /// is empty, the second holds the piece, the piece keeps its place in
    /// the list of its side, and where it is a king, the recorded square of
    /// that side's king follows it.
    pub open spec fn relocated(self, from: BoardPosition, to: BoardPosition) -> BoardView {
        let piece = self.piece_at(from)->Some_0;
        let listed = self.pieces(piece.owner);
        let moved = self.with_cell(from, ChessCell(None)).with_cell(
            to,
            ChessCell(Some(piece.moved_to(to))),
        ).with_pieces(piece.owner, listed.update(listed.index_of(piece), piece.moved_to(to)));
        if piece.kind == PieceTypes::King {
            moved.with_king_position(piece.owner, to)
        } else {
            moved
        }
    }

    /// Replacing a cell changes that cell and no other.
    pub proof fn lemma_with_cell(self, position: BoardPosition, cell: ChessCell)
        requires
            self.grid_wf(),
            position.wf(),
        ensures
            self.with_cell(position, cell).grid_wf(),
            self.with_cell(position, cell).cell_at(position) == cell,
            forall|row: int, column: int|
                on_board(row, column) && !(row == position.row_index() && column
                    == position.column_index()) ==> (#[trigger] self.with_cell(
                    position,
                    cell,
                ).cells[row][column]) == self.cells[row][column],
            forall|other: BoardPosition|
                other.wf() && other != position ==> (#[trigger] self.with_cell(
                    position,
                    cell,
                ).cell_at(other)) == self.cell_at(other),
    {
        position.lemma_at_indices();
        let after = self.with_cell(position, cell);
        assert forall|other: BoardPosition| other.wf() && other != position implies (
        #[trigger] after.cell_at(other)) == self.cell_at(other) by {
            other.lemma_at_indices();
            if other.row_index() == position.row_index() && other.column_index()
                == position.column_index() {
                BoardPosition::lemma_same_indices(other, position);
            }
        }
    }

    /// A listed piece stands where the list says, and the place of a piece
    /// in the list of its side is the only place where it is listed.
    pub proof fn lemma_listed(self, piece: ChessPiece)
        requires
            self.pieces_wf(),
            piece.position.wf(),
            self.piece_at(piece.position) == Some(piece),
        ensures
            self.pieces(piece.owner).contains(piece),
            0 <= self.pieces(piece.owner).index_of(piece) < self.pieces(piece.owner).len(),
            self.pieces(piece.owner)[self.pieces(piece.owner).index_of(piece)] == piece,
            forall|k: int|
                0 <= k < self.pieces(piece.owner).len() && #[trigger] self.pieces(piece.owner)[k]
                    == piece ==> k == self.pieces(piece.owner).index_of(piece),
    {
        piece.position.lemma_at_indices();
        let row = piece.position.row_index();
        let column = piece.position.column_index();
        assert(self.cells[row][column].0 is Some);
        let listed = self.pieces(piece.owner);
        assert(listed.contains(piece));
        let found = listed.index_of(piece);
        assert(self.list_consistent(piece.owner));
        assert forall|k: int| 0 <= k < listed.len() && #[trigger] listed[k] == piece implies k
            == found by {
            if k < found {
                assert(listed[k] != listed[found]);
            } else if found < k {
                assert(listed[found] != listed[k]);
            }
        }
    }
}

impl BoardView {
    /// Two listed pieces on one square are one piece.
    pub proof fn lemma_one_piece_per_square(self, first: ChessPiece, second: ChessPiece)
        requires
            self.piece_at(first.position) == Some(first),
            self.piece_at(second.position) == Some(second),
            first.position == second.position,
        ensures
            first == second,
    {
    }

    /// Removing a piece keeps the grid and the lists in agreement, leaves
    /// every other square and everything else on the board as it was, and
    /// keeps each king where it is recorded as long as no king is removed.
    pub proof fn lemma_removed(self, position: BoardPosition)
        requires
            self.pieces_wf(),
            position.wf(),
            self.piece_at(position) is Some,
        ensures
            self.removed(position).pieces_wf(),
            self.removed(position).piece_at(position) is None,
            forall|other: BoardPosition|
                other.wf() && other != position ==> (#[trigger] self.removed(position).piece_at(
                    other,
                )) == self.piece_at(other),
            self.removed(position).pieces(self.piece_at(position)->Some_0.owner.spec_opponent())
                == self.pieces(self.piece_at(position)->Some_0.owner.spec_opponent()),
            forall|color: PieceColors|
                self.piece_at(position)->Some_0.kind != PieceTypes::King && self.king_consistent(
                    color,
                ) ==> #[trigger] self.removed(position).king_consistent(color),
    {
        let piece = self.piece_at(position)->Some_0;
        let side = piece.owner;
        let listed = self.pieces(side);
        let after = self.removed(position);
        position.lemma_at_indices();
        assert(self.cells[position.row_index()][position.column_index()].0 is Some);
        assert(piece.position == position);
        self.lemma_listed(piece);
        let gone = listed.index_of(piece);
        self.lemma_with_cell(position, ChessCell(None));
        let emptied = self.with_cell(position, ChessCell(None));
        assert(after.cells == emptied.cells);
        assert(after.pieces(side) == listed.remove(gone));
        assert(after.pieces(side.spec_opponent()) == self.pieces(side.spec_opponent()));
        assert forall|other: BoardPosition| other.wf() && other != position implies (
        #[trigger] after.piece_at(other)) == self.piece_at(other) by {
            assert(emptied.cell_at(other) == self.cell_at(other));
        }
        assert forall|k: int| 0 <= k < after.pieces(side).len() implies {
            let kept = #[trigger] after.pieces(side)[k];
            &&& kept.owner == side
            &&& kept.position.wf()
            &&& after.piece_at(kept.position) == Some(kept)
            &&& kept != piece
            &&& listed.contains(kept)
        } by {
            let from = if k < gone {
                k
            } else {
                k + 1
            };
            let kept = listed[from];
            assert(after.pieces(side)[k] == kept);
            assert(self.list_consistent(side));
            if from < gone {
                assert(listed[from] != listed[gone]);
            } else {
                assert(listed[gone] != listed[from]);
            }
            if kept.position == position {
                self.lemma_one_piece_per_square(kept, piece);
            }
        }
        assert forall|i: int, j: int| 0 <= i < j < after.pieces(side).len() implies after.pieces(
            side,
        )[i] != after.pieces(side)[j] by {
            let from_i = if i < gone {
                i
            } else {
                i + 1
            };
            let from_j = if j < gone {
                j
            } else {
                j + 1
            };
            assert(self.list_consistent(side));
            assert(listed[from_i] != listed[from_j]);
        }
        assert(after.list_consistent(side));
        assert forall|k: int| 0 <= k < after.pieces(side.spec_opponent()).len() implies {
            let kept = #[trigger] after.pieces(side.spec_opponent())[k];
            &&& kept.owner == side.spec_opponent()
            &&& kept.position.wf()
            &&& after.piece_at(kept.position) == Some(kept)
        } by {
            let kept = self.pieces(side.spec_opponent())[k];
            assert(self.list_consistent(side.spec_opponent()));
            if kept.position == position {
                self.lemma_one_piece_per_square(kept, piece);
            }
        }
        assert(self.list_consistent(side.spec_opponent()));
        assert(after.list_consistent(side.spec_opponent()));
        assert forall|row: int, column: int|
            on_board(row, column) && (#[trigger] after.cells[row][column]).0 is Some implies {
            let held = after.cells[row][column].0->Some_0;
            &&& held.position == BoardPosition::at(row, column)
            &&& after.pieces(held.owner).contains(held)
        } by {
            assert(!(row == position.row_index() && column == position.column_index()));
            assert(after.cells[row][column] == self.cells[row][column]);
            let held = self.cells[row][column].0->Some_0;
            BoardPosition::lemma_at(row, column);
            assert(held.position != position);
            assert(self.piece_at(held.position) == Some(held));
            self.lemma_listed(held);
            if held.owner == side {
                let at = listed.index_of(held);
                assert(at != gone);
                let to = if at < gone {
                    at
                } else {
                    at - 1
                };
                assert(after.pieces(side)[to] == held);
            } else {
                assert(held.owner == side.spec_opponent());
            }
        }
        assert(after.pieces_wf());
        assert forall|color: PieceColors|
            piece.kind != PieceTypes::King && self.king_consistent(
                color,
            ) implies #[trigger] after.king_consistent(color) by {
            let king_square = self.king_position(color);
            assert(after.king_position(color) == king_square);
            assert(king_square != position);
            assert(after.piece_at(king_square) == self.piece_at(king_square));
            assert forall|k: int|
                0 <= k < after.pieces(color).len() && (#[trigger] after.pieces(color)[k]).kind
                    == PieceTypes::King implies after.pieces(color)[k].position == king_square by {
                let kept = after.pieces(color)[k];
                if color == side {
                    assert(listed.contains(kept));
                    let at = choose|at: int| 0 <= at < listed.len() && listed[at] == kept;
                    assert(listed[at].kind == PieceTypes::King);
                } else {
                    assert(self.pieces(color)[k] == kept);
                }
            }
        }
    }
}

impl BoardView {
    /// Moving a piece onto an empty square keeps the grid and the lists in
    /// agreement and each king where it is recorded, and leaves every other
    /// square and the list of the other side as they were.
    pub proof fn lemma_relocated(self, from: BoardPosition, to: BoardPosition)
        requires
            self.pieces_wf(),
            from.wf(),
            to.wf(),
            self.piece_at(from) is Some,
            self.piece_at(to) is None,
        ensures
            self.relocated(from, to).pieces_wf(),
            self.relocated(from, to).piece_at(from) is None,
            self.relocated(from, to).piece_at(to) == Some(
                self.piece_at(from)->Some_0.moved_to(to),
            ),
            forall|other: BoardPosition|
                other.wf() && other != from && other != to ==> (#[trigger] self.relocated(
                    from,
                    to,
                ).piece_at(other)) == self.piece_at(other),
            self.relocated(from, to).pieces(self.piece_at(from)->Some_0.owner.spec_opponent())
                == self.pieces(self.piece_at(from)->Some_0.owner.spec_opponent()),
            forall|color: PieceColors|
                self.king_consistent(color) ==> #[trigger] self.relocated(from, to).king_consistent(
                    color,
                ),
    {
        let piece = self.piece_at(from)->Some_0;
        let landed = piece.moved_to(to);
        let side = piece.owner;
        let listed = self.pieces(side);
        let after = self.relocated(from, to);
        from.lemma_at_indices();
        to.lemma_at_indices();
        assert(self.cells[from.row_index()][from.column_index()].0 is Some);
        assert(piece.position == from);
        assert(from != to);
        self.lemma_listed(piece);
        let at = listed.index_of(piece);
        self.lemma_with_cell(from, ChessCell(None));
        let emptied = self.with_cell(from, ChessCell(None));
        emptied.lemma_with_cell(to, ChessCell(Some(landed)));
        let filled = emptied.with_cell(to, ChessCell(Some(landed)));
        assert(after.cells == filled.cells);
        assert(after.pieces(side) == listed.update(at, landed));
        assert(after.pieces(side.spec_opponent()) == self.pieces(side.spec_opponent()));
        assert(filled.cell_at(from) == emptied.cell_at(from));
        assert forall|other: BoardPosition|
            other.wf() && other != from && other != to implies (#[trigger] after.piece_at(other))
            == self.piece_at(other) by {
            assert(filled.cell_at(other) == emptied.cell_at(other));
            assert(emptied.cell_at(other) == self.cell_at(other));
        }
        assert forall|k: int| 0 <= k < after.pieces(side).len() implies {
            let kept = #[trigger] after.pieces(side)[k];
            &&& kept.owner == side
            &&& kept.position.wf()
            &&& after.piece_at(kept.position) == Some(kept)
            &&& (k != at ==> kept == listed[k] && kept.position != to)
        } by {
            assert(self.list_consistent(side));
            if k != at {
                let kept = listed[k];
                if k < at {
                    assert(listed[k] != listed[at]);
                } else {
                    assert(listed[at] != listed[k]);
                }
                if kept.position == from {
                    self.lemma_one_piece_per_square(kept, piece);
                }
            }
        }
        assert forall|i: int, j: int| 0 <= i < j < after.pieces(side).len() implies after.pieces(
            side,
        )[i] != after.pieces(side)[j] by {
            assert(self.list_consistent(side));
            assert(listed[i] != listed[j]);
            let first = after.pieces(side)[i];
            let second = after.pieces(side)[j];
            assert(i != at ==> first.position != to);
            assert(j != at ==> second.position != to);
        }
        assert(after.list_consistent(side));
        assert forall|k: int| 0 <= k < after.pieces(side.spec_opponent()).len() implies {
            let kept = #[trigger] after.pieces(side.spec_opponent())[k];
            &&& kept.owner == side.spec_opponent()
            &&& kept.position.wf()
            &&& after.piece_at(kept.position) == Some(kept)
        } by {
            let kept = self.pieces(side.spec_opponent())[k];
            assert(self.list_consistent(side.spec_opponent()));
            if kept.position == from {
                self.lemma_one_piece_per_square(kept, piece);
            }
        }
        assert(self.list_consistent(side.spec_opponent()));
        assert(after.list_consistent(side.spec_opponent()));
        assert forall|row: int, column: int|
            on_board(row, column) && (#[trigger] after.cells[row][column]).0 is Some implies {
            let held = after.cells[row][column].0->Some_0;
            &&& held.position == BoardPosition::at(row, column)
            &&& after.pieces(held.owner).contains(held)
        } by {
            BoardPosition::lemma_at(row, column);
            if row == to.row_index() && column == to.column_index() {
                assert(after.cells[row][column] == ChessCell(Some(landed)));
                assert(after.pieces(side)[at] == landed);
            } else {
                assert(!(row == from.row_index() && column == from.column_index()));
                assert(filled.cells[row][column] == emptied.cells[row][column]);
                assert(emptied.cells[row][column] == self.cells[row][column]);
                let held = self.cells[row][column].0->Some_0;
                assert(held.position != from);
                assert(self.piece_at(held.position) == Some(held));
                self.lemma_listed(held);
                if held.owner == side {
                    let index = listed.index_of(held);
                    assert(index != at);
                    assert(after.pieces(side)[index] == held);
                } else {
                    assert(held.owner == side.spec_opponent());
                }
            }
        }
        assert(after.grid_wf());
        assert(after.pieces_wf());
        assert forall|color: PieceColors| self.king_consistent(color) implies #[trigger] after.king_consistent(
            color,
        ) by {
            let king_square = self.king_position(color);
            if color == side && piece.kind == PieceTypes::King {
                assert(after.king_position(color) == to);
                assert(landed == ChessPiece { kind: PieceTypes::King, position: to, owner: color });
                assert forall|k: int|
                    0 <= k < after.pieces(color).len() && (#[trigger] after.pieces(color)[k]).kind
                        == PieceTypes::King implies after.pieces(color)[k].position == to by {
                    if k != at {
                        assert(listed[k].kind == PieceTypes::King);
                        assert(listed[k].position == king_square);
                        assert(listed[at].position == king_square);
                        assert(self.list_consistent(side));
                        self.lemma_one_piece_per_square(listed[k], listed[at]);
                        if k < at {
                            assert(listed[k] != listed[at]);
                        } else {
                            assert(listed[at] != listed[k]);
                        }
                    }
                }
            } else {
                assert(after.king_position(color) == king_square);
                assert(king_square != to);
                if king_square == from {
                    assert(piece == ChessPiece {
                        kind: PieceTypes::King,
                        position: king_square,
                        owner: color,
                    });
                }
                assert(king_square != from);
                assert(after.piece_at(king_square) == self.piece_at(king_square));
                assert forall|k: int|
                    0 <= k < after.pieces(color).len() && (#[trigger] after.pieces(color)[k]).kind
                        == PieceTypes::King implies after.pieces(color)[k].position
                    == king_square by {
                    if color == side {
                        if k != at {
                            assert(after.pieces(color)[k] == listed[k]);
                        }
                    } else {
                        assert(after.pieces(color)[k] == self.pieces(color)[k]);
                    }
                }
            }
        }
    }
}

} // verus!
