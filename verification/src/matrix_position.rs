use vstd::prelude::*;

verus! {

/// Why a pair of matrix indices could not be turned into a coordinate.
#[derive(Debug, Clone, Copy, PartialEq, Eq, Structural)]
pub enum FromMatrixPositionError {
    /// The row is greater than the largest one allowed, which is carried.
    MatrixRowTooBig(usize),
    /// The column is greater than the largest one allowed, which is carried.
    MatrixColumnTooBig(usize),
}

impl FromMatrixPositionError {
    /// A sentence describing the error.
    pub fn message(&self) -> (text: &'static str)
        ensures
            text@ == (match *self {
                FromMatrixPositionError::MatrixRowTooBig(_) =>
                    "The matrix row must be equal or less than 7"@,
                FromMatrixPositionError::MatrixColumnTooBig(_) =>
                    "The matrix column must be equal or less than 7"@,
            }),
    {
        match self {
            FromMatrixPositionError::MatrixRowTooBig(_) =>
                "The matrix row must be equal or less than 7",
            FromMatrixPositionError::MatrixColumnTooBig(_) =>
                "The matrix column must be equal or less than 7",
        }
    }
}

/// A coordinate that corresponds to a cell of the 8 by 8 board matrix, given
/// by a zero-based row and column.
pub trait MatrixPosition: Sized {
    /// Whether the value names a cell of the board.
    spec fn matrix_wf(&self) -> bool;

    /// The zero-based row and column the value stands for.
    spec fn spec_matrix_position(&self) -> (int, int);

    /// Returns the zero-based row and column of the value.
    fn to_matrix_position(&self) -> (cell: (usize, usize))
        requires
            self.matrix_wf(),
        ensures
            cell.0 == self.spec_matrix_position().0,
            cell.1 == self.spec_matrix_position().1,
            cell.0 < 8,
            cell.1 < 8,
    ;

    /// Builds the value for a zero-based row and column. A row above 7 is
    /// refused first, then a column above 7.
    fn from_matrix_position(value: (usize, usize)) -> (made: Result<Self, FromMatrixPositionError>)
        ensures
            made is Ok <==> value.0 < 8 && value.1 < 8,
            made is Ok ==> made->Ok_0.matrix_wf() && made->Ok_0.spec_matrix_position() == (
                value.0 as int,
                value.1 as int,
            ),
            value.0 >= 8 ==> made == Err::<Self, _>(FromMatrixPositionError::MatrixRowTooBig(7)),
            value.0 < 8 && value.1 >= 8 ==> made == Err::<Self, _>(
                FromMatrixPositionError::MatrixColumnTooBig(7),
            ),
    ;
}

} // verus!
