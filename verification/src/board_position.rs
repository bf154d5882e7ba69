use crate::array_index::ArrayIndex;
use crate::chess_file::{ChessFile, FileInstancingErrors};
use crate::chess_rank::{ChessRank, RankInstancingErrors};
use crate::matrix_position::{FromMatrixPositionError, MatrixPosition};
use vstd::prelude::*;
use vstd::std_specs::convert::TryFromSpecImpl;
use vstd::string::StrSliceExecFns;
use vstd::string::StringExecFns;

verus! {

/// A square of the board: a rank and a file.
#[derive(Debug, Clone, Copy, PartialEq, Eq, Hash, Structural)]
pub struct BoardPosition {
    pub row: ChessRank,
    pub column: ChessFile,
}

/// Why a string is not a square in algebraic notation.
#[derive(Debug, Clone, PartialEq, Eq)]
pub enum BoardPositionFromStrErrors {
    /// The first character is not a file letter: the square is out of range.
    InvalidColumnFormat(FileInstancingErrors),
    /// The digit is 0 or 9: the square is out of range.
    InvalidRowFormat(RankInstancingErrors),
    /// The second character, which is carried, is no digit: the notation is
    /// malformed.
    RankMustBeANumber(String),
    /// The string, which is carried, does not have two characters: the
    /// notation is malformed.
    ValueTooLarge(String),
}

/// Why a pair of signed indices is not a square.
#[derive(Debug, Clone, Copy, PartialEq, Eq, Structural)]
pub enum BoardPositionFromIsizeErrors {
    NegativeFile,
    NegativeRank,
    RankTooHigh,
    FileTooHigh,
}

/// Why a pair of unsigned indices is not a square.
#[derive(Debug, Clone, Copy, PartialEq, Eq, Structural)]
pub enum BoardPositionFromUsizeErrors {
    RankTooHigh,
    FileTooHigh,
}

impl BoardPositionFromStrErrors {
    /// A sentence describing the kind of error.
    pub fn message(&self) -> (text: &'static str)
        ensures
            text@ == (match *self {
                BoardPositionFromStrErrors::InvalidColumnFormat(_) =>
                    "The format of the file (column) is invalid."@,
                BoardPositionFromStrErrors::InvalidRowFormat(_) =>
                    "The format of the rank (row) is invalid."@,
                BoardPositionFromStrErrors::RankMustBeANumber(_) => "The rank must be a number."@,
                BoardPositionFromStrErrors::ValueTooLarge(_) => "The value must be of length 2."@,
            }),
    {
        match self {
            BoardPositionFromStrErrors::InvalidColumnFormat(_) =>
                "The format of the file (column) is invalid.",
            BoardPositionFromStrErrors::InvalidRowFormat(_) =>
                "The format of the rank (row) is invalid.",
            BoardPositionFromStrErrors::RankMustBeANumber(_) => "The rank must be a number.",
            BoardPositionFromStrErrors::ValueTooLarge(_) => "The value must be of length 2.",
        }
    }
}

impl BoardPositionFromIsizeErrors {
    /// A sentence describing the error.
    pub fn message(&self) -> (text: &'static str)
        ensures
            text@ == (match *self {
                BoardPositionFromIsizeErrors::NegativeFile =>
                    "The file (column) passed in is negative."@,
                BoardPositionFromIsizeErrors::NegativeRank =>
                    "The rank (row) passed in is negative."@,
                BoardPositionFromIsizeErrors::RankTooHigh =>
                    "The rank (row) passed in is greater than 7."@,
                BoardPositionFromIsizeErrors::FileTooHigh =>
                    "The file (column) passed in is greater than 7."@,
            }),
    {
        match self {
            BoardPositionFromIsizeErrors::NegativeFile => "The file (column) passed in is negative.",
            BoardPositionFromIsizeErrors::NegativeRank => "The rank (row) passed in is negative.",
            BoardPositionFromIsizeErrors::RankTooHigh =>
                "The rank (row) passed in is greater than 7.",
            BoardPositionFromIsizeErrors::FileTooHigh =>
                "The file (column) passed in is greater than 7.",
        }
    }
}

impl BoardPositionFromUsizeErrors {
    /// A sentence describing the error.
    pub fn message(&self) -> (text: &'static str)
        ensures
            text@ == (match *self {
                BoardPositionFromUsizeErrors::RankTooHigh =>
                    "The rank (row) passed in is greater than 7."@,
                BoardPositionFromUsizeErrors::FileTooHigh =>
                    "The file (column) passed in is greater than 7."@,
            }),
    {
        match self {
            BoardPositionFromUsizeErrors::RankTooHigh =>
                "The rank (row) passed in is greater than 7.",
            BoardPositionFromUsizeErrors::FileTooHigh =>
                "The file (column) passed in is greater than 7.",
        }
    }
}

/// Whether a zero-based row and column name a square of the board.
pub open spec fn on_board(row: int, column: int) -> bool {
    0 <= row < 8 && 0 <= column < 8
}

/// What parsing a string as algebraic notation gives: the checks are made in
/// the order length, file letter, digit, rank.
pub open spec fn parsed_as(text: Seq<char>, made: Result<BoardPosition, BoardPositionFromStrErrors>) -> bool {
    if text.len() != 2 {
        made matches Err(BoardPositionFromStrErrors::ValueTooLarge(s)) && s@ == text
    } else if !('a' <= text[0] <= 'h') {
        made == Err::<BoardPosition, _>(
            BoardPositionFromStrErrors::InvalidColumnFormat(FileInstancingErrors::InvalidColumnChar),
        )
    } else if !('0' <= text[1] <= '9') {
        made matches Err(BoardPositionFromStrErrors::RankMustBeANumber(s)) && s@ == text.subrange(
            1,
            2,
        )
    } else if text[1] == '0' || text[1] == '9' {
        made == Err::<BoardPosition, _>(
            BoardPositionFromStrErrors::InvalidRowFormat(RankInstancingErrors::InvalidRowNumber),
        )
    } else {
        made == Ok::<_, BoardPositionFromStrErrors>(
            BoardPosition::at(text[1] as int - 49, text[0] as int - 97),
        )
    }
}

impl BoardPosition {
    /// A square is well formed when its rank and its file are.
    pub open spec fn wf(self) -> bool {
        self.row.wf() && self.column.wf()
    }

    /// The zero-based row of the square: 0 for rank 1.
    pub open spec fn row_index(self) -> int {
        self.row@ - 1
    }

    /// The zero-based column of the square: 0 for file `a`.
    pub open spec fn column_index(self) -> int {
        self.column@ as int - 97
    }

    /// The square in the given zero-based row and column.
    pub open spec fn at(row: int, column: int) -> BoardPosition {
        BoardPosition {
            row: ChessRank::of_number(row + 1),
            column: ChessFile::of_letter((column + 97) as char),
        }
    }

    /// The two characters of the square in algebraic notation.
    pub open spec fn spec_algebraic(self) -> Seq<char> {
        seq![self.column@, self.row.spec_digit()]
    }

    /// `at` gives a well-formed square with the indices asked for.
    pub broadcast proof fn lemma_at(row: int, column: int)
        requires
            on_board(row, column),
        ensures
            (#[trigger] BoardPosition::at(row, column)).wf(),
            BoardPosition::at(row, column).row_index() == row,
            BoardPosition::at(row, column).column_index() == column,
    {
        ChessRank::lemma_of_number(row + 1);
        ChessFile::lemma_of_letter((column + 97) as char);
    }

    /// A well-formed square lies on the board and is the one `at` gives for
    /// its indices.
    pub proof fn lemma_at_indices(self)
        requires
            self.wf(),
        ensures
            on_board(self.row_index(), self.column_index()),
            BoardPosition::at(self.row_index(), self.column_index()) == self,
    {
        self.row.lemma_of_view();
        self.column.lemma_of_view();
    }

    /// Two squares with the same indices are the same square.
    pub proof fn lemma_same_indices(a: BoardPosition, b: BoardPosition)
        requires
            a.row_index() == b.row_index(),
            a.column_index() == b.column_index(),
        ensures
            a == b,
    {
        ChessRank::lemma_view_injective(a.row, b.row);
        ChessFile::lemma_view_injective(a.column, b.column);
    }

    /// Writing a well-formed square in algebraic notation and reading the
    /// text back gives the same square.
    pub proof fn lemma_write_then_read(
        square: BoardPosition,
        made: Result<BoardPosition, BoardPositionFromStrErrors>,
    )
        requires
            square.wf(),
            parsed_as(square.spec_algebraic(), made),
        ensures
            made == Ok::<_, BoardPositionFromStrErrors>(square),
    {
        let text = square.spec_algebraic();
        assert(text[0] == square.column@);
        assert(text[1] == square.row.spec_digit());
        square.lemma_at_indices();
    }

    /// Reading a string as a square and writing that square in algebraic
    /// notation gives the same string.
    pub proof fn lemma_read_then_write(
        text: Seq<char>,
        made: Result<BoardPosition, BoardPositionFromStrErrors>,
    )
        requires
            parsed_as(text, made),
            made is Ok,
        ensures
            made->Ok_0.wf(),
            made->Ok_0.spec_algebraic() == text,
    {
        BoardPosition::lemma_at(text[1] as int - 49, text[0] as int - 97);
        assert(made->Ok_0.spec_algebraic() =~= text);
    }

    /// Whether the square is one of the squares of the board.
    pub fn is_valid(&self) -> (valid: bool)
        ensures
            valid == self.wf(),
    {
        self.row.is_valid() && self.column.is_valid()
    }

    /// Returns the square's zero-based row and column.
    pub fn indices(&self) -> (cell: (usize, usize))
        requires
            self.wf(),
        ensures
            cell.0 == self.row_index(),
            cell.1 == self.column_index(),
            cell.0 < 8,
            cell.1 < 8,
    {
        (self.row.to_index(), self.column.to_index())
    }

    /// Returns the square in the given zero-based row and column.
    pub fn from_indices(row: usize, column: usize) -> (square: BoardPosition)
        requires
            row < 8,
            column < 8,
        ensures
            square == BoardPosition::at(row as int, column as int),
            square.wf(),
    {
        let made_row = ChessRank::from_index(row);
        let made_column = ChessFile::from_index(column);
        match (made_row, made_column) {
            (Ok(row_made), Ok(column_made)) => {
                let square = BoardPosition { row: row_made, column: column_made };
                proof {
                    BoardPosition::lemma_at(row as int, column as int);
                    BoardPosition::lemma_same_indices(
                        square,
                        BoardPosition::at(row as int, column as int),
                    );
                }
                square
            },
            _ => vstd::pervasive::unreached(),
        }
    }

    /// The square reached by moving the given number of rows and columns, if
    /// it lies on the board.
    pub open spec fn spec_offset(self, rows: int, columns: int) -> Option<BoardPosition> {
        if on_board(self.row_index() + rows, self.column_index() + columns) {
            Some(BoardPosition::at(self.row_index() + rows, self.column_index() + columns))
        } else {
            None
        }
    }

    /// Returns the square reached by moving the given number of rows and
    /// columns, or `None` where that leaves the board.
    pub fn offset(&self, rows: isize, columns: isize) -> (reached: Option<BoardPosition>)
        requires
            self.wf(),
        ensures
            reached == self.spec_offset(rows as int, columns as int),
            reached is Some ==> reached->Some_0.wf(),
    {
        let (row, column) = self.indices();
        if rows < -7 || rows > 7 || columns < -7 || columns > 7 {
            return None;
        }
        let target_row: isize = row as isize + rows;
        let target_column: isize = column as isize + columns;
        if target_row < 0 || target_row > 7 || target_column < 0 || target_column > 7 {
            None
        } else {
            Some(BoardPosition::from_indices(target_row as usize, target_column as usize))
        }
    }

    /// Returns the square in algebraic notation: the file letter, then the
    /// rank digit.
    pub fn algebraic(&self) -> (text: String)
        requires
            self.wf(),
        ensures
            text@ == self.spec_algebraic(),
    {
        let letter: &'static str = file_text(self.column);
        let digit: &'static str = rank_text(self.row);
        let text = String::from_str(letter).concat(digit);
        assert(text@ =~= self.spec_algebraic());
        text
    }

    /// Reads a square in algebraic notation: a file letter `a` to `h`, then a
    /// rank digit `1` to `8`.
    pub fn from_algebraic(value: &str) -> (made: Result<BoardPosition, BoardPositionFromStrErrors>)
        ensures
            parsed_as(value@, made),
            made is Ok ==> made->Ok_0.wf(),
    {
        if value.unicode_len() != 2 {
            return Err(BoardPositionFromStrErrors::ValueTooLarge(String::from_str(value)));
        }
        let letter = value.get_char(0);
        let digit = value.get_char(1);
        let column = match ChessFile::try_from(letter) {
            Ok(column) => column,
            Err(e) => {
                return Err(BoardPositionFromStrErrors::InvalidColumnFormat(e));
            },
        };
        let number: usize = match digit {
            '0' => 0,
            '1' => 1,
            '2' => 2,
            '3' => 3,
            '4' => 4,
            '5' => 5,
            '6' => 6,
            '7' => 7,
            '8' => 8,
            '9' => 9,
            _ => {
                return Err(
                    BoardPositionFromStrErrors::RankMustBeANumber(
                        String::from_str(value.substring_char(1, 2)),
                    ),
                );
            },
        };
        let row = match ChessRank::try_from(number) {
            Ok(row) => row,
            Err(e) => {
                return Err(BoardPositionFromStrErrors::InvalidRowFormat(e));
            },
        };
        let square = BoardPosition { row, column };
        proof {
            ChessRank::lemma_of_number(number as int);
            ChessFile::lemma_of_letter(letter);
            BoardPosition::lemma_at(number as int - 1, letter as int - 97);
            BoardPosition::lemma_same_indices(
                square,
                BoardPosition::at(value@[1] as int - 49, value@[0] as int - 97),
            );
        }
        Ok(square)
    }
}

/// The letter of a file as a one-character string.
fn file_text(file: ChessFile) -> (text: &'static str)
    requires
        file.wf(),
    ensures
        text@ == seq![file@],
{
    proof {
        reveal_strlit("a");
        reveal_strlit("b");
        reveal_strlit("c");
        reveal_strlit("d");
        reveal_strlit("e");
        reveal_strlit("f");
        reveal_strlit("g");
        reveal_strlit("h");
    }
    let text = match file.letter() {
        'a' => "a",
        'b' => "b",
        'c' => "c",
        'd' => "d",
        'e' => "e",
        'f' => "f",
        'g' => "g",
        _ => "h",
    };
    assert(text@ =~= seq![file@]);
    text
}

/// The digit of a rank as a one-character string.
fn rank_text(rank: ChessRank) -> (text: &'static str)
    requires
        rank.wf(),
    ensures
        text@ == seq![rank.spec_digit()],
{
    proof {
        reveal_strlit("1");
        reveal_strlit("2");
        reveal_strlit("3");
        reveal_strlit("4");
        reveal_strlit("5");
        reveal_strlit("6");
        reveal_strlit("7");
        reveal_strlit("8");
    }
    let text = match rank.number() {
        1 => "1",
        2 => "2",
        3 => "3",
        4 => "4",
        5 => "5",
        6 => "6",
        7 => "7",
        _ => "8",
    };
    assert(text@ =~= seq![rank.spec_digit()]);
    text
}

impl TryFrom<&str> for BoardPosition {
    type Error = BoardPositionFromStrErrors;

    /// Reads a square in algebraic notation, as `from_algebraic` does.
    fn try_from(value: &str) -> (made: Result<Self, Self::Error>)
        ensures
            parsed_as(value@, made),
            made is Ok ==> made->Ok_0.wf(),
    {
        BoardPosition::from_algebraic(value)
    }
}

impl TryFromSpecImpl<&str> for BoardPosition {
    /// The errors carry strings, of which only the characters are stated: the
    /// result is described by `parsed_as`.
    open spec fn obeys_try_from_spec() -> bool {
        false
    }

    open spec fn try_from_spec(value: &str) -> Result<Self, Self::Error> {
        arbitrary()
    }
}

impl TryFrom<(usize, usize)> for BoardPosition {
    type Error = BoardPositionFromUsizeErrors;

    /// Builds the square in a zero-based row and column. A row above 7 is
    /// refused first, then a column above 7.
    fn try_from(value: (usize, usize)) -> (made: Result<Self, Self::Error>)
        ensures
            made is Ok ==> made->Ok_0.wf(),
    {
        let (row, column) = value;
        if row > 7 {
            Err(BoardPositionFromUsizeErrors::RankTooHigh)
        } else if column > 7 {
            Err(BoardPositionFromUsizeErrors::FileTooHigh)
        } else {
            Ok(BoardPosition::from_indices(row, column))
        }
    }
}

impl TryFromSpecImpl<(usize, usize)> for BoardPosition {
    open spec fn obeys_try_from_spec() -> bool {
        true
    }

    open spec fn try_from_spec(value: (usize, usize)) -> Result<Self, Self::Error> {
        if value.0 > 7 {
            Err(BoardPositionFromUsizeErrors::RankTooHigh)
        } else if value.1 > 7 {
            Err(BoardPositionFromUsizeErrors::FileTooHigh)
        } else {
            Ok(BoardPosition::at(value.0 as int, value.1 as int))
        }
    }
}

impl TryFrom<(isize, isize)> for BoardPosition {
    type Error = BoardPositionFromIsizeErrors;

    /// Builds the square in a signed row and column. The checks are made in
    /// the order negative row, negative column, row above 7, column above 7.
    fn try_from(value: (isize, isize)) -> (made: Result<Self, Self::Error>)
        ensures
            made is Ok ==> made->Ok_0.wf(),
    {
        let (row, column) = value;
        if row < 0 {
            Err(BoardPositionFromIsizeErrors::NegativeRank)
        } else if column < 0 {
            Err(BoardPositionFromIsizeErrors::NegativeFile)
        } else if row > 7 {
            Err(BoardPositionFromIsizeErrors::RankTooHigh)
        } else if column > 7 {
            Err(BoardPositionFromIsizeErrors::FileTooHigh)
        } else {
            Ok(BoardPosition::from_indices(row as usize, column as usize))
        }
    }
}

impl TryFromSpecImpl<(isize, isize)> for BoardPosition {
    open spec fn obeys_try_from_spec() -> bool {
        true
    }

    open spec fn try_from_spec(value: (isize, isize)) -> Result<Self, Self::Error> {
        if value.0 < 0 {
            Err(BoardPositionFromIsizeErrors::NegativeRank)
        } else if value.1 < 0 {
            Err(BoardPositionFromIsizeErrors::NegativeFile)
        } else if value.0 > 7 {
            Err(BoardPositionFromIsizeErrors::RankTooHigh)
        } else if value.1 > 7 {
            Err(BoardPositionFromIsizeErrors::FileTooHigh)
        } else {
            Ok(BoardPosition::at(value.0 as int, value.1 as int))
        }
    }
}

impl MatrixPosition for BoardPosition {
    open spec fn matrix_wf(&self) -> bool {
        self.wf()
    }

    open spec fn spec_matrix_position(&self) -> (int, int) {
        (self.row_index(), self.column_index())
    }

    fn to_matrix_position(&self) -> (cell: (usize, usize)) {
        self.indices()
    }

    fn from_matrix_position(value: (usize, usize)) -> (made: Result<
        Self,
        FromMatrixPositionError,
    >) {
        if value.0 > 7 {
            Err(FromMatrixPositionError::MatrixRowTooBig(7))
        } else if value.1 > 7 {
            Err(FromMatrixPositionError::MatrixColumnTooBig(7))
        } else {
            let square = BoardPosition::from_indices(value.0, value.1);
            proof {
                BoardPosition::lemma_at(value.0 as int, value.1 as int);
            }
            Ok(square)
        }
    }
}

} // verus!
