use crate::array_index::{ArrayIndex, FromArrayIndexError};
use vstd::prelude::*;
use vstd::std_specs::convert::TryFromSpecImpl;

verus! {

/// A rank (row) of the board, numbered 1 to 8.
#[derive(Debug, Clone, Copy, PartialEq, Eq, Hash, Structural)]
pub struct ChessRank(usize);

/// Why a number is not a rank.
#[derive(Debug, Clone, Copy, PartialEq, Eq, Structural)]
pub enum RankInstancingErrors {
    /// The number is not between 1 and 8.
    InvalidRowNumber,
}

impl RankInstancingErrors {
    /// A sentence describing the error.
    pub fn message(&self) -> (text: &'static str)
        ensures
            text@ == "The rank (row) must be a number between 1 and 8!"@,
    {
        "The rank (row) must be a number between 1 and 8!"
    }
}

impl View for ChessRank {
    type V = int;

    /// The rank's number.
    closed spec fn view(&self) -> int {
        self.0 as int
    }
}

impl ChessRank {
    /// A rank is well formed when its number lies between 1 and 8.
    pub open spec fn wf(self) -> bool {
        1 <= self@ <= 8
    }

    /// The rank with the given number.
    pub closed spec fn of_number(number: int) -> ChessRank {
        ChessRank(number as usize)
    }

    /// `of_number` and the view are inverse to each other on ranks.
    pub broadcast proof fn lemma_of_number(number: int)
        requires
            1 <= number <= 8,
        ensures
            (#[trigger] ChessRank::of_number(number))@ == number,
            ChessRank::of_number(number).wf(),
    {
    }

    /// Two ranks with the same number are the same rank.
    pub broadcast proof fn lemma_view_injective(a: ChessRank, b: ChessRank)
        requires
            #[trigger] a@ == #[trigger] b@,
        ensures
            a == b,
    {
    }

    /// A well-formed rank is the rank of its own number.
    pub proof fn lemma_of_view(self)
        ensures
            ChessRank::of_number(self@) == self,
    {
    }

    /// Whether the rank is one of the eight ranks of the board.
    pub fn is_valid(&self) -> (valid: bool)
        ensures
            valid == self.wf(),
    {
        1 <= self.0 && self.0 <= 8
    }

    /// Returns the rank's number, between 1 and 8.
    pub fn number(&self) -> (number: usize)
        requires
            self.wf(),
        ensures
            number == self@,
    {
        self.0
    }

    /// The digit that names the rank in algebraic notation.
    pub open spec fn spec_digit(self) -> char {
        (self@ + 48) as char
    }

    /// Returns the digit that names the rank in algebraic notation.
    pub fn digit(&self) -> (digit: char)
        requires
            self.wf(),
        ensures
            digit == self.spec_digit(),
    {
        match self.0 {
            1 => '1',
            2 => '2',
            3 => '3',
            4 => '4',
            5 => '5',
            6 => '6',
            7 => '7',
            _ => '8',
        }
    }
}

impl TryFrom<usize> for ChessRank {
    type Error = RankInstancingErrors;

    /// Builds a rank from its number; only 1 to 8 are accepted.
    fn try_from(row: usize) -> (made: Result<Self, Self::Error>)
    {
        if 1 <= row && row <= 8 {
            Ok(ChessRank(row))
        } else {
            Err(RankInstancingErrors::InvalidRowNumber)
        }
    }
}

impl TryFromSpecImpl<usize> for ChessRank {
    open spec fn obeys_try_from_spec() -> bool {
        true
    }

    open spec fn try_from_spec(row: usize) -> Result<Self, Self::Error> {
        if 1 <= row <= 8 {
            Ok(ChessRank::of_number(row as int))
        } else {
            Err(RankInstancingErrors::InvalidRowNumber)
        }
    }
}

impl ArrayIndex for ChessRank {
    open spec fn index_wf(&self) -> bool {
        self.wf()
    }

    open spec fn spec_index(&self) -> int {
        self@ - 1
    }

    fn to_index(&self) -> (index: usize) {
        self.0 - 1
    }

    fn from_index(value: usize) -> (made: Result<Self, FromArrayIndexError>) {
        if value <= 7 {
            Ok(ChessRank(value + 1))
        } else {
            Err(FromArrayIndexError::IndexTooBig(7))
        }
    }
}

} // verus!
