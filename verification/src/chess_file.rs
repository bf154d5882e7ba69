use crate::array_index::{ArrayIndex, FromArrayIndexError};
use vstd::prelude::*;
use vstd::std_specs::convert::TryFromSpecImpl;

verus! {

/// A file (column) of the board, lettered `a` to `h`.
#[derive(Debug, Clone, Copy, PartialEq, Eq, Hash, Structural)]
pub struct ChessFile(char);

/// Why a character is not a file.
#[derive(Debug, Clone, Copy, PartialEq, Eq, Structural)]
pub enum FileInstancingErrors {
    /// The character is not one of `a` to `h`.
    InvalidColumnChar,
}

impl FileInstancingErrors {
    /// A sentence describing the error.
    pub fn message(&self) -> (text: &'static str)
        ensures
            text@ == "The column must be a char between 'a' and 'h'!"@,
    {
        "The column must be a char between 'a' and 'h'!"
    }
}

impl View for ChessFile {
    type V = char;

    /// The file's letter.
    closed spec fn view(&self) -> char {
        self.0
    }
}

impl ChessFile {
    /// A file is well formed when its letter lies between `a` and `h`.
    pub open spec fn wf(self) -> bool {
        'a' <= self@ <= 'h'
    }

    /// The file with the given letter.
    pub closed spec fn of_letter(letter: char) -> ChessFile {
        ChessFile(letter)
    }

    /// `of_letter` and the view are inverse to each other.
    pub broadcast proof fn lemma_of_letter(letter: char)
        ensures
            (#[trigger] ChessFile::of_letter(letter))@ == letter,
    {
    }

    /// Two files with the same letter are the same file.
    pub broadcast proof fn lemma_view_injective(a: ChessFile, b: ChessFile)
        requires
            #[trigger] a@ == #[trigger] b@,
        ensures
            a == b,
    {
    }

    /// A file is the file of its own letter.
    pub proof fn lemma_of_view(self)
        ensures
            ChessFile::of_letter(self@) == self,
    {
    }

    /// Whether the file is one of the eight files of the board.
    pub fn is_valid(&self) -> (valid: bool)
        ensures
            valid == self.wf(),
    {
        'a' <= self.0 && self.0 <= 'h'
    }

    /// Returns the file's letter.
    pub fn letter(&self) -> (letter: char)
        ensures
            letter == self@,
    {
        self.0
    }
}

impl TryFrom<char> for ChessFile {
    type Error = FileInstancingErrors;

    /// Builds a file from its letter; only `a` to `h` are accepted.
    fn try_from(column: char) -> (made: Result<Self, Self::Error>)
    {
        if 'a' <= column && column <= 'h' {
            Ok(ChessFile(column))
        } else {
            Err(FileInstancingErrors::InvalidColumnChar)
        }
    }
}

impl TryFromSpecImpl<char> for ChessFile {
    open spec fn obeys_try_from_spec() -> bool {
        true
    }

    open spec fn try_from_spec(column: char) -> Result<Self, Self::Error> {
        if 'a' <= column <= 'h' {
            Ok(ChessFile::of_letter(column))
        } else {
            Err(FileInstancingErrors::InvalidColumnChar)
        }
    }
}

impl ArrayIndex for ChessFile {
    open spec fn index_wf(&self) -> bool {
        self.wf()
    }

    open spec fn spec_index(&self) -> int {
        self@ as int - 97
    }

    fn to_index(&self) -> (index: usize) {
        match self.0 {
            'a' => 0,
            'b' => 1,
            'c' => 2,
            'd' => 3,
            'e' => 4,
            'f' => 5,
            'g' => 6,
            _ => 7,
        }
    }

    fn from_index(value: usize) -> (made: Result<Self, FromArrayIndexError>) {
        match value {
            0 => Ok(ChessFile('a')),
            1 => Ok(ChessFile('b')),
            2 => Ok(ChessFile('c')),
            3 => Ok(ChessFile('d')),
            4 => Ok(ChessFile('e')),
            5 => Ok(ChessFile('f')),
            6 => Ok(ChessFile('g')),
            7 => Ok(ChessFile('h')),
            _ => Err(FromArrayIndexError::IndexTooBig(7)),
        }
    }
}

} // verus!
