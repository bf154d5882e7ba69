use vstd::prelude::*;

verus! {

/// Why an array index could not be turned into a coordinate.
#[derive(Debug, Clone, Copy, PartialEq, Eq, Structural)]
pub enum FromArrayIndexError {
    /// The index is greater than the largest one allowed, which is carried.
    IndexTooBig(usize),
}

impl FromArrayIndexError {
    /// A sentence describing the error.
    pub fn message(&self) -> (text: &'static str)
        ensures
            text@ == "The array index must be equal or less than 7"@,
    {
        "The array index must be equal or less than 7"
    }
}

/// A coordinate component that corresponds to one of the eight zero-based
/// indices of a board axis.
pub trait ArrayIndex: Sized {
    /// Whether the value is one of the eight values of its axis.
    spec fn index_wf(&self) -> bool;

    /// The zero-based index the value stands for.
    spec fn spec_index(&self) -> int;

    /// Returns the zero-based index of the value.
    fn to_index(&self) -> (index: usize)
        requires
            self.index_wf(),
        ensures
            index == self.spec_index(),
            index < 8,
    ;

    /// Builds the value for a zero-based index; indices above 7 are refused.
    fn from_index(value: usize) -> (made: Result<Self, FromArrayIndexError>)
        ensures
            made is Ok <==> value < 8,
            made is Ok ==> made->Ok_0.index_wf() && made->Ok_0.spec_index() == value,
            made is Err ==> made->Err_0 == FromArrayIndexError::IndexTooBig(7),
    ;
}

} // verus!
