use vstd::prelude::*;

verus! {

/// The two sides of a game.
#[derive(Debug, Clone, Copy, PartialEq, Eq, Hash, Structural)]
pub enum PieceColors {
    Black,
    White,
}

impl PieceColors {
    /// The other side.
    pub open spec fn spec_opponent(self) -> PieceColors {
        match self {
            PieceColors::Black => PieceColors::White,
            PieceColors::White => PieceColors::Black,
        }
    }

    /// Returns the color of the opposing side.
    pub fn opponent(&self) -> (other: PieceColors)
        ensures
            other == self.spec_opponent(),
            other != *self,
    {
        match self {
            PieceColors::Black => PieceColors::White,
            PieceColors::White => PieceColors::Black,
        }
    }

    /// The color's English name, capitalised.
    pub fn name(&self) -> (text: &'static str)
        ensures
            text@ == (match *self {
                PieceColors::Black => "Black"@,
                PieceColors::White => "White"@,
            }),
    {
        match self {
            PieceColors::Black => "Black",
            PieceColors::White => "White",
        }
    }
}

} // verus!
