//! The two sides of a game.

use vstd::prelude::*;

verus! {

/// The side a piece or a player belongs to.
#[derive(PartialEq, Eq, Structural, Clone, Copy, Debug)]
pub enum PieceColor {
    White,
    Black,
}

impl PieceColor {
    /// The other side.
    pub open spec fn opposite(self) -> PieceColor {
        match self {
            PieceColor::White => PieceColor::Black,
            PieceColor::Black => PieceColor::White,
        }
    }

    /// The name of the side.
    pub open spec fn name(self) -> Seq<char> {
        match self {
            PieceColor::White => "White"@,
            PieceColor::Black => "Black"@,
        }
    }

    /// Returns the name of the side.
    pub fn get_name(&self) -> (name: &'static str)
        ensures
            name@ == self.name(),
    {
        match self {
            PieceColor::White => "White",
            PieceColor::Black => "Black",
        }
    }

    /// Returns the other side.
    pub fn invert(&self) -> (other: PieceColor)
        ensures
            other == self.opposite(),
    {
        match *self {
            PieceColor::White => PieceColor::Black,
            PieceColor::Black => PieceColor::White,
        }
    }
}

} // verus!
