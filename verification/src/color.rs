//! The two piece colors.

use vstd::prelude::*;

verus! {

/// The color of a piece.
#[derive(Copy, Clone, Debug, PartialEq, Eq, Hash, Structural)]
pub enum PieceColor {
    Light,
    Dark,
}

impl PieceColor {
    /// The opposite color.
    pub open spec fn spec_flip(self) -> Self {
        match self {
            PieceColor::Light => PieceColor::Dark,
            PieceColor::Dark => PieceColor::Light,
        }
    }

    /// Flips the color.
    pub fn flip(self) -> (r: Self)
        ensures
            r == self.spec_flip(),
    {
        match self {
            PieceColor::Light => PieceColor::Dark,
            PieceColor::Dark => PieceColor::Light,
        }
    }

    /// Flips the color if the statement is true.
    pub fn flip_if(self, statement: bool) -> (r: Self)
        ensures
            r == if statement {
                self.spec_flip()
            } else {
                self
            },
    {
        if statement {
            self.flip()
        } else {
            self
        }
    }

    /// The color's name, as shown to a user.
    pub fn name(self) -> (r: String)
        ensures
            self is Light ==> r@ == "Light"@,
            self is Dark ==> r@ == "Dark"@,
    {
        match self {
            PieceColor::Light => "Light".to_string(),
            PieceColor::Dark => "Dark".to_string(),
        }
    }
}

} // verus!
