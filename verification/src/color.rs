//! The three item colours.

use vstd::prelude::*;

verus! {

/// Colour of an item, of a swing and of a counter on the remote ledger.
#[derive(Clone, Copy, Debug, PartialEq, Eq, Structural)]
pub enum ColorId {
    Red,
    Blue,
    Green,
}

impl ColorId {
    /// Position of the colour in every per-colour table: red 0, blue 1, green 2.
    pub open spec fn index_of(self) -> nat {
        match self {
            ColorId::Red => 0,
            ColorId::Blue => 1,
            ColorId::Green => 2,
        }
    }

    /// The colour at a table position; positions past the table read as green.
    pub open spec fn at(i: int) -> ColorId {
        if i == 0 {
            ColorId::Red
        } else if i == 1 {
            ColorId::Blue
        } else {
            ColorId::Green
        }
    }

    pub fn index(self) -> (r: u8)
        ensures
            r as nat == self.index_of(),
    {
        match self {
            ColorId::Red => 0,
            ColorId::Blue => 1,
            ColorId::Green => 2,
        }
    }

    /// Checked conversion from a table position: anything but 0, 1, 2 is refused.
    pub fn from_index(i: u8) -> (r: Option<ColorId>)
        ensures
            i < 3 ==> r == Some(ColorId::at(i as int)),
            i >= 3 ==> r is None,
    {
        if i == 0 {
            Some(ColorId::Red)
        } else if i == 1 {
            Some(ColorId::Blue)
        } else if i == 2 {
            Some(ColorId::Green)
        } else {
            None
        }
    }

    /// Colour chosen by a random byte: the byte modulo three.
    pub fn from_roll(roll: u8) -> (r: ColorId)
        ensures
            r == ColorId::at((roll % 3) as int),
            r.index_of() == roll % 3,
    {
        let k: u8 = roll % 3;
        if k == 0 {
            ColorId::Red
        } else if k == 1 {
            ColorId::Blue
        } else {
            ColorId::Green
        }
    }
}

/// A table position below three names the colour that has that position.
pub proof fn index_round_trip(c: ColorId)
    ensures
        c.index_of() < 3,
        ColorId::at(c.index_of() as int) == c,
{
}

} // verus!
