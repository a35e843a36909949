use vstd::prelude::*;

use crate::color::Color;

verus! {

/// One piece's attempt to capture the other: its color, and whether it succeeds.
pub struct Movement<'a> {
    pub piece_color: &'a Color,
    pub did_win: bool,
}

impl Movement<'_> {
    /// Whether this is a white piece that captures.
    pub fn white_wins(&self) -> (r: bool)
        ensures
            r == (*self.piece_color == Color::White && self.did_win),
    {
        *self.piece_color == Color::White && self.did_win
    }

    /// Whether this is a black piece that captures.
    pub fn black_wins(&self) -> (r: bool)
        ensures
            r == (*self.piece_color == Color::Black && self.did_win),
    {
        *self.piece_color == Color::Black && self.did_win
    }
}

} // verus!
