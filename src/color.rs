use vstd::prelude::*;

verus! {

/// The side a piece belongs to.
#[derive(Debug, Clone, Copy, PartialEq, Eq, Structural)]
pub enum Color {
    Black,
    White,
}

/// The side that a piece letter stands for: a lower-case letter is White,
/// anything else Black.
pub open spec fn letter_color(c: char) -> Color {
    if 'a' <= c && c <= 'z' {
        Color::White
    } else {
        Color::Black
    }
}

impl Color {
    /// The side written by the case of a piece letter.
    pub fn of_letter(c: char) -> (r: Color)
        ensures
            r == letter_color(c),
    {
        if 'a' <= c && c <= 'z' {
            Color::White
        } else {
            Color::Black
        }
    }
}

} // verus!
