use vstd::prelude::*;

verus! {

/// A square of the board. The lower left corner is (0, 0); `x` grows to the
/// right and `y` upwards.
#[derive(Debug, Clone, Copy, PartialEq, Eq, Structural)]
pub struct Position {
    pub x: i32,
    pub y: i32,
}

/// Whether a square lies on the 8×8 board.
pub open spec fn on_board(p: Position) -> bool {
    0 <= p.x <= 7 && 0 <= p.y <= 7
}

impl Position {
    /// The coordinates as an `[x, y]` pair.
    pub fn get_pair(&self) -> (r: [i32; 2])
        ensures
            r@ == seq![self.x, self.y],
    {
        [self.x, self.y]
    }
}

} // verus!
