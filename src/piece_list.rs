use vstd::prelude::*;

use crate::color::Color;
use crate::fight_result::FightResult;
use crate::piece::Piece;
use crate::piece_type::captures;

verus! {

/// The pieces found on a board, in the order they were read.
pub struct PieceList {
    list: Vec<Piece>,
}

/// The outcome of a fight between `a` and `b`: each side wins when one of its
/// pieces captures the other piece.
pub open spec fn fight_outcome(a: Piece, b: Piece) -> FightResult {
    let a_captures = captures(a.kind, a.color, a.position, b.position);
    let b_captures = captures(b.kind, b.color, b.position, a.position);
    let white_wins = (a.color == Color::White && a_captures) || (b.color == Color::White
        && b_captures);
    let black_wins = (a.color == Color::Black && a_captures) || (b.color == Color::Black
        && b_captures);
    if white_wins && black_wins {
        FightResult::BothWin
    } else if white_wins {
        FightResult::WhiteWins
    } else if black_wins {
        FightResult::BlackWins
    } else {
        FightResult::NeitherWin
    }
}

impl View for PieceList {
    type V = Seq<Piece>;

    closed spec fn view(&self) -> Seq<Piece> {
        self.list@
    }
}

impl Default for PieceList {
    fn default() -> (r: Self)
        ensures
            r@ == Seq::<Piece>::empty(),
    {
        Self::init()
    }
}

impl PieceList {
    /// An empty list.
    pub fn init() -> (r: PieceList)
        ensures
            r@ == Seq::<Piece>::empty(),
    {
        PieceList { list: Vec::new() }
    }

    /// An empty list.
    pub fn new() -> (r: PieceList)
        ensures
            r@ == Seq::<Piece>::empty(),
    {
        Self::init()
    }

    /// The number of pieces.
    pub fn len(&self) -> (r: usize)
        ensures
            r == self@.len(),
    {
        self.list.len()
    }

    /// Appends a piece at the end.
    pub fn push(&mut self, piece: Piece)
        ensures
            final(self)@ == old(self)@.push(piece),
    {
        self.list.push(piece);
    }

    /// The first piece.
    pub fn first(&self) -> (r: &Piece)
        requires
            self@.len() >= 1,
        ensures
            *r == self@[0],
    {
        &self.list[0]
    }

    /// The second piece.
    pub fn second(&self) -> (r: &Piece)
        requires
            self@.len() >= 2,
        ensures
            *r == self@[1],
    {
        &self.list[1]
    }

    /// Lets the first two pieces fight: each tries to capture the other.
    pub fn fight(&self) -> (r: FightResult)
        requires
            self@.len() >= 2,
        ensures
            r == fight_outcome(self@[0], self@[1]),
    {
        let first_movement = self.first().can_capture(self.second());
        let second_movement = self.second().can_capture(self.first());

        let white_wins = first_movement.white_wins() || second_movement.white_wins();
        let black_wins = first_movement.black_wins() || second_movement.black_wins();

        if white_wins && black_wins {
            FightResult::BothWin
        } else if white_wins {
            FightResult::WhiteWins
        } else if black_wins {
            FightResult::BlackWins
        } else {
            FightResult::NeitherWin
        }
    }
}

} // verus!
