use vstd::prelude::*;

verus! {

/// The outcome of a fight between a white and a black piece.
#[derive(Debug, Clone, Copy, PartialEq, Eq, Structural)]
pub enum FightResult {
    /// Only the white piece can capture the other.
    WhiteWins,
    /// Only the black piece can capture the other.
    BlackWins,
    /// Each piece can capture the other.
    BothWin,
    /// Neither piece can capture the other.
    NeitherWin,
}

impl FightResult {
    /// The one-letter code of the outcome.
    pub open spec fn code(self) -> Seq<char> {
        match self {
            FightResult::WhiteWins => "B"@,
            FightResult::BlackWins => "N"@,
            FightResult::BothWin => "E"@,
            FightResult::NeitherWin => "P"@,
        }
    }

    /// The one-letter code of the outcome: `B`, `N`, `E` or `P`.
    pub fn output(&self) -> (r: &'static str)
        ensures
            r@ == self.code(),
    {
        match self {
            FightResult::WhiteWins => "B",
            FightResult::BlackWins => "N",
            FightResult::BothWin => "E",
            FightResult::NeitherWin => "P",
        }
    }
}

} // verus!
