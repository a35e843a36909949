use vstd::prelude::*;

verus! {

/// Why a board could not be read or accepted.
#[derive(Debug, Clone, Copy, PartialEq, Eq, Structural)]
pub enum ChessError {
    /// A row holds more than eight squares, or the grid does not have eight rows.
    MalformedRowSize,
    /// A square holds a token that names no piece.
    UnknownPieceCode,
    /// The board does not hold exactly two pieces.
    WrongPieceCount,
    /// The two pieces are of the same color.
    SameColorPieces,
    /// The board's text could not be read at all.
    UnreadableSource,
}

impl ChessError {
    /// The text shown to a user for this error.
    pub open spec fn message_spec(self) -> Seq<char> {
        match self {
            ChessError::MalformedRowSize => "Chess table does not respect 8x8 size"@,
            ChessError::UnknownPieceCode => "Unkown piece found"@,
            ChessError::WrongPieceCount => "The number of pieces expected is 2 (two)"@,
            ChessError::SameColorPieces => "It is expected for pieces to be of different colors: 1 black & 1 white"@,
            ChessError::UnreadableSource => "Could not read file: file missing or broken"@,
        }
    }

    /// The text shown to a user for this error.
    pub fn message(&self) -> (r: &'static str)
        ensures
            r@ == self.message_spec(),
    {
        match self {
            ChessError::MalformedRowSize => "Chess table does not respect 8x8 size",
            ChessError::UnknownPieceCode => "Unkown piece found",
            ChessError::WrongPieceCount => "The number of pieces expected is 2 (two)",
            ChessError::SameColorPieces => "It is expected for pieces to be of different colors: 1 black & 1 white",
            ChessError::UnreadableSource => "Could not read file: file missing or broken",
        }
    }
}

} // verus!
