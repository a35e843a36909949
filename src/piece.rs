use vstd::prelude::*;

use crate::chess_error::ChessError;
use crate::color::{letter_color, Color};
use crate::describe::{append_color, append_decimal, color_name, decimal};
use crate::movement::Movement;
use crate::piece_type::{captures, code_kind, PieceKind, PieceType};
use crate::position::Position;

verus! {

/// A piece on the board: its color, its square and its kind.
#[derive(Debug, Clone, Copy)]
pub struct Piece {
    pub color: Color,
    pub position: Position,
    pub kind: PieceKind,
}

/// What reading the piece code `code` on square `(x, y)` gives.
pub open spec fn piece_of(code: Seq<char>, x: i32, y: i32) -> Result<Piece, ChessError> {
    match code_kind(code) {
        Some(kind) => Ok(Piece { color: letter_color(code[0]), position: Position { x, y }, kind }),
        None => Err(ChessError::UnknownPieceCode),
    }
}

/// How a piece describes itself: kind, color and square.
pub open spec fn info_text(p: Piece) -> Seq<char> {
    "Type: "@ + p.kind.name() + ",Color: "@ + color_name(p.color) + ", Posicion: ["@ + decimal(
        p.position.x as int,
    ) + ", "@ + decimal(p.position.y as int) + "]"@
}

impl Piece {
    /// Reads the piece code `name` (`R` King, `D` Queen, `A` Bishop, `C`
    /// Knight, `T` Rook, `P` Pawn; lower case for White, upper case for Black)
    /// and places the piece on `(row, col)`.
    pub fn new(name: &str, row: i32, col: i32) -> (r: Result<Piece, ChessError>)
        ensures
            r == piece_of(name@, row, col),
    {
        if name.unicode_len() == 1 {
            Self::from_letter(name.get_char(0), row, col)
        } else {
            Err(ChessError::UnknownPieceCode)
        }
    }

    /// Reads the one-letter piece code `c` and places the piece on `(x, y)`.
    pub fn from_letter(c: char, x: i32, y: i32) -> (r: Result<Piece, ChessError>)
        ensures
            r == piece_of(seq![c], x, y),
    {
        match PieceKind::from_letter(c) {
            Some(kind) => Ok(Piece { color: Color::of_letter(c), position: Position { x, y }, kind }),
            None => Err(ChessError::UnknownPieceCode),
        }
    }

    /// Describes the piece, as in `Type: King,Color: Black, Posicion: [3, 3]`.
    pub fn get_info(&self) -> (r: String)
        ensures
            r@ == info_text(*self),
    {
        let mut s = String::from_str("Type: ");
        s.append(self.kind.string());
        s.append(",Color: ");
        append_color(&mut s, self.color);
        s.append(", Posicion: [");
        append_decimal(&mut s, self.position.x);
        s.append(", ");
        append_decimal(&mut s, self.position.y);
        s.append("]");
        s
    }

    /// The square the piece stands on.
    pub fn get_position(&self) -> (r: &Position)
        ensures
            *r == self.position,
    {
        &self.position
    }

    /// The kind of the piece.
    pub fn get_type(&self) -> (r: PieceKind)
        ensures
            r == self.kind,
    {
        self.kind
    }

    /// Whether this piece captures `other_piece`, together with this piece's color.
    pub fn can_capture(&self, other_piece: &Piece) -> (r: Movement)
        ensures
            *r.piece_color == self.color,
            r.did_win == captures(self.kind, self.color, self.position, other_piece.position),
    {
        let capture = self.kind.can_capture(self, &other_piece.position);
        Movement { piece_color: &self.color, did_win: capture }
    }
}

} // verus!
