use vstd::prelude::*;

use crate::color::Color;
use crate::piece::Piece;
use crate::piece_type::{captures, PieceKind, PieceType};
use crate::position::Position;

verus! {

/// Moves one square in any direction.
pub struct King {}

/// Moves any distance along a row, a column or a diagonal.
pub struct Queen {}

/// Moves any distance along a row or a column.
pub struct Rook {}

/// Moves any distance along a diagonal.
pub struct Bishop {}

/// Jumps two squares along one axis and one along the other.
pub struct Knight {}

/// Captures one square diagonally forward: up for White, down for Black.
pub struct Pawn {}

impl PieceType for King {
    open spec fn kind(&self) -> PieceKind {
        PieceKind::King
    }

    fn piece_kind(&self) -> (k: PieceKind) {
        PieceKind::King
    }

    fn can_capture(&self, main_piece: &Piece, p2: &Position) -> (r: bool) {
        let p1 = main_piece.get_position();
        let cross = self.get_result_for_cross_squares(false, p1, p2);
        self.get_result_for_diagonal_squares(cross, p1, p2)
    }
}

impl PieceType for Queen {
    open spec fn kind(&self) -> PieceKind {
        PieceKind::Queen
    }

    fn piece_kind(&self) -> (k: PieceKind) {
        PieceKind::Queen
    }

    fn can_capture(&self, main_piece: &Piece, p2: &Position) -> (r: bool) {
        let p1 = main_piece.get_position();
        let cross = self.get_result_for_cross_squares(false, p1, p2);
        self.get_result_for_diagonal_squares(cross, p1, p2)
    }
}

impl PieceType for Rook {
    open spec fn kind(&self) -> PieceKind {
        PieceKind::Rook
    }

    fn piece_kind(&self) -> (k: PieceKind) {
        PieceKind::Rook
    }

    fn can_capture(&self, main_piece: &Piece, p2: &Position) -> (r: bool) {
        let p1 = main_piece.get_position();
        self.get_result_for_cross_squares(false, p1, p2)
    }
}

impl PieceType for Bishop {
    open spec fn kind(&self) -> PieceKind {
        PieceKind::Bishop
    }

    fn piece_kind(&self) -> (k: PieceKind) {
        PieceKind::Bishop
    }

    fn can_capture(&self, main_piece: &Piece, p2: &Position) -> (r: bool) {
        let p1 = main_piece.get_position();
        self.get_result_for_diagonal_squares(false, p1, p2)
    }
}

impl PieceType for Knight {
    open spec fn kind(&self) -> PieceKind {
        PieceKind::Knight
    }

    fn piece_kind(&self) -> (k: PieceKind) {
        PieceKind::Knight
    }

    fn can_capture(&self, main_piece: &Piece, p2: &Position) -> (r: bool) {
        let (px, py, pu, pv) = self.get_position_variables(main_piece.get_position(), p2);
        let dx = pu as i64 - px as i64;
        let dy = pv as i64 - py as i64;
        let mut result = false;
        result = result || (dx == 2 && dy == 1);  // right & up
        result = result || (dx == 2 && dy == -1);  // right & down
        result = result || (dx == -2 && dy == 1);  // left & up
        result = result || (dx == -2 && dy == -1);  // left & down
        result = result || (dy == 2 && dx == 1);  // up & right
        result = result || (dy == 2 && dx == -1);  // up & left
        result = result || (dy == -2 && dx == 1);  // down & right
        result = result || (dy == -2 && dx == -1);  // down & left
        result
    }
}

impl PieceType for Pawn {
    open spec fn kind(&self) -> PieceKind {
        PieceKind::Pawn
    }

    fn piece_kind(&self) -> (k: PieceKind) {
        PieceKind::Pawn
    }

    fn can_capture(&self, main_piece: &Piece, p2: &Position) -> (r: bool) {
        let (px, py, pu, pv) = self.get_position_variables(main_piece.get_position(), p2);
        let n = self.get_range();
        match main_piece.color {
            Color::White => self.get_result_for_diagonal_squares_up(false, px, py, pu, pv, &n),
            Color::Black => self.get_result_for_diagonal_squares_down(false, px, py, pu, pv, &n),
        }
    }
}

impl PieceType for PieceKind {
    open spec fn kind(&self) -> PieceKind {
        *self
    }

    fn piece_kind(&self) -> (k: PieceKind) {
        *self
    }

    fn can_capture(&self, main_piece: &Piece, p2: &Position) -> (r: bool) {
        match self {
            PieceKind::King => King {}.can_capture(main_piece, p2),
            PieceKind::Queen => Queen {}.can_capture(main_piece, p2),
            PieceKind::Rook => Rook {}.can_capture(main_piece, p2),
            PieceKind::Bishop => Bishop {}.can_capture(main_piece, p2),
            PieceKind::Knight => Knight {}.can_capture(main_piece, p2),
            PieceKind::Pawn => Pawn {}.can_capture(main_piece, p2),
        }
    }
}

} // verus!
