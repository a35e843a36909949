use vstd::prelude::*;

use crate::color::Color;
use crate::piece::Piece;
use crate::position::Position;
use core::ops::Range;

verus! {

/// The six kinds of chess piece.
#[derive(Debug, Clone, Copy, PartialEq, Eq, Structural)]
pub enum PieceKind {
    King,
    Queen,
    Rook,
    Bishop,
    Knight,
    Pawn,
}

pub open spec fn abs(v: int) -> int {
    if v < 0 {
        -v
    } else {
        v
    }
}

pub open spec fn max(a: int, b: int) -> int {
    if a < b {
        b
    } else {
        a
    }
}

/// `d` lies in the half-open range `n`.
pub open spec fn in_range(d: int, n: Range<i32>) -> bool {
    n.start <= d < n.end
}

/// From `(x, y)`, `(u, v)` lies on a diagonal going up, at a distance in `n`.
pub open spec fn diagonal_up(x: int, y: int, u: int, v: int, n: Range<i32>) -> bool {
    in_range(v - y, n) && (u - x == v - y || x - u == v - y)
}

/// From `(x, y)`, `(u, v)` lies on a diagonal going down, at a distance in `n`.
pub open spec fn diagonal_down(x: int, y: int, u: int, v: int, n: Range<i32>) -> bool {
    in_range(y - v, n) && (u - x == y - v || x - u == y - v)
}

/// `to` shares a diagonal with `from`, between 1 and `reach` squares away.
pub open spec fn diagonal_within(from: Position, to: Position, reach: int) -> bool {
    let dx = to.x - from.x;
    let dy = to.y - from.y;
    abs(dx) == abs(dy) && 1 <= abs(dx) <= reach
}

/// `to` shares a row or a column with `from`, between 1 and `reach` squares away.
pub open spec fn orthogonal_within(from: Position, to: Position, reach: int) -> bool {
    let dx = to.x - from.x;
    let dy = to.y - from.y;
    (dy == 0 && 1 <= abs(dx) <= reach) || (dx == 0 && 1 <= abs(dy) <= reach)
}

/// The kind that a piece letter names, in either case.
pub open spec fn letter_kind(c: char) -> Option<PieceKind> {
    match c {
        'R' | 'r' => Some(PieceKind::King),
        'D' | 'd' => Some(PieceKind::Queen),
        'A' | 'a' => Some(PieceKind::Bishop),
        'C' | 'c' => Some(PieceKind::Knight),
        'T' | 't' => Some(PieceKind::Rook),
        'P' | 'p' => Some(PieceKind::Pawn),
        _ => None,
    }
}

/// The kind that a piece code names: a code is a single letter.
pub open spec fn code_kind(code: Seq<char>) -> Option<PieceKind> {
    if code.len() == 1 {
        letter_kind(code[0])
    } else {
        None
    }
}

impl PieceKind {
    /// How many squares this kind can reach in one move along a line.
    pub open spec fn reach(self) -> int {
        match self {
            PieceKind::King | PieceKind::Pawn => 1,
            _ => 7,
        }
    }

    /// The name of the kind.
    pub open spec fn name(self) -> Seq<char> {
        match self {
            PieceKind::King => "King"@,
            PieceKind::Queen => "Queen"@,
            PieceKind::Rook => "Rook"@,
            PieceKind::Bishop => "Bishop"@,
            PieceKind::Knight => "Knight"@,
            PieceKind::Pawn => "Pawn"@,
        }
    }

    /// Whether a piece of this kind and `color` captures on the square that
    /// lies `dx` columns and `dy` rows away.
    pub open spec fn captures_by(self, color: Color, dx: int, dy: int) -> bool {
        let (ax, ay) = (abs(dx), abs(dy));
        match self {
            PieceKind::King => (dx == 0 || dy == 0 || ax == ay) && max(ax, ay) == 1,
            PieceKind::Queen => ((dx == 0) != (dy == 0) || ax == ay) && 1 <= max(ax, ay) <= 7,
            PieceKind::Rook => (dx == 0) != (dy == 0) && 1 <= max(ax, ay) <= 7,
            PieceKind::Bishop => ax == ay && 1 <= ax <= 7,
            PieceKind::Knight => (ax == 1 && ay == 2) || (ax == 2 && ay == 1),
            PieceKind::Pawn => ax == 1 && dy == (if color == Color::White {
                1int
            } else {
                -1int
            }),
        }
    }

    /// The kind that a piece letter names, in either case.
    pub fn from_letter(c: char) -> (r: Option<PieceKind>)
        ensures
            r == letter_kind(c),
    {
        match c {
            'R' | 'r' => Some(PieceKind::King),
            'D' | 'd' => Some(PieceKind::Queen),
            'A' | 'a' => Some(PieceKind::Bishop),
            'C' | 'c' => Some(PieceKind::Knight),
            'T' | 't' => Some(PieceKind::Rook),
            'P' | 'p' => Some(PieceKind::Pawn),
            _ => None,
        }
    }
}

/// Whether a piece of `kind` and `color` standing on `from` captures on `to`.
pub open spec fn captures(kind: PieceKind, color: Color, from: Position, to: Position) -> bool {
    kind.captures_by(color, to.x - from.x, to.y - from.y)
}

/// The behaviour of one kind of piece.
pub trait PieceType {
    /// The kind whose rules this type follows.
    spec fn kind(&self) -> PieceKind;

    /// The kind whose rules this type follows.
    fn piece_kind(&self) -> (k: PieceKind)
        ensures
            k == self.kind(),
    ;

    /// Whether `main_piece`, moving by the rules of this kind, captures on `p2`.
    fn can_capture(&self, main_piece: &Piece, p2: &Position) -> (r: bool)
        ensures
            r == captures(self.kind(), main_piece.color, main_piece.position, *p2),
    ;

    /// The name of the kind.
    fn string(&self) -> (r: &'static str)
        ensures
            r@ == self.kind().name(),
    {
        match self.piece_kind() {
            PieceKind::King => "King",
            PieceKind::Queen => "Queen",
            PieceKind::Rook => "Rook",
            PieceKind::Bishop => "Bishop",
            PieceKind::Knight => "Knight",
            PieceKind::Pawn => "Pawn",
        }
    }

    /// Whether this kind is the King.
    fn is_king(&self) -> (r: bool)
        ensures
            r == (self.kind() == PieceKind::King),
    {
        self.piece_kind() == PieceKind::King
    }

    /// The distances, in squares, that this kind reaches along a line.
    fn get_range(&self) -> (r: Range<i32>)
        ensures
            r.start == 1,
            r.end == self.kind().reach() + 1,
    {
        let max: i32 = match self.piece_kind() {
            PieceKind::King | PieceKind::Pawn => 2,
            _ => 8,
        };
        1..max
    }

    /// The coordinates of two squares, as `(x1, y1, x2, y2)`.
    fn get_position_variables(&self, p1: &Position, p2: &Position) -> (r: (i32, i32, i32, i32))
        ensures
            r == (p1.x, p1.y, p2.x, p2.y),
    {
        (p1.x, p1.y, p2.x, p2.y)
    }

    /// `result`, or whether `(u, v)` lies up a diagonal from `(x, y)` at a
    /// distance in `n`.
    fn get_result_for_diagonal_squares_up(
        &self,
        result: bool,
        x: i32,
        y: i32,
        u: i32,
        v: i32,
        n: &Range<i32>,
    ) -> (r: bool)
        ensures
            r == (result || diagonal_up(x as int, y as int, u as int, v as int, *n)),
    {
        let rise = v as i64 - y as i64;
        let run = u as i64 - x as i64;
        let within = n.start as i64 <= rise && rise < n.end as i64;
        result || (within && (run == rise || -run == rise))
    }

    /// `result`, or whether `(u, v)` lies down a diagonal from `(x, y)` at a
    /// distance in `n`.
    fn get_result_for_diagonal_squares_down(
        &self,
        result: bool,
        x: i32,
        y: i32,
        u: i32,
        v: i32,
        n: &Range<i32>,
    ) -> (r: bool)
        ensures
            r == (result || diagonal_down(x as int, y as int, u as int, v as int, *n)),
    {
        let fall = y as i64 - v as i64;
        let run = u as i64 - x as i64;
        let within = n.start as i64 <= fall && fall < n.end as i64;
        result || (within && (run == fall || -run == fall))
    }

    /// `result`, or whether `victim_pos` shares a diagonal with `attacker_pos`
    /// within this kind's reach.
    fn get_result_for_diagonal_squares(
        &self,
        result: bool,
        attacker_pos: &Position,
        victim_pos: &Position,
    ) -> (r: bool)
        ensures
            r == (result || diagonal_within(*attacker_pos, *victim_pos, self.kind().reach())),
    {
        let (x, y, u, v) = self.get_position_variables(attacker_pos, victim_pos);
        let n = self.get_range();
        let up = self.get_result_for_diagonal_squares_up(result, x, y, u, v, &n);
        self.get_result_for_diagonal_squares_down(up, x, y, u, v, &n)
    }

    /// `result`, or whether `victim_pos` shares a row or a column with
    /// `attacker_pos` within this kind's reach.
    fn get_result_for_cross_squares(
        &self,
        result: bool,
        attacker_pos: &Position,
        victim_pos: &Position,
    ) -> (r: bool)
        ensures
            r == (result || orthogonal_within(*attacker_pos, *victim_pos, self.kind().reach())),
    {
        let (x, y, u, v) = self.get_position_variables(attacker_pos, victim_pos);
        let n = self.get_range();
        let dx = u as i64 - x as i64;
        let lo = n.start as i64;
        let hi = n.end as i64;
        let right = y == v && lo <= dx && dx < hi;
        let left = y == v && lo <= -dx && -dx < hi;
        let dy = v as i64 - y as i64;
        let up = x == u && lo <= dy && dy < hi;
        let down = x == u && lo <= -dy && -dy < hi;
        result || right || left || up || down
    }
}

} // verus!
