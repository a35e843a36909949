use vstd::prelude::*;

use crate::chess_error::ChessError;
use crate::color::Color;
use crate::piece::Piece;
use crate::piece_list::PieceList;

verus! {

/// What checking the pieces read from a board gives: there must be exactly
/// two, one of each color.
pub open spec fn validation(pieces: Seq<Piece>) -> Result<(), ChessError> {
    if pieces.len() != 2 {
        Err(ChessError::WrongPieceCount)
    } else if pieces[0].color == pieces[1].color {
        Err(ChessError::SameColorPieces)
    } else {
        Ok(())
    }
}

/// Whether a square's token holds a piece; `_` marks an empty square.
pub fn square_has_piece(sq: &str) -> (r: bool)
    ensures
        r == (sq@ != seq!['_']),
{
    if sq.unicode_len() != 1 {
        true
    } else {
        let c = sq.get_char(0);
        proof {
            if c == '_' {
                assert(sq@ =~= seq!['_']);
            }
        }
        c != '_'
    }
}

/// Checks a board once all its rows were read: `rows` is the rank that a
/// next row would have had, which is -1 after exactly eight rows; then the
/// pieces must pass `pieces_pass_checks`.
pub fn result_is_valid(rows: i32, pieces: &PieceList) -> (r: Result<(), ChessError>)
    ensures
        r == (if rows != -1 {
            Err(ChessError::MalformedRowSize)
        } else {
            validation(pieces@)
        }),
{
    if !row_size_is_valid(rows) {
        return Err(ChessError::MalformedRowSize);
    }
    pieces_pass_checks(pieces)
}

/// Whether the rank that a next row would have had shows that exactly eight
/// rows were read.
pub fn row_size_is_valid(curr_rows: i32) -> (r: bool)
    ensures
        r == (curr_rows == -1),
{
    curr_rows == -1
}

/// Checks that there are exactly two pieces, one of each color.
pub fn pieces_pass_checks(pieces: &PieceList) -> (r: Result<(), ChessError>)
    ensures
        r == validation(pieces@),
{
    if pieces.len() != 2 {
        return Err(ChessError::WrongPieceCount);
    }
    if !pieces_checked_color(pieces) {
        return Err(ChessError::SameColorPieces);
    }
    Ok(())
}

/// Whether the first two pieces are one black and one white.
pub fn pieces_checked_color(pieces: &PieceList) -> (r: bool)
    requires
        pieces@.len() >= 2,
    ensures
        r == (pieces@[0].color != pieces@[1].color),
{
    let first_piece = pieces.first();
    let second_piece = pieces.second();

    let black_and_white = first_piece.color == Color::Black && second_piece.color == Color::White;
    let white_and_black = first_piece.color == Color::White && second_piece.color == Color::Black;

    black_and_white || white_and_black
}

} // verus!
