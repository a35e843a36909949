use vstd::prelude::*;

use crate::checks::{result_is_valid, validation};
use crate::chess_error::ChessError;
use crate::piece::{piece_of, Piece};
use crate::piece_list::PieceList;
use crate::piece_type::code_kind;
use crate::text::{chars_of, lines, split_lines, split_words, words};

verus! {

/// Whether a token may stand on a square: `_` for an empty square, or a piece code.
pub open spec fn square_token(tok: Seq<char>) -> bool {
    tok == seq!['_'] || code_kind(tok) is Some
}

/// The first error met while reading the tokens of a row left to right: a
/// token that is no square, or a ninth token.
pub open spec fn row_error(tokens: Seq<Seq<char>>) -> Option<ChessError> {
    if exists|i: int| 0 <= i < tokens.len() && i < 8 && !square_token(#[trigger] tokens[i]) {
        Some(ChessError::UnknownPieceCode)
    } else if tokens.len() > 8 {
        Some(ChessError::MalformedRowSize)
    } else {
        None
    }
}

/// The pieces that the tokens of a row at rank `y` place, left to right; the
/// token in column `x` stands on `(x, y)`.
pub open spec fn row_pieces(tokens: Seq<Seq<char>>, y: i32) -> Seq<Piece>
    decreases tokens.len(),
{
    if tokens.len() == 0 {
        Seq::empty()
    } else {
        let before = row_pieces(tokens.drop_last(), y);
        match piece_of(tokens.last(), (tokens.len() - 1) as i32, y) {
            Ok(p) => before.push(p),
            Err(_) => before,
        }
    }
}

/// The first error met while reading `rows` from the top.
pub open spec fn first_row_error(rows: Seq<Seq<char>>) -> Option<ChessError>
    decreases rows.len(),
{
    if rows.len() == 0 {
        None
    } else {
        match first_row_error(rows.drop_last()) {
            Some(e) => Some(e),
            None => row_error(words(rows.last())),
        }
    }
}

/// The pieces that `rows` place, read from the top row, at rank 7, down.
pub open spec fn board_pieces(rows: Seq<Seq<char>>) -> Seq<Piece>
    decreases rows.len(),
{
    if rows.len() == 0 {
        Seq::empty()
    } else {
        board_pieces(rows.drop_last()) + row_pieces(words(rows.last()), (8 - rows.len()) as i32)
    }
}

/// What reading the board written in `text` gives: its pieces, or the first
/// error met.
pub open spec fn board_outcome(text: Seq<char>) -> Result<Seq<Piece>, ChessError> {
    let rows = lines(text);
    match first_row_error(rows) {
        Some(e) => Err(e),
        None => if rows.len() != 8 {
            Err(ChessError::MalformedRowSize)
        } else {
            match validation(board_pieces(rows)) {
                Ok(_) => Ok(board_pieces(rows)),
                Err(e) => Err(e),
            }
        },
    }
}

/// Once some rows hold an error, the rows that follow them change nothing.
proof fn lemma_first_row_error_kept(rows: Seq<Seq<char>>, n: int)
    requires
        0 <= n <= rows.len(),
        first_row_error(rows.take(n)) is Some,
    ensures
        first_row_error(rows) == first_row_error(rows.take(n)),
    decreases rows.len() - n,
{
    if n < rows.len() {
        assert(rows.take(n + 1).drop_last() =~= rows.take(n));
        lemma_first_row_error_kept(rows, n + 1);
    } else {
        assert(rows.take(n) =~= rows);
    }
}

/// The path of the board file: the first argument after the program's name.
pub fn parse_config(args: &[String]) -> (r: &str)
    requires
        args@.len() >= 2,
    ensures
        r@ == args@[1]@,
{
    args[1].as_str()
}

/// Reads the board written in `table`: eight rows, the top one first, each of
/// eight squares separated by white space. A square is `_` when empty, or the
/// code of a piece. The board must hold one white and one black piece.
pub fn parse_pieces(table: &str) -> (r: Result<PieceList, ChessError>)
    ensures
        (match r {
            Ok(list) => Ok(list@),
            Err(e) => Err(e),
        }) == board_outcome(table@),
{
    let chars = chars_of(table);
    let rows = split_lines(&chars);
    let ghost all = rows.deep_view();
    let mut pieces = PieceList::init();
    // The rank of the next row; it stays at -2 once more than eight rows were read.
    let mut curr_row: i32 = 7;
    let mut r: usize = 0;
    while r < rows.len()
        invariant
            all == rows.deep_view(),
            all == lines(table@),
            r <= rows.len(),
            curr_row == (if r <= 9 {
                7 - r
            } else {
                -2
            }),
            first_row_error(all.take(r as int)) is None,
            r <= 8 ==> pieces@ == board_pieces(all.take(r as int)),
        decreases rows.len() - r,
    {
        assert(all.take(r + 1).drop_last() =~= all.take(r as int));
        assert(rows[r as int]@ =~= all[r as int]);
        match parse_row(&rows[r], curr_row, &mut pieces) {
            Ok(()) => {},
            Err(e) => {
                proof {
                    lemma_first_row_error_kept(all, r + 1);
                }
                return Err(e);
            },
        }
        if curr_row > -2 {
            curr_row -= 1;
        }
        r += 1;
    }
    assert(all.take(rows.len() as int) =~= all);
    match result_is_valid(curr_row, &pieces) {
        Ok(()) => Ok(pieces),
        Err(e) => Err(e),
    }
}

/// Reads one row at rank `curr_row`, adding the pieces it places to `pieces`.
fn parse_row(row: &Vec<char>, curr_row: i32, pieces: &mut PieceList) -> (r: Result<(), ChessError>)
    ensures
        r == (match row_error(words(row@)) {
            Some(e) => Err(e),
            None => Ok(()),
        }),
        r is Ok ==> final(pieces)@ == old(pieces)@ + row_pieces(words(row@), curr_row),
{
    let squares = split_words(row);
    let ghost tokens = squares.deep_view();
    let mut curr_col: usize = 0;
    while curr_col < squares.len()
        invariant
            tokens == squares.deep_view(),
            tokens == words(row@),
            curr_col <= squares.len(),
            curr_col <= 8,
            forall|i: int| 0 <= i < curr_col ==> square_token(#[trigger] tokens[i]),
            pieces@ == old(pieces)@ + row_pieces(tokens.take(curr_col as int), curr_row),
        decreases squares.len() - curr_col,
    {
        if curr_col > 7 {
            return Err(ChessError::MalformedRowSize);
        }
        let square = &squares[curr_col];
        let ghost tok = tokens[curr_col as int];
        assert(square@ =~= tok);
        assert(tokens.take(curr_col + 1).drop_last() =~= tokens.take(curr_col as int));
        if square.len() == 1 && square[0] == '_' {
            assert(tok =~= seq!['_']);
        } else {
            if square.len() != 1 {
                return Err(ChessError::UnknownPieceCode);
            }
            assert(tok =~= seq![square[0]]);
            match Piece::from_letter(square[0], curr_col as i32, curr_row) {
                Ok(p) => {
                    pieces.push(p);
                },
                Err(e) => {
                    return Err(e);
                },
            }
        }
        curr_col += 1;
    }
    assert(tokens.take(squares.len() as int) =~= tokens);
    Ok(())
}

} // verus!
