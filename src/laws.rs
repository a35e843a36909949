//! Properties of the capture rules, of fights and of reading a board.
use vstd::prelude::*;

use crate::chess_error::ChessError;
use crate::color::Color;
use crate::parsing::{
    board_outcome, board_pieces, first_row_error, row_error, row_pieces, square_token,
};
use crate::piece::Piece;
use crate::piece_list::fight_outcome;
use crate::piece_type::{abs, captures, max, PieceKind};
use crate::position::Position;
use crate::text::{is_space, line_state, lines, word_state, words};
use crate::checks::validation;

verus! {

/// The Chebyshev distance between two squares: the larger of the column and
/// row distances.
pub open spec fn chebyshev(a: Position, b: Position) -> int {
    max(abs(b.x - a.x), abs(b.y - a.y))
}

/// A King captures exactly on the squares at Chebyshev distance one.
pub proof fn king_captures_at_distance_one(color: Color, from: Position, to: Position)
    ensures
        captures(PieceKind::King, color, from, to) <==> chebyshev(from, to) == 1,
{
}

/// A Knight captures exactly where the column and row distances are, as a
/// set, one and two.
pub proof fn knight_captures_one_and_two(color: Color, from: Position, to: Position)
    ensures
        captures(PieceKind::Knight, color, from, to) <==> set![
            abs(to.x - from.x),
            abs(to.y - from.y),
        ] == set![1int, 2int],
{
    let a = abs(to.x - from.x);
    let b = abs(to.y - from.y);
    if captures(PieceKind::Knight, color, from, to) {
        assert(set![a, b] =~= set![1int, 2int]);
    }
    if set![a, b] == set![1int, 2int] {
        assert(set![1int, 2int].contains(a));
        assert(set![1int, 2int].contains(b));
        assert(set![a, b].contains(1int));
        assert(set![a, b].contains(2int));
    }
}

/// A Bishop never captures along a row or a column.
pub proof fn bishop_never_captures_orthogonally(color: Color, from: Position, to: Position)
    requires
        to.x == from.x || to.y == from.y,
    ensures
        !captures(PieceKind::Bishop, color, from, to),
{
}

/// A Rook captures only where exactly one of the column and row distances is
/// zero, so never along a diagonal.
pub proof fn rook_captures_only_orthogonally(color: Color, from: Position, to: Position)
    ensures
        captures(PieceKind::Rook, color, from, to) ==> ((to.x - from.x == 0) != (to.y - from.y
            == 0)),
        abs(to.x - from.x) == abs(to.y - from.y) && to.x != from.x ==> !captures(
            PieceKind::Rook,
            color,
            from,
            to,
        ),
{
}

/// Which piece comes first makes no difference to a fight.
pub proof fn fight_is_symmetric(a: Piece, b: Piece)
    ensures
        fight_outcome(a, b) == fight_outcome(b, a),
{
}

/// The squares of a row written out, separated by single spaces.
pub open spec fn join_words(tokens: Seq<Seq<char>>) -> Seq<char>
    decreases tokens.len(),
{
    if tokens.len() == 0 {
        Seq::empty()
    } else if tokens.len() == 1 {
        tokens[0]
    } else {
        join_words(tokens.drop_last()) + seq![' '] + tokens.last()
    }
}

/// Rows written out, separated by newlines.
pub open spec fn join_lines(rows: Seq<Seq<char>>) -> Seq<char>
    decreases rows.len(),
{
    if rows.len() == 0 {
        Seq::empty()
    } else if rows.len() == 1 {
        rows[0]
    } else {
        join_lines(rows.drop_last()) + seq!['\n'] + rows.last()
    }
}

/// A grid of square tokens written out as a board's text, top row first.
pub open spec fn grid_text(grid: Seq<Seq<Seq<char>>>) -> Seq<char> {
    join_lines(grid.map_values(|row: Seq<Seq<char>>| join_words(row)))
}

/// Eight rows of eight tokens, each `_` or a piece code.
pub open spec fn well_formed_grid(grid: Seq<Seq<Seq<char>>>) -> bool {
    &&& grid.len() == 8
    &&& forall|r: int| 0 <= r < 8 ==> (#[trigger] grid[r]).len() == 8
    &&& forall|r: int, c: int| 0 <= r < 8 && 0 <= c < 8 ==> square_token(#[trigger] grid[r][c])
}

/// The pieces that the squares of a grid place, top row (rank 7) first.
pub open spec fn grid_pieces(grid: Seq<Seq<Seq<char>>>) -> Seq<Piece>
    decreases grid.len(),
{
    if grid.len() == 0 {
        Seq::empty()
    } else {
        grid_pieces(grid.drop_last()) + row_pieces(grid.last(), (8 - grid.len()) as i32)
    }
}

proof fn lemma_line_state_append(a: Seq<char>, b: Seq<char>)
    requires
        forall|i: int| 0 <= i < b.len() ==> b[i] != '\n',
    ensures
        line_state(a + b) == (line_state(a).0, line_state(a).1 + b),
    decreases b.len(),
{
    if b.len() == 0 {
        assert(a + b =~= a);
        assert(line_state(a).1 + b =~= line_state(a).1);
    } else {
        lemma_line_state_append(a, b.drop_last());
        assert((a + b).drop_last() =~= a + b.drop_last());
        assert(line_state(a).1 + b =~= (line_state(a).1 + b.drop_last()).push(b.last()));
    }
}

proof fn lemma_line_state_join(rows: Seq<Seq<char>>)
    requires
        rows.len() >= 1,
        forall|r: int, i: int|
            0 <= r < rows.len() && 0 <= i < rows[r].len() ==> #[trigger] rows[r][i] != '\n',
    ensures
        line_state(join_lines(rows)) == (rows.drop_last(), rows.last()),
    decreases rows.len(),
{
    let last = rows.last();
    assert(forall|i: int| 0 <= i < last.len() ==> last[i] == rows[rows.len() - 1][i]);
    if rows.len() == 1 {
        lemma_line_state_append(Seq::empty(), rows[0]);
        assert(Seq::<char>::empty() + rows[0] =~= rows[0]);
        assert(rows.drop_last() =~= Seq::<Seq<char>>::empty());
        assert(Seq::<char>::empty() + rows[0] =~= rows[0]);
    } else {
        let front = rows.drop_last();
        assert forall|r: int, i: int| 0 <= r < front.len() && 0 <= i < front[r].len() implies
            #[trigger] front[r][i] != '\n' by {
            assert(front[r] == rows[r]);
        }
        lemma_line_state_join(front);
        let j = join_lines(front) + seq!['\n'];
        assert(j.drop_last() =~= join_lines(front));
        lemma_line_state_append(j, last);
        assert(front.drop_last().push(front.last()) =~= front);
    }
}

proof fn lemma_word_state_append(a: Seq<char>, b: Seq<char>)
    requires
        forall|i: int| 0 <= i < b.len() ==> !is_space(b[i]),
    ensures
        word_state(a + b) == (word_state(a).0, word_state(a).1 + b),
    decreases b.len(),
{
    if b.len() == 0 {
        assert(a + b =~= a);
        assert(word_state(a).1 + b =~= word_state(a).1);
    } else {
        lemma_word_state_append(a, b.drop_last());
        assert((a + b).drop_last() =~= a + b.drop_last());
        assert(word_state(a).1 + b =~= (word_state(a).1 + b.drop_last()).push(b.last()));
    }
}

/// A square token is one character that is not white space.
proof fn lemma_square_token_shape(tok: Seq<char>)
    requires
        square_token(tok),
    ensures
        tok.len() == 1,
        !is_space(tok[0]),
{
}

proof fn lemma_word_state_join(tokens: Seq<Seq<char>>)
    requires
        tokens.len() >= 1,
        forall|t: int| 0 <= t < tokens.len() ==> square_token(#[trigger] tokens[t]),
    ensures
        word_state(join_words(tokens)) == (tokens.drop_last(), tokens.last()),
    decreases tokens.len(),
{
    let last = tokens.last();
    lemma_square_token_shape(tokens[tokens.len() - 1]);
    if tokens.len() == 1 {
        lemma_word_state_append(Seq::empty(), tokens[0]);
        assert(Seq::<char>::empty() + tokens[0] =~= tokens[0]);
        assert(tokens.drop_last() =~= Seq::<Seq<char>>::empty());
    } else {
        let front = tokens.drop_last();
        assert forall|t: int| 0 <= t < front.len() implies square_token(#[trigger] front[t]) by {
            assert(front[t] == tokens[t]);
        }
        lemma_word_state_join(front);
        lemma_square_token_shape(tokens[tokens.len() - 2]);
        let j = join_words(front) + seq![' '];
        assert(j.drop_last() =~= join_words(front));
        lemma_word_state_append(j, last);
        assert(front.drop_last().push(front.last()) =~= front);
    }
}

proof fn lemma_words_of_join(tokens: Seq<Seq<char>>)
    requires
        tokens.len() >= 1,
        forall|t: int| 0 <= t < tokens.len() ==> square_token(#[trigger] tokens[t]),
    ensures
        words(join_words(tokens)) == tokens,
        forall|i: int| 0 <= i < join_words(tokens).len() ==> #[trigger] join_words(tokens)[i] != '\n',
    decreases tokens.len(),
{
    lemma_word_state_join(tokens);
    lemma_square_token_shape(tokens[tokens.len() - 1]);
    assert(tokens.drop_last().push(tokens.last()) =~= tokens);
    if tokens.len() > 1 {
        let front = tokens.drop_last();
        assert forall|t: int| 0 <= t < front.len() implies square_token(#[trigger] front[t]) by {
            assert(front[t] == tokens[t]);
        }
        lemma_words_of_join(front);
    }
}

proof fn lemma_no_row_error(rows: Seq<Seq<char>>)
    requires
        forall|r: int| 0 <= r < rows.len() ==> row_error(words(#[trigger] rows[r])) is None,
    ensures
        first_row_error(rows) is None,
    decreases rows.len(),
{
    if rows.len() > 0 {
        lemma_no_row_error(rows.drop_last());
    }
}

proof fn lemma_board_pieces_of_grid(rows: Seq<Seq<char>>, grid: Seq<Seq<Seq<char>>>)
    requires
        rows.len() == grid.len(),
        forall|r: int| 0 <= r < rows.len() ==> words(#[trigger] rows[r]) == grid[r],
    ensures
        board_pieces(rows) == grid_pieces(grid),
    decreases rows.len(),
{
    if rows.len() > 0 {
        lemma_board_pieces_of_grid(rows.drop_last(), grid.drop_last());
    }
}

/// The text written from a well-formed grid reads back as the pieces of the
/// grid, which are then checked for their count and colors.
pub proof fn grid_text_reads_back(grid: Seq<Seq<Seq<char>>>)
    requires
        well_formed_grid(grid),
    ensures
        board_outcome(grid_text(grid)) == (match validation(grid_pieces(grid)) {
            Ok(_) => Ok(grid_pieces(grid)),
            Err(e) => Err(e),
        }),
{
    let rows = grid.map_values(|row: Seq<Seq<char>>| join_words(row));
    assert forall|r: int| 0 <= r < rows.len() implies words(#[trigger] rows[r]) == grid[r] && (
    forall|i: int| 0 <= i < rows[r].len() ==> #[trigger] rows[r][i] != '\n') by {
        assert forall|t: int| 0 <= t < grid[r].len() implies square_token(#[trigger] grid[r][t]) by {
        }
        lemma_words_of_join(grid[r]);
    }
    lemma_line_state_join(rows);
    assert(lines(grid_text(grid)) =~= rows);
    assert forall|r: int| 0 <= r < rows.len() implies row_error(words(#[trigger] rows[r])) is None by {
        assert(words(rows[r]) == grid[r]);
    }
    lemma_no_row_error(rows);
    lemma_board_pieces_of_grid(rows, grid);
}

/// A grid holding exactly two pieces, of opposite colors, reads back as
/// those two pieces.
pub proof fn two_piece_grid_is_accepted(grid: Seq<Seq<Seq<char>>>)
    requires
        well_formed_grid(grid),
        grid_pieces(grid).len() == 2,
        grid_pieces(grid)[0].color != grid_pieces(grid)[1].color,
    ensures
        board_outcome(grid_text(grid)) == Ok::<Seq<Piece>, ChessError>(grid_pieces(grid)),
        grid_pieces(grid).len() == 2,
{
    grid_text_reads_back(grid);
}

/// A grid holding three pieces is refused for its piece count.
pub proof fn three_piece_grid_is_refused(grid: Seq<Seq<Seq<char>>>)
    requires
        well_formed_grid(grid),
        grid_pieces(grid).len() == 3,
    ensures
        board_outcome(grid_text(grid)) == Err::<Seq<Piece>, ChessError>(
            ChessError::WrongPieceCount,
        ),
{
    grid_text_reads_back(grid);
}

} // verus!
