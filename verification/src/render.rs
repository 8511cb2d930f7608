//! Rendering a seed string through a token map and a layout.

use vstd::prelude::*;
use crate::grid::in_grid;
use crate::symmetry::{cell, Layout};
use crate::token::{replace_tokens, TokenMap};

verus! {

/// `String::push` of the standard library appends the character to the end of
/// the string.
pub assume_specification[ String::push ](s: &mut String, ch: char)
    ensures
        final(s)@ == old(s)@.push(ch),
;

/// The rows of a board, each as a sequence of its characters.
pub open spec fn rows_of(board: Vec<Vec<char>>) -> Seq<Seq<char>> {
    Seq::new(board@.len(), |r: int| board@[r]@)
}

/// What rendering makes of a seed string: the string of 81 characters whose
/// character at row `r` and column `c` is the one that the token map makes of
/// the seed character with the index that the layout holds at `(r, c)`.
pub open spec fn rendering(seed: Seq<char>, layout: Layout, token_map: TokenMap) -> Seq<char> {
    Seq::new(81, |p: int| token_map.substitute(seed[cell(layout, p / 9, p % 9)]))
}

/// Nine rows of nine, one after the other, hold the entry `(r, c)` at index
/// `9 * r + c`.
pub proof fn lemma_flatten_rows(rows: Seq<Seq<char>>, upto: int)
    requires
        rows.len() == 9,
        forall|r: int| 0 <= r < 9 ==> (#[trigger] rows[r]).len() == 9,
        0 <= upto <= 9,
    ensures
        rows.take(upto).flatten().len() == 9 * upto,
        forall|r: int, c: int|
            0 <= r < upto && 0 <= c < 9 ==> rows.take(upto).flatten()[9 * r + c] == rows[r][c],
    decreases upto,
{
    if upto == 0 {
        assert(rows.take(0) =~= Seq::<Seq<char>>::empty());
    } else {
        lemma_flatten_rows(rows, upto - 1);
        let before = rows.take(upto - 1);
        assert(rows.take(upto) =~= before.push(rows[upto - 1]));
        before.lemma_flatten_push(rows[upto - 1]);
    }
}

/// Places the characters of `sequence` on a board as the layout says: the
/// place at row `r` and column `c` gets the character whose index the layout
/// holds there.
pub fn populate_layout(layout: &Layout, sequence: Vec<char>) -> (board: Vec<Vec<char>>)
    requires
        forall|r: int, c: int|
            in_grid(r, c) ==> 0 <= #[trigger] cell(*layout, r, c) < sequence@.len(),
    ensures
        board@.len() == 9,
        forall|r: int| 0 <= r < 9 ==> (#[trigger] board@[r])@.len() == 9,
        forall|r: int, c: int|
            in_grid(r, c) ==> board@[r]@[c] == sequence@[#[trigger] cell(*layout, r, c)],
{
    let mut board: Vec<Vec<char>> = Vec::new();
    let mut r: usize = 0;
    while r < 9
        invariant
            r <= 9,
            board@.len() == r,
            forall|i: int, c: int|
                in_grid(i, c) ==> 0 <= #[trigger] cell(*layout, i, c) < sequence@.len(),
            forall|i: int| 0 <= i < r ==> (#[trigger] board@[i])@.len() == 9,
            forall|i: int, c: int|
                0 <= i < r && 0 <= c < 9 ==> board@[i]@[c] == sequence@[#[trigger] cell(
                    *layout,
                    i,
                    c,
                )],
        decreases 9 - r,
    {
        let mut row: Vec<char> = Vec::new();
        let mut c: usize = 0;
        while c < 9
            invariant
                r < 9,
                c <= 9,
                row@.len() == c,
                forall|i: int, j: int|
                    in_grid(i, j) ==> 0 <= #[trigger] cell(*layout, i, j) < sequence@.len(),
                forall|j: int|
                    0 <= j < c ==> row@[j] == sequence@[#[trigger] cell(*layout, r as int, j)],
            decreases 9 - c,
        {
            assert(in_grid(r as int, c as int));
            assert(0 <= cell(*layout, r as int, c as int) < sequence@.len());
            let index = layout[r][c] as usize;
            row.push(sequence[index]);
            c += 1;
        }
        board.push(row);
        r += 1;
    }
    board
}

/// Writes the board out row by row, each row from left to right.
pub fn board_to_sequence(board: Vec<Vec<char>>) -> (sequence: String)
    ensures
        sequence@ == rows_of(board).flatten(),
{
    let mut sequence = String::new();
    let ghost rows = rows_of(board);
    let mut r: usize = 0;
    assert(rows.take(0) =~= Seq::<Seq<char>>::empty());
    while r < board.len()
        invariant
            r <= board@.len(),
            rows == rows_of(board),
            sequence@ == rows.take(r as int).flatten(),
        decreases board@.len() - r,
    {
        let row = &board[r];
        let ghost before = sequence@;
        let mut c: usize = 0;
        while c < row.len()
            invariant
                c <= row@.len(),
                sequence@ == before + row@.take(c as int),
            decreases row@.len() - c,
        {
            sequence.push(row[c]);
            assert(row@.take(c + 1) =~= row@.take(c as int).push(row@[c as int]));
            c += 1;
        }
        proof {
            assert(row@.take(c as int) =~= row@);
            assert(rows.take(r + 1) =~= rows.take(r as int).push(row@));
            rows.take(r as int).lemma_flatten_push(row@);
        }
        r += 1;
    }
    assert(rows.take(r as int) =~= rows);
    sequence
}

/// Renders a seed string: every character is written as the token map says,
/// and the place at row `r` and column `c` of the result gets the character
/// whose index the layout holds there. The result is read row by row.
pub fn get_sequence(layout: &Layout, seed_sequence: &str, token_map: &TokenMap) -> (rendered:
    String)
    requires
        forall|r: int, c: int|
            in_grid(r, c) ==> 0 <= #[trigger] cell(*layout, r, c) < seed_sequence@.len(),
    ensures
        rendered@ == rendering(seed_sequence@, *layout, *token_map),
{
    let replaced = replace_tokens(seed_sequence, token_map);
    let ghost written = replaced@;
    let board = populate_layout(layout, replaced);
    let ghost rows = rows_of(board);
    let rendered = board_to_sequence(board);
    proof {
        lemma_flatten_rows(rows, 9);
        assert(rows.take(9) =~= rows);
        let expected = rendering(seed_sequence@, *layout, *token_map);
        assert forall|p: int| 0 <= p < 81 implies rendered@[p] == expected[p] by {
            let (r, c) = (p / 9, p % 9);
            assert(in_grid(r, c) && p == 9 * r + c);
            assert(rows[r][c] == written[cell(*layout, r, c)]);
        }
        assert(rendered@ =~= expected);
    }
    rendered
}

} // verus!
