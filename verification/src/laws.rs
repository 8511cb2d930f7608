//! What holds of every layout and every rendering: turns come back to where
//! they started, lines stay in their bands, and a rendered seed keeps its
//! validity, its blanks, and the way back to the seed.

use vstd::prelude::*;
use vstd::relations::injective_on;
use vstd::set_lib::{lemma_int_range, lemma_len_subset, lemma_map_size, set_int_range};
use crate::corpus::Seed;
use crate::grid::{in_grid, is_digit, is_valid_solution, lemma_no_repeats_is_valid, no_repeats, peers};
use crate::render::rendering;
use crate::symmetry::{
    are_orders_of_three, cell, entry, holds, is_bijection, is_valid_layout,
    lemma_lines_within_bands, GridSymmetry, Layout,
};
use crate::token::{is_letter, lemma_letters_are_tokens, token_of, Token, TokenMap, BLANK};

verus! {

/// The places of `s` that are blank.
pub open spec fn blanks(s: Seq<char>) -> Set<int> {
    Set::new(|p: int| 0 <= p < s.len() && s[p] == BLANK)
}

/// Whether every cell of `puzzle` is blank or agrees with `solution`.
pub open spec fn is_puzzle_of(puzzle: Seq<char>, solution: Seq<char>) -> bool {
    &&& puzzle.len() == 81
    &&& solution.len() == 81
    &&& forall|p: int| 0 <= p < 81 ==> (#[trigger] puzzle[p]) == BLANK || puzzle[p] == solution[p]
}

/// A bijective token map writes a letter as a digit, different letters as
/// different digits, and anything else as the blank marker.
pub proof fn lemma_substitute(token_map: TokenMap, c: char, d: char)
    requires
        token_map.is_bijection(),
    ensures
        is_letter(c) ==> is_digit(token_map.substitute(c)),
        !is_letter(c) ==> token_map.substitute(c) == BLANK,
        is_letter(c) && is_letter(d) && c != d ==> token_map.substitute(c) != token_map.substitute(
            d,
        ),
{
    lemma_letters_are_tokens(c);
    lemma_letters_are_tokens(d);
    if is_letter(c) && is_letter(d) && c != d {
        let t = token_of(c)->0;
        let u = token_of(d)->0;
        assert(t.letter() == c && u.letter() == d);
        assert(token_map.digit(t) != token_map.digit(u));
    }
    if is_letter(c) {
        let t = token_of(c)->0;
        assert(is_digit(token_map.digit(t)));
    }
}

/// The rendered solution of a well-formed seed is a solved Sudoku: digits only,
/// and each digit exactly once in every row, every column and every box.
pub proof fn lemma_rendered_solution_is_valid(seed: Seed, layout: Layout, token_map: TokenMap)
    requires
        seed.is_well_formed(),
        is_valid_layout(layout),
        token_map.is_bijection(),
    ensures
        is_valid_solution(rendering(seed.solution@, layout, token_map)),
{
    let from = seed.solution@;
    let to = rendering(from, layout, token_map);
    assert forall|p: int| 0 <= p < 81 implies is_digit(#[trigger] to[p]) by {
        assert(in_grid(p / 9, p % 9));
        let source = cell(layout, p / 9, p % 9);
        lemma_substitute(token_map, from[source], from[source]);
    }
    assert forall|p: int, q: int| 0 <= p < 81 && 0 <= q < 81 && peers(p, q) implies #[trigger] to[p]
        != #[trigger] to[q] by {
        assert(in_grid(p / 9, p % 9) && in_grid(q / 9, q % 9));
        let a = cell(layout, p / 9, p % 9);
        let b = cell(layout, q / 9, q % 9);
        assert(peers(a, b));
        assert(from[a] != from[b]);
        lemma_substitute(token_map, from[a], from[b]);
    }
    lemma_no_repeats_is_valid(to);
}

/// Every cell of the rendered puzzle is blank or agrees with the rendered
/// solution, and it is blank exactly where it takes a blank cell of the seed.
pub proof fn lemma_rendered_puzzle_agrees(seed: Seed, layout: Layout, token_map: TokenMap)
    requires
        seed.is_well_formed(),
        is_bijection(layout),
        token_map.is_bijection(),
    ensures
        is_puzzle_of(
            rendering(seed.puzzle@, layout, token_map),
            rendering(seed.solution@, layout, token_map),
        ),
        forall|p: int|
            0 <= p < 81 ==> (#[trigger] rendering(seed.puzzle@, layout, token_map)[p] == BLANK
                <==> seed.puzzle@[entry(layout, p)] == BLANK),
{
    let puzzle = rendering(seed.puzzle@, layout, token_map);
    let solution = rendering(seed.solution@, layout, token_map);
    assert forall|p: int| 0 <= p < 81 implies ((#[trigger] puzzle[p]) == BLANK || puzzle[p]
        == solution[p]) && (puzzle[p] == BLANK <==> seed.puzzle@[entry(layout, p)] == BLANK) by {
        assert(in_grid(p / 9, p % 9));
        let source = entry(layout, p);
        lemma_substitute(token_map, seed.puzzle@[source], seed.puzzle@[source]);
    }
}

/// Rendering keeps the number of blank cells.
pub proof fn lemma_rendering_keeps_blank_count(seed: Seed, layout: Layout, token_map: TokenMap)
    requires
        seed.is_well_formed(),
        is_bijection(layout),
        token_map.is_bijection(),
    ensures
        blanks(rendering(seed.puzzle@, layout, token_map)).finite(),
        blanks(rendering(seed.puzzle@, layout, token_map)).len() == blanks(seed.puzzle@).len(),
{
    let puzzle = rendering(seed.puzzle@, layout, token_map);
    let after = blanks(puzzle);
    let before = blanks(seed.puzzle@);
    let source = |p: int| entry(layout, p);
    lemma_rendered_puzzle_agrees(seed, layout, token_map);
    lemma_int_range(0, 81);
    assert(after.subset_of(set_int_range(0, 81)));
    lemma_len_subset(after, set_int_range(0, 81));
    assert forall|p: int, q: int|
        after.contains(p) && after.contains(q) && #[trigger] source(p) == #[trigger] source(
            q,
        ) implies p == q by {
        assert(in_grid(p / 9, p % 9) && in_grid(q / 9, q % 9));
        assert(cell(layout, p / 9, p % 9) == cell(layout, q / 9, q % 9));
    }
    assert(injective_on(source, after));
    assert forall|v: int| before.contains(v) implies #[trigger] after.map(source).contains(v) by {
        assert(holds(layout, v));
        let (r, c) = choose|r: int, c: int| in_grid(r, c) && cell(layout, r, c) == v;
        let p = 9 * r + c;
        assert(p / 9 == r && p % 9 == c);
        assert(source(p) == v);
        assert(after.contains(p));
    }
    assert forall|v: int| #[trigger] after.map(source).contains(v) implies before.contains(v) by {
        let p = choose|p: int| after.contains(p) && source(p) == v;
        assert(in_grid(p / 9, p % 9));
    }
    assert(after.map(source) =~= before);
    lemma_map_size(after, before, source);
}

/// Four turns by 90° bring every layout back to itself.
pub proof fn lemma_four_quarter_turns(
    layout: Layout,
    once: Layout,
    twice: Layout,
    thrice: Layout,
    back: Layout,
)
    requires
        GridSymmetry::quarter_turn().carries(layout, once),
        GridSymmetry::quarter_turn().carries(once, twice),
        GridSymmetry::quarter_turn().carries(twice, thrice),
        GridSymmetry::quarter_turn().carries(thrice, back),
    ensures
        back == layout,
{
    assert forall|r: int, c: int| in_grid(r, c) implies cell(back, r, c) == cell(layout, r, c) by {
        assert(cell(back, r, c) == cell(thrice, 8 - c, r));
        assert(cell(thrice, 8 - c, r) == cell(twice, 8 - r, 8 - c));
        assert(cell(twice, 8 - r, 8 - c) == cell(once, c, 8 - r));
        assert(cell(once, c, 8 - r) == cell(layout, r, c));
    }
    assert forall|r: int| 0 <= r < 9 implies back[r] == layout[r] by {
        assert forall|c: int| 0 <= c < 9 implies back[r][c] == layout[r][c] by {
            assert(cell(back, r, c) == cell(layout, r, c));
        }
        assert(back[r] =~= layout[r]);
    }
    assert(back =~= layout);
}

/// Moving rows within their bands takes the content of every place from the
/// same column and from a row of the same band; moving columns within their
/// stacks takes it from the same row and from a column of the same stack.
pub proof fn lemma_lines_stay_in_place(orders: [[usize; 3]; 3], r: int, c: int)
    requires
        are_orders_of_three(orders),
        in_grid(r, c),
    ensures
        GridSymmetry::rows_moved(orders).source_row(r, c) / 3 == r / 3,
        GridSymmetry::rows_moved(orders).source_col(r, c) == c,
        GridSymmetry::columns_moved(orders).source_col(r, c) / 3 == c / 3,
        GridSymmetry::columns_moved(orders).source_row(r, c) == r,
{
    lemma_lines_within_bands(orders);
}

/// The place of `layout` that holds the cell index `v`.
pub open spec fn place_of(layout: Layout, v: int) -> int {
    choose|p: int| 0 <= p < 81 && entry(layout, p) == v
}

/// The letter of the symbol that `token_map` writes as `d`.
pub open spec fn letter_of(token_map: TokenMap, d: char) -> char {
    (choose|t: Token| token_map.digit(t) == d).letter()
}

/// What the way back makes of a rendered string: the cell with index `v` gets
/// the letter of the character that stands where the layout holds `v`. This is
/// rendering through the inverse layout and the inverse token map.
pub open spec fn restoring(rendered: Seq<char>, layout: Layout, token_map: TokenMap) -> Seq<char> {
    Seq::new(81, |v: int| letter_of(token_map, rendered[place_of(layout, v)]))
}

/// Rendering a string of symbols and then going the way back gives the string
/// again.
pub proof fn lemma_rendering_round_trip(solution: Seq<char>, layout: Layout, token_map: TokenMap)
    requires
        solution.len() == 81,
        forall|i: int| 0 <= i < 81 ==> is_letter(#[trigger] solution[i]),
        is_bijection(layout),
        token_map.is_bijection(),
    ensures
        restoring(rendering(solution, layout, token_map), layout, token_map) == solution,
{
    let rendered = rendering(solution, layout, token_map);
    let back = restoring(rendered, layout, token_map);
    assert forall|v: int| 0 <= v < 81 implies back[v] == solution[v] by {
        assert(holds(layout, v));
        let (r, c) = choose|r: int, c: int| in_grid(r, c) && cell(layout, r, c) == v;
        assert((9 * r + c) / 9 == r && (9 * r + c) % 9 == c);
        assert(entry(layout, 9 * r + c) == v);
        let p = place_of(layout, v);
        assert(0 <= p < 81 && entry(layout, p) == v);
        assert(rendered[p] == token_map.substitute(solution[v]));
        lemma_letters_are_tokens(solution[v]);
        let t = token_of(solution[v])->0;
        assert(t.letter() == solution[v]);
        let u = choose|u: Token| token_map.digit(u) == token_map.digit(t);
        assert(token_map.digit(u) == token_map.digit(t));
        assert(u == t);
    }
    assert(back =~= solution);
}

} // verus!
