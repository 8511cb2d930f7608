//! The shape of the 9×9 grid: cells, rows, columns, boxes, and what it means for
//! a filled grid to be valid.
//!
//! A cell is named either by its row and column, both from 0 to 8, or by its
//! index `9 * row + column` in row-major order. A unit is a row, a column or a
//! 3×3 box; units are numbered 0 to 26, rows first, then columns, then boxes.

use vstd::prelude::*;
use vstd::relations::injective_on;
use vstd::set_lib::*;

verus! {

/// Whether `(r, c)` names a cell of the grid.
pub open spec fn in_grid(r: int, c: int) -> bool {
    0 <= r < 9 && 0 <= c < 9
}

/// Whether the cells `(r1, c1)` and `(r2, c2)` are different and share a row, a
/// column or a box.
pub open spec fn peers_at(r1: int, c1: int, r2: int, c2: int) -> bool {
    &&& r1 != r2 || c1 != c2
    &&& r1 == r2 || c1 == c2 || (r1 / 3 == r2 / 3 && c1 / 3 == c2 / 3)
}

/// Whether the cells with indices `p` and `q` are different and share a row, a
/// column or a box.
pub open spec fn peers(p: int, q: int) -> bool {
    peers_at(p / 9, p % 9, q / 9, q % 9)
}

/// The row of cell `k` of unit `u`.
pub open spec fn unit_row(u: int, k: int) -> int {
    if u < 9 {
        u
    } else if u < 18 {
        k
    } else {
        3 * ((u - 18) / 3) + k / 3
    }
}

/// The column of cell `k` of unit `u`.
pub open spec fn unit_col(u: int, k: int) -> int {
    if u < 9 {
        k
    } else if u < 18 {
        u - 9
    } else {
        3 * ((u - 18) % 3) + k % 3
    }
}

/// The index of cell `k` of unit `u`.
pub open spec fn unit_cell(u: int, k: int) -> int {
    9 * unit_row(u, k) + unit_col(u, k)
}

/// Whether `c` is one of the digits `1` to `9`.
pub open spec fn is_digit(c: char) -> bool {
    '1' <= c <= '9'
}

/// Whether `s` fills the grid so that no two cells that share a row, a column or
/// a box hold the same character.
pub open spec fn no_repeats(s: Seq<char>) -> bool {
    &&& s.len() == 81
    &&& forall|p: int, q: int|
        0 <= p < 81 && 0 <= q < 81 && peers(p, q) ==> #[trigger] s[p] != #[trigger] s[q]
}

/// Whether some cell of unit `u` holds `d`.
pub open spec fn occurs_in_unit(s: Seq<char>, u: int, d: char) -> bool {
    exists|k: int| 0 <= k < 9 && s[unit_cell(u, k)] == d
}

/// Whether `s` is a solved Sudoku: 81 digits, and each digit exactly once in
/// every row, every column and every box.
pub open spec fn is_valid_solution(s: Seq<char>) -> bool {
    &&& s.len() == 81
    &&& forall|p: int| 0 <= p < 81 ==> is_digit(#[trigger] s[p])
    &&& forall|u: int, d: char| 0 <= u < 27 && is_digit(d) ==> #[trigger] occurs_in_unit(s, u, d)
    &&& forall|u: int, j: int, k: int|
        0 <= u < 27 && 0 <= j < 9 && 0 <= k < 9 && j != k ==> s[#[trigger] unit_cell(u, j)]
            != s[#[trigger] unit_cell(u, k)]
}

/// The index `9 * r + c` gives back the row `r` and the column `c`.
pub proof fn lemma_row_and_column(r: int, c: int)
    requires
        in_grid(r, c),
    ensures
        0 <= 9 * r + c < 81,
        (9 * r + c) / 9 == r,
        (9 * r + c) % 9 == c,
{
}

/// Cell `k` of unit `u` lies in the grid.
pub proof fn lemma_unit_cell_in_grid(u: int, k: int)
    requires
        0 <= u < 27,
        0 <= k < 9,
    ensures
        in_grid(unit_row(u, k), unit_col(u, k)),
        0 <= unit_cell(u, k) < 81,
        unit_cell(u, k) / 9 == unit_row(u, k),
        unit_cell(u, k) % 9 == unit_col(u, k),
{
    lemma_row_and_column(unit_row(u, k), unit_col(u, k));
}

/// Two different cells of one unit are peers.
pub proof fn lemma_unit_cells_are_peers(u: int, j: int, k: int)
    requires
        0 <= u < 27,
        0 <= j < 9,
        0 <= k < 9,
        j != k,
    ensures
        peers(unit_cell(u, j), unit_cell(u, k)),
{
    lemma_unit_cell_in_grid(u, j);
    lemma_unit_cell_in_grid(u, k);
    if u >= 18 {
        let band = (u - 18) / 3;
        let stack = (u - 18) % 3;
        assert((3 * band + j / 3) / 3 == band);
        assert((3 * band + k / 3) / 3 == band);
        assert((3 * stack + j % 3) / 3 == stack);
        assert((3 * stack + k % 3) / 3 == stack);
        assert(j / 3 != k / 3 || j % 3 != k % 3);
    }
}

/// Two peers are two different cells of one unit.
pub proof fn lemma_peers_share_unit(p: int, q: int) -> (ujk: (int, int, int))
    requires
        0 <= p < 81,
        0 <= q < 81,
        peers(p, q),
    ensures
        0 <= ujk.0 < 27,
        0 <= ujk.1 < 9,
        0 <= ujk.2 < 9,
        ujk.1 != ujk.2,
        p == unit_cell(ujk.0, ujk.1),
        q == unit_cell(ujk.0, ujk.2),
{
    let (r1, c1) = (p / 9, p % 9);
    let (r2, c2) = (q / 9, q % 9);
    assert(p == 9 * r1 + c1 && q == 9 * r2 + c2);
    if r1 == r2 {
        (r1, c1, c2)
    } else if c1 == c2 {
        (9 + c1, r1, r2)
    } else {
        let band = r1 / 3;
        let stack = c1 / 3;
        let u = 18 + 3 * band + stack;
        let j = 3 * (r1 % 3) + c1 % 3;
        let k = 3 * (r2 % 3) + c2 % 3;
        assert((u - 18) / 3 == band && (u - 18) % 3 == stack);
        assert(j / 3 == r1 % 3 && j % 3 == c1 % 3);
        assert(k / 3 == r2 % 3 && k % 3 == c2 % 3);
        assert(unit_row(u, j) == r1 && unit_col(u, j) == c1);
        assert(unit_row(u, k) == r2 && unit_col(u, k) == c2);
        (u, j, k)
    }
}

/// Nine different digits are all the digits: where the cells of a unit hold
/// digits and no two of them the same, every digit is there.
pub proof fn lemma_distinct_digits_fill_unit(s: Seq<char>, u: int, d: char)
    requires
        s.len() == 81,
        0 <= u < 27,
        is_digit(d),
        forall|k: int| 0 <= k < 9 ==> is_digit(s[unit_cell(u, k)]),
        forall|j: int, k: int|
            0 <= j < 9 && 0 <= k < 9 && j != k ==> s[unit_cell(u, j)] != s[unit_cell(u, k)],
    ensures
        occurs_in_unit(s, u, d),
{
    let places = set_int_range(0, 9);
    let held = |k: int| s[unit_cell(u, k)] as int - '1' as int;
    let found = places.map(held);
    lemma_int_range(0, 9);
    assert(injective_on(held, places));
    lemma_map_size(places, found, held);
    assert(found.subset_of(places));
    lemma_subset_equality(found, places);
    assert(found.contains(d as int - '1' as int));
    let k = choose|k: int| places.contains(k) && held(k) == d as int - '1' as int;
    assert(s[unit_cell(u, k)] == d);
}

/// A grid of digits in which no two peers agree is a solved Sudoku.
pub proof fn lemma_no_repeats_is_valid(s: Seq<char>)
    requires
        no_repeats(s),
        forall|p: int| 0 <= p < 81 ==> is_digit(#[trigger] s[p]),
    ensures
        is_valid_solution(s),
{
    assert forall|u: int, j: int, k: int|
        0 <= u < 27 && 0 <= j < 9 && 0 <= k < 9 && j != k implies s[#[trigger] unit_cell(u, j)]
        != s[#[trigger] unit_cell(u, k)] by {
        lemma_unit_cells_are_peers(u, j, k);
        lemma_unit_cell_in_grid(u, j);
        lemma_unit_cell_in_grid(u, k);
    }
    assert forall|u: int, d: char| 0 <= u < 27 && is_digit(d) implies #[trigger] occurs_in_unit(
        s,
        u,
        d,
    ) by {
        assert forall|k: int| 0 <= k < 9 implies is_digit(s[unit_cell(u, k)]) by {
            lemma_unit_cell_in_grid(u, k);
        }
        lemma_distinct_digits_fill_unit(s, u, d);
    }
}

} // verus!
