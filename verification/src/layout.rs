//! Building a layout: the base table, the turns, and the moves of bands,
//! stacks, rows and columns, each drawn at random.

use rand::rngs::ThreadRng;
use vstd::prelude::*;
use vstd::std_specs::iter::IteratorSpec;
use crate::grid::{in_grid, lemma_row_and_column};
use crate::random::{random_below, random_permutation};
use crate::symmetry::{
    are_orders_of_three, cell, holds, is_order_of_three, is_valid_layout,
    lemma_followed_by, lemma_moves_are_valid, lemma_symmetry_keeps_validity,
    lemma_lines_within_bands, lemma_turns_are_valid, lines_by_band, lines_within_bands,
    GridSymmetry, Layout,
};

verus! {

/// The layout that leaves every cell in its place: the cell indices 0 to 80 in
/// row-major order.
pub fn get_base_layout() -> (layout: Layout)
    ensures
        forall|r: int, c: int| in_grid(r, c) ==> #[trigger] cell(layout, r, c) == 9 * r + c,
        is_valid_layout(layout),
{
    let layout: Layout = [
        [0, 1, 2, 3, 4, 5, 6, 7, 8],
        [9, 10, 11, 12, 13, 14, 15, 16, 17],
        [18, 19, 20, 21, 22, 23, 24, 25, 26],
        [27, 28, 29, 30, 31, 32, 33, 34, 35],
        [36, 37, 38, 39, 40, 41, 42, 43, 44],
        [45, 46, 47, 48, 49, 50, 51, 52, 53],
        [54, 55, 56, 57, 58, 59, 60, 61, 62],
        [63, 64, 65, 66, 67, 68, 69, 70, 71],
        [72, 73, 74, 75, 76, 77, 78, 79, 80],
    ];
    proof {
        assert forall|r: int, c: int| in_grid(r, c) implies #[trigger] cell(layout, r, c) == 9 * r
            + c by {
            let row = layout[r];
            assert(row[c] == 9 * r + c);
        }
        lemma_in_place_is_valid(layout);
    }
    layout
}

/// The layout that leaves every cell in its place is valid.
pub proof fn lemma_in_place_is_valid(layout: Layout)
    requires
        forall|r: int, c: int| in_grid(r, c) ==> #[trigger] cell(layout, r, c) == 9 * r + c,
    ensures
        is_valid_layout(layout),
{
    assert forall|r: int, c: int| in_grid(r, c) implies (#[trigger] cell(layout, r, c)) / 9 == r
        && cell(layout, r, c) % 9 == c && 0 <= cell(layout, r, c) < 81 by {
        lemma_row_and_column(r, c);
    }
    assert forall|v: int| 0 <= v < 81 implies #[trigger] holds(layout, v) by {
        assert(in_grid(v / 9, v % 9));
        assert(cell(layout, v / 9, v % 9) == v);
    }
}

/// Fills a row with the items that the iterator gives, from the left; places
/// beyond the last item hold 0. More than nine items do not fit.
pub fn collect_row(iter: impl Iterator<Item = i8>) -> (row: [i8; 9])
    requires
        iter.obeys_prophetic_iter_laws(),
        iter.remaining().len() <= 9,
    ensures
        forall|i: int| 0 <= i < iter.remaining().len() ==> row[i] == iter.remaining()[i],
        forall|i: int| iter.remaining().len() <= i < 9 ==> row[i] == 0,
{
    let mut row = [0i8;9];
    let mut index: usize = 0;
    let mut rest = iter;
    loop
        invariant
            rest.obeys_prophetic_iter_laws(),
            iter.remaining().len() <= 9,
            index + rest.remaining().len() == iter.remaining().len(),
            rest.remaining() == iter.remaining().skip(index as int),
            forall|i: int| 0 <= i < index ==> row[i] == iter.remaining()[i],
            forall|i: int| index <= i < 9 ==> row[i] == 0,
        ensures
            index == iter.remaining().len(),
        decreases 9 - index,
    {
        match rest.next() {
            Some(item) => {
                row[index] = item;
                index += 1;
            },
            None => {
                break ;
            },
        }
    }
    row
}

/// Fills a table with the rows that the iterator gives, from the top; rows
/// beyond the last one given hold 0 in every place. More than nine rows do not
/// fit.
pub fn collect_rows(iter: impl Iterator<Item = [i8; 9]>) -> (rows: Layout)
    requires
        iter.obeys_prophetic_iter_laws(),
        iter.remaining().len() <= 9,
    ensures
        forall|i: int| 0 <= i < iter.remaining().len() ==> rows[i] == iter.remaining()[i],
        forall|i: int, c: int|
            iter.remaining().len() <= i < 9 && 0 <= c < 9 ==> cell(rows, i, c) == 0,
{
    let mut rows = [[0i8;9];9];
    let ghost empty = rows;
    let mut index: usize = 0;
    let mut rest = iter;
    loop
        invariant
            rest.obeys_prophetic_iter_laws(),
            iter.remaining().len() <= 9,
            index + rest.remaining().len() == iter.remaining().len(),
            rest.remaining() == iter.remaining().skip(index as int),
            forall|i: int| 0 <= i < index ==> rows[i] == iter.remaining()[i],
            forall|i: int| index <= i < 9 ==> rows[i] == empty[i],
            forall|i: int, c: int| 0 <= i < 9 && 0 <= c < 9 ==> cell(empty, i, c) == 0,
        ensures
            index == iter.remaining().len(),
        decreases 9 - index,
    {
        match rest.next() {
            Some(item) => {
                rows[index] = item;
                index += 1;
            },
            None => {
                break ;
            },
        }
    }
    rows
}

/// Column `index` of the layout, read from the top.
fn column(layout: &Layout, index: usize) -> (items: [i8; 9])
    requires
        index < 9,
    ensures
        forall|r: int| 0 <= r < 9 ==> items[r] == cell(*layout, r, index as int),
{
    let mut items: Vec<i8> = Vec::new();
    let mut r: usize = 0;
    while r < 9
        invariant
            r <= 9,
            index < 9,
            items@.len() == r,
            forall|i: int| 0 <= i < r ==> items@[i] == cell(*layout, i, index as int),
        decreases 9 - r,
    {
        items.push(layout[r][index]);
        r += 1;
    }
    collect_row(items.into_iter())
}

/// The row read from right to left.
fn reversed_row(row: &[i8; 9]) -> (items: [i8; 9])
    ensures
        forall|c: int| 0 <= c < 9 ==> items[c] == row[8 - c],
{
    let mut items: Vec<i8> = Vec::new();
    let mut c: usize = 0;
    while c < 9
        invariant
            c <= 9,
            items@.len() == c,
            forall|i: int| 0 <= i < c ==> items@[i] == row[8 - i],
        decreases 9 - c,
    {
        items.push(row[8 - c]);
        c += 1;
    }
    collect_row(items.into_iter())
}

/// Turns the layout by 90° clockwise: place `(r, c)` takes the entry that stood
/// at `(8 - c, r)`.
pub fn rotate_layout_90(layout: &Layout) -> (turned: Layout)
    ensures
        forall|r: int, c: int| in_grid(r, c) ==> cell(turned, r, c) == cell(*layout, 8 - c, r),
        GridSymmetry::quarter_turn().carries(*layout, turned),
        is_valid_layout(*layout) ==> is_valid_layout(turned),
{
    let mut rows: Vec<[i8; 9]> = Vec::new();
    let mut index: usize = 0;
    while index < 9
        invariant
            index <= 9,
            rows@.len() == index,
            forall|r: int, c: int|
                0 <= r < index && 0 <= c < 9 ==> (#[trigger] rows@[r][c]) == cell(
                    *layout,
                    8 - c,
                    r,
                ),
        decreases 9 - index,
    {
        rows.push(reversed_row(&column(layout, index)));
        index += 1;
    }
    let turned = collect_rows(rows.into_iter());
    proof {
        assert forall|r: int, c: int| in_grid(r, c) implies #[trigger] cell(turned, r, c) == cell(
            *layout,
            8 - c,
            r,
        ) by {
            assert(turned[r] == rows@[r]);
            assert(rows@[r][c] == cell(*layout, 8 - c, r));
        }
        lemma_turns_are_valid();
        if is_valid_layout(*layout) {
            lemma_symmetry_keeps_validity(GridSymmetry::quarter_turn(), *layout, turned);
        }
    }
    turned
}

/// Turns the layout by 180°: place `(r, c)` takes the entry that stood at
/// `(8 - r, 8 - c)`.
pub fn rotate_layout_180(layout: &Layout) -> (turned: Layout)
    ensures
        forall|r: int, c: int|
            in_grid(r, c) ==> cell(turned, r, c) == cell(*layout, 8 - r, 8 - c),
        GridSymmetry::half_turn().carries(*layout, turned),
        is_valid_layout(*layout) ==> is_valid_layout(turned),
{
    let mut rows: Vec<[i8; 9]> = Vec::new();
    let mut index: usize = 0;
    while index < 9
        invariant
            index <= 9,
            rows@.len() == index,
            forall|r: int, c: int|
                0 <= r < index && 0 <= c < 9 ==> (#[trigger] rows@[r][c]) == cell(
                    *layout,
                    8 - r,
                    8 - c,
                ),
        decreases 9 - index,
    {
        rows.push(reversed_row(&layout[8 - index]));
        index += 1;
    }
    let turned = collect_rows(rows.into_iter());
    proof {
        assert forall|r: int, c: int| in_grid(r, c) implies #[trigger] cell(turned, r, c) == cell(
            *layout,
            8 - r,
            8 - c,
        ) by {
            assert(turned[r] == rows@[r]);
            assert(rows@[r][c] == cell(*layout, 8 - r, 8 - c));
        }
        lemma_turns_are_valid();
        if is_valid_layout(*layout) {
            lemma_symmetry_keeps_validity(GridSymmetry::half_turn(), *layout, turned);
        }
    }
    turned
}

/// Turns the layout by 270° clockwise: place `(r, c)` takes the entry that
/// stood at `(c, 8 - r)`.
pub fn rotate_layout_270(layout: &Layout) -> (turned: Layout)
    ensures
        forall|r: int, c: int| in_grid(r, c) ==> cell(turned, r, c) == cell(*layout, c, 8 - r),
        GridSymmetry::three_quarter_turn().carries(*layout, turned),
        is_valid_layout(*layout) ==> is_valid_layout(turned),
{
    let mut rows: Vec<[i8; 9]> = Vec::new();
    let mut index: usize = 0;
    while index < 9
        invariant
            index <= 9,
            rows@.len() == index,
            forall|r: int, c: int|
                0 <= r < index && 0 <= c < 9 ==> (#[trigger] rows@[r][c]) == cell(
                    *layout,
                    c,
                    8 - r,
                ),
        decreases 9 - index,
    {
        rows.push(column(layout, 8 - index));
        index += 1;
    }
    let turned = collect_rows(rows.into_iter());
    proof {
        assert forall|r: int, c: int| in_grid(r, c) implies #[trigger] cell(turned, r, c) == cell(
            *layout,
            c,
            8 - r,
        ) by {
            assert(turned[r] == rows@[r]);
            assert(rows@[r][c] == cell(*layout, c, 8 - r));
        }
        lemma_turns_are_valid();
        if is_valid_layout(*layout) {
            lemma_symmetry_keeps_validity(GridSymmetry::three_quarter_turn(), *layout, turned);
        }
    }
    turned
}

/// Turns the layout by `quarter_turns` times 90° clockwise.
pub fn rotate_layout_by(layout: &Layout, quarter_turns: usize) -> (turned: Layout)
    requires
        quarter_turns < 4,
    ensures
        GridSymmetry::turn(quarter_turns as int).carries(*layout, turned),
        quarter_turns == 0 ==> turned == *layout,
        is_valid_layout(*layout) ==> is_valid_layout(turned),
{
    if quarter_turns == 0 {
        *layout
    } else if quarter_turns == 1 {
        rotate_layout_90(layout)
    } else if quarter_turns == 2 {
        rotate_layout_180(layout)
    } else {
        rotate_layout_270(layout)
    }
}

/// Turns the layout by 0°, 90°, 180° or 270°, each with the same chance.
pub fn rotate_layout(layout: &Layout, rng: &mut ThreadRng) -> (turned: Layout)
    ensures
        exists|k: int| 0 <= k < 4 && #[trigger] GridSymmetry::turn(k).carries(*layout, turned),
        is_valid_layout(*layout) ==> is_valid_layout(turned),
{
    let quarter_turns = random_below(rng, 4);
    let turned = rotate_layout_by(layout, quarter_turns);
    assert(GridSymmetry::turn(quarter_turns as int).carries(*layout, turned));
    turned
}

/// The three bands of the layout, each with its three rows.
pub fn get_layout_bands(layout: &Layout) -> (bands: [[[i8; 9]; 3]; 3])
    ensures
        forall|b: int, k: int| 0 <= b < 3 && 0 <= k < 3 ==> bands[b][k] == layout[3 * b + k],
{
    let bands = [
        [layout[0], layout[1], layout[2]],
        [layout[3], layout[4], layout[5]],
        [layout[6], layout[7], layout[8]],
    ];
    assert forall|b: int, k: int| 0 <= b < 3 && 0 <= k < 3 implies bands[b][k] == layout[3 * b
        + k] by {
        let band = bands[b];
        assert(band[k] == layout[3 * b + k]);
    }
    bands
}

/// Puts band `order[b]` in the place of band `b`, rows and all.
pub fn permute_bands(layout: &Layout, order: &[usize; 3]) -> (moved: Layout)
    requires
        order[0] < 3 && order[1] < 3 && order[2] < 3,
    ensures
        GridSymmetry::bands_moved(*order).carries(*layout, moved),
        is_order_of_three(*order) && is_valid_layout(*layout) ==> is_valid_layout(moved),
{
    let bands = get_layout_bands(layout);
    let mut rows: Vec<[i8; 9]> = Vec::new();
    let mut b: usize = 0;
    while b < 3
        invariant
            b <= 3,
            order[0] < 3 && order[1] < 3 && order[2] < 3,
            rows@.len() == 3 * b,
            forall|x: int, k: int| 0 <= x < 3 && 0 <= k < 3 ==> bands[x][k] == layout[3 * x + k],
            forall|i: int|
                0 <= i < 3 * b ==> (#[trigger] rows@[i]) == layout[3 * order[i / 3] + i % 3],
        decreases 3 - b,
    {
        let band = bands[order[b]];
        rows.push(band[0]);
        rows.push(band[1]);
        rows.push(band[2]);
        b += 1;
    }
    let moved = collect_rows(rows.into_iter());
    proof {
        let sym = GridSymmetry::bands_moved(*order);
        assert forall|r: int, c: int| in_grid(r, c) implies #[trigger] cell(moved, r, c) == cell(
            *layout,
            sym.source_row(r, c),
            sym.source_col(r, c),
        ) by {
            assert(moved[r] == rows@[r]);
        }
        if is_order_of_three(*order) && is_valid_layout(*layout) {
            lemma_moves_are_valid(*order, [*order, *order, *order]);
            lemma_symmetry_keeps_validity(sym, *layout, moved);
        }
    }
    moved
}

/// Within band `b`, puts row `orders[b][k]` of the band in the place of its
/// row `k`. No row leaves its band.
pub fn permute_rows(layout: &Layout, orders: &[[usize; 3]; 3]) -> (moved: Layout)
    requires
        forall|b: int, k: int| 0 <= b < 3 && 0 <= k < 3 ==> orders[b][k] < 3,
    ensures
        GridSymmetry::rows_moved(*orders).carries(*layout, moved),
        are_orders_of_three(*orders) && is_valid_layout(*layout) ==> is_valid_layout(moved),
{
    let bands = get_layout_bands(layout);
    let mut rows: Vec<[i8; 9]> = Vec::new();
    let mut b: usize = 0;
    while b < 3
        invariant
            b <= 3,
            forall|x: int, k: int| 0 <= x < 3 && 0 <= k < 3 ==> orders[x][k] < 3,
            rows@.len() == 3 * b,
            forall|x: int, k: int| 0 <= x < 3 && 0 <= k < 3 ==> bands[x][k] == layout[3 * x + k],
            forall|i: int|
                0 <= i < 3 * b ==> (#[trigger] rows@[i]) == layout[3 * (i / 3) + orders[i / 3][i
                    % 3]],
        decreases 3 - b,
    {
        let band = bands[b];
        let order = orders[b];
        assert(order[0] < 3 && order[1] < 3 && order[2] < 3);
        rows.push(band[order[0]]);
        rows.push(band[order[1]]);
        rows.push(band[order[2]]);
        b += 1;
    }
    let moved = collect_rows(rows.into_iter());
    proof {
        let sym = GridSymmetry::rows_moved(*orders);
        assert forall|r: int, c: int| in_grid(r, c) implies #[trigger] cell(moved, r, c) == cell(
            *layout,
            sym.source_row(r, c),
            sym.source_col(r, c),
        ) by {
            assert(moved[r] == rows@[r]);
        }
        if are_orders_of_three(*orders) && is_valid_layout(*layout) {
            lemma_moves_are_valid(orders[0], *orders);
            lemma_symmetry_keeps_validity(sym, *layout, moved);
        }
    }
    moved
}

/// Rearranging the rows of a layout turned by 90°, and turning the result back,
/// rearranges the columns of the layout in the same way.
pub proof fn lemma_rows_of_turned_are_columns(
    layout: Layout,
    turned: Layout,
    between: Layout,
    moved: Layout,
    lines: Seq<int>,
)
    requires
        lines.len() == 9,
        forall|i: int| 0 <= i < 9 ==> 0 <= #[trigger] lines[i] < 9,
        GridSymmetry::quarter_turn().carries(layout, turned),
        GridSymmetry::rows_arranged(lines).carries(turned, between),
        GridSymmetry::three_quarter_turn().carries(between, moved),
    ensures
        GridSymmetry::columns_arranged(lines).carries(layout, moved),
{
    let by_rows = GridSymmetry::rows_arranged(lines);
    let by_cols = GridSymmetry::columns_arranged(lines);
    assert forall|r: int, c: int| in_grid(r, c) implies #[trigger] cell(moved, r, c) == cell(
        layout,
        by_cols.source_row(r, c),
        by_cols.source_col(r, c),
    ) by {
        assert(cell(moved, r, c) == cell(between, c, 8 - r));
        assert(by_rows.source_row(c, 8 - r) == lines[c]);
        assert(cell(between, c, 8 - r) == cell(turned, lines[c], 8 - r));
        assert(cell(turned, lines[c], 8 - r) == cell(layout, r, lines[c]));
    }
}

/// Puts stack `order[b]` in the place of stack `b`, columns and all: the move of
/// bands, made on the layout turned by 90° and turned back.
pub fn permute_stacks(layout: &Layout, order: &[usize; 3]) -> (moved: Layout)
    requires
        order[0] < 3 && order[1] < 3 && order[2] < 3,
    ensures
        GridSymmetry::stacks_moved(*order).carries(*layout, moved),
        is_order_of_three(*order) && is_valid_layout(*layout) ==> is_valid_layout(moved),
{
    let turned = rotate_layout_90(layout);
    let between = permute_bands(&turned, order);
    let moved = rotate_layout_270(&between);
    proof {
        lemma_rows_of_turned_are_columns(*layout, turned, between, moved, lines_by_band(*order));
        if is_order_of_three(*order) && is_valid_layout(*layout) {
            lemma_moves_are_valid(*order, [*order, *order, *order]);
            lemma_symmetry_keeps_validity(GridSymmetry::stacks_moved(*order), *layout, moved);
        }
    }
    moved
}

/// Within stack `b`, puts column `orders[b][k]` of the stack in the place of
/// its column `k`: the move of rows, made on the layout turned by 90° and turned
/// back. No column leaves its stack.
pub fn permute_columns(layout: &Layout, orders: &[[usize; 3]; 3]) -> (moved: Layout)
    requires
        forall|b: int, k: int| 0 <= b < 3 && 0 <= k < 3 ==> orders[b][k] < 3,
    ensures
        GridSymmetry::columns_moved(*orders).carries(*layout, moved),
        are_orders_of_three(*orders) && is_valid_layout(*layout) ==> is_valid_layout(moved),
{
    let turned = rotate_layout_90(layout);
    let between = permute_rows(&turned, orders);
    let moved = rotate_layout_270(&between);
    proof {
        lemma_rows_of_turned_are_columns(
            *layout,
            turned,
            between,
            moved,
            lines_within_bands(*orders),
        );
        if are_orders_of_three(*orders) && is_valid_layout(*layout) {
            lemma_moves_are_valid(orders[0], *orders);
            lemma_symmetry_keeps_validity(GridSymmetry::columns_moved(*orders), *layout, moved);
        }
    }
    moved
}

/// A random order of three things, each order with the same chance.
fn random_order(rng: &mut ThreadRng) -> (order: [usize; 3])
    ensures
        is_order_of_three(order),
{
    let drawn = random_permutation(rng, 3);
    [drawn[0], drawn[1], drawn[2]]
}

/// Shuffles the rows of the layout band by band: the three bands come into a
/// random order, each band as a whole, its three rows together and in their
/// order.
pub fn shuffle_layout_rows(layout: &Layout, rng: &mut ThreadRng) -> (moved: Layout)
    ensures
        exists|order: [usize; 3]|
            is_order_of_three(order) && #[trigger] GridSymmetry::bands_moved(order).carries(
                *layout,
                moved,
            ),
        is_valid_layout(*layout) ==> is_valid_layout(moved),
{
    let order = random_order(rng);
    let moved = permute_bands(layout, &order);
    assert(GridSymmetry::bands_moved(order).carries(*layout, moved));
    moved
}

/// Shuffles the columns of the layout stack by stack: the three stacks come
/// into a random order, each stack as a whole. This is `shuffle_layout_rows`
/// made on the layout turned by 90° and turned back.
pub fn shuffle_layout_columns(layout: &Layout, rng: &mut ThreadRng) -> (moved: Layout)
    ensures
        exists|order: [usize; 3]|
            is_order_of_three(order) && #[trigger] GridSymmetry::stacks_moved(order).carries(
                *layout,
                moved,
            ),
        is_valid_layout(*layout) ==> is_valid_layout(moved),
{
    let turned = rotate_layout_90(layout);
    let between = shuffle_layout_rows(&turned, rng);
    let moved = rotate_layout_270(&between);
    proof {
        let order = choose|order: [usize; 3]|
            is_order_of_three(order) && #[trigger] GridSymmetry::bands_moved(order).carries(
                turned,
                between,
            );
        lemma_rows_of_turned_are_columns(*layout, turned, between, moved, lines_by_band(order));
        assert(GridSymmetry::stacks_moved(order).carries(*layout, moved));
    }
    moved
}

/// Shuffles each band within itself: the three rows of every band come into a
/// random order. No row leaves its band.
pub fn shuffle_layout_bands(layout: &Layout, rng: &mut ThreadRng) -> (moved: Layout)
    ensures
        exists|orders: [[usize; 3]; 3]|
            are_orders_of_three(orders) && #[trigger] GridSymmetry::rows_moved(orders).carries(
                *layout,
                moved,
            ),
        is_valid_layout(*layout) ==> is_valid_layout(moved),
{
    let top = random_order(rng);
    let middle = random_order(rng);
    let bottom = random_order(rng);
    let orders = [top, middle, bottom];
    let moved = permute_rows(layout, &orders);
    assert(GridSymmetry::rows_moved(orders).carries(*layout, moved));
    moved
}

/// Shuffles each stack within itself: the three columns of every stack come
/// into a random order. No column leaves its stack. This is
/// `shuffle_layout_bands` made on the layout turned by 90° and turned back.
pub fn shuffle_layout_stacks(layout: &Layout, rng: &mut ThreadRng) -> (moved: Layout)
    ensures
        exists|orders: [[usize; 3]; 3]|
            are_orders_of_three(orders) && #[trigger] GridSymmetry::columns_moved(orders).carries(
                *layout,
                moved,
            ),
        is_valid_layout(*layout) ==> is_valid_layout(moved),
{
    let turned = rotate_layout_90(layout);
    let between = shuffle_layout_bands(&turned, rng);
    let moved = rotate_layout_270(&between);
    proof {
        let orders = choose|orders: [[usize; 3]; 3]|
            are_orders_of_three(orders) && #[trigger] GridSymmetry::rows_moved(orders).carries(
                turned,
                between,
            );
        lemma_lines_within_bands(orders);
        lemma_rows_of_turned_are_columns(
            *layout,
            turned,
            between,
            moved,
            lines_within_bands(orders),
        );
        assert(GridSymmetry::columns_moved(orders).carries(*layout, moved));
    }
    moved
}

/// Moves whole bands, then whole stacks, then the rows within each band, then
/// the columns within each stack, each into a random order. Rows stay rows and
/// columns stay columns.
pub fn shuffle_layout(layout: &Layout, rng: &mut ThreadRng) -> (moved: Layout)
    ensures
        exists|sym: GridSymmetry|
            sym.is_valid() && !sym.transposed && #[trigger] sym.carries(*layout, moved),
        is_valid_layout(*layout) ==> is_valid_layout(moved),
{
    let by_bands = shuffle_layout_rows(layout, rng);
    let by_stacks = shuffle_layout_columns(&by_bands, rng);
    let by_rows = shuffle_layout_bands(&by_stacks, rng);
    let moved = shuffle_layout_stacks(&by_rows, rng);
    proof {
        let bands = choose|order: [usize; 3]|
            is_order_of_three(order) && #[trigger] GridSymmetry::bands_moved(order).carries(
                *layout,
                by_bands,
            );
        let stacks = choose|order: [usize; 3]|
            is_order_of_three(order) && #[trigger] GridSymmetry::stacks_moved(order).carries(
                by_bands,
                by_stacks,
            );
        let rows = choose|orders: [[usize; 3]; 3]|
            are_orders_of_three(orders) && #[trigger] GridSymmetry::rows_moved(orders).carries(
                by_stacks,
                by_rows,
            );
        let columns = choose|orders: [[usize; 3]; 3]|
            are_orders_of_three(orders) && #[trigger] GridSymmetry::columns_moved(orders).carries(
                by_rows,
                moved,
            );
        lemma_moves_are_valid(bands, rows);
        lemma_moves_are_valid(stacks, columns);
        let first = GridSymmetry::bands_moved(bands);
        let second = first.followed_by(GridSymmetry::stacks_moved(stacks));
        let third = second.followed_by(GridSymmetry::rows_moved(rows));
        let whole = third.followed_by(GridSymmetry::columns_moved(columns));
        lemma_followed_by(first, GridSymmetry::stacks_moved(stacks), *layout, by_bands, by_stacks);
        lemma_followed_by(second, GridSymmetry::rows_moved(rows), *layout, by_stacks, by_rows);
        lemma_followed_by(third, GridSymmetry::columns_moved(columns), *layout, by_rows, moved);
        assert(whole.is_valid() && !whole.transposed && whole.carries(*layout, moved));
    }
    moved
}

/// A random symmetry of the grid applied to `base_layout`: a random turn, then
/// a random move of bands, stacks, rows and columns.
pub fn get_layout(base_layout: &Layout, rng: &mut ThreadRng) -> (layout: Layout)
    ensures
        exists|sym: GridSymmetry| sym.is_valid() && #[trigger] sym.carries(*base_layout, layout),
        is_valid_layout(*base_layout) ==> is_valid_layout(layout),
{
    let turned = rotate_layout(base_layout, rng);
    let layout = shuffle_layout(&turned, rng);
    proof {
        let k = choose|k: int|
            0 <= k < 4 && #[trigger] GridSymmetry::turn(k).carries(*base_layout, turned);
        let moved = choose|sym: GridSymmetry|
            sym.is_valid() && !sym.transposed && #[trigger] sym.carries(turned, layout);
        lemma_turns_are_valid();
        lemma_followed_by(GridSymmetry::turn(k), moved, *base_layout, turned, layout);
        assert(GridSymmetry::turn(k).followed_by(moved).carries(*base_layout, layout));
    }
    layout
}

} // verus!
