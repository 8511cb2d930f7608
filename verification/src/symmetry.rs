//! Symmetries of the grid: the rearrangements of cells that keep rows, columns
//! and boxes together.
//!
//! A symmetry sends every line of the grid (a row or a column) to a line, and
//! keeps the three lines of a band or a stack in one band or stack. It is given
//! by two arrangements of the nine line numbers and a flag that says whether rows
//! and columns change places.

use vstd::prelude::*;
use crate::grid::{in_grid, peers, peers_at};

verus! {

/// The 9×9 table of cell indices: the entry at `(r, c)` names the cell of the
/// source grid whose content goes to cell `(r, c)` of the output.
pub type Layout = [[i8; 9]; 9];

/// The entry of `layout` at row `r` and column `c`.
pub open spec fn cell(layout: Layout, r: int, c: int) -> int {
    layout[r][c] as int
}

/// The entry of `layout` at the place with index `p` in row-major order.
pub open spec fn entry(layout: Layout, p: int) -> int {
    cell(layout, p / 9, p % 9)
}

/// Whether every cell index from 0 to 80 stands in exactly one place of `layout`.
pub open spec fn is_bijection(layout: Layout) -> bool {
    &&& forall|r: int, c: int| in_grid(r, c) ==> 0 <= #[trigger] cell(layout, r, c) < 81
    &&& forall|r1: int, c1: int, r2: int, c2: int|
        in_grid(r1, c1) && in_grid(r2, c2) && #[trigger] cell(layout, r1, c1) == #[trigger] cell(
            layout,
            r2,
            c2,
        ) ==> r1 == r2 && c1 == c2
    &&& forall|v: int| 0 <= v < 81 ==> #[trigger] holds(layout, v)
}

/// Whether the cell index `v` stands somewhere in `layout`.
pub open spec fn holds(layout: Layout, v: int) -> bool {
    exists|r: int, c: int| in_grid(r, c) && cell(layout, r, c) == v
}

/// Whether `layout` keeps rows, columns and boxes together: two places that
/// share a row, a column or a box take their content from two cells that do.
pub open spec fn keeps_units(layout: Layout) -> bool {
    forall|r1: int, c1: int, r2: int, c2: int|
        in_grid(r1, c1) && in_grid(r2, c2) && peers_at(r1, c1, r2, c2) ==> peers(
            #[trigger] cell(layout, r1, c1),
            #[trigger] cell(layout, r2, c2),
        )
}

/// Whether `layout` rearranges a grid without breaking it: a bijection on the
/// cells that keeps rows, columns and boxes together.
pub open spec fn is_valid_layout(layout: Layout) -> bool {
    is_bijection(layout) && keeps_units(layout)
}

/// Whether `lines` arranges the nine line numbers so that each occurs once and
/// the lines of one band (or stack) stay in one band (or stack).
pub open spec fn is_line_arrangement(lines: Seq<int>) -> bool {
    &&& lines.len() == 9
    &&& forall|i: int| 0 <= i < 9 ==> 0 <= #[trigger] lines[i] < 9
    &&& forall|i: int, j: int|
        0 <= i < 9 && 0 <= j < 9 && #[trigger] lines[i] == #[trigger] lines[j] ==> i == j
    &&& forall|v: int| 0 <= v < 9 ==> #[trigger] lines.contains(v)
    &&& forall|i: int, j: int|
        0 <= i < 9 && 0 <= j < 9 && i / 3 == j / 3 ==> #[trigger] lines[i] / 3
            == #[trigger] lines[j] / 3
}

/// A rearrangement of the grid by lines. Without `transposed`, place `(r, c)`
/// takes the content of `(rows[r], cols[c])`; with it, of `(rows[c], cols[r])`.
pub struct GridSymmetry {
    pub rows: Seq<int>,
    pub cols: Seq<int>,
    pub transposed: bool,
}

/// The nine line numbers in their own order.
pub open spec fn in_order() -> Seq<int> {
    Seq::new(9, |i: int| i)
}

/// The nine line numbers from last to first.
pub open spec fn reversed() -> Seq<int> {
    Seq::new(9, |i: int| 8 - i)
}

/// The arrangement of lines after the arrangement `first`: line `i` is taken
/// from line `first[second[i]]`.
pub open spec fn chained(first: Seq<int>, second: Seq<int>) -> Seq<int> {
    Seq::new(9, |i: int| first[second[i]])
}

impl GridSymmetry {
    /// The row from which place `(r, c)` takes its content.
    pub open spec fn source_row(self, r: int, c: int) -> int {
        if self.transposed {
            self.rows[c]
        } else {
            self.rows[r]
        }
    }

    /// The column from which place `(r, c)` takes its content.
    pub open spec fn source_col(self, r: int, c: int) -> int {
        if self.transposed {
            self.cols[r]
        } else {
            self.cols[c]
        }
    }

    /// Whether both arrangements of lines are sound.
    pub open spec fn is_valid(self) -> bool {
        is_line_arrangement(self.rows) && is_line_arrangement(self.cols)
    }

    /// Whether `layout` is what this symmetry makes of the layout that leaves
    /// every cell in its place.
    pub open spec fn gives(self, layout: Layout) -> bool {
        forall|r: int, c: int|
            in_grid(r, c) ==> #[trigger] cell(layout, r, c) == 9 * self.source_row(r, c)
                + self.source_col(r, c)
    }

    /// Whether `to` is `from` rearranged by this symmetry.
    pub open spec fn carries(self, from: Layout, to: Layout) -> bool {
        forall|r: int, c: int|
            in_grid(r, c) ==> #[trigger] cell(to, r, c) == cell(
                from,
                self.source_row(r, c),
                self.source_col(r, c),
            )
    }

    /// The symmetry that rearranges by `self` and then rearranges the result
    /// by `next`.
    pub open spec fn followed_by(self, next: GridSymmetry) -> GridSymmetry {
        GridSymmetry {
            rows: if self.transposed {
                chained(self.rows, next.cols)
            } else {
                chained(self.rows, next.rows)
            },
            cols: if self.transposed {
                chained(self.cols, next.rows)
            } else {
                chained(self.cols, next.cols)
            },
            transposed: self.transposed != next.transposed,
        }
    }

    /// The symmetry that leaves every cell in its place.
    pub open spec fn identity() -> GridSymmetry {
        GridSymmetry { rows: in_order(), cols: in_order(), transposed: false }
    }

    /// The turn by 90° clockwise: place `(r, c)` takes from `(8 - c, r)`.
    pub open spec fn quarter_turn() -> GridSymmetry {
        GridSymmetry { rows: reversed(), cols: in_order(), transposed: true }
    }

    /// The turn by 180°: place `(r, c)` takes from `(8 - r, 8 - c)`.
    pub open spec fn half_turn() -> GridSymmetry {
        GridSymmetry { rows: reversed(), cols: reversed(), transposed: false }
    }

    /// The turn by 270° clockwise: place `(r, c)` takes from `(c, 8 - r)`.
    pub open spec fn three_quarter_turn() -> GridSymmetry {
        GridSymmetry { rows: in_order(), cols: reversed(), transposed: true }
    }

    /// The symmetry that puts row `lines[r]` in the place of row `r`.
    pub open spec fn rows_arranged(lines: Seq<int>) -> GridSymmetry {
        GridSymmetry { rows: lines, cols: in_order(), transposed: false }
    }

    /// The symmetry that puts column `lines[c]` in the place of column `c`.
    pub open spec fn columns_arranged(lines: Seq<int>) -> GridSymmetry {
        GridSymmetry { rows: in_order(), cols: lines, transposed: false }
    }

    /// The symmetry that puts band `order[b]` in the place of band `b`.
    pub open spec fn bands_moved(order: [usize; 3]) -> GridSymmetry {
        Self::rows_arranged(lines_by_band(order))
    }

    /// The symmetry that puts stack `order[b]` in the place of stack `b`.
    pub open spec fn stacks_moved(order: [usize; 3]) -> GridSymmetry {
        Self::columns_arranged(lines_by_band(order))
    }

    /// The symmetry that, within band `b`, puts row `orders[b][k]` of the band in
    /// the place of its row `k`.
    pub open spec fn rows_moved(orders: [[usize; 3]; 3]) -> GridSymmetry {
        Self::rows_arranged(lines_within_bands(orders))
    }

    /// The symmetry that, within stack `b`, puts column `orders[b][k]` of the
    /// stack in the place of its column `k`.
    pub open spec fn columns_moved(orders: [[usize; 3]; 3]) -> GridSymmetry {
        Self::columns_arranged(lines_within_bands(orders))
    }

    /// The turn by `k` times 90° clockwise, for `k` from 0 to 3.
    pub open spec fn turn(k: int) -> GridSymmetry {
        if k == 1 {
            Self::quarter_turn()
        } else if k == 2 {
            Self::half_turn()
        } else if k == 3 {
            Self::three_quarter_turn()
        } else {
            Self::identity()
        }
    }
}

/// Whether `order` names each of the three bands (or the three lines of a band)
/// once.
pub open spec fn is_order_of_three(order: [usize; 3]) -> bool {
    &&& order[0] < 3 && order[1] < 3 && order[2] < 3
    &&& order[0] != order[1] && order[0] != order[2] && order[1] != order[2]
}

/// The arrangement of lines that puts band `order[b]` in the place of band `b`.
pub open spec fn lines_by_band(order: [usize; 3]) -> Seq<int> {
    Seq::new(9, |i: int| 3 * order[i / 3] + i % 3)
}

/// The arrangement of lines that, within band `b`, puts line `orders[b][k]` of
/// the band in the place of its line `k`.
pub open spec fn lines_within_bands(orders: [[usize; 3]; 3]) -> Seq<int> {
    Seq::new(9, |i: int| 3 * (i / 3) + orders[i / 3][i % 3])
}

/// Whether each of the three orders names the three lines of a band once.
pub open spec fn are_orders_of_three(orders: [[usize; 3]; 3]) -> bool {
    is_order_of_three(orders[0]) && is_order_of_three(orders[1]) && is_order_of_three(orders[2])
}

/// Whether `lines` moves whole bands: every line keeps its place within its band.
pub open spec fn moves_whole_bands(lines: Seq<int>) -> bool {
    forall|i: int| 0 <= i < 9 ==> #[trigger] lines[i] % 3 == i % 3
}

/// Whether `lines` leaves every line in its band.
pub open spec fn stays_within_bands(lines: Seq<int>) -> bool {
    forall|i: int| 0 <= i < 9 ==> #[trigger] lines[i] / 3 == i / 3
}

/// The four turns are symmetries.
pub proof fn lemma_turns_are_valid()
    ensures
        GridSymmetry::identity().is_valid(),
        GridSymmetry::quarter_turn().is_valid(),
        GridSymmetry::half_turn().is_valid(),
        GridSymmetry::three_quarter_turn().is_valid(),
        forall|k: int| #[trigger] GridSymmetry::turn(k).is_valid(),
{
    let a = in_order();
    let b = reversed();
    assert forall|v: int| 0 <= v < 9 implies #[trigger] a.contains(v) by {
        assert(a[v] == v);
    }
    assert forall|v: int| 0 <= v < 9 implies #[trigger] b.contains(v) by {
        assert(b[8 - v] == v);
    }
    assert(is_line_arrangement(a));
    assert(is_line_arrangement(b));
}

/// Moving bands, stacks, rows within bands or columns within stacks is a
/// symmetry.
pub proof fn lemma_moves_are_valid(order: [usize; 3], orders: [[usize; 3]; 3])
    ensures
        is_order_of_three(order) ==> GridSymmetry::bands_moved(order).is_valid()
            && GridSymmetry::stacks_moved(order).is_valid(),
        are_orders_of_three(orders) ==> GridSymmetry::rows_moved(orders).is_valid()
            && GridSymmetry::columns_moved(orders).is_valid(),
{
    lemma_turns_are_valid();
    if is_order_of_three(order) {
        lemma_lines_by_band(order);
    }
    if are_orders_of_three(orders) {
        lemma_lines_within_bands(orders);
    }
}

/// An order of the three bands gives an arrangement of lines that moves whole
/// bands.
pub proof fn lemma_lines_by_band(order: [usize; 3])
    requires
        is_order_of_three(order),
    ensures
        is_line_arrangement(lines_by_band(order)),
        moves_whole_bands(lines_by_band(order)),
{
    let lines = lines_by_band(order);
    assert forall|v: int| 0 <= v < 9 implies #[trigger] lines.contains(v) by {
        let band = if order[0] == v / 3 {
            0int
        } else if order[1] == v / 3 {
            1int
        } else {
            2int
        };
        assert(order[band] == v / 3);
        assert(lines[3 * band + v % 3] == v);
    }
    assert forall|i: int, j: int|
        0 <= i < 9 && 0 <= j < 9 && #[trigger] lines[i] == #[trigger] lines[j] implies i == j by {
        assert(order[i / 3] == order[j / 3]);
        assert(i % 3 == j % 3);
    }
}

/// An order of the three lines of each band gives an arrangement of lines
/// that leaves every line in its band.
pub proof fn lemma_lines_within_bands(orders: [[usize; 3]; 3])
    requires
        are_orders_of_three(orders),
    ensures
        is_line_arrangement(lines_within_bands(orders)),
        stays_within_bands(lines_within_bands(orders)),
{
    let lines = lines_within_bands(orders);
    assert forall|v: int| 0 <= v < 9 implies #[trigger] lines.contains(v) by {
        let order = orders[v / 3];
        let place = if order[0] == v % 3 {
            0int
        } else if order[1] == v % 3 {
            1int
        } else {
            2int
        };
        assert(order[place] == v % 3);
        assert(lines[3 * (v / 3) + place] == v);
    }
    assert forall|i: int, j: int|
        0 <= i < 9 && 0 <= j < 9 && #[trigger] lines[i] == #[trigger] lines[j] implies i == j by {
        assert(i / 3 == j / 3);
        assert(orders[i / 3][i % 3] == orders[j / 3][j % 3]);
    }
}

/// One arrangement of lines after another is an arrangement of lines.
pub proof fn lemma_chained_lines(first: Seq<int>, second: Seq<int>)
    requires
        is_line_arrangement(first),
        is_line_arrangement(second),
    ensures
        is_line_arrangement(chained(first, second)),
{
    let both = chained(first, second);
    assert forall|v: int| 0 <= v < 9 implies #[trigger] both.contains(v) by {
        assert(first.contains(v));
        let m = choose|m: int| 0 <= m < 9 && first[m] == v;
        assert(second.contains(m));
        let i = choose|i: int| 0 <= i < 9 && second[i] == m;
        assert(both[i] == v);
    }
    assert forall|i: int, j: int|
        0 <= i < 9 && 0 <= j < 9 && #[trigger] both[i] == #[trigger] both[j] implies i == j by {
        assert(first[second[i]] == first[second[j]]);
        assert(second[i] == second[j]);
    }
    assert forall|i: int, j: int| 0 <= i < 9 && 0 <= j < 9 && i / 3 == j / 3 implies #[trigger] both[i]
        / 3 == #[trigger] both[j] / 3 by {
        assert(second[i] / 3 == second[j] / 3);
        assert(first[second[i]] / 3 == first[second[j]] / 3);
    }
}

/// One symmetry after another is a symmetry, and carries a layout to where the
/// two carry it in turn.
pub proof fn lemma_followed_by(
    first: GridSymmetry,
    next: GridSymmetry,
    from: Layout,
    between: Layout,
    to: Layout,
)
    requires
        first.is_valid(),
        next.is_valid(),
        first.carries(from, between),
        next.carries(between, to),
    ensures
        first.followed_by(next).is_valid(),
        first.followed_by(next).carries(from, to),
{
    lemma_chained_lines(first.rows, next.rows);
    lemma_chained_lines(first.rows, next.cols);
    lemma_chained_lines(first.cols, next.rows);
    lemma_chained_lines(first.cols, next.cols);
    let both = first.followed_by(next);
    assert forall|r: int, c: int| in_grid(r, c) implies #[trigger] cell(to, r, c) == cell(
        from,
        both.source_row(r, c),
        both.source_col(r, c),
    ) by {
        let mr = next.source_row(r, c);
        let mc = next.source_col(r, c);
        assert(in_grid(mr, mc));
        assert(cell(to, r, c) == cell(between, mr, mc));
        assert(cell(between, mr, mc) == cell(
            from,
            first.source_row(mr, mc),
            first.source_col(mr, mc),
        ));
    }
}

/// A symmetry carries a bijection to a bijection.
pub proof fn lemma_symmetry_keeps_bijection(sym: GridSymmetry, from: Layout, to: Layout)
    requires
        sym.is_valid(),
        sym.carries(from, to),
        is_bijection(from),
    ensures
        is_bijection(to),
{
    assert forall|r: int, c: int| in_grid(r, c) implies 0 <= #[trigger] cell(to, r, c) < 81 by {
        assert(in_grid(sym.source_row(r, c), sym.source_col(r, c)));
    }
    assert forall|r1: int, c1: int, r2: int, c2: int|
        in_grid(r1, c1) && in_grid(r2, c2) && #[trigger] cell(to, r1, c1) == #[trigger] cell(
            to,
            r2,
            c2,
        ) implies r1 == r2 && c1 == c2 by {
        let (sr1, sc1) = (sym.source_row(r1, c1), sym.source_col(r1, c1));
        let (sr2, sc2) = (sym.source_row(r2, c2), sym.source_col(r2, c2));
        assert(in_grid(sr1, sc1) && in_grid(sr2, sc2));
        assert(cell(from, sr1, sc1) == cell(from, sr2, sc2));
        assert(sr1 == sr2 && sc1 == sc2);
    }
    assert forall|v: int| 0 <= v < 81 implies #[trigger] holds(to, v) by {
        assert(holds(from, v));
        let (sr, sc) = choose|sr: int, sc: int| in_grid(sr, sc) && cell(from, sr, sc) == v;
        assert(sym.rows.contains(sr));
        assert(sym.cols.contains(sc));
        let i = choose|i: int| 0 <= i < 9 && sym.rows[i] == sr;
        let j = choose|j: int| 0 <= j < 9 && sym.cols[j] == sc;
        let (r, c) = if sym.transposed {
            (j, i)
        } else {
            (i, j)
        };
        assert(in_grid(r, c));
        assert(cell(to, r, c) == v);
    }
}

/// A symmetry carries a layout that keeps units together to one that does.
pub proof fn lemma_symmetry_keeps_units(sym: GridSymmetry, from: Layout, to: Layout)
    requires
        sym.is_valid(),
        sym.carries(from, to),
        keeps_units(from),
    ensures
        keeps_units(to),
{
    assert forall|r1: int, c1: int, r2: int, c2: int|
        in_grid(r1, c1) && in_grid(r2, c2) && peers_at(r1, c1, r2, c2) implies peers(
        #[trigger] cell(to, r1, c1),
        #[trigger] cell(to, r2, c2),
    ) by {
        let (sr1, sc1) = (sym.source_row(r1, c1), sym.source_col(r1, c1));
        let (sr2, sc2) = (sym.source_row(r2, c2), sym.source_col(r2, c2));
        assert(in_grid(sr1, sc1) && in_grid(sr2, sc2));
        assert(peers_at(sr1, sc1, sr2, sc2));
        assert(peers(cell(from, sr1, sc1), cell(from, sr2, sc2)));
    }
}

/// A symmetry carries a valid layout to a valid layout.
pub proof fn lemma_symmetry_keeps_validity(sym: GridSymmetry, from: Layout, to: Layout)
    requires
        sym.is_valid(),
        sym.carries(from, to),
        is_valid_layout(from),
    ensures
        is_valid_layout(to),
{
    lemma_symmetry_keeps_bijection(sym, from, to);
    lemma_symmetry_keeps_units(sym, from, to);
}

} // verus!
