//! Generating a puzzle: a seed of the wanted tier, rendered through a random
//! symmetry of the grid and a random assignment of digits.

use vstd::prelude::*;
use crate::corpus::{get_seed, in_tier, Difficulty, Seed};
use crate::grid::{in_grid, is_valid_solution};
use crate::laws::{is_puzzle_of, lemma_rendered_puzzle_agrees, lemma_rendered_solution_is_valid};
use crate::layout::{get_base_layout, get_layout};
use crate::random::thread_rng;
use crate::render::{get_sequence, rendering};
use crate::seeds::seed;
use crate::symmetry::{cell, is_valid_layout, GridSymmetry, Layout};
use crate::token::{get_token_map, TokenMap};

verus! {

/// A generated puzzle: the puzzle and its solution, each a string of 81
/// characters read row by row, and the tier of the seed it was made from. The
/// solution holds digits only; the puzzle holds `-` in the unsolved cells.
#[derive(Clone, Debug, PartialEq, Eq)]
pub struct Sudoku {
    pub puzzle: String,
    pub solution: String,
    pub difficulty: Difficulty,
}

/// Whether `puzzle` and `solution` are what the seed gives when both of its
/// strings are rendered through one layout and one token map, the layout made
/// by the given symmetry and the token map a bijection.
pub open spec fn derives(
    from: Seed,
    sym: GridSymmetry,
    layout: Layout,
    token_map: TokenMap,
    puzzle: Seq<char>,
    solution: Seq<char>,
) -> bool {
    &&& sym.is_valid()
    &&& sym.gives(layout)
    &&& is_valid_layout(layout)
    &&& token_map.is_bijection()
    &&& puzzle == rendering(from.puzzle@, layout, token_map)
    &&& solution == rendering(from.solution@, layout, token_map)
}

/// A fresh puzzle of the given tier: a seed drawn from the tier, both of its
/// strings rendered through the same random layout and the same random token
/// map. The solution is a solved Sudoku, and the puzzle agrees with it wherever
/// it is not blank.
pub fn generate(difficulty: Difficulty) -> (sudoku: Sudoku)
    ensures
        sudoku.difficulty == difficulty,
        is_valid_solution(sudoku.solution@),
        is_puzzle_of(sudoku.puzzle@, sudoku.solution@),
        exists|i: int, sym: GridSymmetry, layout: Layout, token_map: TokenMap|
            in_tier(difficulty, i) && #[trigger] derives(
                seed(i),
                sym,
                layout,
                token_map,
                sudoku.puzzle@,
                sudoku.solution@,
            ),
{
    let mut rng = thread_rng();
    let from = get_seed(difficulty, &mut rng);
    let base = get_base_layout();
    let layout = get_layout(&base, &mut rng);
    let token_map = get_token_map(&mut rng);
    let puzzle = get_sequence(&layout, from.puzzle, &token_map);
    let solution = get_sequence(&layout, from.solution, &token_map);
    let ghost i = choose|i: int| in_tier(difficulty, i) && from == #[trigger] seed(i);
    let ghost sym = choose|sym: GridSymmetry|
        sym.is_valid() && #[trigger] sym.carries(base, layout);
    let sudoku = Sudoku { puzzle, solution, difficulty };
    proof {
        lemma_rendered_solution_is_valid(from, layout, token_map);
        lemma_rendered_puzzle_agrees(from, layout, token_map);
        assert forall|r: int, c: int| in_grid(r, c) implies #[trigger] cell(layout, r, c) == 9
            * sym.source_row(r, c) + sym.source_col(r, c) by {
            assert(in_grid(sym.source_row(r, c), sym.source_col(r, c)));
        }
        assert(derives(seed(i), sym, layout, token_map, sudoku.puzzle@, sudoku.solution@));
    }
    sudoku
}

} // verus!
