//! The seed corpus: what a seed is, when it is well formed, and how one is
//! drawn for a tier of difficulty.

use rand::rngs::ThreadRng;
use vstd::prelude::*;
use crate::grid::{lemma_peers_share_unit, no_repeats, peers, unit_cell};
use crate::random::random_below;
use crate::seeds::{
    lemma_easy_seeds_pass, lemma_expert_seeds_pass, lemma_hard_seeds_pass,
    lemma_medium_seeds_pass, seed, seed_at, SEED_COUNT,
};
use crate::token::{is_letter, BLANK};

verus! {

/// The tier of difficulty that a seed was written for.
#[derive(Copy, Clone, Debug, PartialEq, Eq, Hash, Structural)]
pub enum Difficulty {
    Easy,
    Medium,
    Hard,
    Expert,
}

/// The number of tiers.
pub const TIER_COUNT: usize = 4;

/// The number of seeds in each tier.
pub const SEEDS_PER_TIER: usize = SEED_COUNT / TIER_COUNT;

impl Difficulty {
    /// The place of the tier among the tiers, from the easiest on.
    pub open spec fn tier(self) -> int {
        match self {
            Difficulty::Easy => 0,
            Difficulty::Medium => 1,
            Difficulty::Hard => 2,
            Difficulty::Expert => 3,
        }
    }

    /// The place of the tier among the tiers, from the easiest on.
    pub fn tier_index(self) -> (t: usize)
        ensures
            t == self.tier(),
            t < TIER_COUNT,
    {
        match self {
            Difficulty::Easy => 0,
            Difficulty::Medium => 1,
            Difficulty::Hard => 2,
            Difficulty::Expert => 3,
        }
    }
}

/// A hand-authored puzzle with its solution, both written over the nine
/// symbols, and the tier it belongs to.
#[derive(Copy, Clone, Debug)]
pub struct Seed {
    pub puzzle: &'static str,
    pub solution: &'static str,
    pub difficulty: Difficulty,
}

impl Seed {
    /// Whether the seed is well formed: both strings fill the grid, the
    /// solution holds symbols only and no symbol twice in a row, a column or a
    /// box, and every cell of the puzzle is blank or agrees with the solution.
    pub open spec fn is_well_formed(self) -> bool {
        &&& self.puzzle@.len() == 81
        &&& self.solution@.len() == 81
        &&& forall|i: int| 0 <= i < 81 ==> is_letter(#[trigger] self.solution@[i])
        &&& forall|i: int|
            0 <= i < 81 ==> (#[trigger] self.puzzle@[i]) == BLANK || self.puzzle@[i]
                == self.solution@[i]
        &&& no_repeats(self.solution@)
    }
}

/// Whether, from cell `i` on, the solution holds a symbol and the puzzle is
/// blank or agrees with it.
pub open spec fn cells_agree_from(puzzle: Seq<char>, solution: Seq<char>, i: int) -> bool
    decreases 81 - i,
{
    if i >= 81 {
        true
    } else {
        &&& is_letter(solution[i])
        &&& puzzle[i] == BLANK || puzzle[i] == solution[i]
        &&& cells_agree_from(puzzle, solution, i + 1)
    }
}

/// Whether cell `j` of unit `u` differs from each of the cells `k`, `k + 1`, …
/// of the unit.
pub open spec fn differs_from_rest(s: Seq<char>, u: int, j: int, k: int) -> bool
    decreases 9 - k,
{
    if k >= 9 {
        true
    } else {
        s[unit_cell(u, j)] != s[unit_cell(u, k)] && differs_from_rest(s, u, j, k + 1)
    }
}

/// Whether each of the cells `j`, `j + 1`, … of unit `u` differs from all the
/// cells after it.
pub open spec fn unit_distinct_from(s: Seq<char>, u: int, j: int) -> bool
    decreases 9 - j,
{
    if j >= 8 {
        true
    } else {
        differs_from_rest(s, u, j, j + 1) && unit_distinct_from(s, u, j + 1)
    }
}

/// Whether none of the units `u`, `u + 1`, … holds a character twice.
pub open spec fn units_distinct_from(s: Seq<char>, u: int) -> bool
    decreases 27 - u,
{
    if u >= 27 {
        true
    } else {
        unit_distinct_from(s, u, 0) && units_distinct_from(s, u + 1)
    }
}

/// Well-formedness cell by cell and unit by unit, in a form that a proof can
/// run through for a given seed.
pub open spec fn passes_checks(seed: Seed) -> bool {
    &&& seed.puzzle@.len() == 81
    &&& seed.solution@.len() == 81
    &&& cells_agree_from(seed.puzzle@, seed.solution@, 0)
    &&& units_distinct_from(seed.solution@, 0)
}

proof fn lemma_cells_agree(puzzle: Seq<char>, solution: Seq<char>, i: int, at: int)
    requires
        cells_agree_from(puzzle, solution, i),
        0 <= i <= at < 81,
    ensures
        is_letter(solution[at]),
        puzzle[at] == BLANK || puzzle[at] == solution[at],
    decreases at - i,
{
    if i < at {
        lemma_cells_agree(puzzle, solution, i + 1, at);
    }
}

proof fn lemma_differs(s: Seq<char>, u: int, j: int, k: int, at: int)
    requires
        differs_from_rest(s, u, j, k),
        0 <= k <= at < 9,
    ensures
        s[unit_cell(u, j)] != s[unit_cell(u, at)],
    decreases at - k,
{
    if k < at {
        lemma_differs(s, u, j, k + 1, at);
    }
}

proof fn lemma_unit_distinct(s: Seq<char>, u: int, from: int, j: int, k: int)
    requires
        unit_distinct_from(s, u, from),
        0 <= from <= j < k < 9,
    ensures
        s[unit_cell(u, j)] != s[unit_cell(u, k)],
    decreases j - from,
{
    if from < j {
        lemma_unit_distinct(s, u, from + 1, j, k);
    } else {
        lemma_differs(s, u, j, j + 1, k);
    }
}

proof fn lemma_units_distinct(s: Seq<char>, from: int, u: int)
    requires
        units_distinct_from(s, from),
        0 <= from <= u < 27,
    ensures
        unit_distinct_from(s, u, 0),
    decreases u - from,
{
    if from < u {
        lemma_units_distinct(s, from + 1, u);
    }
}

/// A seed that passes the checks is well formed.
pub proof fn lemma_checked_is_well_formed(seed: Seed)
    requires
        passes_checks(seed),
    ensures
        seed.is_well_formed(),
{
    let s = seed.solution@;
    assert forall|i: int| 0 <= i < 81 implies is_letter(#[trigger] s[i]) by {
        lemma_cells_agree(seed.puzzle@, s, 0, i);
    }
    assert forall|i: int| 0 <= i < 81 implies (#[trigger] seed.puzzle@[i]) == BLANK
        || seed.puzzle@[i] == s[i] by {
        lemma_cells_agree(seed.puzzle@, s, 0, i);
    }
    assert forall|p: int, q: int| 0 <= p < 81 && 0 <= q < 81 && peers(p, q) implies #[trigger] s[p]
        != #[trigger] s[q] by {
        let (u, j, k) = lemma_peers_share_unit(p, q);
        lemma_units_distinct(s, 0, u);
        if j < k {
            lemma_unit_distinct(s, u, 0, j, k);
        } else {
            lemma_unit_distinct(s, u, 0, k, j);
        }
    }
}

/// The tier with the given place among the tiers.
pub open spec fn tier_at(t: int) -> Difficulty {
    if t == 0 {
        Difficulty::Easy
    } else if t == 1 {
        Difficulty::Medium
    } else if t == 2 {
        Difficulty::Hard
    } else {
        Difficulty::Expert
    }
}

/// Every seed of the corpus is well formed, and the corpus holds the tiers one
/// after the other, each with the same number of seeds.
pub proof fn lemma_corpus_is_well_formed()
    ensures
        SEED_COUNT == TIER_COUNT * SEEDS_PER_TIER,
        forall|i: int| 0 <= i < SEED_COUNT ==> (#[trigger] seed(i)).is_well_formed(),
        forall|i: int|
            0 <= i < SEED_COUNT ==> (#[trigger] seed(i)).difficulty == tier_at(
                i / (SEEDS_PER_TIER as int),
            ),
{
    lemma_easy_seeds_pass();
    lemma_medium_seeds_pass();
    lemma_hard_seeds_pass();
    lemma_expert_seeds_pass();
    assert forall|i: int| 0 <= i < SEED_COUNT implies (#[trigger] seed(i)).is_well_formed() by {
        assert(passes_checks(seed(i)));
        lemma_checked_is_well_formed(seed(i));
    }
    assert forall|i: int| 0 <= i < SEED_COUNT implies (#[trigger] seed(i)).difficulty == tier_at(
        i / (SEEDS_PER_TIER as int),
    ) by {
        assert(SEEDS_PER_TIER == 10);
        if i < 10 {
            assert(i / 10 == 0);
        } else if i < 20 {
            assert(i / 10 == 1);
        } else if i < 30 {
            assert(i / 10 == 2);
        } else {
            assert(i / 10 == 3);
        }
    }
}

/// Whether place `i` of the corpus belongs to the tier of `difficulty`.
pub open spec fn in_tier(difficulty: Difficulty, i: int) -> bool {
    difficulty.tier() * SEEDS_PER_TIER <= i < difficulty.tier() * SEEDS_PER_TIER + SEEDS_PER_TIER
}

/// The seed at place `index` of the tier of `difficulty`.
pub fn tier_seed(difficulty: Difficulty, index: usize) -> (found: Seed)
    requires
        index < SEEDS_PER_TIER,
    ensures
        found == seed(difficulty.tier() * SEEDS_PER_TIER + index),
        found.difficulty == difficulty,
        found.is_well_formed(),
{
    proof {
        lemma_corpus_is_well_formed();
    }
    let offset = difficulty.tier_index() * SEEDS_PER_TIER;
    seed_at(offset + index)
}

/// A seed of the tier of `difficulty`, each seed of the tier with the same
/// chance.
pub fn get_seed(difficulty: Difficulty, rng: &mut ThreadRng) -> (found: Seed)
    ensures
        exists|i: int| in_tier(difficulty, i) && found == #[trigger] seed(i),
        found.difficulty == difficulty,
        found.is_well_formed(),
{
    let index = random_below(rng, SEEDS_PER_TIER);
    let found = tier_seed(difficulty, index);
    assert(in_tier(difficulty, difficulty.tier() * SEEDS_PER_TIER + index));
    assert(found == seed(difficulty.tier() * SEEDS_PER_TIER + index));
    found
}

} // verus!
