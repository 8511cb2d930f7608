use sudokugen::corpus::{get_seed, tier_seed, Difficulty, Seed, SEEDS_PER_TIER, TIER_COUNT};
use sudokugen::seeds::{seed_at, SEED_COUNT};

fn tiers() -> [Difficulty; 4] {
    [Difficulty::Easy, Difficulty::Medium, Difficulty::Hard, Difficulty::Expert]
}

fn units() -> Vec<Vec<usize>> {
    let mut all = Vec::new();
    for r in 0..9 {
        all.push((0..9).map(|c| 9 * r + c).collect());
    }
    for c in 0..9 {
        all.push((0..9).map(|r| 9 * r + c).collect());
    }
    for b in 0..9 {
        all.push((0..9).map(|k| 27 * (b / 3) + 3 * (b % 3) + 9 * (k / 3) + k % 3).collect());
    }
    all
}

fn is_well_formed(seed: &Seed) -> bool {
    let puzzle: Vec<char> = seed.puzzle.chars().collect();
    let solution: Vec<char> = seed.solution.chars().collect();
    if puzzle.len() != 81 || solution.len() != 81 {
        return false;
    }
    for p in 0..81 {
        if !('a'..='i').contains(&solution[p]) {
            return false;
        }
        if puzzle[p] != '-' && puzzle[p] != solution[p] {
            return false;
        }
    }
    for unit in units() {
        let mut held: Vec<char> = unit.iter().map(|p| solution[*p]).collect();
        held.sort();
        if held != vec!['a', 'b', 'c', 'd', 'e', 'f', 'g', 'h', 'i'] {
            return false;
        }
    }
    true
}

#[test]
fn corpus_has_ten_seeds_in_each_of_four_tiers() {
    assert_eq!(SEED_COUNT, 40);
    assert_eq!(TIER_COUNT, 4);
    assert_eq!(SEEDS_PER_TIER, 10);
    assert_eq!(SEEDS_PER_TIER * TIER_COUNT, SEED_COUNT);
}

#[test]
fn tiers_are_numbered_from_the_easiest() {
    assert_eq!(Difficulty::Easy.tier_index(), 0);
    assert_eq!(Difficulty::Medium.tier_index(), 1);
    assert_eq!(Difficulty::Hard.tier_index(), 2);
    assert_eq!(Difficulty::Expert.tier_index(), 3);
}

#[test]
fn every_seed_is_well_formed() {
    for index in 0..SEED_COUNT {
        assert!(is_well_formed(&seed_at(index)), "seed {}", index);
    }
}

#[test]
fn seeds_lie_tier_by_tier() {
    for index in 0..SEED_COUNT {
        assert_eq!(seed_at(index).difficulty, tiers()[index / SEEDS_PER_TIER]);
    }
}

#[test]
fn first_and_last_seed() {
    let first = seed_at(0);
    assert_eq!(
        first.puzzle,
        "g--d--caf---g----ii-f--hg-bb-iaedhgc--afcg--d-g-b-----f-d--abc---b------c--h-bfia"
    );
    assert_eq!(
        first.solution,
        "gbhdiecafacegbfdhiidfcahgebbfiaedhgcehafcgibddgcbhiafefidegabchhabifcedgceghdbfia"
    );
    assert_eq!(first.difficulty, Difficulty::Easy);
    let last = seed_at(39);
    assert_eq!(
        last.puzzle,
        "---i--h-bc----b----g----a----gd-----e--h-f------b---ac-c------ha-----id--i--gd---"
    );
    assert_eq!(
        last.solution,
        "deficahgbchagfbdeibgiedhacffagdicbheebchafgididhbegfacgcdabiefhafbcheidghiefgdcba"
    );
    assert_eq!(last.difficulty, Difficulty::Expert);
}

#[test]
fn seeds_differ_from_one_another() {
    for a in 0..SEED_COUNT {
        for b in (a + 1)..SEED_COUNT {
            assert_ne!(seed_at(a).solution, seed_at(b).solution);
        }
    }
}

#[test]
fn tier_seed_counts_within_the_tier() {
    for (t, difficulty) in tiers().iter().enumerate() {
        for index in 0..SEEDS_PER_TIER {
            let found = tier_seed(*difficulty, index);
            let expected = seed_at(t * SEEDS_PER_TIER + index);
            assert_eq!(found.puzzle, expected.puzzle);
            assert_eq!(found.solution, expected.solution);
            assert_eq!(found.difficulty, *difficulty);
        }
    }
    assert_eq!(
        tier_seed(Difficulty::Hard, 3).solution,
        "hgcifabdedabgehfciifebdcaghbdheigcafgcfhabeideiadcfhbgfbgahdiecahicgedfbcedfbigha"
    );
}

#[test]
fn get_seed_draws_from_the_tier() {
    let mut rng = rand::thread_rng();
    for (t, difficulty) in tiers().iter().enumerate() {
        for _ in 0..40 {
            let found = get_seed(*difficulty, &mut rng);
            assert_eq!(found.difficulty, *difficulty);
            let place = (0..SEED_COUNT).find(|i| seed_at(*i).solution == found.solution);
            assert_eq!(place.map(|i| i / SEEDS_PER_TIER), Some(t));
            assert_eq!(seed_at(place.unwrap()).puzzle, found.puzzle);
        }
    }
}

#[test]
fn get_seed_varies() {
    let mut rng = rand::thread_rng();
    let first = get_seed(Difficulty::Expert, &mut rng);
    let mut differs = false;
    for _ in 0..40 {
        if get_seed(Difficulty::Expert, &mut rng).solution != first.solution {
            differs = true;
        }
    }
    assert!(differs);
}
