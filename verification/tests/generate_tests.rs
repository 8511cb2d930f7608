use sudokugen::corpus::{Difficulty, SEEDS_PER_TIER};
use sudokugen::generator::{generate, Sudoku};
use sudokugen::seeds::seed_at;

fn tiers() -> [Difficulty; 4] {
    [Difficulty::Easy, Difficulty::Medium, Difficulty::Hard, Difficulty::Expert]
}

fn is_valid_solution(solution: &str) -> bool {
    let cells: Vec<char> = solution.chars().collect();
    if cells.len() != 81 {
        return false;
    }
    let digits = vec!['1', '2', '3', '4', '5', '6', '7', '8', '9'];
    for u in 0..9 {
        let mut row: Vec<char> = (0..9).map(|k| cells[9 * u + k]).collect();
        let mut column: Vec<char> = (0..9).map(|k| cells[9 * k + u]).collect();
        let mut block: Vec<char> = (0..9)
            .map(|k| cells[27 * (u / 3) + 3 * (u % 3) + 9 * (k / 3) + k % 3])
            .collect();
        row.sort();
        column.sort();
        block.sort();
        if row != digits || column != digits || block != digits {
            return false;
        }
    }
    true
}

fn blank_count(text: &str) -> usize {
    text.chars().filter(|c| *c == '-').count()
}

fn agrees(sudoku: &Sudoku) -> bool {
    sudoku.puzzle.chars().count() == 81
        && sudoku
            .puzzle
            .chars()
            .zip(sudoku.solution.chars())
            .all(|(p, s)| p == '-' || p == s)
}

#[test]
fn generated_solution_is_a_solved_sudoku() {
    for difficulty in tiers() {
        for _ in 0..50 {
            let sudoku = generate(difficulty);
            assert_eq!(sudoku.difficulty, difficulty);
            assert!(is_valid_solution(&sudoku.solution), "{}", sudoku.solution);
        }
    }
}

#[test]
fn generated_puzzle_agrees_with_its_solution() {
    for difficulty in tiers() {
        for _ in 0..50 {
            let sudoku = generate(difficulty);
            assert!(agrees(&sudoku));
            assert!(blank_count(&sudoku.puzzle) > 0);
            assert_eq!(blank_count(&sudoku.solution), 0);
        }
    }
}

#[test]
fn generated_puzzle_keeps_the_blank_count_of_a_seed_of_its_tier() {
    for (t, difficulty) in tiers().iter().enumerate() {
        let counts: Vec<usize> = (0..SEEDS_PER_TIER)
            .map(|k| blank_count(seed_at(t * SEEDS_PER_TIER + k).puzzle))
            .collect();
        for _ in 0..50 {
            let sudoku = generate(*difficulty);
            assert!(counts.contains(&blank_count(&sudoku.puzzle)));
        }
    }
}

#[test]
fn two_medium_puzzles_differ() {
    let first = generate(Difficulty::Medium);
    let second = generate(Difficulty::Medium);
    assert_ne!(first.puzzle, second.puzzle);
    assert!(is_valid_solution(&first.solution));
    assert!(is_valid_solution(&second.solution));
}

#[test]
fn the_validity_check_rejects_a_broken_grid() {
    let sudoku = generate(Difficulty::Easy);
    let mut cells: Vec<char> = sudoku.solution.chars().collect();
    cells.swap(0, 1);
    let broken: String = cells.into_iter().collect();
    assert!(!is_valid_solution(&broken));
    assert!(!is_valid_solution(&sudoku.puzzle));
}
