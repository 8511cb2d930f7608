use sudokugen::layout::{get_base_layout, permute_bands, permute_columns, rotate_layout_90};
use sudokugen::render::{board_to_sequence, get_sequence, populate_layout};
use sudokugen::seeds::seed_at;
use sudokugen::symmetry::Layout;
use sudokugen::token::TokenMap;

fn identity_map() -> TokenMap {
    TokenMap::from_ranks(&[0, 1, 2, 3, 4, 5, 6, 7, 8])
}

fn in_digits(text: &str) -> String {
    text.chars()
        .map(|c| match c {
            'a'..='i' => (b'1' + (c as u8 - b'a')) as char,
            _ => '-',
        })
        .collect()
}

fn inverse_of(layout: &Layout) -> Layout {
    let mut inverse = [[0i8; 9]; 9];
    for p in 0..81 {
        let v = layout[p / 9][p % 9] as usize;
        inverse[v / 9][v % 9] = p as i8;
    }
    inverse
}

#[test]
fn populate_layout_places_by_index() {
    let sequence: Vec<char> = (0..81u32).map(|k| char::from_u32(0x100 + k).unwrap()).collect();
    let layout = rotate_layout_90(&get_base_layout());
    let board = populate_layout(&layout, sequence.clone());
    assert_eq!(board.len(), 9);
    for r in 0..9 {
        assert_eq!(board[r].len(), 9);
        for c in 0..9 {
            assert_eq!(board[r][c], sequence[layout[r][c] as usize]);
        }
    }
    assert_eq!(board[0][0], sequence[72]);
    assert_eq!(board[0][8], sequence[0]);
}

#[test]
fn populate_layout_reads_only_what_the_layout_names() {
    let layout = [[1i8; 9]; 9];
    let board = populate_layout(&layout, vec!['x', 'y']);
    for row in board.iter() {
        assert_eq!(row, &vec!['y'; 9]);
    }
}

#[test]
fn board_to_sequence_reads_row_by_row() {
    let board = vec![vec!['1', '2', '3'], vec![], vec!['-'], vec!['8', '9']];
    assert_eq!(board_to_sequence(board), "123-89");
    assert_eq!(board_to_sequence(Vec::new()), "");
}

#[test]
fn identity_rendering_reproduces_the_first_easy_seed() {
    let seed = seed_at(0);
    let base = get_base_layout();
    let puzzle = get_sequence(&base, seed.puzzle, &identity_map());
    let solution = get_sequence(&base, seed.solution, &identity_map());
    assert_eq!(
        puzzle,
        "7--4--316---7----99-6--87-22-9154873--1637--4-7-2-----6-4--123---2------3--8-2691"
    );
    assert_eq!(
        solution,
        "728495316135726489946318752269154873581637924473289165694571238812963547357842691"
    );
    assert_eq!(puzzle, in_digits(seed.puzzle));
    assert_eq!(solution, in_digits(seed.solution));
}

#[test]
fn rendering_has_81_characters_whatever_the_seed_length() {
    let layout = get_base_layout();
    let long = "abcdefghi".repeat(10);
    let rendered = get_sequence(&layout, &long, &identity_map());
    assert_eq!(rendered.chars().count(), 81);
    assert_eq!(rendered, "123456789".repeat(9));
}

#[test]
fn rendering_follows_layout_and_token_map() {
    let seed = seed_at(17);
    let layout = permute_columns(
        &permute_bands(&rotate_layout_90(&get_base_layout()), &[2, 0, 1]),
        &[[1, 0, 2], [2, 1, 0], [0, 2, 1]],
    );
    let token_map = TokenMap::from_ranks(&[3, 1, 4, 0, 5, 8, 2, 6, 7]);
    let rendered: Vec<char> = get_sequence(&layout, seed.puzzle, &token_map).chars().collect();
    let source: Vec<char> = seed.puzzle.chars().collect();
    for p in 0..81 {
        let c = source[layout[p / 9][p % 9] as usize];
        let expected = if c == '-' {
            '-'
        } else {
            token_map.digits[(c as u8 - b'a') as usize]
        };
        assert_eq!(rendered[p], expected);
    }
}

#[test]
fn rendering_and_the_way_back_recover_the_solution() {
    let token_map = TokenMap::from_ranks(&[6, 2, 8, 0, 3, 7, 1, 5, 4]);
    let layout = permute_columns(
        &permute_bands(&rotate_layout_90(&get_base_layout()), &[1, 2, 0]),
        &[[2, 1, 0], [0, 2, 1], [1, 0, 2]],
    );
    let inverse = inverse_of(&layout);
    for index in 0..40 {
        let seed = seed_at(index);
        let rendered = get_sequence(&layout, seed.solution, &token_map);
        let letters: String = rendered
            .chars()
            .map(|d| {
                let k = token_map.digits.iter().position(|x| *x == d).unwrap();
                (b'a' + k as u8) as char
            })
            .collect();
        let back = get_sequence(&inverse, &letters, &identity_map());
        assert_eq!(back, in_digits(seed.solution));
    }
}
