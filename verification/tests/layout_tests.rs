use sudokugen::layout::{
    collect_row, collect_rows, get_base_layout, get_layout, get_layout_bands, permute_bands,
    permute_columns, permute_rows, permute_stacks, rotate_layout, rotate_layout_180,
    rotate_layout_270, rotate_layout_90, rotate_layout_by, shuffle_layout, shuffle_layout_bands,
    shuffle_layout_columns, shuffle_layout_rows, shuffle_layout_stacks,
};
use sudokugen::symmetry::Layout;

fn is_bijection(layout: &Layout) -> bool {
    let mut seen = [false; 81];
    for row in layout.iter() {
        for cell in row.iter() {
            if *cell < 0 || *cell > 80 || seen[*cell as usize] {
                return false;
            }
            seen[*cell as usize] = true;
        }
    }
    true
}

fn share_a_unit(a: usize, b: usize) -> bool {
    let (ra, ca, rb, cb) = (a / 9, a % 9, b / 9, b % 9);
    ra == rb || ca == cb || (ra / 3 == rb / 3 && ca / 3 == cb / 3)
}

fn keeps_units(layout: &Layout) -> bool {
    for p in 0..81 {
        for q in 0..81 {
            if p != q && share_a_unit(p, q) {
                let a = layout[p / 9][p % 9] as usize;
                let b = layout[q / 9][q % 9] as usize;
                if a == b || !share_a_unit(a, b) {
                    return false;
                }
            }
        }
    }
    true
}

#[test]
fn base_layout_is_row_major() {
    let base = get_base_layout();
    for r in 0..9 {
        for c in 0..9 {
            assert_eq!(base[r][c] as usize, 9 * r + c);
        }
    }
    assert!(is_bijection(&base));
    assert!(keeps_units(&base));
}

#[test]
fn collect_row_fills_from_the_left() {
    assert_eq!(collect_row(Vec::new().into_iter()), [0; 9]);
    assert_eq!(collect_row(vec![7, 8, 9].into_iter()), [7, 8, 9, 0, 0, 0, 0, 0, 0]);
    assert_eq!(
        collect_row((1..=9).rev()),
        [9, 8, 7, 6, 5, 4, 3, 2, 1]
    );
    let base = get_base_layout();
    assert_eq!(
        collect_row(base.iter().map(|row| row[2]).rev()),
        [74, 65, 56, 47, 38, 29, 20, 11, 2]
    );
}

#[test]
fn collect_rows_fills_from_the_top() {
    let base = get_base_layout();
    assert_eq!(collect_rows(Vec::new().into_iter()), [[0; 9]; 9]);
    let two = collect_rows(vec![base[4], base[1]].into_iter());
    assert_eq!(two[0], base[4]);
    assert_eq!(two[1], base[1]);
    for r in 2..9 {
        assert_eq!(two[r], [0; 9]);
    }
    assert_eq!(collect_rows(base.iter().copied()), base);
    let bands = get_layout_bands(&base);
    assert_eq!(collect_rows(bands.iter().flatten().cloned()), base);
}

#[test]
fn quarter_turn_takes_from_the_left_column_upwards() {
    let turned = rotate_layout_90(&get_base_layout());
    assert_eq!(turned[0], [72, 63, 54, 45, 36, 27, 18, 9, 0]);
    assert_eq!(turned[8], [80, 71, 62, 53, 44, 35, 26, 17, 8]);
    let base = get_base_layout();
    for r in 0..9 {
        for c in 0..9 {
            assert_eq!(turned[r][c], base[8 - c][r]);
        }
    }
}

#[test]
fn half_turn_reverses_rows_and_columns() {
    let turned = rotate_layout_180(&get_base_layout());
    assert_eq!(turned[0], [80, 79, 78, 77, 76, 75, 74, 73, 72]);
    assert_eq!(turned[8], [8, 7, 6, 5, 4, 3, 2, 1, 0]);
    assert_eq!(turned[4][4], 40);
}

#[test]
fn three_quarter_turn_takes_from_the_right_column_downwards() {
    let turned = rotate_layout_270(&get_base_layout());
    assert_eq!(turned[0], [8, 17, 26, 35, 44, 53, 62, 71, 80]);
    assert_eq!(turned[8], [0, 9, 18, 27, 36, 45, 54, 63, 72]);
}

#[test]
fn turns_add_up() {
    let base = get_base_layout();
    let once = rotate_layout_90(&base);
    assert_eq!(rotate_layout_90(&once), rotate_layout_180(&base));
    assert_eq!(rotate_layout_90(&rotate_layout_180(&base)), rotate_layout_270(&base));
    assert_eq!(rotate_layout_270(&once), base);
    assert_eq!(rotate_layout_180(&rotate_layout_180(&base)), base);
}

#[test]
fn four_quarter_turns_restore_the_layout() {
    let base = get_base_layout();
    let once = rotate_layout_90(&base);
    assert_ne!(once, base);
    let back = rotate_layout_90(&rotate_layout_90(&rotate_layout_90(&once)));
    assert_eq!(back, base);

    let shuffled = permute_rows(
        &permute_stacks(&base, &[1, 2, 0]),
        &[[2, 0, 1], [0, 1, 2], [1, 0, 2]],
    );
    let mut turned = shuffled;
    for _ in 0..4 {
        turned = rotate_layout_90(&turned);
    }
    assert_eq!(turned, shuffled);
}

#[test]
fn rotate_layout_by_picks_the_turn() {
    let base = get_base_layout();
    assert_eq!(rotate_layout_by(&base, 0), base);
    assert_eq!(rotate_layout_by(&base, 1), rotate_layout_90(&base));
    assert_eq!(rotate_layout_by(&base, 2), rotate_layout_180(&base));
    assert_eq!(rotate_layout_by(&base, 3), rotate_layout_270(&base));
}

#[test]
fn rotate_layout_gives_one_of_the_four_turns() {
    let base = get_base_layout();
    let mut rng = rand::thread_rng();
    for _ in 0..40 {
        let turned = rotate_layout(&base, &mut rng);
        assert!(
            turned == base
                || turned == rotate_layout_90(&base)
                || turned == rotate_layout_180(&base)
                || turned == rotate_layout_270(&base)
        );
    }
}

#[test]
fn bands_are_three_rows_each() {
    let base = get_base_layout();
    let bands = get_layout_bands(&base);
    for b in 0..3 {
        for k in 0..3 {
            assert_eq!(bands[b][k], base[3 * b + k]);
        }
    }
    assert_eq!(bands[1][2], [45, 46, 47, 48, 49, 50, 51, 52, 53]);
}

#[test]
fn permute_bands_moves_whole_bands() {
    let base = get_base_layout();
    let moved = permute_bands(&base, &[2, 0, 1]);
    let expected = [
        base[6], base[7], base[8], base[0], base[1], base[2], base[3], base[4], base[5],
    ];
    assert_eq!(moved, expected);
    assert_eq!(permute_bands(&base, &[0, 1, 2]), base);
    assert!(is_bijection(&moved));
    assert!(keeps_units(&moved));
}

#[test]
fn permute_rows_keeps_every_row_in_its_band() {
    let base = get_base_layout();
    let moved = permute_rows(&base, &[[1, 2, 0], [0, 1, 2], [2, 1, 0]]);
    let expected = [
        base[1], base[2], base[0], base[3], base[4], base[5], base[8], base[7], base[6],
    ];
    assert_eq!(moved, expected);
    for r in 0..9 {
        assert_eq!((moved[r][0] as usize / 9) / 3, r / 3);
    }
    assert!(is_bijection(&moved));
    assert!(keeps_units(&moved));
}

#[test]
fn permute_stacks_moves_whole_stacks() {
    let base = get_base_layout();
    let moved = permute_stacks(&base, &[1, 2, 0]);
    assert_eq!(moved[0], [3, 4, 5, 6, 7, 8, 0, 1, 2]);
    for r in 0..9 {
        for c in 0..9 {
            let from = [1, 2, 0][c / 3] * 3 + c % 3;
            assert_eq!(moved[r][c], base[r][from]);
        }
    }
    assert!(is_bijection(&moved));
    assert!(keeps_units(&moved));
}

#[test]
fn permute_columns_keeps_every_column_in_its_stack() {
    let base = get_base_layout();
    let moved = permute_columns(&base, &[[2, 1, 0], [1, 0, 2], [0, 1, 2]]);
    assert_eq!(moved[0], [2, 1, 0, 4, 3, 5, 6, 7, 8]);
    assert_eq!(moved[5], [47, 46, 45, 49, 48, 50, 51, 52, 53]);
    for c in 0..9 {
        assert_eq!((moved[0][c] as usize % 9) / 3, c / 3);
    }
    assert!(is_bijection(&moved));
    assert!(keeps_units(&moved));
}

#[test]
fn a_repeated_band_is_no_bijection() {
    let moved = permute_bands(&get_base_layout(), &[1, 1, 2]);
    assert_eq!(moved[0], moved[3]);
    assert!(!is_bijection(&moved));
}

#[test]
fn shuffle_layout_rows_moves_whole_bands() {
    let base = get_base_layout();
    let mut rng = rand::thread_rng();
    for _ in 0..40 {
        let moved = shuffle_layout_rows(&base, &mut rng);
        for b in 0..3 {
            let from = moved[3 * b][0] as usize / 27;
            for k in 0..3 {
                assert_eq!(moved[3 * b + k], base[3 * from + k]);
            }
        }
        assert!(is_bijection(&moved));
    }
}

#[test]
fn shuffle_layout_columns_moves_whole_stacks() {
    let base = get_base_layout();
    let mut rng = rand::thread_rng();
    for _ in 0..40 {
        let moved = shuffle_layout_columns(&base, &mut rng);
        for r in 0..9 {
            for c in 0..9 {
                let from = moved[0][3 * (c / 3)] as usize / 3;
                assert_eq!(moved[r][c] as usize, 9 * r + 3 * from + c % 3);
            }
        }
        assert!(is_bijection(&moved));
    }
}

#[test]
fn shuffle_layout_bands_keeps_rows_in_their_band() {
    let base = get_base_layout();
    let mut rng = rand::thread_rng();
    for _ in 0..40 {
        let moved = shuffle_layout_bands(&base, &mut rng);
        for r in 0..9 {
            let from = moved[r][0] as usize / 9;
            assert_eq!(from / 3, r / 3);
            assert_eq!(moved[r], base[from]);
        }
        assert!(is_bijection(&moved));
    }
}

#[test]
fn shuffle_layout_stacks_keeps_columns_in_their_stack() {
    let base = get_base_layout();
    let mut rng = rand::thread_rng();
    for _ in 0..40 {
        let moved = shuffle_layout_stacks(&base, &mut rng);
        for c in 0..9 {
            let from = moved[0][c] as usize;
            assert_eq!(from / 3, c / 3);
            for r in 0..9 {
                assert_eq!(moved[r][c] as usize, 9 * r + from);
            }
        }
        assert!(is_bijection(&moved));
    }
}

#[test]
fn shuffle_layout_keeps_rows_rows() {
    let base = get_base_layout();
    let mut rng = rand::thread_rng();
    for _ in 0..40 {
        let moved = shuffle_layout(&base, &mut rng);
        assert!(is_bijection(&moved));
        assert!(keeps_units(&moved));
        for r in 0..9 {
            for c in 0..9 {
                assert_eq!(moved[r][c] as usize / 9, moved[r][0] as usize / 9);
                assert_eq!(moved[r][c] as usize % 9, moved[0][c] as usize % 9);
            }
        }
    }
}

#[test]
fn get_layout_is_a_bijection_that_keeps_units() {
    let base = get_base_layout();
    let mut rng = rand::thread_rng();
    for _ in 0..100 {
        let layout = get_layout(&base, &mut rng);
        assert!(is_bijection(&layout));
        assert!(keeps_units(&layout));
    }
}

#[test]
fn get_layout_varies() {
    let base = get_base_layout();
    let mut rng = rand::thread_rng();
    let first = get_layout(&base, &mut rng);
    let mut differs = false;
    for _ in 0..20 {
        if get_layout(&base, &mut rng) != first {
            differs = true;
        }
    }
    assert!(differs);
}
