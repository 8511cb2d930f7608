use sudokugen::random::{permutation_from_draws, random_permutation};

fn is_permutation(order: &[usize]) -> bool {
    let mut seen = vec![false; order.len()];
    for &v in order {
        if v >= order.len() || seen[v] {
            return false;
        }
        seen[v] = true;
    }
    true
}

#[test]
fn no_draws_give_the_single_number() {
    assert_eq!(permutation_from_draws(&[]), vec![0]);
}

#[test]
fn each_draw_exchanges_the_new_number() {
    assert_eq!(permutation_from_draws(&[1, 2, 3]), vec![0, 1, 2, 3]);
    assert_eq!(permutation_from_draws(&[0]), vec![1, 0]);
    assert_eq!(permutation_from_draws(&[0, 0]), vec![2, 0, 1]);
    assert_eq!(permutation_from_draws(&[1, 0]), vec![2, 1, 0]);
    assert_eq!(permutation_from_draws(&[0, 1, 2, 0]), vec![4, 2, 3, 0, 1]);
}

#[test]
fn the_draws_for_three_reach_all_six_orders() {
    let mut found = Vec::new();
    for a in 0..2 {
        for b in 0..3 {
            let order = permutation_from_draws(&[a, b]);
            assert!(is_permutation(&order));
            assert!(!found.contains(&order));
            found.push(order);
        }
    }
    assert_eq!(found.len(), 6);
}

#[test]
fn random_permutation_is_a_permutation() {
    let mut rng = rand::thread_rng();
    assert_eq!(random_permutation(&mut rng, 0), Vec::<usize>::new());
    assert_eq!(random_permutation(&mut rng, 1), vec![0]);
    for n in 2..12 {
        for _ in 0..20 {
            let order = random_permutation(&mut rng, n);
            assert_eq!(order.len(), n);
            assert!(is_permutation(&order));
        }
    }
}

#[test]
fn random_permutation_varies() {
    let mut rng = rand::thread_rng();
    let first = random_permutation(&mut rng, 9);
    let mut differs = false;
    for _ in 0..20 {
        if random_permutation(&mut rng, 9) != first {
            differs = true;
        }
    }
    assert!(differs);
}
