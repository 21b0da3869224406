//! Tests of the seeded initializer: determinism, density handling and
//! sensitivity to the seed.

use game_of_life::seeding::generate;

#[test]
fn same_parameters_give_identical_cells() {
    let a = generate(64, 64, 42, 30);
    let b = generate(64, 64, 42, 30);
    assert_eq!(a, b);
}

#[test]
fn different_seeds_give_different_cells() {
    let a = generate(64, 64, 1, 50);
    let b = generate(64, 64, 2, 50);
    assert_ne!(a, b);
}

#[test]
fn cells_are_age_zero_or_one() {
    let cells = generate(64, 64, 7, 50);
    assert_eq!(cells.len(), 64 * 64);
    assert!(cells.iter().all(|&c| c == 0 || c == 1));
    // At 50% the draw must produce both dead and live cells.
    assert!(cells.iter().any(|&c| c == 0));
    assert!(cells.iter().any(|&c| c == 1));
}

#[test]
fn density_zero_generates_no_life() {
    let cells = generate(64, 64, 3, 0);
    assert!(cells.iter().all(|&c| c == 0));
}

#[test]
fn density_hundred_generates_only_life() {
    let cells = generate(64, 64, 3, 100);
    assert!(cells.iter().all(|&c| c == 1));
}

#[test]
fn density_scales_live_count() {
    let sparse = generate(128, 128, 9, 5);
    let dense = generate(128, 128, 9, 95);
    let sparse_live = sparse.iter().filter(|&&c| c > 0).count();
    let dense_live = dense.iter().filter(|&&c| c > 0).count();
    let total = 128 * 128;
    // A 5% draw stays well under half, a 95% draw well over.
    assert!(sparse_live < total / 4, "sparse: {}", sparse_live);
    assert!(dense_live > 3 * total / 4, "dense: {}", dense_live);
}
