//! Tests of the double-buffered stepping core against an independent
//! sequential oracle, plus known-pattern and alignment checks.

use game_of_life::grid::{GridBufferPair, SetupError};
use game_of_life::rules::{get_rules, Rule};

/// An independent sequential implementation of the same toroidal
/// transition, used as the oracle the stepping core must match.
struct CpuBasedGameOfLife {
    cells: Vec<u32>,
    width: usize,
    height: usize,
}

impl CpuBasedGameOfLife {
    fn live_neighbours_at(&self, x: usize, y: usize) -> u32 {
        let mut result = 0;
        for dx in -1..=1 {
            for dy in -1..=1 {
                if dx == 0 && dy == 0 {
                    continue;
                }
                let n_x = (x as i32 - dx).rem_euclid(self.width as i32) as usize;
                let n_y = (y as i32 - dy).rem_euclid(self.height as i32) as usize;
                if self.cells[n_x + n_y * self.width] > 0 {
                    result += 1;
                }
            }
        }
        result
    }

    fn next_generation(&mut self, rule: &Rule) {
        let mut new_cells = vec![0; self.cells.len()];
        for x in 0..self.width {
            for y in 0..self.height {
                let current_generation = self.cells[x + y * self.width];
                let was_alive = current_generation > 0;
                let num_live_neighbours = self.live_neighbours_at(x, y);
                let new_is_alive =
                    if was_alive { rule.survives } else { rule.born } & (1 << num_live_neighbours) > 0;
                new_cells[x + y * self.width] = if new_is_alive {
                    current_generation + 1
                } else {
                    0
                };
            }
        }
        let _ = std::mem::replace(&mut self.cells, new_cells);
    }
}

fn current_cells(g: &GridBufferPair) -> &Vec<u32> {
    if g.a_is_current {
        &g.buf_a
    } else {
        &g.buf_b
    }
}

#[test]
fn test_computer() {
    for cells_width in [64u32, 128] {
        let cells_height = cells_width;

        let seed = 1;
        let initial_density = 50;
        let rules = get_rules();
        let rule = &rules[0];
        let mut computer =
            GridBufferPair::new(cells_width, cells_height, seed, initial_density).unwrap();

        let cells_data: &[u32] = &computer.buf_a;
        assert_eq!(cells_width as usize * cells_height as usize, cells_data.len());
        let mut cpu_game_of_life = CpuBasedGameOfLife {
            cells: cells_data.to_vec(),
            width: cells_width as usize,
            height: cells_height as usize,
        };

        assert!(computer.a_is_current);
        for iteration in 0..100 {
            computer.step(rule);
            assert!(computer.a_is_current == (iteration % 2 == 1));

            cpu_game_of_life.next_generation(rule);
            assert_eq!(
                &cpu_game_of_life.cells[..],
                &current_cells(&computer)[..],
                "Iteration: {}",
                iteration
            );
        }
    }
}

/// The concrete scenario: a 64 by 64 grid under the first catalog rule
/// (birth mask 0b1000, survival mask 0b1100), seed 1, density 50%,
/// run for 100 generations, must equal the sequential oracle cell for cell.
#[test]
fn hundred_generations_match_oracle() {
    let rules = get_rules();
    let rule = &rules[0];
    assert_eq!(rule.born, 0b1000);
    assert_eq!(rule.survives, 0b1100);

    let mut pair = GridBufferPair::new(64, 64, 1, 50).unwrap();
    let mut oracle = CpuBasedGameOfLife {
        cells: pair.buf_a.clone(),
        width: 64,
        height: 64,
    };
    for _ in 0..100 {
        pair.step(rule);
        oracle.next_generation(rule);
    }
    assert_eq!(&oracle.cells[..], &current_cells(&pair)[..]);
}

#[test]
fn blinker_oscillates() {
    // All-dead 64x64 grid under the first rule (density 0 generates no
    // live cells), with a horizontal blinker placed by hand.
    let rules = get_rules();
    let rule = &rules[0];
    let mut pair = GridBufferPair::new(64, 64, 0, 0).unwrap();
    assert!(pair.buf_a.iter().all(|&c| c == 0));
    for x in [1usize, 2, 3] {
        pair.buf_a[2 * 64 + x] = 1;
    }

    pair.step(rule);
    let after_one: Vec<(usize, usize)> = live_coords(current_cells(&pair), 64);
    assert_eq!(after_one, vec![(2, 1), (2, 2), (2, 3)]);

    pair.step(rule);
    let after_two: Vec<(usize, usize)> = live_coords(current_cells(&pair), 64);
    assert_eq!(after_two, vec![(1, 2), (2, 2), (3, 2)]);
    // The surviving center cell has aged to 3; the freshly born ends are 1.
    assert_eq!(current_cells(&pair)[2 * 64 + 2], 3);
    assert_eq!(current_cells(&pair)[2 * 64 + 1], 1);
}

fn live_coords(cells: &[u32], width: usize) -> Vec<(usize, usize)> {
    let mut v = Vec::new();
    for (i, &c) in cells.iter().enumerate() {
        if c > 0 {
            v.push((i % width, i / width));
        }
    }
    v
}

#[test]
fn toroidal_wrap_at_corner() {
    // A single live cell at the corner; a rule that births on exactly one
    // live neighbor and never survives. After one step exactly the 8
    // toroidally wrapped neighbors of the corner are alive.
    let rule = Rule {
        born: 0b10,
        survives: 0,
        initial_density: 1,
        name: "",
    };
    let mut pair = GridBufferPair::new(64, 64, 0, 0).unwrap();
    pair.buf_a[0] = 1;
    pair.step(&rule);
    let live = live_coords(current_cells(&pair), 64);
    let mut expected = vec![
        (1, 0),
        (63, 0),
        (0, 1),
        (1, 1),
        (63, 1),
        (0, 63),
        (1, 63),
        (63, 63),
    ];
    expected.sort();
    let mut got = live;
    got.sort();
    assert_eq!(got, expected);
}

#[test]
fn misaligned_sizes_are_rejected() {
    assert!(matches!(
        GridBufferPair::new(63, 64, 0, 50),
        Err(SetupError::AlignmentViolation)
    ));
    assert!(matches!(
        GridBufferPair::new(64, 60, 0, 50),
        Err(SetupError::AlignmentViolation)
    ));
    assert!(matches!(
        GridBufferPair::new(0, 64, 0, 50),
        Err(SetupError::AlignmentViolation)
    ));
    assert!(matches!(
        GridBufferPair::new(64, 0, 0, 50),
        Err(SetupError::AlignmentViolation)
    ));
    assert!(GridBufferPair::new(64, 64, 0, 50).is_ok());
}

#[test]
fn workgroup_counts_cover_grid_exactly() {
    let pair = GridBufferPair::new(64, 128, 0, 50).unwrap();
    let (cx, cy) = pair.workgroup_counts();
    assert_eq!((cx, cy), (8, 16));
    assert_eq!(cx * 8, 64);
    assert_eq!(cy * 8, 128);
}
