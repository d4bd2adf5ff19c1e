use game_of_life::engine::GameOfLife;

fn game(width: usize, height: usize) -> GameOfLife {
    GameOfLife::new(width, height).expect("non-degenerate dimensions")
}

fn place(game: &mut GameOfLife, x: usize, y: usize, pattern: Vec<Vec<bool>>) {
    game.add_pattern(x, y, &pattern);
}

#[test]
fn new_rejects_zero_width() {
    assert!(GameOfLife::new(0, 10).is_err());
}

#[test]
fn new_rejects_zero_height() {
    assert!(GameOfLife::new(10, 0).is_err());
}

#[test]
fn new_accepts_positive_dimensions() {
    let g = game(10, 7);
    for y in 0..7 {
        for x in 0..10 {
            assert!(!g.cell(x, y));
        }
    }
}

#[test]
fn neighbor_count_center_of_full_grid_is_eight() {
    let mut g = game(3, 3);
    place(&mut g, 0, 0, vec![vec![true; 3], vec![true; 3], vec![true; 3]]);
    assert_eq!(g.count_neighbors(1, 1), 8);
}

#[test]
fn neighbor_count_corner_is_at_most_three() {
    let mut g = game(3, 3);
    place(&mut g, 0, 0, vec![vec![true; 3], vec![true; 3], vec![true; 3]]);
    assert_eq!(g.count_neighbors(0, 0), 3);
    assert_eq!(g.count_neighbors(2, 2), 3);
}

#[test]
fn lone_cell_dies_of_underpopulation() {
    let mut g = game(5, 5);
    place(&mut g, 2, 2, vec![vec![true]]);
    g.update();
    for y in 0..5 {
        for x in 0..5 {
            assert!(!g.cell(x, y));
        }
    }
}

#[test]
fn pair_with_one_neighbor_each_dies() {
    let mut g = game(5, 5);
    place(&mut g, 1, 2, vec![vec![true, true]]);
    g.update();
    assert!(!g.cell(1, 2));
    assert!(!g.cell(2, 2));
}

#[test]
fn live_cell_with_two_neighbors_survives() {
    // The center of a vertical blinker has exactly 2 live neighbors.
    let mut g = game(5, 5);
    g.add_blinker(2, 1);
    assert_eq!(g.count_neighbors(2, 2), 2);
    g.update();
    assert!(g.cell(2, 2));
}

#[test]
fn live_cell_with_three_neighbors_survives() {
    // Every cell of a block has exactly 3 live neighbors.
    let mut g = game(5, 5);
    g.add_block(1, 1);
    assert_eq!(g.count_neighbors(1, 1), 3);
    g.update();
    assert!(g.cell(1, 1));
    assert!(g.cell(2, 1));
    assert!(g.cell(1, 2));
    assert!(g.cell(2, 2));
}

#[test]
fn live_cell_with_four_neighbors_dies_of_overpopulation() {
    // A plus shape: the center has 4 live neighbors.
    let mut g = game(5, 5);
    place(
        &mut g,
        1,
        1,
        vec![
            vec![false, true, false],
            vec![true, true, true],
            vec![false, true, false],
        ],
    );
    assert_eq!(g.count_neighbors(2, 2), 4);
    g.update();
    assert!(!g.cell(2, 2));
}

#[test]
fn dead_cell_with_three_neighbors_is_born() {
    // An L of three cells: the diagonal corner sees all three.
    let mut g = game(5, 5);
    place(&mut g, 1, 1, vec![vec![true, true], vec![true, false]]);
    assert_eq!(g.count_neighbors(2, 2), 3);
    g.update();
    assert!(g.cell(2, 2));
}

#[test]
fn dead_cell_with_two_neighbors_stays_dead() {
    let mut g = game(5, 5);
    place(&mut g, 1, 2, vec![vec![true, true]]);
    assert_eq!(g.count_neighbors(1, 1), 2);
    g.update();
    assert!(!g.cell(1, 1));
}

#[test]
fn blinker_returns_after_two_steps() {
    let mut g = game(5, 5);
    g.add_blinker(2, 1);
    let before = g.current_state.clone();
    g.update();
    g.update();
    assert_eq!(g.current_state, before);
}

#[test]
fn block_is_stable_for_many_steps() {
    let mut g = game(6, 6);
    g.add_block(2, 2);
    let before = g.current_state.clone();
    for _ in 0..10 {
        g.update();
        assert_eq!(g.current_state, before);
    }
}

#[test]
fn glider_translates_one_diagonal_step_in_four_generations() {
    let mut g = game(10, 10);
    g.add_glider(1, 1);
    for _ in 0..4 {
        g.update();
    }
    let mut expected = game(10, 10);
    expected.add_glider(2, 2);
    assert_eq!(g.current_state, expected.current_state);
}

#[test]
fn step_leaves_previous_generation_in_scratch_grid() {
    // The pass is computed entirely from the pre-step snapshot, which the
    // swap then leaves behind in the scratch grid.
    let mut g = game(6, 6);
    g.add_glider(1, 1);
    let before = g.current_state.clone();
    g.update();
    assert_eq!(g.next_state, before);
}
