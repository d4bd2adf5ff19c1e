use game_of_life::engine::GameOfLife;
use game_of_life::framebuffer::{BLACK, WHITE};

fn game(width: usize, height: usize) -> GameOfLife {
    GameOfLife::new(width, height).expect("non-degenerate dimensions")
}

#[test]
fn placement_overwrites_the_whole_footprint() {
    // Stamping the tub over a block erases the block cells under the tub's
    // dead cells: placement is a full overwrite, not an additive set.
    let mut g = game(6, 6);
    g.add_block(1, 1);
    assert!(g.cell(1, 1));
    g.add_tub(1, 1);
    assert!(!g.cell(1, 1));
    assert!(g.cell(2, 1));
    assert!(g.cell(1, 2));
}

#[test]
fn placement_clips_at_the_far_edge() {
    // A block stamped at the far corner writes only its in-bounds cell and
    // neither panics nor wraps to the opposite edge.
    let mut g = game(8, 6);
    g.add_block(7, 5);
    assert!(g.cell(7, 5));
    assert!(!g.cell(0, 0));
    assert!(!g.cell(0, 5));
    assert!(!g.cell(7, 0));
    assert!(!g.cell(6, 5));
    assert!(!g.cell(7, 4));
}

#[test]
fn placement_beyond_the_edge_writes_nothing() {
    let mut g = game(8, 6);
    g.add_glider(8, 6);
    for y in 0..6 {
        for x in 0..8 {
            assert!(!g.cell(x, y));
        }
    }
}

#[test]
fn blinker_pattern_is_vertical() {
    let mut g = game(5, 5);
    g.add_blinker(2, 1);
    assert!(g.cell(2, 1));
    assert!(g.cell(2, 2));
    assert!(g.cell(2, 3));
    assert!(!g.cell(1, 2));
    assert!(!g.cell(3, 2));
}

#[test]
fn seeding_script_places_the_catalog() {
    let mut g = game(100, 75);
    g.initialize_with_patterns();
    // Block at (5, 5).
    assert!(g.cell(5, 5));
    assert!(g.cell(6, 5));
    assert!(g.cell(5, 6));
    assert!(g.cell(6, 6));
    // Blinker at (35, 5) is vertical.
    assert!(g.cell(35, 5));
    assert!(g.cell(35, 6));
    assert!(g.cell(35, 7));
    // Gosper glider gun at (60, 55): its first row's only live cell is at
    // offset 24.
    assert!(g.cell(84, 55));
    assert!(!g.cell(83, 55));
    // Far corners stay empty.
    assert!(!g.cell(0, 0));
    assert!(!g.cell(99, 0));
    assert!(!g.cell(0, 74));
}

#[test]
fn seeding_script_scatters_only_inside_the_band() {
    // The scattered cells land in x 5..95, y 35..50; rows 30..35 hold no
    // catalog pattern in columns 0..25, so they must stay empty on every
    // run.
    let mut g = game(100, 75);
    g.initialize_with_patterns();
    for y in 30..35 {
        for x in 0..25 {
            assert!(!g.cell(x, y));
        }
    }
    // Row 53 carries no catalog pattern in columns 0..25 either.
    for x in 0..25 {
        assert!(!g.cell(x, 53));
    }
}

#[test]
fn seeding_script_syncs_the_framebuffer() {
    let mut g = game(100, 75);
    g.initialize_with_patterns();
    for y in 0..75 {
        for x in 0..100 {
            let expected = if g.cell(x, y) { WHITE } else { BLACK };
            assert_eq!(g.framebuffer.get_color(x, y), expected);
        }
    }
}

#[test]
fn scaled_buffer_renders_live_cells_as_white_blocks() {
    let mut g = game(2, 2);
    g.add_pattern(0, 0, &vec![vec![true]]);
    g.update_framebuffer();
    let scaled = g.get_scaled_buffer(4, 4);
    assert_eq!(scaled.len(), 16);
    for dy in 0..4 {
        for dx in 0..4 {
            let expected = if dx < 2 && dy < 2 { WHITE } else { BLACK };
            assert_eq!(scaled[dy * 4 + dx], expected);
        }
    }
}
