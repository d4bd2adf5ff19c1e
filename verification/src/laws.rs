//! Laws of the simulation that relate the pattern catalog to the transition
//! rule: the block is a still life under arbitrarily many generations, the
//! blinker oscillates with period 2, and the glider translates by one
//! diagonal cell every four generations, wherever they are placed with
//! enough room in bounds.

use crate::grid::{live_at, neighbor_count, next_cell, step_grid, step_grid_n};
use crate::patterns::{blinker_cells, block_cells, empty_cells, glider_cells, place_spec};
use vstd::prelude::*;

verus! {

/// The grid holding exactly a block with its top-left corner at `(sx, sy)`:
/// a cell is live exactly when it lies in the 2x2 square.
proof fn lemma_block_grid_shape(width: nat, height: nat, sx: int, sy: int)
    requires
        0 <= sx,
        0 <= sy,
        sx + 2 <= width,
        sy + 2 <= height,
    ensures
        forall|i: int, j: int|
            0 <= i < width && 0 <= j < height ==> (#[trigger] place_spec(
                empty_cells(width, height),
                block_cells(),
                sx,
                sy,
            )[j][i] <==> (sx <= i < sx + 2 && sy <= j < sy + 2)),
{
    let g = place_spec(empty_cells(width, height), block_cells(), sx, sy);
    assert forall|i: int, j: int| 0 <= i < width && 0 <= j < height implies (#[trigger] g[j][i]
        <==> (sx <= i < sx + 2 && sy <= j < sy + 2)) by {
        if sx <= i < sx + 2 && sy <= j < sy + 2 {
            assert(g[j][i] == block_cells()[j - sy][i - sx]);
        }
    }
}

/// Block stability, one generation: a lone 2x2 block whose footprint lies in
/// bounds is unchanged by a step. Each block cell has exactly 3 live
/// neighbors and survives; every other cell sees at most 2 and stays dead.
pub proof fn lemma_block_stability(width: nat, height: nat, sx: int, sy: int)
    requires
        0 <= sx,
        0 <= sy,
        sx + 2 <= width,
        sy + 2 <= height,
    ensures
        step_grid(place_spec(empty_cells(width, height), block_cells(), sx, sy), width, height)
            == place_spec(empty_cells(width, height), block_cells(), sx, sy),
{
    let g = place_spec(empty_cells(width, height), block_cells(), sx, sy);
    let w = width as int;
    let h = height as int;
    lemma_block_grid_shape(width, height, sx, sy);
    assert forall|x: int, y: int| 0 <= x < w && 0 <= y < h implies #[trigger] step_grid(
        g,
        width,
        height,
    )[y][x] == g[y][x] by {
        assert(live_at(g, w, h, x - 1, y - 1) <==> (sx <= x - 1 < sx + 2 && sy <= y - 1 < sy + 2));
        assert(live_at(g, w, h, x, y - 1) <==> (sx <= x < sx + 2 && sy <= y - 1 < sy + 2));
        assert(live_at(g, w, h, x + 1, y - 1) <==> (sx <= x + 1 < sx + 2 && sy <= y - 1 < sy + 2));
        assert(live_at(g, w, h, x - 1, y) <==> (sx <= x - 1 < sx + 2 && sy <= y < sy + 2));
        assert(live_at(g, w, h, x + 1, y) <==> (sx <= x + 1 < sx + 2 && sy <= y < sy + 2));
        assert(live_at(g, w, h, x - 1, y + 1) <==> (sx <= x - 1 < sx + 2 && sy <= y + 1 < sy + 2));
        assert(live_at(g, w, h, x, y + 1) <==> (sx <= x < sx + 2 && sy <= y + 1 < sy + 2));
        assert(live_at(g, w, h, x + 1, y + 1) <==> (sx <= x + 1 < sx + 2 && sy <= y + 1 < sy + 2));
        assert(step_grid(g, width, height)[y][x] == next_cell(
            g[y][x],
            neighbor_count(g, w, h, x, y),
        ));
    }
    assert(step_grid(g, width, height) =~~= g);
}

/// Block stability, any number of generations: the still life persists
/// through every number of steps.
pub proof fn lemma_block_stability_many(width: nat, height: nat, sx: int, sy: int, n: nat)
    requires
        0 <= sx,
        0 <= sy,
        sx + 2 <= width,
        sy + 2 <= height,
    ensures
        step_grid_n(place_spec(empty_cells(width, height), block_cells(), sx, sy), width, height, n)
            == place_spec(empty_cells(width, height), block_cells(), sx, sy),
    decreases n,
{
    if n > 0 {
        lemma_block_stability_many(width, height, sx, sy, (n - 1) as nat);
        lemma_block_stability(width, height, sx, sy);
    }
}

/// Blinker oscillation: a lone vertical blinker placed at `(sx, sy)`, with
/// one column of swing room on either side in bounds, returns to exactly the
/// same grid after two steps (period-2 oscillation).
pub proof fn lemma_blinker_oscillation(width: nat, height: nat, sx: int, sy: int)
    requires
        1 <= sx,
        sx + 2 <= width,
        0 <= sy,
        sy + 3 <= height,
    ensures
        step_grid(
            step_grid(place_spec(empty_cells(width, height), blinker_cells(), sx, sy), width, height),
            width,
            height,
        ) == place_spec(empty_cells(width, height), blinker_cells(), sx, sy),
{
    let g = place_spec(empty_cells(width, height), blinker_cells(), sx, sy);
    let w = width as int;
    let h = height as int;
    let m = step_grid(g, width, height);
    assert forall|i: int, j: int| 0 <= i < w && 0 <= j < h implies (#[trigger] g[j][i] <==> (i
        == sx && sy <= j < sy + 3)) by {
        if i == sx && sy <= j < sy + 3 {
            assert(g[j][i] == blinker_cells()[j - sy][i - sx]);
        }
    }
    assert forall|i: int, j: int| 0 <= i < w && 0 <= j < h implies (#[trigger] m[j][i] <==> (j
        == sy + 1 && sx - 1 <= i < sx + 2)) by {
        assert(live_at(g, w, h, i - 1, j - 1) <==> (i - 1 == sx && sy <= j - 1 < sy + 3));
        assert(live_at(g, w, h, i, j - 1) <==> (i == sx && sy <= j - 1 < sy + 3));
        assert(live_at(g, w, h, i + 1, j - 1) <==> (i + 1 == sx && sy <= j - 1 < sy + 3));
        assert(live_at(g, w, h, i - 1, j) <==> (i - 1 == sx && sy <= j < sy + 3));
        assert(live_at(g, w, h, i + 1, j) <==> (i + 1 == sx && sy <= j < sy + 3));
        assert(live_at(g, w, h, i - 1, j + 1) <==> (i - 1 == sx && sy <= j + 1 < sy + 3));
        assert(live_at(g, w, h, i, j + 1) <==> (i == sx && sy <= j + 1 < sy + 3));
        assert(live_at(g, w, h, i + 1, j + 1) <==> (i + 1 == sx && sy <= j + 1 < sy + 3));
        assert(m[j][i] == next_cell(g[j][i], neighbor_count(g, w, h, i, j)));
    }
    assert forall|i: int, j: int| 0 <= i < w && 0 <= j < h implies #[trigger] step_grid(
        m,
        width,
        height,
    )[j][i] == g[j][i] by {
        assert(live_at(m, w, h, i - 1, j - 1) <==> (j - 1 == sy + 1 && sx - 1 <= i - 1 < sx + 2));
        assert(live_at(m, w, h, i, j - 1) <==> (j - 1 == sy + 1 && sx - 1 <= i < sx + 2));
        assert(live_at(m, w, h, i + 1, j - 1) <==> (j - 1 == sy + 1 && sx - 1 <= i + 1 < sx + 2));
        assert(live_at(m, w, h, i - 1, j) <==> (j == sy + 1 && sx - 1 <= i - 1 < sx + 2));
        assert(live_at(m, w, h, i + 1, j) <==> (j == sy + 1 && sx - 1 <= i + 1 < sx + 2));
        assert(live_at(m, w, h, i - 1, j + 1) <==> (j + 1 == sy + 1 && sx - 1 <= i - 1 < sx + 2));
        assert(live_at(m, w, h, i, j + 1) <==> (j + 1 == sy + 1 && sx - 1 <= i < sx + 2));
        assert(live_at(m, w, h, i + 1, j + 1) <==> (j + 1 == sy + 1 && sx - 1 <= i + 1 < sx + 2));
        assert(step_grid(m, width, height)[j][i] == next_cell(
            m[j][i],
            neighbor_count(m, w, h, i, j),
        ));
    }
    assert(step_grid(m, width, height) =~~= g);
}

/// Glider translation: a lone glider placed with a 4x4 box of room in
/// bounds reproduces its exact shape translated by (+1, +1) after four
/// generations, as the synchronous double-buffered update dictates.
#[verifier::rlimit(100)]
pub proof fn lemma_glider_translation(width: nat, height: nat, sx: int, sy: int)
    requires
        0 <= sx,
        0 <= sy,
        sx + 4 <= width,
        sy + 4 <= height,
    ensures
        step_grid_n(place_spec(empty_cells(width, height), glider_cells(), sx, sy), width, height, 4)
            == place_spec(empty_cells(width, height), glider_cells(), sx + 1, sy + 1),
{
    let w = width as int;
    let h = height as int;
    let g0 = place_spec(empty_cells(width, height), glider_cells(), sx, sy);
    let g1 = step_grid(g0, width, height);
    let g2 = step_grid(g1, width, height);
    let g3 = step_grid(g2, width, height);
    let g4 = step_grid(g3, width, height);
    assert forall|i: int, j: int| 0 <= i < w && 0 <= j < h implies (#[trigger] g0[j][i] <==> ((i == sx && j == sy + 2) || (i == sx + 1 && j == sy) || (i == sx + 1 && j == sy + 2) || (i == sx + 2 && j == sy + 1) || (i == sx + 2 && j == sy + 2))) by {
        if sx <= i < sx + 3 && sy <= j < sy + 3 {
            assert(g0[j][i] == glider_cells()[j - sy][i - sx]);
        }
    }
    assert forall|i: int, j: int| 0 <= i < w && 0 <= j < h implies (#[trigger] g1[j][i] <==> ((i == sx && j == sy + 1) || (i == sx + 1 && j == sy + 2) || (i == sx + 1 && j == sy + 3) || (i == sx + 2 && j == sy + 1) || (i == sx + 2 && j == sy + 2))) by {
        assert(live_at(g0, w, h, i - 1, j - 1) <==> ((i - 1 == sx && j - 1 == sy + 2) || (i - 1 == sx + 1 && j - 1 == sy) || (i - 1 == sx + 1 && j - 1 == sy + 2) || (i - 1 == sx + 2 && j - 1 == sy + 1) || (i - 1 == sx + 2 && j - 1 == sy + 2)));
        assert(live_at(g0, w, h, i, j - 1) <==> ((i == sx && j - 1 == sy + 2) || (i == sx + 1 && j - 1 == sy) || (i == sx + 1 && j - 1 == sy + 2) || (i == sx + 2 && j - 1 == sy + 1) || (i == sx + 2 && j - 1 == sy + 2)));
        assert(live_at(g0, w, h, i + 1, j - 1) <==> ((i + 1 == sx && j - 1 == sy + 2) || (i + 1 == sx + 1 && j - 1 == sy) || (i + 1 == sx + 1 && j - 1 == sy + 2) || (i + 1 == sx + 2 && j - 1 == sy + 1) || (i + 1 == sx + 2 && j - 1 == sy + 2)));
        assert(live_at(g0, w, h, i - 1, j) <==> ((i - 1 == sx && j == sy + 2) || (i - 1 == sx + 1 && j == sy) || (i - 1 == sx + 1 && j == sy + 2) || (i - 1 == sx + 2 && j == sy + 1) || (i - 1 == sx + 2 && j == sy + 2)));
        assert(live_at(g0, w, h, i + 1, j) <==> ((i + 1 == sx && j == sy + 2) || (i + 1 == sx + 1 && j == sy) || (i + 1 == sx + 1 && j == sy + 2) || (i + 1 == sx + 2 && j == sy + 1) || (i + 1 == sx + 2 && j == sy + 2)));
        assert(live_at(g0, w, h, i - 1, j + 1) <==> ((i - 1 == sx && j + 1 == sy + 2) || (i - 1 == sx + 1 && j + 1 == sy) || (i - 1 == sx + 1 && j + 1 == sy + 2) || (i - 1 == sx + 2 && j + 1 == sy + 1) || (i - 1 == sx + 2 && j + 1 == sy + 2)));
        assert(live_at(g0, w, h, i, j + 1) <==> ((i == sx && j + 1 == sy + 2) || (i == sx + 1 && j + 1 == sy) || (i == sx + 1 && j + 1 == sy + 2) || (i == sx + 2 && j + 1 == sy + 1) || (i == sx + 2 && j + 1 == sy + 2)));
        assert(live_at(g0, w, h, i + 1, j + 1) <==> ((i + 1 == sx && j + 1 == sy + 2) || (i + 1 == sx + 1 && j + 1 == sy) || (i + 1 == sx + 1 && j + 1 == sy + 2) || (i + 1 == sx + 2 && j + 1 == sy + 1) || (i + 1 == sx + 2 && j + 1 == sy + 2)));
        assert(g1[j][i] == next_cell(g0[j][i], neighbor_count(g0, w, h, i, j)));
    }
    assert forall|i: int, j: int| 0 <= i < w && 0 <= j < h implies (#[trigger] g2[j][i] <==> ((i == sx && j == sy + 2) || (i == sx + 1 && j == sy + 3) || (i == sx + 2 && j == sy + 1) || (i == sx + 2 && j == sy + 2) || (i == sx + 2 && j == sy + 3))) by {
        assert(live_at(g1, w, h, i - 1, j - 1) <==> ((i - 1 == sx && j - 1 == sy + 1) || (i - 1 == sx + 1 && j - 1 == sy + 2) || (i - 1 == sx + 1 && j - 1 == sy + 3) || (i - 1 == sx + 2 && j - 1 == sy + 1) || (i - 1 == sx + 2 && j - 1 == sy + 2)));
        assert(live_at(g1, w, h, i, j - 1) <==> ((i == sx && j - 1 == sy + 1) || (i == sx + 1 && j - 1 == sy + 2) || (i == sx + 1 && j - 1 == sy + 3) || (i == sx + 2 && j - 1 == sy + 1) || (i == sx + 2 && j - 1 == sy + 2)));
        assert(live_at(g1, w, h, i + 1, j - 1) <==> ((i + 1 == sx && j - 1 == sy + 1) || (i + 1 == sx + 1 && j - 1 == sy + 2) || (i + 1 == sx + 1 && j - 1 == sy + 3) || (i + 1 == sx + 2 && j - 1 == sy + 1) || (i + 1 == sx + 2 && j - 1 == sy + 2)));
        assert(live_at(g1, w, h, i - 1, j) <==> ((i - 1 == sx && j == sy + 1) || (i - 1 == sx + 1 && j == sy + 2) || (i - 1 == sx + 1 && j == sy + 3) || (i - 1 == sx + 2 && j == sy + 1) || (i - 1 == sx + 2 && j == sy + 2)));
        assert(live_at(g1, w, h, i + 1, j) <==> ((i + 1 == sx && j == sy + 1) || (i + 1 == sx + 1 && j == sy + 2) || (i + 1 == sx + 1 && j == sy + 3) || (i + 1 == sx + 2 && j == sy + 1) || (i + 1 == sx + 2 && j == sy + 2)));
        assert(live_at(g1, w, h, i - 1, j + 1) <==> ((i - 1 == sx && j + 1 == sy + 1) || (i - 1 == sx + 1 && j + 1 == sy + 2) || (i - 1 == sx + 1 && j + 1 == sy + 3) || (i - 1 == sx + 2 && j + 1 == sy + 1) || (i - 1 == sx + 2 && j + 1 == sy + 2)));
        assert(live_at(g1, w, h, i, j + 1) <==> ((i == sx && j + 1 == sy + 1) || (i == sx + 1 && j + 1 == sy + 2) || (i == sx + 1 && j + 1 == sy + 3) || (i == sx + 2 && j + 1 == sy + 1) || (i == sx + 2 && j + 1 == sy + 2)));
        assert(live_at(g1, w, h, i + 1, j + 1) <==> ((i + 1 == sx && j + 1 == sy + 1) || (i + 1 == sx + 1 && j + 1 == sy + 2) || (i + 1 == sx + 1 && j + 1 == sy + 3) || (i + 1 == sx + 2 && j + 1 == sy + 1) || (i + 1 == sx + 2 && j + 1 == sy + 2)));
        assert(g2[j][i] == next_cell(g1[j][i], neighbor_count(g1, w, h, i, j)));
    }
    assert forall|i: int, j: int| 0 <= i < w && 0 <= j < h implies (#[trigger] g3[j][i] <==> ((i == sx + 1 && j == sy + 1) || (i == sx + 1 && j == sy + 3) || (i == sx + 2 && j == sy + 2) || (i == sx + 2 && j == sy + 3) || (i == sx + 3 && j == sy + 2))) by {
        assert(live_at(g2, w, h, i - 1, j - 1) <==> ((i - 1 == sx && j - 1 == sy + 2) || (i - 1 == sx + 1 && j - 1 == sy + 3) || (i - 1 == sx + 2 && j - 1 == sy + 1) || (i - 1 == sx + 2 && j - 1 == sy + 2) || (i - 1 == sx + 2 && j - 1 == sy + 3)));
        assert(live_at(g2, w, h, i, j - 1) <==> ((i == sx && j - 1 == sy + 2) || (i == sx + 1 && j - 1 == sy + 3) || (i == sx + 2 && j - 1 == sy + 1) || (i == sx + 2 && j - 1 == sy + 2) || (i == sx + 2 && j - 1 == sy + 3)));
        assert(live_at(g2, w, h, i + 1, j - 1) <==> ((i + 1 == sx && j - 1 == sy + 2) || (i + 1 == sx + 1 && j - 1 == sy + 3) || (i + 1 == sx + 2 && j - 1 == sy + 1) || (i + 1 == sx + 2 && j - 1 == sy + 2) || (i + 1 == sx + 2 && j - 1 == sy + 3)));
        assert(live_at(g2, w, h, i - 1, j) <==> ((i - 1 == sx && j == sy + 2) || (i - 1 == sx + 1 && j == sy + 3) || (i - 1 == sx + 2 && j == sy + 1) || (i - 1 == sx + 2 && j == sy + 2) || (i - 1 == sx + 2 && j == sy + 3)));
        assert(live_at(g2, w, h, i + 1, j) <==> ((i + 1 == sx && j == sy + 2) || (i + 1 == sx + 1 && j == sy + 3) || (i + 1 == sx + 2 && j == sy + 1) || (i + 1 == sx + 2 && j == sy + 2) || (i + 1 == sx + 2 && j == sy + 3)));
        assert(live_at(g2, w, h, i - 1, j + 1) <==> ((i - 1 == sx && j + 1 == sy + 2) || (i - 1 == sx + 1 && j + 1 == sy + 3) || (i - 1 == sx + 2 && j + 1 == sy + 1) || (i - 1 == sx + 2 && j + 1 == sy + 2) || (i - 1 == sx + 2 && j + 1 == sy + 3)));
        assert(live_at(g2, w, h, i, j + 1) <==> ((i == sx && j + 1 == sy + 2) || (i == sx + 1 && j + 1 == sy + 3) || (i == sx + 2 && j + 1 == sy + 1) || (i == sx + 2 && j + 1 == sy + 2) || (i == sx + 2 && j + 1 == sy + 3)));
        assert(live_at(g2, w, h, i + 1, j + 1) <==> ((i + 1 == sx && j + 1 == sy + 2) || (i + 1 == sx + 1 && j + 1 == sy + 3) || (i + 1 == sx + 2 && j + 1 == sy + 1) || (i + 1 == sx + 2 && j + 1 == sy + 2) || (i + 1 == sx + 2 && j + 1 == sy + 3)));
        assert(g3[j][i] == next_cell(g2[j][i], neighbor_count(g2, w, h, i, j)));
    }
    assert forall|i: int, j: int| 0 <= i < w && 0 <= j < h implies (#[trigger] g4[j][i] <==> ((i == sx + 1 && j == sy + 3) || (i == sx + 2 && j == sy + 1) || (i == sx + 2 && j == sy + 3) || (i == sx + 3 && j == sy + 2) || (i == sx + 3 && j == sy + 3))) by {
        assert(live_at(g3, w, h, i - 1, j - 1) <==> ((i - 1 == sx + 1 && j - 1 == sy + 1) || (i - 1 == sx + 1 && j - 1 == sy + 3) || (i - 1 == sx + 2 && j - 1 == sy + 2) || (i - 1 == sx + 2 && j - 1 == sy + 3) || (i - 1 == sx + 3 && j - 1 == sy + 2)));
        assert(live_at(g3, w, h, i, j - 1) <==> ((i == sx + 1 && j - 1 == sy + 1) || (i == sx + 1 && j - 1 == sy + 3) || (i == sx + 2 && j - 1 == sy + 2) || (i == sx + 2 && j - 1 == sy + 3) || (i == sx + 3 && j - 1 == sy + 2)));
        assert(live_at(g3, w, h, i + 1, j - 1) <==> ((i + 1 == sx + 1 && j - 1 == sy + 1) || (i + 1 == sx + 1 && j - 1 == sy + 3) || (i + 1 == sx + 2 && j - 1 == sy + 2) || (i + 1 == sx + 2 && j - 1 == sy + 3) || (i + 1 == sx + 3 && j - 1 == sy + 2)));
        assert(live_at(g3, w, h, i - 1, j) <==> ((i - 1 == sx + 1 && j == sy + 1) || (i - 1 == sx + 1 && j == sy + 3) || (i - 1 == sx + 2 && j == sy + 2) || (i - 1 == sx + 2 && j == sy + 3) || (i - 1 == sx + 3 && j == sy + 2)));
        assert(live_at(g3, w, h, i + 1, j) <==> ((i + 1 == sx + 1 && j == sy + 1) || (i + 1 == sx + 1 && j == sy + 3) || (i + 1 == sx + 2 && j == sy + 2) || (i + 1 == sx + 2 && j == sy + 3) || (i + 1 == sx + 3 && j == sy + 2)));
        assert(live_at(g3, w, h, i - 1, j + 1) <==> ((i - 1 == sx + 1 && j + 1 == sy + 1) || (i - 1 == sx + 1 && j + 1 == sy + 3) || (i - 1 == sx + 2 && j + 1 == sy + 2) || (i - 1 == sx + 2 && j + 1 == sy + 3) || (i - 1 == sx + 3 && j + 1 == sy + 2)));
        assert(live_at(g3, w, h, i, j + 1) <==> ((i == sx + 1 && j + 1 == sy + 1) || (i == sx + 1 && j + 1 == sy + 3) || (i == sx + 2 && j + 1 == sy + 2) || (i == sx + 2 && j + 1 == sy + 3) || (i == sx + 3 && j + 1 == sy + 2)));
        assert(live_at(g3, w, h, i + 1, j + 1) <==> ((i + 1 == sx + 1 && j + 1 == sy + 1) || (i + 1 == sx + 1 && j + 1 == sy + 3) || (i + 1 == sx + 2 && j + 1 == sy + 2) || (i + 1 == sx + 2 && j + 1 == sy + 3) || (i + 1 == sx + 3 && j + 1 == sy + 2)));
        assert(g4[j][i] == next_cell(g3[j][i], neighbor_count(g3, w, h, i, j)));
    }
    let target = place_spec(empty_cells(width, height), glider_cells(), sx + 1, sy + 1);
    assert forall|i: int, j: int| 0 <= i < w && 0 <= j < h implies #[trigger] g4[j][i] == target[j][i] by {
        if sx + 1 <= i < sx + 4 && sy + 1 <= j < sy + 4 {
            assert(target[j][i] == glider_cells()[j - sy - 1][i - sx - 1]);
        }
    }
    assert(g4 =~~= target);
    assert(step_grid_n(g0, width, height, 0) == g0);
    assert(step_grid_n(g0, width, height, 1) == g1);
    assert(step_grid_n(g0, width, height, 2) == g2);
    assert(step_grid_n(g0, width, height, 3) == g3);
    assert(step_grid_n(g0, width, height, 4) == g4);
}

} // verus!
