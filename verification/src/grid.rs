//! Mathematical model of a cell grid: well-formedness, boundary-aware cell
//! reads, Moore-neighborhood counting, and Conway's transition rule.

use vstd::prelude::*;

verus! {

/// A grid is a sequence of `height` rows, each a sequence of `width` cells.
pub open spec fn grid_wf(g: Seq<Seq<bool>>, width: nat, height: nat) -> bool {
    g.len() == height && forall|y: int| 0 <= y < height ==> (#[trigger] g[y]).len() == width
}

/// Reads a cell, treating every coordinate outside `[0,width) x [0,height)`
/// as permanently dead: edges are hard boundaries, never wrapped.
pub open spec fn live_at(g: Seq<Seq<bool>>, width: int, height: int, x: int, y: int) -> bool {
    0 <= x < width && 0 <= y < height && g[y][x]
}

/// A live cell counts as one.
pub open spec fn as_count(alive: bool) -> int {
    if alive {
        1
    } else {
        0
    }
}

/// Number of live cells among the eight Moore neighbors of `(x, y)`;
/// neighbors outside the grid are dead and contribute nothing.
pub open spec fn neighbor_count(
    g: Seq<Seq<bool>>,
    width: int,
    height: int,
    x: int,
    y: int,
) -> int {
    as_count(live_at(g, width, height, x - 1, y - 1)) + as_count(
        live_at(g, width, height, x, y - 1),
    ) + as_count(live_at(g, width, height, x + 1, y - 1)) + as_count(
        live_at(g, width, height, x - 1, y),
    ) + as_count(live_at(g, width, height, x + 1, y)) + as_count(
        live_at(g, width, height, x - 1, y + 1),
    ) + as_count(live_at(g, width, height, x, y + 1)) + as_count(
        live_at(g, width, height, x + 1, y + 1),
    )
}

/// Conway's rule: a live cell survives with exactly 2 or 3 live neighbors,
/// a dead cell is born with exactly 3; every other cell is dead next tick.
pub open spec fn next_cell(alive: bool, neighbors: int) -> bool {
    if alive {
        neighbors == 2 || neighbors == 3
    } else {
        neighbors == 3
    }
}

/// One synchronous generation: every cell of the result is computed from the
/// previous grid alone, so no cell's update can observe another's.
pub open spec fn step_grid(g: Seq<Seq<bool>>, width: nat, height: nat) -> Seq<Seq<bool>> {
    Seq::new(
        height,
        |y: int|
            Seq::new(
                width,
                |x: int| next_cell(g[y][x], neighbor_count(g, width as int, height as int, x, y)),
            ),
    )
}

/// `n` synchronous generations in a row.
pub open spec fn step_grid_n(g: Seq<Seq<bool>>, width: nat, height: nat, n: nat) -> Seq<Seq<bool>>
    decreases n,
{
    if n == 0 {
        g
    } else {
        step_grid(step_grid_n(g, width, height, (n - 1) as nat), width, height)
    }
}

/// Connects a concrete `Vec` grid with its mathematical view: same row
/// count, same row lengths, same cells.
pub proof fn lemma_grid_deep_view(v: Vec<Vec<bool>>)
    ensures
        v.deep_view().len() == v@.len(),
        forall|y: int| 0 <= y < v@.len() ==> (#[trigger] v.deep_view()[y]).len() == v@[y]@.len(),
        forall|y: int, x: int|
            0 <= y < v@.len() && 0 <= x < v@[y]@.len() ==> v.deep_view()[y][x] == v@[y]@[x],
{
    assert forall|y: int| 0 <= y < v@.len() implies (#[trigger] v.deep_view()[y]).len()
        == v@[y]@.len() by {
        assert(v.deep_view()[y] == v@[y].deep_view());
    }
    assert forall|y: int, x: int| 0 <= y < v@.len() && 0 <= x < v@[y]@.len() implies v.deep_view(
    )[y][x] == v@[y]@[x] by {
        assert(v.deep_view()[y] == v@[y].deep_view());
        assert(v@[y].deep_view()[x] == v@[y]@[x]);
    }
}

/// Underpopulation: a live cell with fewer than 2 live neighbors dies.
pub proof fn lemma_rule_underpopulation(neighbors: int)
    requires
        neighbors < 2,
    ensures
        !next_cell(true, neighbors),
{
}

/// Survival: a live cell with exactly 2 or 3 live neighbors stays alive.
pub proof fn lemma_rule_survival(neighbors: int)
    requires
        neighbors == 2 || neighbors == 3,
    ensures
        next_cell(true, neighbors),
{
}

/// Overpopulation: a live cell with more than 3 live neighbors dies.
pub proof fn lemma_rule_overpopulation(neighbors: int)
    requires
        neighbors > 3,
    ensures
        !next_cell(true, neighbors),
{
}

/// Birth: a dead cell comes alive exactly when it has 3 live neighbors.
pub proof fn lemma_rule_birth(neighbors: int)
    ensures
        next_cell(false, neighbors) <==> neighbors == 3,
{
}

/// A corner cell has at most 3 in-bounds neighbors, so its count never
/// exceeds 3, and no neighbor outside the grid is ever read as live.
pub proof fn lemma_corner_neighbor_bound(g: Seq<Seq<bool>>, width: nat, height: nat)
    ensures
        neighbor_count(g, width as int, height as int, 0, 0) <= 3,
{
}

} // verus!
