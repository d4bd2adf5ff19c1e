//! The simulation engine: two equally shaped cell grids (`current` is
//! authoritative, `next` is scratch), synchronous rule application with a
//! constant-time buffer swap, and resynchronization of the framebuffer.

use crate::framebuffer::{
    lemma_flat_index_bound, lemma_flat_index_injective, Framebuffer, BLACK, WHITE,
};
use crate::grid::{grid_wf, lemma_grid_deep_view, neighbor_count, next_cell, step_grid};
use vstd::prelude::*;

verus! {

/// Construction is refused for a zero-width or zero-height grid: neighbor
/// counting and scaling assume at least one row and one column.
#[derive(Clone, Copy, Debug, PartialEq, Eq, Structural)]
pub struct DegenerateGridError;

/// Conway's Game of Life on a `width x height` grid with hard boundaries.
pub struct GameOfLife {
    pub current_state: Vec<Vec<bool>>,
    pub next_state: Vec<Vec<bool>>,
    pub width: usize,
    pub height: usize,
    pub framebuffer: Framebuffer,
}

impl GameOfLife {
    /// The authoritative generation, as a mathematical grid.
    pub open spec fn cells(&self) -> Seq<Seq<bool>> {
        self.current_state.deep_view()
    }

    /// Both grids always have the engine's dimensions, and the framebuffer
    /// holds one pixel per cell.
    pub open spec fn wf(&self) -> bool {
        &&& grid_wf(self.current_state.deep_view(), self.width as nat, self.height as nat)
        &&& grid_wf(self.next_state.deep_view(), self.width as nat, self.height as nat)
        &&& self.framebuffer.wf()
        &&& self.framebuffer.width == self.width
        &&& self.framebuffer.height == self.height
    }

    /// Every pixel of the framebuffer shows its cell: white if alive, black
    /// if dead.
    pub open spec fn fb_synced(&self) -> bool {
        forall|x: int, y: int|
            0 <= x < self.width && 0 <= y < self.height ==> #[trigger] self.framebuffer.color_at(
                x,
                y,
            ) == (if self.cells()[y][x] {
                WHITE
            } else {
                BLACK
            })
    }

    /// A fresh engine with every cell dead and a black framebuffer; fails
    /// exactly when one of the dimensions is zero.
    pub fn new(width: usize, height: usize) -> (result: Result<GameOfLife, DegenerateGridError>)
        requires
            width * height <= usize::MAX,
        ensures
            result is Err <==> (width == 0 || height == 0),
            result matches Ok(game) ==> {
                &&& game.wf()
                &&& game.width == width
                &&& game.height == height
                &&& forall|x: int, y: int|
                    0 <= x < width && 0 <= y < height ==> !(#[trigger] game.cells()[y][x])
                &&& game.fb_synced()
            },
    {
        if width == 0 || height == 0 {
            return Err(DegenerateGridError);
        }
        let current_state = dead_grid(width, height);
        let next_state = dead_grid(width, height);
        let framebuffer = Framebuffer::new(width, height);
        let game = GameOfLife { current_state, next_state, width, height, framebuffer };
        proof {
            assert forall|x: int, y: int|
                0 <= x < width && 0 <= y < height implies #[trigger] game.framebuffer.color_at(
                x,
                y,
            ) == BLACK by {
                lemma_flat_index_bound(width as int, height as int, x, y);
            }
        }
        Ok(game)
    }

    /// Reads one cell of the authoritative grid.
    pub fn cell(&self, x: usize, y: usize) -> (alive: bool)
        requires
            self.wf(),
            x < self.width,
            y < self.height,
        ensures
            alive == self.cells()[y as int][x as int],
    {
        proof {
            lemma_grid_deep_view(self.current_state);
            assert(self.current_state@.len() == self.cells().len());
            assert(self.cells().len() == self.height);
            assert(self.cells()[y as int].len() == self.width);
            assert(self.current_state@[y as int]@.len() == self.width);
        }
        self.current_state[y][x]
    }

    /// Counts the live cells among the eight Moore neighbors of `(x, y)`,
    /// never indexing outside the grid: a neighbor beyond any edge is dead.
    pub fn count_neighbors(&self, x: usize, y: usize) -> (count: usize)
        requires
            self.wf(),
            x < self.width,
            y < self.height,
        ensures
            count == neighbor_count(
                self.cells(),
                self.width as int,
                self.height as int,
                x as int,
                y as int,
            ),
    {
        let mut count: usize = 0;
        if y > 0 {
            if x > 0 && self.cell(x - 1, y - 1) {
                count += 1;
            }
            if self.cell(x, y - 1) {
                count += 1;
            }
            if x + 1 < self.width && self.cell(x + 1, y - 1) {
                count += 1;
            }
        }
        if x > 0 && self.cell(x - 1, y) {
            count += 1;
        }
        if x + 1 < self.width && self.cell(x + 1, y) {
            count += 1;
        }
        if y + 1 < self.height {
            if x > 0 && self.cell(x - 1, y + 1) {
                count += 1;
            }
            if self.cell(x, y + 1) {
                count += 1;
            }
            if x + 1 < self.width && self.cell(x + 1, y + 1) {
                count += 1;
            }
        }
        count
    }

    /// Advances the simulation by one generation: every cell of the new
    /// `current` grid is Conway's rule applied to the previous generation
    /// alone (the pass writes only the scratch grid, so no recomputed cell
    /// is ever read back), then the two grids swap in constant time and the
    /// framebuffer is resynchronized. The scratch grid ends up holding the
    /// previous generation.
    #[verifier::loop_isolation(false)]
    pub fn update(&mut self)
        requires
            old(self).wf(),
        ensures
            final(self).wf(),
            final(self).width == old(self).width,
            final(self).height == old(self).height,
            final(self).cells() == step_grid(
                old(self).cells(),
                old(self).width as nat,
                old(self).height as nat,
            ),
            final(self).next_state.deep_view() == old(self).cells(),
            final(self).fb_synced(),
    {
        let ghost g0 = self.cells();
        let ghost w = self.width as int;
        let ghost h = self.height as int;
        let mut y: usize = 0;
        while y < self.height
            invariant
                self.wf(),
                self.width == old(self).width,
                self.height == old(self).height,
                self.current_state == old(self).current_state,
                self.framebuffer == old(self).framebuffer,
                y <= self.height,
                forall|j: int|
                    0 <= j < y ==> #[trigger] self.next_state.deep_view()[j] == step_grid(
                        g0,
                        w as nat,
                        h as nat,
                    )[j],
            decreases self.height - y,
        {
            let ghost next_at_row_start = self.next_state;
            let mut row: Vec<bool> = Vec::new();
            let mut x: usize = 0;
            while x < self.width
                invariant
                    self.wf(),
                    self.width == old(self).width,
                    self.height == old(self).height,
                    self.current_state == old(self).current_state,
                    self.framebuffer == old(self).framebuffer,
                    self.next_state == next_at_row_start,
                    y < self.height,
                    x <= self.width,
                    row@.len() == x,
                    forall|i: int|
                        0 <= i < x ==> #[trigger] row@[i] == next_cell(
                            g0[y as int][i],
                            neighbor_count(g0, w, h, i, y as int),
                        ),
                decreases self.width - x,
            {
                let neighbors = self.count_neighbors(x, y);
                let alive = self.cell(x, y);
                let new_cell = if alive && neighbors < 2 {
                    false
                } else if alive && (neighbors == 2 || neighbors == 3) {
                    true
                } else if alive && neighbors > 3 {
                    false
                } else if !alive && neighbors == 3 {
                    true
                } else {
                    alive
                };
                proof {
                    assert(new_cell == next_cell(
                        g0[y as int][x as int],
                        neighbor_count(g0, w, h, x as int, y as int),
                    ));
                }
                row.push(new_cell);
                x += 1;
            }
            let ghost next_vec_before = self.next_state;
            self.next_state[y] = row;
            proof {
                lemma_grid_deep_view(next_vec_before);
                lemma_grid_deep_view(self.next_state);
                lemma_grid_deep_view(self.current_state);
                assert(self.next_state@ == next_vec_before@.update(y as int, row));
                assert forall|j: int| 0 <= j < h implies (#[trigger] self.next_state.deep_view()[
                    j
                ]).len() == w by {
                    if j != y as int {
                        assert(self.next_state@[j] == next_vec_before@[j]);
                        assert(next_vec_before.deep_view()[j].len() == w);
                    } else {
                        assert(self.next_state@[j] == row);
                    }
                }
                assert(grid_wf(self.next_state.deep_view(), self.width as nat, self.height as nat));
                assert(self.next_state.deep_view()[y as int] =~= step_grid(g0, w as nat, h as nat)[
                    y as int
                ]);
                assert forall|j: int| 0 <= j < y implies #[trigger] self.next_state.deep_view()[j]
                    == step_grid(g0, w as nat, h as nat)[j] by {
                    assert(self.next_state.deep_view()[j] =~= next_vec_before.deep_view()[j]);
                }
            }
            y += 1;
        }
        proof {
            assert(self.next_state.deep_view() =~~= step_grid(g0, w as nat, h as nat));
        }
        core::mem::swap(&mut self.current_state, &mut self.next_state);
        self.update_framebuffer();
    }

    /// Overwrites every framebuffer pixel from the authoritative grid:
    /// white for a live cell, black for a dead one.
    #[verifier::loop_isolation(false)]
    pub fn update_framebuffer(&mut self)
        requires
            old(self).wf(),
        ensures
            final(self).wf(),
            final(self).width == old(self).width,
            final(self).height == old(self).height,
            final(self).current_state == old(self).current_state,
            final(self).next_state == old(self).next_state,
            final(self).fb_synced(),
    {
        let ghost w = self.width as int;
        let ghost h = self.height as int;
        let mut y: usize = 0;
        while y < self.height
            invariant
                self.wf(),
                self.width == old(self).width,
                self.height == old(self).height,
                self.current_state == old(self).current_state,
                self.next_state == old(self).next_state,
                y <= self.height,
                forall|i: int, j: int|
                    0 <= i < w && 0 <= j < y ==> #[trigger] self.framebuffer.color_at(i, j) == (
                    if self.cells()[j][i] {
                        WHITE
                    } else {
                        BLACK
                    }),
            decreases self.height - y,
        {
            let mut x: usize = 0;
            while x < self.width
                invariant
                    self.wf(),
                    self.width == old(self).width,
                    self.height == old(self).height,
                    self.current_state == old(self).current_state,
                    self.next_state == old(self).next_state,
                    y < self.height,
                    x <= self.width,
                    forall|i: int, j: int|
                        0 <= i < w && 0 <= j < y ==> #[trigger] self.framebuffer.color_at(i, j)
                            == (if self.cells()[j][i] {
                            WHITE
                        } else {
                            BLACK
                        }),
                    forall|i: int|
                        0 <= i < x ==> #[trigger] self.framebuffer.color_at(i, y as int) == (
                        if self.cells()[y as int][i] {
                            WHITE
                        } else {
                            BLACK
                        }),
                decreases self.width - x,
            {
                let ghost fb_before = self.framebuffer;
                let color = if self.cell(x, y) {
                    WHITE
                } else {
                    BLACK
                };
                self.framebuffer.point(x, y, color);
                proof {
                    lemma_flat_index_bound(w, h, x as int, y as int);
                    assert forall|i: int, j: int|
                        0 <= i < w && 0 <= j < h && (i != x as int || j != y as int) implies
                    #[trigger] self.framebuffer.color_at(i, j) == fb_before.color_at(i, j) by {
                        lemma_flat_index_bound(w, h, i, j);
                        lemma_flat_index_injective(w, i, j, x as int, y as int);
                    }
                }
                x += 1;
            }
            y += 1;
        }
    }

    /// A freshly allocated display buffer of the requested resolution,
    /// produced from the framebuffer by exact nearest-neighbor scaling.
    pub fn get_scaled_buffer(&self, display_width: usize, display_height: usize) -> (scaled: Vec<
        u32,
    >)
        requires
            self.wf(),
            display_width * display_height <= usize::MAX,
            display_width * self.width <= usize::MAX,
            display_height * self.height <= usize::MAX,
        ensures
            scaled@ == self.framebuffer.scaled_buffer_spec(
                display_width as int,
                display_height as int,
            ),
    {
        self.framebuffer.scale_to_window(display_width, display_height)
    }
}

/// A row of `width` dead cells.
fn dead_row(width: usize) -> (row: Vec<bool>)
    ensures
        row@.len() == width,
        forall|i: int| 0 <= i < width ==> !(#[trigger] row@[i]),
{
    let mut row: Vec<bool> = Vec::new();
    while row.len() < width
        invariant
            row@.len() <= width,
            forall|i: int| 0 <= i < row@.len() ==> !(#[trigger] row@[i]),
        decreases width - row@.len(),
    {
        row.push(false);
    }
    row
}

/// A `width x height` grid of dead cells.
fn dead_grid(width: usize, height: usize) -> (g: Vec<Vec<bool>>)
    ensures
        grid_wf(g.deep_view(), width as nat, height as nat),
        forall|x: int, y: int| 0 <= x < width && 0 <= y < height ==> !(#[trigger] g.deep_view()[y][x]),
{
    let mut g: Vec<Vec<bool>> = Vec::new();
    while g.len() < height
        invariant
            g@.len() <= height,
            forall|j: int| 0 <= j < g@.len() ==> (#[trigger] g.deep_view()[j]).len() == width,
            forall|x: int, j: int|
                0 <= x < width && 0 <= j < g@.len() ==> !(#[trigger] g.deep_view()[j][x]),
        decreases height - g@.len(),
    {
        let row = dead_row(width);
        let ghost g_before = g;
        g.push(row);
        proof {
            lemma_grid_deep_view(g_before);
            lemma_grid_deep_view(g);
            assert(g@ == g_before@.push(row));
            assert forall|j: int| 0 <= j < g@.len() implies (#[trigger] g.deep_view()[j]).len()
                == width by {
                if j < g@.len() - 1 {
                    assert(g@[j] == g_before@[j]);
                    assert(g_before.deep_view()[j].len() == width);
                } else {
                    assert(g@[j] == row);
                }
            }
            assert forall|x: int, j: int| 0 <= x < width && 0 <= j < g@.len() implies !(
            #[trigger] g.deep_view()[j][x]) by {
                if j < g@.len() - 1 {
                    assert(g@[j] == g_before@[j]);
                    assert(!g_before.deep_view()[j][x]);
                } else {
                    assert(g@[j] == row);
                    assert(!row@[x]);
                }
            }
        }
    }
    g
}

} // verus!
