//! The pattern library: a fixed catalog of classic Game of Life shapes as
//! literal boolean matrices, a placement operator that stamps a matrix onto
//! the grid (overwriting its whole footprint and silently clipping at the
//! edges), and the seeding script that composes the catalog with a band of
//! randomly scattered live cells.

use crate::engine::GameOfLife;
use crate::grid::{grid_wf, lemma_grid_deep_view};
use rand::Rng;
use vstd::prelude::*;

verus! {

/// The grid after stamping `pat` with its top-left corner at `(sx, sy)`:
/// every in-bounds cell of the footprint takes the pattern's value (live or
/// dead), and cells of the pattern that fall outside the grid are dropped.
pub open spec fn place_spec(g: Seq<Seq<bool>>, pat: Seq<Seq<bool>>, sx: int, sy: int) -> Seq<
    Seq<bool>,
> {
    Seq::new(
        g.len(),
        |y: int|
            Seq::new(
                g[y].len(),
                |x: int|
                    if sy <= y < sy + pat.len() && sx <= x && x - sx < pat[y - sy].len() {
                        pat[y - sy][x - sx]
                    } else {
                        g[y][x]
                    },
            ),
    )
}

/// A partially applied placement: the first `rows` pattern rows are stamped
/// in full, and of row `rows` only the first `cols` cells.
pub open spec fn place_partial(
    g: Seq<Seq<bool>>,
    pat: Seq<Seq<bool>>,
    sx: int,
    sy: int,
    rows: int,
    cols: int,
) -> Seq<Seq<bool>> {
    Seq::new(
        g.len(),
        |y: int|
            Seq::new(
                g[y].len(),
                |x: int|
                    if sy <= y < sy + rows && sx <= x && x - sx < pat[y - sy].len() {
                        pat[y - sy][x - sx]
                    } else if y == sy + rows && rows < pat.len() && sx <= x && x - sx < cols && x
                        - sx < pat[rows].len() {
                        pat[rows][x - sx]
                    } else {
                        g[y][x]
                    },
            ),
    )
}

/// The canonical glider.
pub open spec fn glider_cells() -> Seq<Seq<bool>> {
    seq![
        seq![false, true, false],
        seq![false, false, true],
        seq![true, true, true],
    ]
}

/// The vertical blinker (period-2 oscillator), as a literal matrix.
pub open spec fn blinker_cells() -> Seq<Seq<bool>> {
    seq![
        seq![true],
        seq![true],
        seq![true],
    ]
}

/// The 2x2 block (still life), as a literal matrix.
pub open spec fn block_cells() -> Seq<Seq<bool>> {
    seq![
        seq![true, true],
        seq![true, true],
    ]
}

/// The beehive (still life), as a literal matrix.
pub open spec fn beehive_cells() -> Seq<Seq<bool>> {
    seq![
        seq![false, true, true, false],
        seq![true, false, false, true],
        seq![false, true, true, false],
    ]
}

/// The toad (period-2 oscillator), as a literal matrix.
pub open spec fn toad_cells() -> Seq<Seq<bool>> {
    seq![
        seq![false, true, true, true],
        seq![true, true, true, false],
    ]
}

/// The loaf (still life), as a literal matrix.
pub open spec fn loaf_cells() -> Seq<Seq<bool>> {
    seq![
        seq![false, true, true, false],
        seq![true, false, false, true],
        seq![false, true, false, true],
        seq![false, false, true, false],
    ]
}

/// The boat (still life), as a literal matrix.
pub open spec fn boat_cells() -> Seq<Seq<bool>> {
    seq![
        seq![true, true, false],
        seq![true, false, true],
        seq![false, true, false],
    ]
}

/// The tub (still life), as a literal matrix.
pub open spec fn tub_cells() -> Seq<Seq<bool>> {
    seq![
        seq![false, true, false],
        seq![true, false, true],
        seq![false, true, false],
    ]
}

/// The beacon (period-2 oscillator), as a literal matrix.
pub open spec fn beacon_cells() -> Seq<Seq<bool>> {
    seq![
        seq![true, true, false, false],
        seq![true, true, false, false],
        seq![false, false, true, true],
        seq![false, false, true, true],
    ]
}

/// The pulsar (period-3 oscillator), as a literal matrix.
pub open spec fn pulsar_cells() -> Seq<Seq<bool>> {
    seq![
        seq![false, false, true, true, true, false, false, false, true, true, true, false, false],
        seq![false, false, false, false, false, false, false, false, false, false, false, false, false],
        seq![true, false, false, false, false, true, false, true, false, false, false, false, true],
        seq![true, false, false, false, false, true, false, true, false, false, false, false, true],
        seq![true, false, false, false, false, true, false, true, false, false, false, false, true],
        seq![false, false, true, true, true, false, false, false, true, true, true, false, false],
        seq![false, false, false, false, false, false, false, false, false, false, false, false, false],
        seq![false, false, true, true, true, false, false, false, true, true, true, false, false],
        seq![true, false, false, false, false, true, false, true, false, false, false, false, true],
        seq![true, false, false, false, false, true, false, true, false, false, false, false, true],
        seq![true, false, false, false, false, true, false, true, false, false, false, false, true],
        seq![false, false, false, false, false, false, false, false, false, false, false, false, false],
        seq![false, false, true, true, true, false, false, false, true, true, true, false, false],
    ]
}

/// The pentadecathlon (period-15 oscillator), as a literal matrix.
pub open spec fn pentadecathlon_cells() -> Seq<Seq<bool>> {
    seq![
        seq![true, true, true],
        seq![true, false, true],
        seq![true, false, true],
        seq![true, true, true],
        seq![true, true, true],
        seq![true, true, true],
        seq![true, false, true],
        seq![true, false, true],
        seq![true, true, true],
    ]
}

/// The lightweight spaceship, as a literal matrix.
pub open spec fn lightweight_spaceship_cells() -> Seq<Seq<bool>> {
    seq![
        seq![true, false, false, true, false],
        seq![false, false, false, false, true],
        seq![true, false, false, false, true],
        seq![false, true, true, true, true],
    ]
}

/// The middleweight spaceship, as a literal matrix.
pub open spec fn middleweight_spaceship_cells() -> Seq<Seq<bool>> {
    seq![
        seq![false, false, true, false, false, false],
        seq![true, false, false, false, true, false],
        seq![false, false, false, false, false, true],
        seq![true, false, false, false, false, true],
        seq![false, true, true, true, true, true],
    ]
}

/// The heavyweight spaceship, as a literal matrix.
pub open spec fn heavyweight_spaceship_cells() -> Seq<Seq<bool>> {
    seq![
        seq![false, false, true, true, false, false, false],
        seq![true, false, false, false, false, true, false],
        seq![false, false, false, false, false, false, true],
        seq![true, false, false, false, false, false, true],
        seq![false, true, true, true, true, true, true],
    ]
}

/// The Gosper glider gun, as a literal matrix.
pub open spec fn gosper_glider_gun_cells() -> Seq<Seq<bool>> {
    seq![
        seq![false, false, false, false, false, false, false, false, false, false, false, false, false, false, false, false, false, false, false, false, false, false, false, false, true, false, false, false, false, false, false, false, false, false, false, false],
        seq![false, false, false, false, false, false, false, false, false, false, false, false, false, false, false, false, false, false, false, false, false, false, true, false, true, false, false, false, false, false, false, false, false, false, false, false],
        seq![false, false, false, false, false, false, false, false, false, false, false, false, true, true, false, false, false, false, false, false, true, true, false, false, false, false, false, false, false, false, false, false, false, false, true, true],
        seq![false, false, false, false, false, false, false, false, false, false, false, true, false, false, false, true, false, false, false, false, true, true, false, false, false, false, false, false, false, false, false, false, false, false, true, true],
        seq![true, true, false, false, false, false, false, false, false, false, true, false, false, false, false, false, true, false, false, false, true, true, false, false, false, false, false, false, false, false, false, false, false, false, false, false],
        seq![true, true, false, false, false, false, false, false, false, false, true, false, false, false, true, false, true, true, false, false, false, false, true, false, true, false, false, false, false, false, false, false, false, false, false, false],
        seq![false, false, false, false, false, false, false, false, false, false, true, false, false, false, false, false, true, false, false, false, false, false, false, false, true, false, false, false, false, false, false, false, false, false, false, false],
        seq![false, false, false, false, false, false, false, false, false, false, false, true, false, false, false, true, false, false, false, false, false, false, false, false, false, false, false, false, false, false, false, false, false, false, false, false],
        seq![false, false, false, false, false, false, false, false, false, false, false, false, true, true, false, false, false, false, false, false, false, false, false, false, false, false, false, false, false, false, false, false, false, false, false, false],
    ]
}

/// The R-pentomino (long-lived methuselah), as a literal matrix.
pub open spec fn r_pentomino_cells() -> Seq<Seq<bool>> {
    seq![
        seq![false, true, true],
        seq![true, true, false],
        seq![false, true, false],
    ]
}

/// The diehard (vanishing methuselah), as a literal matrix.
pub open spec fn diehard_cells() -> Seq<Seq<bool>> {
    seq![
        seq![false, false, false, false, false, false, true, false],
        seq![true, true, false, false, false, false, false, false],
        seq![false, true, false, false, false, true, true, true],
    ]
}


/// An all-dead grid of the given dimensions.
pub open spec fn empty_cells(width: nat, height: nat) -> Seq<Seq<bool>> {
    Seq::new(height, |y: int| Seq::new(width, |x: int| false))
}

/// The deterministic part of the seeding script: every catalog pattern
/// stamped at its designated offset on an empty grid. The offsets keep every
/// footprint fully in bounds for any grid of at least 90 x 70 cells.
pub open spec fn catalog_seed(width: int, height: int) -> Seq<Seq<bool>> {
    let g = empty_cells(width as nat, height as nat);
    let g = place_spec(g, block_cells(), 5, 5);
    let g = place_spec(g, beehive_cells(), 12, 8);
    let g = place_spec(g, loaf_cells(), 5, 15);
    let g = place_spec(g, boat_cells(), 15, 18);
    let g = place_spec(g, tub_cells(), 8, 25);
    let g = place_spec(g, blinker_cells(), 35, 5);
    let g = place_spec(g, toad_cells(), 40, 10);
    let g = place_spec(g, beacon_cells(), 45, 15);
    let g = place_spec(g, pulsar_cells(), 32, 25);
    let g = place_spec(g, glider_cells(), 70, 8);
    let g = place_spec(g, lightweight_spaceship_cells(), 65, 15);
    let g = place_spec(g, middleweight_spaceship_cells(), 60, 25);
    let g = place_spec(g, heavyweight_spaceship_cells(), width - 25, height - 15);
    let g = place_spec(g, pentadecathlon_cells(), width - 15, height - 25);
    let g = place_spec(g, gosper_glider_gun_cells(), width - 40, height - 20);
    let g = place_spec(g, r_pentomino_cells(), 25, 50);
    let g = place_spec(g, diehard_cells(), 15, 40);
    g
}

/// The horizontal band in which the seeding script scatters random live
/// cells for variety.
pub open spec fn in_scatter_band(width: int, x: int, y: int) -> bool {
    35 <= y < 50 && 5 <= x < width - 5
}

/// Relies on rand::Rng::gen_range over a half-open usize range: the sampled
/// value always lies in `[lo, hi)`, and the call panics only on an empty
/// range, which the precondition rules out. Nothing more is assumed of the
/// choice.
#[verifier::external_body]
fn random_in_range(lo: usize, hi: usize) -> (r: usize)
    requires
        lo < hi,
    ensures
        lo <= r < hi,
{
    rand::thread_rng().gen_range(lo..hi)
}

impl GameOfLife {
    /// Overwrites one cell of the authoritative grid.
    #[verifier::loop_isolation(false)]
    fn set_cell(&mut self, x: usize, y: usize, v: bool)
        requires
            old(self).wf(),
            x < old(self).width,
            y < old(self).height,
        ensures
            final(self).wf(),
            final(self).width == old(self).width,
            final(self).height == old(self).height,
            final(self).next_state == old(self).next_state,
            final(self).framebuffer == old(self).framebuffer,
            forall|yy: int, xx: int|
                0 <= yy < old(self).height && 0 <= xx < old(self).width
                    ==> #[trigger] final(self).cells()[yy][xx] == (if yy == y && xx == x {
                    v
                } else {
                    old(self).cells()[yy][xx]
                }),
    {
        let ghost before = self.current_state;
        let ghost w = self.width as int;
        let ghost h = self.height as int;
        proof {
            lemma_grid_deep_view(self.current_state);
            assert(self.current_state@.len() == self.cells().len());
            assert(self.cells()[y as int].len() == self.width);
            assert(self.current_state@[y as int]@.len() == self.width);
        }
        self.current_state[y][x] = v;
        let ghost row_snapshot = self.current_state@[y as int];
        proof {
            lemma_grid_deep_view(before);
            lemma_grid_deep_view(self.current_state);
            assert forall|yy: int| 0 <= yy < h implies (#[trigger] self.current_state.deep_view()[
                yy
            ]).len() == w by {
                if yy != y as int {
                    assert(self.current_state@[yy] == before@[yy]);
                    assert(before.deep_view()[yy].len() == w);
                } else {
                    assert(self.current_state@[yy] == row_snapshot);
                }
            }
            assert(grid_wf(self.current_state.deep_view(), old(self).width as nat, old(self).height as nat));
            assert forall|yy: int, xx: int| 0 <= yy < h && 0 <= xx < w implies #[trigger] self.cells()[yy][xx]
                == (if yy == y && xx == x {
                v
            } else {
                before.deep_view()[yy][xx]
            }) by {
                if yy != y as int {
                    assert(self.current_state@[yy] == before@[yy]);
                } else {
                    assert(self.current_state@[yy] == row_snapshot);
                    assert(row_snapshot@ == before@[y as int]@.update(x as int, v));
                }
            }
        }
    }

    /// Stamps a boolean matrix onto the grid with its top-left corner at
    /// `(start_x, start_y)`. The whole footprint is overwritten — dead
    /// pattern cells erase — and anything outside the grid is silently
    /// clipped, never wrapped.
    #[verifier::loop_isolation(false)]
    pub fn add_pattern(&mut self, start_x: usize, start_y: usize, pattern: &Vec<Vec<bool>>)
        requires
            old(self).wf(),
        ensures
            final(self).wf(),
            final(self).width == old(self).width,
            final(self).height == old(self).height,
            final(self).next_state == old(self).next_state,
            final(self).framebuffer == old(self).framebuffer,
            final(self).cells() == place_spec(
                old(self).cells(),
                pattern.deep_view(),
                start_x as int,
                start_y as int,
            ),
    {
        let ghost g0 = self.cells();
        let ghost pat = pattern.deep_view();
        let ghost sx = start_x as int;
        let ghost sy = start_y as int;
        let ghost w = self.width as int;
        let ghost h = self.height as int;
        proof {
            lemma_grid_deep_view(*pattern);
        }
        let mut dy: usize = 0;
        while dy < pattern.len()
            invariant
                self.wf(),
                self.width == old(self).width,
                self.height == old(self).height,
                self.next_state == old(self).next_state,
                self.framebuffer == old(self).framebuffer,
                dy <= pattern@.len(),
                forall|yy: int, xx: int|
                    0 <= yy < h && 0 <= xx < w ==> #[trigger] self.cells()[yy][xx] == place_partial(
                        g0,
                        pat,
                        sx,
                        sy,
                        dy as int,
                        0,
                    )[yy][xx],
            decreases pattern@.len() - dy,
        {
            let row_len = pattern[dy].len();
            let mut dx: usize = 0;
            while dx < row_len
                invariant
                    self.wf(),
                    self.width == old(self).width,
                    self.height == old(self).height,
                    self.next_state == old(self).next_state,
                    self.framebuffer == old(self).framebuffer,
                    dy < pattern@.len(),
                    row_len == pat[dy as int].len(),
                    dx <= row_len,
                    forall|yy: int, xx: int|
                        0 <= yy < h && 0 <= xx < w ==> #[trigger] self.cells()[yy][xx]
                            == place_partial(g0, pat, sx, sy, dy as int, dx as int)[yy][xx],
                decreases row_len - dx,
            {
                if start_y < self.height && dy < self.height - start_y && start_x < self.width && dx
                    < self.width - start_x {
                    let v = pattern[dy][dx];
                    self.set_cell(start_x + dx, start_y + dy, v);
                }
                dx += 1;
            }
            proof {
                assert forall|yy: int, xx: int| 0 <= yy < h && 0 <= xx < w implies #[trigger] self.cells()[yy][xx]
                    == place_partial(g0, pat, sx, sy, dy + 1, 0)[yy][xx] by {
                    assert(self.cells()[yy][xx] == place_partial(g0, pat, sx, sy, dy as int, row_len as int)[yy][xx]);
                }
            }
            dy += 1;
        }
        proof {
            assert forall|yy: int, xx: int| 0 <= yy < h && 0 <= xx < w implies #[trigger] self.cells()[yy][xx]
                == place_spec(g0, pat, sx, sy)[yy][xx] by {
                assert(self.cells()[yy][xx] == place_partial(g0, pat, sx, sy, pat.len() as int, 0)[yy][xx]);
            }
            assert(self.cells() =~~= place_spec(g0, pat, sx, sy));
        }
    }

    /// Places the glider with its top-left corner at `(start_x, start_y)`.
    pub fn add_glider(&mut self, start_x: usize, start_y: usize)
        requires
            old(self).wf(),
        ensures
            final(self).wf(),
            final(self).width == old(self).width,
            final(self).height == old(self).height,
            final(self).next_state == old(self).next_state,
            final(self).framebuffer == old(self).framebuffer,
            final(self).cells() == place_spec(
                old(self).cells(),
                glider_cells(),
                start_x as int,
                start_y as int,
            ),
    {
        let pattern = vec![
            vec![false, true, false],
            vec![false, false, true],
            vec![true, true, true],
        ];
        proof {
            lemma_grid_deep_view(pattern);
            assert(pattern.deep_view() =~~= glider_cells());
        }
        self.add_pattern(start_x, start_y, &pattern);
    }

    /// Places the vertical blinker (period-2 oscillator) with its top-left corner at
    /// `(start_x, start_y)`.
    pub fn add_blinker(&mut self, start_x: usize, start_y: usize)
        requires
            old(self).wf(),
        ensures
            final(self).wf(),
            final(self).width == old(self).width,
            final(self).height == old(self).height,
            final(self).next_state == old(self).next_state,
            final(self).framebuffer == old(self).framebuffer,
            final(self).cells() == place_spec(
                old(self).cells(),
                blinker_cells(),
                start_x as int,
                start_y as int,
            ),
    {
        let pattern = vec![
            vec![true],
            vec![true],
            vec![true],
        ];
        proof {
            lemma_grid_deep_view(pattern);
            assert(pattern.deep_view() =~~= blinker_cells());
        }
        self.add_pattern(start_x, start_y, &pattern);
    }

    /// Places the 2x2 block (still life) with its top-left corner at
    /// `(start_x, start_y)`.
    pub fn add_block(&mut self, start_x: usize, start_y: usize)
        requires
            old(self).wf(),
        ensures
            final(self).wf(),
            final(self).width == old(self).width,
            final(self).height == old(self).height,
            final(self).next_state == old(self).next_state,
            final(self).framebuffer == old(self).framebuffer,
            final(self).cells() == place_spec(
                old(self).cells(),
                block_cells(),
                start_x as int,
                start_y as int,
            ),
    {
        let pattern = vec![
            vec![true, true],
            vec![true, true],
        ];
        proof {
            lemma_grid_deep_view(pattern);
            assert(pattern.deep_view() =~~= block_cells());
        }
        self.add_pattern(start_x, start_y, &pattern);
    }

    /// Places the beehive (still life) with its top-left corner at
    /// `(start_x, start_y)`.
    pub fn add_beehive(&mut self, start_x: usize, start_y: usize)
        requires
            old(self).wf(),
        ensures
            final(self).wf(),
            final(self).width == old(self).width,
            final(self).height == old(self).height,
            final(self).next_state == old(self).next_state,
            final(self).framebuffer == old(self).framebuffer,
            final(self).cells() == place_spec(
                old(self).cells(),
                beehive_cells(),
                start_x as int,
                start_y as int,
            ),
    {
        let pattern = vec![
            vec![false, true, true, false],
            vec![true, false, false, true],
            vec![false, true, true, false],
        ];
        proof {
            lemma_grid_deep_view(pattern);
            assert(pattern.deep_view() =~~= beehive_cells());
        }
        self.add_pattern(start_x, start_y, &pattern);
    }

    /// Places the toad (period-2 oscillator) with its top-left corner at
    /// `(start_x, start_y)`.
    pub fn add_toad(&mut self, start_x: usize, start_y: usize)
        requires
            old(self).wf(),
        ensures
            final(self).wf(),
            final(self).width == old(self).width,
            final(self).height == old(self).height,
            final(self).next_state == old(self).next_state,
            final(self).framebuffer == old(self).framebuffer,
            final(self).cells() == place_spec(
                old(self).cells(),
                toad_cells(),
                start_x as int,
                start_y as int,
            ),
    {
        let pattern = vec![
            vec![false, true, true, true],
            vec![true, true, true, false],
        ];
        proof {
            lemma_grid_deep_view(pattern);
            assert(pattern.deep_view() =~~= toad_cells());
        }
        self.add_pattern(start_x, start_y, &pattern);
    }

    /// Places the loaf (still life) with its top-left corner at
    /// `(start_x, start_y)`.
    pub fn add_loaf(&mut self, start_x: usize, start_y: usize)
        requires
            old(self).wf(),
        ensures
            final(self).wf(),
            final(self).width == old(self).width,
            final(self).height == old(self).height,
            final(self).next_state == old(self).next_state,
            final(self).framebuffer == old(self).framebuffer,
            final(self).cells() == place_spec(
                old(self).cells(),
                loaf_cells(),
                start_x as int,
                start_y as int,
            ),
    {
        let pattern = vec![
            vec![false, true, true, false],
            vec![true, false, false, true],
            vec![false, true, false, true],
            vec![false, false, true, false],
        ];
        proof {
            lemma_grid_deep_view(pattern);
            assert(pattern.deep_view() =~~= loaf_cells());
        }
        self.add_pattern(start_x, start_y, &pattern);
    }

    /// Places the boat (still life) with its top-left corner at
    /// `(start_x, start_y)`.
    pub fn add_boat(&mut self, start_x: usize, start_y: usize)
        requires
            old(self).wf(),
        ensures
            final(self).wf(),
            final(self).width == old(self).width,
            final(self).height == old(self).height,
            final(self).next_state == old(self).next_state,
            final(self).framebuffer == old(self).framebuffer,
            final(self).cells() == place_spec(
                old(self).cells(),
                boat_cells(),
                start_x as int,
                start_y as int,
            ),
    {
        let pattern = vec![
            vec![true, true, false],
            vec![true, false, true],
            vec![false, true, false],
        ];
        proof {
            lemma_grid_deep_view(pattern);
            assert(pattern.deep_view() =~~= boat_cells());
        }
        self.add_pattern(start_x, start_y, &pattern);
    }

    /// Places the tub (still life) with its top-left corner at
    /// `(start_x, start_y)`.
    pub fn add_tub(&mut self, start_x: usize, start_y: usize)
        requires
            old(self).wf(),
        ensures
            final(self).wf(),
            final(self).width == old(self).width,
            final(self).height == old(self).height,
            final(self).next_state == old(self).next_state,
            final(self).framebuffer == old(self).framebuffer,
            final(self).cells() == place_spec(
                old(self).cells(),
                tub_cells(),
                start_x as int,
                start_y as int,
            ),
    {
        let pattern = vec![
            vec![false, true, false],
            vec![true, false, true],
            vec![false, true, false],
        ];
        proof {
            lemma_grid_deep_view(pattern);
            assert(pattern.deep_view() =~~= tub_cells());
        }
        self.add_pattern(start_x, start_y, &pattern);
    }

    /// Places the beacon (period-2 oscillator) with its top-left corner at
    /// `(start_x, start_y)`.
    pub fn add_beacon(&mut self, start_x: usize, start_y: usize)
        requires
            old(self).wf(),
        ensures
            final(self).wf(),
            final(self).width == old(self).width,
            final(self).height == old(self).height,
            final(self).next_state == old(self).next_state,
            final(self).framebuffer == old(self).framebuffer,
            final(self).cells() == place_spec(
                old(self).cells(),
                beacon_cells(),
                start_x as int,
                start_y as int,
            ),
    {
        let pattern = vec![
            vec![true, true, false, false],
            vec![true, true, false, false],
            vec![false, false, true, true],
            vec![false, false, true, true],
        ];
        proof {
            lemma_grid_deep_view(pattern);
            assert(pattern.deep_view() =~~= beacon_cells());
        }
        self.add_pattern(start_x, start_y, &pattern);
    }

    /// Places the pulsar (period-3 oscillator) with its top-left corner at
    /// `(start_x, start_y)`.
    pub fn add_pulsar(&mut self, start_x: usize, start_y: usize)
        requires
            old(self).wf(),
        ensures
            final(self).wf(),
            final(self).width == old(self).width,
            final(self).height == old(self).height,
            final(self).next_state == old(self).next_state,
            final(self).framebuffer == old(self).framebuffer,
            final(self).cells() == place_spec(
                old(self).cells(),
                pulsar_cells(),
                start_x as int,
                start_y as int,
            ),
    {
        let pattern = vec![
            vec![false, false, true, true, true, false, false, false, true, true, true, false, false],
            vec![false, false, false, false, false, false, false, false, false, false, false, false, false],
            vec![true, false, false, false, false, true, false, true, false, false, false, false, true],
            vec![true, false, false, false, false, true, false, true, false, false, false, false, true],
            vec![true, false, false, false, false, true, false, true, false, false, false, false, true],
            vec![false, false, true, true, true, false, false, false, true, true, true, false, false],
            vec![false, false, false, false, false, false, false, false, false, false, false, false, false],
            vec![false, false, true, true, true, false, false, false, true, true, true, false, false],
            vec![true, false, false, false, false, true, false, true, false, false, false, false, true],
            vec![true, false, false, false, false, true, false, true, false, false, false, false, true],
            vec![true, false, false, false, false, true, false, true, false, false, false, false, true],
            vec![false, false, false, false, false, false, false, false, false, false, false, false, false],
            vec![false, false, true, true, true, false, false, false, true, true, true, false, false],
        ];
        proof {
            lemma_grid_deep_view(pattern);
            assert(pattern.deep_view() =~~= pulsar_cells());
        }
        self.add_pattern(start_x, start_y, &pattern);
    }

    /// Places the pentadecathlon (period-15 oscillator) with its top-left corner at
    /// `(start_x, start_y)`.
    pub fn add_pentadecathlon(&mut self, start_x: usize, start_y: usize)
        requires
            old(self).wf(),
        ensures
            final(self).wf(),
            final(self).width == old(self).width,
            final(self).height == old(self).height,
            final(self).next_state == old(self).next_state,
            final(self).framebuffer == old(self).framebuffer,
            final(self).cells() == place_spec(
                old(self).cells(),
                pentadecathlon_cells(),
                start_x as int,
                start_y as int,
            ),
    {
        let pattern = vec![
            vec![true, true, true],
            vec![true, false, true],
            vec![true, false, true],
            vec![true, true, true],
            vec![true, true, true],
            vec![true, true, true],
            vec![true, false, true],
            vec![true, false, true],
            vec![true, true, true],
        ];
        proof {
            lemma_grid_deep_view(pattern);
            assert(pattern.deep_view() =~~= pentadecathlon_cells());
        }
        self.add_pattern(start_x, start_y, &pattern);
    }

    /// Places the lightweight spaceship with its top-left corner at
    /// `(start_x, start_y)`.
    pub fn add_lightweight_spaceship(&mut self, start_x: usize, start_y: usize)
        requires
            old(self).wf(),
        ensures
            final(self).wf(),
            final(self).width == old(self).width,
            final(self).height == old(self).height,
            final(self).next_state == old(self).next_state,
            final(self).framebuffer == old(self).framebuffer,
            final(self).cells() == place_spec(
                old(self).cells(),
                lightweight_spaceship_cells(),
                start_x as int,
                start_y as int,
            ),
    {
        let pattern = vec![
            vec![true, false, false, true, false],
            vec![false, false, false, false, true],
            vec![true, false, false, false, true],
            vec![false, true, true, true, true],
        ];
        proof {
            lemma_grid_deep_view(pattern);
            assert(pattern.deep_view() =~~= lightweight_spaceship_cells());
        }
        self.add_pattern(start_x, start_y, &pattern);
    }

    /// Places the middleweight spaceship with its top-left corner at
    /// `(start_x, start_y)`.
    pub fn add_middleweight_spaceship(&mut self, start_x: usize, start_y: usize)
        requires
            old(self).wf(),
        ensures
            final(self).wf(),
            final(self).width == old(self).width,
            final(self).height == old(self).height,
            final(self).next_state == old(self).next_state,
            final(self).framebuffer == old(self).framebuffer,
            final(self).cells() == place_spec(
                old(self).cells(),
                middleweight_spaceship_cells(),
                start_x as int,
                start_y as int,
            ),
    {
        let pattern = vec![
            vec![false, false, true, false, false, false],
            vec![true, false, false, false, true, false],
            vec![false, false, false, false, false, true],
            vec![true, false, false, false, false, true],
            vec![false, true, true, true, true, true],
        ];
        proof {
            lemma_grid_deep_view(pattern);
            assert(pattern.deep_view() =~~= middleweight_spaceship_cells());
        }
        self.add_pattern(start_x, start_y, &pattern);
    }

    /// Places the heavyweight spaceship with its top-left corner at
    /// `(start_x, start_y)`.
    pub fn add_heavyweight_spaceship(&mut self, start_x: usize, start_y: usize)
        requires
            old(self).wf(),
        ensures
            final(self).wf(),
            final(self).width == old(self).width,
            final(self).height == old(self).height,
            final(self).next_state == old(self).next_state,
            final(self).framebuffer == old(self).framebuffer,
            final(self).cells() == place_spec(
                old(self).cells(),
                heavyweight_spaceship_cells(),
                start_x as int,
                start_y as int,
            ),
    {
        let pattern = vec![
            vec![false, false, true, true, false, false, false],
            vec![true, false, false, false, false, true, false],
            vec![false, false, false, false, false, false, true],
            vec![true, false, false, false, false, false, true],
            vec![false, true, true, true, true, true, true],
        ];
        proof {
            lemma_grid_deep_view(pattern);
            assert(pattern.deep_view() =~~= heavyweight_spaceship_cells());
        }
        self.add_pattern(start_x, start_y, &pattern);
    }

    /// Places the Gosper glider gun with its top-left corner at
    /// `(start_x, start_y)`.
    pub fn add_gosper_glider_gun(&mut self, start_x: usize, start_y: usize)
        requires
            old(self).wf(),
        ensures
            final(self).wf(),
            final(self).width == old(self).width,
            final(self).height == old(self).height,
            final(self).next_state == old(self).next_state,
            final(self).framebuffer == old(self).framebuffer,
            final(self).cells() == place_spec(
                old(self).cells(),
                gosper_glider_gun_cells(),
                start_x as int,
                start_y as int,
            ),
    {
        let pattern = vec![
            vec![false, false, false, false, false, false, false, false, false, false, false, false, false, false, false, false, false, false, false, false, false, false, false, false, true, false, false, false, false, false, false, false, false, false, false, false],
            vec![false, false, false, false, false, false, false, false, false, false, false, false, false, false, false, false, false, false, false, false, false, false, true, false, true, false, false, false, false, false, false, false, false, false, false, false],
            vec![false, false, false, false, false, false, false, false, false, false, false, false, true, true, false, false, false, false, false, false, true, true, false, false, false, false, false, false, false, false, false, false, false, false, true, true],
            vec![false, false, false, false, false, false, false, false, false, false, false, true, false, false, false, true, false, false, false, false, true, true, false, false, false, false, false, false, false, false, false, false, false, false, true, true],
            vec![true, true, false, false, false, false, false, false, false, false, true, false, false, false, false, false, true, false, false, false, true, true, false, false, false, false, false, false, false, false, false, false, false, false, false, false],
            vec![true, true, false, false, false, false, false, false, false, false, true, false, false, false, true, false, true, true, false, false, false, false, true, false, true, false, false, false, false, false, false, false, false, false, false, false],
            vec![false, false, false, false, false, false, false, false, false, false, true, false, false, false, false, false, true, false, false, false, false, false, false, false, true, false, false, false, false, false, false, false, false, false, false, false],
            vec![false, false, false, false, false, false, false, false, false, false, false, true, false, false, false, true, false, false, false, false, false, false, false, false, false, false, false, false, false, false, false, false, false, false, false, false],
            vec![false, false, false, false, false, false, false, false, false, false, false, false, true, true, false, false, false, false, false, false, false, false, false, false, false, false, false, false, false, false, false, false, false, false, false, false],
        ];
        proof {
            lemma_grid_deep_view(pattern);
            assert(pattern.deep_view() =~~= gosper_glider_gun_cells());
        }
        self.add_pattern(start_x, start_y, &pattern);
    }

    /// Places the R-pentomino (long-lived methuselah) with its top-left corner at
    /// `(start_x, start_y)`.
    pub fn add_r_pentomino(&mut self, start_x: usize, start_y: usize)
        requires
            old(self).wf(),
        ensures
            final(self).wf(),
            final(self).width == old(self).width,
            final(self).height == old(self).height,
            final(self).next_state == old(self).next_state,
            final(self).framebuffer == old(self).framebuffer,
            final(self).cells() == place_spec(
                old(self).cells(),
                r_pentomino_cells(),
                start_x as int,
                start_y as int,
            ),
    {
        let pattern = vec![
            vec![false, true, true],
            vec![true, true, false],
            vec![false, true, false],
        ];
        proof {
            lemma_grid_deep_view(pattern);
            assert(pattern.deep_view() =~~= r_pentomino_cells());
        }
        self.add_pattern(start_x, start_y, &pattern);
    }

    /// Places the diehard (vanishing methuselah) with its top-left corner at
    /// `(start_x, start_y)`.
    pub fn add_diehard(&mut self, start_x: usize, start_y: usize)
        requires
            old(self).wf(),
        ensures
            final(self).wf(),
            final(self).width == old(self).width,
            final(self).height == old(self).height,
            final(self).next_state == old(self).next_state,
            final(self).framebuffer == old(self).framebuffer,
            final(self).cells() == place_spec(
                old(self).cells(),
                diehard_cells(),
                start_x as int,
                start_y as int,
            ),
    {
        let pattern = vec![
            vec![false, false, false, false, false, false, true, false],
            vec![true, true, false, false, false, false, false, false],
            vec![false, true, false, false, false, true, true, true],
        ];
        proof {
            lemma_grid_deep_view(pattern);
            assert(pattern.deep_view() =~~= diehard_cells());
        }
        self.add_pattern(start_x, start_y, &pattern);
    }

    /// Runs the seeding script: clears the grid, stamps every catalog
    /// pattern at its designated offset, scatters 30 random live cells in a
    /// horizontal band, and resynchronizes the framebuffer. Outside the
    /// scatter band the grid is exactly the deterministic catalog seed;
    /// inside it every seeded live cell is still live, with at most the
    /// scattered cells added.
    #[verifier::loop_isolation(false)]
    pub fn initialize_with_patterns(&mut self)
        requires
            old(self).wf(),
            old(self).width >= 90,
            old(self).height >= 70,
        ensures
            final(self).wf(),
            final(self).width == old(self).width,
            final(self).height == old(self).height,
            forall|x: int, y: int|
                0 <= x < old(self).width && 0 <= y < old(self).height && !in_scatter_band(
                    old(self).width as int,
                    x,
                    y,
                ) ==> #[trigger] final(self).cells()[y][x] == catalog_seed(
                    old(self).width as int,
                    old(self).height as int,
                )[y][x],
            forall|x: int, y: int|
                0 <= x < old(self).width && 0 <= y < old(self).height && in_scatter_band(
                    old(self).width as int,
                    x,
                    y,
                ) && catalog_seed(old(self).width as int, old(self).height as int)[y][x]
                    ==> #[trigger] final(self).cells()[y][x],
            final(self).fb_synced(),
    {
        let ghost w = self.width as int;
        let ghost h = self.height as int;
        let mut y: usize = 0;
        while y < self.height
            invariant
                self.wf(),
                self.width == old(self).width,
                self.height == old(self).height,
                y <= self.height,
                forall|i: int, j: int|
                    0 <= i < w && 0 <= j < y ==> !(#[trigger] self.cells()[j][i]),
            decreases self.height - y,
        {
            let mut x: usize = 0;
            while x < self.width
                invariant
                    self.wf(),
                    self.width == old(self).width,
                    self.height == old(self).height,
                    y < self.height,
                    x <= self.width,
                    forall|i: int, j: int|
                        0 <= i < w && 0 <= j < y ==> !(#[trigger] self.cells()[j][i]),
                    forall|i: int| 0 <= i < x ==> !(#[trigger] self.cells()[y as int][i]),
                decreases self.width - x,
            {
                self.set_cell(x, y, false);
                x += 1;
            }
            y += 1;
        }
        proof {
            assert forall|j: int| 0 <= j < h implies #[trigger] self.cells()[j] =~= empty_cells(
                w as nat,
                h as nat,
            )[j] by {}
            assert(self.cells() =~~= empty_cells(w as nat, h as nat));
        }
        self.add_block(5, 5);
        self.add_beehive(12, 8);
        self.add_loaf(5, 15);
        self.add_boat(15, 18);
        self.add_tub(8, 25);
        self.add_blinker(35, 5);
        self.add_toad(40, 10);
        self.add_beacon(45, 15);
        self.add_pulsar(32, 25);
        self.add_glider(70, 8);
        self.add_lightweight_spaceship(65, 15);
        self.add_middleweight_spaceship(60, 25);
        self.add_heavyweight_spaceship(self.width - 25, self.height - 15);
        self.add_pentadecathlon(self.width - 15, self.height - 25);
        self.add_gosper_glider_gun(self.width - 40, self.height - 20);
        self.add_r_pentomino(25, 50);
        self.add_diehard(15, 40);
        let ghost base = catalog_seed(w, h);
        proof {
            assert(self.cells() == base);
        }
        let mut i: usize = 0;
        while i < 30
            invariant
                self.wf(),
                self.width == old(self).width,
                self.height == old(self).height,
                forall|xx: int, yy: int|
                    0 <= xx < w && 0 <= yy < h && !in_scatter_band(w, xx, yy)
                        ==> #[trigger] self.cells()[yy][xx] == base[yy][xx],
                forall|xx: int, yy: int|
                    0 <= xx < w && 0 <= yy < h && in_scatter_band(w, xx, yy) && base[yy][xx]
                        ==> #[trigger] self.cells()[yy][xx],
            decreases 30 - i,
        {
            let x = random_in_range(5, self.width - 5);
            let y = random_in_range(35, 50);
            self.set_cell(x, y, true);
            i += 1;
        }
        let ghost before_sync = self.cells();
        self.update_framebuffer();
        proof {
            assert(self.cells() == before_sync);
            assert forall|x: int, y: int|
                0 <= x < w && 0 <= y < h && !in_scatter_band(w, x, y) implies #[trigger] self.cells()[y][x] == base[y][x] by {
                assert(before_sync[y][x] == base[y][x]);
            }
            assert forall|x: int, y: int|
                0 <= x < w && 0 <= y < h && in_scatter_band(w, x, y) && base[y][x] implies #[trigger] self.cells()[y][x] by {
                assert(before_sync[y][x]);
            }
        }
    }
}

} // verus!
