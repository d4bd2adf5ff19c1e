//! A flat pixel buffer addressed by `(x, y)`, with point-set, read, clear,
//! and exact nearest-neighbor upscaling to a display resolution.
//!
//! Out-of-range writes are no-ops and out-of-range reads return black, so
//! the buffer never fails; scaling floors the real-valued source coordinate,
//! which on integers is exact division.

use vstd::prelude::*;

verus! {

/// Color of a live cell.
pub const WHITE: u32 = 0xFFFFFF;

/// Color of a dead cell, and the fill color of fresh buffers.
pub const BLACK: u32 = 0x000000;

/// Reserved background shade; part of the palette, unused by the current
/// rendering rules.
pub const GRAY: u32 = 0x333333;

/// Row-major index of `(x, y)` in a buffer of row length `w` stays within a
/// `w * h` buffer.
pub proof fn lemma_flat_index_bound(w: int, h: int, x: int, y: int)
    requires
        0 <= x < w,
        0 <= y < h,
    ensures
        0 <= y * w + x < w * h,
{
    assert(0 <= y * w + x < w * h) by (nonlinear_arith)
        requires
            0 <= x < w,
            0 <= y < h,
    ;
}

/// Distinct in-range coordinates map to distinct row-major indices.
pub proof fn lemma_flat_index_injective(w: int, x1: int, y1: int, x2: int, y2: int)
    requires
        0 <= x1 < w,
        0 <= x2 < w,
        0 <= y1,
        0 <= y2,
        x1 != x2 || y1 != y2,
    ensures
        y1 * w + x1 != y2 * w + x2,
{
    assert(y1 * w + x1 != y2 * w + x2) by (nonlinear_arith)
        requires
            0 <= x1 < w,
            0 <= x2 < w,
            0 <= y1,
            0 <= y2,
            x1 != x2 || y1 != y2,
    ;
}

/// A flat pixel buffer of `width * height` packed RGB colors, row-major.
pub struct Framebuffer {
    pub buffer: Vec<u32>,
    pub width: usize,
    pub height: usize,
}

impl Framebuffer {
    /// The buffer always holds exactly one pixel per coordinate.
    pub open spec fn wf(&self) -> bool {
        self.buffer@.len() == self.width * self.height
    }

    /// The color stored at `(x, y)`; anything outside the buffer reads as
    /// black.
    pub open spec fn color_at(&self, x: int, y: int) -> u32 {
        if 0 <= x < self.width && 0 <= y < self.height {
            self.buffer@[y * self.width + x]
        } else {
            BLACK
        }
    }

    /// The nearest-neighbor sample for destination pixel `(dx, dy)` of a
    /// `tw x th` display: the source coordinate is the floored quotient, and
    /// a source outside the buffer (unreachable for positive dimensions)
    /// yields the fill color through `color_at`.
    pub open spec fn scaled_pixel(&self, tw: int, th: int, dx: int, dy: int) -> u32 {
        self.color_at(dx * self.width / tw, dy * self.height / th)
    }

    /// The whole upscaled display buffer, row-major.
    pub open spec fn scaled_buffer_spec(&self, tw: int, th: int) -> Seq<u32> {
        Seq::new((tw * th) as nat, |k: int| self.scaled_pixel(tw, th, k % tw, k / tw))
    }

    /// Row-major indexing into the scaled buffer by destination coordinates.
    pub proof fn lemma_scaled_index(&self, tw: int, th: int, dx: int, dy: int)
        requires
            0 <= dx < tw,
            0 <= dy < th,
        ensures
            0 <= dy * tw + dx < tw * th,
            self.scaled_buffer_spec(tw, th)[dy * tw + dx] == self.scaled_pixel(tw, th, dx, dy),
    {
        lemma_flat_index_bound(tw, th, dx, dy);
        assert((dy * tw + dx) % tw == dx && (dy * tw + dx) / tw == dy) by (nonlinear_arith)
            requires
                0 <= dx < tw,
                0 <= dy,
        ;
    }

    /// A fresh buffer of the given dimensions, filled with black.
    pub fn new(width: usize, height: usize) -> (fb: Framebuffer)
        requires
            width * height <= usize::MAX,
        ensures
            fb.wf(),
            fb.width == width,
            fb.height == height,
            forall|k: int| 0 <= k < fb.buffer@.len() ==> fb.buffer@[k] == BLACK,
    {
        let size: usize = width * height;
        let mut buffer: Vec<u32> = Vec::new();
        while buffer.len() < size
            invariant
                buffer@.len() <= size,
                forall|k: int| 0 <= k < buffer@.len() ==> buffer@[k] == BLACK,
            decreases size - buffer@.len(),
        {
            buffer.push(BLACK);
        }
        Framebuffer { buffer, width, height }
    }

    /// Writes one pixel; writes outside the buffer are silently dropped.
    pub fn point(&mut self, x: usize, y: usize, color: u32)
        requires
            old(self).wf(),
        ensures
            final(self).wf(),
            final(self).width == old(self).width,
            final(self).height == old(self).height,
            x < old(self).width && y < old(self).height ==> final(self).buffer@ == old(
                self,
            ).buffer@.update(y * old(self).width + x, color),
            !(x < old(self).width && y < old(self).height) ==> final(self).buffer@ == old(
                self,
            ).buffer@,
    {
        if x < self.width && y < self.height {
            proof {
                vstd::std_specs::vec::axiom_spec_len(&self.buffer);
                lemma_flat_index_bound(self.width as int, self.height as int, x as int, y as int);
            }
            let index: usize = y * self.width + x;
            self.buffer[index] = color;
        }
    }

    /// Reads one pixel; reads outside the buffer return black.
    pub fn get_color(&self, x: usize, y: usize) -> (color: u32)
        requires
            self.wf(),
        ensures
            color == self.color_at(x as int, y as int),
    {
        if x < self.width && y < self.height {
            proof {
                vstd::std_specs::vec::axiom_spec_len(&self.buffer);
                lemma_flat_index_bound(self.width as int, self.height as int, x as int, y as int);
            }
            let index: usize = y * self.width + x;
            self.buffer[index]
        } else {
            BLACK
        }
    }

    /// Fills every pixel with one color.
    pub fn clear(&mut self, color: u32)
        requires
            old(self).wf(),
        ensures
            final(self).wf(),
            final(self).width == old(self).width,
            final(self).height == old(self).height,
            final(self).buffer@.len() == old(self).buffer@.len(),
            forall|k: int| 0 <= k < final(self).buffer@.len() ==> final(self).buffer@[k] == color,
    {
        let mut i: usize = 0;
        while i < self.buffer.len()
            invariant
                self.wf(),
                self.width == old(self).width,
                self.height == old(self).height,
                self.buffer@.len() == old(self).buffer@.len(),
                i <= self.buffer@.len(),
                forall|k: int| 0 <= k < i ==> self.buffer@[k] == color,
            decreases self.buffer@.len() - i,
        {
            self.buffer[i] = color;
            i += 1;
        }
    }

    /// Upscales the buffer to `target_width x target_height` by exact
    /// nearest-neighbor sampling: every destination pixel copies the source
    /// pixel at the floored quotient coordinate, so each source pixel
    /// becomes a solid block, with no blending.
    #[verifier::loop_isolation(false)]
    pub fn scale_to_window(&self, target_width: usize, target_height: usize) -> (scaled: Vec<u32>)
        requires
            self.wf(),
            target_width * target_height <= usize::MAX,
            target_width * self.width <= usize::MAX,
            target_height * self.height <= usize::MAX,
        ensures
            scaled@ == self.scaled_buffer_spec(target_width as int, target_height as int),
    {
        let ghost twi = target_width as int;
        let ghost thi = target_height as int;
        let mut scaled: Vec<u32> = Vec::new();
        let mut y: usize = 0;
        while y < target_height
            invariant
                y <= target_height,
                scaled@.len() == y * target_width,
                forall|k: int| 0 <= k < scaled@.len() ==> scaled@[k] == self.scaled_buffer_spec(
                    twi,
                    thi,
                )[k],
            decreases target_height - y,
        {
            let mut x: usize = 0;
            proof {
                assert((y + 1) * twi <= twi * thi) by (nonlinear_arith)
                    requires
                        0 <= y < thi,
                        0 <= twi,
                ;
            }
            while x < target_width
                invariant
                    x <= target_width,
                    (y + 1) * twi <= twi * thi,
                    scaled@.len() == y * target_width + x,
                    forall|k: int| 0 <= k < scaled@.len() ==> scaled@[k]
                        == self.scaled_buffer_spec(twi, thi)[k],
                decreases target_width - x,
            {
                proof {
                    assert(x * self.width <= twi * self.width && y * self.height <= thi
                        * self.height) by (nonlinear_arith)
                        requires
                            0 <= x <= twi,
                            0 <= y <= thi,
                            0 <= self.width,
                            0 <= self.height,
                    ;
                }
                let src_x: usize = x * self.width / target_width;
                let src_y: usize = y * self.height / target_height;
                let color: u32 = if src_x < self.width && src_y < self.height {
                    self.get_color(src_x, src_y)
                } else {
                    BLACK
                };
                proof {
                    self.lemma_scaled_index(twi, thi, x as int, y as int);
                    assert(color == self.scaled_buffer_spec(twi, thi)[y * twi + x]);
                }
                scaled.push(color);
                x += 1;
            }
            proof {
                assert((y + 1) * target_width == y * target_width + target_width)
                    by (nonlinear_arith);
            }
            y += 1;
        }
        proof {
            assert(scaled@.len() == twi * thi) by (nonlinear_arith)
                requires
                    scaled@.len() == thi * twi,
            ;
            assert(scaled@ =~= self.scaled_buffer_spec(twi, thi));
        }
        scaled
    }
}

} // verus!
