//! Pixel buffers and the drawing operations that target them.
//!
//! A canvas is an addressable pixel buffer bound to the display's configured
//! dimensions. It is either the buffer currently driving the display or a
//! pending one; all drawing operations mutate a canvas, and the owning
//! matrix's swap protocol decides which buffer the panel shows.

use vstd::prelude::*;

use crate::font::FontView;
use crate::font::LedFont;

verus! {

/// Three 8-bit intensity values; a pure value type.
#[derive(Clone, Copy, Debug, PartialEq, Eq, Structural)]
pub struct LedColor {
    pub red: u8,
    pub green: u8,
    pub blue: u8,
}

/// A coordinate pair on a canvas; a pure value type.
#[derive(Clone, Copy, Debug, PartialEq, Eq, Structural)]
pub struct Pixel {
    pub x: i32,
    pub y: i32,
}

/// The mathematical model of a canvas: its dimensions and the row-major
/// sequence of its pixels.
#[verifier::ext_equal]
pub struct CanvasView {
    pub width: int,
    pub height: int,
    pub pixels: Seq<LedColor>,
}

impl CanvasView {
    /// A canvas is well formed when it holds exactly one pixel per cell of
    /// its width-by-height grid.
    pub open spec fn wf(self) -> bool {
        &&& 0 <= self.width
        &&& 0 <= self.height
        &&& self.pixels.len() == self.width * self.height
    }

    /// Whether a coordinate pair addresses a cell of the grid.
    pub open spec fn in_bounds(self, p: Pixel) -> bool {
        0 <= p.x < self.width && 0 <= p.y < self.height
    }

    /// The row-major index of an in-bounds coordinate pair.
    pub open spec fn idx_of(self, p: Pixel) -> int {
        p.y * self.width + p.x
    }

    /// The canvas after one pixel write. A write outside the grid leaves the
    /// canvas unchanged.
    pub open spec fn write(self, p: Pixel, c: LedColor) -> CanvasView {
        if self.in_bounds(p) {
            CanvasView { pixels: self.pixels.update(self.idx_of(p), c), ..self }
        } else {
            self
        }
    }

    /// The canvas with every pixel set to the given color.
    pub open spec fn filled(self, c: LedColor) -> CanvasView {
        CanvasView { pixels: Seq::new(self.pixels.len(), |i: int| c), ..self }
    }

    /// Whether `after` differs from `self` only by pixels painted in the
    /// color `c`: the relation every rasterization step preserves.
    pub open spec fn only_painted(self, after: CanvasView, c: LedColor) -> bool {
        &&& after.width == self.width
        &&& after.height == self.height
        &&& after.pixels.len() == self.pixels.len()
        &&& forall|j: int|
            0 <= j < after.pixels.len() ==> after.pixels[j] == self.pixels[j] || after.pixels[j]
                == c
    }

    /// The color at a coordinate pair, or `None` outside the grid.
    pub open spec fn color_at(self, p: Pixel) -> Option<LedColor> {
        if self.in_bounds(p) {
            Some(self.pixels[self.idx_of(p)])
        } else {
            None
        }
    }
}

/// An addressable pixel buffer. Buffers are recycled by the owning matrix's
/// swap protocol rather than destroyed; drawing operations never change a
/// canvas's dimensions.
pub struct LedCanvas {
    width: i32,
    height: i32,
    pixels: Vec<LedColor>,
}

impl View for LedCanvas {
    type V = CanvasView;

    closed spec fn view(&self) -> CanvasView {
        CanvasView {
            width: self.width as int,
            height: self.height as int,
            pixels: self.pixels@,
        }
    }
}

impl LedCanvas {
    /// A fresh buffer of the given dimensions with every pixel off.
    pub fn blank(width: i32, height: i32) -> (c: LedCanvas)
        requires
            0 <= width,
            0 <= height,
            width * height <= usize::MAX,
        ensures
            c@.wf(),
            c@.width == width,
            c@.height == height,
            forall|i: int| 0 <= i < c@.pixels.len() ==> c@.pixels[i] == (LedColor {
                red: 0,
                green: 0,
                blue: 0,
            }),
    {
        let n: usize = (width as usize) * (height as usize);
        let mut pixels: Vec<LedColor> = Vec::new();
        while pixels.len() < n
            invariant
                pixels@.len() <= n,
                forall|i: int| 0 <= i < pixels@.len() ==> pixels@[i] == (LedColor {
                    red: 0,
                    green: 0,
                    blue: 0,
                }),
            decreases n - pixels@.len(),
        {
            pixels.push(LedColor { red: 0, green: 0, blue: 0 });
        }
        LedCanvas { width, height, pixels }
    }

    /// The size of the canvas as (width, height) in pixels.
    pub fn size(&self) -> (r: (i32, i32))
        ensures
            r.0 == self@.width,
            r.1 == self@.height,
    {
        (self.width, self.height)
    }

    /// Reads the color of one pixel; `None` outside the grid.
    pub fn pixel_at(&self, pixel: Pixel) -> (r: Option<LedColor>)
        requires
            self@.wf(),
        ensures
            r == self@.color_at(pixel),
    {
        if pixel.x >= 0 && pixel.y >= 0 && pixel.x < self.width && pixel.y < self.height {
            proof {
                lemma_row_major_index(self@, pixel);
            }
            let n: usize = self.pixels.len();
            assert(pixel.y * self.width + pixel.x < n);
            let idx: usize = (pixel.y as usize) * (self.width as usize) + (pixel.x as usize);
            Some(self.pixels[idx])
        } else {
            None
        }
    }

    /// Sets the color of one pixel. Writes outside the grid are a no-op, the
    /// defined behavior of this layer for out-of-range coordinates.
    pub fn set(&mut self, pixel: Pixel, color: &LedColor)
        requires
            old(self)@.wf(),
        ensures
            final(self)@ == old(self)@.write(pixel, *color),
            final(self)@.wf(),
            old(self)@.only_painted(final(self)@, *color),
    {
        if pixel.x >= 0 && pixel.y >= 0 && pixel.x < self.width && pixel.y < self.height {
            proof {
                lemma_row_major_index(self@, pixel);
            }
            let n: usize = self.pixels.len();
            assert(pixel.y * self.width + pixel.x < n);
            let idx: usize = (pixel.y as usize) * (self.width as usize) + (pixel.x as usize);
            self.pixels[idx] = *color;
        }
    }

    /// Fills the canvas with the given color.
    #[verifier::loop_isolation(false)]
    pub fn fill(&mut self, color: &LedColor)
        requires
            old(self)@.wf(),
        ensures
            final(self)@ == old(self)@.filled(*color),
            final(self)@.wf(),
    {
        let n: usize = self.pixels.len();
        for i in 0..n
            invariant
                self.width == old(self).width,
                self.height == old(self).height,
                self.pixels@.len() == n,
                forall|j: int| 0 <= j < i ==> self.pixels@[j] == *color,
        {
            self.pixels[i] = *color;
        }
        proof {
            assert(self@ =~= old(self)@.filled(*color));
        }
    }

    /// Sets every pixel to off (zero intensity).
    pub fn clear(&mut self)
        requires
            old(self)@.wf(),
        ensures
            final(self)@ == old(self)@.filled((LedColor { red: 0, green: 0, blue: 0 })),
            final(self)@.wf(),
    {
        self.fill(&(LedColor { red: 0, green: 0, blue: 0 }));
    }

    /// Sets one pixel from 64-bit coordinates, ignoring any that fall outside
    /// the 32-bit coordinate space; rasterization helpers reach here with
    /// offsets that may have left it.
    fn set_clipped(&mut self, x: i64, y: i64, color: &LedColor)
        requires
            old(self)@.wf(),
        ensures
            final(self)@.wf(),
            final(self)@.width == old(self)@.width,
            final(self)@.height == old(self)@.height,
            final(self)@ == if (i32::MIN <= x <= i32::MAX && i32::MIN <= y <= i32::MAX) {
                old(self)@.write(Pixel { x: x as i32, y: y as i32 }, *color)
            } else {
                old(self)@
            },
            old(self)@.only_painted(final(self)@, *color),
    {
        if x >= (i32::MIN as i64) && x <= (i32::MAX as i64) && y >= (i32::MIN as i64) && y <= (
        i32::MAX as i64) {
            self.set(Pixel { x: x as i32, y: y as i32 }, color);
        }
    }

    /// Draws a line between two points in the given color. The exact set of
    /// pixels the segment rasterizes to is this layer's own stepping and not
    /// part of the external drawing contract, but both endpoints are painted
    /// and the canvas keeps its dimensions.
    #[verifier::loop_isolation(false)]
    pub fn draw_line(&mut self, begin: Pixel, end: Pixel, color: &LedColor)
        requires
            old(self)@.wf(),
        ensures
            final(self)@.wf(),
            old(self)@.only_painted(final(self)@, *color),
            old(self)@.in_bounds(begin) ==> final(self)@.color_at(begin) == Some(*color),
            old(self)@.in_bounds(end) ==> final(self)@.color_at(end) == Some(*color),
    {
        let dx: i64 = (end.x as i64) - (begin.x as i64);
        let dy: i64 = (end.y as i64) - (begin.y as i64);
        let adx: i64 = if dx < 0 {
            -dx
        } else {
            dx
        };
        let ady: i64 = if dy < 0 {
            -dy
        } else {
            dy
        };
        let steps: i64 = if adx > ady {
            adx
        } else {
            ady
        };
        if steps == 0 {
            proof {
                if old(self)@.in_bounds(begin) {
                    lemma_row_major_index(old(self)@, begin);
                }
                assert(begin == end);
            }
            self.set(begin, color);
            return ;
        }
        let mut i: i64 = 0;
        while i <= steps
            invariant
                1 <= steps,
                0 <= i <= steps + 1,
                self@.wf(),
                old(self)@.only_painted(self@, *color),
                1 <= i && old(self)@.in_bounds(begin) ==> self@.color_at(begin) == Some(*color),
                steps < i && old(self)@.in_bounds(end) ==> self@.color_at(end) == Some(*color),
            decreases steps + 1 - i,
        {
            let qx: i64 = line_offset(adx, i, steps);
            let qy: i64 = line_offset(ady, i, steps);
            let x: i64 = if dx < 0 {
                (begin.x as i64) - qx
            } else {
                (begin.x as i64) + qx
            };
            let y: i64 = if dy < 0 {
                (begin.y as i64) - qy
            } else {
                (begin.y as i64) + qy
            };
            proof {
                if i == 0 {
                    lemma_offset_ends(adx as int, steps as int);
                    lemma_offset_ends(ady as int, steps as int);
                    assert(x == begin.x && y == begin.y);
                }
                if i == steps {
                    lemma_offset_ends(adx as int, steps as int);
                    lemma_offset_ends(ady as int, steps as int);
                    assert(x == end.x && y == end.y);
                }
                if self@.in_bounds(begin) {
                    lemma_row_major_index(self@, begin);
                }
                if self@.in_bounds(end) {
                    lemma_row_major_index(self@, end);
                }
                if self@.in_bounds((Pixel { x: x as i32, y: y as i32 })) {
                    lemma_row_major_index(self@, (Pixel { x: x as i32, y: y as i32 }));
                }
            }
            self.set_clipped(x, y, color);
            i = i + 1;
        }
    }

    /// Draws a circle of the given radius around the center in the given
    /// color, by midpoint stepping through one octant and mirroring it eight
    /// ways. The exact pixel set is this layer's own stepping and not part of
    /// the external drawing contract; the canvas keeps its dimensions.
    #[verifier::loop_isolation(false)]
    pub fn draw_circle(&mut self, center: Pixel, radius: u16, color: &LedColor)
        requires
            old(self)@.wf(),
        ensures
            final(self)@.wf(),
            old(self)@.only_painted(final(self)@, *color),
    {
        let cx: i64 = center.x as i64;
        let cy: i64 = center.y as i64;
        let r: i64 = radius as i64;
        let mut x: i64 = r;
        let mut y: i64 = 0;
        let mut err: i64 = 1 - r;
        while x >= y
            invariant
                -1 <= x <= r,
                0 <= y <= r + 1,
                y <= x + 2,
                -2 * r - 1 <= err <= 2 * r + 5 + 5 * (r - x + 1),
                self@.wf(),
                old(self)@.only_painted(self@, *color),
            decreases x - y + 2,
        {
            self.set_clipped(cx + x, cy + y, color);
            self.set_clipped(cx + y, cy + x, color);
            self.set_clipped(cx - y, cy + x, color);
            self.set_clipped(cx - x, cy + y, color);
            self.set_clipped(cx - x, cy - y, color);
            self.set_clipped(cx - y, cy - x, color);
            self.set_clipped(cx + y, cy - x, color);
            self.set_clipped(cx + x, cy - y, color);
            y = y + 1;
            if err < 0 {
                err = err + 2 * y + 1;
            } else {
                x = x - 1;
                err = err + 2 * (y - x) + 1;
            }
        }
    }

    /// Renders a line of glyphs starting at the given origin, horizontally or
    /// vertically, and returns the total advance in pixels the text consumes:
    /// one glyph extent plus the kerning offset per character. This layer
    /// accounts the layout exactly; putting ink on the glyph cells is the
    /// native renderer's side of the contract.
    pub fn draw_text(
        &mut self,
        font: &LedFont,
        text: &str,
        pixel: Pixel,
        color: &LedColor,
        kerning_offset: i32,
        vertical: bool,
    ) -> (advance: i32)
        requires
            old(self)@.wf(),
            font@.wf(),
            text@.len() <= i32::MAX,
            i32::MIN <= text_advance(text@.len() as int, font@, kerning_offset as int, vertical)
                <= i32::MAX,
        ensures
            final(self)@ == old(self)@,
            advance == text_advance(text@.len() as int, font@, kerning_offset as int, vertical),
    {
        let count = char_count(text);
        let glyph: i64 = if vertical {
            font.height() as i64
        } else {
            font.advance() as i64
        };
        let step: i64 = glyph + (kerning_offset as i64);
        let total: i64 = (count as i64) * step;
        total as i32
    }
}

/// The total advance in pixels that a line of `len` glyphs consumes: each
/// glyph contributes its extent along the drawing direction plus the kerning
/// offset.
pub open spec fn text_advance(len: int, font: FontView, kerning: int, vertical: bool) -> int {
    len * ((if vertical {
        font.height
    } else {
        font.advance
    }) + kerning)
}

/// Laws of the text-advance accounting: empty text consumes no pixels, and
/// with a well-formed font and a non-negative kerning offset, non-empty text
/// consumes a strictly positive advance.
pub proof fn lemma_text_advance(len: int, font: FontView, kerning: int, vertical: bool)
    requires
        font.wf(),
        0 <= len,
        0 <= kerning,
    ensures
        len == 0 ==> text_advance(len, font, kerning, vertical) == 0,
        1 <= len ==> text_advance(len, font, kerning, vertical) >= 1,
{
    let step = (if vertical {
        font.height
    } else {
        font.advance
    }) + kerning;
    assert(1 <= len && 1 <= step ==> len * step >= 1) by (nonlinear_arith);
}

/// The number of characters the text holds.
#[verifier::loop_isolation(false)]
fn char_count(text: &str) -> (n: usize)
    requires
        text@.len() <= usize::MAX,
    ensures
        n == text@.len(),
{
    let mut n: usize = 0;
    for c in it: text.chars()
        invariant
            n == it.index(),
    {
        n = n + 1;
    }
    n
}

/// The offset that the stepping of [`LedCanvas::draw_line`] covers along one
/// axis after `i` of `steps` steps: the delta scaled by the fraction of steps
/// taken. It never exceeds the axis delta.
fn line_offset(delta: i64, i: i64, steps: i64) -> (q: i64)
    requires
        0 <= delta <= steps,
        0 <= i <= steps,
        1 <= steps <= 0x1_0000_0000,
    ensures
        0 <= q <= delta,
        q == ((delta as int) * (i as int)) / (steps as int),
{
    proof {
        assert(0 <= (delta as int) * (i as int) <= 0x1_0000_0000 * 0x1_0000_0000)
            by (nonlinear_arith)
            requires
                0 <= delta <= 0x1_0000_0000,
                0 <= i <= 0x1_0000_0000,
        ;
        lemma_line_offset_bounds(delta as int, i as int, steps as int);
    }
    (((delta as i128) * (i as i128)) / (steps as i128)) as i64
}

/// The scaled offset stays between zero and the axis delta.
proof fn lemma_line_offset_bounds(delta: int, i: int, steps: int)
    requires
        0 <= delta,
        0 <= i <= steps,
        1 <= steps,
    ensures
        0 <= (delta * i) / steps <= delta,
{
    assert(0 <= (delta * i) / steps <= delta) by (nonlinear_arith)
        requires
            0 <= delta,
            0 <= i <= steps,
            1 <= steps,
    ;
}

/// At the first step the line offset is zero; at the last it is exactly the
/// axis delta, so the stepping reaches the far endpoint.
proof fn lemma_offset_ends(delta: int, steps: int)
    requires
        0 <= delta,
        1 <= steps,
    ensures
        (delta * 0) / steps == 0,
        (delta * steps) / steps == delta,
{
    assert((delta * steps) / steps == delta) by (nonlinear_arith)
        requires
            0 <= delta,
            1 <= steps,
    ;
}

/// The row-major index of an in-bounds pixel lies inside the buffer.
proof fn lemma_row_major_index(v: CanvasView, p: Pixel)
    requires
        v.wf(),
        v.in_bounds(p),
    ensures
        0 <= v.idx_of(p) < v.pixels.len(),
{
    assert(0 <= p.y * v.width + p.x < v.width * v.height) by (nonlinear_arith)
        requires
            0 <= p.x < v.width,
            0 <= p.y < v.height,
    ;
}

} // verus!
