//! The frame buffer: one back-buffer's pixels, the clip regions in force, and
//! the drawing primitives, all of which composite and none of which overwrite.

use vstd::prelude::*;
use vstd::arithmetic::div_mod::lemma_fundamental_div_mod;
use vstd::arithmetic::div_mod::lemma_fundamental_div_mod_converse;
use vstd::arithmetic::div_mod::lemma_mod_bound;
use crate::color::Color;
use crate::color::BACKGROUND_BITS;
use crate::geometry::Rect;

verus! {

/// The number of bytes that one pixel takes in a row.
pub const COLOR_SIZE: usize = 2;

/// One back-buffer for the length of a frame.
///
/// A row of pixels takes `stride` bytes, which may be more than the pixels
/// that can be seen need: the pixel `(x, y)` is the cell
/// `y * stride_item_count() + x` of `buffer`. The last entry of `scissor`, if
/// there is one, is the clip region in force.
pub struct FrameBuffer {
    pub width: usize,
    pub height: usize,
    pub stride: usize,
    pub buffer: Vec<Color>,
    pub scissor: Vec<Rect>,
}

/// `pixels` with `color` composited onto each pixel of `target`, where a row
/// holds `stride` cells.
pub open spec fn blend_rect(pixels: Seq<Color>, stride: int, target: Rect, color: Color) -> Seq<
    Color,
> {
    Seq::new(
        pixels.len(),
        |i: int|
            if stride > 0 && target.spec_contains(i % stride, i / stride) {
                pixels[i].spec_blend_with(color, true)
            } else {
                pixels[i]
            },
    )
}

/// `blend_rect`, as far as the rows before `row` and, in that row, the columns
/// before `col` go.
spec fn blend_rect_until(
    pixels: Seq<Color>,
    stride: int,
    target: Rect,
    color: Color,
    row: int,
    col: int,
) -> Seq<Color> {
    Seq::new(
        pixels.len(),
        |i: int|
            if stride > 0 && target.spec_contains(i % stride, i / stride) && (i / stride < row || (i
                / stride == row && i % stride < col)) {
                pixels[i].spec_blend_with(color, true)
            } else {
                pixels[i]
            },
    )
}

/// Half the line width, and at least one pixel.
pub open spec fn spec_line_offset(line_width: usize) -> usize {
    if line_width / 2 < 1 {
        1
    } else {
        line_width / 2
    }
}

/// `a - b`, held at zero.
pub open spec fn minus(a: usize, b: usize) -> usize {
    if a < b {
        0
    } else {
        (a - b) as usize
    }
}

/// `a + b`, held at the largest value.
pub open spec fn plus(a: usize, b: usize) -> usize {
    if a + b > usize::MAX {
        usize::MAX
    } else {
        (a + b) as usize
    }
}

/// The band above the top edge of `rect`: `offset` pixels high, and `offset`
/// pixels past each side.
pub open spec fn top_band(rect: Rect, offset: usize) -> Rect {
    Rect {
        left: minus(rect.left, offset),
        top: minus(rect.top, offset),
        width: plus(rect.width, plus(offset, offset)),
        height: offset,
    }
}

/// The band below the bottom edge of `rect`: `offset` pixels high, and
/// `offset` pixels past each side.
pub open spec fn bottom_band(rect: Rect, offset: usize) -> Rect {
    Rect {
        left: minus(rect.left, offset),
        top: rect.spec_bottom(),
        width: plus(rect.width, plus(offset, offset)),
        height: offset,
    }
}

/// The band left of the left edge of `rect`: `offset` pixels wide, and
/// `offset` pixels past the top and the bottom.
pub open spec fn left_band(rect: Rect, offset: usize) -> Rect {
    Rect {
        left: minus(rect.left, offset),
        top: minus(rect.top, offset),
        width: offset,
        height: plus(rect.height, plus(offset, offset)),
    }
}

/// The band right of the right edge of `rect`: `offset` pixels wide, and
/// `offset` pixels past the top and the bottom.
pub open spec fn right_band(rect: Rect, offset: usize) -> Rect {
    Rect {
        left: rect.spec_right(),
        top: minus(rect.top, offset),
        width: offset,
        height: plus(rect.height, plus(offset, offset)),
    }
}

/// In a row of `stride` cells, the cell `row * stride + col` is that of the
/// pixel `(col, row)` and of no other.
proof fn lemma_cell_of_pixel(stride: int, col: int, row: int)
    requires
        0 <= col < stride,
        0 <= row,
    ensures
        (row * stride + col) / stride == row,
        (row * stride + col) % stride == col,
        forall|i: int|
            (#[trigger] (i / stride) == row && i % stride == col) ==> i == row * stride + col,
{
    lemma_fundamental_div_mod_converse(row * stride + col, stride, row, col);
    assert forall|i: int| (#[trigger] (i / stride) == row && i % stride == col) implies i == row
        * stride + col by {
        lemma_fundamental_div_mod(i, stride);
        assert(stride * row == row * stride) by (nonlinear_arith);
    }
}

/// The cells of the rows before `rows` come before `rows * stride`.
proof fn lemma_cell_in_rows(stride: int, col: int, row: int, rows: int)
    requires
        0 <= col < stride,
        0 <= row < rows,
    ensures
        0 <= row * stride,
        row * stride + col < rows * stride,
{
    assert(0 <= row * stride && row * stride + stride <= rows * stride) by (nonlinear_arith)
        requires
            0 <= row,
            row + 1 <= rows,
            0 < stride,
    ;
}

/// A draw call reaches the visible pixels of its rectangle and nothing else:
/// the cell of a pixel is blended exactly when the pixel lies in the
/// rectangle, in the clip region in force and in the visible area; every cell
/// that is no visible pixel's, such as the padding at the end of a row, stays
/// as it was; and no cell is added or taken away.
pub proof fn lemma_drawn_cells(
    fb: FrameBuffer,
    pixels: Seq<Color>,
    rect: Rect,
    color: Color,
    x: int,
    y: int,
)
    requires
        fb.wf(),
        0 <= x < fb.spec_stride_item_count(),
        0 <= y,
        y * fb.spec_stride_item_count() + x < pixels.len(),
    ensures
        fb.drawn(pixels, rect, color).len() == pixels.len(),
        fb.clip(rect).spec_contains(x, y) <==> rect.spec_contains(x, y) && fb.bounds().spec_contains(
            x,
            y,
        ) && (fb.scissor@.len() > 0 ==> fb.scissor@.last().spec_contains(x, y)),
        fb.clip(rect).spec_contains(x, y) ==> fb.drawn(pixels, rect, color)[y
            * fb.spec_stride_item_count() + x] == pixels[y * fb.spec_stride_item_count()
            + x].spec_blend_with(color, true),
        !fb.clip(rect).spec_contains(x, y) ==> fb.drawn(pixels, rect, color)[y
            * fb.spec_stride_item_count() + x] == pixels[y * fb.spec_stride_item_count() + x],
{
    let s = fb.spec_stride_item_count() as int;
    lemma_cell_of_pixel(s, x, y);
    assert(0 <= y * s) by (nonlinear_arith)
        requires
            0 <= y,
            0 <= s,
    ;
}

impl FrameBuffer {
    pub open spec fn spec_stride_item_count(&self) -> usize {
        self.stride / COLOR_SIZE
    }

    /// A row is at least as long as its visible part, and the buffer holds
    /// every row.
    pub open spec fn wf(&self) -> bool {
        &&& self.width <= self.spec_stride_item_count()
        &&& self.height * self.spec_stride_item_count() <= self.buffer@.len()
    }

    /// The whole visible area.
    pub open spec fn bounds(&self) -> Rect {
        Rect { left: 0, top: 0, width: self.width, height: self.height }
    }

    /// The part of `rect` that a draw call reaches: what the clip region in
    /// force leaves of it, within the visible area.
    pub open spec fn clip(&self, rect: Rect) -> Rect {
        if self.scissor@.len() > 0 {
            rect.spec_intersect(self.scissor@.last()).spec_intersect(self.bounds())
        } else {
            rect.spec_intersect(self.bounds())
        }
    }

    /// The pixels after a draw call with `rect` and `color`.
    pub open spec fn drawn(&self, pixels: Seq<Color>, rect: Rect, color: Color) -> Seq<Color> {
        blend_rect(pixels, self.spec_stride_item_count() as int, self.clip(rect), color)
    }

    /// Everything but the pixels is as in `other`.
    pub open spec fn same_frame(&self, other: &FrameBuffer) -> bool {
        &&& self.width == other.width
        &&& self.height == other.height
        &&& self.stride == other.stride
        &&& self.scissor@ == other.scissor@
        &&& self.buffer@.len() == other.buffer@.len()
    }

    /// A frame buffer over `buffer`, if a row of `stride` bytes holds `width`
    /// pixels and `buffer` holds `height` rows.
    pub fn new(
        width: usize,
        height: usize,
        stride: usize,
        buffer: Vec<Color>,
        scissor: Vec<Rect>,
    ) -> (r: Option<FrameBuffer>)
        ensures
            r.is_some() <==> width <= stride / COLOR_SIZE && height * (stride / COLOR_SIZE)
                <= buffer@.len(),
            r matches Some(fb) ==> fb.wf() && fb.width == width && fb.height == height && fb.stride
                == stride && fb.buffer@ == buffer@ && fb.scissor@ == scissor@,
    {
        let items: usize = stride / COLOR_SIZE;
        if width > items {
            return None;
        }
        if items > 0 {
            let rows: usize = buffer.len() / items;
            proof {
                let (h, s, n) = (height as int, items as int, buffer@.len() as int);
                lemma_fundamental_div_mod(n, s);
                lemma_mod_bound(n, s);
                assert(h <= n / s <==> h * s <= n) by (nonlinear_arith)
                    requires
                        0 < s,
                        0 <= n % s < s,
                        n == s * (n / s) + n % s,
                ;
            }
            if height > rows {
                return None;
            }
        } else {
            assert(height * items == 0);
        }
        Some(FrameBuffer { width, height, stride, buffer, scissor })
    }

    /// The number of pixels that a row takes in the buffer.
    #[verifier::when_used_as_spec(spec_stride_item_count)]
    pub fn stride_item_count(&self) -> (n: usize)
        ensures
            n == self.spec_stride_item_count(),
    {
        self.stride / COLOR_SIZE
    }

    /// What the clip region in force and the visible area leave of `rect`.
    pub fn clipped(&self, rect: Rect) -> (r: Rect)
        ensures
            r == self.clip(rect),
            r.left + r.width <= self.width,
            r.top + r.height <= self.height,
    {
        let bounds = Rect { left: 0, top: 0, width: self.width, height: self.height };
        let depth: usize = self.scissor.len();
        if depth > 0 {
            rect.intersect(self.scissor[depth - 1]).intersect(bounds)
        } else {
            rect.intersect(bounds)
        }
    }

    /// Composites the background colour onto the whole visible area.
    pub fn clear(&mut self)
        requires
            old(self).wf(),
        ensures
            final(self).wf(),
            final(self).same_frame(old(self)),
            final(self).buffer@ == old(self).drawn(
                old(self).buffer@,
                old(self).bounds(),
                Color { bits: BACKGROUND_BITS },
            ),
    {
        let whole = Rect { left: 0, top: 0, width: self.width, height: self.height };
        self.draw_rect(whole, Color::background());
    }

    /// Composites `color` onto every pixel of `rect` that the clip region in
    /// force and the visible area leave; writes nothing where they leave
    /// none.
    pub fn draw_rect(&mut self, rect: Rect, color: Color)
        requires
            old(self).wf(),
        ensures
            final(self).wf(),
            final(self).same_frame(old(self)),
            final(self).buffer@ == old(self).drawn(old(self).buffer@, rect, color),
            old(self).clip(rect).spec_is_empty() ==> final(self).buffer@ == old(self).buffer@,
    {
        let target = self.clipped(rect);
        let stride: usize = self.stride_item_count();
        let ghost before = self.buffer@;
        let ghost s = stride as int;
        if target.is_empty() {
            assert(blend_rect(before, s, target, color) =~= before);
            return ;
        }
        let right: usize = target.right();
        let bottom: usize = target.bottom();
        assert(blend_rect_until(before, s, target, color, target.top as int, 0) =~= before);
        let mut y: usize = target.top;
        while y < bottom
            invariant
                self.wf(),
                self.same_frame(old(self)),
                before == old(self).buffer@,
                s == stride == self.spec_stride_item_count(),
                self.buffer.len() == before.len(),
                target.left < right == target.left + target.width <= self.width,
                target.top <= y <= bottom == target.top + target.height <= self.height,
                self.buffer@ == blend_rect_until(before, s, target, color, y as int, 0),
            decreases bottom - y,
        {
            assert(blend_rect_until(before, s, target, color, y as int, target.left as int)
                =~= blend_rect_until(before, s, target, color, y as int, 0));
            let mut x: usize = target.left;
            while x < right
                invariant
                    self.wf(),
                    self.same_frame(old(self)),
                    before == old(self).buffer@,
                    s == stride == self.spec_stride_item_count(),
                self.buffer.len() == before.len(),
                    target.left <= x <= right == target.left + target.width <= self.width,
                    target.top <= y < bottom == target.top + target.height <= self.height,
                    self.buffer@ == blend_rect_until(before, s, target, color, y as int, x as int),
                decreases right - x,
            {
                proof {
                    lemma_cell_of_pixel(s, x as int, y as int);
                    lemma_cell_in_rows(s, x as int, y as int, self.height as int);
                }
                let cell: usize = y * stride + x;
                let mut pixel: Color = self.buffer[cell];
                pixel.blend_with(color, true);
                self.buffer.set(cell, pixel);
                x += 1;
                assert(self.buffer@ =~= blend_rect_until(
                    before,
                    s,
                    target,
                    color,
                    y as int,
                    x as int,
                ));
            }
            y += 1;
            assert(self.buffer@ =~= blend_rect_until(before, s, target, color, y as int, 0));
        }
        assert(self.buffer@ =~= blend_rect(before, s, target, color));
    }

    /// The thickness of a border of `line_width`: half the width, and at
    /// least one pixel.
    pub fn line_offset(line_width: usize) -> (offset: usize)
        ensures
            offset == spec_line_offset(line_width),
            1 <= offset,
            offset + offset <= usize::MAX,
    {
        let half: usize = line_width / 2;
        if half < 1 {
            1
        } else {
            half
        }
    }

    /// The pixels after the four bands of a border round `rect` were drawn:
    /// top, bottom, left and right, each composited onto what the one before
    /// left.
    pub open spec fn boxed(&self, pixels: Seq<Color>, rect: Rect, offset: usize, color: Color) -> Seq<
        Color,
    > {
        let top = self.drawn(pixels, top_band(rect, offset), color);
        let bottom = self.drawn(top, bottom_band(rect, offset), color);
        let left = self.drawn(bottom, left_band(rect, offset), color);
        self.drawn(left, right_band(rect, offset), color)
    }

    /// Draws a hollow border round `rect` as four bands, each
    /// `line_offset(line_width)` pixels thick and outside the edge it runs
    /// along; where the border would leave the coordinate space it is held at
    /// the edge of it.
    pub fn draw_box(&mut self, rect: Rect, line_width: usize, color: Color)
        requires
            old(self).wf(),
        ensures
            final(self).wf(),
            final(self).same_frame(old(self)),
            final(self).buffer@ == old(self).boxed(
                old(self).buffer@,
                rect,
                spec_line_offset(line_width),
                color,
            ),
    {
        let offset: usize = FrameBuffer::line_offset(line_width);
        let margin: usize = offset.saturating_add(offset);
        let left: usize = rect.left.saturating_sub(offset);
        let top: usize = rect.top.saturating_sub(offset);
        let long_width: usize = rect.width.saturating_add(margin);
        let long_height: usize = rect.height.saturating_add(margin);
        self.draw_rect(Rect { left, top, width: long_width, height: offset }, color);
        self.draw_rect(
            Rect { left, top: rect.bottom(), width: long_width, height: offset },
            color,
        );
        self.draw_rect(Rect { left, top, width: offset, height: long_height }, color);
        self.draw_rect(
            Rect { left: rect.right(), top, width: offset, height: long_height },
            color,
        );
    }
}

/// A border is hollow: where it has room above and to the left of `rect`, it
/// leaves every pixel of `rect` as it was.
pub proof fn lemma_box_is_hollow(
    fb: FrameBuffer,
    pixels: Seq<Color>,
    rect: Rect,
    offset: usize,
    color: Color,
    x: int,
    y: int,
)
    requires
        fb.wf(),
        offset <= rect.left,
        offset <= rect.top,
        rect.spec_contains(x, y),
        x < fb.spec_stride_item_count(),
        y * fb.spec_stride_item_count() + x < pixels.len(),
    ensures
        fb.boxed(pixels, rect, offset, color)[y * fb.spec_stride_item_count() + x] == pixels[y
            * fb.spec_stride_item_count() + x],
{
    let top = fb.drawn(pixels, top_band(rect, offset), color);
    let bottom = fb.drawn(top, bottom_band(rect, offset), color);
    let left = fb.drawn(bottom, left_band(rect, offset), color);
    lemma_drawn_cells(fb, pixels, top_band(rect, offset), color, x, y);
    lemma_drawn_cells(fb, top, bottom_band(rect, offset), color, x, y);
    lemma_drawn_cells(fb, bottom, left_band(rect, offset), color, x, y);
    lemma_drawn_cells(fb, left, right_band(rect, offset), color, x, y);
}

} // verus!
