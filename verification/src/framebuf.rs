//! The character framebuffer: a grid of terminal cells, two vertically
//! stacked pixels per cell, and its serialization to one text frame.
//!
//! The grid is `w` cells wide and `h / 2` cells tall for a pixel resolution
//! of `w` by `h`. A pixel row `y` lands in cell row `y / 2`; whether it is
//! the top or bottom half of its cell follows from `y % 2`. The depth buffer
//! that accompanies this grid during rasterization lives with the caller: it
//! is indexed per pixel row, not per cell, and plays no part in
//! serialization.

use crate::cell::CharHalf;
use crate::cell::CharInfo;
use crate::cell::blank_cell;
use crate::cell::cell_escape;
use crate::cell::half_block_shaded;
use crate::cell::half_block_shader;
use crate::color::AnsiColorMode;
use crate::color::CharColor;
use crate::color::push_char;
use vstd::pervasive::VecAdditionalExecFns;
use vstd::prelude::*;
use vstd::string::StringExecFns;

verus! {

/// Which half of its cell pixel row `y` occupies: even rows are top halves.
pub open spec fn half_for_row(y: int) -> CharHalf {
    if y % 2 == 0 {
        CharHalf::Top
    } else {
        CharHalf::Bottom
    }
}

/// The cell that the pixel at column `x`, row `y` belongs to, as an index
/// into a row-major grid of width `w`.
pub open spec fn cell_index(w: int, x: int, y: int) -> int {
    (y / 2) * w + x
}

/// The text of one cell row: the concatenated escapes of its cells in order.
pub open spec fn row_text(cells: Seq<CharInfo>, mode: AnsiColorMode) -> Seq<char>
    decreases cells.len(),
{
    if cells.len() == 0 {
        Seq::empty()
    } else {
        row_text(cells.drop_last(), mode) + cell_escape(cells.last(), mode)
    }
}

/// The text of the first `rows` cell rows of a grid `w` cells wide, each row
/// terminated by a carriage-return/line-feed pair.
pub open spec fn grid_text(cells: Seq<CharInfo>, mode: AnsiColorMode, w: int, rows: int) -> Seq<
    char,
>
    decreases rows,
{
    if rows <= 0 {
        Seq::empty()
    } else {
        grid_text(cells, mode, w, rows - 1) + row_text(
            cells.subrange((rows - 1) * w, rows * w),
            mode,
        ) + seq!['\r', '\n']
    }
}

/// A character framebuffer of `w` by `h` pixels, stored as a row-major grid
/// of `w` by `h / 2` half-block cells.
pub struct CharBuf {
    pub w: usize,
    pub h: usize,
    pub char_buf: Vec<CharInfo>,
}

impl CharBuf {
    /// The grid is well formed: even pixel height, one cell per column and
    /// cell row.
    pub open spec fn wf(self) -> bool {
        self.h as int % 2 == 0 && self.char_buf@.len() == self.w as int * (self.h as int / 2)
    }

    /// A buffer of the given pixel dimensions with every cell blank.
    pub fn new(w: usize, h: usize) -> (fb: Self)
        requires
            h as int % 2 == 0,
            w as int * (h as int / 2) <= usize::MAX as int,
        ensures
            fb.wf(),
            fb.w == w,
            fb.h == h,
            forall|i: int| 0 <= i < fb.char_buf@.len() ==> fb.char_buf@[i] == blank_cell(),
    {
        let count: usize = w * (h / 2);
        let mut cells: Vec<CharInfo> = Vec::new();
        let mut i: usize = 0;
        while i < count
            invariant
                i <= count,
                cells@.len() == i,
                forall|j: int| 0 <= j < i ==> cells@[j] == blank_cell(),
            decreases count - i,
        {
            cells.push(CharInfo::default());
            i += 1;
        }
        CharBuf { w, h, char_buf: cells }
    }

    /// Reset every cell to blank for the next frame.
    pub fn clear(&mut self)
        requires
            old(self).wf(),
        ensures
            final(self).wf(),
            final(self).w == old(self).w,
            final(self).h == old(self).h,
            forall|i: int|
                0 <= i < final(self).char_buf@.len() ==> final(self).char_buf@[i] == blank_cell(),
    {
        let count: usize = self.char_buf.len();
        let mut i: usize = 0;
        while i < count
            invariant
                i <= count,
                self.w == old(self).w,
                self.h == old(self).h,
                self.char_buf@.len() == count,
                old(self).wf(),
                count == old(self).char_buf@.len(),
                forall|j: int| 0 <= j < i ==> self.char_buf@[j] == blank_cell(),
            decreases count - i,
        {
            self.char_buf.set(i, CharInfo::default());
            i += 1;
        }
    }

    /// Shade the pixel at column `x`, row `y` with `color`: the matching
    /// half of its cell is merged by the half-block rule, and every other
    /// cell is untouched.
    pub fn shade_pixel(&mut self, x: usize, y: usize, color: &CharColor)
        requires
            old(self).wf(),
            x < old(self).w,
            y < old(self).h,
        ensures
            final(self).wf(),
            final(self).w == old(self).w,
            final(self).h == old(self).h,
            final(self).char_buf@ == old(self).char_buf@.update(
                cell_index(old(self).w as int, x as int, y as int),
                half_block_shaded(
                    old(self).char_buf@[cell_index(old(self).w as int, x as int, y as int)],
                    half_for_row(y as int),
                    *color,
                ),
            ),
    {
        proof {
            assert(y as int / 2 <= self.h as int / 2 - 1);
            assert(((y as int / 2) * self.w as int + x as int) < self.w as int * (self.h as int
                / 2)) by (nonlinear_arith)
                requires
                    y as int / 2 <= self.h as int / 2 - 1,
                    (x as int) < self.w as int,
            ;
        }
        let n: usize = self.char_buf.len();
        let idx: usize = (y / 2) * self.w + x;
        let mut cell: CharInfo = self.char_buf[idx];
        let half = if y % 2 == 0 {
            CharHalf::Top
        } else {
            CharHalf::Bottom
        };
        half_block_shader(&mut cell, &half, color);
        self.char_buf.set(idx, cell);
    }

    /// Serialize the whole frame: each cell row's escapes top to bottom,
    /// every row closed by a carriage-return/line-feed pair.
    pub fn to_string(&self, mode: &AnsiColorMode) -> (s: String)
        requires
            self.wf(),
        ensures
            s@ == grid_text(self.char_buf@, *mode, self.w as int, self.h as int / 2),
    {
        let rows: usize = self.h / 2;
        let n: usize = self.char_buf.len();
        let mut s = String::new();
        let mut y: usize = 0;
        while y < rows
            invariant
                self.wf(),
                y <= rows,
                rows == self.h as int / 2,
                n == self.char_buf@.len(),
                s@ == grid_text(self.char_buf@, *mode, self.w as int, y as int),
            decreases rows - y,
        {
            proof {
                let base = y as int * self.w as int;
                assert(base + self.w as int <= self.w as int * (self.h as int / 2))
                    by (nonlinear_arith)
                    requires
                        base == y as int * self.w as int,
                        y as int + 1 <= self.h as int / 2,
                        self.w as int >= 0,
                ;
                assert(row_text(self.char_buf@.subrange(base, base), *mode) =~= Seq::<
                    char,
                >::empty());
                assert(s@ =~= grid_text(self.char_buf@, *mode, self.w as int, y as int) + row_text(
                    self.char_buf@.subrange(base, base),
                    *mode,
                ));
            }
            let mut x: usize = 0;
            while x < self.w
                invariant
                    self.wf(),
                    x <= self.w,
                    y < rows,
                    rows == self.h as int / 2,
                    n == self.char_buf@.len(),
                    s@ == grid_text(self.char_buf@, *mode, self.w as int, y as int) + row_text(
                        self.char_buf@.subrange(
                            y as int * self.w as int,
                            y as int * self.w as int + x as int,
                        ),
                        *mode,
                    ),
                decreases self.w - x,
            {
                proof {
                    assert((y as int * self.w as int + x as int) < self.w as int * (self.h as int
                        / 2)) by (nonlinear_arith)
                        requires
                            y as int + 1 <= self.h as int / 2,
                            (x as int) < self.w as int,
                    ;
                }
                let idx: usize = y * self.w + x;
                let cell: CharInfo = self.char_buf[idx];
                let e = cell.to_ansi(mode);
                s.append(e.as_str());
                proof {
                    let base = y as int * self.w as int;
                    let cells = self.char_buf@;
                    assert(cells.subrange(base, base + x as int + 1).drop_last() =~= cells.subrange(
                        base,
                        base + x as int,
                    ));
                    assert(cells.subrange(base, base + x as int + 1).last() == cells[base
                        + x as int]);
                }
                x += 1;
            }
            push_char(&mut s, '\r');
            push_char(&mut s, '\n');
            proof {
                assert((y as int + 1) * self.w as int == y as int * self.w as int + self.w as int)
                    by (nonlinear_arith);
                assert(s@ =~= grid_text(self.char_buf@, *mode, self.w as int, y as int + 1));
            }
            y += 1;
        }
        s
    }
}

} // verus!
