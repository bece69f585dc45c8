//! The viewport model: pixel-space scroll state from which the visible
//! line/character ranges are derived algebraically. Pixel quantities are
//! whole pixels. The central operation, `correct_position_to_cursor`, scrolls
//! so that the cursor always lies inside the corrected window, and both
//! offsets stay clamped to the content extent.

use crate::position::Cursor;
use vstd::arithmetic::div_mod::{
    lemma_div_is_ordered, lemma_div_multiples_vanish, lemma_div_multiples_vanish_fancy,
};
use vstd::arithmetic::mul::lemma_mul_inequality;
use vstd::prelude::*;

verus! {

pub enum MoveDirectionY {
    Up,
    Down,
}

pub enum MoveDirectionX {
    Left,
    Right,
}

#[derive(Debug, Clone, Copy)]
pub struct VirtualWindow {
    pub width: usize,
    pub offset_x: usize,
    pub offset_y: usize,
    pub height: usize,
    pub lineheight: usize,
}

impl Default for VirtualWindow {
    fn default() -> (r: Self)
        ensures
            r.width == 0 && r.offset_x == 0 && r.offset_y == 0 && r.height == 0
                && r.lineheight == 0,
    {
        VirtualWindow { width: 0, offset_x: 0, offset_y: 0, height: 0, lineheight: 0 }
    }
}

/// The window after one vertical scroll step, clamped to the content extent.
pub open spec fn spec_move_y(w: VirtualWindow, up: bool, lines: usize) -> VirtualWindow {
    let moved = if up {
        if w.offset_y >= w.lineheight {
            w.offset_y - w.lineheight
        } else {
            0int
        }
    } else {
        w.offset_y + w.lineheight
    };
    let clamped = if moved > lines * w.lineheight {
        lines * w.lineheight
    } else {
        moved
    };
    VirtualWindow { offset_y: clamped as usize, ..w }
}

/// The window after one horizontal scroll step, clamped to the content
/// extent.
pub open spec fn spec_move_x(
    w: VirtualWindow,
    left: bool,
    longest_line: usize,
    text_width: usize,
) -> VirtualWindow {
    let moved = if left {
        if w.offset_x >= text_width {
            w.offset_x - text_width
        } else {
            0int
        }
    } else {
        w.offset_x + text_width
    };
    let clamped = if moved > longest_line * text_width {
        longest_line * text_width
    } else {
        moved
    };
    VirtualWindow { offset_x: clamped as usize, ..w }
}

/// The window after following the cursor: below the bottom edge the cursor
/// line becomes the bottom, above the top edge it becomes the top,
/// symmetrically on the horizontal axis, then both offsets are clamped.
pub open spec fn spec_scroll_to_cursor(
    w: VirtualWindow,
    cursor: Cursor,
    text_width: usize,
    longest_line: usize,
    lines: usize,
) -> VirtualWindow {
    let oy = if cursor.0.line > w.spec_end_line() {
        if w.lineheight * cursor.0.line >= w.height {
            w.lineheight * cursor.0.line - w.height
        } else {
            0int
        }
    } else if cursor.0.line < w.spec_start_line() {
        w.lineheight * cursor.0.line
    } else {
        w.offset_y as int
    };
    let ox = if cursor.0.character > w.spec_end_character(text_width) {
        if text_width * cursor.0.character >= w.width {
            text_width * cursor.0.character - w.width
        } else {
            0int
        }
    } else if cursor.0.character < w.spec_start_character(text_width) {
        text_width * cursor.0.character
    } else {
        w.offset_x as int
    };
    let oyc = if oy > lines * w.lineheight {
        lines * w.lineheight
    } else {
        oy
    };
    let oxc = if ox > longest_line * text_width {
        longest_line * text_width
    } else {
        ox
    };
    VirtualWindow { offset_y: oyc as usize, offset_x: oxc as usize, ..w }
}

impl VirtualWindow {
    /// First visible line: the vertical offset in lines, rounded to nearest.
    pub open spec fn spec_start_line(self) -> int {
        (self.offset_y + self.lineheight / 2) / (self.lineheight as int)
    }

    /// Last visible line: offset plus height in lines, rounded to nearest.
    pub open spec fn spec_end_line(self) -> int {
        (self.offset_y + self.height + self.lineheight / 2) / (self.lineheight as int)
    }

    /// First visible character column, rounded to nearest.
    pub open spec fn spec_start_character(self, text_width: usize) -> int {
        (self.offset_x + text_width / 2) / (text_width as int)
    }

    /// Last visible character column, rounded down.
    pub open spec fn spec_end_character(self, text_width: usize) -> int {
        (self.offset_x + self.width) / (text_width as int)
    }

    /// A new window with the default pixel height of 4000.
    pub fn new() -> (r: Self)
        ensures
            r.width == 0 && r.offset_x == 0 && r.offset_y == 0,
            r.height == 4000,
            r.lineheight == 0,
    {
        VirtualWindow { width: 0, offset_x: 0, offset_y: 0, height: 4000, lineheight: 0 }
    }

    pub fn set_offset(&mut self, x: usize, y: usize)
        ensures
            *final(self) == (VirtualWindow { offset_x: x, offset_y: y, ..*old(self) }),
    {
        self.offset_x = x;
        self.offset_y = y;
    }

    /// True when the stored size equals the given one (the name is kept from
    /// the callers' usage, which negates it).
    pub fn size_is_different(&self, width: usize, height: usize) -> (r: bool)
        ensures
            r == (self.width == width && self.height == height),
    {
        self.width == width && height == self.height
    }

    pub fn set_size(&mut self, width: usize, height: usize)
        ensures
            *final(self) == (VirtualWindow { width, height, ..*old(self) }),
    {
        self.width = width;
        self.height = height;
    }

    pub fn height(&self) -> (r: usize)
        ensures
            r == self.height,
    {
        self.height
    }

    pub fn set_lineheight(self, height: usize) -> (r: Self)
        ensures
            r == (VirtualWindow { lineheight: height, ..self }),
    {
        Self { lineheight: height, ..self }
    }

    pub fn start_line(&self) -> (r: usize)
        requires
            self.lineheight >= 1,
            self.offset_y + self.lineheight <= usize::MAX,
        ensures
            r == self.spec_start_line(),
    {
        (self.offset_y + self.lineheight / 2) / self.lineheight
    }

    pub fn end_line(&self) -> (r: usize)
        requires
            self.lineheight >= 1,
            self.offset_y + self.height + self.lineheight <= usize::MAX,
        ensures
            r == self.spec_end_line(),
    {
        (self.offset_y + self.height + self.lineheight / 2) / self.lineheight
    }

    /// Lines the window can show: the distance from first to last visible.
    pub fn lines_height(&self) -> (r: usize)
        requires
            self.lineheight >= 1,
            self.offset_y + self.height + self.lineheight <= usize::MAX,
        ensures
            r == self.spec_end_line() - self.spec_start_line(),
    {
        proof {
            lemma_div_is_ordered(
                self.offset_y + self.lineheight / 2,
                self.offset_y + self.height + self.lineheight / 2,
                self.lineheight as int,
            );
        }
        let a = self.end_line();
        let b = self.start_line();
        a - b
    }

    pub fn start_character(&self, text_width: usize) -> (r: usize)
        requires
            text_width >= 1,
            self.offset_x + text_width <= usize::MAX,
        ensures
            r == self.spec_start_character(text_width),
    {
        (self.offset_x + text_width / 2) / text_width
    }

    pub fn end_character(&self, text_width: usize) -> (r: usize)
        requires
            text_width >= 1,
            self.offset_x + self.width <= usize::MAX,
        ensures
            r == self.spec_end_character(text_width),
    {
        (self.offset_x + self.width) / text_width
    }

    /// First line of the padded visible range: two lines of margin above.
    pub fn padded_start_line(&self) -> (r: usize)
        requires
            self.lineheight >= 1,
            self.offset_y + self.lineheight <= usize::MAX,
        ensures
            r == if self.spec_start_line() < 2 {
                0int
            } else {
                self.spec_start_line() - 2
            },
    {
        let start = self.start_line();
        if start < 2 {
            return 0;
        }
        start - 2
    }

    /// Last line of the padded visible range: two lines of margin below.
    pub fn padded_end_line(&self) -> (r: usize)
        requires
            self.lineheight >= 1,
            self.offset_y + self.height + self.lineheight <= usize::MAX,
            self.spec_end_line() + 2 <= usize::MAX,
        ensures
            r == self.spec_end_line() + 2,
    {
        self.end_line() + 2
    }

    pub fn is_same(&self, width: usize, height: usize) -> (r: bool)
        ensures
            r == (self.width == width && self.height == height),
    {
        self.width == width && self.height == height
    }

    /// The vertical pixel padding kept around the window.
    fn padding(self) -> (r: usize)
        requires
            2 * self.lineheight <= usize::MAX,
        ensures
            r == 2 * self.lineheight,
    {
        self.lineheight * 2
    }

    /// Whether the pixel row `y` lies within the padded window.
    pub fn within(&self, y: usize) -> (r: bool)
        requires
            self.offset_y + self.height + 2 * self.lineheight <= usize::MAX,
        ensures
            r == ({
                let padding = 2 * self.lineheight;
                let top = if self.offset_y < padding {
                    0int
                } else {
                    self.offset_y - padding
                };
                y >= top && y < self.height + padding + self.offset_y
            }),
    {
        let padding = self.padding();
        let offset = if self.offset_y < padding {
            0
        } else {
            self.offset_y - padding
        };
        let height = self.height + padding + self.offset_y;
        y >= offset && y < height
    }

    /// Clamp the vertical offset to the content extent.
    fn correct_possition_y(&mut self, lines: usize)
        requires
            lines * old(self).lineheight <= usize::MAX,
        ensures
            *final(self) == (VirtualWindow {
                offset_y: if old(self).offset_y > lines * old(self).lineheight {
                    (lines * old(self).lineheight) as usize
                } else {
                    old(self).offset_y
                },
                ..*old(self)
            }),
    {
        let bound = lines * self.lineheight;
        if self.offset_y > bound {
            self.offset_y = bound;
        }
    }

    /// Clamp the horizontal offset to the content extent.
    fn correct_possition_x(&mut self, longest_line: usize, text_width: usize)
        requires
            longest_line * text_width <= usize::MAX,
        ensures
            *final(self) == (VirtualWindow {
                offset_x: if old(self).offset_x > longest_line * text_width {
                    (longest_line * text_width) as usize
                } else {
                    old(self).offset_x
                },
                ..*old(self)
            }),
    {
        let bound = longest_line * text_width;
        if self.offset_x > bound {
            self.offset_x = bound;
        }
    }

    /// Scroll one line up or down, clamped to the content extent.
    pub fn move_offset_y(&mut self, direction: MoveDirectionY, lines: usize)
        requires
            lines * old(self).lineheight <= usize::MAX,
            old(self).offset_y + old(self).lineheight <= usize::MAX,
        ensures
            *final(self) == spec_move_y(*old(self), direction is Up, lines),
    {
        match direction {
            MoveDirectionY::Up => {
                self.offset_y = self.offset_y.saturating_sub(self.lineheight);
            },
            MoveDirectionY::Down => {
                self.offset_y = self.offset_y + self.lineheight;
            },
        }
        self.correct_possition_y(lines);
    }

    /// Scroll one character left or right, clamped to the content extent.
    pub fn move_offset_x(&mut self, direction: MoveDirectionX, longest_line: usize, text_width: usize)
        requires
            longest_line * text_width <= usize::MAX,
            old(self).offset_x + text_width <= usize::MAX,
        ensures
            *final(self) == spec_move_x(*old(self), direction is Left, longest_line, text_width),
    {
        match direction {
            MoveDirectionX::Left => {
                self.offset_x = self.offset_x.saturating_sub(text_width);
            },
            MoveDirectionX::Right => {
                self.offset_x = self.offset_x + text_width;
            },
        }
        self.correct_possition_x(longest_line, text_width);
    }

    /// Scroll so the cursor lies inside the window: below the bottom edge the
    /// cursor line becomes the new bottom, above the top edge it becomes the
    /// new top, symmetrically for the horizontal axis, and both offsets are
    /// then clamped to the content extent.
    pub fn correct_position_to_cursor(
        &mut self,
        cursor: Cursor,
        text_width: usize,
        longest_line: usize,
        lines: usize,
    )
        requires
            old(self).lineheight >= 1,
            text_width >= 1,
            cursor.0.line <= lines,
            cursor.0.character <= longest_line,
            (lines + 1) * old(self).lineheight + old(self).height <= usize::MAX,
            (longest_line + 1) * text_width + old(self).width <= usize::MAX,
            old(self).offset_y + old(self).height + old(self).lineheight <= usize::MAX,
            old(self).offset_x + old(self).width + text_width <= usize::MAX,
        ensures
            *final(self) == spec_scroll_to_cursor(
                *old(self),
                cursor,
                text_width,
                longest_line,
                lines,
            ),
            final(self).width == old(self).width,
            final(self).height == old(self).height,
            final(self).lineheight == old(self).lineheight,
            final(self).offset_y <= lines * old(self).lineheight,
            final(self).offset_x <= longest_line * text_width,
            final(self).spec_start_line() <= cursor.0.line <= final(self).spec_end_line(),
            final(self).spec_start_character(text_width) <= cursor.0.character
                <= final(self).spec_end_character(text_width),
    {
        let ghost pre = *self;
        let lh = self.lineheight;
        let line = cursor.0.line;
        let ch = cursor.0.character;
        proof {
            lemma_mul_inequality(line as int, lines as int, lh as int);
            lemma_mul_inequality(line + 1, lines + 1, lh as int);
            lemma_mul_inequality(ch as int, longest_line as int, text_width as int);
            lemma_mul_inequality(ch + 1, longest_line + 1, text_width as int);
            assert((lines + 1) * (lh as int) == lines * (lh as int) + lh) by (nonlinear_arith);
            assert((longest_line + 1) * (text_width as int) == longest_line * (text_width as int)
                + text_width) by (nonlinear_arith);
            assert((lh as int) * (line as int) == (line as int) * (lh as int)) by (nonlinear_arith);
            assert((lh as int) * (lines as int) == (lines as int) * (lh as int)) by (nonlinear_arith);
            assert((text_width as int) * (ch as int) == (ch as int) * (text_width as int))
                by (nonlinear_arith);
            assert((text_width as int) * (longest_line as int) == (longest_line as int) * (
            text_width as int)) by (nonlinear_arith);
            assert(lh * line <= lines * lh);
            assert(text_width * ch <= longest_line * text_width);
        }
        if line > self.end_line() {
            self.offset_y = (lh * line).saturating_sub(self.height);
        } else if line < self.start_line() {
            self.offset_y = lh * line;
        }
        if ch > self.end_character(text_width) {
            self.offset_x = (text_width * ch).saturating_sub(self.width);
        } else if ch < self.start_character(text_width) {
            self.offset_x = text_width * ch;
        }
        self.correct_possition_x(longest_line, text_width);
        self.correct_possition_y(lines);
        proof {
            let lhi = lh as int;
            let twi = text_width as int;
            let li = line as int;
            let ci = ch as int;
            let oy = self.offset_y as int;
            let ox = self.offset_x as int;
            lemma_div_multiples_vanish_fancy(li, lhi / 2, lhi);
            lemma_div_multiples_vanish_fancy(lines as int, lhi / 2, lhi);
            lemma_div_multiples_vanish_fancy(ci, twi / 2, twi);
            lemma_div_multiples_vanish_fancy(longest_line as int, twi / 2, twi);
            lemma_div_multiples_vanish(ci, twi);
            lemma_div_multiples_vanish(longest_line as int, twi);
            assert((lhi / 2) / lhi == 0) by {
                lemma_div_multiples_vanish_fancy(0, lhi / 2, lhi);
                assert(lhi * 0 + lhi / 2 == lhi / 2);
            }
            assert((twi / 2) / twi == 0) by {
                lemma_div_multiples_vanish_fancy(0, twi / 2, twi);
                assert(twi * 0 + twi / 2 == twi / 2);
            }
            // vertical axis
            if li > pre.spec_end_line() {
                if lhi * li >= pre.height {
                    assert(oy == lhi * li - pre.height);
                    lemma_div_is_ordered(oy + lhi / 2, lhi * li + lhi / 2, lhi);
                } else {
                    assert(oy == 0);
                    lemma_div_is_ordered(lhi * li + lhi / 2, pre.height + lhi / 2, lhi);
                }
            } else if li < pre.spec_start_line() {
                assert(oy == lhi * li);
                lemma_div_is_ordered(lhi * li + lhi / 2, lhi * li + pre.height + lhi / 2, lhi);
            } else {
                if pre.offset_y > lines * lhi {
                    assert(oy == lines * lhi);
                    lemma_div_is_ordered(
                        lhi * (lines as int) + lhi / 2,
                        pre.offset_y + lhi / 2,
                        lhi,
                    );
                    lemma_div_is_ordered(
                        lhi * (lines as int) + lhi / 2,
                        lhi * (lines as int) + pre.height + lhi / 2,
                        lhi,
                    );
                } else {
                    assert(oy == pre.offset_y);
                }
            }
            // horizontal axis
            if ci > pre.spec_end_character(text_width) {
                if twi * ci >= pre.width {
                    assert(ox == twi * ci - pre.width);
                    lemma_div_is_ordered(ox + twi / 2, twi * ci + twi / 2, twi);
                } else {
                    assert(ox == 0);
                    lemma_div_is_ordered(twi * ci, pre.width as int, twi);
                }
            } else if ci < pre.spec_start_character(text_width) {
                assert(ox == twi * ci);
                lemma_div_is_ordered(twi * ci, twi * ci + pre.width, twi);
            } else {
                if pre.offset_x > longest_line * twi {
                    assert(ox == longest_line * twi);
                    lemma_div_is_ordered(
                        twi * (longest_line as int) + twi / 2,
                        pre.offset_x + twi / 2,
                        twi,
                    );
                    lemma_div_is_ordered(
                        twi * (longest_line as int),
                        twi * (longest_line as int) + pre.width,
                        twi,
                    );
                } else {
                    assert(ox == pre.offset_x);
                }
            }
        }
    }
}

} // verus!
