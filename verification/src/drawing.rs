//! Text and shape helpers over the grid: thin coordinate-offsetting wrappers
//! around bounds-checked cell writes.
//!
//! A [`Pencil`] carries a drawing origin and the text style options; every
//! drawing call writes through [`Canvas::elem_mut`], so out-of-grid
//! coordinates are silently clipped, never an error. All positions are
//! relative to the pencil's origin. [`RectCharset`] names the eight glyphs a
//! rectangle needs; an incomplete set is rejected when built, before any
//! frame runs.

use vstd::prelude::*;
use vstd::string::StrSliceExecFns;
use vstd::string::StringSliceAdditionalSpecFns;

use crate::spatial::Vec2;
use crate::terminal::{Canvas, Color, Style, VisualElement};

verus! {

/// The set of characters needed to draw the edges and corners of a
/// rectangle.
#[derive(Debug, Clone, PartialEq, Eq, Structural)]
pub struct RectCharset {
    pub top: char,
    pub bottom: char,
    pub left: char,
    pub right: char,
    pub top_left: char,
    pub top_right: char,
    pub bottom_left: char,
    pub bottom_right: char,
}

impl RectCharset {
    /// Builds a charset from the first eight characters of `text`: top,
    /// bottom, left, right edges, then the four corners clockwise from the
    /// top left. A text of fewer than eight characters is an incomplete
    /// glyph set and is rejected here, at construction.
    pub fn from_text(text: &str) -> (r: Option<RectCharset>)
        ensures
            text@.len() >= 8 ==> r == Some(RectCharset {
                top: text@[0],
                bottom: text@[1],
                left: text@[2],
                right: text@[3],
                top_left: text@[4],
                top_right: text@[5],
                bottom_left: text@[6],
                bottom_right: text@[7],
            }),
            text@.len() < 8 ==> r is None,
    {
        let n = text.unicode_len();
        if n < 8 {
            None
        } else {
            Some(RectCharset {
                top: text.get_char(0),
                bottom: text.get_char(1),
                left: text.get_char(2),
                right: text.get_char(3),
                top_left: text.get_char(4),
                top_right: text.get_char(5),
                bottom_left: text.get_char(6),
                bottom_right: text.get_char(7),
            })
        }
    }

    /// The single-line rectangle charset.
    pub fn simple_lines() -> (r: RectCharset)
        ensures
            r == (RectCharset {
                top: '─',
                bottom: '─',
                left: '│',
                right: '│',
                top_left: '┌',
                top_right: '┐',
                bottom_left: '└',
                bottom_right: '┘',
            }),
    {
        proof {
            reveal_strlit("──││┌┐└┘");
        }
        match RectCharset::from_text("──││┌┐└┘") {
            Some(charset) => charset,
            None => {
                proof {
                    assert(false);
                }
                RectCharset {
                    top: ' ',
                    bottom: ' ',
                    left: ' ',
                    right: ' ',
                    top_left: ' ',
                    top_right: ' ',
                    bottom_left: ' ',
                    bottom_right: ' ',
                }
            },
        }
    }

    /// The single-line rounded-corner rectangle charset.
    pub fn simple_round_lines() -> (r: RectCharset)
        ensures
            r == (RectCharset {
                top: '─',
                bottom: '─',
                left: '│',
                right: '│',
                top_left: '╭',
                top_right: '╮',
                bottom_left: '╰',
                bottom_right: '╯',
            }),
    {
        proof {
            reveal_strlit("──││╭╮╰╯");
        }
        match RectCharset::from_text("──││╭╮╰╯") {
            Some(charset) => charset,
            None => {
                proof {
                    assert(false);
                }
                RectCharset {
                    top: ' ',
                    bottom: ' ',
                    left: ' ',
                    right: ' ',
                    top_left: ' ',
                    top_right: ' ',
                    bottom_left: ' ',
                    bottom_right: ' ',
                }
            },
        }
    }

    /// The double-line rectangle charset.
    pub fn double_lines() -> (r: RectCharset)
        ensures
            r == (RectCharset {
                top: '═',
                bottom: '═',
                left: '║',
                right: '║',
                top_left: '╔',
                top_right: '╗',
                bottom_left: '╚',
                bottom_right: '╝',
            }),
    {
        proof {
            reveal_strlit("══║║╔╗╚╝");
        }
        match RectCharset::from_text("══║║╔╗╚╝") {
            Some(charset) => charset,
            None => {
                proof {
                    assert(false);
                }
                RectCharset {
                    top: ' ',
                    bottom: ' ',
                    left: ' ',
                    right: ' ',
                    top_left: ' ',
                    top_right: ' ',
                    bottom_left: ' ',
                    bottom_right: ' ',
                }
            },
        }
    }
}

/// The grid data after writing element `e` at column `x`, row `y` of a
/// `w` x `h` grid: unchanged when the point lies outside it.
pub open spec fn write_cell(
    data: Seq<VisualElement>,
    w: int,
    h: int,
    x: int,
    y: int,
    e: VisualElement,
) -> Seq<VisualElement> {
    if 0 <= x < w && 0 <= y < h {
        data.update(y * w + x, e)
    } else {
        data
    }
}

/// Rust's truncating division for a positive divisor.
pub open spec fn spec_tdiv(a: int, b: int) -> int {
    if a >= 0 {
        a / b
    } else {
        -((-a) / b)
    }
}

/// Rust's truncating remainder for a positive divisor.
pub open spec fn spec_tmod(a: int, b: int) -> int {
    if a >= 0 {
        a % b
    } else {
        -((-a) % b)
    }
}

/// The grid after drawing `chars` from unwrapped column `base_x` on row
/// `base_y`: character `i` lands at column `(base_x + i) mod w` and row
/// `base_y + (base_x + i) div w` (truncating, so a small negative overhang
/// stays on the row and off the grid).
pub open spec fn spec_text_written(
    data: Seq<VisualElement>,
    w: int,
    h: int,
    chars: Seq<char>,
    base_x: int,
    base_y: int,
    style: Style,
    fg: Color,
    bg: Color,
) -> Seq<VisualElement>
    decreases chars.len(),
{
    if chars.len() == 0 {
        data
    } else {
        let e = VisualElement { style, background: bg, foreground: fg, value: chars[0] };
        let written = write_cell(data, w, h, spec_tmod(base_x, w), base_y + spec_tdiv(base_x, w), e);
        spec_text_written(written, w, h, chars.skip(1), base_x + 1, base_y, style, fg, bg)
    }
}

/// The grid after a vertical run of `count` cells of `e` downwards from
/// (x, y).
pub open spec fn spec_vline_written(
    data: Seq<VisualElement>,
    w: int,
    h: int,
    x: int,
    y: int,
    count: int,
    e: VisualElement,
) -> Seq<VisualElement>
    decreases count,
{
    if count <= 0 {
        data
    } else {
        spec_vline_written(write_cell(data, w, h, x, y, e), w, h, x, y + 1, count - 1, e)
    }
}

/// The grid after a horizontal run of `count` cells of `e` rightwards from
/// (x, y).
pub open spec fn spec_hline_written(
    data: Seq<VisualElement>,
    w: int,
    h: int,
    x: int,
    y: int,
    count: int,
    e: VisualElement,
) -> Seq<VisualElement>
    decreases count,
{
    if count <= 0 {
        data
    } else {
        spec_hline_written(write_cell(data, w, h, x, y, e), w, h, x + 1, y, count - 1, e)
    }
}

/// The grid after `cols` vertical runs of `rows` cells of `e`, one per
/// column from (x, y) rightwards.
pub open spec fn spec_filled_written(
    data: Seq<VisualElement>,
    w: int,
    h: int,
    x: int,
    y: int,
    cols: int,
    rows: int,
    e: VisualElement,
) -> Seq<VisualElement>
    decreases cols,
{
    if cols <= 0 {
        data
    } else {
        spec_filled_written(
            spec_vline_written(data, w, h, x, y, rows, e),
            w,
            h,
            x + 1,
            y,
            cols - 1,
            rows,
            e,
        )
    }
}

/// The grid after the four edges and four corners of a rectangle whose
/// top-left corner sits at (x, y), drawn in the order the pencil draws
/// them: top edge, bottom edge, left edge, right edge, then the corners.
pub open spec fn spec_rect_written(
    data: Seq<VisualElement>,
    w: int,
    h: int,
    x: int,
    y: int,
    dim_x: int,
    dim_y: int,
    charset: RectCharset,
    style: Style,
    fg: Color,
    bg: Color,
) -> Seq<VisualElement> {
    let e = |value: char| VisualElement { style, background: bg, foreground: fg, value };
    let top = spec_hline_written(data, w, h, x, y, dim_x - 1, e(charset.top));
    let bottom = spec_hline_written(top, w, h, x, y + dim_y - 1, dim_x - 1, e(charset.bottom));
    let left = spec_vline_written(bottom, w, h, x, y, dim_y - 1, e(charset.left));
    let right = spec_vline_written(left, w, h, x + dim_x - 1, y, dim_y - 1, e(charset.right));
    let c1 = write_cell(right, w, h, x, y, e(charset.top_left));
    let c2 = write_cell(c1, w, h, x + dim_x - 1, y, e(charset.top_right));
    let c3 = write_cell(c2, w, h, x, y + dim_y - 1, e(charset.bottom_left));
    write_cell(c3, w, h, x + dim_x - 1, y + dim_y - 1, e(charset.bottom_right))
}

/// An object that stores the text style options and drawing origin used to
/// write text and shapes to a [`Canvas`].
pub struct Pencil {
    origin: Vec2,
    foreground: Color,
    background: Color,
    style: Style,
}

impl Pencil {
    /// The drawing origin all positions are relative to.
    pub closed spec fn spec_origin(self) -> Vec2 {
        self.origin
    }

    /// The foreground color drawn cells get.
    pub closed spec fn spec_foreground(self) -> Color {
        self.foreground
    }

    /// The background color drawn cells get.
    pub closed spec fn spec_background(self) -> Color {
        self.background
    }

    /// The style drawn cells get.
    pub closed spec fn spec_style(self) -> Style {
        self.style
    }

    /// The element this pencil writes for the glyph `value`.
    pub open spec fn spec_element(self, value: char) -> VisualElement {
        VisualElement {
            style: self.spec_style(),
            background: self.spec_background(),
            foreground: self.spec_foreground(),
            value,
        }
    }

    /// A pencil over the given canvas: origin at (0, 0), colors and style
    /// taken from the canvas's default element.
    pub fn new(canvas: &Canvas) -> (r: Pencil)
        ensures
            r.spec_origin() == (Vec2 { x: 0, y: 0 }),
            r.spec_foreground() == canvas.spec_default().foreground,
            r.spec_background() == canvas.spec_default().background,
            r.spec_style() == canvas.spec_default().style,
    {
        let d = canvas.default_element();
        Pencil {
            origin: Vec2 { x: 0, y: 0 },
            foreground: d.foreground,
            background: d.background,
            style: d.style,
        }
    }

    /// Writes this pencil's element for `value` at absolute grid
    /// coordinates (x, y), clipped silently when off the grid.
    fn draw_element(&self, canvas: &mut Canvas, x: i64, y: i64, value: char)
        requires
            old(canvas).wf(),
        ensures
            final(canvas).wf(),
            final(canvas).spec_dimension() == old(canvas).spec_dimension(),
            final(canvas).spec_default() == old(canvas).spec_default(),
            final(canvas).spec_data() == write_cell(
                old(canvas).spec_data(),
                old(canvas).spec_dimension().x as int,
                old(canvas).spec_dimension().y as int,
                x as int,
                y as int,
                self.spec_element(value),
            ),
    {
        let dim = canvas.dimension();
        if 0 <= x && 0 <= y && x < dim.x as i64 && y < dim.y as i64 {
            let pos = Vec2 { x: x as i32, y: y as i32 };
            let e = VisualElement {
                style: self.style,
                background: self.background,
                foreground: self.foreground,
                value,
            };
            let _ = canvas.elem_mut(pos, &e);
        }
    }

    /// The drawing origin.
    pub fn origin(&self) -> (r: Vec2)
        ensures
            r == self.spec_origin(),
    {
        self.origin
    }

    /// The drawable space past the origin: the canvas dimension minus the
    /// origin, componentwise.
    pub fn dimension(&self, canvas: &Canvas) -> (r: Vec2)
        requires
            i32::MIN <= canvas.spec_dimension().x - self.spec_origin().x <= i32::MAX,
            i32::MIN <= canvas.spec_dimension().y - self.spec_origin().y <= i32::MAX,
        ensures
            r.x == canvas.spec_dimension().x - self.spec_origin().x,
            r.y == canvas.spec_dimension().y - self.spec_origin().y,
    {
        let dim = canvas.dimension();
        Vec2 { x: dim.x - self.origin.x, y: dim.y - self.origin.y }
    }

    /// The foreground color drawn cells get.
    pub fn foreground(&self) -> (r: &Color)
        ensures
            *r == self.spec_foreground(),
    {
        &self.foreground
    }

    /// The background color drawn cells get.
    pub fn background(&self) -> (r: &Color)
        ensures
            *r == self.spec_background(),
    {
        &self.background
    }

    /// The style drawn cells get.
    pub fn style(&self) -> (r: &Style)
        ensures
            *r == self.spec_style(),
    {
        &self.style
    }

    /// Sets the drawing origin.
    pub fn set_origin(&mut self, position: Vec2) -> (r: &mut Pencil)
        ensures
            r.spec_origin() == position,
            r.spec_foreground() == old(self).spec_foreground(),
            r.spec_background() == old(self).spec_background(),
            r.spec_style() == old(self).spec_style(),
            *final(self) == *final(r),
    {
        self.origin = position;
        self
    }

    /// Moves the drawing origin by `displacement`.
    pub fn move_origin(&mut self, displacement: Vec2) -> (r: &mut Pencil)
        requires
            i32::MIN <= old(self).spec_origin().x + displacement.x <= i32::MAX,
            i32::MIN <= old(self).spec_origin().y + displacement.y <= i32::MAX,
        ensures
            r.spec_origin().x == old(self).spec_origin().x + displacement.x,
            r.spec_origin().y == old(self).spec_origin().y + displacement.y,
            r.spec_foreground() == old(self).spec_foreground(),
            r.spec_background() == old(self).spec_background(),
            r.spec_style() == old(self).spec_style(),
            *final(self) == *final(r),
    {
        self.origin = Vec2 { x: self.origin.x + displacement.x, y: self.origin.y + displacement.y };
        self
    }

    /// Sets the foreground color.
    pub fn set_foreground(&mut self, color: Color) -> (r: &mut Pencil)
        ensures
            r.spec_foreground() == color,
            r.spec_origin() == old(self).spec_origin(),
            r.spec_background() == old(self).spec_background(),
            r.spec_style() == old(self).spec_style(),
            *final(self) == *final(r),
    {
        self.foreground = color;
        self
    }

    /// Sets the background color.
    pub fn set_background(&mut self, color: Color) -> (r: &mut Pencil)
        ensures
            r.spec_background() == color,
            r.spec_origin() == old(self).spec_origin(),
            r.spec_foreground() == old(self).spec_foreground(),
            r.spec_style() == old(self).spec_style(),
            *final(self) == *final(r),
    {
        self.background = color;
        self
    }

    /// Sets the style.
    pub fn set_style(&mut self, style: Style) -> (r: &mut Pencil)
        ensures
            r.spec_style() == style,
            r.spec_origin() == old(self).spec_origin(),
            r.spec_foreground() == old(self).spec_foreground(),
            r.spec_background() == old(self).spec_background(),
            *final(self) == *final(r),
    {
        self.style = style;
        self
    }

    /// Draws one character at `position` (relative to the origin), clipped
    /// silently when off the grid.
    pub fn draw_char(&mut self, canvas: &mut Canvas, value: char, position: Vec2) -> (r: &mut
        Pencil)
        requires
            old(canvas).wf(),
        ensures
            *r == *old(self),
            *final(self) == *final(r),
            final(canvas).wf(),
            final(canvas).spec_dimension() == old(canvas).spec_dimension(),
            final(canvas).spec_default() == old(canvas).spec_default(),
            final(canvas).spec_data() == write_cell(
                old(canvas).spec_data(),
                old(canvas).spec_dimension().x as int,
                old(canvas).spec_dimension().y as int,
                old(self).spec_origin().x + position.x,
                old(self).spec_origin().y + position.y,
                old(self).spec_element(value),
            ),
    {
        let x = self.origin.x as i64 + position.x as i64;
        let y = self.origin.y as i64 + position.y as i64;
        self.draw_element(canvas, x, y, value);
        self
    }

    /// The character cells a text drawn from unwrapped column `base_x` on
    /// row `base_y` writes: each character one column further, wrapped onto
    /// following rows at the grid width.
    fn text_cells(&self, canvas: &mut Canvas, text: &str, base_x: i64, base_y: i64)
        requires
            old(canvas).wf(),
            old(canvas).spec_dimension().x > 0,
            text@.len() <= 0x7fff_ffff,
            -0x2_0000_0000 <= base_x <= 0x2_0000_0000,
            -0x2_0000_0000 <= base_y <= 0x2_0000_0000,
        ensures
            final(canvas).wf(),
            final(canvas).spec_dimension() == old(canvas).spec_dimension(),
            final(canvas).spec_default() == old(canvas).spec_default(),
            final(canvas).spec_data() == spec_text_written(
                old(canvas).spec_data(),
                old(canvas).spec_dimension().x as int,
                old(canvas).spec_dimension().y as int,
                text@,
                base_x as int,
                base_y as int,
                self.spec_style(),
                self.spec_foreground(),
                self.spec_background(),
            ),
    {
        let ghost w = canvas.spec_dimension().x as int;
        let ghost h = canvas.spec_dimension().y as int;
        let ghost data0 = canvas.spec_data();
        let width = canvas.dimension().x as i64;
        let n = text.unicode_len();
        let mut i: usize = 0;
        proof {
            assert(text@.skip(0) =~= text@);
        }
        while i < n
            invariant
                n == text@.len(),
                n <= 0x7fff_ffff,
                i <= n,
                -0x2_0000_0000 <= base_x <= 0x2_0000_0000,
                -0x2_0000_0000 <= base_y <= 0x2_0000_0000,
                canvas.wf(),
                canvas.spec_dimension().x > 0,
                width == canvas.spec_dimension().x as i64,
                canvas.spec_dimension().x == w,
                canvas.spec_dimension().y == h,
                canvas.spec_default() == old(canvas).spec_default(),
                spec_text_written(
                    data0,
                    w,
                    h,
                    text@,
                    base_x as int,
                    base_y as int,
                    self.spec_style(),
                    self.spec_foreground(),
                    self.spec_background(),
                ) == spec_text_written(
                    canvas.spec_data(),
                    w,
                    h,
                    text@.skip(i as int),
                    base_x + i,
                    base_y as int,
                    self.spec_style(),
                    self.spec_foreground(),
                    self.spec_background(),
                ),
            decreases n - i,
        {
            let ghost rest = text@.skip(i as int);
            let value = text.get_char(i);
            let ex: i64 = base_x + i as i64;
            let col: i64;
            let wrap: i64;
            if ex >= 0 {
                col = ex % width;
                wrap = ex / width;
            } else {
                col = -((-ex) % width);
                wrap = -((-ex) / width);
            }
            proof {
                assert(col == spec_tmod(ex as int, w));
                assert(wrap == spec_tdiv(ex as int, w));
                assert(rest[0] == text@[i as int]);
                assert(rest.skip(1) =~= text@.skip(i as int + 1));
            }
            self.draw_element(canvas, col, base_y + wrap, value);
            i = i + 1;
        }
        proof {
            assert(text@.skip(n as int) =~= Seq::<char>::empty());
        }
    }

    /// Draws a string at `position`: each subsequent character one column to
    /// the right, wrapped onto following rows at the grid width.
    pub fn draw_text(&mut self, canvas: &mut Canvas, text: &str, position: Vec2) -> (r: &mut
        Pencil)
        requires
            old(canvas).wf(),
            old(canvas).spec_dimension().x > 0,
            text@.len() <= 0x7fff_ffff,
        ensures
            *r == *old(self),
            *final(self) == *final(r),
            final(canvas).wf(),
            final(canvas).spec_dimension() == old(canvas).spec_dimension(),
            final(canvas).spec_default() == old(canvas).spec_default(),
            final(canvas).spec_data() == spec_text_written(
                old(canvas).spec_data(),
                old(canvas).spec_dimension().x as int,
                old(canvas).spec_dimension().y as int,
                text@,
                old(self).spec_origin().x + position.x,
                old(self).spec_origin().y + position.y,
                old(self).spec_style(),
                old(self).spec_foreground(),
                old(self).spec_background(),
            ),
    {
        let base_x = self.origin.x as i64 + position.x as i64;
        let base_y = self.origin.y as i64 + position.y as i64;
        self.text_cells(canvas, text, base_x, base_y);
        self
    }

    /// Draws a string centered at `position`: shifted left by half the
    /// text's byte length, as the terminal column budget counts it.
    pub fn draw_center_text(&mut self, canvas: &mut Canvas, text: &str, position: Vec2) -> (r:
        &mut Pencil)
        requires
            old(canvas).wf(),
            old(canvas).spec_dimension().x > 0,
            text@.len() <= 0x7fff_ffff,
            text.spec_bytes().len() <= 0x7fff_ffff,
        ensures
            *r == *old(self),
            *final(self) == *final(r),
            final(canvas).wf(),
            final(canvas).spec_dimension() == old(canvas).spec_dimension(),
            final(canvas).spec_default() == old(canvas).spec_default(),
            final(canvas).spec_data() == spec_text_written(
                old(canvas).spec_data(),
                old(canvas).spec_dimension().x as int,
                old(canvas).spec_dimension().y as int,
                text@,
                old(self).spec_origin().x + position.x - text.spec_bytes().len() / 2,
                old(self).spec_origin().y + position.y,
                old(self).spec_style(),
                old(self).spec_foreground(),
                old(self).spec_background(),
            ),
    {
        let half = (text.len() / 2) as i64;
        let base_x = self.origin.x as i64 + position.x as i64 - half;
        let base_y = self.origin.y as i64 + position.y as i64;
        self.text_cells(canvas, text, base_x, base_y);
        self
    }

    /// Draws a right-aligned string ending at `position`: shifted left by
    /// the text's byte length.
    pub fn draw_right_aligned_text(&mut self, canvas: &mut Canvas, text: &str, position: Vec2) -> (r:
        &mut Pencil)
        requires
            old(canvas).wf(),
            old(canvas).spec_dimension().x > 0,
            text@.len() <= 0x7fff_ffff,
            text.spec_bytes().len() <= 0x7fff_ffff,
        ensures
            *r == *old(self),
            *final(self) == *final(r),
            final(canvas).wf(),
            final(canvas).spec_dimension() == old(canvas).spec_dimension(),
            final(canvas).spec_default() == old(canvas).spec_default(),
            final(canvas).spec_data() == spec_text_written(
                old(canvas).spec_data(),
                old(canvas).spec_dimension().x as int,
                old(canvas).spec_dimension().y as int,
                text@,
                old(self).spec_origin().x + position.x - text.spec_bytes().len(),
                old(self).spec_origin().y + position.y,
                old(self).spec_style(),
                old(self).spec_foreground(),
                old(self).spec_background(),
            ),
    {
        let len = text.len() as i64;
        let base_x = self.origin.x as i64 + position.x as i64 - len;
        let base_y = self.origin.y as i64 + position.y as i64;
        self.text_cells(canvas, text, base_x, base_y);
        self
    }

    /// A vertical run of `count` cells of this pencil's element for
    /// `value`, downwards from absolute (x, y).
    fn vline_cells(&self, canvas: &mut Canvas, x: i64, y: i64, count: i32, value: char)
        requires
            old(canvas).wf(),
            count >= 0,
            -0x4_0000_0000 <= x <= 0x4_0000_0000,
            -0x4_0000_0000 <= y <= 0x4_0000_0000,
        ensures
            final(canvas).wf(),
            final(canvas).spec_dimension() == old(canvas).spec_dimension(),
            final(canvas).spec_default() == old(canvas).spec_default(),
            final(canvas).spec_data() == spec_vline_written(
                old(canvas).spec_data(),
                old(canvas).spec_dimension().x as int,
                old(canvas).spec_dimension().y as int,
                x as int,
                y as int,
                count as int,
                self.spec_element(value),
            ),
    {
        let ghost w = canvas.spec_dimension().x as int;
        let ghost h = canvas.spec_dimension().y as int;
        let ghost data0 = canvas.spec_data();
        let mut i: i32 = 0;
        while i < count
            invariant
                0 <= i <= count,
                -0x4_0000_0000 <= x <= 0x4_0000_0000,
                -0x4_0000_0000 <= y <= 0x4_0000_0000,
                canvas.wf(),
                canvas.spec_dimension().x == w,
                canvas.spec_dimension().y == h,
                canvas.spec_default() == old(canvas).spec_default(),
                spec_vline_written(data0, w, h, x as int, y as int, count as int, self.spec_element(value))
                    == spec_vline_written(
                    canvas.spec_data(),
                    w,
                    h,
                    x as int,
                    y + i,
                    count - i,
                    self.spec_element(value),
                ),
            decreases count - i,
        {
            self.draw_element(canvas, x, y + i as i64, value);
            i = i + 1;
        }
    }

    /// A horizontal run of `count` cells of this pencil's element for
    /// `value`, rightwards from absolute (x, y).
    fn hline_cells(&self, canvas: &mut Canvas, x: i64, y: i64, count: i32, value: char)
        requires
            old(canvas).wf(),
            count >= 0,
            -0x4_0000_0000 <= x <= 0x4_0000_0000,
            -0x4_0000_0000 <= y <= 0x4_0000_0000,
        ensures
            final(canvas).wf(),
            final(canvas).spec_dimension() == old(canvas).spec_dimension(),
            final(canvas).spec_default() == old(canvas).spec_default(),
            final(canvas).spec_data() == spec_hline_written(
                old(canvas).spec_data(),
                old(canvas).spec_dimension().x as int,
                old(canvas).spec_dimension().y as int,
                x as int,
                y as int,
                count as int,
                self.spec_element(value),
            ),
    {
        let ghost w = canvas.spec_dimension().x as int;
        let ghost h = canvas.spec_dimension().y as int;
        let ghost data0 = canvas.spec_data();
        let mut i: i32 = 0;
        while i < count
            invariant
                0 <= i <= count,
                -0x4_0000_0000 <= x <= 0x4_0000_0000,
                -0x4_0000_0000 <= y <= 0x4_0000_0000,
                canvas.wf(),
                canvas.spec_dimension().x == w,
                canvas.spec_dimension().y == h,
                canvas.spec_default() == old(canvas).spec_default(),
                spec_hline_written(data0, w, h, x as int, y as int, count as int, self.spec_element(value))
                    == spec_hline_written(
                    canvas.spec_data(),
                    w,
                    h,
                    x + i,
                    y as int,
                    count - i,
                    self.spec_element(value),
                ),
            decreases count - i,
        {
            self.draw_element(canvas, x + i as i64, y, value);
            i = i + 1;
        }
    }

    /// Draws a vertical line of `size` `value` characters downwards from
    /// `position`. A negative `size` is excluded: it denotes no length.
    pub fn draw_vline(&mut self, canvas: &mut Canvas, value: char, position: Vec2, size: i32) -> (r:
        &mut Pencil)
        requires
            old(canvas).wf(),
            size >= 0,
        ensures
            *r == *old(self),
            *final(self) == *final(r),
            final(canvas).wf(),
            final(canvas).spec_dimension() == old(canvas).spec_dimension(),
            final(canvas).spec_default() == old(canvas).spec_default(),
            final(canvas).spec_data() == spec_vline_written(
                old(canvas).spec_data(),
                old(canvas).spec_dimension().x as int,
                old(canvas).spec_dimension().y as int,
                old(self).spec_origin().x + position.x,
                old(self).spec_origin().y + position.y,
                size as int,
                old(self).spec_element(value),
            ),
    {
        let x = self.origin.x as i64 + position.x as i64;
        let y = self.origin.y as i64 + position.y as i64;
        self.vline_cells(canvas, x, y, size, value);
        self
    }

    /// Draws a horizontal line of `size` `value` characters rightwards from
    /// `position`. A negative `size` is excluded: it denotes no length.
    pub fn draw_hline(&mut self, canvas: &mut Canvas, value: char, position: Vec2, size: i32) -> (r:
        &mut Pencil)
        requires
            old(canvas).wf(),
            size >= 0,
        ensures
            *r == *old(self),
            *final(self) == *final(r),
            final(canvas).wf(),
            final(canvas).spec_dimension() == old(canvas).spec_dimension(),
            final(canvas).spec_default() == old(canvas).spec_default(),
            final(canvas).spec_data() == spec_hline_written(
                old(canvas).spec_data(),
                old(canvas).spec_dimension().x as int,
                old(canvas).spec_dimension().y as int,
                old(self).spec_origin().x + position.x,
                old(self).spec_origin().y + position.y,
                size as int,
                old(self).spec_element(value),
            ),
    {
        let x = self.origin.x as i64 + position.x as i64;
        let y = self.origin.y as i64 + position.y as i64;
        self.hline_cells(canvas, x, y, size, value);
        self
    }

    /// Draws an empty rectangle of the given `charset` whose top-left
    /// corner sits at `position`; `dimension` counts the edge characters,
    /// so each component must be at least 1.
    pub fn draw_rect(
        &mut self,
        canvas: &mut Canvas,
        charset: &RectCharset,
        position: Vec2,
        dimension: Vec2,
    ) -> (r: &mut Pencil)
        requires
            old(canvas).wf(),
            dimension.x >= 1,
            dimension.y >= 1,
        ensures
            *r == *old(self),
            *final(self) == *final(r),
            final(canvas).wf(),
            final(canvas).spec_dimension() == old(canvas).spec_dimension(),
            final(canvas).spec_default() == old(canvas).spec_default(),
            final(canvas).spec_data() == spec_rect_written(
                old(canvas).spec_data(),
                old(canvas).spec_dimension().x as int,
                old(canvas).spec_dimension().y as int,
                old(self).spec_origin().x + position.x,
                old(self).spec_origin().y + position.y,
                dimension.x as int,
                dimension.y as int,
                *charset,
                old(self).spec_style(),
                old(self).spec_foreground(),
                old(self).spec_background(),
            ),
    {
        let x = self.origin.x as i64 + position.x as i64;
        let y = self.origin.y as i64 + position.y as i64;
        let edge_x = dimension.x - 1;
        let edge_y = dimension.y - 1;
        self.hline_cells(canvas, x, y, edge_x, charset.top);
        self.hline_cells(canvas, x, y + edge_y as i64, edge_x, charset.bottom);
        self.vline_cells(canvas, x, y, edge_y, charset.left);
        self.vline_cells(canvas, x + edge_x as i64, y, edge_y, charset.right);
        self.draw_element(canvas, x, y, charset.top_left);
        self.draw_element(canvas, x + edge_x as i64, y, charset.top_right);
        self.draw_element(canvas, x, y + edge_y as i64, charset.bottom_left);
        self.draw_element(canvas, x + edge_x as i64, y + edge_y as i64, charset.bottom_right);
        self
    }

    /// Draws a filled rectangle of `fill` characters whose top-left corner
    /// sits at `position`: `dimension.x` columns of `dimension.y` cells. A
    /// negative height is excluded; a non-positive width draws nothing.
    pub fn draw_filled_rect(
        &mut self,
        canvas: &mut Canvas,
        fill: char,
        position: Vec2,
        dimension: Vec2,
    ) -> (r: &mut Pencil)
        requires
            old(canvas).wf(),
            dimension.y >= 0,
        ensures
            *r == *old(self),
            *final(self) == *final(r),
            final(canvas).wf(),
            final(canvas).spec_dimension() == old(canvas).spec_dimension(),
            final(canvas).spec_default() == old(canvas).spec_default(),
            final(canvas).spec_data() == spec_filled_written(
                old(canvas).spec_data(),
                old(canvas).spec_dimension().x as int,
                old(canvas).spec_dimension().y as int,
                old(self).spec_origin().x + position.x,
                old(self).spec_origin().y + position.y,
                dimension.x as int,
                dimension.y as int,
                old(self).spec_element(fill),
            ),
    {
        let ghost w = canvas.spec_dimension().x as int;
        let ghost h = canvas.spec_dimension().y as int;
        let ghost data0 = canvas.spec_data();
        let base_x = self.origin.x as i64 + position.x as i64;
        let base_y = self.origin.y as i64 + position.y as i64;
        let cols = dimension.x;
        let mut i: i32 = 0;
        if cols >= 0 {
            while i < cols
                invariant
                    0 <= i <= cols,
                    dimension.y >= 0,
                    -0x2_0000_0000 <= base_x <= 0x2_0000_0000,
                    -0x2_0000_0000 <= base_y <= 0x2_0000_0000,
                    canvas.wf(),
                    canvas.spec_dimension().x == w,
                    canvas.spec_dimension().y == h,
                    canvas.spec_default() == old(canvas).spec_default(),
                    spec_filled_written(
                        data0,
                        w,
                        h,
                        base_x as int,
                        base_y as int,
                        cols as int,
                        dimension.y as int,
                        self.spec_element(fill),
                    ) == spec_filled_written(
                        canvas.spec_data(),
                        w,
                        h,
                        base_x + i,
                        base_y as int,
                        cols - i,
                        dimension.y as int,
                        self.spec_element(fill),
                    ),
                decreases cols - i,
            {
                self.vline_cells(canvas, base_x + i as i64, base_y, dimension.y, fill);
                i = i + 1;
            }
        }
        self
    }

    /// Draws the animator's current frame at `position` and advances its
    /// frame counter.
    pub fn draw_animator(&mut self, canvas: &mut Canvas, animator: &mut Animator, position: Vec2)
        requires
            old(canvas).wf(),
            old(canvas).spec_dimension().x > 0,
            old(animator).wf(),
        ensures
            *final(self) == *old(self),
            final(canvas).wf(),
            final(canvas).spec_dimension() == old(canvas).spec_dimension(),
            final(canvas).spec_default() == old(canvas).spec_default(),
            final(animator).wf(),
            Animator::spec_advanced(*old(animator), *final(animator)),
            final(canvas).spec_data() == spec_text_written(
                old(canvas).spec_data(),
                old(canvas).spec_dimension().x as int,
                old(canvas).spec_dimension().y as int,
                old(animator).spec_frames()[old(animator).spec_index() as int].spec_text(),
                old(self).spec_origin().x + position.x,
                old(self).spec_origin().y + position.y,
                old(self).spec_style(),
                old(self).spec_foreground(),
                old(self).spec_background(),
            ),
    {
        let text = animator.access_frame();
        let base_x = self.origin.x as i64 + position.x as i64;
        let base_y = self.origin.y as i64 + position.y as i64;
        self.text_cells(canvas, text.as_str(), base_x, base_y);
    }
}

/// A looping animation: a list of text frames, each shown for its duration
/// divided by the animator's speed.
pub struct Animator {
    animation: Vec<AnimationFrame>,
    frame_index: usize,
    counter: i32,
    speed: u32,
}

impl Animator {
    /// The animation's frames.
    pub closed spec fn spec_frames(self) -> Seq<AnimationFrame> {
        self.animation@
    }

    /// The index of the frame currently shown.
    pub closed spec fn spec_index(self) -> usize {
        self.frame_index
    }

    /// How often the current frame has been shown.
    pub closed spec fn spec_counter(self) -> i32 {
        self.counter
    }

    /// The speed divisor.
    pub closed spec fn spec_speed(self) -> u32 {
        self.speed
    }

    /// The animator invariant: at least one frame, the index within range,
    /// the counter non-negative, the speed a positive divisor, and every
    /// frame's text short enough to draw.
    pub open spec fn wf(self) -> bool {
        &&& self.spec_frames().len() > 0
        &&& self.spec_index() < self.spec_frames().len()
        &&& self.spec_counter() >= 0
        &&& 1 <= self.spec_speed() <= 0x7fff_ffff
        &&& forall|i: int|
            0 <= i < self.spec_frames().len() ==> self.spec_frames()[i].spec_text().len()
                <= 0x7fff_ffff
    }

    /// How one access advances the animator: the counter is bumped (holding
    /// at its maximum rather than wrapping); once it reaches the current
    /// frame's duration divided by the speed (a non-positive quotient at
    /// once), the next frame starts, wrapping around at the end.
    pub open spec fn spec_advanced(pre: Animator, post: Animator) -> bool {
        let quotient = if pre.spec_frames()[pre.spec_index() as int].spec_duration() >= 0 {
            pre.spec_frames()[pre.spec_index() as int].spec_duration() as int / (pre.spec_speed() as int)
        } else {
            0
        };
        let counted: int = if pre.spec_counter() < i32::MAX {
            pre.spec_counter() + 1
        } else {
            i32::MAX as int
        };
        &&& post.spec_frames() == pre.spec_frames()
        &&& post.spec_speed() == pre.spec_speed()
        &&& (if counted >= quotient {
            post.spec_counter() == 0 && post.spec_index() == (pre.spec_index() + 1) % (
            pre.spec_frames().len() as int)
        } else {
            post.spec_counter() == counted && post.spec_index() == pre.spec_index()
        })
    }

    /// An animator over the given frames, at the first frame, full speed.
    pub fn new(animation: Vec<AnimationFrame>) -> (r: Animator)
        ensures
            r.spec_frames() == animation@,
            r.spec_index() == 0,
            r.spec_counter() == 0,
            r.spec_speed() == 1,
    {
        Animator { animation, frame_index: 0, counter: 0, speed: 1 }
    }

    /// Sets the speed divisor: the higher, the faster frames change. Zero
    /// is excluded (the duration is divided by it), as are divisors beyond
    /// the duration range.
    pub fn set_speed(&mut self, speed: u32)
        requires
            1 <= speed <= 0x7fff_ffff,
        ensures
            final(self).spec_speed() == speed,
            final(self).spec_frames() == old(self).spec_frames(),
            final(self).spec_index() == old(self).spec_index(),
            final(self).spec_counter() == old(self).spec_counter(),
    {
        self.speed = speed;
    }

    /// The current frame's text; advances the counter and, when the frame's
    /// time is up, the frame index.
    fn access_frame(&mut self) -> (r: String)
        requires
            old(self).wf(),
        ensures
            final(self).wf(),
            Animator::spec_advanced(*old(self), *final(self)),
            r@ == old(self).spec_frames()[old(self).spec_index() as int].spec_text(),
    {
        let text = self.animation[self.frame_index].text.clone();
        let duration = self.animation[self.frame_index].duration;
        let quotient: i32 = if duration >= 0 {
            duration / (self.speed as i32)
        } else {
            0
        };
        let counted: i32 = if self.counter < i32::MAX {
            self.counter + 1
        } else {
            i32::MAX
        };
        if counted >= quotient {
            self.counter = 0;
            let frame_count = self.animation.len();
            proof {
                assert(self.frame_index < frame_count);
            }
            self.frame_index = (self.frame_index + 1) % frame_count;
        } else {
            self.counter = counted;
        }
        text
    }
}

/// One frame of an animation: its text and how many accesses it lasts.
#[derive(Clone, Debug)]
pub struct AnimationFrame {
    pub(crate) text: String,
    duration: i32,
}

impl AnimationFrame {
    /// The frame's text.
    pub closed spec fn spec_text(self) -> Seq<char> {
        self.text@
    }

    /// The frame's duration, in accesses at speed 1.
    pub closed spec fn spec_duration(self) -> i32 {
        self.duration
    }

    /// A frame showing `text` for `duration` accesses.
    pub fn new(text: String, duration: i32) -> (r: AnimationFrame)
        ensures
            r.spec_text() == text@,
            r.spec_duration() == duration,
    {
        AnimationFrame { text, duration }
    }
}

} // verus!
