//! Display cells and the character grid.
//!
//! A [`VisualElement`] is the full display state of one character position:
//! glyph, foreground and background [`Color`], and font [`Style`]. A
//! [`Canvas`] is a row-major grid of such cells with a default fill value;
//! every cell write is bounds-checked and out-of-grid writes are silent
//! no-ops. The [`Window`] owns a canvas and presents it to the live terminal
//! through the diff pass in [`crate::render`].

use vstd::prelude::*;

use crate::render::ControlCommand;
use crate::spatial::Vec2;

verus! {

/// A set of common colors plus an `Xterm` value carrying an arbitrary ANSI
/// 8-bit color by its Xterm number.
#[derive(Debug, Clone, Copy, Eq, PartialEq, Structural)]
pub enum Color {
    Black,
    White,
    Grey,
    DarkGrey,
    LightGrey,
    Red,
    Green,
    Blue,
    Cyan,
    Yellow,
    Magenta,
    Xterm(u8),
}

impl Color {
    /// The Xterm number this color converts to.
    pub open spec fn spec_code(self) -> u8 {
        match self {
            Color::Black => 16,
            Color::White => 231,
            Color::Grey => 244,
            Color::DarkGrey => 238,
            Color::LightGrey => 250,
            Color::Red => 196,
            Color::Green => 46,
            Color::Blue => 21,
            Color::Cyan => 51,
            Color::Yellow => 226,
            Color::Magenta => 201,
            Color::Xterm(code) => code,
        }
    }

    /// Converts this color to its corresponding Xterm number.
    pub fn code(&self) -> (r: u8)
        ensures
            r == self.spec_code(),
    {
        match *self {
            Color::Black => 16,
            Color::White => 231,
            Color::Grey => 244,
            Color::DarkGrey => 238,
            Color::LightGrey => 250,
            Color::Red => 196,
            Color::Green => 46,
            Color::Blue => 21,
            Color::Cyan => 51,
            Color::Yellow => 226,
            Color::Magenta => 201,
            Color::Xterm(code) => code,
        }
    }
}

/// The font weight of text on the terminal screen.
#[derive(Debug, Clone, Copy, Eq, PartialEq, Structural)]
pub enum Style {
    Plain,
    Bold,
}

/// All the data needed to display one character on the terminal screen.
#[derive(Debug, Clone, Copy, Eq, PartialEq, Structural)]
pub struct VisualElement {
    pub style: Style,
    pub background: Color,
    pub foreground: Color,
    pub value: char,
}

impl VisualElement {
    /// The element the terminal shows by default: a plain space, white on
    /// black.
    pub open spec fn spec_default() -> VisualElement {
        VisualElement {
            style: Style::Plain,
            background: Color::Black,
            foreground: Color::White,
            value: ' ',
        }
    }

    /// Constructs a `VisualElement` with the default terminal styles.
    pub fn new() -> (r: VisualElement)
        ensures
            r == VisualElement::spec_default(),
    {
        VisualElement {
            style: Style::Plain,
            background: Color::Black,
            foreground: Color::White,
            value: ' ',
        }
    }
}

/// A cell of a well-formed grid lies at row-major index `y * w + x`, which is
/// within the grid's `w * h` cells.
pub proof fn lemma_row_major_bounds(x: int, y: int, w: int, h: int)
    requires
        0 <= x < w,
        0 <= y < h,
    ensures
        0 <= y * w + x < w * h,
{
    assert(0 <= y * w + x < w * h) by (nonlinear_arith)
        requires
            0 <= x < w,
            0 <= y < h,
    ;
}

/// The grid of [`VisualElement`] cells for a single frame, stored row-major.
pub struct Canvas {
    data: Vec<VisualElement>,
    dimension: Vec2,
    default_element: VisualElement,
}

impl Canvas {
    /// The grid invariant: non-negative dimensions and exactly
    /// `width * height` cells.
    pub open spec fn wf(self) -> bool {
        &&& 0 <= self.spec_dimension().x
        &&& 0 <= self.spec_dimension().y
        &&& self.spec_data().len() == self.spec_dimension().x * self.spec_dimension().y
    }

    /// The grid's dimension as a width/height pair.
    pub closed spec fn spec_dimension(self) -> Vec2 {
        self.dimension
    }

    /// The cells, in row-major order.
    pub closed spec fn spec_data(self) -> Seq<VisualElement> {
        self.data@
    }

    /// The element cells are reset to on `clear`.
    pub closed spec fn spec_default(self) -> VisualElement {
        self.default_element
    }

    /// Whether `pos` denotes a cell of the grid.
    pub open spec fn spec_contains(self, pos: Vec2) -> bool {
        &&& 0 <= pos.x < self.spec_dimension().x
        &&& 0 <= pos.y < self.spec_dimension().y
    }

    /// The row-major index of the cell at `pos`.
    pub open spec fn cell_index(self, pos: Vec2) -> int {
        pos.y * self.spec_dimension().x + pos.x
    }

    /// Constructs a grid of the given `dimension` with every cell set to
    /// `*default_element`.
    pub fn new(dimension: Vec2, default_element: &VisualElement) -> (r: Canvas)
        requires
            0 <= dimension.x,
            0 <= dimension.y,
            dimension.x * dimension.y <= usize::MAX,
        ensures
            r.wf(),
            r.spec_dimension() == dimension,
            r.spec_default() == *default_element,
            r.spec_data() == Seq::new((dimension.x * dimension.y) as nat, |i: int| *default_element),
    {
        let n: usize = (dimension.x as usize) * (dimension.y as usize);
        let mut data: Vec<VisualElement> = Vec::new();
        while data.len() < n
            invariant
                data@.len() <= n,
                data@ == Seq::new(data@.len(), |i: int| *default_element),
            decreases n - data@.len(),
        {
            data.push(*default_element);
            proof {
                assert(data@ =~= Seq::new(data@.len(), |i: int| *default_element));
            }
        }
        proof {
            assert(data@ =~= Seq::new((dimension.x * dimension.y) as nat, |i: int| *default_element));
        }
        Canvas { data, dimension, default_element: *default_element }
    }

    /// The element every cell is reset to by `clear`.
    pub fn default_element(&self) -> (r: &VisualElement)
        ensures
            *r == self.spec_default(),
    {
        &self.default_element
    }

    /// Sets the element to which every cell is reset when `clear` is called.
    pub fn set_default_element(&mut self, element: &VisualElement)
        ensures
            final(self).spec_default() == *element,
            final(self).spec_data() == old(self).spec_data(),
            final(self).spec_dimension() == old(self).spec_dimension(),
    {
        self.default_element = *element;
    }

    /// The grid's dimension.
    pub fn dimension(&self) -> (r: Vec2)
        ensures
            r == self.spec_dimension(),
    {
        self.dimension
    }

    /// Checks whether the point `pos` lies within the grid: dimensions are
    /// sizes while positions are indices, and any negative component is
    /// outside.
    pub fn contains(&self, pos: Vec2) -> (r: bool)
        ensures
            r == self.spec_contains(pos),
    {
        0 <= pos.x && 0 <= pos.y && pos.x < self.dimension.x && pos.y < self.dimension.y
    }

    /// A reference to the cell at `pos`, or `None` when `pos` lies outside
    /// the grid.
    pub fn elem(&self, pos: Vec2) -> (r: Option<&VisualElement>)
        requires
            self.wf(),
        ensures
            self.spec_contains(pos) ==> (r matches Some(e) && *e == self.spec_data()[self.cell_index(pos)]),
            !self.spec_contains(pos) ==> r is None,
    {
        if self.contains(pos) {
            let n: usize = self.data.len();
            proof {
                lemma_row_major_bounds(pos.x as int, pos.y as int, self.dimension.x as int, self.dimension.y as int);
            }
            let idx: usize = (pos.y as usize) * (self.dimension.x as usize) + (pos.x as usize);
            Some(&self.data[idx])
        } else {
            None
        }
    }

    /// Overwrites the cell at `pos` with `*element` and returns whether the
    /// write happened: a write outside the grid changes nothing and returns
    /// `false`.
    pub fn elem_mut(&mut self, pos: Vec2, element: &VisualElement) -> (written: bool)
        requires
            old(self).wf(),
        ensures
            final(self).wf(),
            final(self).spec_dimension() == old(self).spec_dimension(),
            final(self).spec_default() == old(self).spec_default(),
            written == old(self).spec_contains(pos),
            old(self).spec_contains(pos) ==> final(self).spec_data() == old(self).spec_data().update(
                old(self).cell_index(pos),
                *element,
            ),
            !old(self).spec_contains(pos) ==> final(self).spec_data() == old(self).spec_data(),
    {
        if self.contains(pos) {
            let n: usize = self.data.len();
            proof {
                lemma_row_major_bounds(pos.x as int, pos.y as int, self.dimension.x as int, self.dimension.y as int);
            }
            let idx: usize = (pos.y as usize) * (self.dimension.x as usize) + (pos.x as usize);
            self.data[idx] = *element;
            true
        } else {
            false
        }
    }

    /// Resets every cell to the default element.
    pub fn clear(&mut self)
        requires
            old(self).wf(),
        ensures
            final(self).wf(),
            final(self).spec_dimension() == old(self).spec_dimension(),
            final(self).spec_default() == old(self).spec_default(),
            final(self).spec_data() == Seq::new(
                old(self).spec_data().len(),
                |i: int| old(self).spec_default(),
            ),
    {
        let d = self.default_element;
        self.fill(&d);
    }

    /// Sets every cell to `*elem`.
    pub fn fill(&mut self, elem: &VisualElement)
        ensures
            final(self).wf() == old(self).wf(),
            final(self).spec_dimension() == old(self).spec_dimension(),
            final(self).spec_default() == old(self).spec_default(),
            final(self).spec_data() == Seq::new(old(self).spec_data().len(), |i: int| *elem),
    {
        let n: usize = self.data.len();
        let mut i: usize = 0;
        while i < n
            invariant
                n == self.data@.len(),
                i <= n,
                self.dimension == old(self).dimension,
                self.default_element == old(self).default_element,
                forall|j: int| 0 <= j < i ==> self.data@[j] == *elem,
            decreases n - i,
        {
            self.data[i] = *elem;
            i = i + 1;
        }
        proof {
            assert(self.data@ =~= Seq::new(old(self).spec_data().len(), |i: int| *elem));
        }
    }

    /// A reference to all the cells the grid holds, in row-major order.
    pub fn data(&self) -> (r: &Vec<VisualElement>)
        ensures
            r@ == self.spec_data(),
    {
        &self.data
    }

    /// Brings the grid to the given dimension with every cell equal to the
    /// default element: a changed dimension reallocates the grid wholesale
    /// (previous content discarded), an unchanged one resets every cell in
    /// place — either way no residual content survives.
    pub fn reset(&mut self, dimension: Vec2)
        requires
            old(self).wf(),
            0 <= dimension.x,
            0 <= dimension.y,
            dimension.x * dimension.y <= usize::MAX,
        ensures
            final(self).wf(),
            final(self).spec_dimension() == dimension,
            final(self).spec_default() == old(self).spec_default(),
            final(self).spec_data() == Seq::new(
                (dimension.x * dimension.y) as nat,
                |i: int| old(self).spec_default(),
            ),
    {
        let dim = self.dimension();
        if dim.x != dimension.x || dim.y != dimension.y {
            let d = self.default_element;
            *self = Canvas::new(dimension, &d);
        } else {
            self.clear();
        }
    }
}

/// Largest dimension component accepted from the live terminal; it keeps
/// the grid's cell count within the index range on every platform.
pub const MAX_DIMENSION: i32 = 32767;

/// The detected size of the live terminal, each component clamped to
/// [`MAX_DIMENSION`].
pub fn size() -> (r: Vec2)
    ensures
        0 <= r.x <= MAX_DIMENSION,
        0 <= r.y <= MAX_DIMENSION,
        r.x * r.y <= usize::MAX,
{
    let (x, y) = crate::backend::terminal_size();
    let cx: i32 = if x > 32767 {
        32767
    } else {
        x as i32
    };
    let cy: i32 = if y > 32767 {
        32767
    } else {
        y as i32
    };
    proof {
        assert(cx * cy <= 32767 * 32767) by (nonlinear_arith)
            requires
                0 <= cx <= 32767,
                0 <= cy <= 32767,
        ;
    }
    Vec2 { x: cx, y: cy }
}

/// The display surface: a [`Canvas`] together with the live terminal it is
/// presented on through one buffered command stream per frame.
pub struct Window {
    canvas: Canvas,
}

impl Window {
    /// The grid the window presents.
    pub closed spec fn spec_canvas(self) -> Canvas {
        self.canvas
    }

    /// The window invariant: its grid is well-formed.
    pub open spec fn wf(self) -> bool {
        self.spec_canvas().wf()
    }

    /// A window sized to the detected terminal dimension, every cell the
    /// default element.
    pub fn new() -> (r: Window)
        ensures
            r.wf(),
            r.spec_canvas().spec_default() == VisualElement::spec_default(),
            r.spec_canvas().spec_data() == Seq::new(
                r.spec_canvas().spec_data().len(),
                |i: int| VisualElement::spec_default(),
            ),
    {
        let dimension = size();
        let canvas = Canvas::new(dimension, &VisualElement::new());
        proof {
            assert(canvas.spec_data() =~= Seq::new(
                canvas.spec_data().len(),
                |i: int| VisualElement::spec_default(),
            ));
        }
        Window { canvas }
    }

    /// The window's grid.
    pub fn canvas(&self) -> (r: &Canvas)
        ensures
            *r == self.spec_canvas(),
    {
        &self.canvas
    }

    /// The window's grid, for mutation.
    pub fn canvas_mut(&mut self) -> (r: &mut Canvas)
        ensures
            *r == old(self).spec_canvas(),
            final(self).spec_canvas() == *final(r),
    {
        &mut self.canvas
    }

    /// The grid's dimension.
    pub fn size(&self) -> (r: Vec2)
        ensures
            r == self.spec_canvas().spec_dimension(),
    {
        self.canvas.dimension()
    }

    /// The lifecycle commands that open the window: enter the alternate
    /// screen, reset colors and attributes, hide the cursor.
    pub fn open_sequence() -> (r: Vec<ControlCommand>)
        ensures
            r@ == seq![
                ControlCommand::EnterAlternate,
                ControlCommand::ResetColor,
                ControlCommand::ResetAttributes,
                ControlCommand::HideCursor,
            ],
    {
        let mut r: Vec<ControlCommand> = Vec::new();
        r.push(ControlCommand::EnterAlternate);
        r.push(ControlCommand::ResetColor);
        r.push(ControlCommand::ResetAttributes);
        r.push(ControlCommand::HideCursor);
        proof {
            assert(r@ =~= seq![
                ControlCommand::EnterAlternate,
                ControlCommand::ResetColor,
                ControlCommand::ResetAttributes,
                ControlCommand::HideCursor,
            ]);
        }
        r
    }

    /// The lifecycle commands that close the window, reversing
    /// [`Window::open_sequence`]: show the cursor, reset attributes and
    /// colors, leave the alternate screen.
    pub fn close_sequence() -> (r: Vec<ControlCommand>)
        ensures
            r@ == seq![
                ControlCommand::ShowCursor,
                ControlCommand::ResetAttributes,
                ControlCommand::ResetColor,
                ControlCommand::LeaveAlternate,
            ],
    {
        let mut r: Vec<ControlCommand> = Vec::new();
        r.push(ControlCommand::ShowCursor);
        r.push(ControlCommand::ResetAttributes);
        r.push(ControlCommand::ResetColor);
        r.push(ControlCommand::LeaveAlternate);
        proof {
            assert(r@ =~= seq![
                ControlCommand::ShowCursor,
                ControlCommand::ResetAttributes,
                ControlCommand::ResetColor,
                ControlCommand::LeaveAlternate,
            ]);
        }
        r
    }

    /// Switches the terminal to the alternate screen with the cursor
    /// hidden, resets its state to the grid's default colors, and enables
    /// raw input so every keystroke reaches the keyboard engine. The grid is
    /// untouched.
    pub fn open(&mut self)
        ensures
            final(self).spec_canvas() == old(self).spec_canvas(),
    {
        let control = Window::open_sequence();
        crate::backend::emit_control(&control);
        let clean = crate::render::clean_commands(self.canvas.default_element());
        crate::backend::emit_commands(&clean);
        crate::backend::raw_mode_on();
    }

    /// Enables or disables the terminal's raw input mode. The grid is
    /// untouched.
    pub fn raw_mode(&mut self, enable: bool)
        ensures
            final(self).spec_canvas() == old(self).spec_canvas(),
    {
        if enable {
            crate::backend::raw_mode_on();
        } else {
            crate::backend::raw_mode_off();
        }
    }

    /// Reverses [`Window::open`] unconditionally: leaves raw mode, shows
    /// the cursor, restores the terminal's own colors and screen. The grid
    /// is untouched.
    pub fn close(&mut self)
        ensures
            final(self).spec_canvas() == old(self).spec_canvas(),
    {
        crate::backend::raw_mode_off();
        let control = Window::close_sequence();
        crate::backend::emit_control(&control);
    }

    /// Re-queries the live terminal dimension and brings the grid to it: a
    /// changed dimension reallocates the grid wholesale, an unchanged one
    /// resets every cell in place — after either, every cell equals the
    /// default element and nothing of the previous content remains.
    pub fn clear(&mut self)
        requires
            old(self).wf(),
        ensures
            final(self).wf(),
            final(self).spec_canvas().spec_default() == old(self).spec_canvas().spec_default(),
            final(self).spec_canvas().spec_data() == Seq::new(
                final(self).spec_canvas().spec_data().len(),
                |i: int| old(self).spec_canvas().spec_default(),
            ),
    {
        let dimension = size();
        self.canvas.reset(dimension);
    }

    /// Presents the grid: computes the frame's command sequence — exactly
    /// [`crate::render::frame_commands`] of the cells and default element —
    /// and sends it through the buffered sink with a single flush. The grid
    /// is untouched.
    pub fn draw(&mut self)
        ensures
            final(self).spec_canvas() == old(self).spec_canvas(),
    {
        let commands = crate::render::draw_commands(&self.canvas);
        crate::backend::emit_commands(&commands);
    }
}

} // verus!
