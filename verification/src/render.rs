//! The diff pass: turning a grid into the minimal command sequence for one
//! frame.
//!
//! A frame is presented by iterating the grid exactly once in row-major
//! order. Before and after the pass the style and color state is reset to
//! the grid's default element and the cursor is moved to the origin. For
//! each cell, a style, foreground or background change command is emitted
//! only if that component differs from the immediately preceding cell in
//! the same pass; the character itself is always emitted. [`frame_commands`]
//! is the specification of that sequence and [`draw_commands`] computes it;
//! [`lemma_fg_commands_count_runs`] and its weight and background analogs
//! show the pass is minimal: it emits exactly one change command per
//! contiguous run of identically-styled cells.

use vstd::prelude::*;

use crate::terminal::{Canvas, Color, Style, VisualElement};

verus! {

/// One buffered terminal command of the per-frame output stream.
#[derive(Debug, Clone, Copy, Eq, PartialEq, Structural)]
pub enum Command {
    /// Select the font weight.
    SetWeight(Style),
    /// Select the 8-bit indexed foreground color.
    SetForeground(u8),
    /// Select the 8-bit indexed background color.
    SetBackground(u8),
    /// Emit one literal character at the cursor.
    Print(char),
    /// Move the cursor to the given column and row.
    MoveTo(u16, u16),
}

/// One lifecycle command, sent when the window opens or closes rather than
/// per frame.
#[derive(Debug, Clone, Copy, Eq, PartialEq, Structural)]
pub enum ControlCommand {
    /// Switch to the alternate screen buffer.
    EnterAlternate,
    /// Return to the host's main screen buffer.
    LeaveAlternate,
    /// Hide the cursor.
    HideCursor,
    /// Show the cursor.
    ShowCursor,
    /// Reset colors to the terminal's own defaults.
    ResetColor,
    /// Reset text attributes to the terminal's own defaults.
    ResetAttributes,
}

/// The commands one cell contributes to the pass, given the style and color
/// state `style`/`fg`/`bg` left by the preceding cell: a change command for
/// each component that differs, then the cell's character.
pub open spec fn emit_cell(c: VisualElement, style: Style, fg: Color, bg: Color) -> Seq<Command> {
    (if c.style != style {
        seq![Command::SetWeight(c.style)]
    } else {
        Seq::<Command>::empty()
    }) + (if c.foreground != fg {
        seq![Command::SetForeground(c.foreground.spec_code())]
    } else {
        Seq::<Command>::empty()
    }) + (if c.background != bg {
        seq![Command::SetBackground(c.background.spec_code())]
    } else {
        Seq::<Command>::empty()
    }) + seq![Command::Print(c.value)]
}

/// The commands the whole pass emits for `cells`, entered with style and
/// color state `style`/`fg`/`bg`: each cell's contribution, threading the
/// state left behind by each cell into the next.
pub open spec fn render_cells(
    cells: Seq<VisualElement>,
    style: Style,
    fg: Color,
    bg: Color,
) -> Seq<Command>
    decreases cells.len(),
{
    if cells.len() == 0 {
        Seq::<Command>::empty()
    } else {
        emit_cell(cells[0], style, fg, bg) + render_cells(
            cells.skip(1),
            cells[0].style,
            cells[0].foreground,
            cells[0].background,
        )
    }
}

/// The reset emitted before and after the pass: the default element's
/// weight and colors, and the cursor at the origin.
pub open spec fn clean_seq(d: VisualElement) -> Seq<Command> {
    seq![
        Command::SetWeight(d.style),
        Command::SetForeground(d.foreground.spec_code()),
        Command::SetBackground(d.background.spec_code()),
        Command::MoveTo(0u16, 0u16),
    ]
}

/// The full command sequence of one frame: reset, the pass over the cells,
/// reset again.
pub open spec fn frame_commands(cells: Seq<VisualElement>, d: VisualElement) -> Seq<Command> {
    clean_seq(d) + render_cells(cells, d.style, d.foreground, d.background) + clean_seq(d)
}

/// The reset commands for a grid whose default element is `*d`.
pub fn clean_commands(d: &VisualElement) -> (r: Vec<Command>)
    ensures
        r@ == clean_seq(*d),
{
    let mut r: Vec<Command> = Vec::new();
    r.push(Command::SetWeight(d.style));
    r.push(Command::SetForeground(d.foreground.code()));
    r.push(Command::SetBackground(d.background.code()));
    r.push(Command::MoveTo(0, 0));
    proof {
        assert(r@ =~= clean_seq(*d));
    }
    r
}

/// Computes the command sequence that presents the canvas for one frame:
/// exactly [`frame_commands`] of its cells and default element.
#[verifier::rlimit(50)]
pub fn draw_commands(canvas: &Canvas) -> (r: Vec<Command>)
    ensures
        r@ == frame_commands(canvas.spec_data(), canvas.spec_default()),
{
    let d = *canvas.default_element();
    let mut cmds = clean_commands(&d);
    let data = canvas.data();
    let n: usize = data.len();
    let mut last_style = d.style;
    let mut last_fg = d.foreground;
    let mut last_bg = d.background;
    let mut i: usize = 0;
    proof {
        assert(canvas.spec_data().skip(0) =~= canvas.spec_data());
    }
    while i < n
        invariant
            n == canvas.spec_data().len(),
            i <= n,
            d == canvas.spec_default(),
            data@ == canvas.spec_data(),
            clean_seq(d) + render_cells(canvas.spec_data(), d.style, d.foreground, d.background)
                == cmds@ + render_cells(
                canvas.spec_data().skip(i as int),
                last_style,
                last_fg,
                last_bg,
            ),
        decreases n - i,
    {
        let ghost cmds_pre = cmds@;
        let ghost style_pre = last_style;
        let ghost fg_pre = last_fg;
        let ghost bg_pre = last_bg;
        let ghost rest = canvas.spec_data().skip(i as int);
        let element = &data[i];
        if last_style != element.style {
            cmds.push(Command::SetWeight(element.style));
            last_style = element.style;
        }
        if last_fg != element.foreground {
            cmds.push(Command::SetForeground(element.foreground.code()));
            last_fg = element.foreground;
        }
        if last_bg != element.background {
            cmds.push(Command::SetBackground(element.background.code()));
            last_bg = element.background;
        }
        cmds.push(Command::Print(element.value));
        proof {
            assert(rest[0] == canvas.spec_data()[i as int]);
            assert(rest.skip(1) =~= canvas.spec_data().skip(i as int + 1));
            assert(last_style == rest[0].style);
            assert(last_fg == rest[0].foreground);
            assert(last_bg == rest[0].background);
            assert(cmds@ =~= cmds_pre + emit_cell(rest[0], style_pre, fg_pre, bg_pre));
        }
        i = i + 1;
    }
    proof {
        assert(canvas.spec_data().skip(n as int) =~= Seq::<VisualElement>::empty());
    }
    let ghost mid = cmds@;
    cmds.push(Command::SetWeight(d.style));
    cmds.push(Command::SetForeground(d.foreground.code()));
    cmds.push(Command::SetBackground(d.background.code()));
    cmds.push(Command::MoveTo(0, 0));
    proof {
        assert(cmds@ =~= mid + clean_seq(d));
        assert(cmds@ =~= frame_commands(canvas.spec_data(), canvas.spec_default()));
    }
    cmds
}

/// The number of weight-change commands in a command sequence.
pub open spec fn count_weight_commands(cmds: Seq<Command>) -> nat
    decreases cmds.len(),
{
    if cmds.len() == 0 {
        0
    } else {
        (if cmds[0] is SetWeight {
            1nat
        } else {
            0nat
        }) + count_weight_commands(cmds.skip(1))
    }
}

/// The number of foreground-change commands in a command sequence.
pub open spec fn count_fg_commands(cmds: Seq<Command>) -> nat
    decreases cmds.len(),
{
    if cmds.len() == 0 {
        0
    } else {
        (if cmds[0] is SetForeground {
            1nat
        } else {
            0nat
        }) + count_fg_commands(cmds.skip(1))
    }
}

/// The number of background-change commands in a command sequence.
pub open spec fn count_bg_commands(cmds: Seq<Command>) -> nat
    decreases cmds.len(),
{
    if cmds.len() == 0 {
        0
    } else {
        (if cmds[0] is SetBackground {
            1nat
        } else {
            0nat
        }) + count_bg_commands(cmds.skip(1))
    }
}

/// The number of positions where a cell's style differs from its
/// predecessor's (the first cell compared against `style`): one per
/// contiguous run of identically-weighted cells whose weight differs from
/// the state before the run.
pub open spec fn style_run_changes(cells: Seq<VisualElement>, style: Style) -> nat
    decreases cells.len(),
{
    if cells.len() == 0 {
        0
    } else {
        (if cells[0].style != style {
            1nat
        } else {
            0nat
        }) + style_run_changes(cells.skip(1), cells[0].style)
    }
}

/// The foreground analog of [`style_run_changes`].
pub open spec fn fg_run_changes(cells: Seq<VisualElement>, fg: Color) -> nat
    decreases cells.len(),
{
    if cells.len() == 0 {
        0
    } else {
        (if cells[0].foreground != fg {
            1nat
        } else {
            0nat
        }) + fg_run_changes(cells.skip(1), cells[0].foreground)
    }
}

/// The background analog of [`style_run_changes`].
pub open spec fn bg_run_changes(cells: Seq<VisualElement>, bg: Color) -> nat
    decreases cells.len(),
{
    if cells.len() == 0 {
        0
    } else {
        (if cells[0].background != bg {
            1nat
        } else {
            0nat
        }) + bg_run_changes(cells.skip(1), cells[0].background)
    }
}

/// Counting weight-change commands distributes over concatenation.
pub proof fn lemma_count_weight_concat(a: Seq<Command>, b: Seq<Command>)
    ensures
        count_weight_commands(a + b) == count_weight_commands(a) + count_weight_commands(b),
    decreases a.len(),
{
    if a.len() == 0 {
        assert(a + b =~= b);
    } else {
        assert((a + b).skip(1) =~= a.skip(1) + b);
        lemma_count_weight_concat(a.skip(1), b);
        assert((a + b)[0] == a[0]);
    }
}

/// Counting foreground-change commands distributes over concatenation.
pub proof fn lemma_count_fg_concat(a: Seq<Command>, b: Seq<Command>)
    ensures
        count_fg_commands(a + b) == count_fg_commands(a) + count_fg_commands(b),
    decreases a.len(),
{
    if a.len() == 0 {
        assert(a + b =~= b);
    } else {
        assert((a + b).skip(1) =~= a.skip(1) + b);
        lemma_count_fg_concat(a.skip(1), b);
        assert((a + b)[0] == a[0]);
    }
}

/// Counting background-change commands distributes over concatenation.
pub proof fn lemma_count_bg_concat(a: Seq<Command>, b: Seq<Command>)
    ensures
        count_bg_commands(a + b) == count_bg_commands(a) + count_bg_commands(b),
    decreases a.len(),
{
    if a.len() == 0 {
        assert(a + b =~= b);
    } else {
        assert((a + b).skip(1) =~= a.skip(1) + b);
        lemma_count_bg_concat(a.skip(1), b);
        assert((a + b)[0] == a[0]);
    }
}

/// The diff pass is minimal for weight traffic: over any cells and any
/// entry state, it emits exactly one weight-change command per contiguous
/// run of identically-weighted cells in scan order, independent of the
/// cells' number.
pub proof fn lemma_weight_commands_count_runs(
    cells: Seq<VisualElement>,
    style: Style,
    fg: Color,
    bg: Color,
)
    ensures
        count_weight_commands(render_cells(cells, style, fg, bg)) == style_run_changes(
            cells,
            style,
        ),
    decreases cells.len(),
{
    if cells.len() > 0 {
        let c = cells[0];
        let w = if c.style != style {
            seq![Command::SetWeight(c.style)]
        } else {
            Seq::<Command>::empty()
        };
        let a = if c.foreground != fg {
            seq![Command::SetForeground(c.foreground.spec_code())]
        } else {
            Seq::<Command>::empty()
        };
        let b = if c.background != bg {
            seq![Command::SetBackground(c.background.spec_code())]
        } else {
            Seq::<Command>::empty()
        };
        let p = seq![Command::Print(c.value)];
        assert(count_weight_commands(Seq::<Command>::empty()) == 0);
        assert(p.skip(1) =~= Seq::<Command>::empty());
        assert(count_weight_commands(p) == 0);
        if w.len() > 0 {
            assert(w.skip(1) =~= Seq::<Command>::empty());
        }
        if a.len() > 0 {
            assert(a.skip(1) =~= Seq::<Command>::empty());
        }
        if b.len() > 0 {
            assert(b.skip(1) =~= Seq::<Command>::empty());
        }
        lemma_count_weight_concat(w, a);
        lemma_count_weight_concat(w + a, b);
        lemma_count_weight_concat(w + a + b, p);
        lemma_count_weight_concat(
            emit_cell(c, style, fg, bg),
            render_cells(cells.skip(1), c.style, c.foreground, c.background),
        );
        lemma_weight_commands_count_runs(cells.skip(1), c.style, c.foreground, c.background);
    }
}

/// The diff pass is minimal for foreground traffic: over any cells and any
/// entry state, it emits exactly one foreground-change command per
/// contiguous run of identically-colored cells in scan order, independent
/// of the cells' number.
pub proof fn lemma_fg_commands_count_runs(
    cells: Seq<VisualElement>,
    style: Style,
    fg: Color,
    bg: Color,
)
    ensures
        count_fg_commands(render_cells(cells, style, fg, bg)) == fg_run_changes(cells, fg),
    decreases cells.len(),
{
    if cells.len() > 0 {
        let c = cells[0];
        let w = if c.style != style {
            seq![Command::SetWeight(c.style)]
        } else {
            Seq::<Command>::empty()
        };
        let a = if c.foreground != fg {
            seq![Command::SetForeground(c.foreground.spec_code())]
        } else {
            Seq::<Command>::empty()
        };
        let b = if c.background != bg {
            seq![Command::SetBackground(c.background.spec_code())]
        } else {
            Seq::<Command>::empty()
        };
        let p = seq![Command::Print(c.value)];
        assert(count_fg_commands(Seq::<Command>::empty()) == 0);
        assert(p.skip(1) =~= Seq::<Command>::empty());
        assert(count_fg_commands(p) == 0);
        if w.len() > 0 {
            assert(w.skip(1) =~= Seq::<Command>::empty());
        }
        if a.len() > 0 {
            assert(a.skip(1) =~= Seq::<Command>::empty());
        }
        if b.len() > 0 {
            assert(b.skip(1) =~= Seq::<Command>::empty());
        }
        lemma_count_fg_concat(w, a);
        lemma_count_fg_concat(w + a, b);
        lemma_count_fg_concat(w + a + b, p);
        lemma_count_fg_concat(
            emit_cell(c, style, fg, bg),
            render_cells(cells.skip(1), c.style, c.foreground, c.background),
        );
        lemma_fg_commands_count_runs(cells.skip(1), c.style, c.foreground, c.background);
    }
}

/// The background analog of [`lemma_fg_commands_count_runs`].
pub proof fn lemma_bg_commands_count_runs(
    cells: Seq<VisualElement>,
    style: Style,
    fg: Color,
    bg: Color,
)
    ensures
        count_bg_commands(render_cells(cells, style, fg, bg)) == bg_run_changes(cells, bg),
    decreases cells.len(),
{
    if cells.len() > 0 {
        let c = cells[0];
        let w = if c.style != style {
            seq![Command::SetWeight(c.style)]
        } else {
            Seq::<Command>::empty()
        };
        let a = if c.foreground != fg {
            seq![Command::SetForeground(c.foreground.spec_code())]
        } else {
            Seq::<Command>::empty()
        };
        let b = if c.background != bg {
            seq![Command::SetBackground(c.background.spec_code())]
        } else {
            Seq::<Command>::empty()
        };
        let p = seq![Command::Print(c.value)];
        assert(count_bg_commands(Seq::<Command>::empty()) == 0);
        assert(p.skip(1) =~= Seq::<Command>::empty());
        assert(count_bg_commands(p) == 0);
        if w.len() > 0 {
            assert(w.skip(1) =~= Seq::<Command>::empty());
        }
        if a.len() > 0 {
            assert(a.skip(1) =~= Seq::<Command>::empty());
        }
        if b.len() > 0 {
            assert(b.skip(1) =~= Seq::<Command>::empty());
        }
        lemma_count_bg_concat(w, a);
        lemma_count_bg_concat(w + a, b);
        lemma_count_bg_concat(w + a + b, p);
        lemma_count_bg_concat(
            emit_cell(c, style, fg, bg),
            render_cells(cells.skip(1), c.style, c.foreground, c.background),
        );
        lemma_bg_commands_count_runs(cells.skip(1), c.style, c.foreground, c.background);
    }
}

} // verus!
