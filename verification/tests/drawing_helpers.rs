use ruscii::drawing::{AnimationFrame, Animator, Pencil, RectCharset};
use ruscii::spatial::Vec2;
use ruscii::terminal::{Canvas, Color, Style, VisualElement};

fn char_at(canvas: &Canvas, x: i32, y: i32) -> char {
    canvas.elem(Vec2::xy(x, y)).unwrap().value
}

fn row(canvas: &Canvas, y: i32) -> String {
    let width = canvas.dimension().x;
    (0..width).map(|x| char_at(canvas, x, y)).collect()
}

#[test]
fn the_three_builtin_charsets_hold_their_glyphs() {
    let simple = RectCharset::simple_lines();
    assert_eq!(
        (simple.top, simple.bottom, simple.left, simple.right),
        ('─', '─', '│', '│')
    );
    assert_eq!(
        (simple.top_left, simple.top_right, simple.bottom_left, simple.bottom_right),
        ('┌', '┐', '└', '┘')
    );

    let round = RectCharset::simple_round_lines();
    assert_eq!(
        (round.top_left, round.top_right, round.bottom_left, round.bottom_right),
        ('╭', '╮', '╰', '╯')
    );

    let double = RectCharset::double_lines();
    assert_eq!((double.top, double.left), ('═', '║'));
    assert_eq!(
        (double.top_left, double.top_right, double.bottom_left, double.bottom_right),
        ('╔', '╗', '╚', '╝')
    );
}

#[test]
fn an_incomplete_glyph_set_is_rejected_at_construction() {
    assert!(RectCharset::from_text("──││┌┐└").is_none());
    assert!(RectCharset::from_text("").is_none());
    let full = RectCharset::from_text("abcdefgh").unwrap();
    assert_eq!((full.top, full.bottom, full.left, full.right), ('a', 'b', 'c', 'd'));
    assert_eq!(
        (full.top_left, full.top_right, full.bottom_left, full.bottom_right),
        ('e', 'f', 'g', 'h')
    );
}

#[test]
fn a_fresh_pencil_takes_the_canvas_defaults() {
    let mut default = VisualElement::new();
    default.foreground = Color::Cyan;
    default.style = Style::Bold;
    let canvas = Canvas::new(Vec2::xy(4, 4), &default);
    let pencil = Pencil::new(&canvas);
    assert_eq!(pencil.origin(), Vec2::xy(0, 0));
    assert_eq!(*pencil.foreground(), Color::Cyan);
    assert_eq!(*pencil.background(), Color::Black);
    assert_eq!(*pencil.style(), Style::Bold);
}

#[test]
fn draw_char_writes_the_pencil_style_at_the_offset_position() {
    let mut canvas = Canvas::new(Vec2::xy(5, 5), &VisualElement::new());
    let mut pencil = Pencil::new(&canvas);
    pencil
        .set_origin(Vec2::xy(2, 1))
        .set_foreground(Color::Red)
        .set_background(Color::Blue)
        .set_style(Style::Bold)
        .draw_char(&mut canvas, 'x', Vec2::xy(1, 2));
    let cell = *canvas.elem(Vec2::xy(3, 3)).unwrap();
    assert_eq!(cell.value, 'x');
    assert_eq!(cell.foreground, Color::Red);
    assert_eq!(cell.background, Color::Blue);
    assert_eq!(cell.style, Style::Bold);
}

#[test]
fn off_grid_drawing_is_clipped_silently() {
    let default = VisualElement::new();
    let mut canvas = Canvas::new(Vec2::xy(3, 3), &default);
    let mut pencil = Pencil::new(&canvas);
    pencil.draw_char(&mut canvas, 'x', Vec2::xy(-1, 0));
    pencil.draw_char(&mut canvas, 'x', Vec2::xy(3, 0));
    pencil.draw_char(&mut canvas, 'x', Vec2::xy(0, 7));
    assert!(canvas.data().iter().all(|cell| *cell == default));
}

#[test]
fn text_wraps_at_the_grid_width_onto_the_next_row() {
    let mut canvas = Canvas::new(Vec2::xy(5, 3), &VisualElement::new());
    let mut pencil = Pencil::new(&canvas);
    pencil.draw_text(&mut canvas, "abcdef", Vec2::xy(3, 0));
    assert_eq!(row(&canvas, 0), "   ab");
    assert_eq!(row(&canvas, 1), "cdef ");
}

#[test]
fn centered_and_right_aligned_text_shift_by_the_text_length() {
    let mut canvas = Canvas::new(Vec2::xy(9, 2), &VisualElement::new());
    let mut pencil = Pencil::new(&canvas);
    pencil.draw_center_text(&mut canvas, "abcd", Vec2::xy(4, 0));
    assert_eq!(row(&canvas, 0), "  abcd   ");
    pencil.draw_right_aligned_text(&mut canvas, "abcd", Vec2::xy(8, 1));
    assert_eq!(row(&canvas, 1), "    abcd ");
}

#[test]
fn lines_run_down_and_right_from_their_position() {
    let mut canvas = Canvas::new(Vec2::xy(4, 4), &VisualElement::new());
    let mut pencil = Pencil::new(&canvas);
    pencil.draw_vline(&mut canvas, '|', Vec2::xy(1, 0), 3);
    pencil.draw_hline(&mut canvas, '-', Vec2::xy(0, 3), 4);
    assert_eq!(row(&canvas, 0), " |  ");
    assert_eq!(row(&canvas, 1), " |  ");
    assert_eq!(row(&canvas, 2), " |  ");
    assert_eq!(row(&canvas, 3), "----");
}

#[test]
fn a_rectangle_draws_its_edges_and_corners() {
    let mut canvas = Canvas::new(Vec2::xy(6, 4), &VisualElement::new());
    let mut pencil = Pencil::new(&canvas);
    pencil.draw_rect(&mut canvas, &RectCharset::simple_lines(), Vec2::xy(0, 0), Vec2::xy(5, 4));
    assert_eq!(row(&canvas, 0), "┌───┐ ");
    assert_eq!(row(&canvas, 1), "│   │ ");
    assert_eq!(row(&canvas, 2), "│   │ ");
    assert_eq!(row(&canvas, 3), "└───┘ ");
}

#[test]
fn a_filled_rectangle_lands_with_its_corner_at_the_position() {
    let mut canvas = Canvas::new(Vec2::xy(6, 6), &VisualElement::new());
    let mut pencil = Pencil::new(&canvas);
    pencil.set_origin(Vec2::xy(1, 0));
    pencil.draw_filled_rect(&mut canvas, '#', Vec2::xy(1, 1), Vec2::xy(2, 2));
    assert_eq!(row(&canvas, 0), "      ");
    assert_eq!(row(&canvas, 1), "  ##  ");
    assert_eq!(row(&canvas, 2), "  ##  ");
    assert_eq!(row(&canvas, 3), "      ");
}

#[test]
fn the_pencil_dimension_is_the_space_past_the_origin() {
    let canvas = Canvas::new(Vec2::xy(10, 5), &VisualElement::new());
    let mut pencil = Pencil::new(&canvas);
    pencil.set_origin(Vec2::xy(5, 0));
    assert_eq!(pencil.dimension(&canvas), Vec2::xy(5, 5));
}

#[test]
fn the_animator_advances_when_a_frame_s_time_is_up() {
    let frames = vec![
        AnimationFrame::new(String::from("one"), 2),
        AnimationFrame::new(String::from("two"), 1),
    ];
    let mut animator = Animator::new(frames);
    let mut canvas = Canvas::new(Vec2::xy(8, 1), &VisualElement::new());
    let mut pencil = Pencil::new(&canvas);

    // Duration 2 at speed 1: the first access shows "one" and keeps it.
    pencil.draw_animator(&mut canvas, &mut animator, Vec2::xy(0, 0));
    assert_eq!(row(&canvas, 0), "one     ");

    // The second access shows "one" again and moves on.
    canvas.clear();
    pencil.draw_animator(&mut canvas, &mut animator, Vec2::xy(0, 0));
    assert_eq!(row(&canvas, 0), "one     ");

    // Duration 1: "two" shows once, then the animation wraps around.
    canvas.clear();
    pencil.draw_animator(&mut canvas, &mut animator, Vec2::xy(0, 0));
    assert_eq!(row(&canvas, 0), "two     ");

    canvas.clear();
    pencil.draw_animator(&mut canvas, &mut animator, Vec2::xy(0, 0));
    assert_eq!(row(&canvas, 0), "one     ");
}

#[test]
fn a_faster_animator_changes_frames_sooner() {
    let frames = vec![
        AnimationFrame::new(String::from("a"), 4),
        AnimationFrame::new(String::from("b"), 4),
    ];
    let mut animator = Animator::new(frames);
    animator.set_speed(4);
    let mut canvas = Canvas::new(Vec2::xy(2, 1), &VisualElement::new());
    let mut pencil = Pencil::new(&canvas);
    // Duration 4 at speed 4 lasts one access.
    pencil.draw_animator(&mut canvas, &mut animator, Vec2::xy(0, 0));
    assert_eq!(char_at(&canvas, 0, 0), 'a');
    canvas.clear();
    pencil.draw_animator(&mut canvas, &mut animator, Vec2::xy(0, 0));
    assert_eq!(char_at(&canvas, 0, 0), 'b');
}
