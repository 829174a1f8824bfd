use ruscii::render::{clean_commands, draw_commands, Command};
use ruscii::spatial::Vec2;
use ruscii::terminal::{Canvas, Color, Style, VisualElement};

fn count_weight(commands: &[Command]) -> usize {
    commands.iter().filter(|c| matches!(c, Command::SetWeight(_))).count()
}

fn count_fg(commands: &[Command]) -> usize {
    commands.iter().filter(|c| matches!(c, Command::SetForeground(_))).count()
}

fn count_bg(commands: &[Command]) -> usize {
    commands.iter().filter(|c| matches!(c, Command::SetBackground(_))).count()
}

fn count_prints(commands: &[Command]) -> usize {
    commands.iter().filter(|c| matches!(c, Command::Print(_))).count()
}

/// The pass body: the frame's commands without the reset prefix and suffix
/// (four commands each).
fn pass_body(commands: &[Command]) -> &[Command] {
    &commands[4..commands.len() - 4]
}

#[test]
fn one_colored_cell_in_a_row_costs_exactly_two_foreground_changes() {
    let mut canvas = Canvas::new(Vec2::xy(80, 1), &VisualElement::new());
    let mut red = VisualElement::new();
    red.foreground = Color::Red;
    assert!(canvas.elem_mut(Vec2::xy(40, 0), &red));

    let commands = draw_commands(&canvas);
    assert_eq!(count_fg(pass_body(&commands)), 2);
    assert_eq!(count_prints(&commands), 80);
}

#[test]
fn the_foreground_cost_is_independent_of_the_row_length() {
    for width in [10i32, 80, 200] {
        let mut canvas = Canvas::new(Vec2::xy(width, 1), &VisualElement::new());
        let mut red = VisualElement::new();
        red.foreground = Color::Red;
        assert!(canvas.elem_mut(Vec2::xy(width / 2, 0), &red));
        let commands = draw_commands(&canvas);
        assert_eq!(count_fg(pass_body(&commands)), 2);
    }
}

#[test]
fn a_uniform_grid_needs_no_color_change_at_all() {
    let canvas = Canvas::new(Vec2::xy(40, 10), &VisualElement::new());
    let commands = draw_commands(&canvas);
    let body = pass_body(&commands);
    assert_eq!(count_weight(body), 0);
    assert_eq!(count_fg(body), 0);
    assert_eq!(count_bg(body), 0);
    assert_eq!(count_prints(body), 400);
}

#[test]
fn each_contiguous_run_costs_one_change() {
    // Rows of cells colored A A B B A: three run boundaries differ from the
    // state before them, so three foreground commands.
    let mut canvas = Canvas::new(Vec2::xy(5, 1), &VisualElement::new());
    let mut a = VisualElement::new();
    a.foreground = Color::Green;
    let mut b = VisualElement::new();
    b.foreground = Color::Blue;
    for (x, e) in [(0, a), (1, a), (2, b), (3, b), (4, a)] {
        assert!(canvas.elem_mut(Vec2::xy(x, 0), &e));
    }
    let commands = draw_commands(&canvas);
    assert_eq!(count_fg(pass_body(&commands)), 3);
}

#[test]
fn the_pass_opens_and_closes_with_the_default_state() {
    let default = VisualElement::new();
    let canvas = Canvas::new(Vec2::xy(3, 1), &default);
    let commands = draw_commands(&canvas);
    let reset = clean_commands(&default);
    assert_eq!(&commands[..4], &reset[..]);
    assert_eq!(&commands[commands.len() - 4..], &reset[..]);
    assert_eq!(
        reset,
        vec![
            Command::SetWeight(Style::Plain),
            Command::SetForeground(Color::White.code()),
            Command::SetBackground(Color::Black.code()),
            Command::MoveTo(0, 0),
        ]
    );
}

#[test]
fn a_bold_run_costs_one_weight_change_each_way() {
    let mut canvas = Canvas::new(Vec2::xy(10, 1), &VisualElement::new());
    let mut bold = VisualElement::new();
    bold.style = Style::Bold;
    for x in 2..5 {
        assert!(canvas.elem_mut(Vec2::xy(x, 0), &bold));
    }
    let commands = draw_commands(&canvas);
    let body = pass_body(&commands);
    // One change entering the bold run, one returning to plain after it;
    // the weight is untouched where cells keep their predecessor's weight.
    assert_eq!(count_weight(body), 2);
    assert_eq!(count_fg(body), 0);
    assert_eq!(count_bg(body), 0);
    assert!(matches!(body[2], Command::SetWeight(Style::Bold)));
}

#[test]
fn every_character_is_emitted_in_scan_order() {
    let mut canvas = Canvas::new(Vec2::xy(2, 2), &VisualElement::new());
    for (x, y, value) in [(0, 0, 'a'), (1, 0, 'b'), (0, 1, 'c'), (1, 1, 'd')] {
        let mut e = VisualElement::new();
        e.value = value;
        assert!(canvas.elem_mut(Vec2::xy(x, y), &e));
    }
    let commands = draw_commands(&canvas);
    let printed: Vec<char> = commands
        .iter()
        .filter_map(|c| if let Command::Print(value) = c { Some(*value) } else { None })
        .collect();
    assert_eq!(printed, vec!['a', 'b', 'c', 'd']);
}

#[test]
fn a_background_run_costs_one_background_change() {
    let mut canvas = Canvas::new(Vec2::xy(10, 1), &VisualElement::new());
    let mut highlighted = VisualElement::new();
    highlighted.background = Color::Yellow;
    for x in 3..6 {
        assert!(canvas.elem_mut(Vec2::xy(x, 0), &highlighted));
    }
    let commands = draw_commands(&canvas);
    let body = pass_body(&commands);
    // One change entering the run, one leaving it.
    assert_eq!(count_bg(body), 2);
    assert_eq!(count_fg(body), 0);
}
