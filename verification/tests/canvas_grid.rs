use ruscii::spatial::Vec2;
use ruscii::terminal::{Canvas, Color, Style, VisualElement};

fn marked(value: char) -> VisualElement {
    let mut e = VisualElement::new();
    e.value = value;
    e.foreground = Color::Red;
    e
}

#[test]
fn a_write_outside_the_grid_is_a_no_op_that_signals_not_writable() {
    let default = VisualElement::new();
    let mut canvas = Canvas::new(Vec2::xy(3, 2), &default);
    assert!(!canvas.elem_mut(Vec2::xy(3, 0), &marked('x')));
    assert!(!canvas.elem_mut(Vec2::xy(0, 2), &marked('x')));
    assert!(!canvas.elem_mut(Vec2::xy(-1, 0), &marked('x')));
    assert!(!canvas.elem_mut(Vec2::xy(0, -1), &marked('x')));
    // No corruption: every cell still equals the default element.
    assert!(canvas.data().iter().all(|cell| *cell == default));
}

#[test]
fn a_write_inside_the_grid_changes_exactly_that_cell() {
    let default = VisualElement::new();
    let mut canvas = Canvas::new(Vec2::xy(3, 2), &default);
    assert!(canvas.elem_mut(Vec2::xy(1, 1), &marked('x')));
    for y in 0..2 {
        for x in 0..3 {
            let cell = *canvas.elem(Vec2::xy(x, y)).unwrap();
            if (x, y) == (1, 1) {
                assert_eq!(cell, marked('x'));
            } else {
                assert_eq!(cell, default);
            }
        }
    }
}

#[test]
fn contains_counts_dimensions_as_sizes_and_positions_as_indices() {
    let canvas = Canvas::new(Vec2::xy(10, 20), &VisualElement::new());
    assert!(!canvas.contains(Vec2::xy(10, 20)));
    assert!(canvas.contains(Vec2::xy(9, 19)));
    assert!(!canvas.contains(Vec2::xy(-1, -3)));
    assert!(canvas.elem(Vec2::xy(10, 20)).is_none());
    assert!(canvas.elem(Vec2::xy(9, 19)).is_some());
}

#[test]
fn reset_to_a_new_dimension_leaves_no_residual_content() {
    let default = VisualElement::new();
    let mut canvas = Canvas::new(Vec2::xy(4, 4), &default);
    for y in 0..4 {
        for x in 0..4 {
            assert!(canvas.elem_mut(Vec2::xy(x, y), &marked('x')));
        }
    }
    canvas.reset(Vec2::xy(6, 3));
    assert_eq!(canvas.dimension(), Vec2::xy(6, 3));
    assert_eq!(canvas.data().len(), 18);
    assert!(canvas.data().iter().all(|cell| *cell == default));
}

#[test]
fn reset_to_the_same_dimension_clears_in_place() {
    let default = VisualElement::new();
    let mut canvas = Canvas::new(Vec2::xy(4, 4), &default);
    assert!(canvas.elem_mut(Vec2::xy(2, 2), &marked('x')));
    canvas.reset(Vec2::xy(4, 4));
    assert_eq!(canvas.dimension(), Vec2::xy(4, 4));
    assert!(canvas.data().iter().all(|cell| *cell == default));
}

#[test]
fn clear_resets_every_cell_to_the_default_element() {
    let mut canvas = Canvas::new(Vec2::xy(3, 3), &VisualElement::new());
    assert!(canvas.elem_mut(Vec2::xy(0, 0), &marked('x')));
    let mut blue = VisualElement::new();
    blue.background = Color::Blue;
    canvas.set_default_element(&blue);
    canvas.clear();
    assert!(canvas.data().iter().all(|cell| *cell == blue));
    assert_eq!(*canvas.default_element(), blue);
}

#[test]
fn fill_sets_every_cell() {
    let mut canvas = Canvas::new(Vec2::xy(2, 2), &VisualElement::new());
    canvas.fill(&marked('#'));
    assert!(canvas.data().iter().all(|cell| *cell == marked('#')));
    // The default element is untouched by a fill.
    assert_eq!(*canvas.default_element(), VisualElement::new());
}

#[test]
fn an_empty_grid_is_valid_and_rejects_every_write() {
    let mut canvas = Canvas::new(Vec2::xy(0, 0), &VisualElement::new());
    assert_eq!(canvas.data().len(), 0);
    assert!(!canvas.elem_mut(Vec2::xy(0, 0), &marked('x')));
    assert!(canvas.elem(Vec2::xy(0, 0)).is_none());
}

#[test]
fn color_codes_match_the_xterm_table() {
    assert_eq!(Color::Black.code(), 16);
    assert_eq!(Color::White.code(), 231);
    assert_eq!(Color::Grey.code(), 244);
    assert_eq!(Color::DarkGrey.code(), 238);
    assert_eq!(Color::LightGrey.code(), 250);
    assert_eq!(Color::Red.code(), 196);
    assert_eq!(Color::Green.code(), 46);
    assert_eq!(Color::Blue.code(), 21);
    assert_eq!(Color::Cyan.code(), 51);
    assert_eq!(Color::Yellow.code(), 226);
    assert_eq!(Color::Magenta.code(), 201);
    assert_eq!(Color::Xterm(137).code(), 137);
}

#[test]
fn the_default_element_is_a_plain_space_white_on_black() {
    let e = VisualElement::new();
    assert_eq!(e.style, Style::Plain);
    assert_eq!(e.background, Color::Black);
    assert_eq!(e.foreground, Color::White);
    assert_eq!(e.value, ' ');
}
