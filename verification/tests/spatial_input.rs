use ruscii::input::{classify_key_down, classify_keys_down, Key, KeyDown};
use ruscii::spatial::{Direction, Vec2};

#[test]
fn vector_constructors_place_their_components() {
    assert_eq!(Vec2::zero(), Vec2 { x: 0, y: 0 });
    assert_eq!(Vec2::xy(3, -4), Vec2 { x: 3, y: -4 });
    assert_eq!(Vec2::x(7), Vec2 { x: 7, y: 0 });
    assert_eq!(Vec2::y(-2), Vec2 { x: 0, y: -2 });
    let mut v = Vec2::xy(5, 6);
    v.clear();
    assert_eq!(v, Vec2::zero());
}

#[test]
fn vector_arithmetic_works_componentwise() {
    assert_eq!(Vec2::xy(1, 2).plus(Vec2::xy(3, -5)), Vec2::xy(4, -3));
    assert_eq!(Vec2::xy(1, 2).minus(Vec2::xy(3, -5)), Vec2::xy(-2, 7));
    assert_eq!(Vec2::xy(1, -2).negate(), Vec2::xy(-1, 2));
}

#[test]
fn scalar_multiplication_scales_both_components() {
    assert_eq!(Vec2::xy(3, -4).times(5), Vec2::xy(15, -20));
    assert_eq!(Vec2::xy(3, -4).times(0), Vec2::zero());
    assert_eq!(Vec2::xy(3, -4).times(-1), Vec2::xy(-3, 4));
}

#[test]
fn scalar_division_rounds_toward_zero() {
    assert_eq!(Vec2::xy(7, -7).divided_by(2), Vec2::xy(3, -3));
    assert_eq!(Vec2::xy(7, -7).divided_by(-2), Vec2::xy(-3, 3));
    assert_eq!(Vec2::xy(1, -1).divided_by(3), Vec2::zero());
    assert_eq!(Vec2::xy(i32::MIN, 6).divided_by(2), Vec2::xy(i32::MIN / 2, 3));
}

#[test]
fn opposite_swaps_the_axis_directions_and_keeps_still() {
    assert_eq!(Direction::Up.opposite(), Direction::Down);
    assert_eq!(Direction::Down.opposite(), Direction::Up);
    assert_eq!(Direction::Left.opposite(), Direction::Right);
    assert_eq!(Direction::Right.opposite(), Direction::Left);
    assert_eq!(Direction::Still.opposite(), Direction::Still);
}

#[test]
fn directions_convert_to_unit_vectors_with_inverted_vertical() {
    assert_eq!(Vec2::from(Direction::Up), Vec2::y(-1));
    assert_eq!(Vec2::from(Direction::Down), Vec2::y(1));
    assert_eq!(Vec2::from(Direction::Left), Vec2::x(-1));
    assert_eq!(Vec2::from(Direction::Right), Vec2::x(1));
    assert_eq!(Vec2::from(Direction::Still), Vec2::zero());
}

#[test]
fn orthogonal_vectors_classify_as_directions() {
    assert_eq!(Direction::try_from_vec2(Vec2::y(-1)), Ok(Direction::Up));
    assert_eq!(Direction::try_from_vec2(Vec2::y(5)), Ok(Direction::Down));
    assert_eq!(Direction::try_from_vec2(Vec2::x(-2)), Ok(Direction::Left));
    assert_eq!(Direction::try_from_vec2(Vec2::x(9)), Ok(Direction::Right));
    assert_eq!(Direction::try_from_vec2(Vec2::zero()), Ok(Direction::Still));
}

#[test]
fn a_non_orthogonal_vector_is_rejected() {
    let result = Direction::try_from_vec2(Vec2::xy(1, 1));
    assert!(matches!(result, Err(error) if error.value == Vec2::xy(1, 1)));
}

#[test]
fn modifier_state_groups_each_held_key() {
    assert_eq!(classify_key_down(Key::A, false, false, false), KeyDown::Key(Key::A));
    assert_eq!(classify_key_down(Key::A, true, false, false), KeyDown::Ctrl(Key::A));
    assert_eq!(classify_key_down(Key::A, false, true, false), KeyDown::Alt(Key::A));
    assert_eq!(classify_key_down(Key::A, false, false, true), KeyDown::Shift(Key::A));
    assert_eq!(classify_key_down(Key::A, true, true, false), KeyDown::CtrlAlt(Key::A));
    assert_eq!(classify_key_down(Key::A, true, false, true), KeyDown::CtrlShift(Key::A));
    assert_eq!(classify_key_down(Key::A, false, true, true), KeyDown::AltShift(Key::A));
    assert_eq!(classify_key_down(Key::A, true, true, true), KeyDown::CtrlAltShift(Key::A));
}

#[test]
fn a_sample_keeps_its_order_when_grouped() {
    let keys = vec![Key::W, Key::Space, Key::Unknown];
    let grouped = classify_keys_down(&keys, false, false, true);
    assert_eq!(
        grouped,
        vec![
            KeyDown::Shift(Key::W),
            KeyDown::Shift(Key::Space),
            KeyDown::Shift(Key::Unknown),
        ]
    );
}
