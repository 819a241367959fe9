use tile_world::input::{map_keys, Heading, MoveKey, PressedKeys};
use tile_world::player::{
    animation_frame, IDLE_FRAME, MOVING_UP_FRAME, SHEET_COLUMNS, SHEET_ROWS,
};

#[test]
fn character_sheet_layout() {
    assert_eq!((SHEET_COLUMNS, SHEET_ROWS), (1, 2));
    assert_eq!(IDLE_FRAME, 0);
    assert_eq!(MOVING_UP_FRAME, 1);
}

#[test]
fn a_direction_that_points_up_selects_the_moving_up_frame() {
    assert_eq!(animation_frame(Heading { x: 0, y: 1 }), 1);
}

#[test]
fn a_sideways_direction_selects_the_idle_frame() {
    assert_eq!(animation_frame(Heading { x: 1, y: 0 }), 0);
}

#[test]
fn a_direction_that_points_down_selects_the_idle_frame() {
    assert_eq!(animation_frame(Heading { x: 0, y: -1 }), 0);
}

#[test]
fn the_zero_direction_selects_the_idle_frame() {
    assert_eq!(animation_frame(Heading { x: 0, y: 0 }), 0);
}

#[test]
fn the_frame_depends_on_the_vertical_component_alone() {
    for x in [i8::MIN, -1, 0, 1, i8::MAX] {
        for y in [i8::MIN, -1, 0] {
            assert_eq!(animation_frame(Heading { x, y }), IDLE_FRAME);
        }
        for y in [1, 2, i8::MAX] {
            assert_eq!(animation_frame(Heading { x, y }), MOVING_UP_FRAME);
        }
    }
}

#[test]
fn the_frame_is_a_cell_of_the_character_sheet() {
    let cells = (SHEET_COLUMNS * SHEET_ROWS) as usize;
    for x in -1..=1i8 {
        for y in -1..=1i8 {
            assert!(animation_frame(Heading { x, y }) < cells);
        }
    }
}

#[test]
fn the_frame_follows_the_keys_of_the_current_frame() {
    let up = PressedKeys::none().press(MoveKey::Up);
    let up_left = up.press(MoveKey::Left);
    let up_down = up.press(MoveKey::Down);
    let down = PressedKeys::none().press(MoveKey::Down);
    assert_eq!(animation_frame(map_keys(&up)), 1);
    assert_eq!(animation_frame(map_keys(&up_left)), 1);
    assert_eq!(animation_frame(map_keys(&up_down)), 0);
    assert_eq!(animation_frame(map_keys(&down)), 0);
    assert_eq!(animation_frame(map_keys(&PressedKeys::none())), 0);
    assert_eq!(animation_frame(map_keys(&up)), 1);
}
