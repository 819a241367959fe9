use tile_world::input::{map_keys, Heading, MoveKey, PressedKeys};

fn held(keys: &[MoveKey]) -> PressedKeys {
    let mut pressed = PressedKeys::none();
    for key in keys {
        pressed = pressed.press(*key);
    }
    pressed
}

const ALL_KEYS: [MoveKey; 4] = [MoveKey::Up, MoveKey::Down, MoveKey::Left, MoveKey::Right];

#[test]
fn no_key_maps_to_the_zero_direction() {
    assert_eq!(map_keys(&PressedKeys::none()), Heading { x: 0, y: 0 });
}

#[test]
fn up_and_down_cancel() {
    assert_eq!(map_keys(&held(&[MoveKey::Up, MoveKey::Down])), Heading { x: 0, y: 0 });
}

#[test]
fn left_and_right_cancel() {
    assert_eq!(map_keys(&held(&[MoveKey::Left, MoveKey::Right])), Heading { x: 0, y: 0 });
}

#[test]
fn all_four_keys_cancel() {
    assert_eq!(map_keys(&held(&ALL_KEYS)), Heading { x: 0, y: 0 });
}

#[test]
fn each_key_moves_along_its_axis() {
    assert_eq!(map_keys(&held(&[MoveKey::Up])), Heading { x: 0, y: 1 });
    assert_eq!(map_keys(&held(&[MoveKey::Down])), Heading { x: 0, y: -1 });
    assert_eq!(map_keys(&held(&[MoveKey::Left])), Heading { x: -1, y: 0 });
    assert_eq!(map_keys(&held(&[MoveKey::Right])), Heading { x: 1, y: 0 });
}

#[test]
fn two_keys_of_different_axes_move_diagonally() {
    assert_eq!(map_keys(&held(&[MoveKey::Up, MoveKey::Right])), Heading { x: 1, y: 1 });
    assert_eq!(map_keys(&held(&[MoveKey::Up, MoveKey::Left])), Heading { x: -1, y: 1 });
    assert_eq!(map_keys(&held(&[MoveKey::Down, MoveKey::Right])), Heading { x: 1, y: -1 });
    assert_eq!(map_keys(&held(&[MoveKey::Down, MoveKey::Left])), Heading { x: -1, y: -1 });
}

#[test]
fn a_cancelled_axis_leaves_the_other_axis() {
    assert_eq!(
        map_keys(&held(&[MoveKey::Up, MoveKey::Down, MoveKey::Right])),
        Heading { x: 1, y: 0 }
    );
    assert_eq!(
        map_keys(&held(&[MoveKey::Left, MoveKey::Right, MoveKey::Down])),
        Heading { x: 0, y: -1 }
    );
}

#[test]
fn every_key_set_maps_to_the_sum_of_its_keys() {
    for bits in 0..16u32 {
        let mut pressed = PressedKeys::none();
        let mut x = 0i8;
        let mut y = 0i8;
        if bits & 1 != 0 {
            pressed = pressed.press(MoveKey::Up);
            y += 1;
        }
        if bits & 2 != 0 {
            pressed = pressed.press(MoveKey::Down);
            y -= 1;
        }
        if bits & 4 != 0 {
            pressed = pressed.press(MoveKey::Left);
            x -= 1;
        }
        if bits & 8 != 0 {
            pressed = pressed.press(MoveKey::Right);
            x += 1;
        }
        let heading = map_keys(&pressed);
        assert_eq!(heading, Heading { x, y });
        assert!((-1..=1).contains(&heading.x));
        assert!((-1..=1).contains(&heading.y));
    }
}

#[test]
fn pressing_a_key_holds_it_and_no_other() {
    for key in ALL_KEYS {
        let pressed = PressedKeys::none().press(key);
        for other in ALL_KEYS {
            assert_eq!(pressed.is_pressed(other), other == key);
        }
    }
    for key in ALL_KEYS {
        assert!(!PressedKeys::none().is_pressed(key));
    }
}

#[test]
fn pressing_a_key_twice_is_pressing_it_once() {
    for key in ALL_KEYS {
        assert_eq!(PressedKeys::none().press(key).press(key), PressedKeys::none().press(key));
    }
}

#[test]
fn the_order_of_presses_does_not_matter() {
    assert_eq!(held(&[MoveKey::Up, MoveKey::Left]), held(&[MoveKey::Left, MoveKey::Up]));
    assert_eq!(
        map_keys(&held(&[MoveKey::Down, MoveKey::Up])),
        map_keys(&held(&[MoveKey::Up, MoveKey::Down]))
    );
}

#[test]
fn a_direction_is_zero_or_can_be_brought_to_unit_length() {
    for bits in 0..16u32 {
        let mut pressed = PressedKeys::none();
        for (bit, key) in ALL_KEYS.iter().enumerate() {
            if bits & (1 << bit) != 0 {
                pressed = pressed.press(*key);
            }
        }
        let vertical_cancels = pressed.is_pressed(MoveKey::Up) == pressed.is_pressed(MoveKey::Down);
        let horizontal_cancels =
            pressed.is_pressed(MoveKey::Left) == pressed.is_pressed(MoveKey::Right);
        let heading = map_keys(&pressed);
        let x = f32::from(heading.x);
        let y = f32::from(heading.y);
        let length = (x * x + y * y).sqrt();
        if vertical_cancels && horizontal_cancels {
            assert_eq!(heading, Heading { x: 0, y: 0 });
            assert_eq!(length, 0.0);
        } else {
            assert!(length >= 1.0);
            let unit_x = x / length;
            let unit_y = y / length;
            let unit_length = (unit_x * unit_x + unit_y * unit_y).sqrt();
            assert!((unit_length - 1.0).abs() < 1e-6);
        }
    }
}
