use bevy::input::keyboard::KeyCode;
use bevy::input::ButtonInput;
use ray_tracer::{move_player, Heading, Keys, SPEED};

fn keys(up: bool, down: bool, left: bool, right: bool) -> Keys {
    Keys { up, down, left, right }
}

fn heading_of(keys: Keys) -> Option<Heading> {
    keys.heading()
}

fn record(pressed: &[KeyCode]) -> ButtonInput<KeyCode> {
    let mut inputs = ButtonInput::<KeyCode>::default();
    for key in pressed {
        inputs.press(*key);
    }
    inputs
}

fn displacement(heading: Heading, delta_seconds: f32) -> (f32, f32) {
    let x = heading.x as f32;
    let y = heading.y as f32;
    let length = (heading.length_squared() as f32).sqrt();
    (
        delta_seconds * (x / length) * SPEED as f32,
        delta_seconds * (y / length) * SPEED as f32,
    )
}

#[test]
fn no_key_no_movement() {
    assert_eq!(heading_of(keys(false, false, false, false)), None);
}

#[test]
fn opposite_keys_cancel() {
    assert_eq!(heading_of(keys(true, true, false, false)), None);
    assert_eq!(heading_of(keys(false, false, true, true)), None);
    assert_eq!(heading_of(keys(true, true, true, true)), None);
}

#[test]
fn single_keys_move_along_an_axis() {
    assert_eq!(heading_of(keys(true, false, false, false)), Some(Heading { x: 0, y: -1 }));
    assert_eq!(heading_of(keys(false, true, false, false)), Some(Heading { x: 0, y: 1 }));
    assert_eq!(heading_of(keys(false, false, true, false)), Some(Heading { x: -1, y: 0 }));
    assert_eq!(heading_of(keys(false, false, false, true)), Some(Heading { x: 1, y: 0 }));
}

#[test]
fn two_keys_move_along_a_diagonal() {
    assert_eq!(heading_of(keys(true, false, false, true)), Some(Heading { x: 1, y: -1 }));
    assert_eq!(heading_of(keys(false, true, true, false)), Some(Heading { x: -1, y: 1 }));
}

#[test]
fn third_key_leaves_the_unmatched_direction() {
    assert_eq!(heading_of(keys(true, true, false, true)), Some(Heading { x: 1, y: 0 }));
    assert_eq!(heading_of(keys(true, false, true, true)), Some(Heading { x: 0, y: -1 }));
}

#[test]
fn every_combination_is_zero_axis_or_diagonal() {
    for bits in 0u8..16 {
        let k = keys(bits & 1 != 0, bits & 2 != 0, bits & 4 != 0, bits & 8 != 0);
        let cancelled = k.up == k.down && k.left == k.right;
        match k.heading() {
            None => assert!(cancelled),
            Some(h) => {
                assert!(!cancelled);
                assert!(!h.is_zero());
                assert!((-1..=1).contains(&h.x) && (-1..=1).contains(&h.y));
                let n = h.length_squared();
                assert!(n == 1 || n == 2);
                assert_eq!(n == 2, k.up != k.down && k.left != k.right);
            }
        }
    }
}

#[test]
fn length_squared_of_each_heading() {
    assert_eq!(Heading { x: 0, y: 0 }.length_squared(), 0);
    assert_eq!(Heading { x: 1, y: 0 }.length_squared(), 1);
    assert_eq!(Heading { x: 0, y: -1 }.length_squared(), 1);
    assert_eq!(Heading { x: -1, y: -1 }.length_squared(), 2);
    assert_eq!(Heading { x: 3, y: -4 }.length_squared(), 25);
    assert_eq!(Heading { x: -128, y: -128 }.length_squared(), 32768);
    assert_eq!(Heading { x: 127, y: 0 }.length_squared(), 16129);
    assert!(Heading { x: 0, y: 0 }.is_zero());
    assert!(!Heading { x: 0, y: 1 }.is_zero());
}

#[test]
fn speed_is_two_hundred_units_a_second() {
    assert_eq!(SPEED, 200);
}

#[test]
fn displacement_has_the_same_magnitude_in_every_direction() {
    let dt = 0.016f32;
    for bits in 1u8..16 {
        let k = keys(bits & 1 != 0, bits & 2 != 0, bits & 4 != 0, bits & 8 != 0);
        if let Some(h) = k.heading() {
            let (dx, dy) = displacement(h, dt);
            let magnitude = (dx * dx + dy * dy).sqrt();
            assert!((magnitude - SPEED as f32 * dt).abs() < 1e-4);
        }
    }
}

#[test]
fn move_player_reads_w_s_a_d_from_the_record() {
    assert_eq!(move_player(&record(&[])), None);
    assert_eq!(move_player(&record(&[KeyCode::KeyW])), Some(Heading { x: 0, y: -1 }));
    assert_eq!(move_player(&record(&[KeyCode::KeyS])), Some(Heading { x: 0, y: 1 }));
    assert_eq!(move_player(&record(&[KeyCode::KeyA])), Some(Heading { x: -1, y: 0 }));
    assert_eq!(move_player(&record(&[KeyCode::KeyD])), Some(Heading { x: 1, y: 0 }));
    assert_eq!(
        move_player(&record(&[KeyCode::KeyD, KeyCode::KeyS])),
        Some(Heading { x: 1, y: 1 })
    );
    assert_eq!(move_player(&record(&[KeyCode::KeyW, KeyCode::KeyS])), None);
}

#[test]
fn move_player_ignores_other_keys() {
    assert_eq!(
        move_player(&record(&[KeyCode::ArrowUp, KeyCode::Space, KeyCode::KeyQ])),
        None
    );
    assert_eq!(
        move_player(&record(&[KeyCode::ArrowLeft, KeyCode::KeyD])),
        Some(Heading { x: 1, y: 0 })
    );
}

#[test]
fn move_player_follows_presses_and_releases() {
    let mut inputs = ButtonInput::<KeyCode>::default();
    assert_eq!(Keys::read(&inputs), keys(false, false, false, false));
    inputs.press(KeyCode::KeyW);
    inputs.press(KeyCode::KeyA);
    assert_eq!(Keys::read(&inputs), keys(true, false, true, false));
    assert_eq!(move_player(&inputs), Some(Heading { x: -1, y: -1 }));
    inputs.release(KeyCode::KeyW);
    assert_eq!(Keys::read(&inputs), keys(false, false, true, false));
    assert_eq!(move_player(&inputs), Some(Heading { x: -1, y: 0 }));
    inputs.release(KeyCode::KeyA);
    assert_eq!(move_player(&inputs), None);
}
