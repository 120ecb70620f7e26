//! The player's movement: from the pressed keys to a direction.
//!
//! Four keys move the player, one for each direction of the screen, whose
//! vertical axis points down: W moves up, S down, A to the left and D to the
//! right. The direction is the sum of the directions of the keys that are
//! held down. Where it is zero the player stays and nothing is normalised;
//! where it is not, the caller normalises it and scales it by [`SPEED`] and
//! by the time that has passed since the last frame.

use bevy::input::keyboard::{KeyCode, NativeKeyCode};
use bevy::input::ButtonInput;
use vstd::prelude::*;

verus! {

/// `bevy::input::keyboard::NativeKeyCode`, the platform's own code of a key
/// that has no variant in [`KeyCode`]. Declared with its variants.
#[verifier::external_type_specification]
pub struct ExNativeKeyCode(NativeKeyCode);

/// `bevy::input::keyboard::KeyCode`, the physical keys of a keyboard.
/// Declared with its variants, so that contracts can name a key.
#[verifier::external_type_specification]
pub struct ExKeyCode(KeyCode);

/// `bevy::input::ButtonInput`, the engine's record of which buttons are
/// held down. Nothing of its fields is known here.
#[verifier::external_type_specification]
#[verifier::external_body]
#[verifier::reject_recursive_types(T)]
pub struct ExButtonInput<T: Copy + Eq + std::hash::Hash + Send + Sync + 'static>(ButtonInput<T>);

/// The keys that `inputs` records as held down: those for which a press has
/// been registered and no release since.
pub uninterp spec fn pressed_keys(inputs: ButtonInput<KeyCode>) -> Set<KeyCode>;

/// Calls `ButtonInput::pressed`, which looks `key` up in the record's set of
/// pressed buttons: the result says whether `key` is one of
/// [`pressed_keys`]. The record is not changed.
#[verifier::external_body]
fn key_pressed(inputs: &ButtonInput<KeyCode>, key: KeyCode) -> (held: bool)
    ensures
        held == pressed_keys(*inputs).contains(key),
{
    inputs.pressed(key)
}

/// The distance that the player covers in a second.
pub const SPEED: u32 = 200;

/// Which of the four movement keys are held down.
#[derive(Clone, Copy, Debug, PartialEq, Eq, Structural)]
pub struct Keys {
    /// The key that moves up the screen, W.
    pub up: bool,
    /// The key that moves down the screen, S.
    pub down: bool,
    /// The key that moves to the left, A.
    pub left: bool,
    /// The key that moves to the right, D.
    pub right: bool,
}

/// A direction of movement before it is normalised: each component is -1,
/// 0 or 1.
#[derive(Clone, Copy, Debug, PartialEq, Eq, Structural)]
pub struct Heading {
    pub x: i8,
    pub y: i8,
}

/// 1 for a key that is held down, 0 for one that is not.
pub open spec fn weight(pressed: bool) -> int {
    if pressed {
        1
    } else {
        0
    }
}

impl Keys {
    /// The movement keys among a set of pressed keys.
    pub open spec fn among(pressed: Set<KeyCode>) -> Keys {
        Keys {
            up: pressed.contains(KeyCode::KeyW),
            down: pressed.contains(KeyCode::KeyS),
            left: pressed.contains(KeyCode::KeyA),
            right: pressed.contains(KeyCode::KeyD),
        }
    }

    /// The sum of the directions of the pressed keys: right minus left,
    /// down minus up.
    pub open spec fn direction(self) -> Heading {
        Heading {
            x: (weight(self.right) - weight(self.left)) as i8,
            y: (weight(self.down) - weight(self.up)) as i8,
        }
    }

    /// The step that the keys ask for: their direction, or nothing where
    /// the direction is zero.
    pub open spec fn step(self) -> Option<Heading> {
        if self.direction().is_zero_spec() {
            None
        } else {
            Some(self.direction())
        }
    }

    /// Reads the four movement keys from the engine's record.
    pub fn read(inputs: &ButtonInput<KeyCode>) -> (keys: Keys)
        ensures
            keys == Keys::among(pressed_keys(*inputs)),
    {
        Keys {
            up: key_pressed(inputs, KeyCode::KeyW),
            down: key_pressed(inputs, KeyCode::KeyS),
            left: key_pressed(inputs, KeyCode::KeyA),
            right: key_pressed(inputs, KeyCode::KeyD),
        }
    }

    /// The direction in which the keys move the player, or `None` where
    /// they do not move it, because no key is held down or because the keys
    /// that are cancel each other. A direction that is returned is not
    /// zero, so that it can be normalised.
    pub fn heading(self) -> (step: Option<Heading>)
        ensures
            step == self.step(),
            step is None <==> self.left == self.right && self.up == self.down,
            step matches Some(heading) ==> heading.well_formed() && heading.length_squared_spec()
                > 0,
    {
        let right: i8 = if self.right { 1 } else { 0 };
        let left: i8 = if self.left { 1 } else { 0 };
        let down: i8 = if self.down { 1 } else { 0 };
        let up: i8 = if self.up { 1 } else { 0 };
        let heading = Heading { x: right - left, y: down - up };
        proof {
            law_direction_is_unit_or_diagonal(self);
        }
        if heading.is_zero() {
            None
        } else {
            Some(heading)
        }
    }
}

impl Heading {
    /// The square of the length of the direction.
    pub open spec fn length_squared_spec(self) -> int {
        self.x * self.x + self.y * self.y
    }

    /// The direction of no movement.
    pub open spec fn is_zero_spec(self) -> bool {
        self.x == 0 && self.y == 0
    }

    /// The directions that a set of keys can give.
    pub open spec fn well_formed(self) -> bool {
        -1 <= self.x <= 1 && -1 <= self.y <= 1
    }

    /// Whether this is the direction of no movement.
    #[verifier::when_used_as_spec(is_zero_spec)]
    pub fn is_zero(self) -> (zero: bool)
        ensures
            zero == self.is_zero_spec(),
    {
        self.x == 0 && self.y == 0
    }

    /// The square of the length of the direction. For the direction of a
    /// set of keys it is 0 for no movement, 1 along an axis and 2 along a
    /// diagonal.
    pub fn length_squared(self) -> (n: u16)
        ensures
            n == self.length_squared_spec(),
            n == 0 <==> self.is_zero_spec(),
            self.well_formed() ==> n <= 2,
    {
        let x: i32 = self.x as i32;
        let y: i32 = self.y as i32;
        assert(0 <= x * x <= 128 * 128 && (x * x == 0 <==> x == 0)) by (nonlinear_arith)
            requires
                -128 <= x <= 127,
        ;
        assert(0 <= y * y <= 128 * 128 && (y * y == 0 <==> y == 0)) by (nonlinear_arith)
            requires
                -128 <= y <= 127,
        ;
        assert(-1 <= x <= 1 ==> x * x <= 1) by (nonlinear_arith);
        assert(-1 <= y <= 1 ==> y * y <= 1) by (nonlinear_arith);
        (x * x + y * y) as u16
    }
}

/// The movement step of a frame: reads the movement keys from the engine's
/// record and returns the direction in which they move the player, or `None`
/// where they do not move it.
pub fn move_player(inputs: &ButtonInput<KeyCode>) -> (step: Option<Heading>)
    ensures
        step == Keys::among(pressed_keys(*inputs)).step(),
        step matches Some(heading) ==> heading.well_formed() && heading.length_squared_spec() > 0,
{
    Keys::read(inputs).heading()
}

/// The direction of a set of keys has components among -1, 0 and 1. It is
/// zero exactly when each key is matched by its opposite, and otherwise the
/// square of its length is 1, along an axis, or 2, along a diagonal.
pub proof fn law_direction_is_unit_or_diagonal(keys: Keys)
    ensures
        keys.direction().well_formed(),
        keys.direction().is_zero_spec() <==> keys.left == keys.right && keys.up == keys.down,
        keys.direction().is_zero_spec() <==> keys.direction().length_squared_spec() == 0,
        !keys.direction().is_zero_spec() ==> keys.direction().length_squared_spec() == 1
            || keys.direction().length_squared_spec() == 2,
        keys.direction().length_squared_spec() == 2 <==> keys.left != keys.right && keys.up
            != keys.down,
{
    let h = keys.direction();
    assert(h.x * h.x == (if h.x == 0 { 0int } else { 1int })) by (nonlinear_arith)
        requires
            -1 <= h.x <= 1,
    ;
    assert(h.y * h.y == (if h.y == 0 { 0int } else { 1int })) by (nonlinear_arith)
        requires
            -1 <= h.y <= 1,
    ;
}

/// In exact arithmetic the normalised step has one length, along an axis as
/// along a diagonal. Let `distance` be what the player covers in the time
/// that has passed, the speed times that time. The square of the length of
/// the direction of the keys is n = 1 or n = 2, and the direction scaled by
/// `distance` has the squared length n times the square of `distance`.
/// Normalising divides the squared length by n: what is left is the square
/// of `distance`, whichever keys are held down.
pub proof fn law_step_length_ignores_direction(keys: Keys, distance: int)
    requires
        keys.step() is Some,
    ensures
        keys.direction().length_squared_spec() == 1 || keys.direction().length_squared_spec() == 2,
        (distance * keys.direction().x) * (distance * keys.direction().x) + (distance
            * keys.direction().y) * (distance * keys.direction().y)
            == keys.direction().length_squared_spec() * (distance * distance),
{
    law_direction_is_unit_or_diagonal(keys);
    let x = keys.direction().x as int;
    let y = keys.direction().y as int;
    assert((distance * x) * (distance * x) + (distance * y) * (distance * y) == (x * x + y * y)
        * (distance * distance)) by (nonlinear_arith);
}

/// With no movement key held down the player stays where it is, whatever
/// other keys are pressed.
pub proof fn law_no_keys_no_movement(pressed: Set<KeyCode>)
    requires
        !pressed.contains(KeyCode::KeyW),
        !pressed.contains(KeyCode::KeyS),
        !pressed.contains(KeyCode::KeyA),
        !pressed.contains(KeyCode::KeyD),
    ensures
        Keys::among(pressed).step() is None,
{
}

} // verus!
