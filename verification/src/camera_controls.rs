//! Moving the camera with the keyboard.

use vstd::prelude::*;

verus! {

/// The movement keys that are held down in a frame.
#[derive(Clone, Copy, Debug, PartialEq, Eq, Structural)]
pub struct MoveKeys {
    pub forward: bool,
    pub back: bool,
    pub left: bool,
    pub right: bool,
    pub up: bool,
    pub down_left: bool,
    pub down_right: bool,
}

/// How far the held keys push along each of the camera's axes: one step with
/// the axis, one against it, or none.
#[derive(Clone, Copy, Debug, PartialEq, Eq, Structural)]
pub struct MoveAxes {
    /// Along the camera's view direction.
    pub forward: i8,
    /// Along the camera's right-hand side.
    pub right: i8,
    /// Along the world's vertical.
    pub up: i8,
}

/// One step for a key that is held, none for one that is not.
pub open spec fn step(held: bool) -> int {
    if held {
        1
    } else {
        0
    }
}

/// The push of the held keys. Two keys of one axis cancel each other; the
/// two keys for going down count as one.
pub open spec fn push_of(keys: MoveKeys) -> MoveAxes {
    MoveAxes {
        forward: (step(keys.forward) - step(keys.back)) as i8,
        right: (step(keys.right) - step(keys.left)) as i8,
        up: (step(keys.up) - step(keys.down_left || keys.down_right)) as i8,
    }
}

fn axis(with: bool, against: bool) -> (a: i8)
    ensures
        a == step(with) - step(against),
{
    let mut a: i8 = 0;
    if with {
        a = a + 1;
    }
    if against {
        a = a - 1;
    }
    a
}

/// Turns the held keys into a push along the camera's axes.
pub fn camera_controls(keys: MoveKeys) -> (push: MoveAxes)
    ensures
        push == push_of(keys),
{
    MoveAxes {
        forward: axis(keys.forward, keys.back),
        right: axis(keys.right, keys.left),
        up: axis(keys.up, keys.down_left || keys.down_right),
    }
}

} // verus!
