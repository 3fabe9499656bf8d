//! From the keys held down in a frame to the thrust that the controllable
//! bodies receive.
use vstd::prelude::*;

verus! {

/// The keys that steer the player; every other key is ignored.
#[derive(Clone, Copy, Debug, PartialEq, Eq, Structural)]
pub enum Key {
    W,
    A,
    S,
    D,
    Up,
    Down,
    Left,
    Right,
}

/// Whether `a` or `b` is among the keys held down.
pub open spec fn held(pressed: Seq<Key>, a: Key, b: Key) -> bool {
    exists|i: int| 0 <= i < pressed.len() && (pressed[i] == a || pressed[i] == b)
}

/// One axis of the input: +1 for the positive key alone, -1 for the negative
/// key alone, 0 when both or neither are held.
pub open spec fn axis(positive: bool, negative: bool) -> int {
    (if positive { 1int } else { 0int }) - (if negative { 1int } else { 0int })
}

/// Horizontal input: D or Right push towards +x, A or Left towards -x.
pub open spec fn dir_x(pressed: Seq<Key>) -> int {
    axis(held(pressed, Key::Right, Key::D), held(pressed, Key::Left, Key::A))
}

/// Vertical input: W or Up push towards +y, S or Down towards -y.
pub open spec fn dir_y(pressed: Seq<Key>) -> int {
    axis(held(pressed, Key::Up, Key::W), held(pressed, Key::Down, Key::S))
}

/// The net direction of the input, each component in -1, 0 or 1 (not yet of
/// unit length).
#[derive(Clone, Copy, Debug, PartialEq, Eq, Structural)]
pub struct Direction {
    pub x: i8,
    pub y: i8,
}

impl Direction {
    /// Whether the keys cancel out or none is held.
    pub fn is_zero(&self) -> (r: bool)
        ensures
            r == (self.x == 0 && self.y == 0),
    {
        self.x == 0 && self.y == 0
    }

    /// Whether the direction points along both axes at once.
    pub fn is_diagonal(&self) -> (r: bool)
        ensures
            r == (self.x != 0 && self.y != 0),
    {
        self.x != 0 && self.y != 0
    }
}

/// What the input asks of the controllable bodies in one frame.
#[derive(Clone, Copy, Debug, PartialEq, Eq, Structural)]
pub enum Thrust {
    /// No net direction: velocities are left as they are.
    Coast,
    /// Accelerate along this (non-zero) direction, normalised to unit length.
    Push(Direction),
}

/// Whether `a` or `b` is among `pressed`.
pub fn any_held(pressed: &Vec<Key>, a: Key, b: Key) -> (r: bool)
    ensures
        r == held(pressed@, a, b),
{
    let mut i: usize = 0;
    while i < pressed.len()
        invariant
            0 <= i <= pressed.len(),
            forall|j: int| 0 <= j < i ==> pressed@[j] != a && pressed@[j] != b,
        decreases pressed.len() - i,
    {
        let k = pressed[i];
        if k == a || k == b {
            return true;
        }
        i += 1;
    }
    false
}

fn axis_value(positive: bool, negative: bool) -> (r: i8)
    ensures
        r as int == axis(positive, negative),
{
    if positive && !negative {
        1
    } else if negative && !positive {
        -1
    } else {
        0
    }
}

/// The net direction of the keys held down; opposing keys cancel.
pub fn input_direction(pressed: &Vec<Key>) -> (r: Direction)
    ensures
        r.x as int == dir_x(pressed@),
        r.y as int == dir_y(pressed@),
{
    let up = any_held(pressed, Key::Up, Key::W);
    let down = any_held(pressed, Key::Down, Key::S);
    let right = any_held(pressed, Key::Right, Key::D);
    let left = any_held(pressed, Key::Left, Key::A);
    Direction { x: axis_value(right, left), y: axis_value(up, down) }
}

/// The thrust of one frame: none when the net direction is zero, else a push
/// along it.
pub fn plan_thrust(pressed: &Vec<Key>) -> (r: Thrust)
    ensures
        (r == Thrust::Coast) == (dir_x(pressed@) == 0 && dir_y(pressed@) == 0),
        r matches Thrust::Push(d) ==> d.x as int == dir_x(pressed@) && d.y as int == dir_y(
            pressed@,
        ),
{
    let d = input_direction(pressed);
    if d.is_zero() {
        Thrust::Coast
    } else {
        Thrust::Push(d)
    }
}

/// With no key held there is no thrust.
pub proof fn lemma_no_keys_no_thrust(pressed: Seq<Key>)
    requires
        pressed.len() == 0,
    ensures
        dir_x(pressed) == 0,
        dir_y(pressed) == 0,
{
}

/// Holding both keys of an axis gives that axis no input; holding opposing keys
/// on both axes gives no thrust at all.
pub proof fn lemma_opposing_keys_cancel(pressed: Seq<Key>)
    ensures
        held(pressed, Key::Up, Key::W) && held(pressed, Key::Down, Key::S) ==> dir_y(pressed)
            == 0,
        held(pressed, Key::Right, Key::D) && held(pressed, Key::Left, Key::A) ==> dir_x(pressed)
            == 0,
{
}

/// Each component of the net direction is -1, 0 or 1, so a push is either
/// along one axis or an even diagonal.
pub proof fn lemma_direction_components(pressed: Seq<Key>)
    ensures
        -1 <= dir_x(pressed) <= 1,
        -1 <= dir_y(pressed) <= 1,
{
}

} // verus!
