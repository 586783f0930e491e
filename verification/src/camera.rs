//! Free-flight camera controls: which way the held keys push the camera and
//! how hard, and how fast the mouse turns it.
//!
//! The camera moves along its own axes. Each held movement key contributes
//! one unit vector of the camera's local basis; the contributions are summed
//! as they are, so opposite keys cancel and a diagonal is longer than a
//! straight line. The sum is scaled by the modifier while Left Shift is held,
//! then by the elapsed time and the speed. This module decides the
//! contributions and the factors; the host multiplies.

use vstd::prelude::*;
use crate::units::ONE;

verus! {

/// Radians turned per unit of accumulated mouse motion, in thousandths. The
/// horizontal motion turns the camera about the world's up axis, the vertical
/// motion about the camera's own right axis; the sign makes the view follow
/// the pointer.
pub const LOOK_RATE: i32 = -2;

/// A unit vector of the camera's local basis.
#[derive(Clone, Copy, Debug, PartialEq, Eq, Structural)]
pub enum Direction {
    Forward,
    Back,
    Left,
    Right,
}

/// Which of the flight keys are held down.
#[derive(Clone, Copy, Debug, PartialEq, Eq, Structural)]
pub struct FlightKeys {
    /// W: forward.
    pub w: bool,
    /// S: back.
    pub s: bool,
    /// A: left.
    pub a: bool,
    /// D: right.
    pub d: bool,
    /// Left Shift: the speed modifier.
    pub left_shift: bool,
}

/// The flight parameters of a camera, in thousandths.
#[derive(Clone, Copy, Debug, PartialEq, Eq, Structural)]
pub struct FlightMovement {
    /// Distance per second along one contribution.
    pub speed: i32,
    /// Factor applied while the modifier key is held.
    pub modifier: i32,
}

/// What one frame's key state asks of the camera.
///
/// The host adds up the basis vectors named by `directions`, in order,
/// multiplies the sum by `scale`, by the frame's elapsed seconds and by
/// `speed`, and adds the product to the camera's position.
#[derive(Debug, PartialEq, Eq)]
pub struct FlightStep {
    pub directions: Vec<Direction>,
    /// In thousandths.
    pub scale: i32,
    /// In thousandths.
    pub speed: i32,
}

/// A [`FlightStep`] as mathematics sees it.
pub struct FlightStepView {
    pub directions: Seq<Direction>,
    pub scale: int,
    pub speed: int,
}

impl View for FlightStep {
    type V = FlightStepView;

    open spec fn view(&self) -> FlightStepView {
        FlightStepView {
            directions: self.directions@,
            scale: self.scale as int,
            speed: self.speed as int,
        }
    }
}

/// `seq![direction]` if `held`, the empty sequence otherwise.
pub open spec fn contribution(held: bool, direction: Direction) -> Seq<Direction> {
    if held {
        seq![direction]
    } else {
        Seq::empty()
    }
}

/// The directions that the held keys contribute, in the fixed order forward,
/// back, left, right.
pub open spec fn held_directions(keys: FlightKeys) -> Seq<Direction> {
    contribution(keys.w, Direction::Forward) + contribution(keys.s, Direction::Back)
        + contribution(keys.a, Direction::Left) + contribution(keys.d, Direction::Right)
}

/// The factor on the summed directions, in thousandths: the modifier while
/// the modifier key is held, one otherwise.
pub open spec fn scale_for(flight: FlightMovement, left_shift: bool) -> int {
    if left_shift {
        flight.modifier as int
    } else {
        ONE as int
    }
}

/// The step that `keys` ask of a camera with parameters `flight`.
pub open spec fn flight_step(flight: FlightMovement, keys: FlightKeys) -> FlightStepView {
    FlightStepView {
        directions: held_directions(keys),
        scale: scale_for(flight, keys.left_shift),
        speed: flight.speed as int,
    }
}

/// How far one contribution reaches along the camera's forward axis.
pub open spec fn along_forward(direction: Direction) -> int {
    match direction {
        Direction::Forward => 1,
        Direction::Back => -1,
        Direction::Left => 0,
        Direction::Right => 0,
    }
}

/// How far one contribution reaches along the camera's right axis.
pub open spec fn along_right(direction: Direction) -> int {
    match direction {
        Direction::Forward => 0,
        Direction::Back => 0,
        Direction::Left => -1,
        Direction::Right => 1,
    }
}

/// The forward coordinate of the sum of `directions`.
pub open spec fn net_forward(directions: Seq<Direction>) -> int
    decreases directions.len(),
{
    if directions.len() == 0 {
        0
    } else {
        net_forward(directions.drop_last()) + along_forward(directions.last())
    }
}

/// The right coordinate of the sum of `directions`.
pub open spec fn net_right(directions: Seq<Direction>) -> int
    decreases directions.len(),
{
    if directions.len() == 0 {
        0
    } else {
        net_right(directions.drop_last()) + along_right(directions.last())
    }
}

/// One if `held`, zero otherwise.
pub open spec fn pressed(held: bool) -> int {
    if held {
        1
    } else {
        0
    }
}

impl FlightStepView {
    /// Forward coordinate of the displacement per second, in millionths, in
    /// exact arithmetic.
    pub open spec fn forward_rate(self) -> int {
        net_forward(self.directions) * self.scale * self.speed
    }

    /// Right coordinate of the displacement per second, in millionths, in
    /// exact arithmetic.
    pub open spec fn right_rate(self) -> int {
        net_right(self.directions) * self.scale * self.speed
    }
}

/// Decides how the held keys move a camera with parameters `flight` during
/// one frame.
pub fn flight_mov(flight: FlightMovement, keys: FlightKeys) -> (step: FlightStep)
    ensures
        step@ == flight_step(flight, keys),
{
    let mut directions: Vec<Direction> = Vec::new();
    if keys.w {
        directions.push(Direction::Forward);
    }
    if keys.s {
        directions.push(Direction::Back);
    }
    if keys.a {
        directions.push(Direction::Left);
    }
    if keys.d {
        directions.push(Direction::Right);
    }
    let scale: i32 = if keys.left_shift {
        flight.modifier
    } else {
        ONE
    };
    proof {
        assert(directions@ =~= held_directions(keys));
    }
    FlightStep { directions, scale, speed: flight.speed }
}

/// The sum of the contributions has coordinates W minus S along the forward
/// axis and D minus A along the right axis: opposite keys cancel, and nothing
/// is normalised.
pub proof fn lemma_net_of_held(keys: FlightKeys)
    ensures
        net_forward(held_directions(keys)) == pressed(keys.w) - pressed(keys.s),
        net_right(held_directions(keys)) == pressed(keys.d) - pressed(keys.a),
{
    let forward = contribution(keys.w, Direction::Forward);
    let back = contribution(keys.s, Direction::Back);
    let left = contribution(keys.a, Direction::Left);
    lemma_net_of_contribution(Seq::empty(), keys.w, Direction::Forward);
    lemma_net_of_contribution(forward, keys.s, Direction::Back);
    lemma_net_of_contribution(forward + back, keys.a, Direction::Left);
    lemma_net_of_contribution(forward + back + left, keys.d, Direction::Right);
    assert(Seq::<Direction>::empty() + forward =~= forward);
}

/// Appending a key's contribution adds its reach if the key is held and
/// nothing otherwise.
proof fn lemma_net_of_contribution(before: Seq<Direction>, held: bool, direction: Direction)
    ensures
        net_forward(before + contribution(held, direction)) == net_forward(before) + pressed(held)
            * along_forward(direction),
        net_right(before + contribution(held, direction)) == net_right(before) + pressed(held)
            * along_right(direction),
{
    let after = before + contribution(held, direction);
    if held {
        assert(after.drop_last() =~= before);
        assert(after.last() == direction);
    } else {
        assert(after =~= before);
    }
}

/// With the modifier key up, the displacement per second is the speed times
/// the sum of the contributions of the held keys.
pub proof fn lemma_unmodified_rate(flight: FlightMovement, keys: FlightKeys)
    requires
        !keys.left_shift,
    ensures
        flight_step(flight, keys).forward_rate() == (pressed(keys.w) - pressed(keys.s)) * ONE
            * flight.speed,
        flight_step(flight, keys).right_rate() == (pressed(keys.d) - pressed(keys.a)) * ONE
            * flight.speed,
{
    lemma_net_of_held(keys);
}

/// A diagonal is not normalised: with one key held on each axis the squared
/// length of the summed contributions is two, with a key held on one axis
/// only it is one.
pub proof fn lemma_diagonal_is_longer(keys: FlightKeys)
    ensures
        ({
            let f = net_forward(held_directions(keys));
            let r = net_right(held_directions(keys));
            f * f + r * r == pressed(keys.w != keys.s) + pressed(keys.a != keys.d)
        }),
{
    lemma_net_of_held(keys);
    let f = net_forward(held_directions(keys));
    let r = net_right(held_directions(keys));
    assert(f * f == pressed(keys.w != keys.s)) by (nonlinear_arith)
        requires
            -1 <= f <= 1,
            (f == 0) == (keys.w == keys.s),
    ;
    assert(r * r == pressed(keys.a != keys.d)) by (nonlinear_arith)
        requires
            -1 <= r <= 1,
            (r == 0) == (keys.a == keys.d),
    ;
}

/// The modifier key changes the factor and nothing else: the same keys with
/// Left Shift held give the same contributions, and a displacement per second
/// that stands to the unmodified one as the modifier stands to one.
pub proof fn lemma_modifier_scales(flight: FlightMovement, keys: FlightKeys)
    ensures
        ({
            let plain = flight_step(flight, FlightKeys { left_shift: false, ..keys });
            let modified = flight_step(flight, FlightKeys { left_shift: true, ..keys });
            &&& modified.directions == plain.directions
            &&& modified.speed == plain.speed
            &&& modified.forward_rate() * ONE == flight.modifier * plain.forward_rate()
            &&& modified.right_rate() * ONE == flight.modifier * plain.right_rate()
        }),
{
    let plain = flight_step(flight, FlightKeys { left_shift: false, ..keys });
    let modified = flight_step(flight, FlightKeys { left_shift: true, ..keys });
    let m = flight.modifier as int;
    let v = flight.speed as int;
    let f = net_forward(plain.directions);
    let r = net_right(plain.directions);
    assert(f * m * v * 1000 == m * (f * 1000 * v)) by (nonlinear_arith);
    assert(r * m * v * 1000 == m * (r * 1000 * v)) by (nonlinear_arith);
}

/// With a modifier of two, holding the modifier key exactly doubles the
/// displacement, for the same keys and the same elapsed time.
pub proof fn lemma_modifier_doubles(flight: FlightMovement, keys: FlightKeys)
    requires
        flight.modifier == 2 * ONE,
    ensures
        ({
            let plain = flight_step(flight, FlightKeys { left_shift: false, ..keys });
            let modified = flight_step(flight, FlightKeys { left_shift: true, ..keys });
            &&& modified.forward_rate() == 2 * plain.forward_rate()
            &&& modified.right_rate() == 2 * plain.right_rate()
        }),
{
    let plain = flight_step(flight, FlightKeys { left_shift: false, ..keys });
    let v = flight.speed as int;
    let f = net_forward(plain.directions);
    let r = net_right(plain.directions);
    assert(f * 2000 * v == 2 * (f * 1000 * v)) by (nonlinear_arith);
    assert(r * 2000 * v == 2 * (r * 1000 * v)) by (nonlinear_arith);
}

} // verus!
