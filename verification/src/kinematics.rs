//! One time step of the car, as exact arithmetic on the two contact points.
//!
//! The car is a rigid rod with a rear and a front contact point. During a
//! step the rear point travels along the heading and the front point along
//! the heading turned by the steering angle, both by speed times elapsed
//! time. The new position is the midpoint of the displaced pair and the new
//! heading points from the displaced rear point to the displaced front
//! point.
//!
//! Directions come in as scaled direction cosines, so that nothing here is
//! rounded: results are integers in units that the doc comments name.

use vstd::prelude::*;
use crate::vehicle::Car;
use crate::vehicle::CarModel;

verus! {

/// Length of a direction vector: the factor by which direction cosines are
/// scaled.
pub const DIRECTION_SCALE: i32 = 0x4000_0000;

/// Time units per second: elapsed time is counted in microseconds.
pub const TICKS_PER_SECOND: i64 = 1_000_000;

/// A direction in the plane: cosine and sine of its angle, each times
/// `DIRECTION_SCALE`.
#[derive(Clone, Copy, Debug, PartialEq, Eq, Structural)]
pub struct Direction {
    pub cos: i32,
    pub sin: i32,
}

impl Direction {
    /// Neither component is longer than the scale.
    pub open spec fn wf(&self) -> bool {
        &&& -DIRECTION_SCALE <= self.cos <= DIRECTION_SCALE
        &&& -DIRECTION_SCALE <= self.sin <= DIRECTION_SCALE
    }

    /// Whether neither component is longer than the scale.
    pub fn is_well_formed(&self) -> (ok: bool)
        ensures
            ok == self.wf(),
    {
        -DIRECTION_SCALE <= self.cos && self.cos <= DIRECTION_SCALE && -DIRECTION_SCALE
            <= self.sin && self.sin <= DIRECTION_SCALE
    }

    /// The direction with the given scaled cosine and sine; `None` where
    /// one of them is longer than the scale.
    pub fn new(cos: i32, sin: i32) -> (direction: Option<Direction>)
        ensures
            direction == if (Direction { cos, sin }).wf() {
                Some(Direction { cos, sin })
            } else {
                None
            },
    {
        let direction = Direction { cos, sin };
        if direction.is_well_formed() {
            Some(direction)
        } else {
            None
        }
    }
}

/// Distance that each contact point travels in `elapsed` microseconds, in
/// millionths of a world unit.
pub open spec fn travel(car: CarModel, elapsed: int) -> int {
    car.speed * elapsed
}

/// The direction in which the front contact point travels: the heading
/// itself where the wheels are straight, else the steered direction.
pub open spec fn front_direction(car: CarModel, heading: Direction, steered: Direction) -> Direction {
    if car.steer_angle == 0 {
        heading
    } else {
        steered
    }
}

/// Twice the displacement of the position, in units of one world unit over
/// `TICKS_PER_SECOND * DIRECTION_SCALE`: the sum of the displacements of
/// the rear and the front contact point.
pub open spec fn shift_of(car: CarModel, elapsed: int, heading: Direction, steered: Direction) -> (
    int,
    int,
) {
    let front = front_direction(car, heading, steered);
    (
        travel(car, elapsed) * (heading.cos + front.cos),
        travel(car, elapsed) * (heading.sin + front.sin),
    )
}

/// Where the new heading points: half the vector from the displaced rear
/// point to the displaced front point, in the units of `shift_of`. It is
/// half the rod along the heading, plus half of what the front point
/// travelled, minus half of what the rear point travelled.
pub open spec fn axle_of(car: CarModel, elapsed: int, heading: Direction, steered: Direction) -> (
    int,
    int,
) {
    let front = front_direction(car, heading, steered);
    (
        car.wheel_base * TICKS_PER_SECOND * heading.cos + travel(car, elapsed) * (front.cos
            - heading.cos),
        car.wheel_base * TICKS_PER_SECOND * heading.sin + travel(car, elapsed) * (front.sin
            - heading.sin),
    )
}

/// Whether the step leaves the heading as it is: nothing travelled, both
/// points travelled the same way, or the displaced points coincide and
/// point nowhere.
pub open spec fn keeps_heading(
    car: CarModel,
    elapsed: int,
    heading: Direction,
    steered: Direction,
) -> bool {
    ||| travel(car, elapsed) == 0
    ||| front_direction(car, heading, steered) == heading
    ||| axle_of(car, elapsed, heading, steered) == (0int, 0int)
}

/// Half the rod along the heading, in the units of `shift_of` (in which a
/// position counts twice): what separates each contact point from the
/// position between them.
pub open spec fn half_rod(car: CarModel, heading: Direction) -> (int, int) {
    (car.wheel_base * TICKS_PER_SECOND * heading.cos, car.wheel_base * TICKS_PER_SECOND * heading.sin)
}

/// The rear contact point after the step, for a car whose position, counted
/// twice, is `position`: it starts half a rod behind the position and
/// travels along the heading.
pub open spec fn displaced_rear(
    position: (int, int),
    car: CarModel,
    elapsed: int,
    heading: Direction,
) -> (int, int) {
    (
        position.0 - half_rod(car, heading).0 + 2 * travel(car, elapsed) * heading.cos,
        position.1 - half_rod(car, heading).1 + 2 * travel(car, elapsed) * heading.sin,
    )
}

/// The front contact point after the step: it starts half a rod ahead of
/// the position and travels along the front direction.
pub open spec fn displaced_front(
    position: (int, int),
    car: CarModel,
    elapsed: int,
    heading: Direction,
    steered: Direction,
) -> (int, int) {
    let front = front_direction(car, heading, steered);
    (
        position.0 + half_rod(car, heading).0 + 2 * travel(car, elapsed) * front.cos,
        position.1 + half_rod(car, heading).1 + 2 * travel(car, elapsed) * front.sin,
    )
}

/// What one step does to the pose.
pub struct StepModel {
    /// Added to twice the position.
    pub shift: (int, int),
    /// Where the new heading points, or nothing where the heading stays.
    pub axle: Option<(int, int)>,
}

/// The step of a car over `elapsed` microseconds.
pub open spec fn step_of(car: CarModel, elapsed: int, heading: Direction, steered: Direction) -> StepModel {
    StepModel {
        shift: shift_of(car, elapsed, heading, steered),
        axle: if keeps_heading(car, elapsed, heading, steered) {
            None
        } else {
            Some(axle_of(car, elapsed, heading, steered))
        },
    }
}

/// Twice the position after `steps` equal steps, starting from twice the
/// position `start`.
pub open spec fn driven(
    start: (int, int),
    car: CarModel,
    elapsed: int,
    heading: Direction,
    steered: Direction,
    steps: nat,
) -> (int, int)
    decreases steps,
{
    if steps == 0 {
        start
    } else {
        let before = driven(start, car, elapsed, heading, steered, (steps - 1) as nat);
        let step = step_of(car, elapsed, heading, steered);
        (before.0 + step.shift.0, before.1 + step.shift.1)
    }
}

/// The step is the two-point integration: the shifted position is the
/// midpoint of the displaced contact points, and the axle is half the
/// vector from the displaced rear point to the displaced front point.
pub proof fn lemma_step_follows_contact_points(
    position: (int, int),
    car: CarModel,
    elapsed: int,
    heading: Direction,
    steered: Direction,
)
    ensures
        ({
            let rear = displaced_rear(position, car, elapsed, heading);
            let front = displaced_front(position, car, elapsed, heading, steered);
            let shift = shift_of(car, elapsed, heading, steered);
            let axle = axle_of(car, elapsed, heading, steered);
            &&& rear.0 + front.0 == 2 * (position.0 + shift.0)
            &&& rear.1 + front.1 == 2 * (position.1 + shift.1)
            &&& front.0 - rear.0 == 2 * axle.0
            &&& front.1 - rear.1 == 2 * axle.1
        }),
{
    let t = travel(car, elapsed);
    let f = front_direction(car, heading, steered);
    let hc = heading.cos as int;
    let hs = heading.sin as int;
    let fc = f.cos as int;
    let fs = f.sin as int;
    assert(2 * t * hc + 2 * t * fc == 2 * (t * (hc + fc))) by (nonlinear_arith);
    assert(2 * t * hs + 2 * t * fs == 2 * (t * (hs + fs))) by (nonlinear_arith);
    assert(2 * t * fc - 2 * t * hc == 2 * (t * (fc - hc))) by (nonlinear_arith);
    assert(2 * t * fs - 2 * t * hs == 2 * (t * (fs - hs))) by (nonlinear_arith);
}

/// A car at rest does not move: whatever the heading, the steering angle
/// and the elapsed time, the step shifts the position by nothing and keeps
/// the heading.
pub proof fn lemma_rest_changes_nothing(
    car: CarModel,
    elapsed: int,
    heading: Direction,
    steered: Direction,
)
    requires
        car.speed == 0,
    ensures
        step_of(car, elapsed, heading, steered) == (StepModel { shift: (0, 0), axle: None }),
{
    assert(0 * elapsed == 0) by (nonlinear_arith);
    assert(0 * (heading.cos + front_direction(car, heading, steered).cos) == 0) by (nonlinear_arith);
    assert(0 * (heading.sin + front_direction(car, heading, steered).sin) == 0) by (nonlinear_arith);
}

/// With straight wheels the car drives a straight line: each step keeps
/// the heading, and after `steps` steps the position has moved along the
/// heading by `steps` times speed times elapsed time (twice the position,
/// by twice that).
pub proof fn lemma_straight_line(
    start: (int, int),
    car: CarModel,
    elapsed: int,
    heading: Direction,
    steered: Direction,
    steps: nat,
)
    requires
        car.steer_angle == 0,
    ensures
        step_of(car, elapsed, heading, steered).axle.is_none(),
        driven(start, car, elapsed, heading, steered, steps).0 == start.0 + steps * (car.speed
            * elapsed) * (2 * heading.cos),
        driven(start, car, elapsed, heading, steered, steps).1 == start.1 + steps * (car.speed
            * elapsed) * (2 * heading.sin),
    decreases steps,
{
    let t = car.speed * elapsed;
    if steps == 0 {
        assert(0 * t * (2 * heading.cos) == 0) by (nonlinear_arith);
        assert(0 * t * (2 * heading.sin) == 0) by (nonlinear_arith);
    } else {
        lemma_straight_line(start, car, elapsed, heading, steered, (steps - 1) as nat);
        let c = heading.cos as int;
        let n = heading.sin as int;
        assert((steps - 1) * t * (2 * c) + t * (c + c) == steps * t * (2 * c)) by (nonlinear_arith);
        assert((steps - 1) * t * (2 * n) + t * (n + n) == steps * t * (2 * n)) by (nonlinear_arith);
    }
}

/// What one step does to the pose, as the machine holds it.
#[derive(Clone, Copy, Debug)]
pub struct Step {
    /// Added to twice the position, in units of one world unit over
    /// `TICKS_PER_SECOND * DIRECTION_SCALE`.
    pub shift: (i128, i128),
    /// Where the new heading points, or nothing where the heading stays.
    pub axle: Option<(i128, i128)>,
}

impl View for Step {
    type V = StepModel;

    open spec fn view(&self) -> StepModel {
        StepModel {
            shift: (self.shift.0 as int, self.shift.1 as int),
            axle: match self.axle {
                Some(a) => Some((a.0 as int, a.1 as int)),
                None => None,
            },
        }
    }
}

/// A product stays within the product of the bounds of its factors.
proof fn lemma_product_bound(a: int, b: int, la: int, lb: int)
    requires
        -la <= a <= la,
        -lb <= b <= lb,
    ensures
        -(la * lb) <= a * b <= la * lb,
{
    assert(-(la * lb) <= a * b <= la * lb) by (nonlinear_arith)
        requires
            -la <= a <= la,
            -lb <= b <= lb,
    ;
}

/// Advances the car by one step of `elapsed` microseconds. `heading` is the
/// direction of the car, `steered` that direction turned by the steering
/// angle.
pub fn move_car(car: &Car, elapsed: u32, heading: Direction, steered: Direction) -> (step: Step)
    requires
        heading.wf(),
        steered.wf(),
    ensures
        step@ == step_of(car@, elapsed as int, heading, steered),
{
    let front = if car.steer_angle() == 0 { heading } else { steered };
    let speed: i128 = car.speed() as i128;
    let base: i128 = car.wheel_base() as i128;
    proof {
        lemma_product_bound(speed as int, elapsed as int, 0x8000_0000_0000_0000, 0x1_0000_0000);
        lemma_product_bound(base as int, TICKS_PER_SECOND as int, 0x8000_0000_0000_0000, 1_000_000);
    }
    let run: i128 = speed * (elapsed as i128);
    let rod: i128 = base * (TICKS_PER_SECOND as i128);
    let sum_cos: i128 = heading.cos as i128 + front.cos as i128;
    let sum_sin: i128 = heading.sin as i128 + front.sin as i128;
    let turn_cos: i128 = front.cos as i128 - heading.cos as i128;
    let turn_sin: i128 = front.sin as i128 - heading.sin as i128;
    proof {
        let run_max: int = 0x8000_0000_0000_0000int * 0x1_0000_0000int;
        let rod_max: int = 0x8000_0000_0000_0000int * 1_000_000int;
        assert(run_max * 0x8000_0000 + rod_max * 0x4000_0000 < 0x7FFF_FFFF_FFFF_FFFF_FFFF_FFFF_FFFF_FFFF)
            by (nonlinear_arith)
            requires
                run_max == 0x8000_0000_0000_0000 * 0x1_0000_0000,
                rod_max == 0x8000_0000_0000_0000 * 1_000_000,
        ;
        lemma_product_bound(run as int, sum_cos as int, run_max, 0x8000_0000);
        lemma_product_bound(run as int, sum_sin as int, run_max, 0x8000_0000);
        lemma_product_bound(run as int, turn_cos as int, run_max, 0x8000_0000);
        lemma_product_bound(run as int, turn_sin as int, run_max, 0x8000_0000);
        lemma_product_bound(rod as int, heading.cos as int, rod_max, 0x4000_0000);
        lemma_product_bound(rod as int, heading.sin as int, rod_max, 0x4000_0000);
    }
    let shift: (i128, i128) = (run * sum_cos, run * sum_sin);
    let axle: (i128, i128) = (
        rod * (heading.cos as i128) + run * turn_cos,
        rod * (heading.sin as i128) + run * turn_sin,
    );
    let keep: bool = run == 0 || (front.cos == heading.cos && front.sin == heading.sin) || (axle.0
        == 0 && axle.1 == 0);
    Step { shift, axle: if keep { None } else { Some(axle) } }
}

} // verus!
