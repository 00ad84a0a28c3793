//! The car and its control law: how held keys change speed and steering.
//!
//! Speed is in world units per second, the steering angle in whole degrees
//! (positive to the left), the wheel base in world units. Every key acts
//! for as long as it is held, once per tick. The steering angle is clamped
//! right after each change. Speed has no limit but the machine's: at the
//! ends of the 64-bit range it stays where it is.

use vstd::prelude::*;

verus! {

/// Largest steering angle to either side, in degrees.
pub const MAX_STEER_ANGLE: i32 = 60;

/// Change of the steering angle per tick while a steering key is held.
pub const STEER_STEP: i32 = 1;

/// Change of speed per tick while the accelerator or the brake is held.
pub const SPEED_STEP: i64 = 2;

/// Wheel base of the default car.
pub const DEFAULT_WHEEL_BASE: i64 = 60;

/// `angle` brought into the steering range.
pub open spec fn clamped_steer(angle: int) -> int {
    if angle < -(MAX_STEER_ANGLE as int) {
        -(MAX_STEER_ANGLE as int)
    } else if angle > MAX_STEER_ANGLE as int {
        MAX_STEER_ANGLE as int
    } else {
        angle
    }
}

/// `speed` brought into what a 64-bit signed integer holds.
pub open spec fn saturated(speed: int) -> int {
    if speed < i64::MIN as int {
        i64::MIN as int
    } else if speed > i64::MAX as int {
        i64::MAX as int
    } else {
        speed
    }
}

/// What a car is to its users.
pub struct CarModel {
    pub speed: int,
    pub steer_angle: int,
    pub wheel_base: int,
}

/// The keys held during one tick.
#[derive(Clone, Copy, Debug, Default, PartialEq, Eq, Structural)]
pub struct ControlInput {
    pub accelerate: bool,
    pub brake: bool,
    pub steer_left: bool,
    pub steer_right: bool,
    pub center_camera: bool,
}

/// The car after one tick under `input`. The keys act in a fixed order:
/// accelerator, brake, left, right. Each steering key is followed by the
/// clamp, so holding both at the left limit ends one step short of it.
pub open spec fn controlled(car: CarModel, input: ControlInput) -> CarModel {
    let sped_up = if input.accelerate {
        saturated(car.speed + SPEED_STEP)
    } else {
        car.speed
    };
    let speed = if input.brake {
        saturated(sped_up - SPEED_STEP)
    } else {
        sped_up
    };
    let turned_left = if input.steer_left {
        clamped_steer(car.steer_angle + STEER_STEP)
    } else {
        car.steer_angle
    };
    let steer_angle = if input.steer_right {
        clamped_steer(turned_left - STEER_STEP)
    } else {
        turned_left
    };
    CarModel { speed, steer_angle, wheel_base: car.wheel_base }
}

/// The car after `ticks` ticks under the same `input`.
pub open spec fn held(car: CarModel, input: ControlInput, ticks: nat) -> CarModel
    decreases ticks,
{
    if ticks == 0 {
        car
    } else {
        controlled(held(car, input, (ticks - 1) as nat), input)
    }
}

/// The camera target that one tick asks for: the car's position while the
/// centring key is held, nothing otherwise.
pub open spec fn snap_request<P>(position: P, input: ControlInput) -> Option<P> {
    if input.center_camera {
        Some(position)
    } else {
        None
    }
}

/// Holding left alone from any angle: after the first tick the angle is in
/// range, and from then on it rises by one step per tick up to the limit.
proof fn lemma_held_left(car: CarModel, input: ControlInput, ticks: nat)
    requires
        input.steer_left,
        !input.steer_right,
        ticks >= 1,
    ensures
        held(car, input, ticks).steer_angle == clamped_steer(
            clamped_steer(car.steer_angle + STEER_STEP) + (ticks - 1) * STEER_STEP,
        ),
        held(car, input, ticks).steer_angle >= clamped_steer(car.steer_angle + STEER_STEP),
    decreases ticks,
{
    if ticks == 1 {
        assert(held(car, input, 0) == car);
    } else {
        lemma_held_left(car, input, (ticks - 1) as nat);
    }
}

/// Mirror image of `lemma_held_left`.
proof fn lemma_held_right(car: CarModel, input: ControlInput, ticks: nat)
    requires
        input.steer_right,
        !input.steer_left,
        ticks >= 1,
    ensures
        held(car, input, ticks).steer_angle == clamped_steer(
            clamped_steer(car.steer_angle - STEER_STEP) - (ticks - 1) * STEER_STEP,
        ),
        held(car, input, ticks).steer_angle <= clamped_steer(car.steer_angle - STEER_STEP),
    decreases ticks,
{
    if ticks == 1 {
        assert(held(car, input, 0) == car);
    } else {
        lemma_held_right(car, input, (ticks - 1) as nat);
    }
}

/// Holding left alone drives the steering angle to the left limit and keeps
/// it there: from any starting angle, once at least one tick and at least
/// as many ticks as there are steps to the limit have passed, the angle is
/// exactly `MAX_STEER_ANGLE`.
pub proof fn lemma_steer_left_converges(car: CarModel, input: ControlInput, ticks: nat)
    requires
        input.steer_left,
        !input.steer_right,
        ticks >= 1,
        ticks * STEER_STEP >= MAX_STEER_ANGLE - car.steer_angle,
    ensures
        held(car, input, ticks).steer_angle == MAX_STEER_ANGLE,
{
    lemma_held_left(car, input, ticks);
}

/// Holding right alone drives the steering angle to the right limit and
/// keeps it there.
pub proof fn lemma_steer_right_converges(car: CarModel, input: ControlInput, ticks: nat)
    requires
        input.steer_right,
        !input.steer_left,
        ticks >= 1,
        ticks * STEER_STEP >= car.steer_angle + MAX_STEER_ANGLE,
    ensures
        held(car, input, ticks).steer_angle == -MAX_STEER_ANGLE,
{
    lemma_held_right(car, input, ticks);
}

/// Starting inside the steering range, holding left alone for `ticks` ticks
/// turns by exactly that many steps, short of the limit; so the limit is
/// reached at the tick that covers the distance and at none before.
pub proof fn lemma_steer_left_counts(car: CarModel, input: ControlInput, ticks: nat)
    requires
        input.steer_left,
        !input.steer_right,
        -MAX_STEER_ANGLE <= car.steer_angle <= MAX_STEER_ANGLE,
    ensures
        held(car, input, ticks).steer_angle == if car.steer_angle + ticks * STEER_STEP
            <= MAX_STEER_ANGLE {
            car.steer_angle + ticks * STEER_STEP
        } else {
            MAX_STEER_ANGLE as int
        },
{
    if ticks >= 1 {
        lemma_held_left(car, input, ticks);
    }
}

/// Whatever is held, a tick leaves the wheel base alone and the steering
/// angle in range, provided it was in range before.
pub proof fn lemma_controlled_keeps_invariant(car: CarModel, input: ControlInput)
    requires
        -MAX_STEER_ANGLE <= car.steer_angle <= MAX_STEER_ANGLE,
    ensures
        controlled(car, input).wheel_base == car.wheel_base,
        -MAX_STEER_ANGLE <= controlled(car, input).steer_angle <= MAX_STEER_ANGLE,
{
}

/// A steerable car.
#[derive(Clone, Copy, Debug)]
pub struct Car {
    speed: i64,
    steer_angle: i32,
    wheel_base: i64,
}

impl View for Car {
    type V = CarModel;

    closed spec fn view(&self) -> CarModel {
        CarModel {
            speed: self.speed as int,
            steer_angle: self.steer_angle as int,
            wheel_base: self.wheel_base as int,
        }
    }
}

impl Car {
    /// The wheel base is positive and the steering angle is in range.
    pub open spec fn wf(&self) -> bool {
        &&& self@.wheel_base > 0
        &&& -MAX_STEER_ANGLE <= self@.steer_angle <= MAX_STEER_ANGLE
    }

    /// A car at rest with straight wheels; `None` unless the wheel base is
    /// positive.
    pub fn new(wheel_base: i64) -> (car: Option<Car>)
        ensures
            car.is_some() <==> wheel_base > 0,
            car matches Some(c) ==> c.wf() && c@ == (CarModel {
                speed: 0,
                steer_angle: 0,
                wheel_base: wheel_base as int,
            }),
    {
        if wheel_base > 0 {
            Some(Car { speed: 0, steer_angle: 0, wheel_base })
        } else {
            None
        }
    }

    /// A car with the given speed, steering angle and wheel base; `None`
    /// unless the wheel base is positive and the angle is in range.
    pub fn with_state(speed: i64, steer_angle: i32, wheel_base: i64) -> (car: Option<Car>)
        ensures
            car.is_some() <==> wheel_base > 0 && -MAX_STEER_ANGLE <= steer_angle
                <= MAX_STEER_ANGLE,
            car matches Some(c) ==> c.wf() && c@ == (CarModel {
                speed: speed as int,
                steer_angle: steer_angle as int,
                wheel_base: wheel_base as int,
            }),
    {
        let car = Car { speed, steer_angle, wheel_base };
        if car.is_well_formed() {
            Some(car)
        } else {
            None
        }
    }

    /// Whether the car is well formed, for callers that cannot see the
    /// proof: every car that this module hands out is.
    pub fn is_well_formed(&self) -> (ok: bool)
        ensures
            ok == self.wf(),
    {
        self.wheel_base > 0 && -MAX_STEER_ANGLE <= self.steer_angle && self.steer_angle
            <= MAX_STEER_ANGLE
    }

    /// Speed along the heading; negative in reverse.
    pub fn speed(&self) -> (speed: i64)
        ensures
            speed == self@.speed,
    {
        self.speed
    }

    /// Steering angle in degrees, positive to the left.
    pub fn steer_angle(&self) -> (angle: i32)
        ensures
            angle == self@.steer_angle,
    {
        self.steer_angle
    }

    /// Distance between the front and the rear contact point.
    pub fn wheel_base(&self) -> (wheel_base: i64)
        ensures
            wheel_base == self@.wheel_base,
    {
        self.wheel_base
    }

    /// Brings the steering angle back into range.
    pub fn clamp_steer_angle(&mut self)
        ensures
            final(self)@ == (CarModel {
                steer_angle: clamped_steer(old(self)@.steer_angle),
                ..old(self)@
            }),
    {
        if self.steer_angle < -MAX_STEER_ANGLE {
            self.steer_angle = -MAX_STEER_ANGLE;
        } else if self.steer_angle > MAX_STEER_ANGLE {
            self.steer_angle = MAX_STEER_ANGLE;
        }
    }
}

impl Default for Car {
    /// A car at rest with straight wheels and the default wheel base.
    fn default() -> (car: Car)
        ensures
            car.wf(),
            car@ == (CarModel { speed: 0, steer_angle: 0, wheel_base: DEFAULT_WHEEL_BASE as int }),
    {
        Car { speed: 0, steer_angle: 0, wheel_base: DEFAULT_WHEEL_BASE }
    }
}

/// Applies one tick of held keys to the car, and hands back the position
/// that the camera is to jump to, if the centring key asks for that.
pub fn control_car<P>(car: &mut Car, position: P, input: ControlInput) -> (camera_target: Option<P>)
    requires
        old(car).wf(),
    ensures
        final(car).wf(),
        final(car)@ == controlled(old(car)@, input),
        camera_target == snap_request(position, input),
{
    if input.accelerate {
        car.speed = if car.speed <= i64::MAX - SPEED_STEP {
            car.speed + SPEED_STEP
        } else {
            i64::MAX
        };
    }
    if input.brake {
        car.speed = if car.speed >= i64::MIN + SPEED_STEP {
            car.speed - SPEED_STEP
        } else {
            i64::MIN
        };
    }
    if input.steer_left {
        car.steer_angle = car.steer_angle + STEER_STEP;
        car.clamp_steer_angle();
    }
    if input.steer_right {
        car.steer_angle = car.steer_angle - STEER_STEP;
        car.clamp_steer_angle();
    }
    if input.center_camera {
        Some(position)
    } else {
        None
    }
}

} // verus!
