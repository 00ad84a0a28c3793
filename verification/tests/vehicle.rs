use crisis_in_motion::kinematics::move_car;
use crisis_in_motion::kinematics::Direction;
use crisis_in_motion::kinematics::DIRECTION_SCALE;
use crisis_in_motion::vehicle::control_car;
use crisis_in_motion::vehicle::Car;
use crisis_in_motion::vehicle::ControlInput;
use crisis_in_motion::vehicle::DEFAULT_WHEEL_BASE;
use crisis_in_motion::vehicle::MAX_STEER_ANGLE;

const SCALE: i128 = DIRECTION_SCALE as i128;

fn idle() -> ControlInput {
    ControlInput::default()
}

fn left() -> ControlInput {
    ControlInput { steer_left: true, ..idle() }
}

fn right() -> ControlInput {
    ControlInput { steer_right: true, ..idle() }
}

fn accelerate() -> ControlInput {
    ControlInput { accelerate: true, ..idle() }
}

fn east() -> Direction {
    Direction::new(DIRECTION_SCALE, 0).unwrap()
}

fn north() -> Direction {
    Direction::new(0, DIRECTION_SCALE).unwrap()
}

#[test]
fn default_car_is_at_rest_with_straight_wheels() {
    let car = Car::default();
    assert_eq!(car.speed(), 0);
    assert_eq!(car.steer_angle(), 0);
    assert_eq!(car.wheel_base(), 60);
    assert_eq!(DEFAULT_WHEEL_BASE, 60);
}

#[test]
fn wheel_base_must_be_positive() {
    assert!(Car::new(0).is_none());
    assert!(Car::new(-60).is_none());
    assert!(Car::new(i64::MIN).is_none());
    let car = Car::new(1).unwrap();
    assert_eq!(car.wheel_base(), 1);
    assert_eq!(car.speed(), 0);
    assert_eq!(car.steer_angle(), 0);
    assert_eq!(Car::new(i64::MAX).unwrap().wheel_base(), i64::MAX);
}

#[test]
fn accelerate_then_step_one_sixtieth() {
    let mut car = Car::default();
    let target = control_car(&mut car, (0, 0), accelerate());
    assert_eq!(target, None);
    assert_eq!(car.speed(), 2);
    assert_eq!(car.steer_angle(), 0);
    let step = move_car(&car, 16_667, east(), east());
    assert_eq!(step.shift, (2 * 16_667 * 2 * SCALE, 0));
    assert_eq!(step.axle, None);
    let x = step.shift.0 as f64 / (2.0 * 1_000_000.0 * SCALE as f64);
    assert!((x - 0.0333).abs() < 0.0001);
}

#[test]
fn sixty_increments_reach_the_clamp() {
    let mut car = Car::default();
    for taken in 1..=59 {
        control_car(&mut car, (), left());
        assert_eq!(car.steer_angle(), taken);
    }
    assert_eq!(car.steer_angle(), 59);
    control_car(&mut car, (), left());
    assert_eq!(car.steer_angle(), 60);
    assert_eq!(car.steer_angle(), MAX_STEER_ANGLE);
    control_car(&mut car, (), left());
    assert_eq!(car.steer_angle(), 60);
}

#[test]
fn steering_left_stays_at_the_limit() {
    let mut car = Car::default();
    for _ in 0..500 {
        control_car(&mut car, (), left());
    }
    assert_eq!(car.steer_angle(), 60);
}

#[test]
fn steering_right_converges_to_the_other_limit() {
    let mut car = Car::default();
    for _ in 0..25 {
        control_car(&mut car, (), left());
    }
    assert_eq!(car.steer_angle(), 25);
    for taken in 1..=85 {
        control_car(&mut car, (), right());
        assert_eq!(car.steer_angle(), 25 - taken);
    }
    assert_eq!(car.steer_angle(), -60);
    for _ in 0..10 {
        control_car(&mut car, (), right());
        assert_eq!(car.steer_angle(), -60);
    }
}

#[test]
fn both_steering_keys_act_in_turn() {
    let both = ControlInput { steer_left: true, steer_right: true, ..idle() };
    let mut car = Car::default();
    control_car(&mut car, (), both);
    assert_eq!(car.steer_angle(), 0);
    for _ in 0..60 {
        control_car(&mut car, (), left());
    }
    control_car(&mut car, (), both);
    assert_eq!(car.steer_angle(), 59);
    for _ in 0..200 {
        control_car(&mut car, (), right());
    }
    control_car(&mut car, (), both);
    assert_eq!(car.steer_angle(), -60);
}

#[test]
fn speed_has_no_limit_in_either_direction() {
    let mut car = Car::default();
    for _ in 0..10_000 {
        control_car(&mut car, (), accelerate());
    }
    assert_eq!(car.speed(), 20_000);
    let brake = ControlInput { brake: true, ..idle() };
    for _ in 0..30_000 {
        control_car(&mut car, (), brake);
    }
    assert_eq!(car.speed(), -40_000);
    let both = ControlInput { accelerate: true, brake: true, ..idle() };
    control_car(&mut car, (), both);
    assert_eq!(car.speed(), -40_000);
}

#[test]
fn idle_tick_changes_nothing() {
    let mut car = Car::default();
    control_car(&mut car, (), accelerate());
    control_car(&mut car, (), left());
    let target = control_car(&mut car, (7, 9), idle());
    assert_eq!(target, None);
    assert_eq!(car.speed(), 2);
    assert_eq!(car.steer_angle(), 1);
    assert_eq!(car.wheel_base(), 60);
}

#[test]
fn centring_hands_back_the_position() {
    let mut car = Car::default();
    let center = ControlInput { center_camera: true, ..idle() };
    assert_eq!(control_car(&mut car, (12, -7), center), Some((12, -7)));
    assert_eq!(car.speed(), 0);
    assert_eq!(car.steer_angle(), 0);
    let all = ControlInput { accelerate: true, steer_right: true, center_camera: true, ..idle() };
    assert_eq!(control_car(&mut car, "here", all), Some("here"));
    assert_eq!(car.speed(), 2);
    assert_eq!(car.steer_angle(), -1);
}

#[test]
fn direction_components_are_bounded_by_the_scale() {
    assert_eq!(DIRECTION_SCALE, 1 << 30);
    assert_eq!(Direction::new(3, -4), Some(Direction { cos: 3, sin: -4 }));
    assert!(Direction::new(DIRECTION_SCALE, -DIRECTION_SCALE).is_some());
    assert!(Direction::new(DIRECTION_SCALE + 1, 0).is_none());
    assert!(Direction::new(0, -DIRECTION_SCALE - 1).is_none());
    assert!(Direction::new(i32::MIN, 0).is_none());
    assert!(Direction::new(0, i32::MAX).is_none());
}

#[test]
fn car_at_rest_does_not_move() {
    let mut car = Car::default();
    for _ in 0..17 {
        control_car(&mut car, (), left());
    }
    let slanted = Direction::new(759_250_125, -759_250_125).unwrap();
    for elapsed in [0, 1, 16_667, 1_000_000, u32::MAX] {
        for (heading, steered) in [(east(), north()), (north(), slanted), (slanted, slanted)] {
            let step = move_car(&car, elapsed, heading, steered);
            assert_eq!(step.shift, (0, 0));
            assert_eq!(step.axle, None);
        }
    }
}

#[test]
fn no_time_no_motion() {
    let mut car = Car::default();
    control_car(&mut car, (), accelerate());
    control_car(&mut car, (), left());
    let step = move_car(&car, 0, east(), north());
    assert_eq!(step.shift, (0, 0));
    assert_eq!(step.axle, None);
}

#[test]
fn straight_wheels_drive_a_straight_line() {
    let mut car = Car::default();
    for _ in 0..5 {
        control_car(&mut car, (), accelerate());
    }
    let heading = Direction::new(644_245_094, 858_993_459).unwrap();
    let mut twice_position: (i128, i128) = (0, 0);
    for _ in 0..100 {
        let step = move_car(&car, 20_000, heading, north());
        assert_eq!(step.axle, None);
        twice_position.0 += step.shift.0;
        twice_position.1 += step.shift.1;
    }
    assert_eq!(twice_position.0, 100 * 10 * 20_000 * 2 * 644_245_094);
    assert_eq!(twice_position.1, 100 * 10 * 20_000 * 2 * 858_993_459);
}

#[test]
fn reverse_drives_backwards() {
    let mut car = Car::default();
    control_car(&mut car, (), ControlInput { brake: true, ..idle() });
    let step = move_car(&car, 500_000, north(), north());
    assert_eq!(step.shift, (0, -2 * 500_000 * 2 * SCALE));
    assert_eq!(step.axle, None);
}

#[test]
fn steered_step_turns_the_axle() {
    let mut car = Car::default();
    control_car(&mut car, (), accelerate());
    control_car(&mut car, (), left());
    let step = move_car(&car, 1_000_000, east(), north());
    assert_eq!(step.shift, (2_000_000 * SCALE, 2_000_000 * SCALE));
    assert_eq!(step.axle, Some((58_000_000 * SCALE, 2_000_000 * SCALE)));
}

#[test]
fn steered_direction_equal_to_heading_keeps_heading() {
    let mut car = Car::default();
    control_car(&mut car, (), accelerate());
    control_car(&mut car, (), right());
    let step = move_car(&car, 1_000_000, north(), north());
    assert_eq!(step.shift, (0, 4_000_000 * SCALE));
    assert_eq!(step.axle, None);
}

#[test]
fn coinciding_contact_points_keep_the_heading() {
    let mut car = Car::default();
    for _ in 0..15 {
        control_car(&mut car, (), accelerate());
    }
    control_car(&mut car, (), left());
    assert_eq!(car.speed(), 30);
    let west = Direction::new(-DIRECTION_SCALE, 0).unwrap();
    let step = move_car(&car, 1_000_000, east(), west);
    assert_eq!(step.shift, (0, 0));
    assert_eq!(step.axle, None);
    let near = move_car(&car, 999_999, east(), west);
    assert_eq!(near.axle, Some((60 * SCALE, 0)));
}

#[test]
fn largest_inputs_do_not_overflow() {
    let mut car = Car::new(i64::MAX).unwrap();
    control_car(&mut car, (), accelerate());
    control_car(&mut car, (), left());
    let corner = Direction::new(DIRECTION_SCALE, DIRECTION_SCALE).unwrap();
    let opposite = Direction::new(-DIRECTION_SCALE, -DIRECTION_SCALE).unwrap();
    let step = move_car(&car, u32::MAX, corner, opposite);
    assert_eq!(step.shift, (0, 0));
    let run = 2 * u32::MAX as i128;
    let rod = i64::MAX as i128 * 1_000_000;
    let expected = rod * SCALE - run * 2 * SCALE;
    assert_eq!(step.axle, Some((expected, expected)));
}

#[test]
fn state_must_respect_the_limits() {
    assert!(Car::with_state(0, 0, 0).is_none());
    assert!(Car::with_state(0, 61, 60).is_none());
    assert!(Car::with_state(0, -61, 60).is_none());
    assert!(Car::with_state(5, i32::MAX, 60).is_none());
    assert!(Car::with_state(5, i32::MIN, 60).is_none());
    let car = Car::with_state(-7, -60, 3).unwrap();
    assert_eq!(car.speed(), -7);
    assert_eq!(car.steer_angle(), -60);
    assert_eq!(car.wheel_base(), 3);
    assert!(car.is_well_formed());
    assert!(Car::with_state(i64::MIN, 60, i64::MAX).is_some());
}

#[test]
fn speed_stays_at_the_ends_of_the_range() {
    let brake = ControlInput { brake: true, ..idle() };
    let both = ControlInput { accelerate: true, brake: true, ..idle() };

    let mut car = Car::with_state(i64::MAX - 3, 0, 60).unwrap();
    control_car(&mut car, (), accelerate());
    assert_eq!(car.speed(), i64::MAX - 1);
    control_car(&mut car, (), accelerate());
    assert_eq!(car.speed(), i64::MAX);
    control_car(&mut car, (), accelerate());
    assert_eq!(car.speed(), i64::MAX);
    control_car(&mut car, (), both);
    assert_eq!(car.speed(), i64::MAX - 2);

    let mut car = Car::with_state(i64::MIN + 2, 0, 60).unwrap();
    control_car(&mut car, (), brake);
    assert_eq!(car.speed(), i64::MIN);
    control_car(&mut car, (), brake);
    assert_eq!(car.speed(), i64::MIN);
    control_car(&mut car, (), both);
    assert_eq!(car.speed(), i64::MIN);
    control_car(&mut car, (), accelerate());
    assert_eq!(car.speed(), i64::MIN + 2);
}

#[test]
fn steering_converges_from_every_angle() {
    for start in -60..=60 {
        let mut car = Car::with_state(0, start, 60).unwrap();
        for taken in 1..=130 {
            control_car(&mut car, (), left());
            assert_eq!(car.steer_angle(), (start + taken).min(60));
        }
        let mut car = Car::with_state(0, start, 60).unwrap();
        for taken in 1..=130 {
            control_car(&mut car, (), right());
            assert_eq!(car.steer_angle(), (start - taken).max(-60));
        }
    }
}

#[test]
fn clamping_a_valid_angle_changes_nothing() {
    for angle in [-60, -1, 0, 17, 60] {
        let mut car = Car::with_state(4, angle, 60).unwrap();
        car.clamp_steer_angle();
        assert_eq!(car.steer_angle(), angle);
        assert_eq!(car.speed(), 4);
        assert_eq!(car.wheel_base(), 60);
    }
}

#[test]
fn fastest_car_does_not_overflow() {
    let car = Car::with_state(i64::MIN, 60, i64::MAX).unwrap();
    let corner = Direction::new(DIRECTION_SCALE, -DIRECTION_SCALE).unwrap();
    let step = move_car(&car, u32::MAX, corner, corner);
    let run = i64::MIN as i128 * u32::MAX as i128;
    assert_eq!(step.shift, (run * 2 * SCALE, -run * 2 * SCALE));
    assert_eq!(step.axle, None);
    let opposite = Direction::new(-DIRECTION_SCALE, DIRECTION_SCALE).unwrap();
    let step = move_car(&car, u32::MAX, corner, opposite);
    let rod = i64::MAX as i128 * 1_000_000;
    assert_eq!(step.shift, (0, 0));
    assert_eq!(step.axle, Some((rod * SCALE - run * 2 * SCALE, -rod * SCALE + run * 2 * SCALE)));
}
