use scene_viewer::camera::{flight_mov, Direction, FlightKeys, FlightMovement, LOOK_RATE};
use scene_viewer::units::ONE;

const FLIGHT: FlightMovement = FlightMovement { speed: 4000, modifier: 2000 };

fn keys(w: bool, s: bool, a: bool, d: bool, left_shift: bool) -> FlightKeys {
    FlightKeys { w, s, a, d, left_shift }
}

fn as_float(thousandths: i32) -> f32 {
    thousandths as f32 / ONE as f32
}

/// Forward, right: the camera's local basis with the camera unturned.
fn basis(direction: Direction) -> [f32; 3] {
    match direction {
        Direction::Forward => [0.0, 0.0, -1.0],
        Direction::Back => [0.0, 0.0, 1.0],
        Direction::Left => [-1.0, 0.0, 0.0],
        Direction::Right => [1.0, 0.0, 0.0],
    }
}

/// What a host does with a step: sum, scale, multiply by time and speed.
fn displacement(flight: FlightMovement, keys: FlightKeys, seconds: f32) -> [f32; 3] {
    let step = flight_mov(flight, keys);
    let mut dir = [0.0f32; 3];
    for direction in step.directions.iter() {
        let unit = basis(*direction);
        for i in 0..3 {
            dir[i] += unit[i];
        }
    }
    let mut moved = [0.0f32; 3];
    for i in 0..3 {
        moved[i] = dir[i] * as_float(step.scale) * seconds * as_float(step.speed);
    }
    moved
}

#[test]
fn thousandths_are_exact() {
    assert_eq!(ONE, 1000);
    assert_eq!(as_float(ONE), 1.0);
    assert_eq!(as_float(4000), 4.0);
    assert_eq!(as_float(2000), 2.0);
    assert_eq!(as_float(2500), 2.5);
}

#[test]
fn look_rate_is_minus_two_thousandths() {
    assert_eq!(LOOK_RATE, -2);
    assert_eq!(as_float(LOOK_RATE), -0.002f32);
    assert_eq!(100.0f32 * as_float(LOOK_RATE), 100.0f32 * -0.002f32);
}

#[test]
fn no_key_no_contribution() {
    let step = flight_mov(FLIGHT, keys(false, false, false, false, false));
    assert!(step.directions.is_empty());
    assert_eq!(step.scale, 1000);
    assert_eq!(step.speed, 4000);
    assert_eq!(displacement(FLIGHT, keys(false, false, false, false, false), 0.5), [0.0, 0.0, 0.0]);
}

#[test]
fn each_key_contributes_its_own_direction() {
    assert_eq!(flight_mov(FLIGHT, keys(true, false, false, false, false)).directions, vec![Direction::Forward]);
    assert_eq!(flight_mov(FLIGHT, keys(false, true, false, false, false)).directions, vec![Direction::Back]);
    assert_eq!(flight_mov(FLIGHT, keys(false, false, true, false, false)).directions, vec![Direction::Left]);
    assert_eq!(flight_mov(FLIGHT, keys(false, false, false, true, false)).directions, vec![Direction::Right]);
}

#[test]
fn contributions_come_in_fixed_order() {
    let step = flight_mov(FLIGHT, keys(true, true, true, true, false));
    assert_eq!(
        step.directions,
        vec![Direction::Forward, Direction::Back, Direction::Left, Direction::Right]
    );
    let step = flight_mov(FLIGHT, keys(false, true, false, true, false));
    assert_eq!(step.directions, vec![Direction::Back, Direction::Right]);
}

#[test]
fn every_key_combination_lists_exactly_the_held_keys() {
    for bits in 0u8..32 {
        let k = keys(bits & 1 != 0, bits & 2 != 0, bits & 4 != 0, bits & 8 != 0, bits & 16 != 0);
        let step = flight_mov(FLIGHT, k);
        let mut expected = Vec::new();
        if k.w {
            expected.push(Direction::Forward);
        }
        if k.s {
            expected.push(Direction::Back);
        }
        if k.a {
            expected.push(Direction::Left);
        }
        if k.d {
            expected.push(Direction::Right);
        }
        assert_eq!(step.directions, expected);
        assert_eq!(step.scale, if k.left_shift { 2000 } else { 1000 });
        assert_eq!(step.speed, 4000);
    }
}

#[test]
fn step_takes_speed_and_modifier_from_the_camera() {
    let slow = FlightMovement { speed: 250, modifier: 3500 };
    let step = flight_mov(slow, keys(true, false, false, false, true));
    assert_eq!(step.speed, 250);
    assert_eq!(step.scale, 3500);
    let step = flight_mov(slow, keys(true, false, false, false, false));
    assert_eq!(step.speed, 250);
    assert_eq!(step.scale, 1000);
    let odd = FlightMovement { speed: -1, modifier: i32::MIN };
    let step = flight_mov(odd, keys(false, false, false, false, true));
    assert_eq!((step.scale, step.speed), (i32::MIN, -1));
}

#[test]
fn forward_for_half_a_second_moves_two_units() {
    assert_eq!(displacement(FLIGHT, keys(true, false, false, false, false), 0.5), [0.0, 0.0, -2.0]);
    assert_eq!(displacement(FLIGHT, keys(false, false, false, true, false), 0.25), [1.0, 0.0, 0.0]);
}

#[test]
fn opposite_keys_cancel() {
    assert_eq!(displacement(FLIGHT, keys(true, true, false, false, false), 1.0), [0.0, 0.0, 0.0]);
    assert_eq!(displacement(FLIGHT, keys(false, false, true, true, false), 1.0), [0.0, 0.0, 0.0]);
    assert_eq!(displacement(FLIGHT, keys(true, true, true, false, false), 1.0), [-4.0, 0.0, 0.0]);
}

#[test]
fn diagonal_moves_farther_than_straight() {
    let straight = displacement(FLIGHT, keys(true, false, false, false, false), 0.5);
    let diagonal = displacement(FLIGHT, keys(true, false, false, true, false), 0.5);
    assert_eq!(diagonal, [2.0, 0.0, -2.0]);
    let length2 = |v: [f32; 3]| v[0] * v[0] + v[1] * v[1] + v[2] * v[2];
    assert_eq!(length2(straight), 4.0);
    assert_eq!(length2(diagonal), 8.0);
}

#[test]
fn modifier_doubles_the_displacement() {
    for bits in 0u8..16 {
        let plain = keys(bits & 1 != 0, bits & 2 != 0, bits & 4 != 0, bits & 8 != 0, false);
        let modified = FlightKeys { left_shift: true, ..plain };
        assert_eq!(flight_mov(FLIGHT, plain).directions, flight_mov(FLIGHT, modified).directions);
        let a = displacement(FLIGHT, plain, 0.125);
        let b = displacement(FLIGHT, modified, 0.125);
        for i in 0..3 {
            assert_eq!(b[i], 2.0 * a[i]);
        }
    }
    assert_eq!(displacement(FLIGHT, keys(true, false, false, false, true), 0.5), [0.0, 0.0, -4.0]);
}
