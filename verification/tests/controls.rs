use dino_scooter::controls::get_player_inputs;
use dino_scooter::controls::ground_damping;
use dino_scooter::controls::input_axis;
use dino_scooter::controls::movement_force;
use dino_scooter::controls::turn_torque_quarters;
use dino_scooter::controls::DriveKeys;
use dino_scooter::controls::PlayerInput;

#[test]
fn axis_from_two_keys() {
    assert_eq!(input_axis(false, false), 0);
    assert_eq!(input_axis(true, false), 1);
    assert_eq!(input_axis(false, true), -1);
    assert_eq!(input_axis(true, true), 0);
}

#[test]
fn inputs_follow_the_keys() {
    let mut inputs = vec![
        PlayerInput { index: 0, steer: -1, throttle: 1 },
        PlayerInput { index: 1, steer: 0, throttle: -1 },
    ];
    let keys = DriveKeys { left: true, right: false, forward: false, backward: true };
    get_player_inputs(&mut inputs, keys);
    assert_eq!(inputs[0], PlayerInput { index: 0, steer: 1, throttle: -1 });
    assert_eq!(inputs[1], PlayerInput { index: 1, steer: 1, throttle: -1 });
}

#[test]
fn released_keys_reset_the_input() {
    let mut inputs = vec![PlayerInput { index: 3, steer: 1, throttle: 1 }];
    let keys = DriveKeys { left: false, right: false, forward: false, backward: false };
    get_player_inputs(&mut inputs, keys);
    assert_eq!(inputs[0], PlayerInput { index: 3, steer: 0, throttle: 0 });
}

#[test]
fn damping_only_on_the_ground() {
    assert_eq!(ground_damping(true), 2);
    assert_eq!(ground_damping(false), 0);
}

#[test]
fn thrust_only_on_the_ground() {
    assert_eq!(movement_force(1, true), Some(50));
    assert_eq!(movement_force(-1, true), Some(-50));
    assert_eq!(movement_force(0, true), Some(0));
    assert_eq!(movement_force(1, false), None);
}

#[test]
fn turning_on_the_ground_and_in_the_air() {
    assert_eq!(turn_torque_quarters(1, 1, true), 8);
    assert_eq!(turn_torque_quarters(-1, 0, true), -8);
    assert_eq!(turn_torque_quarters(1, 1, false), 2);
    assert_eq!(turn_torque_quarters(0, 1, true), 0);
}

#[test]
fn air_turning_is_a_quarter() {
    for steer in -1..=1i8 {
        for throttle in -1..=1i8 {
            assert_eq!(
                4 * turn_torque_quarters(steer, throttle, false),
                turn_torque_quarters(steer, throttle, true)
            );
        }
    }
}

#[test]
fn reversing_turns_the_other_way() {
    assert_eq!(turn_torque_quarters(1, -1, true), -8);
    assert_eq!(turn_torque_quarters(-1, -1, false), 2);
    for steer in -1..=1i8 {
        for grounded in [false, true] {
            assert_eq!(
                turn_torque_quarters(steer, -1, grounded),
                -turn_torque_quarters(steer, 1, grounded)
            );
        }
    }
}
