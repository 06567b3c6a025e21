//! Driving: the steering and throttle each player reads from the keyboard,
//! and what the scooter does with them depending on whether it touches
//! the ground.
//!
//! Steering and throttle take the values -1, 0 and 1. Forces are given in
//! whole newtons along the scooter's forward axis, turning torque in
//! quarter units along its up axis, and ground damping in whole units.

use vstd::prelude::*;

verus! {

/// The thrust, in newtons per unit of throttle, of a scooter on the ground.
pub const THRUST_PER_THROTTLE: i32 = 50;

/// The linear damping of a scooter that touches the ground.
pub const GROUND_DAMPING: u8 = 2;

/// The linear damping of a scooter in the air.
pub const AIR_DAMPING: u8 = 0;

/// The steering and throttle of one player, and which player it is.
#[derive(Clone, Copy, Debug, PartialEq, Eq, Structural)]
pub struct PlayerInput {
    pub index: usize,
    pub steer: i8,
    pub throttle: i8,
}

/// The four driving keys: steer left (A), steer right (D), forward (W)
/// and backward (S); `true` while held.
#[derive(Clone, Copy, Debug, PartialEq, Eq, Structural)]
pub struct DriveKeys {
    pub left: bool,
    pub right: bool,
    pub forward: bool,
    pub backward: bool,
}

/// One axis read from two opposite keys: 1 for the positive key alone,
/// -1 for the negative key alone, 0 for both or neither.
pub open spec fn axis(positive: bool, negative: bool) -> int {
    (if positive {
        1int
    } else {
        0int
    }) - (if negative {
        1int
    } else {
        0int
    })
}

/// The input read from `keys` for the player with the given index.
pub open spec fn input_from_keys(index: usize, keys: DriveKeys) -> PlayerInput {
    PlayerInput {
        index,
        steer: axis(keys.left, keys.right) as i8,
        throttle: axis(keys.forward, keys.backward) as i8,
    }
}

/// Reads one axis from two opposite keys.
pub fn input_axis(positive: bool, negative: bool) -> (value: i8)
    ensures
        value == axis(positive, negative),
        positive && !negative ==> value == 1,
        negative && !positive ==> value == -1,
        positive == negative ==> value == 0,
{
    let mut value: i8 = 0;
    if positive {
        value = value + 1;
    }
    if negative {
        value = value - 1;
    }
    value
}

/// Reads the driving keys into every player's input: each input keeps its
/// player index and takes its steering and throttle from the keys. All
/// players are driven by the same keys.
pub fn get_player_inputs(inputs: &mut Vec<PlayerInput>, keys: DriveKeys)
    ensures
        final(inputs)@.len() == old(inputs)@.len(),
        forall|k: int|
            0 <= k < final(inputs)@.len() ==> #[trigger] final(inputs)@[k] == input_from_keys(
                old(inputs)@[k].index,
                keys,
            ),
{
    let steer = input_axis(keys.left, keys.right);
    let throttle = input_axis(keys.forward, keys.backward);
    let n = inputs.len();
    for k in 0..n
        invariant
            n == old(inputs)@.len(),
            inputs@.len() == n,
            steer == axis(keys.left, keys.right),
            throttle == axis(keys.forward, keys.backward),
            forall|m: int| 0 <= m < k ==> #[trigger] inputs@[m] == input_from_keys(
                old(inputs)@[m].index,
                keys,
            ),
            forall|m: int| k <= m < n ==> #[trigger] inputs@[m] == old(inputs)@[m],
    {
        let index = inputs[k].index;
        inputs.set(k, PlayerInput { index, steer, throttle });
    }
}

/// The linear damping of a scooter: ground friction only while it touches
/// the ground.
pub open spec fn damping_for(grounded: bool) -> int {
    if grounded {
        GROUND_DAMPING as int
    } else {
        AIR_DAMPING as int
    }
}

/// The thrust along the forward axis: none in the air, otherwise the
/// throttle times the thrust per unit of throttle.
pub open spec fn thrust_for(throttle: int, grounded: bool) -> Option<int> {
    if grounded {
        Some(throttle * THRUST_PER_THROTTLE)
    } else {
        None
    }
}

/// The turning torque along the up axis, in quarter units: steering at full
/// strength on the ground and at a quarter of it in the air, turned around
/// while reversing, times two.
pub open spec fn turn_quarters_for(steer: int, throttle: int, grounded: bool) -> int {
    let strength = if grounded {
        4int
    } else {
        1int
    };
    let direction = steer * strength;
    let direction = if throttle < 0 {
        -direction
    } else {
        direction
    };
    direction * 2
}

/// The damping of a scooter that does or does not touch the ground.
pub fn ground_damping(grounded: bool) -> (damping: u8)
    ensures
        grounded ==> damping == 2,
        !grounded ==> damping == 0,
        damping == damping_for(grounded),
{
    if grounded {
        GROUND_DAMPING
    } else {
        AIR_DAMPING
    }
}

/// The thrust of a scooter: only applied while it touches the ground.
pub fn movement_force(throttle: i8, grounded: bool) -> (force: Option<i32>)
    ensures
        !grounded ==> force is None,
        grounded ==> (force matches Some(f) && f == throttle * 50),
        force matches Some(f) ==> thrust_for(throttle as int, grounded) == Some(f as int),
        force is None <==> thrust_for(throttle as int, grounded) is None,
{
    if !grounded {
        return None;
    }
    Some(throttle as i32 * THRUST_PER_THROTTLE)
}

/// The turning torque of a scooter, in quarter units along its up axis.
pub fn turn_torque_quarters(steer: i8, throttle: i8, grounded: bool) -> (torque: i32)
    ensures
        torque == turn_quarters_for(steer as int, throttle as int, grounded),
{
    let strength: i32 = if grounded {
        4
    } else {
        1
    };
    let mut direction: i32 = steer as i32 * strength;
    if throttle < 0 {
        direction = -direction;
    }
    direction * 2
}

/// Each player's steering comes from the left and right keys alone and its
/// throttle from the forward and backward keys alone: the held key of a
/// pair gives 1 (left, forward) or -1 (right, backward), and a pair held
/// together or not at all gives 0. The player index is kept.
pub proof fn lemma_keys_drive_their_own_axis(index: usize, keys: DriveKeys)
    ensures
        input_from_keys(index, keys).index == index,
        keys.forward && !keys.backward ==> input_from_keys(index, keys).throttle == 1,
        keys.backward && !keys.forward ==> input_from_keys(index, keys).throttle == -1,
        keys.forward == keys.backward ==> input_from_keys(index, keys).throttle == 0,
        keys.left && !keys.right ==> input_from_keys(index, keys).steer == 1,
        keys.right && !keys.left ==> input_from_keys(index, keys).steer == -1,
        keys.left == keys.right ==> input_from_keys(index, keys).steer == 0,
{
}

/// A scooter in the air gets no thrust, whatever the throttle; on the
/// ground it gets fifty newtons per unit of throttle, forward or backward.
pub proof fn lemma_thrust_only_on_the_ground(throttle: int)
    ensures
        thrust_for(throttle, false) is None,
        thrust_for(throttle, true) == Some(throttle * 50),
{
}

/// A scooter is damped by two units while it touches the ground and not at
/// all in the air.
pub proof fn lemma_damping_only_on_the_ground()
    ensures
        damping_for(true) == 2,
        damping_for(false) == 0,
{
}

/// Full steering on the ground gives eight quarter units of torque, in the
/// air two; the sign follows the steering, turned around while reversing.
pub proof fn lemma_turning_strength(steer: int, throttle: int)
    ensures
        throttle >= 0 ==> turn_quarters_for(steer, throttle, true) == 8 * steer,
        throttle < 0 ==> turn_quarters_for(steer, throttle, true) == -8 * steer,
        throttle >= 0 ==> turn_quarters_for(steer, throttle, false) == 2 * steer,
        throttle < 0 ==> turn_quarters_for(steer, throttle, false) == -2 * steer,
{
}

/// In the air a scooter turns at a quarter of the strength it turns with
/// on the ground.
pub proof fn lemma_air_turning_is_a_quarter(steer: int, throttle: int)
    ensures
        4 * turn_quarters_for(steer, throttle, false) == turn_quarters_for(steer, throttle, true),
{
}

/// Reversing turns the scooter the other way for the same steering.
pub proof fn lemma_reversing_mirrors_turning(steer: int, forward: int, backward: int, grounded: bool)
    requires
        forward >= 0,
        backward < 0,
    ensures
        turn_quarters_for(steer, backward, grounded) == -turn_quarters_for(
            steer,
            forward,
            grounded,
        ),
{
}

/// Opposite keys cancel out: holding both gives the same axis as holding
/// neither, and swapping the keys turns the axis around.
pub proof fn lemma_axis_symmetric(positive: bool, negative: bool)
    ensures
        axis(true, true) == axis(false, false),
        axis(negative, positive) == -axis(positive, negative),
        -1 <= axis(positive, negative) <= 1,
{
}

} // verus!
