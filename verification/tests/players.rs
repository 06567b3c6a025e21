use dino_scooter::players::add_dino_batch;
use dino_scooter::players::decrease_player_count;
use dino_scooter::players::increase_player_count;
use dino_scooter::players::DINO_BATCH;
use dino_scooter::players::INITIAL_PLAYER_COUNT;

#[test]
fn game_starts_with_one_player() {
    assert_eq!(INITIAL_PLAYER_COUNT, 1);
}

#[test]
fn increase_adds_one_player() {
    assert_eq!(increase_player_count(1), 2);
    assert_eq!(increase_player_count(7), 8);
}

#[test]
fn decrease_removes_one_player() {
    assert_eq!(decrease_player_count(3), 2);
    assert_eq!(decrease_player_count(10), 9);
}

#[test]
fn decrease_never_goes_below_one() {
    assert_eq!(decrease_player_count(1), 1);
    assert_eq!(decrease_player_count(2), 1);
}

#[test]
fn decrease_undoes_increase() {
    for count in 1..50usize {
        assert_eq!(decrease_player_count(increase_player_count(count)), count);
    }
}

#[test]
fn increase_undoes_decrease_above_one() {
    for count in 2..50usize {
        assert_eq!(increase_player_count(decrease_player_count(count)), count);
    }
    // at one player the decrease is stopped, so the round trip gains a player
    assert_eq!(increase_player_count(decrease_player_count(1)), 2);
}

#[test]
fn presses_never_leave_fewer_than_one_player() {
    let mut count = INITIAL_PLAYER_COUNT;
    let presses = [false, false, true, true, true, false, false, false, false, true];
    for increase in presses {
        count = if increase { increase_player_count(count) } else { decrease_player_count(count) };
        assert!(count >= 1);
    }
    assert_eq!(count, 2);
}

#[test]
fn dino_batch_adds_ten() {
    assert_eq!(DINO_BATCH, 10);
    assert_eq!(add_dino_batch(0), 10);
    assert_eq!(add_dino_batch(25), 35);
}
