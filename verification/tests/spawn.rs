use std::collections::HashSet;

use dino_scooter::controls::PlayerInput;
use dino_scooter::layout::GridCell;
use dino_scooter::spawn::camera_bundle;
use dino_scooter::spawn::camera_root_bundle;
use dino_scooter::spawn::player_bundle;
use dino_scooter::spawn::spawn_players;
use dino_scooter::spawn::ui_bundle;
use dino_scooter::text::push_decimal;

#[test]
fn decimal_digits() {
    for (n, text) in [(0usize, "0"), (7, "7"), (10, "10"), (305, "305"), (1_000_000, "1000000")] {
        let mut s = String::from("n=");
        push_decimal(&mut s, n);
        assert_eq!(s, format!("n={}", text));
    }
    let mut s = String::new();
    push_decimal(&mut s, usize::MAX);
    assert_eq!(s, usize::MAX.to_string());
}

#[test]
fn player_bundle_is_named_and_idle() {
    let bundle = player_bundle(0);
    assert_eq!(bundle.name, "Player0");
    assert_eq!(bundle.input, PlayerInput { index: 0, steer: 0, throttle: 0 });
    assert_eq!(player_bundle(12).name, "Player12");
}

#[test]
fn camera_root_name() {
    assert_eq!(camera_root_bundle(3).name, "Player3CameraRoot");
}

#[test]
fn camera_bundle_cell_and_order() {
    let bundle = camera_bundle(4, 5);
    assert_eq!(bundle.name, "Player4Camera");
    assert_eq!(bundle.cell, GridCell { column: 1, row: 1 });
    assert_eq!(bundle.order, 4);
}

#[test]
fn ui_label_counts_from_one() {
    let bundle = ui_bundle(0);
    assert_eq!(bundle.name, "Player0Ui");
    assert_eq!(bundle.label, "Player 1");
    assert_eq!(ui_bundle(9).label, "Player 10");
}

#[test]
fn no_players_no_spawns() {
    assert!(spawn_players(0).is_empty());
}

#[test]
fn spawns_follow_the_player_index() {
    let spawns = spawn_players(3);
    assert_eq!(spawns.len(), 3);
    for (i, spawn) in spawns.iter().enumerate() {
        assert_eq!(spawn.player, player_bundle(i));
        assert_eq!(spawn.camera_root, camera_root_bundle(i));
        assert_eq!(spawn.camera, camera_bundle(i, 3));
        assert_eq!(spawn.ui, ui_bundle(i));
    }
    assert_eq!(spawns[2].camera.cell, GridCell { column: 0, row: 1 });
}

#[test]
fn spawned_players_are_distinct() {
    let spawns = spawn_players(25);
    let names: HashSet<&String> = spawns.iter().map(|s| &s.player.name).collect();
    let cameras: HashSet<&String> = spawns.iter().map(|s| &s.camera.name).collect();
    let cells: HashSet<(u32, u32)> = spawns.iter().map(|s| (s.camera.cell.column, s.camera.cell.row)).collect();
    assert_eq!(names.len(), 25);
    assert_eq!(cameras.len(), 25);
    assert_eq!(cells.len(), 25);
}
