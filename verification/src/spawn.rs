//! What is spawned for each player of a new round: the player's scooter,
//! the camera root that follows it, the camera in its split-screen cell,
//! and the on-screen label, with the names they carry.

use vstd::prelude::*;
use crate::controls::PlayerInput;
use crate::layout::GridCell;
use crate::layout::camera_grid_cell;
use crate::layout::cell_column;
use crate::layout::cell_row;
use crate::layout::lemma_player_viewports_tile_window;
use crate::text::decimal;
use crate::text::decimal_value;
use crate::text::lemma_decimal_reads_back;
use crate::text::lemma_decimal_injective;
use crate::text::push_decimal;

verus! {

/// The name of player `index`'s scooter: "Player" and the index.
pub open spec fn player_name(index: nat) -> Seq<char> {
    "Player"@ + decimal(index)
}

/// The name of the camera root that follows player `index`.
pub open spec fn camera_root_name(index: nat) -> Seq<char> {
    player_name(index) + "CameraRoot"@
}

/// The name of player `index`'s camera.
pub open spec fn camera_name(index: nat) -> Seq<char> {
    player_name(index) + "Camera"@
}

/// The name of player `index`'s on-screen interface.
pub open spec fn ui_name(index: nat) -> Seq<char> {
    player_name(index) + "Ui"@
}

/// The label shown to player `index`: "Player " and the index counted
/// from one.
pub open spec fn ui_label(index: nat) -> Seq<char> {
    "Player "@ + decimal(index + 1)
}

/// The scooter of one player: its name and its input, idle at first.
#[derive(Debug, PartialEq, Eq)]
pub struct PlayerBundle {
    pub name: String,
    pub input: PlayerInput,
}

/// The camera root that follows one player's scooter.
#[derive(Debug, PartialEq, Eq)]
pub struct CameraRootBundle {
    pub name: String,
}

/// One player's camera: its name, the grid cell it draws into, and its
/// render order.
#[derive(Debug, PartialEq, Eq)]
pub struct CameraBundle {
    pub name: String,
    pub cell: GridCell,
    pub order: isize,
}

/// One player's on-screen interface: its name and the label it shows.
#[derive(Debug, PartialEq, Eq)]
pub struct UiBundle {
    pub name: String,
    pub label: String,
}

/// Everything spawned for one player.
#[derive(Debug, PartialEq, Eq)]
pub struct PlayerSpawn {
    pub player: PlayerBundle,
    pub camera_root: CameraRootBundle,
    pub camera: CameraBundle,
    pub ui: UiBundle,
}

/// The scooter of player `index`.
pub open spec fn is_player_bundle(bundle: PlayerBundle, index: nat) -> bool {
    &&& bundle.name@ == player_name(index)
    &&& bundle.input.index == index
    &&& bundle.input.steer == 0
    &&& bundle.input.throttle == 0
}

/// The camera of player `index` among `count` players.
pub open spec fn is_camera_bundle(bundle: CameraBundle, index: nat, count: nat) -> bool {
    &&& bundle.name@ == camera_name(index)
    &&& bundle.cell.column == cell_column(index, count)
    &&& bundle.cell.row == cell_row(index, count) as u32
    &&& bundle.order == index as isize
}

/// The interface of player `index`.
pub open spec fn is_ui_bundle(bundle: UiBundle, index: nat) -> bool {
    &&& bundle.name@ == ui_name(index)
    &&& bundle.label@ == ui_label(index)
}

/// Everything spawned for player `index` among `count` players.
pub open spec fn is_player_spawn(spawn: PlayerSpawn, index: nat, count: nat) -> bool {
    &&& is_player_bundle(spawn.player, index)
    &&& spawn.camera_root.name@ == camera_root_name(index)
    &&& is_camera_bundle(spawn.camera, index, count)
    &&& is_ui_bundle(spawn.ui, index)
}

/// "Player" followed by the index.
fn player_name_text(player_index: usize) -> (name: String)
    ensures
        name@ == player_name(player_index as nat),
{
    let mut name = String::from_str("Player");
    push_decimal(&mut name, player_index);
    name
}

/// The scooter of player `player_index`, with no steering or throttle.
pub fn player_bundle(player_index: usize) -> (bundle: PlayerBundle)
    ensures
        is_player_bundle(bundle, player_index as nat),
{
    PlayerBundle {
        name: player_name_text(player_index),
        input: PlayerInput { index: player_index, steer: 0, throttle: 0 },
    }
}

/// The camera root that follows player `player_index`.
pub fn camera_root_bundle(player_index: usize) -> (bundle: CameraRootBundle)
    ensures
        bundle.name@ == camera_root_name(player_index as nat),
{
    let mut name = player_name_text(player_index);
    name.append("CameraRoot");
    CameraRootBundle { name }
}

/// The camera of player `player_index` when `player_count` players are
/// spawned: it draws into the player's grid cell and renders in the order
/// of the player index.
pub fn camera_bundle(player_index: usize, player_count: usize) -> (bundle: CameraBundle)
    requires
        player_count >= 1,
    ensures
        is_camera_bundle(bundle, player_index as nat, player_count as nat),
        player_index < player_count ==> bundle.cell.row == cell_row(
            player_index as nat,
            player_count as nat,
        ),
{
    let mut name = player_name_text(player_index);
    name.append("Camera");
    let cell = camera_grid_cell(player_index, player_count);
    CameraBundle { name, cell, order: player_index as isize }
}

/// The interface of player `player_index`, labelled with the player's
/// number counted from one.
pub fn ui_bundle(player_index: usize) -> (bundle: UiBundle)
    requires
        player_index < usize::MAX,
    ensures
        is_ui_bundle(bundle, player_index as nat),
{
    let mut name = player_name_text(player_index);
    name.append("Ui");
    let mut label = String::from_str("Player ");
    push_decimal(&mut label, player_index + 1);
    UiBundle { name, label }
}

/// Everything to spawn for a round of `player_count` players, player by
/// player in index order.
pub fn spawn_players(player_count: usize) -> (spawns: Vec<PlayerSpawn>)
    ensures
        spawns@.len() == player_count,
        forall|k: int|
            0 <= k < player_count ==> #[trigger] is_player_spawn(
                spawns@[k],
                k as nat,
                player_count as nat,
            ),
{
    let mut spawns: Vec<PlayerSpawn> = Vec::new();
    for index in 0..player_count
        invariant
            spawns@.len() == index,
            forall|k: int|
                0 <= k < index ==> #[trigger] is_player_spawn(
                    spawns@[k],
                    k as nat,
                    player_count as nat,
                ),
    {
        let spawn = PlayerSpawn {
            player: player_bundle(index),
            camera_root: camera_root_bundle(index),
            camera: camera_bundle(index, player_count),
            ui: ui_bundle(index),
        };
        spawns.push(spawn);
    }
    spawns
}

/// Text with the same prefix and suffix around two middles is the same
/// only if the middles are.
proof fn lemma_framed_injective(prefix: Seq<char>, a: Seq<char>, b: Seq<char>, suffix: Seq<char>)
    requires
        prefix + a + suffix == prefix + b + suffix,
    ensures
        a == b,
{
    let x = prefix + a + suffix;
    let y = prefix + b + suffix;
    assert(x == y);
    assert(x.len() == prefix.len() + a.len() + suffix.len());
    assert(y.len() == prefix.len() + b.len() + suffix.len());
    assert(a.len() == b.len());
    assert(a =~= x.subrange(prefix.len() as int, (prefix.len() + a.len()) as int));
    assert(b =~= y.subrange(prefix.len() as int, (prefix.len() + b.len()) as int));
}

/// Two different players of a round get different names for their scooter,
/// camera root, camera and interface, and different grid cells.
pub proof fn lemma_spawned_players_distinct(count: nat, i: nat, j: nat)
    requires
        i < count,
        j < count,
        i != j,
    ensures
        player_name(i) != player_name(j),
        camera_root_name(i) != camera_root_name(j),
        camera_name(i) != camera_name(j),
        ui_name(i) != ui_name(j),
        ui_label(i) != ui_label(j),
        cell_column(i, count) != cell_column(j, count) || cell_row(i, count) != cell_row(
            j,
            count,
        ),
{
    let e = Seq::<char>::empty();
    if player_name(i) == player_name(j) {
        assert("Player"@ + decimal(i) + e =~= player_name(i));
        assert("Player"@ + decimal(j) + e =~= player_name(j));
        lemma_framed_injective("Player"@, decimal(i), decimal(j), e);
        lemma_decimal_injective(i, j);
    }
    if camera_root_name(i) == camera_root_name(j) {
        lemma_framed_injective("Player"@, decimal(i), decimal(j), "CameraRoot"@);
        lemma_decimal_injective(i, j);
    }
    if camera_name(i) == camera_name(j) {
        lemma_framed_injective("Player"@, decimal(i), decimal(j), "Camera"@);
        lemma_decimal_injective(i, j);
    }
    if ui_name(i) == ui_name(j) {
        lemma_framed_injective("Player"@, decimal(i), decimal(j), "Ui"@);
        lemma_decimal_injective(i, j);
    }
    if ui_label(i) == ui_label(j) {
        assert("Player "@ + decimal(i + 1) + e =~= ui_label(i));
        assert("Player "@ + decimal(j + 1) + e =~= ui_label(j));
        lemma_framed_injective("Player "@, decimal(i + 1), decimal(j + 1), e);
        lemma_decimal_injective(i + 1, j + 1);
    }
    lemma_player_viewports_tile_window(0, 0, count, i, j);
}

/// Every name spawned for player `index` is "Player" followed by the
/// player's index in decimal and then the part's own suffix, and the
/// player's label is "Player " followed by the index counted from one.
pub proof fn lemma_names_carry_the_player_number(index: nat)
    ensures
        player_name(index).take("Player"@.len() as int) == "Player"@,
        decimal_value(player_name(index).skip("Player"@.len() as int)) == index,
        camera_root_name(index).take(player_name(index).len() as int) == player_name(index),
        camera_root_name(index).skip(player_name(index).len() as int) == "CameraRoot"@,
        camera_name(index).take(player_name(index).len() as int) == player_name(index),
        camera_name(index).skip(player_name(index).len() as int) == "Camera"@,
        ui_name(index).take(player_name(index).len() as int) == player_name(index),
        ui_name(index).skip(player_name(index).len() as int) == "Ui"@,
        ui_label(index).take("Player "@.len() as int) == "Player "@,
        decimal_value(ui_label(index).skip("Player "@.len() as int)) == index + 1,
{
    lemma_decimal_reads_back(index);
    lemma_decimal_reads_back(index + 1);
    let p = player_name(index);
    assert(p.take("Player"@.len() as int) =~= "Player"@);
    assert(p.skip("Player"@.len() as int) =~= decimal(index));
    assert(camera_root_name(index).take(p.len() as int) =~= p);
    assert(camera_root_name(index).skip(p.len() as int) =~= "CameraRoot"@);
    assert(camera_name(index).take(p.len() as int) =~= p);
    assert(camera_name(index).skip(p.len() as int) =~= "Camera"@);
    assert(ui_name(index).take(p.len() as int) =~= p);
    assert(ui_name(index).skip(p.len() as int) =~= "Ui"@);
    let l = ui_label(index);
    assert(l.take("Player "@.len() as int) =~= "Player "@);
    assert(l.skip("Player "@.len() as int) =~= decimal(index + 1));
}

} // verus!
