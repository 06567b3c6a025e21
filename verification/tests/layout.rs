use dino_scooter::layout::camera_grid_cell;
use dino_scooter::layout::camera_viewport;
use dino_scooter::layout::grid_columns;
use dino_scooter::layout::grid_layout;
use dino_scooter::layout::GridCell;
use dino_scooter::layout::GridLayout;
use dino_scooter::layout::Viewport;

#[test]
fn columns_are_the_ceiling_of_the_square_root() {
    let expected = [(0usize, 0usize), (1, 1), (2, 2), (3, 2), (4, 2), (5, 3), (9, 3), (10, 4), (16, 4), (17, 5)];
    for (count, columns) in expected {
        assert_eq!(grid_columns(count), columns, "count {}", count);
    }
    assert_eq!(grid_columns(16_777_216), 4096);
    assert_eq!(grid_columns(16_777_217), 4097);
}

#[test]
fn columns_of_the_largest_count() {
    let columns = grid_columns(usize::MAX);
    let c = columns as u128;
    assert!(c * c >= usize::MAX as u128);
    assert!((c - 1) * (c - 1) < usize::MAX as u128);
}

#[test]
fn layout_for_small_counts() {
    assert_eq!(grid_layout(0), GridLayout { columns: 0, rows: 0 });
    assert_eq!(grid_layout(1), GridLayout { columns: 1, rows: 1 });
    assert_eq!(grid_layout(2), GridLayout { columns: 2, rows: 1 });
    assert_eq!(grid_layout(3), GridLayout { columns: 2, rows: 2 });
    assert_eq!(grid_layout(4), GridLayout { columns: 2, rows: 2 });
    assert_eq!(grid_layout(5), GridLayout { columns: 3, rows: 2 });
    assert_eq!(grid_layout(7), GridLayout { columns: 3, rows: 3 });
    assert_eq!(grid_layout(10), GridLayout { columns: 4, rows: 3 });
}

#[test]
fn grid_fits_every_player_and_is_nearly_square() {
    for count in 1..2000usize {
        let layout = grid_layout(count);
        assert!(layout.columns * layout.rows >= count);
        assert!((layout.rows - 1) * layout.columns < count);
        assert!(layout.rows <= layout.columns);
        assert!(layout.columns <= layout.rows + 1);
    }
}

#[test]
fn cells_are_read_row_by_row() {
    assert_eq!(camera_grid_cell(0, 4), GridCell { column: 0, row: 0 });
    assert_eq!(camera_grid_cell(1, 4), GridCell { column: 1, row: 0 });
    assert_eq!(camera_grid_cell(2, 4), GridCell { column: 0, row: 1 });
    assert_eq!(camera_grid_cell(3, 4), GridCell { column: 1, row: 1 });
    assert_eq!(camera_grid_cell(4, 5), GridCell { column: 1, row: 1 });
}

#[test]
fn four_players_get_the_window_quarters() {
    let vp = camera_viewport(1280, 720, 4, GridCell { column: 1, row: 1 });
    assert_eq!(vp, Viewport { x: 640, y: 360, width: 640, height: 360 });
    let vp = camera_viewport(1280, 720, 4, GridCell { column: 0, row: 0 });
    assert_eq!(vp, Viewport { x: 0, y: 0, width: 640, height: 360 });
}

#[test]
fn one_player_gets_the_whole_window() {
    let vp = camera_viewport(1920, 1080, 1, camera_grid_cell(0, 1));
    assert_eq!(vp, Viewport { x: 0, y: 0, width: 1920, height: 1080 });
}

#[test]
fn cell_sizes_round_down() {
    // five players: three columns, two rows
    let vp = camera_viewport(1000, 701, 5, GridCell { column: 2, row: 1 });
    assert_eq!(vp, Viewport { x: 666, y: 350, width: 333, height: 350 });
}

#[test]
fn viewports_tile_the_window() {
    let (w, h) = (1283u32, 719u32);
    for count in 1..40usize {
        let rects: Vec<Viewport> =
            (0..count).map(|i| camera_viewport(w, h, count, camera_grid_cell(i, count))).collect();
        for (i, a) in rects.iter().enumerate() {
            assert!(a.x + a.width <= w && a.y + a.height <= h);
            for b in rects.iter().skip(i + 1) {
                let disjoint = a.x + a.width <= b.x
                    || b.x + b.width <= a.x
                    || a.y + a.height <= b.y
                    || b.y + b.height <= a.y;
                assert!(disjoint, "count {}: {:?} {:?}", count, a, b);
            }
        }
    }
}
