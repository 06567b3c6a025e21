//! The split-screen camera grid: how many columns and rows the screen is cut
//! into for a number of players, which cell each player's camera takes, and
//! the viewport in window pixels that a cell covers.

use vstd::prelude::*;
use vstd::arithmetic::div_mod::lemma_fundamental_div_mod;
use vstd::arithmetic::div_mod::lemma_mod_bound;

verus! {

/// `columns` is the ceiling of the square root of `count`: the least number
/// whose square is at least `count`.
pub open spec fn is_ceil_sqrt(count: nat, columns: nat) -> bool {
    &&& count <= columns * columns
    &&& (columns == 0 || (columns - 1) * (columns - 1) < count)
}

/// The ceiling of the square root of `n`.
pub open spec fn ceil_sqrt(n: nat) -> nat
    decreases n,
{
    if n == 0 {
        0
    } else {
        let r = ceil_sqrt((n - 1) as nat);
        if n <= r * r {
            r
        } else {
            r + 1
        }
    }
}

/// `a / b` rounded up.
pub open spec fn ceil_div(a: nat, b: nat) -> nat {
    if a % b == 0 {
        a / b
    } else {
        a / b + 1
    }
}

/// The number of grid columns for `count` players.
pub open spec fn grid_columns_for(count: nat) -> nat {
    ceil_sqrt(count)
}

/// The number of grid rows for `count` players: enough rows of
/// `grid_columns_for(count)` cells for every player (none without players).
pub open spec fn grid_rows_for(count: nat) -> nat {
    let columns = grid_columns_for(count);
    if columns == 0 {
        0
    } else {
        ceil_div(count, columns)
    }
}

/// The grid column of the camera of player `index` among `count` players.
pub open spec fn cell_column(index: nat, count: nat) -> nat {
    index % grid_columns_for(count)
}

/// The grid row of the camera of player `index` among `count` players.
pub open spec fn cell_row(index: nat, count: nat) -> nat {
    index / grid_columns_for(count)
}

/// The width in pixels of one grid cell of a window `window_width` wide.
pub open spec fn cell_width(window_width: nat, count: nat) -> nat {
    window_width / grid_columns_for(count)
}

/// The height in pixels of one grid cell of a window `window_height` high.
pub open spec fn cell_height(window_height: nat, count: nat) -> nat {
    window_height / grid_rows_for(count)
}

/// The split-screen grid for a number of players.
#[derive(Clone, Copy, Debug, PartialEq, Eq, Structural)]
pub struct GridLayout {
    pub columns: usize,
    pub rows: usize,
}

/// The grid cell that a player's camera shows its picture in.
#[derive(Clone, Copy, Debug, PartialEq, Eq, Structural)]
pub struct GridCell {
    pub column: u32,
    pub row: u32,
}

/// A rectangle of the window in physical pixels.
#[derive(Clone, Copy, Debug, PartialEq, Eq, Structural)]
pub struct Viewport {
    pub x: u32,
    pub y: u32,
    pub width: u32,
    pub height: u32,
}

/// Division facts for natural numbers.
proof fn lemma_div_mod(x: nat, d: nat)
    requires
        d > 0,
    ensures
        x == d * (x / d) + x % d,
        x % d < d,
        x / d <= x,
{
    lemma_fundamental_div_mod(x as int, d as int);
    lemma_mod_bound(x as int, d as int);
    let q = x / d;
    let r = x % d;
    assert(q <= x) by (nonlinear_arith)
        requires
            x == d * q + r,
            d >= 1,
            r >= 0,
            q >= 0,
    ;
}

proof fn lemma_square_monotone(a: nat, b: nat)
    requires
        a <= b,
    ensures
        a * a <= b * b,
{
    assert(a * a <= b * b) by (nonlinear_arith)
        requires
            a <= b,
    ;
}

/// `ceil_sqrt` is the ceiling of the square root.
pub proof fn lemma_ceil_sqrt(n: nat)
    ensures
        is_ceil_sqrt(n, ceil_sqrt(n)),
    decreases n,
{
    if n > 0 {
        let r = ceil_sqrt((n - 1) as nat);
        lemma_ceil_sqrt((n - 1) as nat);
        if n <= r * r {
            assert(r != 0);
        } else {
            assert((r + 1) * (r + 1) == r * r + 2 * r + 1) by (nonlinear_arith);
        }
    }
}

/// The ceiling of a square root is unique.
pub proof fn lemma_ceil_sqrt_unique(n: nat, c: nat)
    requires
        is_ceil_sqrt(n, c),
    ensures
        c == ceil_sqrt(n),
{
    lemma_ceil_sqrt(n);
    let d = ceil_sqrt(n);
    if c < d {
        lemma_square_monotone(c, (d - 1) as nat);
    } else if d < c {
        lemma_square_monotone(d, (c - 1) as nat);
    }
}

/// The ceiling of the square root of `n` is at most `n`.
proof fn lemma_ceil_sqrt_at_most(n: nat)
    ensures
        ceil_sqrt(n) <= n,
{
    lemma_ceil_sqrt(n);
    let c = ceil_sqrt(n);
    if c > 0 {
        let b = (c - 1) as nat;
        assert(b <= b * b) by (nonlinear_arith);
    }
}

/// The number of grid columns for `player_count` players: the ceiling of
/// the square root of the player count.
pub fn grid_columns(player_count: usize) -> (columns: usize)
    ensures
        columns == grid_columns_for(player_count as nat),
        player_count <= columns * columns,
        columns == 0 || (columns - 1) * (columns - 1) < player_count,
        columns <= player_count,
        columns <= 0x1_0000_0000,
{
    let n: u128 = player_count as u128;
    let mut lo: u128 = 0;
    let mut hi: u128 = 0x1_0000_0000;
    assert(hi * hi == 0x1_0000_0000_0000_0000);
    while lo < hi
        invariant
            lo <= hi <= 0x1_0000_0000,
            n == player_count,
            n <= hi * hi,
            lo == 0 || (lo - 1) * (lo - 1) < n,
        decreases hi - lo,
    {
        let mid: u128 = lo + (hi - lo) / 2;
        proof {
            lemma_square_monotone(mid as nat, 0x1_0000_0000);
        }
        if n <= mid * mid {
            hi = mid;
        } else {
            lo = mid + 1;
        }
    }
    proof {
        lemma_ceil_sqrt_unique(n as nat, lo as nat);
        lemma_ceil_sqrt_at_most(n as nat);
    }
    lo as usize
}

/// The split-screen grid for `player_count` players: as many columns as the
/// ceiling of the square root of the count, and as many rows as it takes to
/// give every player a cell.
pub fn grid_layout(player_count: usize) -> (layout: GridLayout)
    ensures
        layout.columns == grid_columns_for(player_count as nat),
        layout.rows == grid_rows_for(player_count as nat),
        layout.columns * layout.rows >= player_count,
        layout.rows >= 1 ==> (layout.rows - 1) * layout.columns < player_count,
        layout.rows <= layout.columns,
        player_count >= 1 <==> layout.rows >= 1,
{
    proof {
        lemma_grid_fits_players(player_count as nat);
    }
    let columns = grid_columns(player_count);
    if columns == 0 {
        return GridLayout { columns: 0, rows: 0 };
    }
    let rows = if player_count % columns == 0 {
        player_count / columns
    } else {
        proof {
            let n = player_count as nat;
            let c = columns as nat;
            lemma_div_mod(n, c);
            let q = n / c;
            let r = n % c;
            assert(q < n) by (nonlinear_arith)
                requires
                    n == c * q + r,
                    r > 0,
                    c >= 1,
                    q >= 0,
            ;
        }
        player_count / columns + 1
    };
    GridLayout { columns, rows }
}

/// The grid gives every one of `count` players a cell, has no empty row,
/// is never taller than wide, and is as square as the count allows: it has
/// as many rows as columns, or one row fewer.
pub proof fn lemma_grid_fits_players(count: nat)
    ensures
        grid_columns_for(count) * grid_rows_for(count) >= count,
        grid_rows_for(count) <= grid_columns_for(count),
        count >= 1 ==> grid_rows_for(count) >= 1,
        count >= 1 ==> (grid_rows_for(count) - 1) * grid_columns_for(count) < count,
        count >= 1 ==> grid_columns_for(count) <= grid_rows_for(count) + 1,
{
    lemma_ceil_sqrt(count);
    let c = grid_columns_for(count);
    let rows = grid_rows_for(count);
    if count >= 1 {
        lemma_div_mod(count, c);
        let q = count / c;
        let r = count % c;
        assert(rows == if r == 0 { q } else { q + 1 });
        if r == 0 {
            assert(c * rows == count);
        } else {
            assert(c * (q + 1) == c * q + c) by (nonlinear_arith);
        }
        if q == 0 {
            assert(c * q == 0) by (nonlinear_arith)
                requires
                    q == 0,
            ;
        }
        assert(q <= c) by (nonlinear_arith)
            requires
                count == c * q + r,
                count <= c * c,
                r >= 0,
                c >= 1,
                q >= 0,
        ;
        assert(q == c ==> r == 0) by (nonlinear_arith)
            requires
                count == c * q + r,
                count <= c * c,
                r >= 0,
        ;
        assert((rows - 1) * c < count) by (nonlinear_arith)
            requires
                count == c * q + r,
                rows == if r == 0 { q } else { q + 1 },
                r >= 0,
                r < c,
                count >= 1,
                c >= 1,
        ;
        assert(c <= rows + 1) by (nonlinear_arith)
            requires
                count == c * q + r,
                (c - 1) * (c - 1) < count,
                rows == if r == 0 { q } else { q + 1 },
                0 <= r < c,
                q >= 0,
                c >= 1,
        ;
    } else {
        assert(c == 0);
    }
}

/// The grid cell of the camera of player `player_index` when there are
/// `player_count` players: the index read row by row across the grid.
/// The row number is cut to 32 bits, which changes nothing for the players
/// that exist.
pub fn camera_grid_cell(player_index: usize, player_count: usize) -> (cell: GridCell)
    requires
        player_count >= 1,
    ensures
        cell.column == cell_column(player_index as nat, player_count as nat),
        cell.row == cell_row(player_index as nat, player_count as nat) as u32,
        player_index < player_count ==> cell.row == cell_row(
            player_index as nat,
            player_count as nat,
        ),
        player_index < player_count ==> cell.row * grid_columns_for(player_count as nat)
            + cell.column == player_index,
        player_index < player_count ==> cell.column < grid_columns_for(player_count as nat),
        player_index < player_count ==> cell.row < grid_rows_for(player_count as nat),
{
    let columns = grid_columns(player_count);
    proof {
        lemma_ceil_sqrt(player_count as nat);
        lemma_grid_fits_players(player_count as nat);
        lemma_div_mod(player_index as nat, columns as nat);
        lemma_below_next_multiple(
            player_index as nat,
            columns as nat,
            player_index as nat / columns as nat,
            player_index as nat % columns as nat,
        );
        if player_index < player_count {
            lemma_cell_in_grid(player_index as nat, player_count as nat);
        }
    }
    let column = player_index % columns;
    let row = player_index / columns;
    GridCell { column: column as u32, row: row as u32 }
}

proof fn lemma_below_next_multiple(x: nat, d: nat, q: nat, r: nat)
    requires
        x == d * q + r,
        r < d,
    ensures
        d * q <= x,
        x < d * (q + 1),
        q * d + r == x,
{
    assert(d * (q + 1) == d * q + d) by (nonlinear_arith);
    assert(q * d == d * q) by (nonlinear_arith);
}

/// The cells split the window evenly: the columns together are as wide as
/// the window but for a remainder narrower than one pixel per column, and
/// the rows together are as tall as the window but for a remainder shorter
/// than one pixel per row.
pub proof fn lemma_cells_share_the_window(window_width: nat, window_height: nat, count: nat)
    requires
        count >= 1,
    ensures
        grid_columns_for(count) * cell_width(window_width, count) <= window_width,
        window_width < grid_columns_for(count) * (cell_width(window_width, count) + 1),
        grid_rows_for(count) * cell_height(window_height, count) <= window_height,
        window_height < grid_rows_for(count) * (cell_height(window_height, count) + 1),
{
    lemma_grid_fits_players(count);
    lemma_ceil_sqrt(count);
    let c = grid_columns_for(count);
    let rows = grid_rows_for(count);
    let w = cell_width(window_width, count);
    let h = cell_height(window_height, count);
    lemma_div_mod(window_width, c);
    lemma_div_mod(window_height, rows);
    lemma_below_next_multiple(window_width, c, w, window_width % c);
    lemma_below_next_multiple(window_height, rows, h, window_height % rows);
}

/// The viewport of the grid cell `cell` in a window of the given size when
/// there are `player_count` players: the window cut into equal cells,
/// rounded down to whole pixels, and the cell's share of it.
pub fn camera_viewport(
    window_width: u32,
    window_height: u32,
    player_count: usize,
    cell: GridCell,
) -> (viewport: Viewport)
    requires
        player_count >= 1,
        cell.column * cell_width(window_width as nat, player_count as nat) <= u32::MAX,
        cell.row * cell_height(window_height as nat, player_count as nat) <= u32::MAX,
    ensures
        viewport.width == cell_width(window_width as nat, player_count as nat),
        viewport.height == cell_height(window_height as nat, player_count as nat),
        viewport.x == cell.column * viewport.width,
        viewport.y == cell.row * viewport.height,
        grid_columns_for(player_count as nat) * viewport.width <= window_width,
        window_width < grid_columns_for(player_count as nat) * (viewport.width + 1),
        grid_rows_for(player_count as nat) * viewport.height <= window_height,
        window_height < grid_rows_for(player_count as nat) * (viewport.height + 1),
{
    let layout = grid_layout(player_count);
    proof {
        lemma_cells_share_the_window(window_width as nat, window_height as nat, player_count as nat);
        lemma_grid_fits_players(player_count as nat);
        lemma_ceil_sqrt(player_count as nat);
        lemma_div_mod(window_width as nat, layout.columns as nat);
        lemma_div_mod(window_height as nat, layout.rows as nat);
    }
    let width = ((window_width as u64) / (layout.columns as u64)) as u32;
    let height = ((window_height as u64) / (layout.rows as u64)) as u32;
    Viewport { x: cell.column * width, y: cell.row * height, width, height }
}

/// Whether `camera_viewport` can be computed for these arguments: there is
/// at least one player, and the cell's offsets fit in 32 bits.
pub fn camera_viewport_fits(
    window_width: u32,
    window_height: u32,
    player_count: usize,
    cell: GridCell,
) -> (fits: bool)
    ensures
        fits == (player_count >= 1 && cell.column * cell_width(window_width as nat, player_count as nat)
            <= u32::MAX && cell.row * cell_height(window_height as nat, player_count as nat)
            <= u32::MAX),
{
    if player_count == 0 {
        return false;
    }
    let layout = grid_layout(player_count);
    proof {
        lemma_grid_fits_players(player_count as nat);
        lemma_ceil_sqrt(player_count as nat);
        lemma_div_mod(window_width as nat, layout.columns as nat);
        lemma_div_mod(window_height as nat, layout.rows as nat);
    }
    let width = (window_width as u64) / (layout.columns as u64);
    let height = (window_height as u64) / (layout.rows as u64);
    proof {
        let c = cell.column as nat;
        let r = cell.row as nat;
        let w = width as nat;
        let h = height as nat;
        assert(c * w <= 0xffff_ffff * 0xffff_ffff) by (nonlinear_arith)
            requires
                c <= 0xffff_ffff,
                w <= 0xffff_ffff,
        ;
        assert(r * h <= 0xffff_ffff * 0xffff_ffff) by (nonlinear_arith)
            requires
                r <= 0xffff_ffff,
                h <= 0xffff_ffff,
        ;
    }
    let x = (cell.column as u128) * (width as u128);
    let y = (cell.row as u128) * (height as u128);
    x <= u32::MAX as u128 && y <= u32::MAX as u128
}

/// The rectangle (x, y, width, height) of the window that the camera of
/// player `index` among `count` shows its picture in.
pub open spec fn player_rect(window_width: nat, window_height: nat, count: nat, index: nat) -> (
    nat,
    nat,
    nat,
    nat,
) {
    let width = cell_width(window_width, count);
    let height = cell_height(window_height, count);
    (cell_column(index, count) * width, cell_row(index, count) * height, width, height)
}

/// The rectangle lies inside a window of the given size.
pub open spec fn rect_within(rect: (nat, nat, nat, nat), window_width: nat, window_height: nat) -> bool {
    rect.0 + rect.2 <= window_width && rect.1 + rect.3 <= window_height
}

/// The two rectangles have no pixel in common.
pub open spec fn rects_disjoint(a: (nat, nat, nat, nat), b: (nat, nat, nat, nat)) -> bool {
    ||| a.0 + a.2 <= b.0
    ||| b.0 + b.2 <= a.0
    ||| a.1 + a.3 <= b.1
    ||| b.1 + b.3 <= a.1
}

/// Each of `count` players gets a cell inside the grid.
proof fn lemma_cell_in_grid(index: nat, count: nat)
    requires
        index < count,
    ensures
        cell_column(index, count) < grid_columns_for(count),
        cell_row(index, count) < grid_rows_for(count),
{
    lemma_grid_fits_players(count);
    let c = grid_columns_for(count);
    let rows = grid_rows_for(count);
    lemma_div_mod(index, c);
    let q = index / c;
    let r = index % c;
    assert(q < rows) by (nonlinear_arith)
        requires
            index == c * q + r,
            r >= 0,
            index < count,
            c * rows >= count,
            c >= 1,
    ;
}

/// The split-screen viewports of the players tile the window: each player's
/// viewport lies inside the window, and two different players never share
/// a grid cell or a pixel.
pub proof fn lemma_player_viewports_tile_window(
    window_width: nat,
    window_height: nat,
    count: nat,
    i: nat,
    j: nat,
)
    requires
        i < count,
        j < count,
    ensures
        cell_column(i, count) < grid_columns_for(count),
        cell_row(i, count) < grid_rows_for(count),
        rect_within(player_rect(window_width, window_height, count, i), window_width, window_height),
        i != j ==> cell_column(i, count) != cell_column(j, count) || cell_row(i, count) != cell_row(
            j,
            count,
        ),
        i != j ==> rects_disjoint(
            player_rect(window_width, window_height, count, i),
            player_rect(window_width, window_height, count, j),
        ),
{
    lemma_cell_in_grid(i, count);
    lemma_cell_in_grid(j, count);
    lemma_grid_fits_players(count);
    let c = grid_columns_for(count);
    let rows = grid_rows_for(count);
    let w = cell_width(window_width, count);
    let h = cell_height(window_height, count);
    lemma_div_mod(window_width, c);
    lemma_div_mod(window_height, rows);
    lemma_div_mod(i, c);
    lemma_div_mod(j, c);
    let ci = cell_column(i, count);
    let ri = cell_row(i, count);
    let cj = cell_column(j, count);
    let rj = cell_row(j, count);
    assert(ci * w + w <= window_width) by (nonlinear_arith)
        requires
            ci < c,
            window_width == c * w + window_width % c,
            window_width % c >= 0,
    ;
    assert(ri * h + h <= window_height) by (nonlinear_arith)
        requires
            ri < rows,
            window_height == rows * h + window_height % rows,
            window_height % rows >= 0,
    ;
    if i != j {
        if ci < cj {
            assert(ci * w + w <= cj * w) by (nonlinear_arith)
                requires
                    ci < cj,
            ;
        } else if cj < ci {
            assert(cj * w + w <= ci * w) by (nonlinear_arith)
                requires
                    cj < ci,
            ;
        } else if ri < rj {
            assert(ri * h + h <= rj * h) by (nonlinear_arith)
                requires
                    ri < rj,
            ;
        } else if rj < ri {
            assert(rj * h + h <= ri * h) by (nonlinear_arith)
                requires
                    rj < ri,
            ;
        } else {
            assert(i == j);
        }
    }
}

/// The cell and viewport computed for a player that exists are the ones
/// the tiling law speaks of, and computing the viewport cannot overflow.
pub proof fn lemma_player_viewport_fits(
    window_width: u32,
    window_height: u32,
    count: nat,
    index: nat,
)
    requires
        index < count,
    ensures
        cell_column(index, count) * cell_width(window_width as nat, count) <= window_width,
        cell_row(index, count) * cell_height(window_height as nat, count) <= window_height,
{
    lemma_player_viewports_tile_window(window_width as nat, window_height as nat, count, index, index);
}

} // verus!
