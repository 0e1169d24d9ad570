//! The tiled background: where its tiles stand, when a fresh block of
//! tiles is laid above the old one, and when old tiles are removed.

use vstd::prelude::*;
use vstd::arithmetic::div_mod::lemma_fundamental_div_mod_converse;
use crate::units::{
    clamp_coord, half, centred_start, lowest_from, coord_affine, centred_offset, coord_add,
    coord_half, coord_half_neg, coord_neg, coord_times, lowest_of,
};
use crate::world_grid::{GridConfig, below_threshold, remove_old, window_height};

verus! {

/// Width of the game canvas, in pixels.
pub const RES_WIDTH: u32 = 480;

/// Height of the game canvas, in pixels.
pub const RES_HEIGHT: u32 = 480;

/// Place of a tile in its block, counted in tiles.
#[derive(Clone, Copy, Debug, PartialEq, Eq, Structural)]
pub struct TileGrid {
    pub x: u32,
    pub y: u32,
    pub occupied: bool,
}

/// A tile and where it stands in the world.
#[derive(Clone, Copy, Debug, PartialEq, Eq, Structural)]
pub struct PlacedTile {
    pub x: i64,
    pub y: i64,
    pub tile: TileGrid,
}

/// How far a block of tiles has moved, and the distance at which a new
/// block is due.
#[derive(Clone, Copy, Debug, PartialEq, Eq, Structural)]
pub struct GridMovementTracker {
    pub distance_moved: i64,
    pub threshold: i64,
}

/// The tile with number `k` of a block that is laid column by column, each
/// column `height` tiles long. Columns are `tile_size` apart, starting at
/// `offset_x`; the tiles of a column are `row_step` apart, starting at
/// `base_y`.
pub open spec fn tile_of_block(
    k: int,
    height: int,
    offset_x: int,
    tile_size: int,
    base_y: int,
    row_step: int,
) -> PlacedTile {
    PlacedTile {
        x: clamp_coord(offset_x + (k / height) * tile_size) as i64,
        y: clamp_coord(base_y + (k % height) * row_step) as i64,
        tile: TileGrid { x: (k / height) as u32, y: (k % height) as u32, occupied: false },
    }
}

/// A block of `width` columns of `height` tiles.
pub open spec fn tile_block(
    width: int,
    height: int,
    offset_x: int,
    tile_size: int,
    base_y: int,
    row_step: int,
) -> Seq<PlacedTile> {
    Seq::new(
        (width * height) as nat,
        |k: int| tile_of_block(k, height, offset_x, tile_size, base_y, row_step),
    )
}

proof fn lemma_block_size(x: int, width: int, height: int)
    by (nonlinear_arith)
    requires
        0 <= x <= width,
        0 <= height,
    ensures
        0 <= x * height <= width * height,
        (x + 1) * height == x * height + height,
{
}

/// Lays a block of `width` columns of `height` tiles.
pub fn lay_tiles(
    width: u32,
    height: u32,
    offset_x: i64,
    tile_size: i64,
    base_y: i64,
    row_step: i64,
) -> (tiles: Vec<PlacedTile>)
    ensures
        tiles@ == tile_block(
            width as int,
            height as int,
            offset_x as int,
            tile_size as int,
            base_y as int,
            row_step as int,
        ),
{
    let mut tiles: Vec<PlacedTile> = Vec::new();
    let mut x: u32 = 0;
    while x < width
        invariant
            x <= width,
            tiles@.len() == x * height,
            forall|k: int|
                0 <= k < tiles@.len() ==> tiles@[k] == tile_of_block(
                    k,
                    height as int,
                    offset_x as int,
                    tile_size as int,
                    base_y as int,
                    row_step as int,
                ),
        decreases width - x,
    {
        let column: i64 = coord_affine(offset_x, x, tile_size);
        let mut y: u32 = 0;
        while y < height
            invariant
                x < width,
                y <= height,
                column == clamp_coord(offset_x + x * tile_size),
                tiles@.len() == x * height + y,
                forall|k: int|
                    0 <= k < tiles@.len() ==> tiles@[k] == tile_of_block(
                        k,
                        height as int,
                        offset_x as int,
                        tile_size as int,
                        base_y as int,
                        row_step as int,
                    ),
            decreases height - y,
        {
            let row: i64 = coord_affine(base_y, y, row_step);
            proof {
                lemma_fundamental_div_mod_converse(
                    x * height + y,
                    height as int,
                    x as int,
                    y as int,
                );
            }
            tiles.push(PlacedTile { x: column, y: row, tile: TileGrid { x, y, occupied: false } });
            y = y + 1;
        }
        proof {
            lemma_block_size(x as int, width as int, height as int);
        }
        x = x + 1;
    }
    proof {
        assert(tiles@.len() == width * height);
        assert(tiles@ =~= tile_block(
            width as int,
            height as int,
            offset_x as int,
            tile_size as int,
            base_y as int,
            row_step as int,
        ));
    }
    tiles
}

/// The tracker a game starts with: nothing moved yet, and a new block due
/// after ten tiles of 32 pixels.
pub fn setup_pixel_grid() -> (tracker: GridMovementTracker)
    ensures
        tracker == (GridMovementTracker { distance_moved: 0, threshold: 320_000_000_000 }),
{
    GridMovementTracker { distance_moved: 0, threshold: 320_000_000_000 }
}

/// The block of tiles that hangs down from `top`: columns centred on zero,
/// the tiles of a column one tile apart from `top` downwards.
pub open spec fn hanging_block(c: GridConfig, top: int) -> Seq<PlacedTile> {
    tile_block(
        c.grid_width as int,
        c.grid_height as int,
        centred_start(c.grid_width as int, c.tile_size as int),
        c.tile_size as int,
        top,
        clamp_coord(-c.tile_size),
    )
}

fn hang_block(grid_config: &GridConfig, top: i64) -> (tiles: Vec<PlacedTile>)
    ensures
        tiles@ == hanging_block(*grid_config, top as int),
{
    lay_tiles(
        grid_config.grid_width,
        grid_config.grid_height,
        centred_offset(grid_config.grid_width, grid_config.tile_size),
        grid_config.tile_size,
        top,
        coord_neg(grid_config.tile_size),
    )
}

/// The first block of tiles: it hangs down from the upper edge of the grid.
pub fn setup_grid(grid_config: &GridConfig) -> (tiles: Vec<PlacedTile>)
    ensures
        tiles@ == hanging_block(*grid_config, half(window_height(*grid_config))),
{
    let total_height: i64 = coord_times(grid_config.grid_height, grid_config.tile_size);
    hang_block(grid_config, coord_half(total_height))
}

/// The height of the lowest tile, or the greatest height there is if there
/// is no tile.
pub open spec fn lowest_tile(ys: Seq<i64>) -> int {
    lowest_from(i64::MAX as int, ys)
}

/// Whether the lowest tile has sunk below the middle of the lower half of
/// a grid that is centred on zero, so that a new block is due.
pub open spec fn background_due(ys: Seq<i64>, c: GridConfig) -> bool {
    lowest_tile(ys) < half(-window_height(c))
}

/// The tiles that are to be laid this frame, given the heights of the
/// tiles that exist.
///
/// When a block is due it hangs down from one grid height above the lowest
/// tile. Otherwise nothing is laid.
pub fn update_background(grid_config: &GridConfig, tile_ys: &Vec<i64>) -> (tiles: Vec<PlacedTile>)
    ensures
        tiles@ == if background_due(tile_ys@, *grid_config) {
            hanging_block(
                *grid_config,
                clamp_coord(lowest_tile(tile_ys@) + window_height(*grid_config)),
            )
        } else {
            Seq::empty()
        },
{
    let total_height: i64 = coord_times(grid_config.grid_height, grid_config.tile_size);
    let lowest_y: i64 = lowest_of(i64::MAX, tile_ys);
    let spawn_threshold: i64 = coord_half_neg(total_height);
    if lowest_y < spawn_threshold {
        hang_block(grid_config, coord_add(lowest_y, total_height))
    } else {
        Vec::new()
    }
}

/// Marks the tiles that are to be removed: those below the despawn
/// threshold.
pub fn remove_old_background(tile_ys: &Vec<i64>, grid_config: &GridConfig) -> (gone: Vec<bool>)
    ensures
        gone@ == below_threshold(tile_ys@, *grid_config),
{
    remove_old(tile_ys, grid_config)
}

/// A scale as a fraction.
#[derive(Clone, Copy, Debug, PartialEq, Eq, Structural)]
pub struct Scale {
    pub numerator: u32,
    pub denominator: u32,
}

/// How many whole times a canvas of `res_width` by `res_height` pixels fits
/// into a window of `width` by `height` pixels, and at least once.
pub open spec fn canvas_fit(width: int, height: int, res_width: int, res_height: int) -> int {
    let across = width / res_width;
    let down = height / res_height;
    let fit = if across < down { across } else { down };
    if fit < 1 { 1 } else { fit }
}

/// Scale of the outer camera for a window of `width` by `height` pixels:
/// one over the number of whole canvases that fit, zoomed in by seven
/// halves.
pub fn fit_canvas(width: u32, height: u32) -> (scale: Scale)
    ensures
        scale.numerator == 2,
        scale.denominator == 7 * canvas_fit(
            width as int,
            height as int,
            RES_WIDTH as int,
            RES_HEIGHT as int,
        ),
{
    let across: u32 = width / RES_WIDTH;
    let down: u32 = height / RES_HEIGHT;
    let fit: u32 = if across < down { across } else { down };
    let fit: u32 = if fit < 1 { 1 } else { fit };
    Scale { numerator: 2, denominator: 7 * fit }
}

} // verus!
