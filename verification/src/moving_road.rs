//! The road: a column of pieces in the middle of the grid, one tile wide,
//! that is extended at the top as it sinks.

use vstd::prelude::*;
use crate::units::{
    clamp_coord, half, highest_or, lowest_or, rows_below, coord_add, coord_affine, coord_half,
    coord_half_neg, coord_neg, coord_sub, coord_times, highest_or_else, lowest_or_else, rows,
};
use crate::world_grid::{GridConfig, below_threshold, remove_old, window_height};

verus! {

/// By how much neighbouring pieces of a new road overlap: half a pixel.
pub const SPACING_FIX: i64 = 500_000_000;

/// Height of the lowest piece of a new road: half a tile above the lower
/// edge of the grid.
pub open spec fn road_start(c: GridConfig) -> int {
    clamp_coord(-half(window_height(c)) + half(c.tile_size as int))
}

/// Distance between the pieces of a new road.
pub open spec fn road_spacing(c: GridConfig) -> int {
    clamp_coord(c.tile_size - SPACING_FIX)
}

/// Heights of the pieces of a new road, from the lowest up: one piece for
/// each row of the grid. Every piece stands in the middle, at `x` zero, and
/// is one tile wide and high.
pub fn setup_road(grid_config: &GridConfig) -> (ys: Vec<i64>)
    ensures
        ys@ == Seq::new(
            grid_config.grid_height as nat,
            |i: int| clamp_coord(road_start(*grid_config) + i * road_spacing(*grid_config)) as i64,
        ),
{
    let total_height: i64 = coord_times(grid_config.grid_height, grid_config.tile_size);
    let start_y: i64 = coord_add(coord_neg(coord_half(total_height)), coord_half(grid_config.tile_size));
    let spacing: i64 = coord_sub(grid_config.tile_size, SPACING_FIX);
    let mut ys: Vec<i64> = Vec::new();
    let mut i: u32 = 0;
    while i < grid_config.grid_height
        invariant
            i <= grid_config.grid_height,
            start_y == road_start(*grid_config),
            spacing == road_spacing(*grid_config),
            ys@.len() == i,
            forall|j: int| 0 <= j < i ==> ys@[j] == clamp_coord(start_y + j * spacing),
        decreases grid_config.grid_height - i,
    {
        ys.push(coord_affine(start_y, i, spacing));
        i = i + 1;
    }
    assert(ys@ =~= Seq::new(
        grid_config.grid_height as nat,
        |i: int| clamp_coord(road_start(*grid_config) + i * road_spacing(*grid_config)) as i64,
    ));
    ys
}

/// Whether the lowest piece has sunk so far that the road is extended:
/// below one tile above the lower edge of the grid. A road without pieces
/// counts as standing at height zero.
pub open spec fn road_due(ys: Seq<i64>, c: GridConfig) -> bool {
    lowest_or(0, ys) < clamp_coord(half(-window_height(c)) + c.tile_size)
}

/// Height of the first piece that extends the road: one tile above the
/// highest piece. A road without pieces counts as standing at height zero.
pub open spec fn road_next(ys: Seq<i64>, c: GridConfig) -> int {
    clamp_coord(highest_or(0, ys) + c.tile_size)
}

/// Whether pieces are added to the road: it is due, and its next piece is
/// below the upper edge of the grid.
pub open spec fn road_extends(ys: Seq<i64>, c: GridConfig) -> bool {
    road_due(ys, c) && road_next(ys, c) < half(window_height(c))
}

/// Whether pieces are added to the road this frame.
pub fn extends_road(grid_config: &GridConfig, road_ys: &Vec<i64>) -> (extends: bool)
    ensures
        extends == road_extends(road_ys@, *grid_config),
{
    let tile_size: i64 = grid_config.tile_size;
    let total_height: i64 = coord_times(grid_config.grid_height, tile_size);
    let spawn_threshold: i64 = coord_add(coord_half_neg(total_height), tile_size);
    lowest_or_else(0, road_ys) < spawn_threshold && coord_add(
        highest_or_else(0, road_ys),
        tile_size,
    ) < coord_half(total_height)
}

/// Heights of the pieces that extend the road, given the heights of the
/// pieces that exist.
///
/// When the road is due, pieces are added one tile apart, from one tile
/// above the highest piece up to the upper edge of the grid. Otherwise
/// nothing is added. Where pieces are added, the tiles must have a size
/// above zero: there would be no end of pieces else.
pub fn update_road(grid_config: &GridConfig, road_ys: &Vec<i64>) -> (ys: Vec<i64>)
    requires
        road_extends(road_ys@, *grid_config) ==> grid_config.tile_size > 0,
    ensures
        ys@ == if road_due(road_ys@, *grid_config) {
            rows_below(
                road_next(road_ys@, *grid_config),
                grid_config.tile_size as int,
                half(window_height(*grid_config)),
            )
        } else {
            Seq::empty()
        },
{
    let tile_size: i64 = grid_config.tile_size;
    let lowest_y: i64 = lowest_or_else(0, road_ys);
    let highest_y: i64 = highest_or_else(0, road_ys);
    let total_height: i64 = coord_times(grid_config.grid_height, tile_size);
    let spawn_threshold: i64 = coord_add(coord_half_neg(total_height), tile_size);
    let max_height: i64 = coord_half(total_height);
    if lowest_y < spawn_threshold {
        rows(coord_add(highest_y, tile_size), tile_size, max_height)
    } else {
        Vec::new()
    }
}

/// Marks the pieces that are to be removed: those below the despawn
/// threshold.
pub fn remove_old_road(road_ys: &Vec<i64>, grid_config: &GridConfig) -> (gone: Vec<bool>)
    ensures
        gone@ == below_threshold(road_ys@, *grid_config),
{
    remove_old(road_ys, grid_config)
}

} // verus!
