//! A map that scrolls in whole pixels at a fixed speed: logs and tiles sink,
//! what has left the screen is removed, and a new block of tiles is laid on
//! top when the old one runs out.

use vstd::prelude::*;
use crate::units::{clamp_coord, pixel_floor, travel, highest_from, coord_add, coord_sub, distance, snap_to_pixel};
use crate::background::{PlacedTile, tile_block, lay_tiles};
use crate::world_grid::Position;
use crate::clock::{rings, ticked, tick, just_finished};
use bevy::time::Timer;
use core::time::Duration;
pub use crate::background::{
    TileGrid, GridMovementTracker, Scale, canvas_fit, setup_pixel_grid, RES_WIDTH, RES_HEIGHT,
};

verus! {

/// Pixels per second at which the map sinks.
pub const MAP_SPEED: u32 = 50;

/// Tiles along each side of a block.
pub const MAP_GRID_SIZE: u32 = 15;

/// Edge of a tile: 32 pixels.
pub const MAP_TILE_SIZE: i64 = 32_000_000_000;

/// Where the first column of a block stands: 224 pixels left of the centre.
pub const MAP_OFFSET_X: i64 = -224_000_000_000;

/// Below this height, 320 pixels under the centre, an object has left the
/// screen.
pub const MAP_BOTTOM: i64 = -320_000_000_000;

/// While the highest tile is below this height, 240 pixels above the
/// centre, there is room for a new block.
pub const MAP_TOP: i64 = 240_000_000_000;

/// Height from which the search for the highest tile starts: 1000 pixels
/// under the centre.
pub const MAP_FLOOR: i64 = -1000_000_000_000;

/// Height at which a log appears: 75 pixels above the centre.
pub const LOG_START_Y: i64 = 75_000_000_000;

/// Layer on which a log is drawn.
pub const LOG_LAYER: i32 = 2;

/// What one step of the map decides besides the new positions.
#[derive(Clone, Debug)]
pub struct MapStep {
    /// For each log, whether it has left the screen and is to be removed.
    pub logs_gone: Vec<bool>,
    /// For each tile, whether it has left the screen and is to be removed.
    pub tiles_gone: Vec<bool>,
    /// The tiles of a new block, or none.
    pub new_tiles: Vec<PlacedTile>,
}

/// How far the map sinks in a frame of `delta_nanos` nanoseconds: the whole
/// pixels of the distance covered at `MAP_SPEED`.
pub open spec fn map_step(delta_nanos: int) -> int {
    pixel_floor(travel(MAP_SPEED as int, delta_nanos))
}

/// Height of an object at `y` after it has sunk by `step` and settled on a
/// whole pixel.
pub open spec fn sunk(y: int, step: int) -> int {
    pixel_floor(clamp_coord(y - step))
}

pub open spec fn log_after(p: Position, step: int) -> Position {
    Position { x: pixel_floor(p.x as int) as i64, y: sunk(p.y as int, step) as i64 }
}

pub open spec fn tile_after(t: PlacedTile, step: int) -> PlacedTile {
    PlacedTile { x: pixel_floor(t.x as int) as i64, y: sunk(t.y as int, step) as i64, tile: t.tile }
}

pub open spec fn tile_heights(tiles: Seq<PlacedTile>) -> Seq<i64> {
    tiles.map_values(|t: PlacedTile| t.y)
}

/// Height of the highest tile, and no less than `MAP_FLOOR`.
pub open spec fn highest_tile(tiles: Seq<PlacedTile>) -> int {
    highest_from(MAP_FLOOR as int, tile_heights(tiles))
}

/// Whether a tile of the first row has left the screen.
pub open spec fn first_row_gone(tiles: Seq<PlacedTile>) -> bool {
    exists|i: int| 0 <= i < tiles.len() && tiles[i].y < MAP_BOTTOM && (#[trigger] tiles[i]).tile.y == 0
}

/// Whether a new block of tiles is due.
pub open spec fn new_block_due(tiles: Seq<PlacedTile>) -> bool {
    first_row_gone(tiles) || highest_tile(tiles) < MAP_TOP
}

/// The block that is laid when one is due: every tile one tile above the
/// highest old one.
pub open spec fn new_block(tiles: Seq<PlacedTile>) -> Seq<PlacedTile> {
    tile_block(
        MAP_GRID_SIZE as int,
        MAP_GRID_SIZE as int,
        MAP_OFFSET_X as int,
        MAP_TILE_SIZE as int,
        clamp_coord(pixel_floor(highest_tile(tiles)) + MAP_TILE_SIZE),
        0,
    )
}

/// Moves the map by one frame.
///
/// Every log and tile sinks by `map_step(delta_nanos)` and settles on whole
/// pixels. The result marks those that are now below `MAP_BOTTOM`. When a
/// new block is due it is returned and the tracker starts again from zero;
/// otherwise the tracker grows by the step.
pub fn move_map(
    logs: &mut Vec<Position>,
    tiles: &mut Vec<PlacedTile>,
    delta_nanos: u64,
    tracker: &mut GridMovementTracker,
) -> (out: MapStep)
    ensures
        final(logs)@ == old(logs)@.map_values(
            |p: Position| log_after(p, map_step(delta_nanos as int)),
        ),
        final(tiles)@ == old(tiles)@.map_values(
            |t: PlacedTile| tile_after(t, map_step(delta_nanos as int)),
        ),
        out.logs_gone@ == final(logs)@.map_values(|p: Position| p.y < MAP_BOTTOM),
        out.tiles_gone@ == final(tiles)@.map_values(|t: PlacedTile| t.y < MAP_BOTTOM),
        final(tracker).threshold == old(tracker).threshold,
        new_block_due(final(tiles)@) ==> out.new_tiles@ == new_block(final(tiles)@)
            && final(tracker).distance_moved == 0,
        !new_block_due(final(tiles)@) ==> out.new_tiles@.len() == 0
            && final(tracker).distance_moved == clamp_coord(
            old(tracker).distance_moved + map_step(delta_nanos as int),
        ),
{
    let step: i64 = snap_to_pixel(distance(MAP_SPEED, delta_nanos));
    let ghost old_logs = logs@;
    let ghost old_tiles = tiles@;

    let mut logs_gone: Vec<bool> = Vec::new();
    let mut i: usize = 0;
    while i < logs.len()
        invariant
            i <= logs.len(),
            logs@.len() == old_logs.len(),
            logs_gone@.len() == i,
            forall|j: int| 0 <= j < i ==> logs@[j] == log_after(old_logs[j], step as int),
            forall|j: int| i <= j < logs@.len() ==> logs@[j] == old_logs[j],
            forall|j: int| 0 <= j < i ==> logs_gone@[j] == (logs@[j].y < MAP_BOTTOM),
        decreases logs.len() - i,
    {
        let p: Position = logs[i];
        let q = Position { x: snap_to_pixel(p.x), y: snap_to_pixel(coord_sub(p.y, step)) };
        logs.set(i, q);
        logs_gone.push(q.y < MAP_BOTTOM);
        i = i + 1;
    }

    tracker.distance_moved = coord_add(tracker.distance_moved, step);

    let mut tiles_gone: Vec<bool> = Vec::new();
    let mut at_bottom: bool = false;
    let mut top: i64 = MAP_FLOOR;
    let mut k: usize = 0;
    while k < tiles.len()
        invariant
            k <= tiles.len(),
            tiles@.len() == old_tiles.len(),
            tiles_gone@.len() == k,
            forall|j: int| 0 <= j < k ==> tiles@[j] == tile_after(old_tiles[j], step as int),
            forall|j: int| k <= j < tiles@.len() ==> tiles@[j] == old_tiles[j],
            forall|j: int| 0 <= j < k ==> tiles_gone@[j] == (tiles@[j].y < MAP_BOTTOM),
            at_bottom == first_row_gone(tiles@.take(k as int)),
            top == highest_tile(tiles@.take(k as int)),
        decreases tiles.len() - k,
    {
        let t: PlacedTile = tiles[k];
        let moved = PlacedTile {
            x: snap_to_pixel(t.x),
            y: snap_to_pixel(coord_sub(t.y, step)),
            tile: t.tile,
        };
        let ghost before = tiles@;
        tiles.set(k, moved);
        proof {
            let done = tiles@.take(k as int);
            let next = tiles@.take(k + 1);
            assert(done =~= before.take(k as int));
            assert(tile_heights(next).drop_last() =~= tile_heights(done));
            assert(tile_heights(next).last() == moved.y);
            if first_row_gone(done) {
                let w = choose|w: int| 0 <= w < done.len() && done[w].y < MAP_BOTTOM && (#[trigger] done[w]).tile.y == 0;
                assert(next[w] == done[w]);
            }
            if first_row_gone(next) && !(moved.y < MAP_BOTTOM && moved.tile.y == 0) {
                let w = choose|w: int| 0 <= w < next.len() && next[w].y < MAP_BOTTOM && (#[trigger] next[w]).tile.y == 0;
                assert(done[w] == next[w]);
            }
            if moved.y < MAP_BOTTOM && moved.tile.y == 0 {
                assert(next[k as int] == moved);
            }
        }
        if moved.y > top {
            top = moved.y;
        }
        if moved.y < MAP_BOTTOM && moved.tile.y == 0 {
            at_bottom = true;
        }
        tiles_gone.push(moved.y < MAP_BOTTOM);
        k = k + 1;
    }
    proof {
        assert(tiles@.take(tiles.len() as int) =~= tiles@);
        assert(logs@ =~= old_logs.map_values(|p: Position| log_after(p, step as int)));
        assert(tiles@ =~= old_tiles.map_values(|t: PlacedTile| tile_after(t, step as int)));
        assert(logs_gone@ =~= logs@.map_values(|p: Position| p.y < MAP_BOTTOM));
        assert(tiles_gone@ =~= tiles@.map_values(|t: PlacedTile| t.y < MAP_BOTTOM));
    }

    let new_tiles = if at_bottom || top < MAP_TOP {
        let offset_y: i64 = coord_add(snap_to_pixel(top), MAP_TILE_SIZE);
        tracker.distance_moved = 0;
        lay_tiles(MAP_GRID_SIZE, MAP_GRID_SIZE, MAP_OFFSET_X, MAP_TILE_SIZE, offset_y, 0)
    } else {
        Vec::new()
    };
    MapStep { logs_gone, tiles_gone, new_tiles }
}

/// Paces the logs.
pub struct SpawnTimer(pub Timer);

/// Speed of an object that moves by itself, in pixels per second.
pub const TILE_SPEED: u32 = 50;

/// A log that is to appear.
#[derive(Clone, Copy, Debug, PartialEq, Eq, Structural)]
pub struct LogSpawn {
    pub x: i64,
    pub y: i64,
    pub layer: i32,
}

/// The first block of tiles: columns from `MAP_OFFSET_X` to the right, the
/// tiles of a column from height zero upwards.
pub fn setup_grid() -> (tiles: Vec<PlacedTile>)
    ensures
        tiles@ == tile_block(
            MAP_GRID_SIZE as int,
            MAP_GRID_SIZE as int,
            MAP_OFFSET_X as int,
            MAP_TILE_SIZE as int,
            0,
            MAP_TILE_SIZE as int,
        ),
{
    lay_tiles(MAP_GRID_SIZE, MAP_GRID_SIZE, MAP_OFFSET_X, MAP_TILE_SIZE, 0, MAP_TILE_SIZE)
}

/// The log that appears each time the spawn timer runs out.
pub open spec fn new_log() -> LogSpawn {
    LogSpawn { x: 0, y: LOG_START_Y, layer: LOG_LAYER }
}

/// The log that appears when the spawn timer has run out, if it has.
pub fn log_when(finished: bool) -> (log: Option<LogSpawn>)
    ensures
        log == if finished { Some(new_log()) } else { None },
{
    if finished {
        Some(LogSpawn { x: 0, y: LOG_START_Y, layer: LOG_LAYER })
    } else {
        None
    }
}

/// Advances the spawn timer by `delta` and returns the log that appears if
/// the timer has just run out.
pub fn spawn_log(timer: &mut SpawnTimer, delta: Duration) -> (log: Option<LogSpawn>)
    ensures
        final(timer).0 == ticked(old(timer).0, delta),
        log == if rings(ticked(old(timer).0, delta)) {
            Some(new_log())
        } else {
            None
        },
{
    tick(&mut timer.0, delta);
    log_when(just_finished(&timer.0))
}

/// Scale of the outer camera for a window of `width` by `height` pixels:
/// one over the number of whole canvases that fit, zoomed in by six fifths.
pub fn fit_canvas(width: u32, height: u32) -> (scale: Scale)
    ensures
        scale.numerator == 5,
        scale.denominator == 6 * canvas_fit(
            width as int,
            height as int,
            RES_WIDTH as int,
            RES_HEIGHT as int,
        ),
{
    let across: u32 = width / RES_WIDTH;
    let down: u32 = height / RES_HEIGHT;
    let fit: u32 = if across < down { across } else { down };
    let fit: u32 = if fit < 1 { 1 } else { fit };
    Scale { numerator: 5, denominator: 6 * fit }
}

} // verus!
