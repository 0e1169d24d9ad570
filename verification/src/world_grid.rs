//! The scrolling world: its dimensions, how far it has moved, and what
//! becomes of the objects that ride on it.

use vstd::prelude::*;
use crate::units::{
    PIXEL, clamp_coord, half, pixel_floor, travel, coord_add, coord_affine, coord_affine_down,
    coord_half, coord_neg, coord_sub, coord_times, distance, snap_to_pixel,
};
use crate::clock::{rings, ticked, tick, just_finished};
use bevy::time::Timer;
use core::time::Duration;

verus! {

/// Layer of the background tiles, the lowest of the drawing layers.
pub const GRID_Z: i32 = 0;

/// Layer of the road.
pub const ROAD_Z: i32 = 1;

/// Layer of the cacti and trees.
pub const ENVIRONMENT_Z: i32 = 2;

/// Layer of the logs.
pub const LOG_Z: i32 = 3;

/// Layer of the player.
pub const PLAYER_Z: i32 = 4;

/// Layer of the debug overlay, above everything else.
pub const DEBUG_GRID_Z: i32 = 5;

/// Width of the grid, in tiles.
pub const GRID_SIZE_X: u32 = 15;

/// Height of the grid, in tiles.
pub const GRID_SIZE_Y: u32 = 15;

/// Edge of a tile: 32 pixels.
pub const TILE_SIZE: i64 = 32_000_000_000;

/// Lower edge of the screen: 320 pixels below the centre.
pub const SCREEN_BOTTOM: i64 = -320_000_000_000;

/// Scroll speed of a new game, in pixels per second.
pub const START_SCROLL_SPEED: u32 = 35;

/// What the scroll speed gains each time its timer runs out.
pub const SCROLL_SPEED_STEP: u32 = 10;

/// Longest frame time that moves the grid: a sixtieth of a second.
pub const MAX_FRAME_NANOS: u64 = 16_666_667;

/// Whether the debug overlay is shown.
#[derive(Clone, Copy, Debug, PartialEq, Eq, Structural)]
pub struct GridDebugConfig {
    pub show_grid: bool,
}

/// Measures and state of the grid.
#[derive(Clone, Copy, Debug, PartialEq, Eq, Structural)]
pub struct GridConfig {
    /// Edge of a tile, in world units.
    pub tile_size: i64,
    pub grid_width: u32,
    pub grid_height: u32,
    /// Pixels per second.
    pub scroll_speed: u32,
    /// World units scrolled since the counter was last reset.
    pub distance_moved: i64,
    /// The distance at which the counter is reset.
    pub spawn_threshold: i64,
}

/// A point of the world.
#[derive(Clone, Copy, Debug, PartialEq, Eq, Structural)]
pub struct Position {
    pub x: i64,
    pub y: i64,
}

/// The configuration a game starts with: a grid of 15 by 15 tiles of 32
/// pixels that scrolls at 35 pixels per second, and the overlay switched on.
pub fn setup_world_grid() -> (r: (GridConfig, GridDebugConfig))
    ensures
        r.0 == (GridConfig {
            tile_size: TILE_SIZE,
            grid_width: GRID_SIZE_X,
            grid_height: GRID_SIZE_Y,
            scroll_speed: START_SCROLL_SPEED,
            distance_moved: 0,
            spawn_threshold: 320_000_000_000,
        }),
        r.1 == (GridDebugConfig { show_grid: true }),
{
    (
        GridConfig {
            tile_size: TILE_SIZE,
            grid_width: GRID_SIZE_X,
            grid_height: GRID_SIZE_Y,
            scroll_speed: START_SCROLL_SPEED,
            distance_moved: 0,
            spawn_threshold: TILE_SIZE * 10,
        },
        GridDebugConfig { show_grid: true },
    )
}

/// Paces the rise of the scroll speed.
pub struct ScrollSpeedTimer(pub Timer);

/// The frame time that moves the grid: `delta_nanos`, but no more than
/// `MAX_FRAME_NANOS`.
pub open spec fn frame_nanos(delta_nanos: int) -> int {
    if delta_nanos < MAX_FRAME_NANOS { delta_nanos } else { MAX_FRAME_NANOS as int }
}

/// Where an object at `p` stands after the grid has moved down by
/// `movement`: its height lowered, and both coordinates on whole pixels.
pub open spec fn scrolled(p: Position, movement: int) -> Position {
    Position {
        x: pixel_floor(p.x as int) as i64,
        y: pixel_floor(clamp_coord(p.y - movement)) as i64,
    }
}

/// Moves every object of the grid by one frame.
///
/// The grid moves down by the distance covered at the scroll speed in the
/// frame time, which counts for at most a sixtieth of a second. The distance
/// is added to `distance_moved`; every object sinks by it and settles on
/// whole pixels.
pub fn move_grid_objects(delta_nanos: u64, grid_config: &mut GridConfig, objects: &mut Vec<Position>)
    ensures
        *final(grid_config) == (GridConfig {
            distance_moved: clamp_coord(
                old(grid_config).distance_moved + travel(
                    old(grid_config).scroll_speed as int,
                    frame_nanos(delta_nanos as int),
                ),
            ) as i64,
            ..*old(grid_config)
        }),
        final(objects)@ == old(objects)@.map_values(
            |p: Position|
                scrolled(
                    p,
                    travel(old(grid_config).scroll_speed as int, frame_nanos(delta_nanos as int)),
                ),
        ),
{
    let frame: u64 = if delta_nanos < MAX_FRAME_NANOS { delta_nanos } else { MAX_FRAME_NANOS };
    let movement: i64 = distance(grid_config.scroll_speed, frame);
    grid_config.distance_moved = coord_add(grid_config.distance_moved, movement);
    let ghost before = objects@;
    let mut i: usize = 0;
    while i < objects.len()
        invariant
            i <= objects.len(),
            objects@.len() == before.len(),
            forall|j: int| 0 <= j < i ==> objects@[j] == scrolled(before[j], movement as int),
            forall|j: int| i <= j < objects@.len() ==> objects@[j] == before[j],
        decreases objects.len() - i,
    {
        let p: Position = objects[i];
        objects.set(i, Position { x: snap_to_pixel(p.x), y: snap_to_pixel(coord_sub(p.y, movement)) });
        i = i + 1;
    }
    assert(objects@ =~= before.map_values(|p: Position| scrolled(p, movement as int)));
}

/// What the check of the lower screen edge decides.
#[derive(Clone, Debug)]
pub struct OffscreenCheck {
    /// For each object, whether it is below the screen and is to be removed.
    pub gone: Vec<bool>,
    /// Whether enough distance has been covered for new objects at the top.
    pub spawn_due: bool,
}

/// Whether any of the heights is below the screen.
pub open spec fn any_below_screen(ys: Seq<i64>) -> bool {
    exists|i: int| 0 <= i < ys.len() && #[trigger] ys[i] < SCREEN_BOTTOM
}

/// `distance_moved` after a check in which something left the screen: one
/// tile more.
pub open spec fn distance_after_removal(c: GridConfig) -> int {
    clamp_coord(c.distance_moved + TILE_SIZE)
}

/// Marks the objects below `SCREEN_BOTTOM` for removal.
///
/// When there is at least one, `distance_moved` grows by a tile; when it
/// has then reached `spawn_threshold` it starts again from zero and new
/// objects are due.
pub fn check_offscreen_objects(ys: &Vec<i64>, grid_config: &mut GridConfig) -> (out: OffscreenCheck)
    ensures
        out.gone@ == ys@.map_values(|y: i64| y < SCREEN_BOTTOM),
        out.spawn_due == (any_below_screen(ys@) && distance_after_removal(*old(grid_config))
            >= old(grid_config).spawn_threshold),
        *final(grid_config) == (GridConfig {
            distance_moved: if !any_below_screen(ys@) {
                old(grid_config).distance_moved
            } else if out.spawn_due {
                0
            } else {
                distance_after_removal(*old(grid_config)) as i64
            },
            ..*old(grid_config)
        }),
{
    let mut gone: Vec<bool> = Vec::new();
    let mut should_spawn_new: bool = false;
    let mut i: usize = 0;
    while i < ys.len()
        invariant
            i <= ys.len(),
            gone@.len() == i,
            forall|j: int| 0 <= j < i ==> gone@[j] == (ys@[j] < SCREEN_BOTTOM),
            should_spawn_new == any_below_screen(ys@.take(i as int)),
        decreases ys.len() - i,
    {
        proof {
            let done = ys@.take(i as int);
            let next = ys@.take(i + 1);
            if any_below_screen(done) {
                let w = choose|w: int| 0 <= w < done.len() && #[trigger] done[w] < SCREEN_BOTTOM;
                assert(next[w] < SCREEN_BOTTOM);
            }
            if any_below_screen(next) && !(ys@[i as int] < SCREEN_BOTTOM) {
                let w = choose|w: int| 0 <= w < next.len() && #[trigger] next[w] < SCREEN_BOTTOM;
                assert(done[w] < SCREEN_BOTTOM);
            }
            if ys@[i as int] < SCREEN_BOTTOM {
                assert(next[i as int] < SCREEN_BOTTOM);
            }
        }
        if ys[i] < SCREEN_BOTTOM {
            should_spawn_new = true;
        }
        gone.push(ys[i] < SCREEN_BOTTOM);
        i = i + 1;
    }
    assert(ys@.take(ys.len() as int) =~= ys@);
    assert(gone@ =~= ys@.map_values(|y: i64| y < SCREEN_BOTTOM));
    let mut spawn_due: bool = false;
    if should_spawn_new {
        grid_config.distance_moved = coord_add(grid_config.distance_moved, TILE_SIZE);
        if grid_config.distance_moved >= grid_config.spawn_threshold {
            grid_config.distance_moved = 0;
            spawn_due = true;
        }
    }
    OffscreenCheck { gone, spawn_due }
}

/// Switches the debug overlay when the key for it has just been pressed.
/// The result tells whether it was switched; the overlay that is on screen
/// is then to be cleared.
pub fn toggle_grid_debug(key_pressed: bool, grid_debug: &mut GridDebugConfig) -> (toggled: bool)
    ensures
        toggled == key_pressed,
        final(grid_debug).show_grid == (old(grid_debug).show_grid != key_pressed),
{
    if key_pressed {
        grid_debug.show_grid = !grid_debug.show_grid;
    }
    key_pressed
}

/// The scroll speed after its timer has run out: `SCROLL_SPEED_STEP` more,
/// up to the greatest speed there is.
pub open spec fn raised_speed(speed: u32) -> u32 {
    if speed + SCROLL_SPEED_STEP > u32::MAX {
        u32::MAX
    } else {
        (speed + SCROLL_SPEED_STEP) as u32
    }
}

/// Raises the scroll speed if its timer has run out.
pub fn raise_scroll_speed(finished: bool, grid_config: &mut GridConfig)
    ensures
        *final(grid_config) == (GridConfig {
            scroll_speed: if finished {
                raised_speed(old(grid_config).scroll_speed)
            } else {
                old(grid_config).scroll_speed
            },
            ..*old(grid_config)
        }),
{
    if finished {
        grid_config.scroll_speed = grid_config.scroll_speed.saturating_add(SCROLL_SPEED_STEP);
    }
}

/// Advances the scroll speed timer by `delta` and raises the scroll speed
/// if the timer has just run out. The result tells whether it was raised.
pub fn increase_scroll_speed(
    delta: Duration,
    score_timer: &mut ScrollSpeedTimer,
    grid_config: &mut GridConfig,
) -> (raised: bool)
    ensures
        final(score_timer).0 == ticked(old(score_timer).0, delta),
        raised == rings(ticked(old(score_timer).0, delta)),
        *final(grid_config) == (GridConfig {
            scroll_speed: if raised {
                raised_speed(old(grid_config).scroll_speed)
            } else {
                old(grid_config).scroll_speed
            },
            ..*old(grid_config)
        }),
{
    tick(&mut score_timer.0, delta);
    let finished = just_finished(&score_timer.0);
    raise_scroll_speed(finished, grid_config);
    finished
}

/// A rectangle of the debug overlay: its centre and its size.
#[derive(Clone, Copy, Debug, PartialEq, Eq, Structural)]
pub struct OverlaySprite {
    pub x: i64,
    pub y: i64,
    pub width: i64,
    pub height: i64,
}

/// Width of the grid, in world units.
pub open spec fn window_width(c: GridConfig) -> int {
    clamp_coord(c.grid_width * c.tile_size)
}

/// Height of the grid, in world units.
pub open spec fn window_height(c: GridConfig) -> int {
    clamp_coord(c.grid_height * c.tile_size)
}

/// Left edge of the grid.
pub open spec fn grid_left(c: GridConfig) -> int {
    clamp_coord(-half(window_width(c)))
}

/// Upper edge of the grid.
pub open spec fn grid_top(c: GridConfig) -> int {
    half(window_height(c))
}

/// The vertical line with number `i`, counted from the left edge: one pixel
/// wide, as high as the grid, `i` tiles right of the left edge.
pub open spec fn vertical_line(c: GridConfig, i: int) -> OverlaySprite {
    OverlaySprite {
        x: clamp_coord(grid_left(c) + i * c.tile_size) as i64,
        y: clamp_coord(grid_top(c) - half(window_height(c))) as i64,
        width: PIXEL,
        height: window_height(c) as i64,
    }
}

/// The horizontal line with number `i`, counted from the upper edge: one
/// pixel high, as wide as the grid, `i` tiles under the upper edge.
pub open spec fn horizontal_line(c: GridConfig, i: int) -> OverlaySprite {
    OverlaySprite {
        x: clamp_coord(grid_left(c) + half(window_width(c))) as i64,
        y: clamp_coord(grid_top(c) - i * c.tile_size) as i64,
        width: window_width(c) as i64,
        height: PIXEL,
    }
}

/// The lines of the grid: the vertical ones from left to right, then the
/// horizontal ones from the top down, one more of each than there are tiles.
pub open spec fn grid_lines(c: GridConfig) -> Seq<OverlaySprite> {
    Seq::new((c.grid_width + 1) as nat, |i: int| vertical_line(c, i)) + Seq::new(
        (c.grid_height + 1) as nat,
        |i: int| horizontal_line(c, i),
    )
}

/// The lines of the grid as sprites of the debug overlay.
pub fn draw_grid_lines(grid_config: &GridConfig) -> (lines: Vec<OverlaySprite>)
    ensures
        lines@ == grid_lines(*grid_config),
{
    let width: i64 = coord_times(grid_config.grid_width, grid_config.tile_size);
    let height: i64 = coord_times(grid_config.grid_height, grid_config.tile_size);
    let start_x: i64 = coord_neg(coord_half(width));
    let start_y: i64 = coord_half(height);
    let middle_x: i64 = coord_add(start_x, coord_half(width));
    let middle_y: i64 = coord_sub(start_y, coord_half(height));
    let ghost c = *grid_config;

    let mut lines: Vec<OverlaySprite> = Vec::new();
    let mut i: u32 = 0;
    loop
        invariant_except_break
            i <= c.grid_width,
            lines@.len() == i,
        invariant
            c == *grid_config,
            start_x == grid_left(c),
            middle_y == clamp_coord(grid_top(c) - half(window_height(c))),
            height == window_height(c),
            forall|j: int| 0 <= j < lines@.len() ==> lines@[j] == vertical_line(c, j),
        ensures
            lines@.len() == c.grid_width + 1,
        decreases c.grid_width - i,
    {
        lines.push(
            OverlaySprite {
                x: coord_affine(start_x, i, grid_config.tile_size),
                y: middle_y,
                width: PIXEL,
                height,
            },
        );
        if i == grid_config.grid_width {
            break ;
        }
        i = i + 1;
    }
    let ghost columns = lines@;
    let mut k: u32 = 0;
    loop
        invariant_except_break
            k <= c.grid_height,
            lines@.len() == columns.len() + k,
        invariant
            c == *grid_config,
            start_y == grid_top(c),
            middle_x == clamp_coord(grid_left(c) + half(window_width(c))),
            width == window_width(c),
            columns.len() == c.grid_width + 1,
            forall|j: int| 0 <= j < columns.len() ==> lines@[j] == columns[j],
            forall|j: int|
                columns.len() <= j < lines@.len() ==> lines@[j] == horizontal_line(
                    c,
                    j - columns.len(),
                ),
        ensures
            lines@.len() == columns.len() + c.grid_height + 1,
        decreases c.grid_height - k,
    {
        lines.push(
            OverlaySprite {
                x: middle_x,
                y: coord_affine_down(start_y, k, grid_config.tile_size),
                width,
                height: PIXEL,
            },
        );
        if k == grid_config.grid_height {
            break ;
        }
        k = k + 1;
    }
    assert(lines@ =~= grid_lines(c));
    lines
}

/// The highlight of the object at `p`: a square of one tile on its place.
pub open spec fn highlight(p: Position) -> OverlaySprite {
    OverlaySprite { x: p.x, y: p.y, width: TILE_SIZE, height: TILE_SIZE }
}

/// The sprites of the debug overlay.
#[derive(Clone, Debug)]
pub struct GridVisualization {
    /// A highlight on every object of the grid.
    pub highlights: Vec<OverlaySprite>,
    /// The lines of the grid.
    pub lines: Vec<OverlaySprite>,
}

/// The highlights of `objects`, in their order.
pub open spec fn highlights(objects: Seq<Position>) -> Seq<OverlaySprite> {
    objects.map_values(|p: Position| highlight(p))
}

/// The sprites of the debug overlay for these objects and this grid.
pub fn update_grid_visualization(objects: &Vec<Position>, grid_config: &GridConfig) -> (overlay:
    GridVisualization)
    ensures
        overlay.highlights@ == highlights(objects@),
        overlay.lines@ == grid_lines(*grid_config),
{
    let mut marks: Vec<OverlaySprite> = Vec::new();
    let mut i: usize = 0;
    while i < objects.len()
        invariant
            i <= objects.len(),
            marks@.len() == i,
            forall|j: int| 0 <= j < i ==> marks@[j] == highlight(objects@[j]),
        decreases objects.len() - i,
    {
        let p: Position = objects[i];
        marks.push(OverlaySprite { x: p.x, y: p.y, width: TILE_SIZE, height: TILE_SIZE });
        i = i + 1;
    }
    assert(marks@ =~= highlights(objects@));
    GridVisualization { highlights: marks, lines: draw_grid_lines(grid_config) }
}

/// What is to be done with the debug overlay.
#[derive(Clone, Debug)]
pub enum OverlayChange {
    /// The overlay is as it should be.
    Keep,
    /// The overlay is to be drawn: these are its sprites.
    Show(GridVisualization),
    /// The overlay is to be removed.
    Hide,
}

/// Brings the debug overlay in line with `grid_debug`.
///
/// The overlay is drawn when it should be shown and nothing of it is on
/// screen: neither a highlight nor a line. It is removed when it should be
/// hidden and something of it is on screen.
pub fn update_debug_grid(
    grid_debug: &GridDebugConfig,
    highlights_shown: bool,
    lines_shown: bool,
    objects: &Vec<Position>,
    grid_config: &GridConfig,
) -> (change: OverlayChange)
    ensures
        match change {
            OverlayChange::Show(overlay) => grid_debug.show_grid && !highlights_shown
                && !lines_shown && overlay.highlights@ == highlights(objects@) && overlay.lines@
                == grid_lines(*grid_config),
            OverlayChange::Hide => !grid_debug.show_grid && (highlights_shown || lines_shown),
            OverlayChange::Keep => if grid_debug.show_grid {
                highlights_shown || lines_shown
            } else {
                !highlights_shown && !lines_shown
            },
        },
{
    if grid_debug.show_grid && !highlights_shown && !lines_shown {
        OverlayChange::Show(update_grid_visualization(objects, grid_config))
    } else if !grid_debug.show_grid && (highlights_shown || lines_shown) {
        OverlayChange::Hide
    } else {
        OverlayChange::Keep
    }
}

/// The height below which an object has long left the screen and is
/// removed: the height of the grid under the centre.
pub open spec fn despawn_threshold(c: GridConfig) -> int {
    clamp_coord(-(c.grid_height * c.tile_size))
}

/// For each height, whether it is below the despawn threshold.
pub open spec fn below_threshold(ys: Seq<i64>, c: GridConfig) -> Seq<bool> {
    ys.map_values(|y: i64| y < despawn_threshold(c))
}

/// Marks the heights below the despawn threshold.
pub fn remove_old(ys: &Vec<i64>, grid_config: &GridConfig) -> (gone: Vec<bool>)
    ensures
        gone@ == below_threshold(ys@, *grid_config),
{
    let threshold: i64 = coord_affine_down(0, grid_config.grid_height, grid_config.tile_size);
    let mut gone: Vec<bool> = Vec::new();
    let mut i: usize = 0;
    while i < ys.len()
        invariant
            i <= ys.len(),
            threshold == despawn_threshold(*grid_config),
            gone@.len() == i,
            forall|j: int| 0 <= j < i ==> gone@[j] == (ys@[j] < threshold),
        decreases ys.len() - i,
    {
        gone.push(ys[i] < threshold);
        i = i + 1;
    }
    assert(gone@ =~= below_threshold(ys@, *grid_config));
    gone
}

} // verus!
