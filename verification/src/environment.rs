//! Cacti and trees beside the road: chance decides where they stand, the
//! rules decide on which rows and within which bounds.

use vstd::prelude::*;
use rand::rngs::ThreadRng;
use crate::random::{gen_range, gen_ratio, thread_rng};
use crate::units::{
    clamp_coord, half, highest_or, rows_below, coord_add, coord_affine_down, coord_half,
    coord_neg, coord_times, highest_or_else, rows,
};
use crate::world_grid::{GridConfig, below_threshold, remove_old, window_height};

verus! {

/// Least distance of an object from the middle of the road: 60 pixels.
pub const MIN_OFFSET: i64 = 60_000_000_000;

/// The distance from the middle of the road that no object reaches: 100
/// pixels.
pub const MAX_OFFSET: i64 = 100_000_000_000;

/// Height that counts as the highest when there is no object yet: 1000
/// pixels under the centre.
pub const EMPTY_HEIGHT: i64 = -1000_000_000_000;

/// Side of the road.
#[derive(Clone, Copy, Debug, PartialEq, Eq, Structural)]
pub enum Side {
    Left,
    Right,
}

/// Marks a cactus or tree with the side of the road it stands on.
#[derive(Clone, Copy, Debug, PartialEq, Eq, Structural)]
pub struct EnvironmentObject {
    pub side: Side,
}

/// What chance decided for an object: how far from the middle of the road
/// it stands, and whether it is a cactus or a tree.
#[derive(Clone, Copy, Debug, PartialEq, Eq, Structural)]
pub struct Draw {
    pub offset: i64,
    pub is_cactus: bool,
}

/// What chance decided for a row: an object or none on either side.
#[derive(Clone, Copy, Debug, PartialEq, Eq)]
pub struct RowDraw {
    pub left: Option<Draw>,
    pub right: Option<Draw>,
}

/// An object that is to appear: its centre, the edge of its square, and
/// what it is.
#[derive(Clone, Copy, Debug, PartialEq, Eq, Structural)]
pub struct EnvironmentSpawn {
    pub x: i64,
    pub y: i64,
    pub size: i64,
    pub object: EnvironmentObject,
    pub is_cactus: bool,
}

/// An object that is to appear at this place, of this size and kind.
pub fn spawn_environment_object(x: i64, y: i64, size: i64, side: Side, is_cactus: bool) -> (spawn:
    EnvironmentSpawn)
    ensures
        spawn == (EnvironmentSpawn { x, y, size, object: EnvironmentObject { side }, is_cactus }),
{
    EnvironmentSpawn { x, y, size, object: EnvironmentObject { side }, is_cactus }
}

/// The objects of the row at height `y`: the left one, if any, as far left
/// of the middle as its draw says, then the right one, if any, as far
/// right.
pub open spec fn row_objects(y: i64, size: i64, draw: RowDraw) -> Seq<EnvironmentSpawn> {
    let left = match draw.left {
        Some(d) => seq![
            EnvironmentSpawn {
                x: clamp_coord(-d.offset) as i64,
                y,
                size,
                object: EnvironmentObject { side: Side::Left },
                is_cactus: d.is_cactus,
            },
        ],
        None => Seq::empty(),
    };
    let right = match draw.right {
        Some(d) => seq![
            EnvironmentSpawn {
                x: d.offset,
                y,
                size,
                object: EnvironmentObject { side: Side::Right },
                is_cactus: d.is_cactus,
            },
        ],
        None => Seq::empty(),
    };
    left + right
}

/// The objects of all `rows`, row after row, as `draws` decides for each.
pub open spec fn scenery(rows: Seq<i64>, size: i64, draws: Seq<RowDraw>) -> Seq<EnvironmentSpawn>
    decreases rows.len(),
{
    if rows.len() == 0 {
        Seq::empty()
    } else {
        scenery(rows.drop_last(), size, draws.drop_last()) + row_objects(
            rows.last(),
            size,
            draws.last(),
        )
    }
}

/// Places the objects that `draws` decides for `rows`, row after row.
pub fn plant_rows(rows: &Vec<i64>, size: i64, draws: &Vec<RowDraw>) -> (spawns: Vec<EnvironmentSpawn>)
    requires
        draws@.len() == rows@.len(),
    ensures
        spawns@ == scenery(rows@, size, draws@),
{
    let mut spawns: Vec<EnvironmentSpawn> = Vec::new();
    let mut i: usize = 0;
    while i < rows.len()
        invariant
            i <= rows.len(),
            draws@.len() == rows@.len(),
            spawns@ == scenery(rows@.take(i as int), size, draws@.take(i as int)),
        decreases rows.len() - i,
    {
        proof {
            assert(rows@.take(i + 1).drop_last() =~= rows@.take(i as int));
            assert(draws@.take(i + 1).drop_last() =~= draws@.take(i as int));
        }
        let ghost so_far = spawns@;
        let y: i64 = rows[i];
        let draw: RowDraw = draws[i];
        match draw.left {
            Some(d) => {
                spawns.push(spawn_environment_object(coord_neg(d.offset), y, size, Side::Left, d.is_cactus));
            },
            None => {},
        }
        match draw.right {
            Some(d) => {
                spawns.push(spawn_environment_object(d.offset, y, size, Side::Right, d.is_cactus));
            },
            None => {},
        }
        assert(spawns@ =~= so_far + row_objects(y, size, draw));
        i = i + 1;
    }
    proof {
        assert(rows@.take(rows.len() as int) =~= rows@);
        assert(draws@.take(rows.len() as int) =~= draws@);
    }
    spawns
}

/// Whether a draw keeps its object within the bounds beside the road.
pub open spec fn valid_draw(d: Option<Draw>) -> bool {
    d matches Some(d) ==> MIN_OFFSET <= d.offset < MAX_OFFSET
}

/// Whether all draws keep their objects within the bounds.
pub open spec fn valid_draws(draws: Seq<RowDraw>) -> bool {
    forall|i: int|
        0 <= i < draws.len() ==> valid_draw((#[trigger] draws[i]).left) && valid_draw(draws[i].right)
}

/// Whether an object stands on a row of `rows`, is `size` large, and keeps
/// its distance from the road on its side.
pub open spec fn well_placed(spawn: EnvironmentSpawn, rows: Seq<i64>, size: i64) -> bool {
    &&& rows.contains(spawn.y)
    &&& spawn.size == size
    &&& match spawn.object.side {
        Side::Left => -MAX_OFFSET < spawn.x <= -MIN_OFFSET,
        Side::Right => MIN_OFFSET <= spawn.x < MAX_OFFSET,
    }
}

/// Whatever chance decides within the bounds, every object is well placed.
pub proof fn lemma_scenery_well_placed(rows: Seq<i64>, size: i64, draws: Seq<RowDraw>)
    requires
        draws.len() == rows.len(),
        valid_draws(draws),
    ensures
        forall|i: int|
            0 <= i < scenery(rows, size, draws).len() ==> well_placed(
                #[trigger] scenery(rows, size, draws)[i],
                rows,
                size,
            ),
    decreases rows.len(),
{
    if rows.len() > 0 {
        let front_rows = rows.drop_last();
        let front_draws = draws.drop_last();
        let front = scenery(front_rows, size, front_draws);
        let last = row_objects(rows.last(), size, draws.last());
        assert forall|k: int| 0 <= k < front_draws.len() implies valid_draw(
            (#[trigger] front_draws[k]).left,
        ) && valid_draw(front_draws[k].right) by {
            assert(front_draws[k] == draws[k]);
        }
        lemma_scenery_well_placed(front_rows, size, front_draws);
        let d = draws[draws.len() - 1];
        assert(valid_draw(d.left) && valid_draw(d.right));
        assert(rows[rows.len() - 1] == rows.last());
        assert forall|i: int| 0 <= i < scenery(rows, size, draws).len() implies well_placed(
            #[trigger] scenery(rows, size, draws)[i],
            rows,
            size,
        ) by {
            let all = scenery(rows, size, draws);
            if i < front.len() {
                assert(all[i] == front[i]);
                assert(well_placed(front[i], front_rows, size));
                let j = choose|j: int| 0 <= j < front_rows.len() && front_rows[j] == front[i].y;
                assert(rows[j] == front[i].y);
            } else {
                assert(all[i] == last[i - front.len()]);
            }
        }
    }
}

/// Lets chance decide on one side of one row: with 3 chances in 20 there
/// is an object, at any distance within the bounds, a cactus or a tree with
/// even chances.
pub fn draw_side(rng: &mut ThreadRng) -> (draw: Option<Draw>)
    ensures
        valid_draw(draw),
{
    if gen_ratio(rng, 3, 20) {
        let offset: i64 = gen_range(rng, MIN_OFFSET, MAX_OFFSET);
        let is_cactus: bool = gen_ratio(rng, 1, 2);
        Some(Draw { offset, is_cactus })
    } else {
        None
    }
}

/// Lets chance decide on `count` rows, the left side of each before the
/// right.
pub fn draw_rows(rng: &mut ThreadRng, count: usize) -> (draws: Vec<RowDraw>)
    ensures
        draws@.len() == count,
        valid_draws(draws@),
{
    let mut draws: Vec<RowDraw> = Vec::new();
    let mut i: usize = 0;
    while i < count
        invariant
            i <= count,
            draws@.len() == i,
            valid_draws(draws@),
        decreases count - i,
    {
        let left = draw_side(rng);
        let right = draw_side(rng);
        draws.push(RowDraw { left, right });
        i = i + 1;
    }
    draws
}

/// Heights of the rows of a new game, from the top down: the middle of
/// each row of the grid.
pub open spec fn setup_rows(c: GridConfig) -> Seq<i64> {
    Seq::new(
        c.grid_height as nat,
        |i: int| clamp_coord(half(window_height(c)) - half(c.tile_size as int) - i * c.tile_size) as i64,
    )
}

/// The objects of a new game. Chance decides for each row of the grid and
/// each side of the road whether an object stands there; every object is
/// one tile large.
pub fn setup_environment(grid_config: &GridConfig) -> (spawns: Vec<EnvironmentSpawn>)
    ensures
        exists|draws: Seq<RowDraw>|
            #[trigger] valid_draws(draws) && draws.len() == grid_config.grid_height && spawns@
                == scenery(setup_rows(*grid_config), grid_config.tile_size, draws),
{
    let tile_size: i64 = grid_config.tile_size;
    let total_height: i64 = coord_times(grid_config.grid_height, tile_size);
    let start_y: i64 = coord_half(total_height) - coord_half(tile_size);
    let mut rows: Vec<i64> = Vec::new();
    let mut y: u32 = 0;
    while y < grid_config.grid_height
        invariant
            y <= grid_config.grid_height,
            tile_size == grid_config.tile_size,
            start_y == half(window_height(*grid_config)) - half(tile_size as int),
            rows@.len() == y,
            forall|j: int| 0 <= j < y ==> rows@[j] == clamp_coord(start_y - j * tile_size),
        decreases grid_config.grid_height - y,
    {
        rows.push(coord_affine_down(start_y, y, tile_size));
        y = y + 1;
    }
    assert(rows@ =~= setup_rows(*grid_config));
    let mut rng = thread_rng();
    let draws = draw_rows(&mut rng, rows.len());
    plant_rows(&rows, tile_size, &draws)
}

/// Whether there is room for new objects above the highest one: it is
/// below the upper edge of the grid. Without any object there is room.
pub open spec fn environment_due(ys: Seq<i64>, c: GridConfig) -> bool {
    highest_or(EMPTY_HEIGHT as int, ys) < half(window_height(c))
}

/// Heights of the rows that are filled when there is room: one tile apart,
/// from one tile above the highest object to one tile above the upper edge
/// of the grid.
pub open spec fn update_rows(ys: Seq<i64>, c: GridConfig) -> Seq<i64> {
    rows_below(
        clamp_coord(highest_or(EMPTY_HEIGHT as int, ys) + c.tile_size),
        c.tile_size as int,
        clamp_coord(half(window_height(c)) + c.tile_size),
    )
}

/// Whether rows are filled: there is room, and the first new row is below
/// the height up to which rows are filled.
pub open spec fn environment_extends(ys: Seq<i64>, c: GridConfig) -> bool {
    environment_due(ys, c) && clamp_coord(highest_or(EMPTY_HEIGHT as int, ys) + c.tile_size)
        < clamp_coord(half(window_height(c)) + c.tile_size)
}

/// Whether rows are filled this frame.
pub fn extends_environment(grid_config: &GridConfig, object_ys: &Vec<i64>) -> (extends: bool)
    ensures
        extends == environment_extends(object_ys@, *grid_config),
{
    let tile_size: i64 = grid_config.tile_size;
    let max_height: i64 = coord_half(coord_times(grid_config.grid_height, tile_size));
    let highest_y: i64 = highest_or_else(EMPTY_HEIGHT, object_ys);
    highest_y < max_height && coord_add(highest_y, tile_size) < coord_add(max_height, tile_size)
}

/// The objects that are to appear this frame, given the heights of the
/// objects that exist. When there is room, chance decides for each new row
/// and each side of the road whether an object stands there; otherwise
/// nothing appears. Where rows are filled, the tiles must have a size above
/// zero: there would be no end of rows else.
pub fn update_environment(grid_config: &GridConfig, object_ys: &Vec<i64>) -> (spawns: Vec<
    EnvironmentSpawn,
>)
    requires
        environment_extends(object_ys@, *grid_config) ==> grid_config.tile_size > 0,
    ensures
        !environment_due(object_ys@, *grid_config) ==> spawns@.len() == 0,
        environment_due(object_ys@, *grid_config) ==> exists|draws: Seq<RowDraw>|
            #[trigger] valid_draws(draws) && draws.len() == update_rows(
                object_ys@,
                *grid_config,
            ).len() && spawns@ == scenery(
                update_rows(object_ys@, *grid_config),
                grid_config.tile_size,
                draws,
            ),
{
    let tile_size: i64 = grid_config.tile_size;
    let max_height: i64 = coord_half(coord_times(grid_config.grid_height, tile_size));
    let highest_y: i64 = highest_or_else(EMPTY_HEIGHT, object_ys);
    if highest_y < max_height {
        let rows = rows(coord_add(highest_y, tile_size), tile_size, coord_add(max_height, tile_size));
        let mut rng = thread_rng();
        let draws = draw_rows(&mut rng, rows.len());
        plant_rows(&rows, tile_size, &draws)
    } else {
        Vec::new()
    }
}

/// Marks the objects that are to be removed: those below the despawn
/// threshold.
pub fn remove_old_environment(object_ys: &Vec<i64>, grid_config: &GridConfig) -> (gone: Vec<bool>)
    ensures
        gone@ == below_threshold(object_ys@, *grid_config),
{
    remove_old(object_ys, grid_config)
}

} // verus!
