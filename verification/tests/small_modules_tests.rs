use bevy::time::{Timer, TimerMode};
use endless_runner::character_spawn::{
    diagonal_step, move_character, setup_character, AnimationIndices, FRAME_NANOS, PLAYER_LAYER,
    PLAYER_SPEED,
};
use endless_runner::collision::Collider;
use endless_runner::log::{
    log_when, spawn_log, LogSpawn, SpawnTimer, LOG_BOX_HEIGHT, LOG_BOX_WIDTH, LOG_SIZE,
    LOG_START_Y,
};
use endless_runner::movement::{move_entities, Movable, MovingBody};
use endless_runner::tileset::{
    setupMap, SheetSprite, SHEET_COLUMNS, SHEET_ROWS, SHEET_SPACING, SHEET_SPRITE_SIZE,
};
use endless_runner::units::PIXEL;
use endless_runner::world_grid::Position;
use std::time::Duration;

fn the_log() -> LogSpawn {
    LogSpawn {
        x: 0,
        y: 250 * PIXEL,
        layer: 3,
        size: 32 * PIXEL,
        collider: Collider { width: 16 * PIXEL, height: 5 * PIXEL },
    }
}

#[test]
fn a_log_lies_in_the_middle_above_the_screen() {
    assert_eq!(LOG_START_Y, 250 * PIXEL);
    assert_eq!(LOG_SIZE, 32 * PIXEL);
    assert_eq!((LOG_BOX_WIDTH, LOG_BOX_HEIGHT), (16 * PIXEL, 5 * PIXEL));
    assert_eq!(log_when(true), Some(the_log()));
    assert_eq!(log_when(false), None);
}

#[test]
fn logs_appear_at_the_pace_of_the_timer() {
    let mut timer = SpawnTimer(Timer::new(Duration::from_secs(2), TimerMode::Repeating));
    assert_eq!(spawn_log(&mut timer, Duration::from_secs(1)), None);
    assert_eq!(spawn_log(&mut timer, Duration::from_secs(1)), Some(the_log()));
    assert_eq!(spawn_log(&mut timer, Duration::from_millis(1999)), None);
    assert_eq!(spawn_log(&mut timer, Duration::from_millis(1)), Some(the_log()));
    assert_eq!(spawn_log(&mut timer, Duration::ZERO), None);
}

#[test]
fn bodies_sink_at_their_own_speed() {
    let mut bodies = vec![
        MovingBody { y: 100 * PIXEL, movable: Movable { speed: 50 } },
        MovingBody { y: 0, movable: Movable { speed: 0 } },
        MovingBody { y: -7, movable: Movable { speed: 3 } },
        MovingBody { y: i64::MIN + 5, movable: Movable { speed: 1 } },
    ];
    move_entities(&mut bodies, 16_000_000);
    assert_eq!(
        bodies,
        vec![
            MovingBody { y: 100 * PIXEL - 800_000_000, movable: Movable { speed: 50 } },
            MovingBody { y: 0, movable: Movable { speed: 0 } },
            MovingBody { y: -48_000_007, movable: Movable { speed: 3 } },
            MovingBody { y: i64::MIN, movable: Movable { speed: 1 } },
        ]
    );
    let mut nothing: Vec<MovingBody> = Vec::new();
    move_entities(&mut nothing, 16_000_000);
    assert!(nothing.is_empty());
}

#[test]
fn the_sheet_is_shown_row_by_row() {
    assert_eq!((SHEET_COLUMNS, SHEET_ROWS, SHEET_SPRITE_SIZE), (4, 2, 32));
    assert_eq!(SHEET_SPACING, 40 * PIXEL);
    let sprites = setupMap();
    assert_eq!(sprites.len(), 8);
    assert_eq!(sprites[0], SheetSprite { index: 0, x: 0, y: 0 });
    assert_eq!(sprites[1], SheetSprite { index: 1, x: 40 * PIXEL, y: 0 });
    assert_eq!(sprites[3], SheetSprite { index: 3, x: 120 * PIXEL, y: 0 });
    assert_eq!(sprites[4], SheetSprite { index: 4, x: 0, y: -40 * PIXEL });
    assert_eq!(sprites[7], SheetSprite { index: 7, x: 120 * PIXEL, y: -40 * PIXEL });
}

#[test]
fn a_walking_player_starts_in_the_middle() {
    assert_eq!((PLAYER_SPEED, PLAYER_LAYER, FRAME_NANOS), (10, 2, 100_000_000));
    let setup = setup_character();
    assert_eq!(setup.animation_indices, AnimationIndices { first: 0, last: 5 });
    assert_eq!(setup.atlas_index, 0);
    assert_eq!(setup.position, Position { x: 0, y: 0 });
    assert_eq!(setup.layer, 2);
    assert_eq!(setup.timer.0.duration(), Duration::from_millis(100));
    assert_eq!(setup.timer.0.mode(), TimerMode::Repeating);
}

#[test]
fn a_diagonal_step_is_shared_by_the_root_of_two() {
    assert_eq!(diagonal_step(0), 0);
    assert_eq!(diagonal_step(1), 0);
    assert_eq!(diagonal_step(2), 1);
    assert_eq!(diagonal_step(3), 2);
    assert_eq!(diagonal_step(10), 7);
    assert_eq!(diagonal_step(10 * PIXEL), 7_071_067_811);
    assert_eq!(diagonal_step(i64::MAX), 6_521_908_912_666_391_105);
    for step in 0..5_000i64 {
        let share = diagonal_step(step) as i128;
        let step = step as i128;
        assert!(2 * share * share <= step * step && step * step < 2 * (share + 1) * (share + 1));
    }
}

#[test]
fn the_player_walks_straight_at_full_speed() {
    let start = Position { x: 5, y: -5 };
    let second = 1_000_000_000;
    let step = 10 * PIXEL;
    assert_eq!(move_character(start, true, false, false, false, second), Position { x: 5, y: step - 5 });
    assert_eq!(move_character(start, false, true, false, false, second), Position { x: 5, y: -step - 5 });
    assert_eq!(move_character(start, false, false, true, false, second), Position { x: 5 - step, y: -5 });
    assert_eq!(move_character(start, false, false, false, true, second), Position { x: 5 + step, y: -5 });
}

#[test]
fn the_player_walks_diagonally_at_the_same_speed() {
    let start = Position { x: 0, y: 0 };
    let second = 1_000_000_000;
    let share = 7_071_067_811;
    assert_eq!(move_character(start, true, false, false, true, second), Position { x: share, y: share });
    assert_eq!(move_character(start, true, false, true, false, second), Position { x: -share, y: share });
    assert_eq!(move_character(start, false, true, true, false, second), Position { x: -share, y: -share });
    assert_eq!(move_character(start, false, true, false, true, second), Position { x: share, y: -share });
}

#[test]
fn opposite_keys_cancel_each_other() {
    let start = Position { x: 3, y: 4 };
    let second = 1_000_000_000;
    assert_eq!(move_character(start, false, false, false, false, second), start);
    assert_eq!(move_character(start, true, true, true, true, second), start);
    assert_eq!(move_character(start, true, true, false, true, second), Position { x: 3 + 10 * PIXEL, y: 4 });
    assert_eq!(move_character(start, true, false, true, true, second), Position { x: 3, y: 4 + 10 * PIXEL });
    assert_eq!(move_character(start, true, false, false, true, 0), start);
}

#[test]
fn the_player_stops_at_the_ends_of_the_range() {
    let corner = Position { x: i64::MAX - 1, y: i64::MIN + 1 };
    assert_eq!(
        move_character(corner, false, true, false, true, 1_000_000_000),
        Position { x: i64::MAX, y: i64::MIN }
    );
}
