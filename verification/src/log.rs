//! Logs that lie across the road.

use vstd::prelude::*;
use core::time::Duration;
use bevy::time::Timer;
use crate::clock::{rings, ticked, tick, just_finished};
use crate::collision::Collider;
use crate::world_grid::LOG_Z;

verus! {

/// Paces the logs.
pub struct SpawnTimer(pub Timer);

/// Height at which a log appears: 250 pixels above the centre.
pub const LOG_START_Y: i64 = 250_000_000_000;

/// Edge of the square in which a log is drawn: 32 pixels.
pub const LOG_SIZE: i64 = 32_000_000_000;

/// Width of the box of a log: 16 pixels.
pub const LOG_BOX_WIDTH: i64 = 16_000_000_000;

/// Height of the box of a log: 5 pixels.
pub const LOG_BOX_HEIGHT: i64 = 5_000_000_000;

/// A log that is to appear.
#[derive(Clone, Copy, Debug, PartialEq, Eq, Structural)]
pub struct LogSpawn {
    pub x: i64,
    pub y: i64,
    pub layer: i32,
    pub size: i64,
    pub collider: Collider,
}

/// The log that appears each time the spawn timer runs out: in the middle
/// of the road, above the screen.
pub open spec fn new_log() -> LogSpawn {
    LogSpawn {
        x: 0,
        y: LOG_START_Y,
        layer: LOG_Z,
        size: LOG_SIZE,
        collider: Collider { width: LOG_BOX_WIDTH, height: LOG_BOX_HEIGHT },
    }
}

/// The log that appears when the spawn timer has run out, if it has.
pub fn log_when(finished: bool) -> (log: Option<LogSpawn>)
    ensures
        log == if finished { Some(new_log()) } else { None },
{
    if finished {
        Some(
            LogSpawn {
                x: 0,
                y: LOG_START_Y,
                layer: LOG_Z,
                size: LOG_SIZE,
                collider: Collider { width: LOG_BOX_WIDTH, height: LOG_BOX_HEIGHT },
            },
        )
    } else {
        None
    }
}

/// Advances the spawn timer by `delta` and returns the log that appears if
/// the timer has just run out.
pub fn spawn_log(timer: &mut SpawnTimer, delta: Duration) -> (log: Option<LogSpawn>)
    ensures
        final(timer).0 == ticked(old(timer).0, delta),
        log == if rings(ticked(old(timer).0, delta)) {
            Some(new_log())
        } else {
            None
        },
{
    tick(&mut timer.0, delta);
    log_when(just_finished(&timer.0))
}

} // verus!
