//! Objects that sink at a speed of their own.

use vstd::prelude::*;
use crate::units::{clamp_coord, travel, coord_sub, distance};

verus! {

/// Gives an object a speed of its own.
#[derive(Clone, Copy, Debug, PartialEq, Eq, Structural)]
pub struct Movable {
    /// Pixels per second.
    pub speed: u32,
}

/// An object that sinks: its height and its speed.
#[derive(Clone, Copy, Debug, PartialEq, Eq, Structural)]
pub struct MovingBody {
    pub y: i64,
    pub movable: Movable,
}

/// A body after a frame of `delta_nanos` nanoseconds: lower by the
/// distance covered at its speed.
pub open spec fn body_after(body: MovingBody, delta_nanos: int) -> MovingBody {
    MovingBody {
        y: clamp_coord(body.y - travel(body.movable.speed as int, delta_nanos)) as i64,
        movable: body.movable,
    }
}

/// Moves every body by one frame.
pub fn move_entities(bodies: &mut Vec<MovingBody>, delta_nanos: u64)
    ensures
        final(bodies)@ == old(bodies)@.map_values(
            |body: MovingBody| body_after(body, delta_nanos as int),
        ),
{
    let ghost before = bodies@;
    let mut i: usize = 0;
    while i < bodies.len()
        invariant
            i <= bodies.len(),
            bodies@.len() == before.len(),
            forall|j: int| 0 <= j < i ==> bodies@[j] == body_after(before[j], delta_nanos as int),
            forall|j: int| i <= j < bodies@.len() ==> bodies@[j] == before[j],
        decreases bodies.len() - i,
    {
        let body: MovingBody = bodies[i];
        bodies.set(
            i,
            MovingBody {
                y: coord_sub(body.y, distance(body.movable.speed, delta_nanos)),
                movable: body.movable,
            },
        );
        i = i + 1;
    }
    assert(bodies@ =~= before.map_values(|body: MovingBody| body_after(body, delta_nanos as int)));
}

} // verus!
