//! Collisions between the player and what lies on the road.

use vstd::prelude::*;
use crate::character::Player;
use crate::world_grid::Position;

verus! {

/// A box around an object, centred on its position.
#[derive(Clone, Copy, Debug, PartialEq, Eq, Structural)]
pub struct Collider {
    pub width: i64,
    pub height: i64,
}

/// An object that can collide: its box and where it stands.
#[derive(Clone, Copy, Debug, PartialEq, Eq, Structural)]
pub struct Body {
    pub collider: Collider,
    pub position: Position,
}

/// A player that can collide.
#[derive(Clone, Copy, Debug, PartialEq, Eq, Structural)]
pub struct PlayerBody {
    pub body: Body,
    pub player: Player,
}

/// Whether two stretches overlap: one of length `a_size` around `a`, one
/// of length `b_size` around `b`. Stretches that only touch do not.
pub open spec fn stretches_overlap(a: int, a_size: int, b: int, b_size: int) -> bool {
    2 * a - a_size < 2 * b + b_size && 2 * a + a_size > 2 * b - b_size
}

/// Whether the boxes of two bodies overlap, across and down.
pub open spec fn overlap(a: Body, b: Body) -> bool {
    stretches_overlap(
        a.position.x as int,
        a.collider.width as int,
        b.position.x as int,
        b.collider.width as int,
    ) && stretches_overlap(
        a.position.y as int,
        a.collider.height as int,
        b.position.y as int,
        b.collider.height as int,
    )
}

/// Two bodies overlap whichever of them is asked first.
pub proof fn lemma_overlap_symmetric(a: Body, b: Body)
    ensures
        overlap(a, b) == overlap(b, a),
{
}

/// A body with a box of a size above zero overlaps itself.
pub proof fn lemma_overlap_reflexive(a: Body)
    requires
        a.collider.width > 0,
        a.collider.height > 0,
    ensures
        overlap(a, a),
{
}

fn overlap_along(a: i64, a_size: i64, b: i64, b_size: i64) -> (hit: bool)
    ensures
        hit == stretches_overlap(a as int, a_size as int, b as int, b_size as int),
{
    let a2: i128 = 2 * (a as i128);
    let b2: i128 = 2 * (b as i128);
    a2 - (a_size as i128) < b2 + (b_size as i128) && a2 + (a_size as i128) > b2 - (b_size as i128)
}

/// Whether the boxes of two bodies overlap.
pub fn boxes_overlap(a: &Body, b: &Body) -> (hit: bool)
    ensures
        hit == overlap(*a, *b),
{
    overlap_along(a.position.x, a.collider.width, b.position.x, b.collider.width) && overlap_along(
        a.position.y,
        a.collider.height,
        b.position.y,
        b.collider.height,
    )
}

/// Whether `body` overlaps any of `obstacles`.
pub open spec fn hits_any(body: Body, obstacles: Seq<Body>) -> bool {
    exists|i: int| 0 <= i < obstacles.len() && overlap(body, #[trigger] obstacles[i])
}

/// Whether `body` overlaps any of `obstacles`.
pub fn hits_obstacle(body: &Body, obstacles: &Vec<Body>) -> (hit: bool)
    ensures
        hit == hits_any(*body, obstacles@),
{
    let mut i: usize = 0;
    while i < obstacles.len()
        invariant
            i <= obstacles.len(),
            forall|j: int| 0 <= j < i ==> !overlap(*body, #[trigger] obstacles@[j]),
        decreases obstacles.len() - i,
    {
        if boxes_overlap(body, &obstacles[i]) {
            return true;
        }
        i = i + 1;
    }
    false
}

/// Whether the check reaches the player with number `i`: neither it nor
/// any player before it is in the air.
pub open spec fn reached(players: Seq<PlayerBody>, i: int) -> bool {
    forall|j: int| 0 <= j <= i ==> !(#[trigger] players[j]).player.is_jumping
}

/// The player with number `i` after the check: dead if the check reaches
/// it and it overlaps an obstacle, and otherwise as before.
pub open spec fn after_check(players: Seq<PlayerBody>, obstacles: Seq<Body>, i: int) -> PlayerBody {
    PlayerBody {
        body: players[i].body,
        player: Player {
            is_jumping: players[i].player.is_jumping,
            is_dead: players[i].player.is_dead || (reached(players, i) && hits_any(
                players[i].body,
                obstacles,
            )),
        },
    }
}

/// Checks the players against the obstacles.
///
/// A player on the ground that overlaps an obstacle is dead. The check
/// goes through the players in their order and ends at the first that is
/// in the air.
pub fn check_collision(players: &mut Vec<PlayerBody>, obstacles: &Vec<Body>)
    ensures
        final(players)@ == Seq::new(
            old(players)@.len(),
            |i: int| after_check(old(players)@, obstacles@, i),
        ),
{
    let ghost before = players@;
    let mut i: usize = 0;
    while i < players.len()
        invariant
            i <= players.len(),
            before == old(players)@,
            players@.len() == before.len(),
            forall|j: int| 0 <= j < i ==> !(#[trigger] before[j]).player.is_jumping,
            forall|j: int| 0 <= j < i ==> players@[j] == after_check(before, obstacles@, j),
            forall|j: int| i <= j < players@.len() ==> players@[j] == before[j],
        decreases players.len() - i,
    {
        let mut current: PlayerBody = players[i];
        if current.player.is_jumping {
            proof {
                assert forall|j: int| i <= j < before.len() implies before[j] == after_check(
                    before,
                    obstacles@,
                    j,
                ) by {
                    assert(before[i as int].player.is_jumping);
                    assert(!reached(before, j));
                }
                assert(players@ =~= Seq::new(
                    before.len(),
                    |j: int| after_check(before, obstacles@, j),
                ));
            }
            return ;
        }
        assert(reached(before, i as int));
        if hits_obstacle(&current.body, obstacles) {
            current.player.is_dead = true;
        }
        players.set(i, current);
        i = i + 1;
    }
    assert(players@ =~= Seq::new(before.len(), |j: int| after_check(before, obstacles@, j)));
}

} // verus!
