//! A player that walks in eight directions.

use vstd::prelude::*;
use crate::clock::{fresh_repeating, repeating_timer};
use crate::units::{clamp_coord, travel, distance};
use crate::world_grid::Position;
pub use crate::character::{AnimationIndices, AnimationTimer, animate_sprite};

verus! {

/// Marks the player.
#[derive(Clone, Copy, Debug, PartialEq, Eq, Structural)]
pub struct Player;

/// Speed of the player, in pixels per second.
pub const PLAYER_SPEED: u32 = 10;

/// Layer on which the player is drawn.
pub const PLAYER_LAYER: i32 = 2;

/// Nanoseconds between two frames of the player's animation: a tenth of a
/// second.
pub const FRAME_NANOS: u64 = 100_000_000;

/// What appears when a game starts: the player and its animation.
pub struct CharacterSetup {
    pub player: Player,
    pub animation_indices: AnimationIndices,
    pub atlas_index: usize,
    pub position: Position,
    pub layer: i32,
    pub timer: AnimationTimer,
}

/// The player of a new game: in the middle of the screen, on the first of
/// six frames.
pub fn setup_character() -> (setup: CharacterSetup)
    ensures
        setup.animation_indices == (AnimationIndices { first: 0, last: 5 }),
        setup.atlas_index == 0,
        setup.position == (Position { x: 0, y: 0 }),
        setup.layer == PLAYER_LAYER,
        setup.timer.0 == fresh_repeating(FRAME_NANOS),
{
    let animation_indices = AnimationIndices { first: 0, last: 5 };
    CharacterSetup {
        player: Player,
        animation_indices,
        atlas_index: animation_indices.first,
        position: Position { x: 0, y: 0 },
        layer: PLAYER_LAYER,
        timer: AnimationTimer(repeating_timer(FRAME_NANOS)),
    }
}

/// Whether `share` is how far a step of length `step` goes along each axis
/// when it goes diagonally: `step` divided by the square root of two,
/// rounded down.
pub open spec fn is_diagonal_share(step: int, share: int) -> bool {
    0 <= share && 2 * share * share <= step * step < 2 * (share + 1) * (share + 1)
}

/// How far a diagonal step of length `step` goes along each axis.
pub open spec fn diagonal_share(step: int) -> int {
    choose|share: int| is_diagonal_share(step, share)
}

proof fn lemma_square_grows(a: int, b: int)
    by (nonlinear_arith)
    requires
        0 <= a <= b,
    ensures
        a * a <= b * b,
{
}

/// There is only one diagonal share of a step.
pub proof fn lemma_diagonal_share_unique(step: int, a: int, b: int)
    requires
        is_diagonal_share(step, a),
        is_diagonal_share(step, b),
    ensures
        a == b,
{
    if a < b {
        lemma_square_grows(a + 1, b);
        assert(2 * (a + 1) * (a + 1) == 2 * ((a + 1) * (a + 1))) by (nonlinear_arith);
        assert(2 * b * b == 2 * (b * b)) by (nonlinear_arith);
    } else if b < a {
        lemma_square_grows(b + 1, a);
        assert(2 * (b + 1) * (b + 1) == 2 * ((b + 1) * (b + 1))) by (nonlinear_arith);
        assert(2 * a * a == 2 * (a * a)) by (nonlinear_arith);
    }
}

proof fn lemma_square_bound(a: int)
    by (nonlinear_arith)
    requires
        0 <= a <= 0x8000_0000_0000_0000,
    ensures
        0 <= a * a <= 0x4000_0000_0000_0000_0000_0000_0000_0000,
{
}

/// How far a diagonal step of length `step` goes along each axis.
pub fn diagonal_step(step: i64) -> (share: i64)
    requires
        step >= 0,
    ensures
        share == diagonal_share(step as int),
        is_diagonal_share(step as int, share as int),
{
    proof {
        lemma_square_bound(step as int);
    }
    let target: u128 = (step as u128) * (step as u128);
    proof {
        lemma_square_bound(step + 1);
        assert(2 * (step + 1) * (step + 1) > step * step) by (nonlinear_arith)
            requires
                step >= 0,
        ;
        assert(2 * 0 * 0 == 0);
    }
    let mut low: u128 = 0;
    let mut high: u128 = step as u128 + 1;
    while high - low > 1
        invariant
            0 <= low < high <= step + 1,
            step >= 0,
            target == step * step,
            2 * low * low <= target,
            2 * high * high > target,
        decreases high - low,
    {
        let middle: u128 = low + (high - low) / 2;
        proof {
            lemma_square_bound(middle as int);
        }
        let square: u128 = middle * middle;
        assert(2 * middle * middle == 2 * square) by (nonlinear_arith)
            requires
                square == middle * middle,
        ;
        if 2 * square <= target {
            low = middle;
        } else {
            high = middle;
        }
    }
    proof {
        assert(high == low + 1);
        assert(is_diagonal_share(step as int, low as int));
        lemma_diagonal_share_unique(step as int, low as int, diagonal_share(step as int));
    }
    low as i64
}

/// How far a step of length `step` goes along an axis on which the keys
/// send the player by `along`, when they send it by `across` on the other
/// axis: not at all, the whole step, or the diagonal share of it.
pub open spec fn axis_step(step: int, along: int, across: int) -> int {
    if along == 0 {
        0
    } else if across == 0 {
        along * step
    } else {
        along * diagonal_share(step)
    }
}

/// Where two opposite keys send the player on their axis.
pub open spec fn axis(forward: bool, back: bool) -> int {
    (if forward { 1int } else { 0 }) - (if back { 1int } else { 0 })
}

/// Where the player stands after a frame of `delta_nanos` nanoseconds: it
/// has covered the distance of `PLAYER_SPEED` in the direction of the keys,
/// the same distance whether straight or diagonally.
pub fn move_character(
    position: Position,
    up: bool,
    down: bool,
    left: bool,
    right: bool,
    delta_nanos: u64,
) -> (moved: Position)
    ensures
        moved.x == clamp_coord(
            position.x + axis_step(
                travel(PLAYER_SPEED as int, delta_nanos as int),
                axis(right, left),
                axis(up, down),
            ),
        ),
        moved.y == clamp_coord(
            position.y + axis_step(
                travel(PLAYER_SPEED as int, delta_nanos as int),
                axis(up, down),
                axis(right, left),
            ),
        ),
{
    let step: i64 = distance(PLAYER_SPEED, delta_nanos);
    let across: bool = left != right;
    let along: bool = up != down;
    let share: i64 = if across && along { diagonal_step(step) } else { step };
    Position {
        x: shifted(position.x, right, left, share),
        y: shifted(position.y, up, down, share),
    }
}

fn shifted(v: i64, forward: bool, back: bool, share: i64) -> (r: i64)
    requires
        share >= 0,
    ensures
        r == clamp_coord(v + axis(forward, back) * share),
{
    proof {
        let d = axis(forward, back);
        let t = share as int;
        assert(d * t == if d == 1 {
            t
        } else if d == -1 {
            -t
        } else {
            0
        }) by (nonlinear_arith)
            requires
                -1 <= d <= 1,
        ;
    }
    let mut wide: i128 = v as i128;
    if forward {
        wide = wide + share as i128;
    }
    if back {
        wide = wide - share as i128;
    }
    if wide < i64::MIN as i128 {
        i64::MIN
    } else if wide > i64::MAX as i128 {
        i64::MAX
    } else {
        wide as i64
    }
}

} // verus!
