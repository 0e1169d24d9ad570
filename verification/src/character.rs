//! The player: the frames of its animation, its jump, and how it moves
//! from side to side.

use vstd::prelude::*;
use core::time::Duration;
use bevy::time::Timer;
use crate::clock::{
    fresh_repeating, rewound, rings, ticked, tick, just_finished, reset, repeating_timer,
};
use crate::units::{travel, distance};
use crate::collision::Collider;
use crate::world_grid::PLAYER_Z;

verus! {

/// First and last frame of an animation on its sprite sheet.
#[derive(Clone, Copy, Debug, PartialEq, Eq, Structural)]
pub struct AnimationIndices {
    pub first: usize,
    pub last: usize,
}

/// Paces the frames of a sprite.
pub struct AnimationTimer(pub Timer);

/// Measures how long a jump lasts.
pub struct JumpTimer(pub Timer);

/// The state of the player: in the air or on the ground, dead or alive.
#[derive(Clone, Copy, Debug, PartialEq, Eq, Structural)]
pub struct Player {
    pub is_jumping: bool,
    pub is_dead: bool,
}

impl Default for Player {
    fn default() -> (player: Player)
        ensures
            player == (Player { is_jumping: false, is_dead: false }),
    {
        Player { is_jumping: false, is_dead: false }
    }
}

/// Width of the player's hit box: 8 pixels.
pub const PLAYER_HITBOX_WIDTH: i64 = 8_000_000_000;

/// Height of the player's hit box: 1 pixel.
pub const PLAYER_HITBOX_HEIGHT: i64 = 1_000_000_000;

/// Speed of the player, in pixels per second.
pub const PLAYER_SPEED: u32 = 50;

/// How far from the middle the player can go: 220 pixels.
pub const SCREEN_BOUND: i64 = 220_000_000_000;

/// Edge of a frame on the sprite sheets, in pixels of the sheet.
pub const FRAME_SIZE: u32 = 32;

/// Frames on the sheet of the running player.
pub const RUN_FRAMES: u32 = 6;

/// Frames on the sheet of the jumping player.
pub const JUMP_FRAMES: u32 = 3;

/// Frames per second of the player's animation.
pub const PLAYER_FPS: u8 = 10;

/// Which of its animations the player shows.
#[derive(Clone, Copy, Debug, PartialEq, Eq, Structural)]
pub enum AnimationState {
    Run,
    Jump,
}

/// What the player's sprite shows: a frame of one of the two sheets. A
/// sprite without an atlas has no frame.
#[derive(Clone, Copy, Debug, PartialEq, Eq)]
pub struct PlayerSprite {
    pub sheet: AnimationState,
    pub atlas_index: Option<usize>,
}

/// The animations of the player: first and last frame of each, and the
/// timer that paces them.
pub struct AnimationConfig {
    pub run_indices: (usize, usize),
    pub jump_indices: (usize, usize),
    pub fps: u8,
    pub frame_timer: Timer,
    pub state: AnimationState,
}

/// Nanoseconds between two frames at `fps` frames per second.
pub open spec fn frame_period_nanos(fps: u8) -> int {
    1_000_000_000int / (fps as int)
}

/// Nanoseconds between two frames at `fps` frames per second.
pub fn frame_period(fps: u8) -> (nanos: u64)
    requires
        fps > 0,
    ensures
        nanos == frame_period_nanos(fps),
{
    1_000_000_000 / (fps as u64)
}

/// A repeating timer that runs out `fps` times per second.
pub fn timer_from_fps(fps: u8) -> (timer: Timer)
    requires
        fps > 0,
    ensures
        timer == fresh_repeating(frame_period_nanos(fps) as u64),
{
    repeating_timer(frame_period(fps))
}

impl AnimationConfig {
    /// The animations of a player that runs, paced at `fps` frames per
    /// second.
    pub fn new(run_indices: (usize, usize), jump_indices: (usize, usize), fps: u8) -> (config: Self)
        requires
            fps > 0,
        ensures
            config.run_indices == run_indices,
            config.jump_indices == jump_indices,
            config.fps == fps,
            config.frame_timer == fresh_repeating(frame_period_nanos(fps) as u64),
            config.state == AnimationState::Run,
    {
        Self {
            run_indices,
            jump_indices,
            fps,
            frame_timer: timer_from_fps(fps),
            state: AnimationState::Run,
        }
    }
}

/// The frame that follows `index` in a cycle from `first` to `last` that
/// starts again only from `last` itself.
pub open spec fn frame_after(index: usize, indices: AnimationIndices) -> int {
    if index == indices.last {
        indices.first as int
    } else {
        index + 1
    }
}

/// A frame between the first and the last is followed by one between them.
pub proof fn lemma_frame_after_stays(index: usize, indices: AnimationIndices)
    requires
        indices.first <= index <= indices.last,
    ensures
        indices.first <= frame_after(index, indices) <= indices.last,
{
}

/// The frame of a sprite after its timer has run out or not.
pub open spec fn sprite_after(
    finished: bool,
    indices: AnimationIndices,
    atlas_index: Option<usize>,
) -> Option<usize> {
    match atlas_index {
        Some(index) => if finished {
            Some(frame_after(index, indices) as usize)
        } else {
            Some(index)
        },
        None => None,
    }
}

/// Whether stepping on from this frame stays within the numbers there are.
pub open spec fn can_step(indices: AnimationIndices, atlas_index: Option<usize>) -> bool {
    atlas_index matches Some(index) ==> index == indices.last || index < usize::MAX
}

/// Shows the next frame if the timer has run out.
pub fn step_sprite(finished: bool, indices: &AnimationIndices, atlas_index: &mut Option<usize>)
    requires
        can_step(*indices, *old(atlas_index)),
    ensures
        *final(atlas_index) == sprite_after(finished, *indices, *old(atlas_index)),
{
    if finished {
        match *atlas_index {
            Some(index) => {
                *atlas_index = Some(
                    if index == indices.last {
                        indices.first
                    } else {
                        index + 1
                    },
                );
            },
            None => {},
        }
    }
}

/// Advances the timer of a sprite by `delta` and shows the next frame if
/// the timer has just run out. The result tells whether it has.
pub fn animate_sprite(
    delta: Duration,
    indices: &AnimationIndices,
    timer: &mut AnimationTimer,
    atlas_index: &mut Option<usize>,
) -> (finished: bool)
    requires
        can_step(*indices, *old(atlas_index)),
    ensures
        final(timer).0 == ticked(old(timer).0, delta),
        finished == rings(ticked(old(timer).0, delta)),
        *final(atlas_index) == sprite_after(finished, *indices, *old(atlas_index)),
{
    tick(&mut timer.0, delta);
    let finished = just_finished(&timer.0);
    step_sprite(finished, indices, atlas_index);
    finished
}

/// What appears when a game starts: the player and what belongs to it.
pub struct CharacterSetup {
    pub player: Player,
    pub sprite: PlayerSprite,
    pub x: i64,
    pub y: i64,
    pub layer: i32,
    pub animation: AnimationConfig,
    pub collider: Collider,
}

/// The player of a new game: running, alive, in the middle of the screen,
/// on the first frame of a run of six frames.
pub fn setup_character() -> (setup: CharacterSetup)
    ensures
        setup.player == (Player { is_jumping: false, is_dead: false }),
        setup.sprite == (PlayerSprite { sheet: AnimationState::Run, atlas_index: Some(0usize) }),
        setup.x == 0,
        setup.y == 0,
        setup.layer == PLAYER_Z,
        setup.animation.run_indices == (0usize, 5usize),
        setup.animation.jump_indices == (0usize, 2usize),
        setup.animation.fps == PLAYER_FPS,
        setup.animation.frame_timer == fresh_repeating(frame_period_nanos(PLAYER_FPS) as u64),
        setup.animation.state == AnimationState::Run,
        setup.collider == (Collider { width: PLAYER_HITBOX_WIDTH, height: PLAYER_HITBOX_HEIGHT }),
{
    CharacterSetup {
        player: Player { is_jumping: false, is_dead: false },
        sprite: PlayerSprite { sheet: AnimationState::Run, atlas_index: Some(0) },
        x: 0,
        y: 0,
        layer: PLAYER_Z,
        animation: AnimationConfig::new((0, 5), (0, 2), PLAYER_FPS),
        collider: Collider { width: PLAYER_HITBOX_WIDTH, height: PLAYER_HITBOX_HEIGHT },
    }
}

/// Where the keys send the player: one to the left, one to the right, or
/// nowhere when both or none are held.
pub open spec fn direction(left: bool, right: bool) -> int {
    (if right { 1int } else { 0 }) - (if left { 1int } else { 0 })
}

/// `v`, but no further from zero than `bound`.
pub open spec fn within(v: int, bound: int) -> int {
    if v < -bound {
        -bound
    } else if v > bound {
        bound
    } else {
        v
    }
}

/// Where the player stands after a frame of `delta_nanos` nanoseconds: it
/// has moved at `PLAYER_SPEED` where the keys send it, and stays within
/// `SCREEN_BOUND` of the middle.
pub fn move_character_horizontal(x: i64, left: bool, right: bool, delta_nanos: u64) -> (moved: i64)
    ensures
        moved == within(
            x + direction(left, right) * travel(PLAYER_SPEED as int, delta_nanos as int),
            SCREEN_BOUND as int,
        ),
        -SCREEN_BOUND <= moved <= SCREEN_BOUND,
{
    let step: i128 = distance(PLAYER_SPEED, delta_nanos) as i128;
    let mut target: i128 = x as i128;
    if left {
        target = target - step;
    }
    if right {
        target = target + step;
    }
    proof {
        let d = direction(left, right);
        let t = step as int;
        assert(d * t == if d == 1 {
            t
        } else if d == -1 {
            -t
        } else {
            0
        }) by (nonlinear_arith)
            requires
                -1 <= d <= 1,
        ;
    }
    if target < -(SCREEN_BOUND as i128) {
        -SCREEN_BOUND
    } else if target > SCREEN_BOUND as i128 {
        SCREEN_BOUND
    } else {
        target as i64
    }
}

/// What happened to the jump in a frame.
#[derive(Clone, Copy, Debug, PartialEq, Eq, Structural)]
pub struct JumpEvents {
    /// The player took off.
    pub started: bool,
    /// The jump timer ran out and the player is on the ground.
    pub landed: bool,
}

/// Whether the player takes off: a jump is asked for and the player is not
/// in the air.
pub open spec fn takes_off(wanted: bool, player: Player) -> bool {
    wanted && !player.is_jumping
}

/// Lets the player take off if a jump is asked for and the player is not
/// in the air: the jump animation starts with its first frame. The result
/// tells whether the player took off.
pub fn start_jump(
    wanted: bool,
    player: &mut Player,
    animation: &mut AnimationConfig,
    sprite: &mut PlayerSprite,
) -> (started: bool)
    ensures
        started == takes_off(wanted, *old(player)),
        final(player).is_dead == old(player).is_dead,
        final(player).is_jumping == (old(player).is_jumping || wanted),
        final(animation).run_indices == old(animation).run_indices,
        final(animation).jump_indices == old(animation).jump_indices,
        final(animation).fps == old(animation).fps,
        final(animation).frame_timer == old(animation).frame_timer,
        final(animation).state == if started {
            AnimationState::Jump
        } else {
            old(animation).state
        },
        *final(sprite) == if started {
            PlayerSprite { sheet: AnimationState::Jump, atlas_index: Some(old(animation).jump_indices.0) }
        } else {
            *old(sprite)
        },
{
    if wanted && !player.is_jumping {
        player.is_jumping = true;
        animation.state = AnimationState::Jump;
        *sprite = PlayerSprite { sheet: AnimationState::Jump, atlas_index: Some(animation.jump_indices.0) };
        true
    } else {
        false
    }
}

/// Puts the player back on the ground if the jump timer has run out: the
/// run animation starts with its first frame.
pub fn finish_jump(
    landed: bool,
    player: &mut Player,
    animation: &mut AnimationConfig,
    sprite: &mut PlayerSprite,
)
    ensures
        final(player).is_dead == old(player).is_dead,
        final(player).is_jumping == (old(player).is_jumping && !landed),
        final(animation).run_indices == old(animation).run_indices,
        final(animation).jump_indices == old(animation).jump_indices,
        final(animation).fps == old(animation).fps,
        final(animation).frame_timer == old(animation).frame_timer,
        final(animation).state == if landed {
            AnimationState::Run
        } else {
            old(animation).state
        },
        *final(sprite) == if landed {
            PlayerSprite { sheet: AnimationState::Run, atlas_index: Some(old(animation).run_indices.0) }
        } else {
            *old(sprite)
        },
{
    if landed {
        player.is_jumping = false;
        animation.state = AnimationState::Run;
        *sprite = PlayerSprite { sheet: AnimationState::Run, atlas_index: Some(animation.run_indices.0) };
    }
}

/// Handles the jump for one frame.
///
/// The player takes off if a jump is asked for, by the key or by the
/// signal, and the player is not in the air; the jump timer then starts
/// from zero. The timer is advanced by `delta`, and if it has just run out
/// the player is back on the ground, whatever happened before in the frame.
pub fn jump(
    delta: Duration,
    jump_timer: &mut JumpTimer,
    player: &mut Player,
    animation: &mut AnimationConfig,
    sprite: &mut PlayerSprite,
    key_pressed: bool,
    signal_triggered: bool,
) -> (events: JumpEvents)
    ensures
        events.started == takes_off(key_pressed || signal_triggered, *old(player)),
        final(jump_timer).0 == ticked(
            if events.started {
                rewound(old(jump_timer).0)
            } else {
                old(jump_timer).0
            },
            delta,
        ),
        events.landed == rings(final(jump_timer).0),
        final(player).is_dead == old(player).is_dead,
        final(player).is_jumping == ((old(player).is_jumping || key_pressed || signal_triggered)
            && !events.landed),
        final(animation).run_indices == old(animation).run_indices,
        final(animation).jump_indices == old(animation).jump_indices,
        final(animation).fps == old(animation).fps,
        final(animation).frame_timer == old(animation).frame_timer,
        final(animation).state == if events.landed {
            AnimationState::Run
        } else if events.started {
            AnimationState::Jump
        } else {
            old(animation).state
        },
        *final(sprite) == if events.landed {
            PlayerSprite { sheet: AnimationState::Run, atlas_index: Some(old(animation).run_indices.0) }
        } else if events.started {
            PlayerSprite { sheet: AnimationState::Jump, atlas_index: Some(old(animation).jump_indices.0) }
        } else {
            *old(sprite)
        },
{
    let started = start_jump(key_pressed || signal_triggered, player, animation, sprite);
    if started {
        reset(&mut jump_timer.0);
    }
    tick(&mut jump_timer.0, delta);
    let landed = just_finished(&jump_timer.0);
    finish_jump(landed, player, animation, sprite);
    JumpEvents { started, landed }
}

/// First and last frame of the animation that `state` shows.
pub open spec fn frames_of(state: AnimationState, run: (usize, usize), jump: (usize, usize)) -> (
    usize,
    usize,
) {
    match state {
        AnimationState::Run => run,
        AnimationState::Jump => jump,
    }
}

/// The frame that follows `index` in a cycle from `first` to `last` that
/// starts again from `last` or anything beyond it.
pub open spec fn frame_beyond(index: usize, frames: (usize, usize)) -> int {
    if index >= frames.1 {
        frames.0 as int
    } else {
        index + 1
    }
}

/// Whatever the frame, the one that follows is not beyond the last; and it
/// is not before the first unless the frame itself was.
pub proof fn lemma_frame_beyond_stays(index: usize, frames: (usize, usize))
    requires
        frames.0 <= frames.1,
    ensures
        frame_beyond(index, frames) <= frames.1,
        index >= frames.0 ==> frame_beyond(index, frames) >= frames.0,
{
}

/// The frame of the player's sprite after the frame timer has run out or
/// not.
pub open spec fn player_frame_after(
    finished: bool,
    frames: (usize, usize),
    atlas_index: Option<usize>,
) -> Option<usize> {
    match atlas_index {
        Some(index) => if finished {
            Some(frame_beyond(index, frames) as usize)
        } else {
            Some(index)
        },
        None => None,
    }
}

/// Shows the next frame of the player's animation if the frame timer has
/// run out.
pub fn step_animation(
    finished: bool,
    state: AnimationState,
    run_indices: (usize, usize),
    jump_indices: (usize, usize),
    sprite: &mut PlayerSprite,
)
    ensures
        final(sprite).sheet == old(sprite).sheet,
        final(sprite).atlas_index == player_frame_after(
            finished,
            frames_of(state, run_indices, jump_indices),
            old(sprite).atlas_index,
        ),
{
    if finished {
        let (first, last) = match state {
            AnimationState::Run => run_indices,
            AnimationState::Jump => jump_indices,
        };
        match sprite.atlas_index {
            Some(index) => {
                if index >= last {
                    sprite.atlas_index = Some(first);
                } else {
                    sprite.atlas_index = Some(index + 1);
                }
            },
            None => {},
        }
    }
}

/// Advances the frame timer by `delta` and shows the next frame of the
/// player's animation if the timer has just run out. The result tells
/// whether it has.
pub fn execute_animations(delta: Duration, config: &mut AnimationConfig, sprite: &mut PlayerSprite) -> (finished:
    bool)
    ensures
        final(config).frame_timer == ticked(old(config).frame_timer, delta),
        finished == rings(ticked(old(config).frame_timer, delta)),
        final(config).run_indices == old(config).run_indices,
        final(config).jump_indices == old(config).jump_indices,
        final(config).fps == old(config).fps,
        final(config).state == old(config).state,
        final(sprite).sheet == old(sprite).sheet,
        final(sprite).atlas_index == player_frame_after(
            finished,
            frames_of(old(config).state, old(config).run_indices, old(config).jump_indices),
            old(sprite).atlas_index,
        ),
{
    tick(&mut config.frame_timer, delta);
    let finished = just_finished(&config.frame_timer);
    step_animation(finished, config.state, config.run_indices, config.jump_indices, sprite);
    finished
}

} // verus!
