use bevy::time::{Timer, TimerMode};
use endless_runner::character::{
    animate_sprite, execute_animations, finish_jump, frame_period, jump,
    move_character_horizontal, setup_character, start_jump, step_animation, step_sprite,
    timer_from_fps, AnimationConfig, AnimationIndices, AnimationState, AnimationTimer, JumpEvents,
    JumpTimer, Player, PlayerSprite, FRAME_SIZE, JUMP_FRAMES, PLAYER_FPS, PLAYER_HITBOX_HEIGHT,
    PLAYER_HITBOX_WIDTH, PLAYER_SPEED, RUN_FRAMES, SCREEN_BOUND,
};
use endless_runner::collision::Collider;
use endless_runner::units::PIXEL;
use std::time::Duration;

fn running() -> (Player, AnimationConfig, PlayerSprite) {
    let setup = setup_character();
    (setup.player, setup.animation, setup.sprite)
}

fn jump_sprite(index: usize) -> PlayerSprite {
    PlayerSprite { sheet: AnimationState::Jump, atlas_index: Some(index) }
}

fn run_sprite(index: usize) -> PlayerSprite {
    PlayerSprite { sheet: AnimationState::Run, atlas_index: Some(index) }
}

#[test]
fn the_player_has_its_measures() {
    assert_eq!(PLAYER_HITBOX_WIDTH, 8 * PIXEL);
    assert_eq!(PLAYER_HITBOX_HEIGHT, PIXEL);
    assert_eq!(PLAYER_SPEED, 50);
    assert_eq!(SCREEN_BOUND, 220 * PIXEL);
    assert_eq!((FRAME_SIZE, RUN_FRAMES, JUMP_FRAMES, PLAYER_FPS), (32, 6, 3, 10));
    assert_eq!(Player::default(), Player { is_jumping: false, is_dead: false });
}

#[test]
fn a_timer_runs_out_once_each_frame() {
    assert_eq!(frame_period(10), 100_000_000);
    assert_eq!(frame_period(1), 1_000_000_000);
    assert_eq!(frame_period(3), 333_333_333);
    assert_eq!(frame_period(255), 3_921_568);
    let timer = timer_from_fps(10);
    assert_eq!(timer.duration(), Duration::from_millis(100));
    assert_eq!(timer.mode(), TimerMode::Repeating);
    assert_eq!(timer.elapsed(), Duration::ZERO);
    assert_eq!(timer_from_fps(255).duration(), Duration::from_nanos(3_921_568));
}

#[test]
fn a_new_configuration_runs() {
    let config = AnimationConfig::new((1, 4), (7, 9), 20);
    assert_eq!(config.run_indices, (1, 4));
    assert_eq!(config.jump_indices, (7, 9));
    assert_eq!(config.fps, 20);
    assert_eq!(config.state, AnimationState::Run);
    assert_eq!(config.frame_timer.duration(), Duration::from_millis(50));
}

#[test]
fn a_new_player_runs_in_the_middle() {
    let setup = setup_character();
    assert_eq!(setup.player, Player { is_jumping: false, is_dead: false });
    assert_eq!(setup.sprite, run_sprite(0));
    assert_eq!((setup.x, setup.y, setup.layer), (0, 0, 4));
    assert_eq!(setup.animation.run_indices, (0, 5));
    assert_eq!(setup.animation.jump_indices, (0, 2));
    assert_eq!(setup.animation.fps, 10);
    assert_eq!(setup.animation.state, AnimationState::Run);
    assert_eq!(setup.animation.frame_timer.duration(), Duration::from_millis(100));
    assert_eq!(setup.collider, Collider { width: 8 * PIXEL, height: PIXEL });
}

#[test]
fn a_sprite_cycles_from_the_last_frame_to_the_first() {
    let indices = AnimationIndices { first: 2, last: 4 };
    let mut frame = Some(2);
    step_sprite(false, &indices, &mut frame);
    assert_eq!(frame, Some(2));
    step_sprite(true, &indices, &mut frame);
    assert_eq!(frame, Some(3));
    step_sprite(true, &indices, &mut frame);
    assert_eq!(frame, Some(4));
    step_sprite(true, &indices, &mut frame);
    assert_eq!(frame, Some(2));
    // Beyond the last frame the cycle goes on upwards.
    let mut frame = Some(5);
    step_sprite(true, &indices, &mut frame);
    assert_eq!(frame, Some(6));
    let mut frame = Some(usize::MAX);
    step_sprite(true, &AnimationIndices { first: 0, last: usize::MAX }, &mut frame);
    assert_eq!(frame, Some(0));
    let mut none = None;
    step_sprite(true, &indices, &mut none);
    assert_eq!(none, None);
}

#[test]
fn a_sprite_steps_when_its_timer_runs_out() {
    let indices = AnimationIndices { first: 0, last: 5 };
    let mut timer = AnimationTimer(Timer::new(Duration::from_millis(100), TimerMode::Repeating));
    let mut frame = Some(4);
    assert!(!animate_sprite(Duration::from_millis(60), &indices, &mut timer, &mut frame));
    assert_eq!(frame, Some(4));
    assert!(animate_sprite(Duration::from_millis(60), &indices, &mut timer, &mut frame));
    assert_eq!(frame, Some(5));
    assert!(animate_sprite(Duration::from_millis(100), &indices, &mut timer, &mut frame));
    assert_eq!(frame, Some(0));
}

#[test]
fn the_player_moves_where_the_keys_send_it() {
    // 50 pixels per second for 20 milliseconds: one pixel.
    assert_eq!(move_character_horizontal(0, false, true, 20_000_000), PIXEL);
    assert_eq!(move_character_horizontal(0, true, false, 20_000_000), -PIXEL);
    assert_eq!(move_character_horizontal(7, true, true, 20_000_000), 7);
    assert_eq!(move_character_horizontal(7, false, false, 20_000_000), 7);
    assert_eq!(move_character_horizontal(5 * PIXEL, false, true, 1), 5 * PIXEL + 50);
}

#[test]
fn the_player_stays_on_screen() {
    assert_eq!(move_character_horizontal(219 * PIXEL + 1, false, true, 20_000_000), 220 * PIXEL);
    assert_eq!(move_character_horizontal(-220 * PIXEL, true, false, 20_000_000), -220 * PIXEL);
    assert_eq!(move_character_horizontal(500 * PIXEL, false, false, 0), 220 * PIXEL);
    assert_eq!(move_character_horizontal(i64::MIN, true, false, u64::MAX), -220 * PIXEL);
    assert_eq!(move_character_horizontal(i64::MAX, false, true, u64::MAX), 220 * PIXEL);
    assert_eq!(move_character_horizontal(i64::MIN, false, true, u64::MAX), -PIXEL - 1 + PIXEL);
}

#[test]
fn the_player_takes_off_from_the_ground_only() {
    let (mut player, mut animation, mut sprite) = running();
    animation.jump_indices = (6, 8);
    sprite = run_sprite(3);
    assert!(!start_jump(false, &mut player, &mut animation, &mut sprite));
    assert_eq!((player.is_jumping, animation.state, sprite), (false, AnimationState::Run, run_sprite(3)));
    assert!(start_jump(true, &mut player, &mut animation, &mut sprite));
    assert_eq!((player.is_jumping, animation.state, sprite), (true, AnimationState::Jump, jump_sprite(6)));
    sprite = jump_sprite(7);
    assert!(!start_jump(true, &mut player, &mut animation, &mut sprite));
    assert_eq!((player.is_jumping, animation.state, sprite), (true, AnimationState::Jump, jump_sprite(7)));
}

#[test]
fn the_player_lands_when_the_timer_has_run_out() {
    let (mut player, mut animation, mut sprite) = running();
    animation.run_indices = (1, 5);
    player.is_jumping = true;
    player.is_dead = true;
    animation.state = AnimationState::Jump;
    sprite = jump_sprite(2);
    finish_jump(false, &mut player, &mut animation, &mut sprite);
    assert_eq!((player.is_jumping, animation.state, sprite), (true, AnimationState::Jump, jump_sprite(2)));
    finish_jump(true, &mut player, &mut animation, &mut sprite);
    assert_eq!((player.is_jumping, animation.state, sprite), (false, AnimationState::Run, run_sprite(1)));
    assert!(player.is_dead);
}

#[test]
fn a_jump_lasts_as_long_as_its_timer() {
    let (mut player, mut animation, mut sprite) = running();
    let mut timer = JumpTimer(Timer::new(Duration::from_millis(200), TimerMode::Once));
    let frame = Duration::from_millis(80);
    let events = jump(frame, &mut timer, &mut player, &mut animation, &mut sprite, true, false);
    assert_eq!(events, JumpEvents { started: true, landed: false });
    assert_eq!((player.is_jumping, animation.state, sprite), (true, AnimationState::Jump, jump_sprite(0)));
    sprite = jump_sprite(1);
    let events = jump(frame, &mut timer, &mut player, &mut animation, &mut sprite, true, true);
    assert_eq!(events, JumpEvents { started: false, landed: false });
    assert_eq!(sprite, jump_sprite(1));
    let events = jump(frame, &mut timer, &mut player, &mut animation, &mut sprite, false, false);
    assert_eq!(events, JumpEvents { started: false, landed: true });
    assert_eq!((player.is_jumping, animation.state, sprite), (false, AnimationState::Run, run_sprite(0)));
    // The timer has run out and stays so until the next jump sets it back.
    let events = jump(frame, &mut timer, &mut player, &mut animation, &mut sprite, false, false);
    assert_eq!(events, JumpEvents { started: false, landed: false });
    let events = jump(frame, &mut timer, &mut player, &mut animation, &mut sprite, false, true);
    assert_eq!(events, JumpEvents { started: true, landed: false });
    assert!(player.is_jumping);
    // The second jump lasts as long as the first: its timer started from zero.
    let events = jump(frame, &mut timer, &mut player, &mut animation, &mut sprite, false, false);
    assert_eq!(events, JumpEvents { started: false, landed: false });
    let events = jump(frame, &mut timer, &mut player, &mut animation, &mut sprite, false, false);
    assert_eq!(events, JumpEvents { started: false, landed: true });
    assert!(!player.is_jumping);
    assert_eq!(timer.0.elapsed(), Duration::from_millis(200));
}

#[test]
fn a_jump_in_a_long_frame_ends_at_once() {
    let (mut player, mut animation, mut sprite) = running();
    let mut timer = JumpTimer(Timer::new(Duration::from_millis(200), TimerMode::Once));
    let events = jump(
        Duration::from_millis(250),
        &mut timer,
        &mut player,
        &mut animation,
        &mut sprite,
        true,
        false,
    );
    assert_eq!(events, JumpEvents { started: true, landed: true });
    assert_eq!((player.is_jumping, animation.state, sprite), (false, AnimationState::Run, run_sprite(0)));
}

#[test]
fn the_animation_starts_again_at_or_beyond_its_last_frame() {
    let mut sprite = run_sprite(4);
    step_animation(false, AnimationState::Run, (0, 5), (0, 2), &mut sprite);
    assert_eq!(sprite, run_sprite(4));
    step_animation(true, AnimationState::Run, (0, 5), (0, 2), &mut sprite);
    assert_eq!(sprite, run_sprite(5));
    step_animation(true, AnimationState::Run, (0, 5), (0, 2), &mut sprite);
    assert_eq!(sprite, run_sprite(0));
    // The frames of the state count, whatever sheet the sprite shows.
    let mut sprite = run_sprite(4);
    step_animation(true, AnimationState::Jump, (0, 5), (1, 2), &mut sprite);
    assert_eq!(sprite, run_sprite(1));
    let mut sprite = jump_sprite(usize::MAX);
    step_animation(true, AnimationState::Jump, (0, 5), (1, 2), &mut sprite);
    assert_eq!(sprite, jump_sprite(1));
    let mut bare = PlayerSprite { sheet: AnimationState::Run, atlas_index: None };
    step_animation(true, AnimationState::Run, (0, 5), (0, 2), &mut bare);
    assert_eq!(bare.atlas_index, None);
}

#[test]
fn the_animation_steps_when_its_timer_runs_out() {
    let (_, mut animation, mut sprite) = running();
    assert!(!execute_animations(Duration::from_millis(99), &mut animation, &mut sprite));
    assert_eq!(sprite, run_sprite(0));
    assert!(execute_animations(Duration::from_millis(1), &mut animation, &mut sprite));
    assert_eq!(sprite, run_sprite(1));
    animation.state = AnimationState::Jump;
    sprite = jump_sprite(2);
    assert!(execute_animations(Duration::from_millis(100), &mut animation, &mut sprite));
    assert_eq!(sprite, jump_sprite(0));
    assert_eq!(animation.state, AnimationState::Jump);
}
