//! Timers of the engine, as far as the game rules use them.
//!
//! A `Timer` is an opaque value here. It reads no clock: what it is after
//! a call, and what it answers, depends on the timer and on the time it is
//! given alone. The rules speak of that through the names below, and know
//! nothing else of them.

use vstd::prelude::*;
use core::time::Duration;
use bevy::time::{Timer, TimerMode};

verus! {

/// Declares `bevy::time::Timer` as a type whose inside is not looked at.
#[verifier::external_type_specification]
#[verifier::external_body]
pub struct ExTimer(bevy::time::Timer);

/// The timer that `Timer::tick` makes of `timer` when it advances it by
/// `delta`.
pub uninterp spec fn ticked(timer: Timer, delta: Duration) -> Timer;

/// What `Timer::just_finished` answers for `timer`: whether it reached its
/// duration in its last tick.
pub uninterp spec fn rings(timer: Timer) -> bool;

/// The timer that `Timer::reset` makes of `timer`.
pub uninterp spec fn rewound(timer: Timer) -> Timer;

/// The timer that `Timer::new` makes for a duration of `period_nanos`
/// nanoseconds and the repeating mode.
pub uninterp spec fn fresh_repeating(period_nanos: u64) -> Timer;

/// Calls `Timer::tick`, which advances the timer by `delta`. The timer
/// afterwards is a function of the timer before and of `delta`; the
/// contract gives it its name.
#[verifier::external_body]
pub(crate) fn tick(timer: &mut Timer, delta: Duration)
    ensures
        *final(timer) == ticked(*old(timer), delta),
{
    timer.tick(delta);
}

/// Calls `Timer::just_finished`, which tells whether the timer reached its
/// duration in the last tick. The answer is a function of the timer; the
/// contract gives it its name.
#[verifier::external_body]
pub(crate) fn just_finished(timer: &Timer) -> (finished: bool)
    ensures
        finished == rings(*timer),
{
    timer.just_finished()
}

/// Calls `Timer::reset`, which sets the elapsed time back to zero. The
/// timer afterwards is a function of the timer before; the contract gives
/// it its name.
#[verifier::external_body]
pub(crate) fn reset(timer: &mut Timer)
    ensures
        *final(timer) == rewound(*old(timer)),
{
    timer.reset();
}

/// Calls `Timer::new` for a repeating timer whose duration is
/// `period_nanos` nanoseconds. The timer is a function of that number; the
/// contract gives it its name.
#[verifier::external_body]
pub(crate) fn repeating_timer(period_nanos: u64) -> (timer: Timer)
    ensures
        timer == fresh_repeating(period_nanos),
{
    Timer::new(Duration::from_nanos(period_nanos), TimerMode::Repeating)
}

} // verus!
