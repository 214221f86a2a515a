//! The engine's countdown timer, as far as a bullet's lifetime needs it.
//!
//! The timer itself is the engine's. Nothing in this file is proved: each
//! function states what the engine's source shows of the call it makes.
use bevy::time::Timer;
use bevy::time::TimerMode;
use std::time::Duration;
use vstd::prelude::*;

verus! {

/// `bevy::time::Timer`, carried as an opaque value.
#[verifier::external_type_specification]
#[verifier::external_body]
pub struct ExTimer(Timer);

/// The nanoseconds in `Timer::elapsed`.
pub uninterp spec fn timer_elapsed(t: Timer) -> nat;

/// The nanoseconds in `Timer::duration`.
pub uninterp spec fn timer_duration(t: Timer) -> nat;

/// What `Timer::finished` returns.
pub uninterp spec fn timer_finished(t: Timer) -> bool;

/// What `Timer::just_finished` returns.
pub uninterp spec fn timer_just_finished(t: Timer) -> bool;

/// Whether the timer is in `TimerMode::Once` and not paused.
pub uninterp spec fn timer_counts_once(t: Timer) -> bool;

/// `Timer::new` with `TimerMode::Once`: a timer of the given duration that
/// has counted nothing, has not finished, and is not paused.
#[verifier::external_body]
pub(crate) fn once(duration: u64) -> (t: Timer)
    ensures
        timer_counts_once(t),
        timer_elapsed(t) == 0,
        timer_duration(t) == duration,
        !timer_finished(t),
        !timer_just_finished(t),
{
    Timer::new(Duration::from_nanos(duration), TimerMode::Once)
}

/// `Timer::tick` on a timer that counts once. A finished timer stays as it
/// is and no longer reports that it just finished. Any other adds `delta`
/// to what has elapsed; when that reaches the duration the timer finishes,
/// reports so for this tick, and holds its duration as elapsed.
#[verifier::external_body]
pub(crate) fn tick(t: &mut Timer, delta: u64)
    requires
        timer_counts_once(*old(t)),
        timer_elapsed(*old(t)) <= u64::MAX,
    ensures
        timer_counts_once(*final(t)),
        timer_duration(*final(t)) == timer_duration(*old(t)),
        timer_finished(*final(t)) == (timer_finished(*old(t)) || timer_elapsed(*old(t)) + delta as nat
            >= timer_duration(*old(t))),
        timer_just_finished(*final(t)) == (!timer_finished(*old(t)) && timer_elapsed(*old(t))
            + delta as nat >= timer_duration(*old(t))),
        timer_elapsed(*final(t)) == (if timer_finished(*old(t)) {
            timer_elapsed(*old(t))
        } else if timer_elapsed(*old(t)) + delta as nat >= timer_duration(*old(t)) {
            timer_duration(*old(t))
        } else {
            timer_elapsed(*old(t)) + delta as nat
        }),
    no_unwind
{
    t.tick(Duration::from_nanos(delta));
}

/// `Timer::clone`, which copies every field of the timer.
pub assume_specification[ <Timer as Clone>::clone ](t: &Timer) -> (c: Timer)
    ensures
        timer_counts_once(c) == timer_counts_once(*t),
        timer_elapsed(c) == timer_elapsed(*t),
        timer_duration(c) == timer_duration(*t),
        timer_finished(c) == timer_finished(*t),
        timer_just_finished(c) == timer_just_finished(*t),
;

/// `Timer::just_finished`.
#[verifier::external_body]
pub(crate) fn just_finished(t: &Timer) -> (b: bool)
    ensures
        b == timer_just_finished(*t),
{
    t.just_finished()
}

/// `Timer::finished`.
#[verifier::external_body]
pub(crate) fn finished(t: &Timer) -> (b: bool)
    ensures
        b == timer_finished(*t),
{
    t.finished()
}

} // verus!
