//! The repeating timer that paces fades and animation frames.

use bevy::time::{Timer, TimerMode};
use std::time::Duration;
use vstd::prelude::*;

verus! {

/// One tick of a repeating `bevy::time::Timer`. The body makes a timer of
/// `duration_ms` with `Timer::new`, puts `elapsed_ms` on it with
/// `set_elapsed`, calls `tick` with `delta_ms`, and reads it back with
/// `elapsed` and `finished`.
///
/// Trusted, not proved: a repeating timer that is not paused adds the
/// delta to the time on it, is finished exactly when the sum has reached
/// the duration, and keeps the remainder of the sum by the duration.
/// Whole milliseconds go in, so whole milliseconds come out.
#[verifier::external_body]
pub(crate) fn tick_repeating_timer(duration_ms: u32, elapsed_ms: u32, delta_ms: u32) -> (after: (u32, bool))
    requires
        duration_ms > 0,
    ensures
        after.0 == (elapsed_ms + delta_ms) % (duration_ms as int),
        after.1 == (elapsed_ms + delta_ms >= duration_ms),
{
    let mut timer = Timer::new(Duration::from_millis(duration_ms as u64), TimerMode::Repeating);
    timer.set_elapsed(Duration::from_millis(elapsed_ms as u64));
    timer.tick(Duration::from_millis(delta_ms as u64));
    (timer.elapsed().as_millis() as u32, timer.finished())
}

} // verus!
