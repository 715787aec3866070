//! The repeating timer that paces a clip.

use bevy_time::{Timer, TimerMode};
use core::time::Duration;
use vstd::prelude::*;

verus! {

/// Runs a repeating `bevy_time::Timer` of period `frame_time` over one tick:
/// the timer is made with `Timer::new`, put at `elapsed` with
/// `Timer::set_elapsed`, and moved on by `delta` with `Timer::tick`. All three
/// times are in nanoseconds.
///
/// Trusted, not proved: the first result, read with
/// `Timer::times_finished_this_tick`, is the number of whole periods in
/// `elapsed + delta`; the second, read with `Timer::elapsed`, is the time left
/// over. The timer counts its periods in a `u32` and divides by its period,
/// which is why the count must fit and the period may not be zero.
#[verifier::external_body]
pub(crate) fn tick_repeating(frame_time: u64, elapsed: u64, delta: u64) -> (ticked: (u32, u64))
    requires
        0 < frame_time,
        (elapsed + delta) / (frame_time as int) <= u32::MAX,
    ensures
        ticked.0 == (elapsed + delta) / (frame_time as int),
        ticked.1 == (elapsed + delta) % (frame_time as int),
{
    let mut timer = Timer::new(Duration::from_nanos(frame_time), TimerMode::Repeating);
    timer.set_elapsed(Duration::from_nanos(elapsed));
    timer.tick(Duration::from_nanos(delta));
    (timer.times_finished_this_tick(), timer.elapsed().as_nanos() as u64)
}

} // verus!
