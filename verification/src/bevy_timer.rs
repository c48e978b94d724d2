//! Bevy's `Timer`, held together with a model of its state.
//!
//! Only the trusted items of this module make or change a `ModeledTimer`, so
//! its model always describes the timer it holds. Times are whole nanoseconds.
use vstd::prelude::*;
use core::time::Duration;
use bevy::time::{Timer, TimerMode};

verus! {

/// `bevy::time::Timer`, whose fields are private to Bevy.
#[verifier::external_type_specification]
#[verifier::external_body]
pub struct ExTimer(Timer);

/// The state of a Bevy timer (never paused here), in nanoseconds.
pub struct TimerModel {
    pub duration: nat,
    pub elapsed: nat,
    pub repeating: bool,
    pub finished: bool,
    pub times_finished: nat,
}

impl TimerModel {
    /// A timer of `duration`, repeating or not, with nothing elapsed.
    pub open spec fn fresh(duration: nat, repeating: bool) -> TimerModel {
        TimerModel { duration, elapsed: 0, repeating, finished: false, times_finished: 0 }
    }

    /// `Timer::tick(delta)` (bevy_time 0.17.3): a finished one-shot timer stays
    /// as it is; otherwise the elapsed time grows by `delta`, and on reaching
    /// the duration a one-shot timer stops at the duration while a repeating
    /// one wraps around, counting the whole periods passed (as a `u32`).
    pub open spec fn ticked(self, delta: nat) -> TimerModel {
        if !self.repeating && self.finished {
            TimerModel { times_finished: 0, ..self }
        } else {
            let e = self.elapsed + delta;
            if e >= self.duration {
                if !self.repeating {
                    TimerModel { elapsed: self.duration, finished: true, times_finished: 1, ..self }
                } else if self.duration == 0 {
                    TimerModel { elapsed: 0, finished: true, times_finished: 0xFFFF_FFFF, ..self }
                } else {
                    TimerModel {
                        elapsed: e % self.duration,
                        finished: true,
                        times_finished: (e / self.duration) % 0x1_0000_0000,
                        ..self
                    }
                }
            } else {
                TimerModel { elapsed: e, finished: false, times_finished: 0, ..self }
            }
        }
    }

    /// `Timer::just_finished`: the last tick reached the duration.
    pub open spec fn just_finished(self) -> bool {
        self.times_finished > 0
    }

    /// `Timer::reset`: nothing elapsed, not finished; duration and mode kept.
    pub open spec fn reset(self) -> TimerModel {
        TimerModel { elapsed: 0, finished: false, times_finished: 0, ..self }
    }
}

/// A Bevy timer with the model of its state.
pub struct ModeledTimer {
    timer: Timer,
    model: Ghost<TimerModel>,
}

impl ModeledTimer {
    /// The state of the timer.
    pub closed spec fn model(&self) -> TimerModel {
        self.model@
    }
}

impl Clone for ModeledTimer {
    /// Calls the derived `Timer::clone`, which copies every field.
    #[verifier::external_body]
    fn clone(&self) -> (r: ModeledTimer)
        ensures
            r.model() == self.model(),
    {
        ModeledTimer { timer: self.timer.clone(), model: Ghost(self.model@) }
    }
}

/// Calls `Timer::default` (derived): zero duration, one-shot, nothing elapsed,
/// not finished.
#[verifier::external_body]
pub(crate) fn timer_default() -> (r: ModeledTimer)
    ensures
        r.model() == TimerModel::fresh(0, false),
{
    ModeledTimer { timer: Timer::default(), model: Ghost(TimerModel::fresh(0, false)) }
}

/// Calls `Timer::new` with `TimerMode::Once`: a one-shot timer of
/// `duration_nanos` with nothing elapsed.
#[verifier::external_body]
pub(crate) fn timer_new_once(duration_nanos: u64) -> (r: ModeledTimer)
    ensures
        r.model() == TimerModel::fresh(duration_nanos as nat, false),
{
    ModeledTimer {
        timer: Timer::new(Duration::from_nanos(duration_nanos), TimerMode::Once),
        model: Ghost(TimerModel::fresh(duration_nanos as nat, false)),
    }
}

/// Calls `Timer::new` with `TimerMode::Repeating`: a repeating timer of
/// `duration_nanos` with nothing elapsed.
#[verifier::external_body]
pub(crate) fn timer_new_repeating(duration_nanos: u64) -> (r: ModeledTimer)
    ensures
        r.model() == TimerModel::fresh(duration_nanos as nat, true),
{
    ModeledTimer {
        timer: Timer::new(Duration::from_nanos(duration_nanos), TimerMode::Repeating),
        model: Ghost(TimerModel::fresh(duration_nanos as nat, true)),
    }
}

/// Calls `Timer::tick` with a delta of `delta_nanos`; the timer changes as
/// `TimerModel::ticked` says (the stopwatch's saturating add never saturates
/// on these sizes).
#[verifier::external_body]
pub(crate) fn timer_tick(t: &mut ModeledTimer, delta_nanos: u64)
    ensures
        final(t).model() == old(t).model().ticked(delta_nanos as nat),
{
    t.timer.tick(Duration::from_nanos(delta_nanos));
}

/// Calls `Timer::just_finished`: whether the last tick reached the duration.
#[verifier::external_body]
pub(crate) fn timer_just_finished(t: &ModeledTimer) -> (r: bool)
    ensures
        r == t.model().just_finished(),
{
    t.timer.just_finished()
}

/// Calls `Timer::is_finished`: whether the timer has reached its duration.
#[verifier::external_body]
pub(crate) fn timer_is_finished(t: &ModeledTimer) -> (r: bool)
    ensures
        r == t.model().finished,
{
    t.timer.is_finished()
}

/// Calls `Timer::elapsed`, in nanoseconds.
#[verifier::external_body]
pub(crate) fn timer_elapsed_nanos(t: &ModeledTimer) -> (r: u128)
    ensures
        r == t.model().elapsed,
{
    t.timer.elapsed().as_nanos()
}

/// Calls `Timer::duration`, in nanoseconds.
#[verifier::external_body]
pub(crate) fn timer_duration_nanos(t: &ModeledTimer) -> (r: u128)
    ensures
        r == t.model().duration,
{
    t.timer.duration().as_nanos()
}

/// Calls `Timer::reset`: nothing elapsed, not finished.
#[verifier::external_body]
pub(crate) fn timer_reset(t: &mut ModeledTimer)
    ensures
        final(t).model() == old(t).model().reset(),
{
    t.timer.reset();
}

} // verus!
