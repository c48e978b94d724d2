use vstd::prelude::*;
use vstd::arithmetic::div_mod::{
    lemma_basic_div, lemma_div_by_self, lemma_div_is_ordered, lemma_div_plus_one, lemma_fundamental_div_mod,
    lemma_hoist_over_denominator, lemma_mod_bound, lemma_mod_multiples_vanish, lemma_small_mod,
};
use crate::bevy_timer::{
    timer_default, timer_duration_nanos, timer_is_finished, timer_new_once, timer_new_repeating,
    timer_tick, ModeledTimer, TimerModel,
};
use crate::program_state::{ProgramEvent, ProgramState};

verus! {

/// A condition that holds once every period, driven by a repeating timer.
pub struct RepeatingDelay {
    timer: ModeledTimer,
}

impl RepeatingDelay {
    /// The state of the repeating timer.
    pub closed spec fn model(&self) -> TimerModel {
        self.timer.model()
    }
}

impl Clone for RepeatingDelay {
    /// A separate condition whose timer starts in the same state.
    fn clone(&self) -> (r: RepeatingDelay)
        ensures
            r.model() == self.model(),
    {
        RepeatingDelay { timer: self.timer.clone() }
    }
}

/// Makes a condition that yields `true` every `period_nanos` nanoseconds: a
/// repeating timer of that period with nothing elapsed.
pub fn repeating_with_delay(period_nanos: u64) -> (r: RepeatingDelay)
    ensures
        r.model() == TimerModel::fresh(period_nanos as nat, true),
{
    RepeatingDelay { timer: timer_new_repeating(period_nanos) }
}

impl RepeatingDelay {
    /// Advances the timer by the frame's `delta_nanos` and tells whether it
    /// finished on this tick.
    pub fn poll(&mut self, delta_nanos: u64) -> (r: bool)
        ensures
            final(self).model() == old(self).model().ticked(delta_nanos as nat),
            r == final(self).model().finished,
    {
        timer_tick(&mut self.timer, delta_nanos);
        timer_is_finished(&self.timer)
    }
}

/// Nanoseconds in a second: the setup delay.
pub const SETUP_DELAY_NANOS: u64 = 1_000_000_000;

/// Counts down the pause between setting a scene up and playing it.
pub struct SetupDelay {
    timer: ModeledTimer,
}

/// The setup timer as it is ticked: armed as a one-second one-shot timer if
/// it has no duration yet, otherwise as it was.
pub open spec fn setup_timer_armed(m: TimerModel) -> TimerModel {
    if m.duration == 0 {
        TimerModel::fresh(SETUP_DELAY_NANOS as nat, false)
    } else {
        m
    }
}

impl SetupDelay {
    /// The state of the setup timer.
    pub closed spec fn model(&self) -> TimerModel {
        self.timer.model()
    }

    /// A delay that has not been armed yet: a one-shot timer of zero duration.
    pub fn new() -> (r: SetupDelay)
        ensures
            r.model() == TimerModel::fresh(0, false),
    {
        SetupDelay { timer: timer_default() }
    }

    /// Arms a one-second one-shot timer if the timer has no duration yet, and
    /// advances it by the frame's `delta_nanos`. Once the timer has finished,
    /// the phase moves on as the setup delay's end moves it (from setting up to
    /// in game); until then it stays as it is.
    pub fn set_in_game_soon(&mut self, phase: ProgramState, delta_nanos: u64) -> (next: ProgramState)
        ensures
            final(self).model() == setup_timer_armed(old(self).model()).ticked(delta_nanos as nat),
            next == if final(self).model().finished {
                phase.spec_after(ProgramEvent::SetupDelayElapsed)
            } else {
                phase
            },
    {
        if timer_duration_nanos(&self.timer) == 0 {
            self.timer = timer_new_once(SETUP_DELAY_NANOS);
        }
        timer_tick(&mut self.timer, delta_nanos);
        if timer_is_finished(&self.timer) {
            phase.after(ProgramEvent::SetupDelayElapsed)
        } else {
            phase
        }
    }
}

/// The sum of the frame times `deltas`.
pub open spec fn total(deltas: Seq<nat>) -> nat
    decreases deltas.len(),
{
    if deltas.len() == 0 {
        0
    } else {
        total(deltas.drop_last()) + deltas.last()
    }
}

/// The model after ticking `m` by each of `deltas` in turn.
pub open spec fn ticked_all(m: TimerModel, deltas: Seq<nat>) -> TimerModel
    decreases deltas.len(),
{
    if deltas.len() == 0 {
        m
    } else {
        ticked_all(m, deltas.drop_last()).ticked(deltas.last())
    }
}

/// The setup timer after one call per frame time in `deltas`.
pub open spec fn setup_after(m: TimerModel, deltas: Seq<nat>) -> TimerModel
    decreases deltas.len(),
{
    if deltas.len() == 0 {
        m
    } else {
        setup_timer_armed(setup_after(m, deltas.drop_last())).ticked(deltas.last())
    }
}

/// A one-shot timer of positive duration, ticked from nothing elapsed: it has
/// finished exactly when the frame times add up to its duration, and until then
/// the time elapsed is their sum.
pub proof fn lemma_one_shot_timer(d: nat, deltas: Seq<nat>)
    requires
        d > 0,
    ensures
        ticked_all(TimerModel::fresh(d, false), deltas).finished <==> total(deltas) >= d,
        ticked_all(TimerModel::fresh(d, false), deltas).duration == d,
        !ticked_all(TimerModel::fresh(d, false), deltas).repeating,
        total(deltas) < d ==> ticked_all(TimerModel::fresh(d, false), deltas).elapsed == total(deltas),
    decreases deltas.len(),
{
    if deltas.len() > 0 {
        lemma_one_shot_timer(d, deltas.drop_last());
    }
}

/// The setup delay, started unarmed, goes in game exactly on the first call at
/// which the frame times add up to one second, and on every call after that.
pub proof fn lemma_setup_delay(deltas: Seq<nat>)
    requires
        deltas.len() > 0,
    ensures
        setup_after(TimerModel::fresh(0, false), deltas).finished <==> total(deltas)
            >= SETUP_DELAY_NANOS,
    decreases deltas.len(),
{
    let d = SETUP_DELAY_NANOS as nat;
    lemma_setup_matches_one_shot(deltas);
    lemma_one_shot_timer(d, deltas);
}

/// After its first call the setup delay is the one-second one-shot timer
/// ticked by every frame time so far.
proof fn lemma_setup_matches_one_shot(deltas: Seq<nat>)
    requires
        deltas.len() > 0,
    ensures
        setup_after(TimerModel::fresh(0, false), deltas) == ticked_all(
            TimerModel::fresh(SETUP_DELAY_NANOS as nat, false),
            deltas,
        ),
    decreases deltas.len(),
{
    if deltas.len() == 1 {
        assert(deltas.drop_last().len() == 0);
        assert(setup_after(TimerModel::fresh(0, false), deltas.drop_last()) == TimerModel::fresh(
            0,
            false,
        ));
        assert(ticked_all(TimerModel::fresh(SETUP_DELAY_NANOS as nat, false), deltas.drop_last())
            == TimerModel::fresh(SETUP_DELAY_NANOS as nat, false));
    } else {
        lemma_setup_matches_one_shot(deltas.drop_last());
        lemma_one_shot_timer(SETUP_DELAY_NANOS as nat, deltas.drop_last());
    }
}

/// A repeating timer of positive period yields `true` once every period: ticked
/// from nothing elapsed, its elapsed time is the sum of the frame times modulo
/// the period, and a tick finishes it exactly when the sum passes a multiple of
/// the period.
pub proof fn lemma_repeating_timer(d: nat, deltas: Seq<nat>)
    requires
        d > 0,
    ensures
        ticked_all(TimerModel::fresh(d, true), deltas).elapsed == total(deltas) % d,
        ticked_all(TimerModel::fresh(d, true), deltas).duration == d,
        ticked_all(TimerModel::fresh(d, true), deltas).repeating,
        deltas.len() > 0 ==> (ticked_all(TimerModel::fresh(d, true), deltas).finished <==> total(deltas) / d
            > total(deltas.drop_last()) / d),
    decreases deltas.len(),
{
    if deltas.len() == 0 {
        assert(0nat % d == 0) by (nonlinear_arith)
            requires
                d > 0,
        ;
    } else {
        let prev = deltas.drop_last();
        lemma_repeating_timer(d, prev);
        let s = total(prev);
        let delta = deltas.last();
        lemma_period_crossing(s, delta, d);
    }
}

/// With `e` the remainder of `s` by `d`, `e + delta` reaches `d` exactly when
/// `s + delta` passes a multiple of `d`, and the new remainder is that of `e + delta`.
proof fn lemma_period_crossing(s: nat, delta: nat, d: nat)
    requires
        d > 0,
    ensures
        (s % d + delta >= d) <==> ((s + delta) / d > s / d),
        (s % d + delta) % d == (s + delta) % d,
        s % d + delta < d ==> s % d + delta == (s + delta) % d,
{
    let di = d as int;
    let q = s as int / di;
    let e = s as int % di;
    let r = e + delta;
    lemma_fundamental_div_mod(s as int, di);
    lemma_mod_bound(s as int, di);
    // s + delta == d * q + r, so its quotient is q plus that of r, and its
    // remainder is that of r
    assert(s + delta == di * q + r);
    lemma_hoist_over_denominator(r, q, d);
    assert(r + q * di == s + delta) by (nonlinear_arith)
        requires
            s + delta == di * q + r,
    ;
    lemma_mod_multiples_vanish(q, r, di);
    if r < di {
        lemma_basic_div(r, di);
        lemma_small_mod(r as nat, d);
    } else {
        lemma_div_is_ordered(di, r, di);
        lemma_div_by_self(di);
    }
}

/// The first `k` calls of a fresh repeating condition of period `d`, with the
/// frame times `deltas`: the `k`-th call returns `true` exactly when the sum of
/// the first `k` frame times passes a multiple of `d`.
proof fn lemma_prefix_step(d: nat, deltas: Seq<nat>, k: int)
    requires
        d > 0,
        1 <= k <= deltas.len(),
    ensures
        total(deltas.take(k)) == total(deltas.take(k - 1)) + deltas[k - 1],
        ticked_all(TimerModel::fresh(d, true), deltas.take(k)).finished <==> total(deltas.take(k)) / d
            > total(deltas.take(k - 1)) / d,
{
    assert(deltas.take(k).drop_last() =~= deltas.take(k - 1));
    lemma_repeating_timer(d, deltas.take(k));
}

/// How many of the calls with the frame times `deltas` return `true`, for a
/// fresh repeating condition of period `d`.
pub open spec fn count_finishes(d: nat, deltas: Seq<nat>) -> nat
    decreases deltas.len(),
{
    if deltas.len() == 0 {
        0
    } else {
        count_finishes(d, deltas.drop_last()) + if ticked_all(TimerModel::fresh(d, true), deltas).finished {
            1nat
        } else {
            0nat
        }
    }
}

/// A repeating condition of period `d` yields `true` at most once per whole
/// period of frame time, and exactly once per whole period when no frame is
/// longer than the period.
pub proof fn lemma_repeating_count(d: nat, deltas: Seq<nat>)
    requires
        d > 0,
    ensures
        count_finishes(d, deltas) <= total(deltas) / d,
        (forall|i: int| 0 <= i < deltas.len() ==> #[trigger] deltas[i] <= d) ==> count_finishes(d, deltas)
            == total(deltas) / d,
    decreases deltas.len(),
{
    if deltas.len() == 0 {
        lemma_basic_div(0, d as int);
    } else {
        let prev = deltas.drop_last();
        lemma_repeating_count(d, prev);
        lemma_repeating_timer(d, deltas);
        let sp = total(prev);
        let st = total(deltas);
        lemma_div_is_ordered(sp as int, st as int, d as int);
        if forall|i: int| 0 <= i < deltas.len() ==> #[trigger] deltas[i] <= d {
            assert forall|i: int| 0 <= i < prev.len() implies #[trigger] prev[i] <= d by {
                assert(prev[i] == deltas[i]);
            }
            assert(deltas.last() == deltas[deltas.len() - 1]);
            lemma_div_is_ordered(st as int, (sp + d) as int, d as int);
            lemma_div_plus_one(sp as int, d as int);
        }
    }
}

/// While no call returns `true`, the whole periods passed stay as they were.
proof fn lemma_no_finish_keeps_periods(d: nat, deltas: Seq<nat>, i: int, m: int)
    requires
        d > 0,
        0 <= i <= m <= deltas.len(),
        forall|k: int| i < k <= m ==> !#[trigger] ticked_all(TimerModel::fresh(d, true), deltas.take(k)).finished,
    ensures
        total(deltas.take(m)) / d == total(deltas.take(i)) / d,
    decreases m - i,
{
    if m > i {
        lemma_no_finish_keeps_periods(d, deltas, i, m - 1);
        lemma_prefix_step(d, deltas, m);
        assert(!ticked_all(TimerModel::fresh(d, true), deltas.take(m)).finished);
        lemma_div_is_ordered(total(deltas.take(m - 1)) as int, total(deltas.take(m)) as int, d as int);
    }
}

/// Every run of consecutive calls whose frame times add up to at least one
/// period contains a call that returns `true`.
pub proof fn lemma_repeating_run(d: nat, deltas: Seq<nat>, i: int, j: int)
    requires
        d > 0,
        0 <= i < j <= deltas.len(),
        total(deltas.take(j)) >= total(deltas.take(i)) + d,
    ensures
        exists|k: int| i < k <= j && #[trigger] ticked_all(TimerModel::fresh(d, true), deltas.take(k)).finished,
{
    if !exists|k: int| i < k <= j && #[trigger] ticked_all(TimerModel::fresh(d, true), deltas.take(k)).finished {
        lemma_no_finish_keeps_periods(d, deltas, i, j);
        let si = total(deltas.take(i));
        lemma_div_is_ordered((si + d) as int, total(deltas.take(j)) as int, d as int);
        lemma_div_plus_one(si as int, d as int);
    }
}

/// A one-shot timer that has finished stays finished and does not report a
/// fresh finish on any later tick.
pub proof fn lemma_one_shot_finishes_once(m: TimerModel, delta: nat)
    requires
        !m.repeating,
        m.finished,
    ensures
        m.ticked(delta).finished,
        !m.ticked(delta).just_finished(),
        m.ticked(delta).elapsed == m.elapsed,
{
}

} // verus!
