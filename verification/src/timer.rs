//! The repeating timer that paces the walk cycle.

use bevy::time::{Timer, TimerMode};
use std::time::Duration;
use vstd::prelude::*;

verus! {

/// Time on the timer once `delta` has been added to `elapsed` and every whole
/// interval has been taken off again.
pub open spec fn elapsed_after(interval: nat, elapsed: nat, delta: nat) -> nat {
    if interval == 0 {
        0
    } else {
        (((elapsed + delta) as int) % (interval as int)) as nat
    }
}

/// Whole intervals that end while `delta` is added to `elapsed`.
pub open spec fn periods_completed(interval: nat, elapsed: nat, delta: nat) -> nat {
    if interval == 0 {
        0
    } else {
        (((elapsed + delta) as int) / (interval as int)) as nat
    }
}

/// Whether a tick of `delta` reaches the end of the interval.
pub open spec fn fires(interval: nat, elapsed: nat, delta: nat) -> bool {
    elapsed + delta >= interval
}

/// Runs `Timer::tick` of `bevy::time` once, by `delta` nanoseconds, on a
/// `TimerMode::Repeating` timer that `Timer::new` made with a duration of
/// `interval` nanoseconds and `Timer::set_elapsed` put at `elapsed`
/// nanoseconds. Returns what `Timer::elapsed`, in nanoseconds, and
/// `Timer::finished` report after the tick.
///
/// Believed without proof, as the source of `Timer::tick` has it: a repeating
/// timer that is not paused adds `delta` to its elapsed time, is finished
/// exactly when that sum has reached its duration, and then keeps the
/// remainder of the sum by the duration as its elapsed time.
#[verifier::external_body]
fn repeating_timer_tick(interval: u64, elapsed: u64, delta: u64) -> (outcome: (u64, bool))
    requires
        interval > 0,
    ensures
        outcome.0 == elapsed_after(interval as nat, elapsed as nat, delta as nat),
        outcome.1 == fires(interval as nat, elapsed as nat, delta as nat),
{
    let mut timer = Timer::new(Duration::from_nanos(interval), TimerMode::Repeating);
    timer.set_elapsed(Duration::from_nanos(elapsed));
    let fired = timer.tick(Duration::from_nanos(delta)).finished();
    (timer.elapsed().as_nanos() as u64, fired)
}

/// A repeating countdown with a fixed interval, both in nanoseconds.
#[derive(Clone, Copy, Debug)]
pub struct AnimationTimer {
    interval: u64,
    elapsed: u64,
}

impl AnimationTimer {
    /// Length of one period.
    pub closed spec fn interval(&self) -> nat {
        self.interval as nat
    }

    /// Time gathered since the last period ended.
    pub closed spec fn elapsed(&self) -> nat {
        self.elapsed as nat
    }

    /// The interval is positive and the time gathered lies below it.
    pub open spec fn wf(&self) -> bool {
        0 <= self.elapsed() < self.interval() <= u64::MAX
    }

    /// A timer at rest. There is none with an empty interval.
    pub fn new(interval: u64) -> (timer: Option<AnimationTimer>)
        ensures
            timer.is_some() <==> interval > 0,
            timer.is_some() ==> timer.unwrap().wf() && timer.unwrap().interval() == interval
                && timer.unwrap().elapsed() == 0,
    {
        if interval == 0 {
            None
        } else {
            Some(AnimationTimer { interval, elapsed: 0 })
        }
    }

    pub fn interval_nanos(&self) -> (nanos: u64)
        ensures
            nanos == self.interval(),
    {
        self.interval
    }

    pub fn elapsed_nanos(&self) -> (nanos: u64)
        ensures
            nanos == self.elapsed(),
    {
        self.elapsed
    }

    /// Advances the timer by `delta` nanoseconds and says whether it fired.
    /// Whatever is left over after a period ends is carried into the next one,
    /// never dropped.
    pub fn tick(&mut self, delta: u64) -> (fired: bool)
        requires
            old(self).wf(),
        ensures
            final(self).wf(),
            final(self).interval() == old(self).interval(),
            final(self).elapsed() == elapsed_after(
                old(self).interval(),
                old(self).elapsed(),
                delta as nat,
            ),
            fired == fires(old(self).interval(), old(self).elapsed(), delta as nat),
    {
        let outcome = repeating_timer_tick(self.interval, self.elapsed, delta);
        proof {
            let sum: int = self.elapsed + delta;
            let period: int = self.interval as int;
            assert(0 <= sum % period < period) by (nonlinear_arith)
                requires
                    period > 0,
                    sum >= 0,
            ;
        }
        self.elapsed = outcome.0;
        outcome.1
    }
}

/// Sum of a run of tick lengths.
pub open spec fn total_time(deltas: Seq<nat>) -> nat
    decreases deltas.len(),
{
    if deltas.len() == 0 {
        0
    } else {
        total_time(deltas.drop_last()) + deltas.last()
    }
}

/// Time on a timer that stood at `start` once it has been ticked by each of
/// `deltas` in turn.
pub open spec fn elapsed_after_run(interval: nat, start: nat, deltas: Seq<nat>) -> nat
    decreases deltas.len(),
{
    if deltas.len() == 0 {
        start
    } else {
        elapsed_after(
            interval,
            elapsed_after_run(interval, start, deltas.drop_last()),
            deltas.last(),
        )
    }
}

/// Number of ticks of the run on which the timer fired.
pub open spec fn fire_count(interval: nat, start: nat, deltas: Seq<nat>) -> nat
    decreases deltas.len(),
{
    if deltas.len() == 0 {
        0
    } else {
        let before = elapsed_after_run(interval, start, deltas.drop_last());
        fire_count(interval, start, deltas.drop_last()) + if fires(
            interval,
            before,
            deltas.last(),
        ) {
            1nat
        } else {
            0nat
        }
    }
}

/// Number of whole intervals that ended during the run.
pub open spec fn periods_in_run(interval: nat, start: nat, deltas: Seq<nat>) -> nat
    decreases deltas.len(),
{
    if deltas.len() == 0 {
        0
    } else {
        let before = elapsed_after_run(interval, start, deltas.drop_last());
        periods_in_run(interval, start, deltas.drop_last()) + periods_completed(
            interval,
            before,
            deltas.last(),
        )
    }
}

/// No tick of the run is long enough to end two intervals at once.
pub open spec fn one_period_per_tick(interval: nat, start: nat, deltas: Seq<nat>) -> bool
    decreases deltas.len(),
{
    if deltas.len() == 0 {
        true
    } else {
        let before = elapsed_after_run(interval, start, deltas.drop_last());
        one_period_per_tick(interval, start, deltas.drop_last()) && before + deltas.last() < 2
            * interval
    }
}

/// Quotient and remainder of `sum` by `period`, and their bounds.
proof fn lemma_split(sum: int, period: int)
    requires
        sum >= 0,
        period > 0,
    ensures
        sum == period * (sum / period) + sum % period,
        0 <= sum % period < period,
        0 <= sum / period,
        sum < period ==> sum / period == 0,
        period <= sum < 2 * period ==> sum / period == 1,
{
    assert(sum == period * (sum / period) + sum % period && 0 <= sum % period < period && 0 <= sum
        / period) by (nonlinear_arith)
        requires
            sum >= 0,
            period > 0,
    ;
    let q = sum / period;
    assert(sum < period ==> q == 0) by (nonlinear_arith)
        requires
            sum == period * q + sum % period,
            0 <= sum % period,
            q >= 0,
            period > 0,
    ;
    assert(period <= sum < 2 * period ==> q == 1) by (nonlinear_arith)
        requires
            sum == period * q + sum % period,
            0 <= sum % period < period,
            q >= 0,
            period > 0,
    ;
}

/// A quotient is fixed by its remainder's bounds.
proof fn lemma_quotient_unique(sum: int, period: int, q: int, r: int)
    requires
        period > 0,
        sum == period * q + r,
        0 <= r < period,
    ensures
        q == sum / period,
        r == sum % period,
{
    assert(period * q == q * period) by (nonlinear_arith);
    vstd::arithmetic::div_mod::lemma_fundamental_div_mod_converse(sum, period, q, r);
}

/// No time is lost over a run of ticks: the time the timer started with plus
/// the time supplied is the whole intervals that ended plus what the timer
/// still holds, and that is less than one interval.
pub proof fn lemma_run_conserves_time(interval: nat, start: nat, deltas: Seq<nat>)
    requires
        interval > 0,
        start < interval,
    ensures
        start + total_time(deltas) == interval * periods_in_run(interval, start, deltas)
            + elapsed_after_run(interval, start, deltas),
        elapsed_after_run(interval, start, deltas) < interval,
    decreases deltas.len(),
{
    if deltas.len() > 0 {
        let head = deltas.drop_last();
        lemma_run_conserves_time(interval, start, head);
        let before = elapsed_after_run(interval, start, head);
        let sum: int = (before + deltas.last()) as int;
        let period: int = interval as int;
        lemma_split(sum, period);
        let earlier: int = periods_in_run(interval, start, head) as int;
        let now: int = periods_completed(interval, before, deltas.last()) as int;
        assert(now == sum / period);
        assert(elapsed_after_run(interval, start, deltas) == sum % period);
        assert(periods_in_run(interval, start, deltas) == earlier + now);
        assert(period * (earlier + now) == period * earlier + period * now) by (nonlinear_arith);
        assert(total_time(deltas) == total_time(head) + deltas.last());
        assert(start + total_time(head) == period * earlier + before);
        assert(sum == period * now + sum % period);
    } else {
        assert(interval * 0 == 0) by (nonlinear_arith);
    }
}

/// However a span of time is cut into ticks, the intervals that end during
/// it number the span divided by the interval, rounded down.
pub proof fn lemma_periods_depend_on_total_only(interval: nat, deltas: Seq<nat>)
    requires
        interval > 0,
    ensures
        periods_in_run(interval, 0, deltas) == total_time(deltas) / interval,
{
    lemma_run_conserves_time(interval, 0, deltas);
    lemma_quotient_unique(
        total_time(deltas) as int,
        interval as int,
        periods_in_run(interval, 0, deltas) as int,
        elapsed_after_run(interval, 0, deltas) as int,
    );
}

/// While no single tick ends two intervals, the timer fires once for each
/// interval that ends.
pub proof fn lemma_fires_once_per_period(interval: nat, start: nat, deltas: Seq<nat>)
    requires
        interval > 0,
        start < interval,
        one_period_per_tick(interval, start, deltas),
    ensures
        fire_count(interval, start, deltas) == periods_in_run(interval, start, deltas),
    decreases deltas.len(),
{
    if deltas.len() > 0 {
        let head = deltas.drop_last();
        lemma_fires_once_per_period(interval, start, head);
        lemma_run_conserves_time(interval, start, head);
        let before = elapsed_after_run(interval, start, head);
        lemma_split((before + deltas.last()) as int, interval as int);
    }
}

/// Frame-rate independence: a timer that starts at rest fires as many times
/// as there are whole intervals in the total time supplied, however that time
/// is cut into ticks, as long as no single tick ends two intervals.
pub proof fn lemma_fire_count_depends_on_total_only(interval: nat, deltas: Seq<nat>)
    requires
        interval > 0,
        one_period_per_tick(interval, 0, deltas),
    ensures
        fire_count(interval, 0, deltas) == total_time(deltas) / interval,
{
    lemma_fires_once_per_period(interval, 0, deltas);
    lemma_periods_depend_on_total_only(interval, deltas);
}

/// Two runs that supply the same total time make a timer at rest fire
/// equally often, provided neither holds a tick that ends two intervals.
pub proof fn lemma_equal_totals_fire_equally(interval: nat, first: Seq<nat>, second: Seq<nat>)
    requires
        interval > 0,
        total_time(first) == total_time(second),
        one_period_per_tick(interval, 0, first),
        one_period_per_tick(interval, 0, second),
    ensures
        fire_count(interval, 0, first) == fire_count(interval, 0, second),
{
    lemma_fire_count_depends_on_total_only(interval, first);
    lemma_fire_count_depends_on_total_only(interval, second);
}

/// A tick that ends exactly one interval takes exactly one interval off.
pub proof fn lemma_single_period_subtracts_interval(interval: nat, elapsed: nat, delta: nat)
    requires
        interval > 0,
        interval <= elapsed + delta < 2 * interval,
    ensures
        elapsed_after(interval, elapsed, delta) == elapsed + delta - interval,
{
    lemma_quotient_unique(
        (elapsed + delta) as int,
        interval as int,
        1,
        elapsed + delta - interval,
    );
}

} // verus!
