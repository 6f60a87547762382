//! Time accounting: instants and durations in whole nanoseconds, a time context that
//! accumulates elapsed time and update rates, and a minimum-interval event gate.
use vstd::arithmetic::power::{lemma_pow_positive, pow};
use vstd::prelude::*;

verus! {

/// Nanoseconds in one second.
pub const NANOS_PER_SEC: u64 = 1_000_000_000;

/// A span of time in whole nanoseconds.
#[derive(Clone, Copy, Debug, PartialEq, Eq, Structural)]
pub struct Duration {
    pub nanos: u64,
}

impl Duration {
    pub fn from_nanos(nanos: u64) -> (r: Duration)
        ensures
            r.nanos == nanos,
    {
        Duration { nanos }
    }

    pub fn from_millis(millis: u64) -> (r: Duration)
        requires
            millis * 1_000_000 <= u64::MAX,
        ensures
            r.nanos == millis * 1_000_000,
    {
        Duration { nanos: millis * 1_000_000 }
    }

    pub fn from_secs(secs: u64) -> (r: Duration)
        requires
            secs * NANOS_PER_SEC <= u64::MAX,
        ensures
            r.nanos == secs * NANOS_PER_SEC,
    {
        Duration { nanos: secs * NANOS_PER_SEC }
    }

    pub fn as_nanos(&self) -> (r: u64)
        ensures
            r == self.nanos,
    {
        self.nanos
    }
}

/// A point on a monotonic clock, in nanoseconds since an origin fixed by that clock.
#[derive(Clone, Copy, Debug, PartialEq, Eq, Structural)]
pub struct Instant {
    pub nanos: u64,
}

impl Instant {
    pub fn from_nanos(nanos: u64) -> (r: Instant)
        ensures
            r.nanos == nanos,
    {
        Instant { nanos }
    }

    /// The time elapsed from `earlier` to `self`, or zero when `earlier` is later.
    pub fn saturating_duration_since(&self, earlier: Instant) -> (r: Duration)
        ensures
            r.nanos == span_between(earlier.nanos as nat, self.nanos as nat),
    {
        if self.nanos >= earlier.nanos {
            Duration { nanos: self.nanos - earlier.nanos }
        } else {
            Duration { nanos: 0 }
        }
    }
}

/// Rates are kept in fixed point: millionths of an update per second.
pub const MICROHERTZ_PER_HERTZ: u64 = 1_000_000;

/// A rate in micro-hertz times its period in nanoseconds.
pub const RATE_SCALE: u64 = 1_000_000_000_000_000;

/// An update rate, in millionths of an update per second.
#[derive(Clone, Copy, Debug, PartialEq, Eq, Structural)]
pub struct UpdateRate {
    pub micro_hz: u64,
}

/// The instantaneous rate of one update that took `elapsed` nanoseconds; zero when no
/// time passed.
pub open spec fn rate_of(elapsed: nat) -> nat {
    if elapsed == 0 {
        0
    } else {
        RATE_SCALE as nat / elapsed
    }
}

/// The exponential moving average after one more sample: the previous value keeps a
/// weight of 95 in 100, the new sample gets 5 in 100 (rounded down).
pub open spec fn smoothed_rate(previous: nat, sample: nat) -> nat {
    (previous * 95 + sample * 5) / 100
}

/// The sum of a sequence of durations.
pub open spec fn total_of(elapsed: Seq<nat>) -> nat
    decreases elapsed.len(),
{
    if elapsed.len() == 0 {
        0
    } else {
        total_of(elapsed.drop_last()) + elapsed.last()
    }
}

/// What a time context holds, with every duration and instant in nanoseconds and every
/// rate in micro-hertz.
pub struct TimeView {
    pub total_time: nat,
    pub current_instant: nat,
    pub previous_update_time: nat,
    pub updates_per_second: nat,
    pub updates_per_second_smoothed: nat,
    pub update_count: nat,
}

impl TimeView {
    /// A context that starts at `now` with nothing elapsed.
    pub open spec fn start(now: nat) -> TimeView {
        TimeView {
            total_time: 0,
            current_instant: now,
            previous_update_time: 0,
            updates_per_second: 0,
            updates_per_second_smoothed: 0,
            update_count: 0,
        }
    }

    /// The context after one update that took `elapsed` nanoseconds.
    pub open spec fn next(self, elapsed: nat) -> TimeView {
        TimeView {
            total_time: self.total_time + elapsed,
            current_instant: self.current_instant + elapsed,
            previous_update_time: elapsed,
            updates_per_second: rate_of(elapsed),
            updates_per_second_smoothed: smoothed_rate(
                self.updates_per_second_smoothed,
                rate_of(elapsed),
            ),
            update_count: self.update_count + 1,
        }
    }

    /// The context after one update for each element of `elapsed`, in order.
    pub open spec fn after(self, elapsed: Seq<nat>) -> TimeView
        decreases elapsed.len(),
    {
        if elapsed.len() == 0 {
            self
        } else {
            self.after(elapsed.drop_last()).next(elapsed.last())
        }
    }
}

/// Tracks time passing: total time, the latest instant, and the update rate, both as
/// measured on the latest update and smoothed over many.
#[derive(Clone, Copy)]
pub struct TimeContext {
    total_time: Duration,
    current_instant: Instant,
    previous_update_time: Duration,
    updates_per_second: UpdateRate,
    updates_per_second_smoothed: UpdateRate,
    update_count: u64,
}

impl View for TimeContext {
    type V = TimeView;

    closed spec fn view(&self) -> TimeView {
        TimeView {
            total_time: self.total_time.nanos as nat,
            current_instant: self.current_instant.nanos as nat,
            previous_update_time: self.previous_update_time.nanos as nat,
            updates_per_second: self.updates_per_second.micro_hz as nat,
            updates_per_second_smoothed: self.updates_per_second_smoothed.micro_hz as nat,
            update_count: self.update_count as nat,
        }
    }
}

impl TimeContext {
    #[verifier::type_invariant]
    spec fn counters_in_range(&self) -> bool {
        &&& self.total_time.nanos <= self.current_instant.nanos
        &&& self.updates_per_second.micro_hz <= RATE_SCALE
        &&& self.updates_per_second_smoothed.micro_hz <= RATE_SCALE
    }

    /// A context whose clock reads `now` and in which no time has passed yet.
    pub fn new(now: Instant) -> (r: TimeContext)
        ensures
            r@ == TimeView::start(now.nanos as nat),
    {
        TimeContext {
            total_time: Duration { nanos: 0 },
            current_instant: now,
            previous_update_time: Duration { nanos: 0 },
            updates_per_second: UpdateRate { micro_hz: 0 },
            updates_per_second_smoothed: UpdateRate { micro_hz: 0 },
            update_count: 0,
        }
    }

    /// Records one update that took `elapsed`.
    pub fn update(&mut self, elapsed: Duration)
        requires
            old(self)@.current_instant + elapsed.nanos <= u64::MAX,
            old(self)@.update_count < u64::MAX,
        ensures
            final(self)@ == old(self)@.next(elapsed.nanos as nat),
    {
        proof {
            use_type_invariant(&*self);
        }
        let fps: u64 = if elapsed.nanos > 0 {
            RATE_SCALE / elapsed.nanos
        } else {
            0
        };
        let smoothed = self.updates_per_second_smoothed.micro_hz;
        assert(smoothed * 95 + fps * 5 <= 100 * RATE_SCALE) by (nonlinear_arith)
            requires
                smoothed <= RATE_SCALE,
                fps <= RATE_SCALE,
        ;
        let next_smoothed: u64 = (smoothed * 95 + fps * 5) / 100;
        *self =
        TimeContext {
            total_time: Duration { nanos: self.total_time.nanos + elapsed.nanos },
            current_instant: Instant { nanos: self.current_instant.nanos + elapsed.nanos },
            previous_update_time: elapsed,
            updates_per_second: UpdateRate { micro_hz: fps },
            updates_per_second_smoothed: UpdateRate { micro_hz: next_smoothed },
            update_count: self.update_count + 1,
        };
    }

    /// Time passed in this context.
    pub fn total_time(&self) -> (r: Duration)
        ensures
            r.nanos == self@.total_time,
    {
        self.total_time
    }

    /// The instant reached by the most recent update: the starting instant advanced by
    /// every elapsed duration.
    pub fn current_instant(&self) -> (r: Instant)
        ensures
            r.nanos == self@.current_instant,
    {
        self.current_instant
    }

    /// Time passed during the most recent update.
    pub fn previous_update_time(&self) -> (r: Duration)
        ensures
            r.nanos == self@.previous_update_time,
    {
        self.previous_update_time
    }

    /// The rate measured on the most recent update.
    pub fn updates_per_second(&self) -> (r: UpdateRate)
        ensures
            r.micro_hz == self@.updates_per_second,
    {
        self.updates_per_second
    }

    /// The rate smoothed over past updates.
    pub fn updates_per_second_smoothed(&self) -> (r: UpdateRate)
        ensures
            r.micro_hz == self@.updates_per_second_smoothed,
    {
        self.updates_per_second_smoothed
    }

    /// Number of updates in this context.
    pub fn update_count(&self) -> (r: u64)
        ensures
            r == self@.update_count,
    {
        self.update_count
    }
}

/// The application clock: the time context of the whole run, fed from successive
/// readings of a monotonic clock.
#[derive(Clone, Copy)]
pub struct TimeState {
    app_start: Instant,
    previous_update: Instant,
    app_time_context: TimeContext,
}

impl TimeState {
    /// The time context of the run.
    pub closed spec fn context(&self) -> TimeView {
        self.app_time_context@
    }

    /// The clock reading taken by the most recent update (or at creation).
    pub closed spec fn previous_reading(&self) -> nat {
        self.previous_update.nanos as nat
    }

    /// The clock reading at creation.
    pub closed spec fn start_reading(&self) -> nat {
        self.app_start.nanos as nat
    }

    /// A clock whose run starts at the reading `now`.
    pub fn new(now: Instant) -> (r: TimeState)
        ensures
            r.context() == TimeView::start(now.nanos as nat),
            r.previous_reading() == now.nanos,
            r.start_reading() == now.nanos,
    {
        TimeState { app_start: now, previous_update: now, app_time_context: TimeContext::new(now) }
    }

    /// Takes the clock reading `now` and records the time elapsed since the previous
    /// reading (none, if the clock went backwards) as one update.
    pub fn update(&mut self, now: Instant)
        requires
            old(self).context().current_instant + span_between(
                old(self).previous_reading(),
                now.nanos as nat,
            ) <= u64::MAX,
            old(self).context().update_count < u64::MAX,
        ensures
            final(self).context() == old(self).context().next(
                span_between(old(self).previous_reading(), now.nanos as nat),
            ),
            final(self).previous_reading() == now.nanos,
            final(self).start_reading() == old(self).start_reading(),
    {
        let elapsed = now.saturating_duration_since(self.previous_update);
        self.previous_update = now;
        self.app_time_context.update(elapsed);
    }

    /// The time context of the run.
    pub fn time_context(&self) -> (r: TimeContext)
        ensures
            r@ == self.context(),
    {
        self.app_time_context
    }

    pub fn current_instant(&self) -> (r: Instant)
        ensures
            r.nanos == self.context().current_instant,
    {
        self.app_time_context.current_instant()
    }

    pub fn updates_per_second(&self) -> (r: UpdateRate)
        ensures
            r.micro_hz == self.context().updates_per_second,
    {
        self.app_time_context.updates_per_second()
    }

    pub fn update_count(&self) -> (r: u64)
        ensures
            r == self.context().update_count,
    {
        self.app_time_context.update_count()
    }

    pub fn updates_per_second_smoothed(&self) -> (r: UpdateRate)
        ensures
            r.micro_hz == self.context().updates_per_second_smoothed,
    {
        self.app_time_context.updates_per_second_smoothed()
    }

    pub fn total_time(&self) -> (r: Duration)
        ensures
            r.nanos == self.context().total_time,
    {
        self.app_time_context.total_time()
    }

    pub fn previous_update_time(&self) -> (r: Duration)
        ensures
            r.nanos == self.context().previous_update_time,
    {
        self.app_time_context.previous_update_time()
    }
}

/// Every update adds exactly one to the update count, and the total time grows by the
/// sum of the elapsed durations recorded.
pub proof fn lemma_updates_accumulate(start: TimeView, elapsed: Seq<nat>)
    ensures
        start.after(elapsed).update_count == start.update_count + elapsed.len(),
        start.after(elapsed).total_time == start.total_time + total_of(elapsed),
    decreases elapsed.len(),
{
    if elapsed.len() > 0 {
        lemma_updates_accumulate(start, elapsed.drop_last());
    }
}

/// After a single update that took `d` from a fresh context, the smoothed rate is one
/// twentieth of the measured rate (rounded down).
pub proof fn lemma_first_smoothed_rate(now: nat, d: nat)
    ensures
        TimeView::start(now).next(d).updates_per_second_smoothed == rate_of(d) * 5 / 100,
        TimeView::start(now).next(d).updates_per_second == rate_of(d),
{
}

/// `n` updates that each took `d`.
pub open spec fn repeated(d: nat, n: nat) -> Seq<nat> {
    Seq::new(n, |i: int| d)
}

/// One update that took `d` moves a smoothed rate that is below the measured rate
/// toward it without passing it, closing at least a twentieth of the gap (up to
/// rounding).
pub proof fn lemma_smoothed_rate_step(v: TimeView, d: nat)
    requires
        v.updates_per_second_smoothed <= rate_of(d),
    ensures
        v.updates_per_second_smoothed <= v.next(d).updates_per_second_smoothed <= rate_of(d),
        100 * (rate_of(d) - v.next(d).updates_per_second_smoothed) <= 95 * (rate_of(
            d,
        ) - v.updates_per_second_smoothed) + 99,
{
    let s = v.updates_per_second_smoothed;
    let f = rate_of(d);
    let n = (s * 95 + f * 5) / 100;
    assert(n * 100 <= s * 95 + f * 5 < n * 100 + 100) by (nonlinear_arith)
        requires
            n == (s * 95 + f * 5) / 100,
    ;
}

/// When every update takes the same `d`, starting from a smoothed rate at or below the
/// measured rate (as a fresh context does), the smoothed rate never decreases and never
/// exceeds the measured rate, after any number of updates.
pub proof fn lemma_smoothed_rate_converges(v: TimeView, d: nat, n: nat)
    requires
        v.updates_per_second_smoothed <= rate_of(d),
    ensures
        v.after(repeated(d, n)).updates_per_second_smoothed <= v.after(
            repeated(d, n + 1),
        ).updates_per_second_smoothed <= rate_of(d),
    decreases n,
{
    assert(repeated(d, n + 1).drop_last() =~= repeated(d, n));
    if n > 0 {
        lemma_smoothed_rate_converges(v, d, (n - 1) as nat);
        assert(repeated(d, n).drop_last() =~= repeated(d, (n - 1) as nat));
    }
    lemma_smoothed_rate_step(v.after(repeated(d, n)), d);
}

/// With every update taking the same `d`, starting from a smoothed rate at or below the
/// measured rate `f`, the gap between them shrinks geometrically: after `n` updates,
/// the gap less 20 micro-hertz (the most that rounding down can hold back) is at most
/// `0.95^n` times what it was at the start.
pub proof fn lemma_smoothed_rate_gap(v: TimeView, d: nat, n: nat)
    requires
        v.updates_per_second_smoothed <= rate_of(d),
    ensures
        pow(100, n) * (rate_of(d) - v.after(repeated(d, n)).updates_per_second_smoothed - 20)
            <= pow(95, n) * (rate_of(d) - v.updates_per_second_smoothed - 20),
    decreases n,
{
    let f = rate_of(d) as int;
    let e0 = f - v.updates_per_second_smoothed - 20;
    if n == 0 {
        reveal(pow);
        assert(repeated(d, 0) =~= Seq::<nat>::empty());
    } else {
        let m = (n - 1) as nat;
        lemma_smoothed_rate_gap(v, d, m);
        lemma_smoothed_rate_converges(v, d, m);
        lemma_smoothed_rate_step(v.after(repeated(d, m)), d);
        assert(repeated(d, n).drop_last() =~= repeated(d, m));
        let em = f - v.after(repeated(d, m)).updates_per_second_smoothed - 20;
        let en = f - v.after(repeated(d, n)).updates_per_second_smoothed - 20;
        let p = pow(100, m);
        let q = pow(95, m);
        lemma_pow_positive(100, m);
        assert(100 * en <= 95 * em);
        assert(p * (100 * en) <= 95 * (q * e0)) by (nonlinear_arith)
            requires
                p > 0,
                100 * en <= 95 * em,
                p * em <= q * e0,
        ;
        assert(pow(100, n) == 100 * p) by {
            reveal(pow);
        }
        assert(pow(95, n) == 95 * q) by {
            reveal(pow);
        }
        assert(pow(100, n) * en == p * (100 * en)) by (nonlinear_arith)
            requires
                pow(100, n) == 100 * p,
        ;
        assert(pow(95, n) * e0 == 95 * (q * e0)) by (nonlinear_arith)
            requires
                pow(95, n) == 95 * q,
        ;
    }
}

/// A fresh periodic event fires on its first offer whatever the arguments. Once it fired
/// at `t`, with a wait of `w`, an offer at `t + w - e` (for `0 < e <= w`) does not fire,
/// and an offer at `t + w` does.
pub proof fn lemma_periodic_event_interval(t: nat, w: nat, e: nat, first_wait: nat)
    requires
        0 < e <= w,
    ensures
        periodic_step(None, t, first_wait).0,
        !periodic_step(periodic_step(None, t, w).1, (t + w - e) as nat, w).0,
        periodic_step(periodic_step(None, t, w).1, t + w, w).0,
{
}

/// The time from `from` to `to`, saturating at zero.
pub open spec fn span_between(from: nat, to: nat) -> nat {
    if to >= from {
        (to - from) as nat
    } else {
        0
    }
}

/// Outcome of offering an instant to a periodic event that last fired at `last`
/// (`None`: it never fired): whether it fires, and the instant it then remembers.
pub open spec fn periodic_step(last: Option<nat>, now: nat, wait: nat) -> (bool, Option<nat>) {
    match last {
        None => (true, Some(now)),
        Some(t) => if span_between(t, now) >= wait {
            (true, Some(now))
        } else {
            (false, Some(t))
        },
    }
}

/// Useful for doing something at most once per time interval.
pub struct PeriodicEvent {
    last_time_triggered: Option<Instant>,
}

impl PeriodicEvent {
    /// The instant at which the event last fired, if it ever did.
    pub closed spec fn last_fired(&self) -> Option<nat> {
        match self.last_time_triggered {
            None => None,
            Some(i) => Some(i.nanos as nat),
        }
    }

    pub fn new() -> (r: PeriodicEvent)
        ensures
            r.last_fired() is None,
    {
        PeriodicEvent { last_time_triggered: None }
    }

    /// Returns true on the first call, and afterwards only once `wait_duration` has
    /// passed since it last returned true; each true result restarts the interval.
    pub fn try_take_event(&mut self, current_time: Instant, wait_duration: Duration) -> (r: bool)
        ensures
            (r, final(self).last_fired()) == periodic_step(
                old(self).last_fired(),
                current_time.nanos as nat,
                wait_duration.nanos as nat,
            ),
    {
        match self.last_time_triggered {
            None => {
                self.last_time_triggered = Some(current_time);
                true
            },
            Some(last_time_triggered) => {
                if current_time.saturating_duration_since(last_time_triggered).nanos
                    >= wait_duration.nanos {
                    self.last_time_triggered = Some(current_time);
                    true
                } else {
                    false
                }
            },
        }
    }
}

impl Default for PeriodicEvent {
    fn default() -> (r: PeriodicEvent)
        ensures
            r.last_fired() is None,
    {
        PeriodicEvent::new()
    }
}

} // verus!
