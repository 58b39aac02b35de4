//! The break-scheduling engine: at most one live periodic task, owned
//! exclusively by this state machine. Starting with a nonzero interval
//! schedules the first tick one full period ahead and supersedes any prior
//! task; starting with interval 0 leaves the engine disabled. Each task
//! carries the generation it was spawned under, and a tick is honoured only
//! when its generation is still the live one: a cancelled task's ticks can
//! never show an overlay, even when they were already in flight.
//!
//! Time is modelled in whole seconds. The asynchronous runtime that sleeps
//! between ticks and the task handles it hands out are the shell's business;
//! the shell reports each tick here, with the generation the task was
//! spawned under, and shows the overlay exactly when the engine says so.

use vstd::prelude::*;

verus! {

/// State of the scheduling engine. `running` with a `generation` is the
/// single live periodic task; `next_fire` is the absolute second its next
/// tick is due, kept on the fixed grid `start + k * period_secs`.
#[derive(Clone, Copy, Debug, PartialEq, Eq, Structural)]
pub struct TimerEngine {
    pub running: bool,
    pub period_secs: u64,
    pub next_fire: u64,
    pub generation: u64,
}

impl TimerEngine {
    /// Every state the engine's own operations produce: a running engine
    /// always has a nonzero period.
    pub open spec fn wf(self) -> bool {
        self.running ==> self.period_secs > 0
    }
}

/// What the shell must do after a (re)start of the engine.
#[derive(Clone, Copy, Debug, PartialEq, Eq, Structural)]
pub enum StartOutcome {
    /// Interval 0: the timer is disabled, no task runs.
    Disabled,
    /// Spawn a periodic task with this period, tagged with this generation.
    Scheduled { period_secs: u64, generation: u64 },
}

/// Addition on the second clock, saturating at the end of representable
/// time.
pub open spec fn sat_add(a: u64, b: u64) -> u64 {
    if a + b <= u64::MAX {
        (a + b) as u64
    } else {
        u64::MAX
    }
}

/// The engine state after `start` at time `now` with the given interval:
/// the prior task (if any) is superseded by bumping the generation; a zero
/// interval disables the engine, a nonzero one schedules the first tick one
/// full period of `interval_minutes * 60` seconds after `now`.
pub open spec fn spec_started(e: TimerEngine, now: u64, interval_minutes: u64) -> TimerEngine
    recommends
        e.generation < u64::MAX,
        interval_minutes * 60 <= u64::MAX,
{
    if interval_minutes == 0 {
        TimerEngine {
            running: false,
            period_secs: 0,
            next_fire: 0,
            generation: (e.generation + 1) as u64,
        }
    } else {
        TimerEngine {
            running: true,
            period_secs: (interval_minutes * 60) as u64,
            next_fire: sat_add(now, (interval_minutes * 60) as u64),
            generation: (e.generation + 1) as u64,
        }
    }
}

/// Whether a tick delivered at second `now` by the task of generation `gen`
/// shows the overlay: only a running engine, only the live generation, and
/// only once its fire time has come.
pub open spec fn tick_shows(e: TimerEngine, gen: u64, now: u64) -> bool {
    e.running && gen == e.generation && now >= e.next_fire
}

/// The engine state after `stop`, and after the superseding step of a
/// restart: the live task (if any) is cancelled and none remains.
pub open spec fn spec_stopped(e: TimerEngine) -> TimerEngine
    recommends
        e.generation < u64::MAX,
{
    TimerEngine {
        running: false,
        period_secs: 0,
        next_fire: 0,
        generation: (e.generation + 1) as u64,
    }
}

/// The fire time that follows a tick honoured at second `now`: the first
/// point of the fixed grid strictly after `now`. A tick honoured on time
/// moves exactly one period down the grid; one honoured late skips the
/// grid points it missed — they are rescheduled against the original
/// schedule, never fired as compounded catch-up.
pub open spec fn spec_next_fire_after(e: TimerEngine, now: u64) -> u64
    recommends
        e.period_secs > 0,
        now >= e.next_fire,
{
    sat_add((now - ((now - e.next_fire) % (e.period_secs as int))) as u64, e.period_secs)
}

/// The engine state after a tick that showed at second `now`: the fire time
/// moves to the first grid point strictly after `now`; nothing else
/// changes.
pub open spec fn spec_ticked(e: TimerEngine, now: u64) -> TimerEngine {
    TimerEngine {
        running: e.running,
        period_secs: e.period_secs,
        next_fire: spec_next_fire_after(e, now),
        generation: e.generation,
    }
}

/// The engine state after `k` ticks each honoured exactly on time.
pub open spec fn spec_after_shows(e: TimerEngine, k: nat) -> TimerEngine
    decreases k,
{
    if k == 0 {
        e
    } else {
        let prev = spec_after_shows(e, (k - 1) as nat);
        spec_ticked(prev, prev.next_fire)
    }
}

impl TimerEngine {
    /// A fresh engine: disabled, no task ever spawned.
    pub fn new() -> (e: TimerEngine)
        ensures
            e == (TimerEngine { running: false, period_secs: 0, next_fire: 0, generation: 0 }),
    {
        TimerEngine { running: false, period_secs: 0, next_fire: 0, generation: 0 }
    }

    /// Starts the engine at time `now`: cancels any prior task and either
    /// disables the engine (interval 0) or schedules the first tick one
    /// full period ahead.
    pub fn start(&mut self, now: u64, interval_minutes: u64)
        requires
            old(self).generation < u64::MAX,
            interval_minutes * 60 <= u64::MAX,
        ensures
            *final(self) == spec_started(*old(self), now, interval_minutes),
    {
        self.generation = self.generation + 1;
        if interval_minutes == 0 {
            self.running = false;
            self.period_secs = 0;
            self.next_fire = 0;
        } else {
            let period: u64 = interval_minutes * 60;
            self.running = true;
            self.period_secs = period;
            self.next_fire = if now <= u64::MAX - period {
                now + period
            } else {
                u64::MAX
            };
        }
    }

    /// Stops the engine: the live task (if any) is cancelled and no task
    /// remains.
    pub fn stop(&mut self)
        requires
            old(self).generation < u64::MAX,
        ensures
            *final(self) == spec_stopped(*old(self)),
    {
        self.generation = self.generation + 1;
        self.running = false;
        self.period_secs = 0;
        self.next_fire = 0;
    }

    /// A task of generation `gen` reports a tick at second `now`. Returns
    /// whether the overlay is to be shown: true exactly when the engine is
    /// running, `gen` is still the live generation and the fire time has
    /// come; the schedule then moves to the first grid point strictly after
    /// `now` — a late tick reschedules against the original schedule, it
    /// does not fire catch-up shows for missed grid points. A stale tick —
    /// one from a superseded task — changes nothing and never shows.
    pub fn deliver_tick(&mut self, gen: u64, now: u64) -> (show: bool)
        requires
            old(self).wf(),
        ensures
            final(self).wf(),
            show == tick_shows(*old(self), gen, now),
            show ==> *final(self) == spec_ticked(*old(self), now),
            !show ==> *final(self) == *old(self),
    {
        if self.running && gen == self.generation && now >= self.next_fire {
            let period: u64 = self.period_secs;
            let late_by: u64 = now - self.next_fire;
            let rem: u64 = late_by % period;
            proof {
                vstd::arithmetic::div_mod::lemma_mod_decreases(late_by as nat, period as nat);
            }
            let aligned: u64 = now - rem;
            self.next_fire = if aligned <= u64::MAX - period {
                aligned + period
            } else {
                u64::MAX
            };
            true
        } else {
            false
        }
    }
}

/// Starts (or restarts) the break timer from the raw `intervalMinutes`
/// value the settings store holds, as of time `now`: any prior task is
/// cancelled first — unconditionally, before anything else can fail — a
/// missing or malformed value falls back to 20 minutes, 0 disables the
/// timer, and any other value schedules a task whose period is the
/// interval in seconds. Fails only when that period does not fit the
/// second clock; the engine is then left disabled, never with the old
/// schedule silently running.
pub fn start_break_timer(
    engine: &mut TimerEngine,
    now: u64,
    raw_interval: Option<serde_json::Value>,
) -> (r: Result<StartOutcome, String>)
    requires
        old(engine).generation < u64::MAX,
    ensures
        ({
            let n = crate::store::spec_interval_minutes(raw_interval);
            &&& n * 60 > u64::MAX ==> r is Err && *final(engine) == spec_stopped(*old(engine))
            &&& n * 60 <= u64::MAX ==> {
                &&& *final(engine) == spec_started(*old(engine), now, n)
                &&& n == 0 ==> r == Ok::<StartOutcome, String>(StartOutcome::Disabled)
                &&& n > 0 ==> r == Ok::<StartOutcome, String>(StartOutcome::Scheduled {
                    period_secs: (n * 60) as u64,
                    generation: (old(engine).generation + 1) as u64,
                })
            }
        }),
{
    let n = crate::store::get_interval_minutes(raw_interval);
    if n > u64::MAX / 60 {
        // the prior task is superseded even though nothing can be scheduled
        engine.stop();
        return Err("intervalMinutes is too large to schedule".to_string());
    }
    engine.start(now, n);
    if n == 0 {
        Ok(StartOutcome::Disabled)
    } else {
        Ok(StartOutcome::Scheduled { period_secs: n * 60, generation: engine.generation })
    }
}

/// Restarts the timer after a settings change: re-reads the interval —
/// handed over as the raw stored value — and starts the engine again, with
/// exactly the behaviour of `start_break_timer`. The prior task is
/// superseded in every case, even when the re-read interval cannot be
/// scheduled.
pub fn restart_timer(
    engine: &mut TimerEngine,
    now: u64,
    raw_interval: Option<serde_json::Value>,
) -> (r: Result<StartOutcome, String>)
    requires
        old(engine).generation < u64::MAX,
    ensures
        ({
            let n = crate::store::spec_interval_minutes(raw_interval);
            &&& n * 60 > u64::MAX ==> r is Err && *final(engine) == spec_stopped(*old(engine))
            &&& n * 60 <= u64::MAX ==> {
                &&& *final(engine) == spec_started(*old(engine), now, n)
                &&& n == 0 ==> r == Ok::<StartOutcome, String>(StartOutcome::Disabled)
                &&& n > 0 ==> r == Ok::<StartOutcome, String>(StartOutcome::Scheduled {
                    period_secs: (n * 60) as u64,
                    generation: (old(engine).generation + 1) as u64,
                })
            }
        }),
{
    start_break_timer(engine, now, raw_interval)
}

/// Law: an engine started at `start_time` with interval `n > 0` shows
/// nothing for any tick delivered strictly before one full period of
/// `n * 60` seconds has elapsed, whatever task delivers it.
pub proof fn lemma_no_show_before_first_period(
    e: TimerEngine,
    start_time: u64,
    n: u64,
    gen: u64,
    t: u64,
)
    requires
        0 < n,
        start_time + n * 60 <= u64::MAX,
        t < start_time + n * 60,
    ensures
        !tick_shows(spec_started(e, start_time, n), gen, t),
{
}

/// Law: a disabled engine shows nothing. Starting with interval 0 disables
/// the engine, so it yields zero shows indefinitely — and it stays so until
/// started again with a nonzero interval, which puts it back in the running
/// state.
pub proof fn lemma_zero_interval_never_shows(
    e: TimerEngine,
    s: u64,
    gen: u64,
    t: u64,
    s2: u64,
    m: u64,
)
    ensures
        !spec_started(e, s, 0).running,
        !tick_shows(spec_started(e, s, 0), gen, t),
        0 < m ==> spec_started(spec_started(e, s, 0), s2, m).running,
{
}

/// Law: starting or stopping the engine — as `restart` does on every
/// settings change, including one it then fails on — supersedes the
/// pending cycle: a tick of the previous generation is stale afterwards
/// and never shows an overlay, whenever it arrives and whatever the new
/// interval is.
pub proof fn lemma_restart_cancels_pending_tick(e: TimerEngine, now: u64, n: u64, t: u64)
    requires
        e.generation < u64::MAX,
    ensures
        !tick_shows(spec_started(e, now, n), e.generation, t),
        !tick_shows(spec_stopped(e), e.generation, t),
{
}

/// Law: the schedule is a fixed grid. Starting at `s` with interval `n > 0`
/// and delivering every tick puts the `(k+1)`-th show's fire time at exactly
/// `s + (k+1) * n * 60` seconds: one show per period, against the original
/// schedule, with no compounding.
pub proof fn lemma_fixed_schedule(e: TimerEngine, s: u64, n: u64, k: nat)
    requires
        0 < n,
        s + (k + 1) * (n * 60) <= u64::MAX,
    ensures
        spec_after_shows(spec_started(e, s, n), k).running,
        spec_after_shows(spec_started(e, s, n), k).period_secs == n * 60,
        spec_after_shows(spec_started(e, s, n), k).generation
            == spec_started(e, s, n).generation,
        spec_after_shows(spec_started(e, s, n), k).next_fire == s + (k + 1) * (n * 60),
    decreases k,
{
    if k == 0 {
        assert(1 * (n * 60) == n * 60) by (nonlinear_arith);
    } else {
        assert((k + 1) * (n * 60) == k * (n * 60) + n * 60) by (nonlinear_arith);
        assert(k * (n * 60) <= (k + 1) * (n * 60)) by (nonlinear_arith);
        lemma_fixed_schedule(e, s, n, (k - 1) as nat);
        // a tick honoured exactly at its fire time is not late at all
        vstd::arithmetic::div_mod::lemma_small_mod(0, (n * 60) as nat);
    }
}

/// Law: one show per period, rescheduled against the original schedule.
/// After a tick has shown at second `t`, the fire time stands at the first
/// grid point strictly after `t` — on the original grid, at most one full
/// period away — and no tick delivered strictly before it shows again: not
/// a second delivery at `t` itself, and no compounded catch-up for grid
/// points a late tick missed.
pub proof fn lemma_one_show_per_period(e: TimerEngine, gen: u64, t: u64, t2: u64)
    requires
        e.wf(),
        tick_shows(e, gen, t),
        t + e.period_secs <= u64::MAX,
        t2 < spec_ticked(e, t).next_fire,
    ensures
        t < spec_ticked(e, t).next_fire,
        spec_ticked(e, t).next_fire <= t + e.period_secs,
        // the new fire time is on the original grid: `next_fire` plus a
        // whole number of periods, one for the show and one for each grid
        // point the late tick skipped
        spec_ticked(e, t).next_fire == e.next_fire + ((t - e.next_fire) / (e.period_secs as int)
            + 1) * (e.period_secs as int),
        !tick_shows(spec_ticked(e, t), gen, t2),
{
    let p = e.period_secs as int;
    let d = t - e.next_fire;
    vstd::arithmetic::div_mod::lemma_mod_bound(d, p);
    vstd::arithmetic::div_mod::lemma_fundamental_div_mod(d, p);
    assert((d / p + 1) * p == p * (d / p) + p) by (nonlinear_arith);
}

} // verus!
