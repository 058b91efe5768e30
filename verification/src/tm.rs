use vstd::prelude::*;
use crate::error::VBoxError;
use std::time::{Duration, Instant, SystemTime};

verus! {

#[verifier::external_type_specification]
#[verifier::external_body]
pub struct ExInstant(Instant);

#[verifier::external_type_specification]
#[verifier::external_body]
pub struct ExSystemTime(SystemTime);

/// `Instant::clone`: `Instant` is `Copy`, so a clone is the same instant.
pub assume_specification[ <Instant as Clone>::clone ](t: &Instant) -> (r: Instant)
    ensures
        r == *t,
;

/// `Duration::clone`: `Duration` is `Copy`, so a clone is the same duration.
pub assume_specification[ <Duration as Clone>::clone ](d: &Duration) -> (r: Duration)
    ensures
        r == *d,
;

/// `Instant::now`: the current reading of the monotonic clock. Nothing is
/// claimed of the value.
#[verifier::external_body]
fn instant_now() -> Instant {
    Instant::now()
}

/// Whether instant `a` is at or after instant `b`.
pub uninterp spec fn instant_not_before(a: Instant, b: Instant) -> bool;

/// The instant `d` after `t`, or nothing where that lies outside the clock's range.
pub uninterp spec fn instant_checked_after(t: Instant, d: Duration) -> Option<Instant>;

/// The time from `earlier` to `later`, zero when `earlier` is the later one.
pub uninterp spec fn instant_elapsed(later: Instant, earlier: Instant) -> Duration;

/// The duration of `ms` milliseconds.
pub uninterp spec fn duration_of_millis(ms: u64) -> Duration;

/// The nanoseconds in `d`, truncated to 64 bits.
pub uninterp spec fn duration_nanos_truncated(d: Duration) -> u64;

/// `Instant >= Instant`: whether `now` is at or after `deadline`, as named
/// by `instant_not_before`.
#[verifier::external_body]
fn instant_at_or_after(now: &Instant, deadline: &Instant) -> (b: bool)
    ensures
        b == instant_not_before(*now, *deadline),
{
    now >= deadline
}

/// `Instant::checked_add`: the instant `d` after `t`, or `None` where it
/// lies outside the clock's range, as named by `instant_checked_after`.
#[verifier::external_body]
fn instant_plus(t: Instant, d: Duration) -> (r: Option<Instant>)
    ensures
        r == instant_checked_after(t, d),
{
    t.checked_add(d)
}

/// `Instant::duration_since`: the time from `earlier` to `now`, as named by
/// `instant_elapsed`.
#[verifier::external_body]
fn instant_duration_since(now: Instant, earlier: Instant) -> (d: Duration)
    ensures
        d == instant_elapsed(now, earlier),
{
    now.duration_since(earlier)
}

/// `Duration::from_millis`, as named by `duration_of_millis`.
#[verifier::external_body]
fn duration_from_millis(ms: u64) -> (d: Duration)
    ensures
        d == duration_of_millis(ms),
{
    Duration::from_millis(ms)
}

/// `Duration::as_nanos`, truncated to 64 bits, as named by
/// `duration_nanos_truncated`.
#[verifier::external_body]
fn duration_nanos_u64(d: Duration) -> (n: u64)
    ensures
        n == duration_nanos_truncated(d),
{
    d.as_nanos() as u64
}

/// `SystemTime::now`: the wall clock. Nothing is claimed of the value.
#[verifier::external_body]
fn system_time_now() -> SystemTime {
    SystemTime::now()
}

/// `SystemTime::duration_since(UNIX_EPOCH)`, with the error case mapped to
/// `None` (the clock reads before the epoch). Nothing is claimed of the value.
#[verifier::external_body]
fn system_time_since_epoch(t: SystemTime) -> Option<Duration> {
    t.duration_since(SystemTime::UNIX_EPOCH).ok()
}

/// A timer: when active and its deadline has passed, its callback runs and
/// the deadline moves one period past the time of the update.
#[derive(Debug, Clone, Copy)]
pub struct TMTimer<C> {
    pub deadline: Instant,
    pub period: Duration,
    pub callback: C,
    pub active: bool,
}

/// The timer manager: its timers, the last TSC value and its start time.
#[derive(Debug, Clone)]
pub struct TMState<C> {
    pub timers: Vec<TMTimer<C>>,
    pub tsc_value: u64,
    pub start_time: Instant,
}

impl<C> TMState<C> {
    /// A timer manager with no timers and TSC 0, started now.
    pub fn new() -> (s: Self)
        ensures
            s.timers@.len() == 0,
            s.tsc_value == 0,
    {
        TMState { timers: Vec::new(), tsc_value: 0, start_time: instant_now() }
    }
}

/// Initialises the timer manager.
pub fn TMR3Init<C>() -> (r: Result<TMState<C>, VBoxError>)
    ensures
        r matches Ok(s) && s.timers@.len() == 0 && s.tsc_value == 0,
{
    let state = TMState::new();
    Ok(state)
}

/// Creates an inactive timer with a one-millisecond period and the given
/// callback, records it and hands back a copy.
pub fn TMR3TimerCreate<C: Copy>(state: &mut TMState<C>, callback: C) -> (r: Result<TMTimer<C>, VBoxError>)
    ensures
        r matches Ok(t) && !t.active && t.callback == callback && t.period == duration_of_millis(1)
            && final(state).timers@ == old(state).timers@.push(t),
        final(state).tsc_value == old(state).tsc_value,
        final(state).start_time == old(state).start_time,
{
    let timer = TMTimer { deadline: instant_now(), period: duration_from_millis(1), callback, active: false };
    state.timers.push(timer);
    Ok(timer)
}

/// Arms `timer` for `deadline`.
pub fn TMR3TimerSet<C>(timer: &mut TMTimer<C>, deadline: Instant)
    ensures
        final(timer).deadline == deadline,
        final(timer).active,
        final(timer).period == old(timer).period,
        final(timer).callback == old(timer).callback,
{
    timer.deadline = deadline;
    timer.active = true;
}

/// The deadline of timer `t0` after an update at instant `now`: one period
/// past `now` when the timer is active and its deadline is not after `now`;
/// unchanged otherwise, and also when one period past `now` lies outside the
/// clock's range.
pub open spec fn deadline_after_update<C>(t0: TMTimer<C>, now: Instant) -> Instant {
    if t0.active && instant_not_before(now, t0.deadline) {
        match instant_checked_after(now, t0.period) {
            Some(next) => next,
            None => t0.deadline,
        }
    } else {
        t0.deadline
    }
}

/// An update at `now` moves the deadline of an active timer that is due to
/// the instant one period past `now`, where the clock can hold it, and leaves
/// the deadline of an inactive timer, or of one not yet due, where it was.
pub proof fn lemma_timer_update_deadline<C>(t0: TMTimer<C>, now: Instant)
    ensures
        t0.active && instant_not_before(now, t0.deadline) && instant_checked_after(now, t0.period) is Some
            ==> deadline_after_update(t0, now) == instant_checked_after(now, t0.period)->0,
        !t0.active ==> deadline_after_update(t0, now) == t0.deadline,
        !instant_not_before(now, t0.deadline) ==> deadline_after_update(t0, now) == t0.deadline,
{
}

/// Whether `timers` are `before` after an update at instant `now`: each keeps
/// its period, callback and activity, and has its deadline moved as
/// `deadline_after_update` says.
pub open spec fn timers_updated<C>(before: Seq<TMTimer<C>>, timers: Seq<TMTimer<C>>, now: Instant) -> bool {
    &&& timers.len() == before.len()
    &&& forall|i: int| 0 <= i < timers.len() ==> {
        let t0 = before[i];
        let t1 = #[trigger] timers[i];
        &&& t1.active == t0.active
        &&& t1.period == t0.period
        &&& t1.callback == t0.callback
        &&& t1.deadline == deadline_after_update(t0, now)
    }
}

/// Takes the time once, runs the callback of every active timer whose
/// deadline has passed and moves its deadline one period past that time
/// (keeping it where that instant lies outside the clock's range), and
/// records the time elapsed since start, in nanoseconds, as the TSC. The
/// reading of the clock is the one thing left open.
pub fn TMR3TimerDoUpdate<C: Fn()>(state: &mut TMState<C>) -> (r: Result<Duration, VBoxError>)
    requires
        forall|i: int| 0 <= i < old(state).timers@.len() ==> (#[trigger] old(state).timers@[i]).callback.requires(()),
    ensures
        final(state).start_time == old(state).start_time,
        r matches Ok(elapsed) && exists|now: Instant| {
            &&& elapsed == instant_elapsed(now, old(state).start_time)
            &&& #[trigger] timers_updated(old(state).timers@, final(state).timers@, now)
        },
        r matches Ok(elapsed) && final(state).tsc_value == duration_nanos_truncated(elapsed),
{
    let now = instant_now();
    let elapsed = instant_duration_since(now, state.start_time);
    let n = state.timers.len();
    let mut i: usize = 0;
    while i < n
        invariant
            i <= n,
            n == state.timers@.len(),
            n == old(state).timers@.len(),
            state.start_time == old(state).start_time,
            forall|k: int| 0 <= k < n ==> (#[trigger] old(state).timers@[k]).callback.requires(()),
            forall|k: int| i <= k < n ==> #[trigger] state.timers@[k] == old(state).timers@[k],
            forall|k: int| 0 <= k < i ==> {
                let t0 = old(state).timers@[k];
                let t1 = #[trigger] state.timers@[k];
                &&& t1.active == t0.active
                &&& t1.period == t0.period
                &&& t1.callback == t0.callback
                &&& t1.deadline == deadline_after_update(t0, now)
            },
        decreases n - i,
    {
        let timer = &mut state.timers[i];
        if timer.active && instant_at_or_after(&now, &timer.deadline) {
            (timer.callback)();
            match instant_plus(now, timer.period) {
                Some(next) => {
                    timer.deadline = next;
                },
                None => {},
            }
        }
        i = i + 1;
    }
    state.tsc_value = duration_nanos_u64(elapsed);
    assert(timers_updated(old(state).timers@, state.timers@, now));
    Ok(elapsed)
}

/// The TSC value recorded by the last update.
pub fn tm_get_tsc(state: &TMState<impl Sized>) -> (r: u64)
    ensures
        r == state.tsc_value,
{
    state.tsc_value
}

/// The TSC value for a reading of the wall clock against the Unix epoch:
/// the nanoseconds since the epoch, truncated to 64 bits, or 0 when the clock
/// reads before the epoch.
pub open spec fn tsc_of_epoch_spec(since: Option<Duration>) -> u64 {
    match since {
        Some(d) => duration_nanos_truncated(d),
        None => 0,
    }
}

/// The TSC value for a reading `since` of the wall clock against the Unix
/// epoch (`None` when the clock reads before the epoch).
pub fn tsc_of_epoch_reading(since: Option<Duration>) -> (r: u64)
    ensures
        r == tsc_of_epoch_spec(since),
{
    match since {
        Some(d) => duration_nanos_u64(d),
        None => 0,
    }
}

/// The wall clock in nanoseconds since the Unix epoch, truncated to 64 bits
/// (0 when the clock reads before the epoch). The clock reading itself is left
/// open; what is done with it is `tsc_of_epoch_reading`.
pub fn tm_get_tsc_latest() -> (r: u64)
    ensures
        exists|since: Option<Duration>| r == tsc_of_epoch_spec(since),
{
    let since = system_time_since_epoch(system_time_now());
    tsc_of_epoch_reading(since)
}

} // verus!
