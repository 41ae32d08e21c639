//! The mathematical model of a throttle gate.
//!
//! Time is a `u64` count of clock ticks (nanoseconds).  The gating rules are
//! stated here as spec functions over a [`GateState`]; the executable
//! [`crate::ThrottleTimer`] promises in its contracts to follow them, and the
//! proof functions below state the laws that the rules obey.

use vstd::prelude::*;

verus! {

/// Model of one throttle gate: when it last permitted a firing (in clock
/// ticks, absent before the first firing), how many firings it has
/// permitted, the minimum number of ticks between permitted firings, and the
/// event label.
pub ghost struct GateState {
    pub last: Option<u64>,
    pub count: nat,
    pub interval: u64,
    pub label: Seq<char>,
}

/// Ticks elapsed from `last` to `now`, saturating at zero when `now` lies
/// before `last`.  A monotonic clock never hands out a `now` before `last`,
/// but the model is total either way.
pub open spec fn sat_elapsed(last: u64, now: u64) -> u64 {
    if now >= last {
        (now - last) as u64
    } else {
        0
    }
}

/// Whether a gate in state `s` permits a firing at tick `now`: always on the
/// first call, afterwards exactly when at least the interval has elapsed
/// since the last permitted firing.
pub open spec fn gate_fires(s: GateState, now: u64) -> bool {
    match s.last {
        None => true,
        Some(t) => sat_elapsed(t, now) >= s.interval,
    }
}

/// The state after one gating decision at tick `now`: a permitted firing
/// records `now` and bumps the count; a throttled call changes nothing.
pub open spec fn gate_step(s: GateState, now: u64) -> GateState {
    if gate_fires(s, now) {
        GateState {
            last: Some(now),
            count: (s.count + 1) as nat,
            interval: s.interval,
            label: s.label,
        }
    } else {
        s
    }
}

/// Remaining ticks at `now` before a firing would again be permitted, clamped
/// at zero: zero before the first firing and once the interval has elapsed.
pub open spec fn gate_wait(s: GateState, now: u64) -> u64 {
    match s.last {
        None => 0,
        Some(t) => if sat_elapsed(t, now) >= s.interval {
            0
        } else {
            (s.interval - sat_elapsed(t, now)) as u64
        },
    }
}

/// Mean number of ticks per permitted call over an elapsed span: undefined
/// (`None`) while nothing has been permitted, so that no division by zero is
/// ever asked for.
pub open spec fn mean_nanos(elapsed: u64, calls: usize) -> Option<u64> {
    if calls == 0 {
        None
    } else {
        Some((elapsed as int / calls as int) as u64)
    }
}

/// The state after a whole sequence of gating decisions, first entry first.
pub open spec fn gate_run_seq(s: GateState, times: Seq<u64>) -> GateState
    decreases times.len(),
{
    if times.len() == 0 {
        s
    } else {
        gate_run_seq(gate_step(s, times[0]), times.drop_first())
    }
}

/// How many decisions of the sequence are permitted firings.
pub open spec fn gate_fired_count(s: GateState, times: Seq<u64>) -> nat
    decreases times.len(),
{
    if times.len() == 0 {
        0
    } else {
        ((if gate_fires(s, times[0]) {
            1nat
        } else {
            0nat
        }) + gate_fired_count(gate_step(s, times[0]), times.drop_first())) as nat
    }
}

/// The first call always fires: a gate that has never permitted a firing
/// permits any call, whatever its interval, and the call is counted.  For a
/// freshly constructed gate the count afterwards is 1.
pub proof fn lemma_first_call_fires(s: GateState, now: u64)
    requires
        s.last is None,
    ensures
        gate_fires(s, now),
        gate_step(s, now).count == s.count + 1,
        gate_step(s, now).last == Some(now),
{
}

/// Throttling holds within the interval: right after a permitted firing at
/// tick `t`, a call made before the interval has elapsed is denied and
/// leaves the state — the count in particular — unchanged.
pub proof fn lemma_throttled_within_interval(s: GateState, t: u64, now: u64)
    requires
        gate_fires(s, t),
        sat_elapsed(t, now) < s.interval,
    ensures
        !gate_fires(gate_step(s, t), now),
        gate_step(gate_step(s, t), now) == gate_step(s, t),
{
}

/// Firing is permitted again once the interval has elapsed: at or after tick
/// `t + interval`, where `t` is the last permitted firing, a call is
/// permitted.
pub proof fn lemma_fires_after_interval(s: GateState, t: u64, now: u64)
    requires
        s.last == Some(t),
        now >= t,
        now - t >= s.interval,
    ensures
        gate_fires(s, now),
{
}

/// The call count is monotonic and accounts for the permitted firings: over
/// any sequence of calls it never decreases, and it grows by exactly the
/// number of calls that were permitted; the interval and label never change.
pub proof fn lemma_count_accounts_for_fires(s: GateState, times: Seq<u64>)
    ensures
        gate_run_seq(s, times).count == s.count + gate_fired_count(s, times),
        gate_run_seq(s, times).count >= s.count,
        gate_run_seq(s, times).interval == s.interval,
        gate_run_seq(s, times).label == s.label,
    decreases times.len(),
{
    if times.len() > 0 {
        lemma_count_accounts_for_fires(gate_step(s, times[0]), times.drop_first());
    }
}

/// The remaining wait clamps at zero: it never exceeds the interval, it is
/// zero before the first firing, and it is exactly zero once the interval
/// has elapsed.  (Its type already rules out a negative wait.)
pub proof fn lemma_wait_clamps_at_zero(s: GateState, now: u64)
    ensures
        gate_wait(s, now) <= s.interval,
        s.last is None ==> gate_wait(s, now) == 0,
        (s.last matches Some(t) && sat_elapsed(t, now) >= s.interval) ==> gate_wait(s, now) == 0,
{
}

/// Firing is permitted exactly when no wait remains, so sleeping out
/// `gate_wait` always reaches a permitted call.
pub proof fn lemma_fires_iff_no_wait(s: GateState, now: u64)
    ensures
        gate_fires(s, now) <==> gate_wait(s, now) == 0,
{
}

/// A zero interval never throttles: every call is permitted.
pub proof fn lemma_zero_interval_never_throttles(s: GateState, now: u64)
    requires
        s.interval == 0,
    ensures
        gate_fires(s, now),
{
}

} // verus!
