//! The executable throttle gate.
//!
//! Every method's contract is stated over the [`GateState`] model.  The
//! `*_at` variants take the monotonic clock reading as an explicit tick
//! argument and carry the exact contracts; the parameterless variants read
//! the clock through the trusted wrappers in [`crate::clock`] and state what
//! holds of every possible reading.

use vstd::prelude::*;

use crate::clock;
use crate::model::{gate_fires, gate_step, gate_wait, mean_nanos, GateState};

verus! {

/// A throttle gate for one named event: it permits a call when at least the
/// configured interval (in nanosecond ticks) has passed since the last
/// permitted call, and always on the first call.  One instance belongs to
/// one logical owner; there is no internal synchronisation.
#[derive(Debug)]
pub struct ThrottleTimer {
    origin: std::time::Instant,
    maybe_last_called_time: Option<u64>,
    total_calls: usize,
    created_date: std::time::SystemTime,
    max_frequency: u64,
    event_name: &'static str,
}

/// The raw numbers of a gate's report, for the caller to format: wall-clock
/// nanoseconds elapsed since creation, calls permitted so far, and the mean
/// elapsed nanoseconds per permitted call (absent while nothing has been
/// permitted).
#[derive(Debug, Clone, Copy, PartialEq, Eq)]
pub struct TimerReport {
    pub elapsed_nanos: u64,
    pub total_calls: usize,
    pub mean_nanos_per_call: Option<u64>,
}

/// What every clock-driven gating decision guarantees, whatever the clock
/// said: the first call and a zero interval always fire; a permitted call is
/// counted exactly once and records a firing time; a throttled call changes
/// nothing; the interval, label and creation time are kept; and the decision
/// together with the new state fits the model at a single clock reading.
pub open spec fn decision_follows_model(pre: ThrottleTimer, post: ThrottleTimer, r: bool) -> bool {
    &&& pre@.last is None ==> r
    &&& pre@.interval == 0 ==> r
    &&& r ==> post@.count == pre@.count + 1 && post@.last is Some
    &&& !r ==> post == pre
    &&& post@.interval == pre@.interval
    &&& post@.label == pre@.label
    &&& post.spec_created() == pre.spec_created()
    &&& exists|now: u64| r == gate_fires(pre@, now) && post@ == gate_step(pre@, now)
}

impl View for ThrottleTimer {
    type V = GateState;

    closed spec fn view(&self) -> GateState {
        GateState {
            last: self.maybe_last_called_time,
            count: self.total_calls as nat,
            interval: self.max_frequency,
            label: self.event_name@,
        }
    }
}

impl ThrottleTimer {
    /// The wall-clock creation time, opaque to the verifier.
    pub closed spec fn spec_created(self) -> std::time::SystemTime {
        self.created_date
    }

    /// The monotonic-clock origin that ticks are measured from.
    pub closed spec fn spec_origin(self) -> std::time::Instant {
        self.origin
    }

    /// A fresh gate: nothing permitted yet, the given interval and label,
    /// and the creation time captured from the wall clock.
    pub fn new(max_frequency: u64, event_name: &'static str) -> (t: Self)
        ensures
            t@.last is None,
            t@.count == 0,
            t@.interval == max_frequency,
            t@.label == event_name@,
    {
        Self {
            origin: clock::monotonic_origin(),
            maybe_last_called_time: None,
            total_calls: 0,
            created_date: clock::wall_clock_now(),
            max_frequency,
            event_name,
        }
    }

    /// The event label, fixed at construction; used for diagnostics only.
    pub fn event_name(&self) -> (r: &str)
        ensures
            r@ == self@.label,
    {
        self.event_name
    }

    /// How many calls the timer has permitted so far.
    pub fn total_calls(&self) -> (r: &usize)
        ensures
            *r == self@.count,
    {
        &self.total_calls
    }

    /// The minimum number of ticks between permitted firings.
    pub fn max_frequency(&self) -> (r: u64)
        ensures
            r == self@.interval,
    {
        self.max_frequency
    }

    /// The interval under its other customary name.
    pub fn frequency(&self) -> (r: u64)
        ensures
            r == self@.interval,
    {
        self.max_frequency
    }

    /// The wall-clock time the timer was created, for reporting.
    pub fn created_date(&self) -> (r: std::time::SystemTime)
        ensures
            r == self.spec_created(),
    {
        self.created_date
    }

    /// Whether a call at tick `now` would be permitted; a pure query.
    pub fn can_run_at(&self, now: u64) -> (r: bool)
        ensures
            r == gate_fires(self@, now),
    {
        match self.maybe_last_called_time {
            None => true,
            Some(t) => {
                let elapsed: u64 = if now >= t {
                    now - t
                } else {
                    0
                };
                elapsed >= self.max_frequency
            },
        }
    }

    /// Whether a firing is permitted at the current monotonic-clock reading;
    /// the state is untouched.  Before the first permitted call, and with a
    /// zero interval, the answer is `true` whatever the clock says.
    pub fn can_run(&mut self) -> (r: bool)
        ensures
            *final(self) == *old(self),
            old(self)@.last is None ==> r,
            old(self)@.interval == 0 ==> r,
            exists|now: u64| r == gate_fires(old(self)@, now),
    {
        let now: u64 = clock::ticks_since(&self.origin);
        self.can_run_at(now)
    }

    /// One gating decision at tick `now`: permitted exactly when the model
    /// says so.  A permitted call records `now` and bumps the count; a
    /// throttled call changes nothing.
    pub fn do_run_at(&mut self, now: u64) -> (r: bool)
        requires
            old(self)@.count < usize::MAX,
        ensures
            r == gate_fires(old(self)@, now),
            final(self)@ == gate_step(old(self)@, now),
            !r ==> *final(self) == *old(self),
            final(self).spec_created() == old(self).spec_created(),
            final(self).spec_origin() == old(self).spec_origin(),
    {
        let run_flag: bool = self.can_run_at(now);
        if run_flag {
            self.maybe_last_called_time = Some(now);
            self.total_calls = self.total_calls + 1;
        }
        run_flag
    }

    /// One gating decision at the current monotonic-clock reading.  The
    /// first call after construction, and every call of a gate with a zero
    /// interval, is permitted whatever the clock says; the decision and the
    /// new state fit the model at a single clock reading.
    pub fn do_run(&mut self) -> (r: bool)
        requires
            old(self)@.count < usize::MAX,
        ensures
            decision_follows_model(*old(self), *final(self), r),
    {
        let now: u64 = clock::ticks_since(&self.origin);
        self.do_run_at(now)
    }

    /// The decision of `do_run`, with a callback for either outcome: a
    /// permitted call updates the state and then runs `success`, a throttled
    /// one runs `throttled` and changes nothing.  Exactly one of the two
    /// callbacks runs, after the state is settled, and `success` runs only
    /// on a `true` result.
    pub fn run_throttle_cb<F: FnOnce(), G: FnOnce()>(
        &mut self,
        success: F,
        throttled: G,
    ) -> (r: bool)
        requires
            old(self)@.count < usize::MAX,
            call_requires(success, ()),
            call_requires(throttled, ()),
        ensures
            decision_follows_model(*old(self), *final(self), r),
            r ==> call_ensures(success, (), ()),
            !r ==> call_ensures(throttled, (), ()),
    {
        let now: u64 = clock::ticks_since(&self.origin);
        let run_flag: bool = self.do_run_at(now);
        if run_flag {
            success();
        } else {
            throttled();
        }
        run_flag
    }

    /// The decision of `do_run`, running `success` exactly when the call is
    /// permitted, once, after the state is updated.
    pub fn run<F: FnOnce()>(&mut self, success: F) -> (r: bool)
        requires
            old(self)@.count < usize::MAX,
            call_requires(success, ()),
        ensures
            decision_follows_model(*old(self), *final(self), r),
            r ==> call_ensures(success, (), ()),
    {
        self.run_throttle_cb(success, || {})
    }

    /// Remaining ticks at tick `now` before a firing would again be permitted;
    /// a pure query with the exact clamped value.
    pub fn wait_time_at(&self, now: u64) -> (r: u64)
        ensures
            r == gate_wait(self@, now),
    {
        match self.maybe_last_called_time {
            None => 0,
            Some(t) => {
                let elapsed: u64 = if now >= t {
                    now - t
                } else {
                    0
                };
                if elapsed >= self.max_frequency {
                    0
                } else {
                    self.max_frequency - elapsed
                }
            },
        }
    }

    /// Remaining wait, in ticks, before a firing would next be permitted:
    /// zero before the first permitted call, never more than the interval,
    /// and (being unsigned) never negative.
    pub fn wait_time(&self) -> (r: u64)
        ensures
            r <= self@.interval,
            self@.last is None ==> r == 0,
            exists|now: u64| r == gate_wait(self@, now),
    {
        let now: u64 = clock::ticks_since(&self.origin);
        self.wait_time_at(now)
    }

    /// The report's numbers for a given elapsed span: the count as it
    /// stands, and the mean span per permitted call, absent when nothing has
    /// been permitted so that no division by zero arises.
    pub fn report_with_elapsed(&self, elapsed_nanos: u64) -> (r: TimerReport)
        ensures
            r.elapsed_nanos == elapsed_nanos,
            r.total_calls == self@.count,
            r.mean_nanos_per_call == mean_nanos(elapsed_nanos, r.total_calls),
    {
        let mean: Option<u64> = if self.total_calls == 0 {
            None
        } else {
            Some(elapsed_nanos / (self.total_calls as u64))
        };
        TimerReport { elapsed_nanos, total_calls: self.total_calls, mean_nanos_per_call: mean }
    }

    /// The report against the wall clock: `None` signals a clock anomaly
    /// (the wall clock has been set back before the creation time), in which
    /// case no elapsed span — and so no report — is meaningful.
    pub fn report(&self) -> (r: Option<TimerReport>)
        ensures
            r matches Some(rep) ==> {
                &&& rep.total_calls == self@.count
                &&& rep.mean_nanos_per_call == mean_nanos(rep.elapsed_nanos, rep.total_calls)
                &&& (rep.mean_nanos_per_call is Some <==> self@.count > 0)
            },
    {
        match clock::wall_elapsed_nanos(&self.created_date) {
            Some(elapsed) => Some(self.report_with_elapsed(elapsed)),
            None => None,
        }
    }
}

} // verus!
