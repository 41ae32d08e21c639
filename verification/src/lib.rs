//! A minimal rate-limiting gate for named events.
//!
//! A [`ThrottleTimer`] is created with a minimum interval, in nanosecond
//! ticks, and a label.  Each firing variant asks the monotonic clock whether
//! at least the interval has passed since the last permitted firing; the
//! first call after construction is always permitted.  A permitted call
//! records the new firing time and bumps the call count; a throttled call
//! changes nothing.
//!
//! The gating rules are stated as spec functions over a [`GateState`], and
//! every operation's contract is given against them; the `*_at` variants
//! take the clock reading as an explicit argument and carry the exact
//! contracts, while the clock-reading methods state what holds of every
//! possible reading.  The `lemma_*` proof functions state the laws the
//! rules obey.

mod clock;
mod model;
mod gate;

pub use gate::decision_follows_model;
pub use gate::ThrottleTimer;
pub use gate::TimerReport;
pub use model::GateState;
pub use model::{gate_fired_count, gate_fires, gate_run_seq, gate_step, gate_wait};
pub use model::{mean_nanos, sat_elapsed};
pub use model::{
    lemma_count_accounts_for_fires, lemma_fires_after_interval, lemma_fires_iff_no_wait,
    lemma_first_call_fires, lemma_throttled_within_interval, lemma_wait_clamps_at_zero,
    lemma_zero_interval_never_throttles,
};
