//! Fixed-rate tick scheduling with drift correction.
//!
//! The loop around the crate keeps a running target timestamp. Each
//! tick the target advances by exactly one period — never recomputed
//! from the current time — and the loop sleeps until the target. When
//! the target has already passed (an overrun) the target resets to
//! the current time, deliberately dropping the backlog instead of
//! bursting reports to catch up.

use vstd::prelude::*;

verus! {

/// Nanoseconds in one second.
pub const NANOS_PER_SEC: u64 = 1_000_000_000;

/// The tick period in nanoseconds for a report rate in Hz.
pub fn tick_period_nanos(rate_hz: u16) -> (r: u64)
    requires
        rate_hz >= 1,
    ensures
        r == NANOS_PER_SEC / rate_hz as u64,
{
    NANOS_PER_SEC / (rate_hz as u64)
}

/// One scheduling decision: how long to sleep and the next target.
#[derive(Debug, Clone, Copy, PartialEq, Eq, Structural)]
pub struct TickPlan {
    pub sleep_nanos: u64,
    pub next_target: u64,
}

/// Advances the target by one period against the clock reading `now`
/// (both in nanoseconds on the same clock): sleep until the advanced
/// target if it is still ahead, else sleep nothing and reset the
/// target to `now`.
pub fn plan_tick(target: u64, period: u64, now: u64) -> (r: TickPlan)
    requires
        target + period <= u64::MAX,
    ensures
        target + period > now ==> r == (TickPlan {
            sleep_nanos: (target + period - now) as u64,
            next_target: (target + period) as u64,
        }),
        target + period <= now ==> r == (TickPlan { sleep_nanos: 0, next_target: now }),
{
    let t = target + period;
    if t > now {
        TickPlan { sleep_nanos: t - now, next_target: t }
    } else {
        TickPlan { sleep_nanos: 0, next_target: now }
    }
}

} // verus!
