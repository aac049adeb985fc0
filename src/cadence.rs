use vstd::prelude::*;

verus! {

/// Milliseconds that must pass before the control socket is polled again.
pub const CONTROL_INTERVAL_MS: u64 = 10;

/// Milliseconds that must pass before the latch is checked again.
pub const TELEMETRY_INTERVAL_MS: u64 = 2000;

/// Longest wait of the control step's receive, in milliseconds.
pub const RECEIVE_TIMEOUT_MS: u64 = 10;

/// The two deadline timers of the poll loop, as the monotonic time in
/// milliseconds at which each was last reset.
#[derive(Clone, Copy, Debug, PartialEq, Eq, Structural)]
pub struct Cadence {
    pub control_reset_ms: u64,
    pub telemetry_reset_ms: u64,
}

/// Time passed since `reset`, zero if the clock reads earlier.
pub open spec fn elapsed(reset: u64, now: u64) -> int {
    if now >= reset {
        now - reset
    } else {
        0
    }
}

pub open spec fn control_due_spec(c: Cadence, now: u64) -> bool {
    elapsed(c.control_reset_ms, now) > CONTROL_INTERVAL_MS
}

pub open spec fn telemetry_due_spec(c: Cadence, now: u64) -> bool {
    elapsed(c.telemetry_reset_ms, now) > TELEMETRY_INTERVAL_MS
}

impl Cadence {
    /// Both timers start at `now`.
    pub fn new(now: u64) -> (r: Cadence)
        ensures
            r.control_reset_ms == now,
            r.telemetry_reset_ms == now,
    {
        Cadence { control_reset_ms: now, telemetry_reset_ms: now }
    }

    pub fn control_due(&self, now: u64) -> (due: bool)
        ensures
            due == control_due_spec(*self, now),
    {
        now >= self.control_reset_ms && now - self.control_reset_ms > CONTROL_INTERVAL_MS
    }

    pub fn telemetry_due(&self, now: u64) -> (due: bool)
        ensures
            due == telemetry_due_spec(*self, now),
    {
        now >= self.telemetry_reset_ms && now - self.telemetry_reset_ms > TELEMETRY_INTERVAL_MS
    }

    /// Resets the control timer once the control step has run, at `now`.
    pub fn control_done(&mut self, now: u64)
        ensures
            final(self).control_reset_ms == now,
            final(self).telemetry_reset_ms == old(self).telemetry_reset_ms,
    {
        self.control_reset_ms = now;
    }

    /// Resets the telemetry timer once the telemetry step has run, at `now`.
    pub fn telemetry_done(&mut self, now: u64)
        ensures
            final(self).telemetry_reset_ms == now,
            final(self).control_reset_ms == old(self).control_reset_ms,
    {
        self.telemetry_reset_ms = now;
    }
}

/// The control step never holds back the telemetry step: if telemetry is due
/// when an iteration starts at `start`, and the control step ends at `after`,
/// no later than one receive timeout after `start`, then the telemetry check
/// that follows in the same iteration still finds it due, whatever the
/// control step did to its own timer.
pub proof fn lemma_control_never_delays_telemetry(c: Cadence, start: u64, after: u64)
    requires
        start <= after,
        after <= start + RECEIVE_TIMEOUT_MS,
        telemetry_due_spec(c, start),
    ensures
        telemetry_due_spec(Cadence { control_reset_ms: after, ..c }, after),
        telemetry_due_spec(c, after),
{
}

} // verus!
