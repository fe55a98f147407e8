//! The shared counter aggregate at the heart of the monitor: running
//! (per-window) and cumulative (per-session) packet and byte counters,
//! together with the session-start and window-start timestamps.
//!
//! Time is represented as plain milliseconds on a monotone session clock;
//! the caller reads the clock and passes the current value in. Rates are
//! fixed-point integers in hundredths of a unit (centi-pps, centi-B/s),
//! which keeps every operation exact and free of floating point.

use vstd::prelude::*;

verus! {

/// Running and cumulative traffic counters for one monitoring session.
///
/// `packets` and `bytes` count the current, not-yet-reported window;
/// `total_packets` and `total_bytes` count the whole session. `start_time`
/// is fixed at creation; `last_update` marks the start of the current
/// window and moves forward on every successful reset.
#[derive(Clone, Copy, PartialEq, Eq, Structural)]
pub struct TrafficStats {
    pub packets: u64,
    pub bytes: u64,
    pub start_time: u64,
    pub last_update: u64,
    pub total_packets: u64,
    pub total_bytes: u64,
}

/// A rate in hundredths of a unit per second: `count` events over
/// `elapsed_ms` milliseconds give `count * 100_000 / elapsed_ms` centi-units
/// per second, truncated.
pub open spec fn centi_rate(count: nat, elapsed_ms: nat) -> nat
    recommends
        elapsed_ms > 0,
{
    (count * 100_000) / elapsed_ms
}

/// The state of a session that starts at `now_ms`: all counters zero, both
/// timestamps at `now_ms`.
pub open spec fn fresh_stats(now_ms: u64) -> TrafficStats {
    TrafficStats {
        packets: 0,
        bytes: 0,
        start_time: now_ms,
        last_update: now_ms,
        total_packets: 0,
        total_bytes: 0,
    }
}

impl TrafficStats {
    /// The session clock never runs backwards, so the current window can
    /// never have started before the session did.
    pub open spec fn wf(self) -> bool {
        self.start_time <= self.last_update
    }

    /// Recording one more packet of `len` bytes stays within the counters.
    pub open spec fn can_record(self, len: u64) -> bool {
        self.packets < u64::MAX && self.bytes + len <= u64::MAX
    }

    /// The state after recording one packet of `len` bytes.
    pub open spec fn recorded(self, len: u64) -> TrafficStats {
        TrafficStats {
            packets: (self.packets + 1) as u64,
            bytes: (self.bytes + len) as u64,
            ..self
        }
    }

    /// Folding the running counters into the cumulative ones stays within
    /// the counters.
    pub open spec fn can_fold(self) -> bool {
        self.total_packets + self.packets <= u64::MAX && self.total_bytes + self.bytes
            <= u64::MAX
    }

    /// The state after a snapshot-and-reset at `now_ms`. In the degenerate
    /// zero-length window (`now_ms` equal to the window start) nothing
    /// changes: the running counters are preserved for the next window.
    /// Otherwise the running counters move into the cumulative totals and
    /// a new window begins at `now_ms`.
    pub open spec fn after_reset(self, now_ms: u64) -> TrafficStats {
        if now_ms == self.last_update {
            self
        } else {
            TrafficStats {
                packets: 0,
                bytes: 0,
                start_time: self.start_time,
                last_update: now_ms,
                total_packets: (self.total_packets + self.packets) as u64,
                total_bytes: (self.total_bytes + self.bytes) as u64,
            }
        }
    }

    /// What a snapshot-and-reset at `now_ms` reports: centi-rates and the
    /// raw window counts, or all zeros for a zero-length window.
    pub open spec fn window_output(self, now_ms: u64) -> (nat, nat, u64, u64) {
        if now_ms == self.last_update {
            (0 as nat, 0 as nat, 0u64, 0u64)
        } else {
            (
                centi_rate(self.packets as nat, (now_ms - self.last_update) as nat),
                centi_rate(self.bytes as nat, (now_ms - self.last_update) as nat),
                self.packets,
                self.bytes,
            )
        }
    }

    /// Starts a session at `now_ms` with all counters zero and both
    /// timestamps equal to `now_ms`.
    pub fn new(now_ms: u64) -> (r: TrafficStats)
        ensures
            r == fresh_stats(now_ms),
            r.wf(),
    {
        TrafficStats {
            packets: 0,
            bytes: 0,
            start_time: now_ms,
            last_update: now_ms,
            total_packets: 0,
            total_bytes: 0,
        }
    }

    /// Read-only snapshot of the cumulative totals; repeated calls without
    /// an intervening mutation return the same pair.
    pub fn get_total(&self) -> (r: (u64, u64))
        ensures
            r == (self.total_packets, self.total_bytes),
    {
        (self.total_packets, self.total_bytes)
    }

    /// Milliseconds since the session started, read-only.
    pub fn elapsed_since_start(&self, now_ms: u64) -> (r: u64)
        requires
            self.start_time <= now_ms,
        ensures
            r == now_ms - self.start_time,
    {
        now_ms - self.start_time
    }

    /// Counts one captured packet of `packet_len` bytes into the running
    /// window.
    pub fn add_packet(&mut self, packet_len: usize)
        requires
            old(self).can_record(packet_len as u64),
        ensures
            *final(self) == old(self).recorded(packet_len as u64),
    {
        self.packets = self.packets + 1;
        self.bytes = self.bytes + packet_len as u64;
    }

    /// Atomic snapshot-and-reset: reports the rates and counts of the
    /// window that ends at `now_ms`, folds the window into the cumulative
    /// totals and starts the next window. A zero-length window reports all
    /// zeros and changes nothing, so no count is ever lost or duplicated.
    pub fn reset(&mut self, now_ms: u64) -> (r: (u128, u128, u64, u64))
        requires
            old(self).wf(),
            old(self).last_update <= now_ms,
            old(self).can_fold(),
        ensures
            *final(self) == old(self).after_reset(now_ms),
            final(self).wf(),
            r.0 as nat == old(self).window_output(now_ms).0,
            r.1 as nat == old(self).window_output(now_ms).1,
            r.2 == old(self).window_output(now_ms).2,
            r.3 == old(self).window_output(now_ms).3,
    {
        let elapsed: u64 = now_ms - self.last_update;
        if elapsed == 0 {
            return (0u128, 0u128, 0u64, 0u64);
        }
        proof {
            lemma_centi_numerator_bounded(self.packets as nat);
            lemma_centi_numerator_bounded(self.bytes as nat);
        }
        let pps: u128 = (self.packets as u128) * 100_000u128 / (elapsed as u128);
        let bps: u128 = (self.bytes as u128) * 100_000u128 / (elapsed as u128);
        let packets = self.packets;
        let bytes = self.bytes;
        self.total_packets = self.total_packets + self.packets;
        self.total_bytes = self.total_bytes + self.bytes;
        self.packets = 0;
        self.bytes = 0;
        self.last_update = now_ms;
        (pps, bps, packets, bytes)
    }
}

/// Scaling a 64-bit count into centi-units cannot overflow 128 bits.
pub proof fn lemma_centi_numerator_bounded(count: nat)
    requires
        count <= u64::MAX,
    ensures
        count * 100_000 <= u64::MAX * 100_000 < u128::MAX,
{
    assert(count * 100_000 <= u64::MAX * 100_000) by (nonlinear_arith)
        requires
            count <= u64::MAX,
    ;
}

} // verus!
