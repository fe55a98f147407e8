//! Session-level laws of the counter aggregate, proved over the
//! specification model in `traffic_stats`: what a window reports, what a
//! whole history of operations conserves, and what a degenerate
//! zero-length window leaves untouched.

use vstd::prelude::*;

use crate::traffic_stats::fresh_stats;
use crate::traffic_stats::TrafficStats;

verus! {

/// One operation on the stats store, as the two worker loops perform them:
/// the capture loop records a packet, the reporting loop snapshots and
/// resets at some instant of the session clock.
pub enum StatsOp {
    Record { len: u64 },
    Reset { now_ms: u64 },
}

/// The state after one operation.
pub open spec fn apply_op(s: TrafficStats, op: StatsOp) -> TrafficStats {
    match op {
        StatsOp::Record { len } => s.recorded(len),
        StatsOp::Reset { now_ms } => s.after_reset(now_ms),
    }
}

/// The operation respects the preconditions of the call it stands for:
/// counters stay in range and the clock does not run backwards.
pub open spec fn op_ok(s: TrafficStats, op: StatsOp) -> bool {
    match op {
        StatsOp::Record { len } => s.can_record(len),
        StatsOp::Reset { now_ms } => s.wf() && s.last_update <= now_ms && s.can_fold(),
    }
}

/// The state after a whole history of operations, applied left to right.
pub open spec fn apply_ops(s: TrafficStats, ops: Seq<StatsOp>) -> TrafficStats
    decreases ops.len(),
{
    if ops.len() == 0 {
        s
    } else {
        apply_op(apply_ops(s, ops.drop_last()), ops.last())
    }
}

/// Every operation of the history is performed in a state that admits it.
pub open spec fn ops_ok(s: TrafficStats, ops: Seq<StatsOp>) -> bool
    decreases ops.len(),
{
    ops.len() == 0 || (ops_ok(s, ops.drop_last()) && op_ok(apply_ops(s, ops.drop_last()), ops.last()))
}

/// How many packets the history records.
pub open spec fn records_in(ops: Seq<StatsOp>) -> nat
    decreases ops.len(),
{
    if ops.len() == 0 {
        0
    } else {
        records_in(ops.drop_last()) + (match ops.last() {
            StatsOp::Record { len } => 1 as nat,
            StatsOp::Reset { now_ms } => 0 as nat,
        })
    }
}

/// How many bytes the history records.
pub open spec fn bytes_in(ops: Seq<StatsOp>) -> nat
    decreases ops.len(),
{
    if ops.len() == 0 {
        0
    } else {
        bytes_in(ops.drop_last()) + (match ops.last() {
            StatsOp::Record { len } => len as nat,
            StatsOp::Reset { now_ms } => 0 as nat,
        })
    }
}

/// The sum of the packet lengths in a run of records.
pub open spec fn sum_lens(lens: Seq<u64>) -> nat
    decreases lens.len(),
{
    if lens.len() == 0 {
        0
    } else {
        (sum_lens(lens.drop_last()) + lens.last()) as nat
    }
}

/// The state after a run of records, applied left to right.
pub open spec fn recorded_all(s: TrafficStats, lens: Seq<u64>) -> TrafficStats
    decreases lens.len(),
{
    if lens.len() == 0 {
        s
    } else {
        recorded_all(s, lens.drop_last()).recorded(lens.last())
    }
}

/// Every record of the run stays within the counters.
pub open spec fn can_record_all(s: TrafficStats, lens: Seq<u64>) -> bool
    decreases lens.len(),
{
    lens.len() == 0 || (can_record_all(s, lens.drop_last()) && recorded_all(
        s,
        lens.drop_last(),
    ).can_record(lens.last()))
}

/// A run of records adds exactly its length to the running packet counter
/// and exactly its summed lengths to the running byte counter, and touches
/// nothing else.
pub proof fn lemma_recorded_all(s: TrafficStats, lens: Seq<u64>)
    requires
        can_record_all(s, lens),
    ensures
        recorded_all(s, lens).packets == s.packets + lens.len(),
        recorded_all(s, lens).bytes == s.bytes + sum_lens(lens),
        recorded_all(s, lens).start_time == s.start_time,
        recorded_all(s, lens).last_update == s.last_update,
        recorded_all(s, lens).total_packets == s.total_packets,
        recorded_all(s, lens).total_bytes == s.total_bytes,
    decreases lens.len(),
{
    if lens.len() > 0 {
        lemma_recorded_all(s, lens.drop_last());
    }
}

/// For a window that starts with empty running counters, a run of records
/// followed by one snapshot-and-reset reports exactly the number of
/// records as the window packet count and their summed lengths as the
/// window byte count, and folds exactly those amounts into the cumulative
/// totals.
pub proof fn lemma_window_report(s: TrafficStats, lens: Seq<u64>, now_ms: u64)
    requires
        s.packets == 0,
        s.bytes == 0,
        can_record_all(s, lens),
        s.last_update < now_ms,
        recorded_all(s, lens).can_fold(),
    ensures
        recorded_all(s, lens).window_output(now_ms).2 == lens.len(),
        recorded_all(s, lens).window_output(now_ms).3 == sum_lens(lens),
        recorded_all(s, lens).after_reset(now_ms).total_packets == s.total_packets + lens.len(),
        recorded_all(s, lens).after_reset(now_ms).total_bytes == s.total_bytes + sum_lens(lens),
{
    lemma_recorded_all(s, lens);
}

/// Conservation: after any admissible history, the cumulative and running
/// counters together hold exactly what was ever recorded — no packet or
/// byte is counted twice and none is lost between a record and the next
/// reset.
pub proof fn lemma_conservation(start_ms: u64, ops: Seq<StatsOp>)
    requires
        ops_ok(fresh_stats(start_ms), ops),
    ensures
        apply_ops(fresh_stats(start_ms), ops).total_packets + apply_ops(
            fresh_stats(start_ms),
            ops,
        ).packets == records_in(ops),
        apply_ops(fresh_stats(start_ms), ops).total_bytes + apply_ops(
            fresh_stats(start_ms),
            ops,
        ).bytes == bytes_in(ops),
    decreases ops.len(),
{
    if ops.len() > 0 {
        lemma_conservation(start_ms, ops.drop_last());
    }
}

/// A single admissible operation preserves well-formedness, never moves
/// the session start, never rewinds the window start, and never decreases
/// a cumulative total — and a cumulative total grows only by a reset that
/// drains exactly the running counter into it.
pub proof fn lemma_op_invariants(s: TrafficStats, op: StatsOp)
    requires
        s.wf(),
        op_ok(s, op),
    ensures
        apply_op(s, op).wf(),
        apply_op(s, op).start_time == s.start_time,
        apply_op(s, op).last_update >= s.last_update,
        apply_op(s, op).total_packets >= s.total_packets,
        apply_op(s, op).total_bytes >= s.total_bytes,
        apply_op(s, op).total_packets == s.total_packets || (op matches StatsOp::Reset { now_ms }
            && apply_op(s, op).total_packets == s.total_packets + s.packets && apply_op(
            s,
            op,
        ).total_bytes == s.total_bytes + s.bytes),
{
}

/// A second snapshot-and-reset in the same instant reports zero rates and
/// zero window counts and leaves the state — the cumulative totals in
/// particular — exactly as the first left it.
pub proof fn lemma_reset_twice(s: TrafficStats, now_ms: u64)
    requires
        s.wf(),
        s.last_update <= now_ms,
    ensures
        s.after_reset(now_ms).window_output(now_ms) == (0 as nat, 0 as nat, 0u64, 0u64),
        s.after_reset(now_ms).after_reset(now_ms) == s.after_reset(now_ms),
{
}

} // verus!
