//! The decision and formatting core of the two worker loops and of the
//! session wind-down: what one capture-loop iteration does with an event,
//! what one reporting tick drains and emits, how the final summary is
//! rendered, and how the requested interface is located.
//!
//! The loops themselves — blocking on the capture handle, sleeping for the
//! reporting period, printing — live outside the library and feed these
//! functions plain values.

use vstd::prelude::*;
use vstd::string::StringExecFns;

use crate::textfmt::bps_rep;
use crate::textfmt::dec_rep;
use crate::textfmt::format_bps;
use crate::textfmt::format_centi;
use crate::textfmt::format_pps;
use crate::textfmt::pad_rep;
use crate::textfmt::pad_right;
use crate::textfmt::pps_rep;
use crate::textfmt::u64_to_string;
use crate::traffic_stats::centi_rate;
use crate::traffic_stats::lemma_centi_numerator_bounded;
use crate::traffic_stats::TrafficStats;

verus! {

/// What one attempt to pull the next frame from the capture source came
/// back with: a frame with its captured length, a recoverable timeout, or
/// a fatal capture error.
pub enum CaptureEvent {
    Frame { caplen: usize },
    TimedOut,
    Failed,
}

/// The event can be absorbed by the counters without overflow.
pub open spec fn event_admitted(s: TrafficStats, e: CaptureEvent) -> bool {
    match e {
        CaptureEvent::Frame { caplen } => s.can_record(caplen as u64),
        CaptureEvent::TimedOut => true,
        CaptureEvent::Failed => true,
    }
}

/// One iteration of the capture loop, given the stop flag as observed at
/// the top of the iteration and the event the capture source delivered:
/// a frame is counted and the loop goes on, a timeout counts nothing and
/// the loop goes on, a fatal error counts nothing and stops the loop. An
/// observed stop flag ends the loop before the event is looked at.
pub fn capture_step(
    stats: &mut TrafficStats,
    stop_requested: bool,
    event: &CaptureEvent,
) -> (keep_running: bool)
    requires
        !stop_requested ==> event_admitted(*old(stats), *event),
    ensures
        stop_requested ==> !keep_running && *final(stats) == *old(stats),
        !stop_requested ==> (match *event {
            CaptureEvent::Frame { caplen } => keep_running && *final(stats) == old(
                stats,
            ).recorded(caplen as u64),
            CaptureEvent::TimedOut => keep_running && *final(stats) == *old(stats),
            CaptureEvent::Failed => !keep_running && *final(stats) == *old(stats),
        }),
{
    if stop_requested {
        return false;
    }
    match event {
        CaptureEvent::Frame { caplen } => {
            stats.add_packet(*caplen);
            true
        },
        CaptureEvent::TimedOut => true,
        CaptureEvent::Failed => false,
    }
}

/// Relies on chrono's `Local::now().format("%H:%M:%S")`: hour, minute and
/// second of the local wall clock, each zero-padded to two digits and
/// separated by colons — eight characters in all.
#[verifier::external_body]
fn local_time_hhmmss() -> (r: String)
    ensures
        r@.len() == 8,
        r@[2] == ':',
        r@[5] == ':',
{
    chrono::Local::now().format("%H:%M:%S").to_string()
}

/// One report line: carriage return, then the timestamp, the two scaled
/// rate strings and the two raw window counts, each padded to a
/// twelve-character column.
pub open spec fn report_row_rep(
    ts: Seq<char>,
    centi_pps: nat,
    centi_bps: nat,
    packets: u64,
    bytes: u64,
) -> Seq<char> {
    seq!['\r'] + pad_rep(ts, 12) + seq![' '] + pad_rep(pps_rep(centi_pps), 12) + seq![' ']
        + pad_rep(bps_rep(centi_bps), 12) + seq![' '] + pad_rep(dec_rep(packets as nat), 12)
        + seq![' '] + pad_rep(dec_rep(bytes as nat), 12)
}

/// Renders one report line from a timestamp string and the values a
/// snapshot-and-reset returned.
pub fn format_report_row(
    time_str: &str,
    centi_pps: u128,
    centi_bps: u128,
    packets: u64,
    bytes: u64,
) -> (r: String)
    ensures
        r@ == report_row_rep(time_str@, centi_pps as nat, centi_bps as nat, packets, bytes),
{
    let mut r = String::from_str("\r");
    let c0 = pad_right(time_str, 12);
    r.append(c0.as_str());
    r.append(" ");
    let pps = format_pps(centi_pps);
    let c1 = pad_right(pps.as_str(), 12);
    r.append(c1.as_str());
    r.append(" ");
    let bps = format_bps(centi_bps);
    let c2 = pad_right(bps.as_str(), 12);
    r.append(c2.as_str());
    r.append(" ");
    let p = u64_to_string(packets);
    let c3 = pad_right(p.as_str(), 12);
    r.append(c3.as_str());
    r.append(" ");
    let b = u64_to_string(bytes);
    let c4 = pad_right(b.as_str(), 12);
    r.append(c4.as_str());
    proof {
        reveal_strlit("\r");
        reveal_strlit(" ");
        assert(r@ =~= report_row_rep(
            time_str@,
            centi_pps as nat,
            centi_bps as nat,
            packets,
            bytes,
        ));
    }
    r
}

/// One reporting tick: drains the window that ends at `now_ms` out of the
/// counters and renders the report line for it, stamped with the local
/// wall-clock time.
pub fn report_tick(stats: &mut TrafficStats, now_ms: u64) -> (line: String)
    requires
        old(stats).wf(),
        old(stats).last_update <= now_ms,
        old(stats).can_fold(),
    ensures
        *final(stats) == old(stats).after_reset(now_ms),
        final(stats).wf(),
        exists|ts: Seq<char>|
            ts.len() == 8 && line@ == #[trigger] report_row_rep(
                ts,
                old(stats).window_output(now_ms).0,
                old(stats).window_output(now_ms).1,
                old(stats).window_output(now_ms).2,
                old(stats).window_output(now_ms).3,
            ),
{
    let out = stats.reset(now_ms);
    let ts = local_time_hhmmss();
    let line = format_report_row(ts.as_str(), out.0, out.1, out.2, out.3);
    proof {
        assert(ts@.len() == 8 && line@ == report_row_rep(
            ts@,
            old(stats).window_output(now_ms).0,
            old(stats).window_output(now_ms).1,
            old(stats).window_output(now_ms).2,
            old(stats).window_output(now_ms).3,
        ));
    }
    line
}

/// A whole-session average rendered to two decimal places, or `N/A` for a
/// session of zero length, whose average is undefined.
pub open spec fn avg_rep(total: nat, elapsed_ms: nat) -> Seq<char> {
    if elapsed_ms == 0 {
        "N/A"@
    } else {
        crate::textfmt::centi_rep(centi_rate(total, elapsed_ms))
    }
}

/// Renders the whole-session average rate of `total` events over
/// `elapsed_ms` milliseconds.
pub fn format_avg(total: u64, elapsed_ms: u64) -> (r: String)
    ensures
        r@ == avg_rep(total as nat, elapsed_ms as nat),
{
    if elapsed_ms == 0 {
        String::from_str("N/A")
    } else {
        proof {
            lemma_centi_numerator_bounded(total as nat);
        }
        format_centi((total as u128) * 100_000u128 / (elapsed_ms as u128))
    }
}

/// The final summary block: interface name, session duration in seconds
/// to two decimal places, cumulative totals, and the two whole-session
/// averages (`N/A` when no time elapsed).
pub open spec fn final_summary_rep(
    interface: Seq<char>,
    elapsed_ms: u64,
    total_packets: u64,
    total_bytes: u64,
) -> Seq<char> {
    "\n\nFinal Statistics:\nInterface: "@ + interface + "\nMonitoring duration: "@ + crate::textfmt::centi_rep(
        (elapsed_ms / 10) as nat,
    ) + " seconds"@ + "\nTotal packets: "@ + dec_rep(total_packets as nat) + "\nTotal bytes: "@
        + dec_rep(total_bytes as nat) + "\nAverage packets/s: "@ + avg_rep(
        total_packets as nat,
        elapsed_ms as nat,
    ) + "\nAverage bytes/s: "@ + avg_rep(total_bytes as nat, elapsed_ms as nat)
}

/// Renders the final summary for a session on `interface` that ran for
/// `elapsed_ms` milliseconds and captured the given cumulative totals.
pub fn format_final_summary(
    interface: &str,
    elapsed_ms: u64,
    total_packets: u64,
    total_bytes: u64,
) -> (r: String)
    ensures
        r@ == final_summary_rep(interface@, elapsed_ms, total_packets, total_bytes),
{
    let mut r = String::from_str("\n\nFinal Statistics:\nInterface: ");
    r.append(interface);
    r.append("\nMonitoring duration: ");
    let dur = format_centi((elapsed_ms / 10) as u128);
    r.append(dur.as_str());
    r.append(" seconds");
    r.append("\nTotal packets: ");
    let tp = u64_to_string(total_packets);
    r.append(tp.as_str());
    r.append("\nTotal bytes: ");
    let tb = u64_to_string(total_bytes);
    r.append(tb.as_str());
    r.append("\nAverage packets/s: ");
    let ap = format_avg(total_packets, elapsed_ms);
    r.append(ap.as_str());
    r.append("\nAverage bytes/s: ");
    let ab = format_avg(total_bytes, elapsed_ms);
    r.append(ab.as_str());
    proof {
        assert(r@ =~= final_summary_rep(interface@, elapsed_ms, total_packets, total_bytes));
    }
    r
}

/// Looks `wanted` up among the interface names, returning the position of
/// its first occurrence, or nothing when no name matches.
pub fn find_interface(names: &Vec<String>, wanted: &str) -> (r: Option<usize>)
    ensures
        match r {
            Some(i) => i < names@.len() && names@[i as int]@ == wanted@ && (forall|j: int|
                0 <= j < i ==> names@[j]@ != wanted@),
            None => forall|j: int| 0 <= j < names@.len() ==> names@[j]@ != wanted@,
        },
{
    let w: String = wanted.to_owned();
    let mut i: usize = 0;
    while i < names.len()
        invariant
            i <= names@.len(),
            w@ == wanted@,
            forall|j: int| 0 <= j < i ==> names@[j]@ != wanted@,
        decreases names@.len() - i,
    {
        if names[i] == w {
            return Some(i);
        }
        i = i + 1;
    }
    None
}

/// One row of the interface listing: name, address and description, each
/// padded to its column, with a stated stand-in where the source offers
/// no address or no description.
pub open spec fn device_row_rep(
    name: Seq<char>,
    ip: Option<Seq<char>>,
    desc: Option<Seq<char>>,
) -> Seq<char> {
    pad_rep(name, 20) + seq![' '] + pad_rep(
        (match ip {
            Some(s) => s,
            None => "N/A"@,
        }),
        30,
    ) + seq![' '] + pad_rep(
        (match desc {
            Some(s) => s,
            None => "No description"@,
        }),
        40,
    )
}

/// Renders one row of the interface listing.
pub fn format_device_row(name: &str, ip: &Option<String>, desc: &Option<String>) -> (r: String)
    ensures
        r@ == device_row_rep(name@, ip.deep_view(), desc.deep_view()),
{
    let mut r = pad_right(name, 20);
    r.append(" ");
    let ipcol = match ip {
        Option::Some(s) => pad_right(s.as_str(), 30),
        Option::None => pad_right("N/A", 30),
    };
    r.append(ipcol.as_str());
    r.append(" ");
    let desccol = match desc {
        Option::Some(s) => pad_right(s.as_str(), 40),
        Option::None => pad_right("No description", 40),
    };
    r.append(desccol.as_str());
    proof {
        reveal_strlit(" ");
        assert(r@ =~= device_row_rep(name@, ip.deep_view(), desc.deep_view()));
    }
    r
}

/// The header row of the interface listing, its three column titles padded
/// as the rows beneath them are.
pub fn format_table_header() -> (r: String)
    ensures
        r@ == pad_rep("Name"@, 20) + seq![' '] + pad_rep("IP Address"@, 30) + seq![' '] + pad_rep(
            "Description"@,
            40,
        ),
{
    let mut r = pad_right("Name", 20);
    r.append(" ");
    let c1 = pad_right("IP Address", 30);
    r.append(c1.as_str());
    r.append(" ");
    let c2 = pad_right("Description", 40);
    r.append(c2.as_str());
    proof {
        reveal_strlit(" ");
        assert(r@ =~= pad_rep("Name"@, 20) + seq![' '] + pad_rep("IP Address"@, 30) + seq![' ']
            + pad_rep("Description"@, 40));
    }
    r
}

/// The header row above the periodic report lines, its five column titles
/// padded to the same twelve-character columns as the report rows.
pub fn format_monitor_header() -> (r: String)
    ensures
        r@ == pad_rep("Time"@, 12) + seq![' '] + pad_rep("Packets/s"@, 12) + seq![' '] + pad_rep(
            "Bytes/s"@,
            12,
        ) + seq![' '] + pad_rep("Total Pkts"@, 12) + seq![' '] + pad_rep("Total Bytes"@, 12),
{
    let mut r = pad_right("Time", 12);
    r.append(" ");
    let c1 = pad_right("Packets/s", 12);
    r.append(c1.as_str());
    r.append(" ");
    let c2 = pad_right("Bytes/s", 12);
    r.append(c2.as_str());
    r.append(" ");
    let c3 = pad_right("Total Pkts", 12);
    r.append(c3.as_str());
    r.append(" ");
    let c4 = pad_right("Total Bytes", 12);
    r.append(c4.as_str());
    proof {
        reveal_strlit(" ");
        assert(r@ =~= pad_rep("Time"@, 12) + seq![' '] + pad_rep("Packets/s"@, 12) + seq![' ']
            + pad_rep("Bytes/s"@, 12) + seq![' '] + pad_rep("Total Pkts"@, 12) + seq![' ']
            + pad_rep("Total Bytes"@, 12));
    }
    r
}

} // verus!
