use imonitor::monitor::capture_step;
use imonitor::monitor::find_interface;
use imonitor::monitor::format_avg;
use imonitor::monitor::format_device_row;
use imonitor::monitor::format_final_summary;
use imonitor::monitor::format_monitor_header;
use imonitor::monitor::format_table_header;
use imonitor::monitor::report_tick;
use imonitor::monitor::CaptureEvent;
use imonitor::traffic_stats::TrafficStats;

#[test]
fn capture_step_counts_frames() {
    let mut st = TrafficStats::new(0);
    let keep = capture_step(&mut st, false, &CaptureEvent::Frame { caplen: 64 });
    assert!(keep);
    assert_eq!(st.packets, 1);
    assert_eq!(st.bytes, 64);
}

#[test]
fn capture_step_continues_on_timeout() {
    let mut st = TrafficStats::new(0);
    let keep = capture_step(&mut st, false, &CaptureEvent::TimedOut);
    assert!(keep);
    assert_eq!(st.packets, 0);
    assert_eq!(st.bytes, 0);
}

#[test]
fn capture_step_stops_on_fatal_error() {
    let mut st = TrafficStats::new(0);
    let keep = capture_step(&mut st, false, &CaptureEvent::Failed);
    assert!(!keep);
    assert_eq!(st.packets, 0);
}

#[test]
fn capture_step_observes_stop_flag() {
    let mut st = TrafficStats::new(0);
    let keep = capture_step(&mut st, true, &CaptureEvent::Frame { caplen: 64 });
    assert!(!keep);
    assert_eq!(st.packets, 0);
}

#[test]
fn find_interface_first_match() {
    let names = vec!["lo".to_string(), "eth0".to_string(), "eth1".to_string(), "eth0".to_string()];
    assert_eq!(find_interface(&names, "eth0"), Some(1));
    assert_eq!(find_interface(&names, "lo"), Some(0));
    assert_eq!(find_interface(&names, "wlan0"), None);
    assert_eq!(find_interface(&Vec::new(), "eth0"), None);
}

#[test]
fn device_row_uses_stated_defaults() {
    let row = format_device_row("eth0", &None, &None);
    let expected = format!("{:<20} {:<30} {:<40}", "eth0", "N/A", "No description");
    assert_eq!(row, expected);
    let row2 = format_device_row(
        "lo",
        &Some("127.0.0.1".to_string()),
        &Some("loopback".to_string()),
    );
    let expected2 = format!("{:<20} {:<30} {:<40}", "lo", "127.0.0.1", "loopback");
    assert_eq!(row2, expected2);
}

#[test]
fn table_headers_match_columns() {
    let expected = format!("{:<20} {:<30} {:<40}", "Name", "IP Address", "Description");
    assert_eq!(format_table_header(), expected);
    let expected_monitor = format!(
        "{:<12} {:<12} {:<12} {:<12} {:<12}",
        "Time", "Packets/s", "Bytes/s", "Total Pkts", "Total Bytes"
    );
    assert_eq!(format_monitor_header(), expected_monitor);
}

#[test]
fn final_summary_rendering() {
    let s = format_final_summary("eth0", 2000, 10, 4000);
    let expected = "\n\nFinal Statistics:\nInterface: eth0\nMonitoring duration: 2.00 seconds\nTotal packets: 10\nTotal bytes: 4000\nAverage packets/s: 5.00\nAverage bytes/s: 2000.00";
    assert_eq!(s, expected);
}

#[test]
fn final_summary_degenerate_duration() {
    let s = format_final_summary("eth0", 0, 3, 192);
    assert!(s.contains("Average packets/s: N/A"));
    assert!(s.contains("Average bytes/s: N/A"));
    assert!(s.contains("Monitoring duration: 0.00 seconds"));
    assert_eq!(format_avg(100, 0), "N/A");
    assert_eq!(format_avg(100, 1000), "100.00");
    assert_eq!(format_avg(5, 2000), "2.50");
}

#[test]
fn report_tick_line_shape() {
    let mut st = TrafficStats::new(0);
    st.add_packet(500);
    let line = report_tick(&mut st, 1000);
    let b = line.as_bytes();
    // '\r', then five twelve-character columns separated by single spaces.
    assert_eq!(b.len(), 1 + 12 + 1 + 12 + 1 + 12 + 1 + 12 + 1 + 12);
    assert_eq!(b[0], b'\r');
    // The wall-clock stamp is HH:MM:SS, left-aligned in the first column.
    assert_eq!(b[3], b':');
    assert_eq!(b[6], b':');
    assert_eq!(&b[9..13], b"    ");
    // Rates and raw counts of the drained window.
    assert!(line.contains("1.00pps"));
    assert!(line.contains("500.00B/s"));
    // The tick drained the window into the cumulative totals.
    assert_eq!(st.packets, 0);
    assert_eq!(st.get_total(), (1, 500));
}

#[test]
fn report_tick_degenerate_window() {
    let mut st = TrafficStats::new(0);
    st.add_packet(500);
    let line = report_tick(&mut st, 0);
    assert!(line.contains("0.00pps"));
    assert!(line.contains("0.00B/s"));
    assert_eq!(st.packets, 1);
    assert_eq!(st.get_total(), (0, 0));
}
