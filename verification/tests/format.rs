use imonitor::textfmt::dash_line;
use imonitor::textfmt::format_bps;
use imonitor::textfmt::format_centi;
use imonitor::textfmt::format_pps;
use imonitor::textfmt::pad_right;
use imonitor::textfmt::u128_to_string;
use imonitor::textfmt::u64_to_string;

#[test]
fn decimal_rendering() {
    assert_eq!(u128_to_string(0), "0");
    assert_eq!(u128_to_string(7), "7");
    assert_eq!(u128_to_string(10), "10");
    assert_eq!(u128_to_string(12345), "12345");
    assert_eq!(u64_to_string(u64::MAX), "18446744073709551615");
    assert_eq!(u128_to_string(u128::MAX), "340282366920938463463374607431768211455");
}

#[test]
fn centi_rendering() {
    assert_eq!(format_centi(0), "0.00");
    assert_eq!(format_centi(5), "0.05");
    assert_eq!(format_centi(50), "0.50");
    assert_eq!(format_centi(100), "1.00");
    assert_eq!(format_centi(123456), "1234.56");
}

#[test]
fn packet_rate_unit_thresholds() {
    assert_eq!(format_pps(0), "0.00pps");
    assert_eq!(format_pps(99999), "999.99pps");
    assert_eq!(format_pps(100000), "1.00Kpps");
    assert_eq!(format_pps(200000), "2.00Kpps");
    assert_eq!(format_pps(99999999), "999.99Kpps");
    assert_eq!(format_pps(100000000), "1.00Mpps");
    assert_eq!(format_pps(123456789), "1.23Mpps");
}

#[test]
fn byte_rate_unit_thresholds() {
    assert_eq!(format_bps(0), "0.00B/s");
    assert_eq!(format_bps(99999), "999.99B/s");
    assert_eq!(format_bps(100000), "1.00KB/s");
    assert_eq!(format_bps(15000000), "150.00KB/s");
    assert_eq!(format_bps(99999999), "999.99KB/s");
    assert_eq!(format_bps(100000000), "1.00MB/s");
    assert_eq!(format_bps(100000000000), "1.00GB/s");
    assert_eq!(format_bps(150000000000), "1.50GB/s");
}

#[test]
fn padding_and_rules() {
    assert_eq!(pad_right("ab", 5), "ab   ");
    assert_eq!(pad_right("abcdef", 5), "abcdef");
    assert_eq!(pad_right("", 3), "   ");
    assert_eq!(dash_line(3), "---");
    assert_eq!(dash_line(0), "");
    assert_eq!(dash_line(80).len(), 80);
}
