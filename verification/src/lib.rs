pub mod laws;
pub mod monitor;
pub mod textfmt;
pub mod traffic_stats;
