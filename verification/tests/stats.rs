use astraos::qmp::{BalloonStats, CpuStats, QmpError};
use astraos::stats::{format_uptime, StatsMonitor, VmStats};

#[test]
fn format_uptime_zero() {
    assert_eq!(format_uptime(0), "0h 00m 00s");
}

#[test]
fn format_uptime_under_minute() {
    assert_eq!(format_uptime(7), "0h 00m 07s");
}

#[test]
fn format_uptime_with_minutes() {
    assert_eq!(format_uptime(72), "0h 01m 12s");
}

#[test]
fn format_uptime_with_hours() {
    assert_eq!(format_uptime(3600 + 12 * 60 + 4), "1h 12m 04s");
}

#[test]
fn format_uptime_many_hours() {
    assert_eq!(format_uptime(100 * 3600 + 59 * 60 + 59), "100h 59m 59s");
}

#[test]
fn cpu_colors() {
    let mut s = VmStats::default();
    assert_eq!(s.cpu_color(), "green");
    s.cpu_percent = 40;
    assert_eq!(s.cpu_color(), "green");
    s.cpu_percent = 41;
    assert_eq!(s.cpu_color(), "yellow");
    s.cpu_percent = 70;
    assert_eq!(s.cpu_color(), "yellow");
    s.cpu_percent = 71;
    assert_eq!(s.cpu_color(), "red");
}

#[test]
fn stats_from_samples() {
    let s = VmStats::from_samples(
        &CpuStats { usage_percent: 12 },
        &BalloonStats { actual_mb: 2048, total_mb: 2048 },
        99,
    );
    assert_eq!((s.cpu_percent, s.ram_used_mb, s.ram_total_mb, s.disk_io_mbps, s.uptime_seconds), (12, 2048, 2048, 0, 99));
}

#[test]
fn stats_monitor_needs_a_socket() {
    match StatsMonitor::new("/no/such/qmp.sock".to_string()) {
        Err(QmpError::ConnectionFailed) => {}
        _ => panic!("expected ConnectionFailed"),
    }
}

#[test]
fn stats_monitor_reports_samples() {
    let path = "/".to_string();
    let m = StatsMonitor::new(path.clone()).unwrap();
    assert_eq!(m.qmp().socket_path(), &path);
    let s = m.get_stats(&CpuStats { usage_percent: 12 }, &BalloonStats { actual_mb: 300, total_mb: 300 });
    assert_eq!(s.cpu_percent, 12);
    assert_eq!(s.ram_used_mb, 300);
    assert_eq!(s.ram_total_mb, 300);
    assert_eq!(s.disk_io_mbps, 0);
    assert!(s.uptime_seconds < 20);
}
