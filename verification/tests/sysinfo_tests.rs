use simadmin::sysinfo::{format_uptime, memory_info_from, SystemInfo};

#[test]
fn uptime_in_days_hours_minutes() {
    assert_eq!(format_uptime(2 * 86400 + 3 * 3600 + 45 * 60), "2天 3小时 45分钟");
}

#[test]
fn uptime_of_zero_seconds() {
    assert_eq!(format_uptime(0), "0秒");
}

#[test]
fn uptime_shows_seconds_when_not_whole() {
    assert_eq!(format_uptime(3661), "1小时 1分钟 1秒");
    assert_eq!(format_uptime(59), "59秒");
    assert_eq!(format_uptime(60), "1分钟");
    assert_eq!(format_uptime(86400), "1天");
    assert_eq!(format_uptime(90061), "1天 1小时 1分钟 1秒");
}

#[test]
fn meminfo_figures_in_bytes() {
    let text = "MemTotal:        3891288 kB\nMemFree:          123456 kB\nMemAvailable:    2000000 kB\nBuffers:           10240 kB\nCached:           512000 kB\nSwapCached:            0 kB\n";
    assert_eq!(
        memory_info_from(text),
        (3891288 * 1024, 2000000 * 1024, 512000 * 1024, 10240 * 1024)
    );
}

#[test]
fn meminfo_missing_or_bad_figures_are_zero() {
    assert_eq!(memory_info_from("MemTotal: abc kB\nCached:\n"), (0, 0, 0, 0));
}

#[test]
fn uname_line() {
    let s = SystemInfo::from_uname(
        "Linux".to_string(),
        "cpe".to_string(),
        "5.15.0".to_string(),
        "#1 SMP".to_string(),
        "aarch64".to_string(),
    );
    assert_eq!(s.full_info, "Linux cpe 5.15.0 #1 SMP aarch64");
    assert_eq!(s.domainname, "");
    let p = SystemInfo::from_platform("windows".to_string(), "".to_string(), "".to_string());
    assert_eq!(p.full_info, "windows");
}
