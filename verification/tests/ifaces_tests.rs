use simadmin::ifaces::{
    interface_info, interface_status, is_active_interface, may_use_address_tools,
    merge_counter, sort_interfaces, BearerStats, InterfaceFiles,
};
use simadmin::net::{make_ip_address, IpValue};

fn files() -> InterfaceFiles {
    InterfaceFiles {
        address: Some("aa:bb:cc:dd:ee:ff\n".to_string()),
        mtu: Some("1500\n".to_string()),
        rx_bytes: Some("1000\n".to_string()),
        tx_bytes: Some("2000\n".to_string()),
        rx_packets: Some("10\n".to_string()),
        tx_packets: None,
        rx_errors: Some("x\n".to_string()),
        tx_errors: Some("3\n".to_string()),
        flags: Some("0x1003\n".to_string()),
        carrier: Some("0\n".to_string()),
    }
}

#[test]
fn status_in_lower_case() {
    assert_eq!(interface_status(Some("UP\n")), "up");
    assert_eq!(interface_status(None), "unknown");
    assert!(may_use_address_tools("up"));
    assert!(!may_use_address_tools("down"));
}

#[test]
fn record_from_files_and_bearer() {
    let bearer = BearerStats { rx_bytes: 5000, tx_bytes: 10, rx_packets: 1, tx_packets: 7 };
    let info = interface_info("wwan0".to_string(), "up".to_string(), &files(), Some(bearer), vec![]);
    assert_eq!(info.mac_address, Some("aa:bb:cc:dd:ee:ff".to_string()));
    assert_eq!(info.mtu, 1500);
    assert_eq!(info.rx_bytes, 5000);
    assert_eq!(info.tx_bytes, 2000);
    assert_eq!(info.rx_packets, 10);
    assert_eq!(info.tx_packets, 7);
    assert_eq!(info.rx_errors, 0);
    assert_eq!(info.tx_errors, 3);
    assert_eq!(info.status, "up");
}

#[test]
fn unknown_state_with_address_counts_as_up() {
    let addr = make_ip_address("10.0.0.1".to_string(), 8, false, &IpValue::V4([10, 0, 0, 1]));
    let info = interface_info("rmnet0".to_string(), "unknown".to_string(), &files(), None, vec![addr]);
    assert_eq!(info.status, "up");
    let info = interface_info("rmnet0".to_string(), "unknown".to_string(), &files(), None, vec![]);
    assert_eq!(info.status, "unknown");
    let mut f = files();
    f.carrier = Some("1\n".to_string());
    let info = interface_info("rmnet0".to_string(), "unknown".to_string(), &f, None, vec![]);
    assert_eq!(info.status, "up");
    f.flags = Some("4098".to_string());
    let info = interface_info("rmnet0".to_string(), "unknown".to_string(), &f, None, vec![]);
    assert_eq!(info.status, "unknown");
}

#[test]
fn zero_mac_is_dropped() {
    let mut f = files();
    f.address = Some("00:00:00:00:00:00\n".to_string());
    let info = interface_info("lo".to_string(), "unknown".to_string(), &f, None, vec![]);
    assert_eq!(info.mac_address, None);
}

#[test]
fn counters_merge() {
    assert_eq!(merge_counter(5, Some(9)), 9);
    assert_eq!(merge_counter(5, Some(1)), 5);
    assert_eq!(merge_counter(5, None), 5);
}

#[test]
fn interfaces_sorted_by_name() {
    let mk = |n: &str| interface_info(n.to_string(), "up".to_string(), &files(), None, vec![]);
    let sorted = sort_interfaces(vec![mk("wlan0"), mk("eth0"), mk("usb0"), mk("br-lan")]);
    let names: Vec<&str> = sorted.iter().map(|i| i.name.as_str()).collect();
    assert_eq!(names, vec!["br-lan", "eth0", "usb0", "wlan0"]);
}

#[test]
fn active_interfaces() {
    assert!(is_active_interface("eth0", Some("up\n")));
    assert!(is_active_interface("rmnet0", Some("unknown")));
    assert!(!is_active_interface("lo", Some("unknown")));
    assert!(!is_active_interface("eth1", Some("down")));
    assert!(!is_active_interface("eth2", None));
}

#[test]
fn ascii_state_lowered() {
    assert_eq!(interface_status(Some(" DoRMant ")), "dormant");
    assert_eq!(interface_status(Some("unknown")), "unknown");
}
