use simadmin::net::{
    address_entries, after_ifconfig_tool, after_interface_list, after_ip_tool, get_ip_scope,
    ifconfig_candidates_from, ip_addr_candidates, judge_tool_run, make_ip_address,
    mask_prefix_len, parse_address_with_prefix, AddressLookup, IpValue, PrefixSource, ToolRun,
};

#[test]
fn ipv4_scopes() {
    assert_eq!(get_ip_scope(&IpValue::V4([127, 0, 0, 1])), "loopback");
    assert_eq!(get_ip_scope(&IpValue::V4([10, 1, 2, 3])), "private");
    assert_eq!(get_ip_scope(&IpValue::V4([172, 16, 0, 1])), "private");
    assert_eq!(get_ip_scope(&IpValue::V4([172, 32, 0, 1])), "public");
    assert_eq!(get_ip_scope(&IpValue::V4([192, 168, 8, 1])), "private");
    assert_eq!(get_ip_scope(&IpValue::V4([169, 254, 3, 4])), "link-local");
    assert_eq!(get_ip_scope(&IpValue::V4([8, 8, 8, 8])), "public");
}

#[test]
fn ipv6_scopes() {
    assert_eq!(get_ip_scope(&IpValue::V6([0, 0, 0, 0, 0, 0, 0, 1])), "loopback");
    assert_eq!(get_ip_scope(&IpValue::V6([0xfe80, 0, 0, 0, 1, 2, 3, 4])), "link-local");
    assert_eq!(get_ip_scope(&IpValue::V6([0xfd00, 0, 0, 0, 0, 0, 0, 1])), "private");
    assert_eq!(get_ip_scope(&IpValue::V6([0xfec0, 0, 0, 0, 0, 0, 0, 1])), "link-local");
    assert_eq!(get_ip_scope(&IpValue::V6([0x2001, 0xdb8, 0, 0, 0, 0, 0, 1])), "public");
}

#[test]
fn prefix_lengths() {
    assert_eq!(mask_prefix_len(&[255, 255, 255, 0]), 24);
    assert_eq!(mask_prefix_len(&[255, 255, 240, 0]), 20);
    assert_eq!(mask_prefix_len(&[0xff; 16]), 128);
    assert_eq!(mask_prefix_len(&[]), 0);
    let a: Vec<char> = "10.0.0.2/24".chars().collect();
    let (addr, n) = parse_address_with_prefix(&a).unwrap();
    assert_eq!(addr, "10.0.0.2".chars().collect::<Vec<char>>());
    assert_eq!(n, 24);
    let b: Vec<char> = "10.0.0.2/300".chars().collect();
    assert!(parse_address_with_prefix(&b).is_none());
}

#[test]
fn ip_tool_lines() {
    let out = "2: eth0    inet 192.168.1.5/24 brd 192.168.1.255 scope global eth0\\       valid_lft forever\n2: eth0    inet6 fe80::1/64 scope link \\       valid_lft forever\n3: bad inet\n";
    let c = ip_addr_candidates(out);
    assert_eq!(c.len(), 2);
    assert_eq!(c[0].address, "192.168.1.5");
    assert!(matches!(c[0].prefix, PrefixSource::Length(24)));
    assert!(!c[0].ipv6);
    assert_eq!(c[1].address, "fe80::1");
    assert!(c[1].ipv6);
}

#[test]
fn ifconfig_lines_both_styles() {
    let out = "eth0: flags=4163<UP>  mtu 1500\n        inet 192.168.1.5  netmask 255.255.255.0  broadcast 192.168.1.255\n        inet6 fe80::1  prefixlen 64  scopeid 0x20<link>\neth1      Link encap:Ethernet\n          inet addr:10.0.0.7  Bcast:10.0.0.255  Mask:255.0.0.0\n          inet6 addr: fe80::2/64 Scope:Link\n";
    let c = ifconfig_candidates_from(out);
    assert_eq!(c.len(), 4);
    assert_eq!(c[0].address, "192.168.1.5");
    assert!(matches!(&c[0].prefix, PrefixSource::Netmask(m) if m == "255.255.255.0"));
    assert_eq!(c[1].address, "fe80::1");
    assert!(matches!(c[1].prefix, PrefixSource::Length(64)));
    assert_eq!(c[2].address, "10.0.0.7");
    assert!(matches!(&c[2].prefix, PrefixSource::Netmask(m) if m == "255.0.0.0"));
    assert_eq!(c[3].address, "fe80::2");
    assert!(matches!(c[3].prefix, PrefixSource::Length(64)));
}

#[test]
fn entries_keep_parsed_addresses() {
    let c = ifconfig_candidates_from("inet 10.0.0.7 netmask 255.0.0.0\ninet bogus\ninet 1.2.3.4\n");
    let ips = vec![Some(IpValue::V4([10, 0, 0, 7])), None, Some(IpValue::V4([1, 2, 3, 4]))];
    let masks = vec![Some([255, 0, 0, 0]), None, None];
    let e = address_entries(&c, &ips, &masks);
    assert_eq!(e.len(), 2);
    assert_eq!(e[0].address, "10.0.0.7");
    assert_eq!(e[0].prefix_len, 8);
    assert_eq!(e[0].ip_type, "ipv4");
    assert_eq!(e[0].scope, "private");
    assert_eq!(e[1].prefix_len, 0);
    assert_eq!(e[1].scope, "public");
}

#[test]
fn lookup_order() {
    let one = vec![make_ip_address("10.0.0.1".to_string(), 8, false, &IpValue::V4([10, 0, 0, 1]))];
    assert!(matches!(after_interface_list(Ok(one.clone()), true), AddressLookup::Found(Ok(v)) if v.len() == 1));
    assert!(matches!(after_interface_list(Ok(vec![]), false), AddressLookup::Found(Ok(v)) if v.is_empty()));
    assert!(matches!(after_interface_list(Ok(vec![]), true), AddressLookup::TryNext(e) if e.is_empty()));
    let errors = match after_interface_list(Err("no getifaddrs".to_string()), true) {
        AddressLookup::TryNext(e) => e,
        _ => panic!("expected to try the ip tool"),
    };
    assert_eq!(errors, vec!["no getifaddrs".to_string()]);
    let errors = match after_ip_tool(errors, Err("ip failed".to_string())) {
        AddressLookup::TryNext(e) => e,
        _ => panic!("expected to try ifconfig"),
    };
    assert_eq!(
        after_ifconfig_tool(errors, Err("ifconfig failed".to_string())).unwrap_err(),
        "no getifaddrs; ip failed; ifconfig failed"
    );
    assert!(matches!(after_ip_tool(vec![], Ok(one)), AddressLookup::Found(Ok(v)) if v.len() == 1));
    assert!(after_ifconfig_tool(vec!["x".to_string()], Ok(vec![])).unwrap().is_empty());
}

#[test]
fn tool_runs() {
    assert!(matches!(judge_tool_run("ip", None), ToolRun::TryNext));
    assert!(matches!(judge_tool_run("ip", Some((true, ""))), ToolRun::UseOutput));
    assert!(matches!(judge_tool_run("ip", Some((false, "  \n"))), ToolRun::TryNext));
    assert!(matches!(judge_tool_run("/sbin/ip", Some((false, " Device \"x\" does not exist.\n"))), ToolRun::Failed(m) if m == "/sbin/ip failed: Device \"x\" does not exist."));
}

#[test]
fn printed_prefix_reads_back() {
    for p in [0u8, 7, 64, 128, 255] {
        let text: Vec<char> = format!("{}/{}", "fd00::1", p).chars().collect();
        let (addr, n) = parse_address_with_prefix(&text).unwrap();
        assert_eq!(addr, "fd00::1".chars().collect::<Vec<char>>());
        assert_eq!(n, p);
    }
    let bare: Vec<char> = "fe80::1".chars().collect();
    assert!(parse_address_with_prefix(&bare).is_none());
}
