use corevpn::system::{default_interface, nofile_soft_limit, nproc_soft_limit, split_fields, target_id};

#[test]
fn resource_limits_are_clamped() {
    assert_eq!(nofile_soft_limit(10), 1024);
    assert_eq!(nofile_soft_limit(4096), 4096);
    assert_eq!(nofile_soft_limit(1 << 20), 65536);
    assert_eq!(nofile_soft_limit(u64::MAX), 65536);
    assert_eq!(nproc_soft_limit(100), 256);
    assert_eq!(nproc_soft_limit(1000), 1000);
    assert_eq!(nproc_soft_limit(1 << 30), 4096);
}

#[test]
fn privilege_targets() {
    assert_eq!(target_id(Some("1001"), Some(65534)), Some(1001));
    assert_eq!(target_id(Some("nobody"), Some(65534)), Some(65534));
    assert_eq!(target_id(None, Some(65534)), Some(65534));
    assert_eq!(target_id(None, None), None);
}

#[test]
fn fields_match_split_whitespace() {
    let samples = [
        "",
        "   ",
        "eth0\t00000000\t0101A8C0",
        "  a  b\u{a0}c\u{2003}d\u{3000} e\r\n",
        "x\u{85}y\u{1680}z\u{202f}w\u{205f}v\u{2028}u\u{2029}t",
        "single",
        "\u{b}\u{c}lead and trail\t",
    ];
    for s in samples {
        let expected: Vec<String> = s.split_whitespace().map(|f| f.to_string()).collect();
        assert_eq!(split_fields(s), expected, "{:?}", s);
    }
}

#[test]
fn default_route_interface() {
    let table = "Iface\tDestination\tGateway \tFlags\tRefCnt\tUse\tMetric\tMask\n\
                 docker0\t000011AC\t00000000\t0001\t0\t0\t0\t0000FFFF\n\
                 wlan0\t00000000\t0101A8C0\t0003\t0\t0\t600\t00000000\n\
                 eth1\t00000000\t0102A8C0\t0003\t0\t0\t100\t00000000\n";
    assert_eq!(default_interface(table), Some("wlan0".to_string()));
    assert_eq!(default_interface("Iface\tDestination\n"), None);
    assert_eq!(default_interface(""), None);
    assert_eq!(default_interface("Iface Destination\nlo 0000007F\n"), None);
}
