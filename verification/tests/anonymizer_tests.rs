use corevpn::anonymizer::{bucket_of, AnonymizationConfig, Anonymizer};
use corevpn::clock::Timestamp;
use corevpn::conn_events::{IpAddress, SocketAddress, TransferStats};

fn v4(a: u8, b: u8, c: u8, d: u8) -> IpAddress {
    IpAddress::V4(u32::from_be_bytes([a, b, c, d]))
}

#[test]
fn test_ip_truncation() {
    let config = AnonymizationConfig { truncate_client_ips: true, ..Default::default() };

    let anonymizer = Anonymizer::new(config);

    let addr = SocketAddress { ip: v4(192, 168, 1, 100), port: 12345 };
    let result = anonymizer.anonymize_socket_addr(addr);

    assert_eq!(result.ip, v4(192, 168, 1, 0));
    assert_eq!(result.port, 0);
}

#[test]
fn test_ip_hashing() {
    let config = AnonymizationConfig { hash_client_ips: true, ..Default::default() };

    let anonymizer = Anonymizer::new(config);

    let addr1 = SocketAddress { ip: v4(192, 168, 1, 100), port: 12345 };
    let addr2 = SocketAddress { ip: v4(192, 168, 1, 101), port: 12345 };

    let result1 = anonymizer.anonymize_socket_addr(addr1);
    let result2 = anonymizer.anonymize_socket_addr(addr2);

    assert_ne!(result1.ip, result2.ip);

    let result1_again = anonymizer.anonymize_socket_addr(addr1);
    assert_eq!(result1.ip, result1_again.ip);
}

#[test]
fn test_username_hashing() {
    let config = AnonymizationConfig { hash_usernames: true, ..Default::default() };

    let anonymizer = Anonymizer::new(config);

    let username = Some("john.doe@example.com".to_string());
    let result = anonymizer.anonymize_username(username);

    assert!(result.is_some());
    assert!(result.unwrap().starts_with("user_"));
}

#[test]
fn test_transfer_stats_aggregation() {
    let config = AnonymizationConfig { aggregate_transfer_stats: true, ..Default::default() };

    let anonymizer = Anonymizer::new(config);

    let stats = Some(TransferStats { bytes_rx: 5_000_000, bytes_tx: 100, packets_rx: 1000, packets_tx: 50 });

    let result = anonymizer.anonymize_stats(stats).unwrap();

    assert_eq!(result.bytes_rx, 5 * 1024 * 1024);
    assert_eq!(result.bytes_tx, 512);
    assert_eq!(result.packets_rx, 0);
    assert_eq!(result.packets_tx, 0);
}

#[test]
fn username_pseudonym_is_sixteen_hex_digits_and_stable() {
    let anonymizer = Anonymizer::new(AnonymizationConfig { hash_usernames: true, ..Default::default() });
    let a = anonymizer.anonymize_username(Some("alice".to_string())).unwrap();
    let b = anonymizer.anonymize_username(Some("alice".to_string())).unwrap();
    let c = anonymizer.anonymize_username(Some("bob".to_string())).unwrap();
    assert_eq!(a.len(), 21);
    assert!(a[5..].chars().all(|ch| ch.is_ascii_hexdigit() && !ch.is_ascii_uppercase()));
    assert_eq!(a, b);
    assert_ne!(a, c);
    assert_ne!(a, "alice");
}

#[test]
fn hashed_ipv4_uses_the_reserved_zero_prefix() {
    let anonymizer = Anonymizer::new(AnonymizationConfig { hash_client_ips: true, ..Default::default() });
    let r = anonymizer.anonymize_socket_addr(SocketAddress { ip: v4(8, 8, 8, 8), port: 53 });
    match r.ip {
        IpAddress::V4(x) => assert_eq!(x >> 24, 0),
        IpAddress::V6(_) => panic!("an IPv4 address hashes to IPv4"),
    }
}

#[test]
fn nothing_changes_without_configuration() {
    let anonymizer = Anonymizer::new(AnonymizationConfig::default());
    let addr = SocketAddress { ip: v4(1, 2, 3, 4), port: 99 };
    let r = anonymizer.anonymize_socket_addr(addr);
    assert_eq!(r.ip, addr.ip);
    assert_eq!(r.port, 0);
    assert_eq!(anonymizer.anonymize_username(Some("x".to_string())), Some("x".to_string()));
}

#[test]
fn bucket_boundaries() {
    assert_eq!(bucket_of(0), 512);
    assert_eq!(bucket_of(1023), 512);
    assert_eq!(bucket_of(1024), 5120);
    assert_eq!(bucket_of(10240), 51200);
    assert_eq!(bucket_of(1_048_576), 5_242_880);
    assert_eq!(bucket_of(u64::MAX), 1_073_741_824);
}

#[test]
fn truncating_twice_changes_nothing_more() {
    let anonymizer = Anonymizer::new(AnonymizationConfig { truncate_client_ips: true, ..Default::default() });
    let once = anonymizer.truncate_ip(v4(172, 16, 5, 77));
    assert_eq!(once, v4(172, 16, 5, 0));
    assert_eq!(anonymizer.truncate_ip(once), once);
    let v6 = IpAddress::V6(0x2001_0db8_1234_5678_9abc_def0_1122_3344);
    let t6 = anonymizer.truncate_ip(v6);
    assert_eq!(t6, IpAddress::V6(0x2001_0db8_1234_0000_0000_0000_0000_0000));
    assert_eq!(anonymizer.truncate_ip(t6), t6);
}

#[test]
fn rounding_timestamps_to_the_hour() {
    let anonymizer = Anonymizer::new(AnonymizationConfig { round_timestamps: true, ..Default::default() });
    let t = Timestamp { secs: 1_700_003_725, nanos: 123 };
    let once = anonymizer.anonymize_timestamp(t);
    assert_eq!(once, Timestamp { secs: 1_700_002_800, nanos: 0 });
    assert_eq!(anonymizer.anonymize_timestamp(once), once);
    // 2024-01-01 12:45:30 UTC rounds to 13:00:00.
    let t = Timestamp { secs: 1_704_113_130, nanos: 0 };
    assert_eq!(anonymizer.anonymize_timestamp(t), Timestamp { secs: 1_704_114_000, nanos: 0 });
    // Exactly half past rounds up; a moment before half past rounds down.
    let half = Timestamp { secs: 1_704_112_200, nanos: 0 };
    assert_eq!(anonymizer.anonymize_timestamp(half), Timestamp { secs: 1_704_114_000, nanos: 0 });
    let before = Timestamp { secs: 1_704_112_199, nanos: 999_999_999 };
    assert_eq!(anonymizer.anonymize_timestamp(before), Timestamp { secs: 1_704_110_400, nanos: 0 });
    // Before the epoch the same rule holds.
    let early = Timestamp { secs: -1_800, nanos: 0 };
    assert_eq!(anonymizer.anonymize_timestamp(early), Timestamp { secs: 0, nanos: 0 });
}

#[test]
fn buckets_keep_the_order_of_sizes() {
    let sizes = [0u64, 1, 1023, 1024, 5000, 10_240, 99_999, 1_000_000, 50_000_000, 2_000_000_000, u64::MAX];
    for w in sizes.windows(2) {
        assert!(bucket_of(w[0]) <= bucket_of(w[1]));
    }
}

#[test]
fn replacement_values_from_a_hash() {
    let tag: Vec<u8> = (1u8..=32).collect();
    assert_eq!(corevpn::anonymizer::address_from_tag(v4(9, 9, 9, 9), &tag), v4(0, 2, 3, 4));
    assert_eq!(
        corevpn::anonymizer::address_from_tag(IpAddress::V6(1), &tag),
        IpAddress::V6(0x2001_0db8_0506_0708_0102_0304_0000_0000)
    );
    assert_eq!(corevpn::anonymizer::pseudonym_from_tag(&tag), "user_0807060504030201");
}
