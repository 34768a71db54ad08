use corevpn::client_backend::{
    active_after_events, file_stem, loaded_events, loading_event, outcome_events,
    parse_failure_event, wants_repaint, LogLevel as WorkerLevel, OvpnSummary, VpnEvent,
};
use corevpn::client_state::{validate_password, validate_username, AppState, LogLevel, VpnProfile};
use corevpn::client_types::{CardAction, ConnectionStats, VpnConnectionStatus};

const KB: u64 = 1024;
const MB: u64 = KB * 1024;
const GB: u64 = MB * 1024;

fn reference_bytes(bytes: u64) -> String {
    if bytes >= GB {
        format!("{:.2} GB", bytes as f64 / GB as f64)
    } else if bytes >= MB {
        format!("{:.2} MB", bytes as f64 / MB as f64)
    } else if bytes >= KB {
        format!("{:.1} KB", bytes as f64 / KB as f64)
    } else {
        format!("{} B", bytes)
    }
}

fn reference_speed(bps: u64) -> String {
    if bps >= MB {
        format!("{:.1} MB/s", bps as f64 / MB as f64)
    } else if bps >= KB {
        format!("{:.1} KB/s", bps as f64 / KB as f64)
    } else {
        format!("{} B/s", bps)
    }
}

fn sample_values() -> Vec<u64> {
    let mut v: Vec<u64> = (0..5000).collect();
    for base in [MB, GB, 1u64 << 40, 1u64 << 52, 1u64 << 53, 1u64 << 60] {
        for d in 0..200u64 {
            v.push(base.wrapping_add(d * 977));
            v.push(base.wrapping_sub(d * 131));
        }
    }
    let mut x: u64 = 0x9e37_79b9_7f4a_7c15;
    for _ in 0..5000 {
        x ^= x << 13;
        x ^= x >> 7;
        x ^= x << 17;
        v.push(x);
        v.push(x >> 20);
        v.push(x >> 40);
    }
    v.push(u64::MAX);
    v.push(u64::MAX - 1);
    v.push((1u64 << 53) + 1);
    v.push((1u64 << 54) + 2);
    v.push((1u64 << 54) + 6);
    v
}

#[test]
fn format_bytes_examples() {
    assert_eq!(ConnectionStats::format_bytes(0), "0 B");
    assert_eq!(ConnectionStats::format_bytes(1023), "1023 B");
    assert_eq!(ConnectionStats::format_bytes(1024), "1.0 KB");
    assert_eq!(ConnectionStats::format_bytes(1536), "1.5 KB");
    assert_eq!(ConnectionStats::format_bytes(5 * MB), "5.00 MB");
    assert_eq!(ConnectionStats::format_bytes(3 * GB / 2), "1.50 GB");
}

#[test]
fn format_bytes_matches_float_formatting() {
    for n in sample_values() {
        assert_eq!(ConnectionStats::format_bytes(n), reference_bytes(n), "bytes {}", n);
    }
}

#[test]
fn format_speed_matches_float_formatting() {
    assert_eq!(ConnectionStats::format_speed(512), "512 B/s");
    assert_eq!(ConnectionStats::format_speed(2048), "2.0 KB/s");
    assert_eq!(ConnectionStats::format_speed(MB + MB / 2), "1.5 MB/s");
    for n in sample_values() {
        assert_eq!(ConnectionStats::format_speed(n), reference_speed(n), "speed {}", n);
    }
}

#[test]
fn format_duration_examples() {
    assert_eq!(ConnectionStats::format_duration(0), "00:00");
    assert_eq!(ConnectionStats::format_duration(65), "01:05");
    assert_eq!(ConnectionStats::format_duration(3661), "01:01:01");
    assert_eq!(ConnectionStats::format_duration(360000), "100:00:00");
}

#[test]
fn status_texts() {
    assert_eq!(VpnConnectionStatus::Connecting.as_str(), "Connecting...");
    assert!(VpnConnectionStatus::Connected.is_connected());
    assert!(VpnConnectionStatus::Reconnecting.is_transitioning());
    assert!(!VpnConnectionStatus::Error.is_transitioning());
}

#[test]
fn log_keeps_at_most_five_hundred_entries() {
    let mut state = AppState::new();
    assert_eq!(state.logs.len(), 1);
    for i in 0..600 {
        state.add_log(LogLevel::Debug, &format!("entry {}", i));
        assert!(state.logs.len() <= 500);
    }
    assert_eq!(state.logs.last().unwrap().message, "entry 599");
    assert_eq!(state.logs.len(), 401);
}

#[test]
fn credential_validation() {
    assert_eq!(validate_username(""), Some("Username cannot be empty"));
    assert_eq!(validate_username(&"a".repeat(257)), Some("Username is too long (max 256 characters)"));
    assert_eq!(validate_username("bad\u{7}name"), Some("Username contains invalid characters"));
    assert_eq!(validate_username("alice"), None);
    assert_eq!(validate_password(""), Some("Password cannot be empty"));
    assert_eq!(validate_password(&"p".repeat(1025)), Some("Password is too long (max 1024 characters)"));
    assert_eq!(validate_password("hunter2"), None);
}

#[test]
fn file_stems() {
    assert_eq!(file_stem("/home/u/work.ovpn"), Some("work".to_string()));
    assert_eq!(file_stem("archive.tar.gz"), Some("archive.tar".to_string()));
    assert_eq!(file_stem(".bashrc"), Some(".bashrc".to_string()));
    assert_eq!(file_stem("dir/noext"), Some("noext".to_string()));
    assert_eq!(file_stem("dir/sub/"), Some("sub".to_string()));
    assert_eq!(file_stem("a/."), Some("a".to_string()));
    assert_eq!(file_stem("a/.."), None);
    assert_eq!(file_stem("/"), None);
    assert_eq!(file_stem(""), None);
    for p in ["/x/y.z", "y.", "..x", "a//b.c", "./q.ovpn", "/etc/", "a.b.c/d"] {
        let expected = std::path::Path::new(p).file_stem().and_then(|s| s.to_str()).map(|s| s.to_string());
        assert_eq!(file_stem(p), expected, "path {}", p);
    }
}

fn summary(remote: &str) -> OvpnSummary {
    OvpnSummary {
        remote: remote.to_string(),
        protocol: "udp".to_string(),
        cipher: "AES-256-GCM".to_string(),
        has_tls_auth: true,
        dev: "tun".to_string(),
    }
}

#[test]
fn importing_profiles() {
    let mut state = AppState::new();
    state.import_ovpn("/tmp/office.ovpn".to_string(), Ok(summary("vpn.example.com:1194")));
    assert_eq!(state.profiles.len(), 1);
    assert_eq!(state.profiles[0].name, "office");
    assert_eq!(state.profiles[0].config_path, Some("/tmp/office.ovpn".to_string()));
    assert!(state.profiles[0].has_tls_auth);
    assert_eq!(state.active_profile, Some("office".to_string()));
    assert_eq!(state.logs.last().unwrap().message, "Imported profile 'office' (vpn.example.com:1194)");

    state.import_ovpn("/tmp/home.ovpn".to_string(), Ok(summary("home.example.com:443")));
    assert_eq!(state.profiles.len(), 2);
    assert_eq!(state.active_profile, Some("office".to_string()));

    state.import_ovpn("/tmp/bad.ovpn".to_string(), Err("missing remote".to_string()));
    assert_eq!(state.profiles.len(), 2);
    assert_eq!(state.connection.status, VpnConnectionStatus::Error);
    assert_eq!(state.connection.last_error, Some("Failed to import: missing remote".to_string()));
}

#[test]
fn starting_a_connection() {
    let mut state = AppState::new();
    assert_eq!(state.start_connection(), None);
    assert_eq!(
        state.connection.last_error,
        Some("No active profile selected. Import an .ovpn file first.".to_string())
    );
    state.import_ovpn("/tmp/office.ovpn".to_string(), Ok(summary("vpn.example.com:1194")));
    assert_eq!(state.start_connection(), Some("/tmp/office.ovpn".to_string()));
    assert_eq!(state.connection.status, VpnConnectionStatus::Connecting);
    assert_eq!(state.connection.last_error, None);
    assert_eq!(state.active_profile_ref().map(|p: &VpnProfile| p.name.clone()), Some("office".to_string()));
}

#[test]
fn backend_events_drive_the_state() {
    let mut state = AppState::new();
    state.import_ovpn("/tmp/office.ovpn".to_string(), Ok(summary("vpn.example.com:1194")));
    state.process_backend_event(VpnEvent::Connecting);
    assert_eq!(state.connection.status, VpnConnectionStatus::Connecting);
    state.process_backend_event(VpnEvent::Authenticating { url: Some("https://idp/x".to_string()) });
    assert_eq!(state.connection.status, VpnConnectionStatus::Authenticating);
    assert_eq!(state.logs.last().unwrap().message, "Open in browser to authenticate: https://idp/x");
    state.process_backend_event(VpnEvent::Connected { vpn_ip: Some("10.8.0.2".to_string()), server: "srv".to_string() });
    assert_eq!(state.connection.status, VpnConnectionStatus::Connected);
    assert!(state.connection.connected_at.is_some());
    let n = state.logs.len();
    assert_eq!(state.logs[n - 3].message, "Connected to vpn.example.com:1194");
    assert_eq!(state.logs[n - 2].message, "VPN IP: 10.8.0.2");
    assert_eq!(state.logs[n - 1].message, "Connected to srv");
    state.process_backend_event(VpnEvent::Log { level: WorkerLevel::Warn, message: "careful".to_string() });
    assert_eq!(state.logs.last().unwrap().level, LogLevel::Warn);
    state.process_backend_event(VpnEvent::Disconnected);
    assert_eq!(state.connection.status, VpnConnectionStatus::Disconnected);
    assert!(state.connection.connected_at.is_none());
    let before = state.logs.len();
    state.process_backend_event(VpnEvent::Disconnected);
    assert_eq!(state.logs.len(), before);
    state.process_backend_event(VpnEvent::Error("boom".to_string()));
    assert_eq!(state.connection.status, VpnConnectionStatus::Error);
    assert_eq!(state.connection.last_error, Some("boom".to_string()));
}

#[test]
fn worker_events() {
    match loading_event("/a.ovpn") {
        VpnEvent::Log { level, message } => {
            assert_eq!(level, WorkerLevel::Info);
            assert_eq!(message, "Loading config: /a.ovpn");
        }
        _ => panic!("a log event is expected"),
    }
    assert!(matches!(parse_failure_event("bad"), VpnEvent::Error(m) if m == "Failed to parse .ovpn: bad"));
    let loaded = loaded_events(&summary("r:1"));
    assert!(matches!(&loaded[0], VpnEvent::Log { message, .. } if message == "Loaded config: remote=r:1, cipher=AES-256-GCM, proto=udp"));
    assert!(matches!(loaded[1], VpnEvent::Connecting));

    let ok = outcome_events("srv".to_string(), Ok(()));
    assert_eq!(ok.len(), 2);
    assert!(matches!(&ok[0], VpnEvent::Connected { vpn_ip: None, server } if server == "srv"));
    assert!(matches!(ok[1], VpnEvent::Disconnected));

    let pending = outcome_events("srv".to_string(), Err("AUTH_PENDING,timeout".to_string()));
    assert_eq!(pending.len(), 3);
    assert!(matches!(pending[0], VpnEvent::Authenticating { url: None }));
    let failed = outcome_events("srv".to_string(), Err("TLS handshake failed".to_string()));
    assert_eq!(failed.len(), 2);
    assert!(matches!(&failed[0], VpnEvent::Error(m) if m == "TLS handshake failed"));
}

#[test]
fn worker_activity_and_repaint() {
    let events = vec![VpnEvent::Connecting, VpnEvent::Handshaking];
    assert!(active_after_events(true, &events));
    let events = vec![VpnEvent::Connecting, VpnEvent::Error("x".to_string())];
    assert!(!active_after_events(true, &events));
    assert!(!active_after_events(false, &Vec::new()));
    assert!(wants_repaint(VpnConnectionStatus::Connecting, false));
    assert!(wants_repaint(VpnConnectionStatus::Connected, true));
    assert!(!wants_repaint(VpnConnectionStatus::Connected, false));
}

#[test]
fn profile_list_actions() {
    let mut state = AppState::new();
    state.import_ovpn("/tmp/office.ovpn".to_string(), Ok(summary("vpn.example.com:1194")));
    state.import_ovpn("/tmp/home.ovpn".to_string(), Ok(summary("home.example.com:443")));
    state.import_ovpn("/tmp/lab.ovpn".to_string(), Ok(summary("lab.example.com:1194")));
    assert_eq!(state.active_profile, Some("office".to_string()));
    let logs_before = state.logs.len();

    state.set_active_profile("home".to_string());
    assert_eq!(state.active_profile, Some("home".to_string()));
    assert_eq!(state.profiles.len(), 3);

    state.delete_profile("office");
    let names: Vec<&str> = state.profiles.iter().map(|p| p.name.as_str()).collect();
    assert_eq!(names, vec!["home", "lab"]);
    assert_eq!(state.active_profile, Some("home".to_string()));
    assert_eq!(state.logs.len(), logs_before);

    state.delete_profile("missing");
    assert_eq!(state.profiles.len(), 2);
}

#[test]
fn connection_card_labels_and_buttons() {
    let labels = [
        (VpnConnectionStatus::Disconnected, "Disconnected"),
        (VpnConnectionStatus::Connecting, "Connecting..."),
        (VpnConnectionStatus::Authenticating, "Connecting..."),
        (VpnConnectionStatus::Connected, "Protected"),
        (VpnConnectionStatus::Disconnecting, "Disconnecting..."),
        (VpnConnectionStatus::Reconnecting, "Disconnecting..."),
        (VpnConnectionStatus::Error, "Connection Error"),
    ];
    for (status, label) in labels {
        assert_eq!(status.card_label(), label);
    }
    assert_eq!(VpnConnectionStatus::Disconnected.card_action(true), CardAction::Connect { enabled: true });
    assert_eq!(VpnConnectionStatus::Error.card_action(false), CardAction::Connect { enabled: false });
    assert_eq!(VpnConnectionStatus::Connected.card_action(false), CardAction::Disconnect);
    assert_eq!(VpnConnectionStatus::Connecting.card_action(true), CardAction::Busy);
    assert_eq!(VpnConnectionStatus::Reconnecting.card_action(true), CardAction::Busy);
}

#[test]
fn logging_changes_nothing_but_the_log() {
    let mut state = AppState::new();
    state.import_ovpn("/tmp/office.ovpn".to_string(), Ok(summary("vpn.example.com:1194")));
    state.username = "alice".to_string();
    state.remember_credentials = true;
    state.auto_connect = true;
    let view = state.current_view;
    state.add_log(LogLevel::Warn, "careful");
    assert_eq!(state.username, "alice");
    assert!(state.remember_credentials && state.auto_connect);
    assert_eq!(state.current_view, view);
    assert_eq!(state.active_profile, Some("office".to_string()));
    assert_eq!(state.logs.last().unwrap().message, "careful");
}
