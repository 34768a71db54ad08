use corevpn::clock::Timestamp;
use corevpn::conn_events::{
    AuthMethod, AuthResult, ConnectionEvent, ConnectionEventBuilder, ConnectionId, DisconnectReason, Duration,
    IpAddress, SocketAddress, TransferStats,
};
use corevpn::conn_log::{
    apply_ghost_mode, combine_stats, create_logger, CompositeLogger, ConnectionLogMode, FileConnectionLogger, FileLogError, NullConnectionLogger,
    LoggerPlan, LoggerStats, LoggingSettings, RetentionSettings, RotationStep,
};
use corevpn::conn_rows::{event_of_row, parse_auth_method, parse_disconnect_reason, row_of};
use corevpn::negotiation::{auth_pending_message, auth_url, cidr_to_netmask, negotiate_cipher, subnet_mask};
use corevpn::oauth::{
    decide_oauth_complete, google_auth_url, oauth_complete_answer, oauth_complete_start, redirect_uri, OAuthCompleteStep,
    OAuthError, OAuthExchange, UserinfoOutcome,
};
use corevpn::sessions::PendingOAuths;
use corevpn::setup_plan::{
    doctor_checks, doctor_issues, doctor_verdict, google_oauth, numbered_issues, parse_port,
    plan_setup, summary_lines, CheckStatus, DoctorFindings,
};

fn ts(secs: i64) -> Timestamp {
    Timestamp { secs, nanos: 0 }
}

fn stats(events: u64, pending: u64, storage: Option<u64>, oldest: Option<i64>, newest: Option<i64>) -> LoggerStats {
    LoggerStats {
        events_logged: events,
        pending_events: pending,
        storage_bytes: storage,
        oldest_event: oldest.map(ts),
        newest_event: newest.map(ts),
    }
}

#[test]
fn combining_logger_stats_is_symmetric_with_an_identity() {
    let a = stats(10, 2, Some(100), Some(50), Some(90));
    let b = stats(7, 3, None, Some(40), Some(95));
    let ab = combine_stats(&a, &b);
    let ba = combine_stats(&b, &a);
    assert_eq!(ab, ba);
    assert_eq!(ab, stats(10, 5, Some(100), Some(40), Some(95)));
    let empty = LoggerStats::default();
    assert_eq!(combine_stats(&a, &empty), a);
}

fn retention() -> RetentionSettings {
    RetentionSettings { days: 7, max_file_size_mb: 10, max_files: 3, secure_delete: true, auto_purge: true }
}

#[test]
fn logger_choice_follows_the_mode() {
    let mut s = LoggingSettings {
        connection_mode: ConnectionLogMode::Disabled,
        connection_log_file: None,
        connection_log_db: None,
        retention: retention(),
    };
    assert!(matches!(create_logger(&s), LoggerPlan::Null));
    s.connection_mode = ConnectionLogMode::Memory;
    assert!(matches!(create_logger(&s), LoggerPlan::Memory { capacity: 10080 }));
    s.connection_mode = ConnectionLogMode::Both;
    match create_logger(&s) {
        LoggerPlan::Both(f, d) => {
            assert_eq!(f.path, "/var/log/corevpn/connections.log");
            assert_eq!(f.max_size, 10 * 1024 * 1024);
            assert_eq!(f.max_files, 3);
            assert_eq!(d.path, "/var/lib/corevpn/connections.db");
            assert_eq!(d.retention_days, 7);
        }
        _ => panic!("both loggers are expected"),
    }
    s.connection_mode = ConnectionLogMode::File;
    s.connection_log_file = Some("/tmp/c.log".to_string());
    assert!(matches!(create_logger(&s), LoggerPlan::File(f) if f.path == "/tmp/c.log"));
}

#[test]
fn file_logger_rotation_plan() {
    let mut logger = FileConnectionLogger::new("/var/log/c.log".to_string(), 10, 3, true);
    assert_eq!(logger.check_writable(), Err(FileLogError::NotOpen));
    logger.opened();
    assert_eq!(logger.check_writable(), Ok(()));
    assert!(!logger.needs_rotation(1024));
    assert!(logger.needs_rotation(1024 * 1024));
    let steps = logger.rotate();
    assert_eq!(steps.len(), 4);
    match &steps[0] {
        RotationStep::Delete { path, secure } => {
            assert_eq!(path, "/var/log/c.log.3");
            assert!(*secure);
        }
        _ => panic!("the oldest backup is deleted first"),
    }
    let renames: Vec<(String, String, bool)> = steps[1..]
        .iter()
        .map(|s| match s {
            RotationStep::Rename { from, to, secure_delete_target } => (from.clone(), to.clone(), *secure_delete_target),
            _ => panic!("renames follow the deletion"),
        })
        .collect();
    assert_eq!(
        renames,
        vec![
            ("/var/log/c.log.2".to_string(), "/var/log/c.log.3".to_string(), true),
            ("/var/log/c.log.1".to_string(), "/var/log/c.log.2".to_string(), true),
            ("/var/log/c.log".to_string(), "/var/log/c.log.1".to_string(), true),
        ]
    );
    // With a single backup kept, the live file still moves to `.1`.
    let mut single = FileConnectionLogger::new("/var/log/c.log".to_string(), 10, 1, false);
    let steps = single.rotate();
    assert_eq!(steps.len(), 2);
    match (&steps[0], &steps[1]) {
        (RotationStep::Delete { path, secure }, RotationStep::Rename { from, to, .. }) => {
            assert_eq!(path, "/var/log/c.log.1");
            assert!(!*secure);
            assert_eq!(from, "/var/log/c.log");
            assert_eq!(to, "/var/log/c.log.1");
        }
        _ => panic!("delete `.1`, then move the live file there"),
    }
    assert_eq!(logger.check_writable(), Err(FileLogError::NotOpen));
}

fn addr(last: u8, port: u16) -> SocketAddress {
    SocketAddress { ip: IpAddress::V4(u32::from_be_bytes([10, 0, 0, last])), port }
}

#[test]
fn stored_events_read_back_unchanged() {
    let builder = ConnectionEventBuilder::new();
    let id = builder.connection_id();
    let event = ConnectionEvent::Disconnected {
        connection_id: id,
        timestamp: ts(1_700_000_000),
        client_addr: addr(5, 5000),
        username: Some("alice".to_string()),
        reason: DisconnectReason::IdleTimeout,
        duration: Duration { secs: 3600, nanos: 0 },
        stats: Some(TransferStats { bytes_rx: 10, bytes_tx: 20, packets_rx: 1, packets_tx: 2 }),
    };
    let row = row_of(&event);
    assert_eq!(row.event_type, "disconnected");
    assert_eq!(row.disconnect_reason, Some("IdleTimeout".to_string()));
    match event_of_row(&row).unwrap() {
        ConnectionEvent::Disconnected { connection_id, username, reason, duration, stats, .. } => {
            assert_eq!(connection_id, id);
            assert_eq!(username, Some("alice".to_string()));
            assert_eq!(reason, DisconnectReason::IdleTimeout);
            assert_eq!(duration.secs, 3600);
            assert_eq!(stats.unwrap().bytes_tx, 20);
        }
        _ => panic!("a disconnection is read back"),
    }

    let auth = ConnectionEvent::Authentication {
        connection_id: id,
        timestamp: ts(5),
        client_addr: addr(6, 6000),
        username: None,
        auth_method: AuthMethod::OAuth2,
        result: AuthResult::InvalidCredentials,
        details: Some("bad".to_string()),
    };
    match event_of_row(&row_of(&auth)).unwrap() {
        ConnectionEvent::Authentication { auth_method, result, details, .. } => {
            assert_eq!(auth_method, AuthMethod::OAuth2);
            assert_eq!(result, AuthResult::InvalidCredentials);
            assert_eq!(details, Some("bad".to_string()));
        }
        _ => panic!("an authentication is read back"),
    }
}

#[test]
fn stored_rows_hold_identifier_and_time_as_text() {
    let id = ConnectionId(0x0123_4567_89ab_cdef_0011_2233_4455_6677);
    let event = ConnectionEvent::ConnectionAttempt {
        connection_id: id,
        timestamp: Timestamp { secs: 1_704_113_130, nanos: 250_000_000 },
        client_addr: addr(7, 7000),
        protocol_version: Some("2".to_string()),
    };
    let row = row_of(&event);
    assert_eq!(row.connection_id, "01234567-89ab-cdef-0011-223344556677");
    assert_eq!(row.timestamp, "2024-01-01T12:45:30.250+00:00");
    match event_of_row(&row).unwrap() {
        ConnectionEvent::ConnectionAttempt { connection_id, timestamp, client_addr, protocol_version } => {
            assert_eq!(connection_id, id);
            assert_eq!(timestamp, Timestamp { secs: 1_704_113_130, nanos: 250_000_000 });
            assert_eq!(client_addr, addr(7, 7000));
            assert_eq!(protocol_version, Some("2".to_string()));
        }
        _ => panic!("an attempt is read back"),
    }
    // Malformed identifier or time text: the row is not read back.
    let mut bad = row.clone();
    bad.connection_id = "not-a-uuid".to_string();
    assert!(event_of_row(&bad).is_none());
    let mut bad = row.clone();
    bad.timestamp = "yesterday".to_string();
    assert!(event_of_row(&bad).is_none());
    // A time in another offset is read as the same instant.
    let mut shifted = row.clone();
    shifted.timestamp = "2024-01-01T14:45:30.25+02:00".to_string();
    match event_of_row(&shifted).unwrap() {
        ConnectionEvent::ConnectionAttempt { timestamp, .. } => {
            assert_eq!(timestamp, Timestamp { secs: 1_704_113_130, nanos: 250_000_000 });
        }
        _ => panic!("an attempt is read back"),
    }
    assert_eq!(
        corevpn::conn_rows::instant_of_text("1970-01-01T00:00:00Z"),
        Some(Timestamp { secs: 0, nanos: 0 })
    );
}

#[test]
fn composite_logging_results() {
    assert_eq!(CompositeLogger::log_result::<&str, &str>(Ok(()), Ok(())), Ok(()));
    assert_eq!(CompositeLogger::log_result::<&str, &str>(Err("file"), Ok(())), Ok(()));
    assert_eq!(CompositeLogger::log_result::<&str, &str>(Ok(()), Err("db")), Ok(()));
    assert_eq!(CompositeLogger::log_result::<&str, &str>(Err("file"), Err("db")), Err("file"));
}

#[test]
fn ghost_mode_logger_keeps_nothing() {
    let null = NullConnectionLogger::new();
    let event = ConnectionEventBuilder::new().attempt(addr(1, 1));
    assert_eq!(null.log(event), Ok(()));
    assert!(null.query_recent(10).is_none());
    assert!(null.query_connection(ConnectionId(1)).is_none());
    let s = null.stats();
    assert_eq!((s.events_logged, s.pending_events, s.storage_bytes), (0, 0, None));
    assert!(s.oldest_event.is_none() && s.newest_event.is_none());
    assert!(null.is_null());
}

#[test]
fn oauth_completion_steps_and_answers() {
    let pending = PendingOAuths::new();
    match oauth_complete_start(&pending, "unknown", "code", "id", "secret") {
        OAuthCompleteStep::Refuse(e) => {
            assert_eq!(e, OAuthError::InvalidState);
            assert_eq!(e.status(), 400);
        }
        _ => panic!("an unknown state is refused before any provider request"),
    }
    let mut pending = PendingOAuths::new();
    pending.insert("st".to_string(), addr(9, 9), 0);
    match oauth_complete_start(&pending, "st", "c0de", "id", "secret") {
        OAuthCompleteStep::RequestToken(form) => {
            assert_eq!(form.len(), 5);
            assert_eq!(form[0], ("code".to_string(), "c0de".to_string()));
            assert_eq!(form[4], ("grant_type".to_string(), "authorization_code".to_string()));
        }
        _ => panic!("a pending state goes on to the token request"),
    }
    assert_eq!(
        oauth_complete_answer(&Ok("a@example.com".to_string())),
        (200, "{\"email\":\"a@example.com\",\"status\":\"ok\"}".to_string())
    );
    assert_eq!(
        oauth_complete_answer(&Err(OAuthError::InvalidState)),
        (400, "{\"error\":\"Invalid or expired authentication state\"}".to_string())
    );
    assert_eq!(
        oauth_complete_answer(&Err(OAuthError::DomainNotAllowed)),
        (403, "{\"error\":\"Your email domain is not authorized for VPN access\"}".to_string())
    );
    let mut body = serde_json::Map::new();
    body.insert("status".to_string(), serde_json::Value::String("ok".to_string()));
    body.insert("email".to_string(), serde_json::Value::String("q\"x@example.com".to_string()));
    let expected = serde_json::Value::Object(body).to_string();
    assert_eq!(oauth_complete_answer(&Ok("q\"x@example.com".to_string())).1, expected);
}

#[test]
fn stored_names_parse_case_insensitively() {
    assert_eq!(parse_auth_method("oauth2"), AuthMethod::OAuth2);
    assert_eq!(parse_auth_method("CERTIFICATE"), AuthMethod::Certificate);
    assert_eq!(parse_auth_method("nonsense"), AuthMethod::Unknown);
    assert_eq!(parse_disconnect_reason("ServerShutdown"), DisconnectReason::ServerShutdown);
}

#[test]
fn cipher_negotiation() {
    let info = "IV_VER=2.6\nIV_CIPHERS=BF-CBC:aes-128-gcm:AES-256-GCM\nIV_PROTO=2";
    assert_eq!(negotiate_cipher(Some(info), "aes-256-gcm"), "aes-128-gcm");
    assert_eq!(negotiate_cipher(Some("IV_CIPHERS=BF-CBC"), "aes-256-gcm"), "AES-256-GCM");
    assert_eq!(negotiate_cipher(None, "chacha20-poly1305"), "CHACHA20-POLY1305");
}

#[test]
fn netmasks() {
    assert_eq!(cidr_to_netmask("10.0.0.0/8"), Some(("10.0.0.0".to_string(), "255.0.0.0".to_string())));
    assert_eq!(cidr_to_netmask("192.168.1.0/23"), Some(("192.168.1.0".to_string(), "255.255.254.0".to_string())));
    assert_eq!(cidr_to_netmask("10.0.0.0/33"), None);
    assert_eq!(cidr_to_netmask("10.0.0.0"), None);
    assert_eq!(subnet_mask("10.8.0.0/16"), "255.255.0.0");
    assert_eq!(subnet_mask("not a subnet"), "255.255.255.0");
}

#[test]
fn oauth_urls() {
    assert_eq!(redirect_uri(), "http://localhost:19823/oauth/callback");
    let url = google_auth_url("id 1", "st&ate");
    assert!(url.starts_with("https://accounts.google.com/o/oauth2/v2/auth?client_id=id%201&redirect_uri=http%3A%2F%2Flocalhost%3A19823%2Foauth%2Fcallback"));
    assert!(url.contains("&state=st%26ate&"));
    assert_eq!(auth_url("vpn.example.com", 9000, None, "abc"), "https://vpn.example.com:9000/auth/start?state=abc");
    assert_eq!(auth_url("vpn.example.com", 8443, None, "abc"), "https://vpn.example.com:8443/auth/start?state=abc");
    assert_eq!(
        auth_url("vpn.example.com", 9000, Some("https://sso.example.com"), "abc"),
        "https://sso.example.com/auth/start?state=abc"
    );
    assert_eq!(auth_pending_message("u"), "AUTH_PENDING,timeout 120,OPEN_URL:u\0");
}

fn exchange(email: Option<&str>) -> OAuthExchange {
    OAuthExchange {
        token_sent: true,
        token_status_ok: true,
        token_json_ok: true,
        access_token: Some("tok".to_string()),
        userinfo: UserinfoOutcome::Received,
        email: email.map(|e| e.to_string()),
    }
}

#[test]
fn oauth_completion_decisions() {
    let allowed = vec!["example.com".to_string()];
    assert_eq!(decide_oauth_complete(true, &exchange(Some("a@example.com")), &allowed), Ok("a@example.com".to_string()));
    assert_eq!(decide_oauth_complete(true, &exchange(Some("a@evil.com")), &allowed), Err(OAuthError::DomainNotAllowed));
    assert_eq!(decide_oauth_complete(true, &exchange(Some("a@evil.com")), &Vec::new()), Ok("a@evil.com".to_string()));
    assert_eq!(decide_oauth_complete(false, &exchange(Some("a@example.com")), &allowed), Err(OAuthError::InvalidState));
    assert_eq!(decide_oauth_complete(true, &exchange(None), &allowed), Err(OAuthError::NoEmail));
    let mut x = exchange(Some("a@example.com"));
    x.token_status_ok = false;
    assert_eq!(decide_oauth_complete(true, &x, &allowed), Err(OAuthError::TokenExchangeFailed));
    let mut x = exchange(Some("a@example.com"));
    x.token_json_ok = false;
    assert_eq!(decide_oauth_complete(true, &x, &allowed), Err(OAuthError::TokenParseFailed));
    let mut x = exchange(Some("a@example.com"));
    x.access_token = None;
    assert_eq!(decide_oauth_complete(true, &x, &allowed), Err(OAuthError::NoAccessToken));
    let mut x = exchange(Some("a@example.com"));
    x.userinfo = UserinfoOutcome::ParseFailed;
    assert_eq!(decide_oauth_complete(true, &x, &allowed), Err(OAuthError::UserinfoParseFailed));
    x.userinfo = UserinfoOutcome::BadStatus;
    assert_eq!(decide_oauth_complete(true, &x, &allowed), Err(OAuthError::UserinfoFailed));
    assert_eq!(OAuthError::InvalidState.status(), 400);
    assert_eq!(OAuthError::DomainNotAllowed.status(), 403);
    assert_eq!(OAuthError::Internal.status(), 500);
    assert_eq!(OAuthError::NoEmail.message(), "No email in profile");
}

#[test]
fn setup_wizard_plan() {
    assert_eq!(parse_port("8443"), Some(8443));
    assert_eq!(parse_port("+22"), Some(22));
    assert_eq!(parse_port("65536"), None);
    assert_eq!(parse_port("x1"), None);
    let oauth = google_oauth("cid".to_string(), "secret".to_string(), "corp.com".to_string());
    assert_eq!(oauth.provider, "google");
    assert_eq!(oauth.allowed_domains, vec!["corp.com".to_string()]);
    assert_eq!(oauth.oauth_port, 9000);
    assert!(google_oauth("c".to_string(), "s".to_string(), String::new()).allowed_domains.is_empty());
    let plan = plan_setup("vpn.example.com".to_string(), 1, 0, 1, Some(oauth), 0, "10.8.0.0/24".to_string());
    assert_eq!(plan.port, 443);
    assert_eq!(plan.protocol, "tcp");
    assert!(plan.redirect_gateway);
    assert_eq!(
        summary_lines(&plan),
        vec![
            "Server: vpn.example.com:443/tcp".to_string(),
            "Subnet: 10.8.0.0/24".to_string(),
            "Full tunnel: Yes".to_string(),
            "OAuth2: Enabled".to_string(),
        ]
    );
    let plain = plan_setup("h".to_string(), 2, 5555, 0, None, 1, "10.9.0.0/24".to_string());
    assert_eq!(plain.port, 5555);
    assert_eq!(plain.protocol, "udp");
    assert_eq!(summary_lines(&plain).len(), 3);
}

fn findings() -> DoctorFindings {
    DoctorFindings {
        config_error: None,
        data_dir: "\"/var/lib/corevpn\"".to_string(),
        data_dir_exists: true,
        ca_cert_exists: true,
        server_cert_exists: true,
        ta_key_exists: false,
        tls_auth: false,
        subnet: "10.8.0.0/24".to_string(),
        port: 1194,
        port_error: None,
    }
}

#[test]
fn doctor_reports() {
    let ok = findings();
    assert!(doctor_issues(&ok).is_empty());
    assert_eq!(doctor_verdict(0), "All checks passed!");
    let checks = doctor_checks(&ok);
    assert_eq!(checks.len(), 7);
    assert_eq!(checks[4].detail, "Not required");
    assert_eq!(checks[6].label, "Checking port 1194... ");

    let mut bad = findings();
    bad.data_dir_exists = false;
    bad.tls_auth = true;
    bad.subnet = "10.8.0.0/40".to_string();
    bad.port_error = Some("Address in use".to_string());
    let issues = doctor_issues(&bad);
    assert_eq!(
        issues,
        vec![
            "Create data directory: mkdir -p \"/var/lib/corevpn\"".to_string(),
            "TLS auth key missing but tls_auth is enabled".to_string(),
            "Fix subnet in configuration".to_string(),
            "Port 1194 may be in use or require root".to_string(),
        ]
    );
    assert_eq!(doctor_verdict(issues.len()), "Found 4 issue(s):");
    assert_eq!(numbered_issues(&issues)[1], "  2. TLS auth key missing but tls_auth is enabled");
    let checks = doctor_checks(&bad);
    assert_eq!(checks[4].status, CheckStatus::Warning);
    assert_eq!(checks[5].detail, "Invalid subnet: 10.8.0.0/40");

    let mut broken = findings();
    broken.config_error = Some("missing file".to_string());
    assert_eq!(doctor_issues(&broken), vec!["Fix configuration: missing file".to_string()]);
    assert_eq!(doctor_checks(&broken).len(), 1);
}

#[test]
fn ghost_mode_turns_connection_logging_off() {
    let mut s = LoggingSettings {
        connection_mode: ConnectionLogMode::Both,
        connection_log_file: Some("/tmp/c.log".to_string()),
        connection_log_db: None,
        retention: retention(),
    };
    apply_ghost_mode(&mut s, false);
    assert_eq!(s.connection_mode, ConnectionLogMode::Both);
    apply_ghost_mode(&mut s, true);
    assert_eq!(s.connection_mode, ConnectionLogMode::Disabled);
    assert!(matches!(create_logger(&s), LoggerPlan::Null));
}
