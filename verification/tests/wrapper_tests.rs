use chrono::Datelike;
use corevpn::anonymizer::{AnonymizationConfig, Anonymizer};
use corevpn::audit_events::AuditEventBuilder;
use corevpn::audit_formats::{azure_monitor_fields, FormatConfig};
use corevpn::client_config::ConfigError;
use corevpn::client_state::AppState;
use corevpn::clock::Timestamp;
use corevpn::conn_events::ConnectionId;
use corevpn::ids::{new_uuid_string, uuid_to_string};
use corevpn::sinks::file::resolve_path_at;
use corevpn::sinks::oracle::OracleLoggingSink;
use corevpn::sinks::webhook::{WebhookAuth, WebhookConfig, WebhookSink};
use corevpn::templates::{clients_list, ClientInfo};
use hmac::Mac;
use sha2::Digest;

#[test]
fn pseudonym_is_the_keyed_hash_under_the_daily_salt() {
    let anonymizer = Anonymizer::new(AnonymizationConfig { hash_usernames: true, ..Default::default() });
    let got = anonymizer.anonymize_username(Some("alice".to_string())).unwrap();

    let day = chrono::Utc::now().ordinal();
    let mut seed = day.to_le_bytes().to_vec();
    seed.extend_from_slice(b"corevpn-anonymizer-salt");
    let salt = sha2::Sha256::digest(&seed);
    let mut mac = hmac::Hmac::<sha2::Sha256>::new_from_slice(&salt).unwrap();
    mac.update(b"alice");
    let tag = mac.finalize().into_bytes();
    let h = u64::from_le_bytes([tag[0], tag[1], tag[2], tag[3], tag[4], tag[5], tag[6], tag[7]]);
    assert_eq!(got, format!("user_{:016x}", h));
}

fn webhook(auth: WebhookAuth) -> WebhookSink {
    WebhookSink::new(WebhookConfig {
        url: "https://hooks.example.com/x".to_string(),
        method: "POST".to_string(),
        headers: std::collections::HashMap::new(),
        auth: Some(auth),
        format: FormatConfig::default(),
        batch_size: 10,
        timeout_secs: 5,
        retries: 1,
        retry_delay_ms: 100,
        tls_verify: true,
        batch_as_array: true,
    })
}

#[test]
fn webhook_basic_auth_header_is_base64() {
    let sink = webhook(WebhookAuth::Basic { username: "user".to_string(), password: "pass".to_string() });
    assert_eq!(
        sink.build_auth_header(),
        Some(("Authorization".to_string(), "Basic dXNlcjpwYXNz".to_string()))
    );
    let sink = webhook(WebhookAuth::Bearer { token: "t0k".to_string() });
    assert_eq!(sink.build_auth_header(), Some(("Authorization".to_string(), "Bearer t0k".to_string())));
}

#[test]
fn times_are_written_in_rfc3339() {
    let mut event = AuditEventBuilder::auth_success("u", None, "password").build();
    event.timestamp = Timestamp { secs: 1_700_000_000, nanos: 5_000_000 };
    assert_eq!(azure_monitor_fields(&event).time_generated, "2023-11-14T22:13:20.005Z");
    let entry = OracleLoggingSink::entry_for(&event, "d".to_string());
    assert_eq!(entry.time, "2023-11-14T22:13:20.005+00:00");
    assert_eq!(entry.id, event.id);
}

#[test]
fn file_paths_use_the_utc_date_and_hour() {
    let t = Timestamp { secs: 1_700_000_000, nanos: 0 };
    assert_eq!(
        resolve_path_at("/logs/{host}/audit-{date}-{hour}.log", &t, "node7"),
        "/logs/node7/audit-2023-11-14-22.log"
    );
}

#[test]
fn client_rows_show_the_capital_initial() {
    let clients = vec![ClientInfo {
        id: "1".to_string(),
        name: "bob".to_string(),
        email: "bob@example.com".to_string(),
        connected: true,
        vpn_ip: Some("10.8.0.2".to_string()),
        last_seen: None,
    }];
    let page = clients_list(&clients, "tok");
    assert!(page.contains("\n                                B\n"));
    assert!(page.contains("bob@example.com"));
}

#[test]
fn uuid_text_form() {
    assert_eq!(uuid_to_string(0x67e55044_10b1_426f_9247_bb680e5fe0c8), "67e55044-10b1-426f-9247-bb680e5fe0c8");
    let s = new_uuid_string();
    let parsed = uuid::Uuid::parse_str(&s).unwrap();
    assert_eq!(parsed.get_version_num(), 4);
    assert_eq!(parsed.to_string(), s);
    let id = ConnectionId::new();
    assert_eq!(uuid::Uuid::from_u128(id.0).get_version_num(), 4);
    assert_eq!(id.to_text(), uuid::Uuid::from_u128(id.0).to_string());
}

#[test]
fn password_is_kept_in_a_wiping_string() {
    let mut state = AppState::new();
    assert_eq!(state.password(), "");
    state.password_mut().push_str("hunter2");
    assert_eq!(state.password(), "hunter2");
}

#[test]
fn configuration_error_messages() {
    assert_eq!(ConfigError::IoError("denied".to_string()).message(), "IO error: denied");
    assert_eq!(ConfigError::ParseError("bad".to_string()).message(), "Parse error: bad");
    assert_eq!(ConfigError::SerializeError("x".to_string()).message(), "Serialization error: x");
}
