use corevpn::audit_events::{AuditCategory, AuditEventBuilder, AuditOutcome, AuditSeverity};
use corevpn::audit_formats::{AuditFormat, EncodePlan, FormatConfig, FormatEncoder};
use corevpn::sinks::file::{default_permissions, FileConfig, FileSink, RotationStrategy};
use corevpn::audit_logger::{AuditConfig, AuditLogger, LogOutcome, DEFAULT_BUFFER_SIZE};
use corevpn::sinks::BatchBuffer;

#[test]
fn test_cef_encoding() {
    let event =
        AuditEventBuilder::auth_success("testuser", Some("192.168.1.1".into()), "password").build();

    let encoder = FormatEncoder::new(FormatConfig { format: AuditFormat::Cef, ..Default::default() });
    let cef = encoder.encode(&event).text().unwrap();

    assert!(cef.starts_with("CEF:0|"));
    assert!(cef.contains("suser=testuser"));
    assert!(cef.contains("src=192.168.1.1"));
}

#[test]
fn test_syslog_encoding() {
    let event =
        AuditEventBuilder::auth_failure("baduser", Some("10.0.0.1".into()), "invalid password").build();

    let encoder = FormatEncoder::new(FormatConfig { format: AuditFormat::Syslog, ..Default::default() });
    let syslog = encoder.encode(&event).text().unwrap();

    assert!(syslog.starts_with("<"));
    assert!(syslog.contains("[corevpn@32473"));
}

#[test]
fn json_format_leaves_serialization_to_the_caller() {
    let event =
        AuditEventBuilder::auth_success("testuser", Some("192.168.1.1".into()), "password").build();
    let encoder = FormatEncoder::new(FormatConfig::default());
    match encoder.encode(&event) {
        EncodePlan::Json { pretty } => assert!(!pretty),
        _ => panic!("JSON format must give a JSON plan"),
    }
    assert_eq!(event.action, "auth.success");
}

#[test]
fn leef_encoding_names_the_user() {
    let event =
        AuditEventBuilder::auth_success("alice", Some("10.1.2.3".into()), "password").build();
    let encoder = FormatEncoder::new(FormatConfig { format: AuditFormat::Leef, ..Default::default() });
    let leef = encoder.encode(&event).text().unwrap();
    assert!(leef.starts_with("LEEF:2.0|"));
    assert!(leef.contains("usrName=alice"));
}

#[test]
fn builder_presets_fill_category_and_outcome() {
    let event =
        AuditEventBuilder::auth_failure("mallory", Some("10.0.0.9".into()), "bad password").build();
    assert_eq!(event.category, AuditCategory::Authentication);
    assert_eq!(event.outcome, AuditOutcome::Failure);
    assert_eq!(event.severity, AuditSeverity::Medium);
}

#[test]
fn audit_config_default_values() {
    let c = AuditConfig::default();
    assert!(c.enabled);
    assert_eq!(c.buffer_size, DEFAULT_BUFFER_SIZE);
    assert_eq!(c.buffer_size, 10000);
    assert!(c.sinks.is_empty());
    assert_eq!(c.categories.len(), 5);
    assert_eq!(c.categories[0], AuditCategory::Authentication);
    assert_eq!(c.categories[4], AuditCategory::Security);
    assert!(!c.include_source_ip && !c.include_user_identity && !c.hash_sensitive_fields);
}

#[test]
fn enabled_logger_queues_events_in_order() {
    let mut logger = AuditLogger::new(&AuditConfig::default());
    let a = logger.event(AuditCategory::Connection).action("first").build();
    let b = logger.event(AuditCategory::Connection).action("second").build();
    assert!(matches!(logger.log(a), LogOutcome::Queued));
    assert!(matches!(logger.log(b), LogOutcome::Queued));
    let out = logger.take_queued();
    assert_eq!(out.len(), 2);
    assert_eq!(out[0].action, "first");
    assert_eq!(out[1].action, "second");
    assert!(logger.take_queued().is_empty());
}

#[test]
fn events_of_categories_not_configured_are_dropped() {
    let mut logger = AuditLogger::new(&AuditConfig::default());
    let system = logger.event(AuditCategory::System).action("startup").build();
    assert!(matches!(logger.log(system), LogOutcome::Dropped));
    let admin = logger.event(AuditCategory::Administrative).build();
    assert!(matches!(logger.log(admin), LogOutcome::Dropped));
    let auth = logger.event(AuditCategory::Authentication).action("login").build();
    assert!(matches!(logger.log(auth), LogOutcome::Queued));
    let out = logger.take_queued();
    assert_eq!(out.len(), 1);
    assert_eq!(out[0].action, "login");

    let only_system = AuditConfig { categories: vec![AuditCategory::System], ..AuditConfig::default() };
    let mut logger = AuditLogger::new(&only_system);
    let system = logger.event(AuditCategory::System).build();
    assert!(matches!(logger.log(system), LogOutcome::Queued));
    let auth = logger.event(AuditCategory::Authentication).build();
    assert!(matches!(logger.log(auth), LogOutcome::Dropped));
}

#[test]
fn null_logger_drops_events() {
    let mut logger = AuditLogger::null();
    assert!(!logger.enabled());
    let e = logger.event(AuditCategory::Security).build();
    assert!(matches!(logger.log(e), LogOutcome::Dropped));
    assert!(logger.take_queued().is_empty());
}

#[test]
fn batch_buffer_hands_out_items_in_order() {
    let mut buf: BatchBuffer<u32> = BatchBuffer::new(3);
    assert!(buf.push(1).is_none());
    assert!(buf.push(2).is_none());
    assert_eq!(buf.len(), 2);
    let batch = buf.push(3).unwrap();
    assert_eq!(batch, vec![1, 2, 3]);
    assert_eq!(buf.len(), 0);
    assert!(buf.push(4).is_none());
    assert_eq!(buf.take_all(), vec![4]);
}

#[test]
fn text_formats_with_a_given_time() {
    let event =
        AuditEventBuilder::auth_failure("baduser", Some("10.0.0.1".into()), "invalid password").build();
    let cfg = FormatConfig { format: AuditFormat::Syslog, ..Default::default() };
    let line = corevpn::audit_formats::encode_syslog_at(&cfg, &event, "2024-01-02T03:04:05.000006Z");
    let expected_head = format!("<{}>1 2024-01-02T03:04:05.000006Z ", 4 * 8 + 4);
    assert!(line.starts_with(&expected_head), "{}", line);
    assert!(line.ends_with(&event.message));
    let leef = corevpn::audit_formats::encode_leef_at(&cfg, &event, "T");
    assert!(leef.contains("devTime=T\tcat=authentication\t"));
}

#[test]
fn sink_paths_and_bodies() {
    assert_eq!(
        corevpn::sinks::file::fill_path_template("/var/log/{host}/{date}-{hour}.log", "2024-05-06", "07", "h1"),
        "/var/log/h1/2024-05-06-07.log"
    );
    assert_eq!(corevpn::sinks::elasticsearch::index_for_date("audit-{date}", "2024.05.06"), "audit-2024.05.06");
    let docs = vec!["{\"a\":1}".to_string(), "{\"b\":2}".to_string()];
    assert_eq!(
        corevpn::sinks::elasticsearch::bulk_body("audit", &docs),
        "{\"index\":{\"_index\":\"audit\"}}\n{\"a\":1}\n{\"index\":{\"_index\":\"audit\"}}\n{\"b\":2}\n"
    );
}

#[test]
fn full_queue_hands_the_event_back() {
    let mut logger = AuditLogger::new(&AuditConfig { buffer_size: 1, ..AuditConfig::default() });
    let a = logger.event(AuditCategory::Security).action("a").build();
    let b = logger.event(AuditCategory::Security).action("b").build();
    assert!(matches!(logger.log(a), LogOutcome::Queued));
    match logger.log(b) {
        LogOutcome::Full(back) => {
            assert_eq!(back.action, "b");
            assert_eq!(logger.take_queued().len(), 1);
            assert!(matches!(logger.log(back), LogOutcome::Queued));
        }
        _ => panic!("a full queue hands the event back"),
    }
}

fn syslog_config(address: &str, octet_counting: bool) -> corevpn::sinks::syslog::SyslogConfig {
    corevpn::sinks::syslog::SyslogConfig {
        address: address.to_string(),
        port: 6514,
        protocol: corevpn::sinks::syslog::SyslogProtocol::Tcp,
        facility: 4,
        app_name: "corevpn".to_string(),
        tls_ca_cert: None,
        tls_client_cert: None,
        tls_client_key: None,
        tls_insecure: false,
        use_cef: false,
        use_leef: false,
        octet_counting,
        reconnect: true,
        reconnect_interval_secs: 5,
    }
}

#[test]
fn sinks_are_made_from_their_configurations_in_order() {
    let configs = vec![
        corevpn::sinks::SinkConfig::Syslog(syslog_config("siem-a", true)),
        corevpn::sinks::SinkConfig::Syslog(syslog_config("siem-b", false)),
    ];
    let sinks = corevpn::audit_logger::create_sinks(configs);
    assert_eq!(sinks.len(), 2);
    match (&sinks[0], &sinks[1]) {
        (corevpn::sinks::SinkInstance::Syslog(a), corevpn::sinks::SinkInstance::Syslog(b)) => {
            assert_eq!(a.address(), "siem-a:6514");
            assert_eq!(b.address(), "siem-b:6514");
            assert_eq!(a.frame_message("héllo"), "6 héllo");
            assert_eq!(b.frame_message("hi"), "hi\n");
        }
        _ => panic!("syslog configurations make syslog sinks"),
    }
}

#[test]
fn file_sink_creates_files_with_the_configured_mode() {
    let config = FileConfig {
        path: "/var/log/corevpn/audit.log".to_string(),
        format: FormatConfig::default(),
        rotation: RotationStrategy::Disabled,
        max_size: 1024,
        max_files: 3,
        compress: false,
        permissions: 0o640,
        sync_writes: false,
        buffer_size: 10,
    };
    let sink = FileSink::with_path(config, "/var/log/corevpn/audit.log".to_string());
    assert_eq!(sink.file_mode(), 0o640);
    assert_eq!(default_permissions(), 0o600);
}

fn bare_pipes(s: &str) -> usize {
    let cs: Vec<char> = s.chars().collect();
    let mut i = 0;
    let mut n = 0;
    while i < cs.len() {
        if cs[i] == '\\' {
            i += 2;
        } else {
            if cs[i] == '|' {
                n += 1;
            }
            i += 1;
        }
    }
    n
}

#[test]
fn cef_line_has_seven_separators_and_no_line_break() {
    let event = AuditEventBuilder::auth_failure("bad|user\\", Some("10.0.0.1".into()), "line one\nline|two\r")
        .action("login|attempt\n")
        .build();
    let cfg = FormatConfig { format: AuditFormat::Cef, cef_vendor: "Ven|dor".to_string(), ..Default::default() };
    let line = corevpn::audit_formats::encode_cef(&cfg, &event);
    assert!(!line.contains('\n') && !line.contains('\r'), "{}", line);
    assert_eq!(bare_pipes(&line), 7, "{}", line);
}
