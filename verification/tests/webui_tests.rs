use corevpn::templates::html_escape;
use corevpn::webui::{
    attachment_disposition, client_id_input, create_client_input, disconnect_decision,
    mobile_download_name, quick_generate_input, revoke_redirect,
    check_basic_auth, constant_time_eq, csrf_check, csrf_token_from_query, error_response,
    format_uptime, generate_token, sanitize_email, sanitize_filename,
    sanitize_filename_for_download, sanitize_path_param, session_id, unauthorized_body,
    validate_token, BasicAuthOutcome, CsrfDecision, CsrfStore, CSRF_TOKEN_LIFETIME_MS,
};

#[test]
fn test_constant_time_eq() {
    assert!(constant_time_eq("password", "password"));
    assert!(!constant_time_eq("password", "wrong"));
    assert!(!constant_time_eq("short", "longer"));
}

#[test]
fn constant_time_eq_same_length_difference() {
    assert!(!constant_time_eq("secret1", "secret2"));
    assert!(constant_time_eq("", ""));
}

#[test]
fn basic_auth_outcomes() {
    // "admin:secret" in base64
    let good = "Basic YWRtaW46c2VjcmV0";
    assert_eq!(check_basic_auth(Some("secret"), Some(good)), BasicAuthOutcome::Authorized);
    assert_eq!(check_basic_auth(Some("other"), Some(good)), BasicAuthOutcome::Unauthorized);
    assert_eq!(check_basic_auth(None, Some(good)), BasicAuthOutcome::NotConfigured);
    assert_eq!(check_basic_auth(Some(""), Some(good)), BasicAuthOutcome::NotConfigured);
    assert_eq!(check_basic_auth(Some("secret"), None), BasicAuthOutcome::Unauthorized);
    assert_eq!(check_basic_auth(Some("secret"), Some("Bearer YWRtaW46c2VjcmV0")), BasicAuthOutcome::Unauthorized);
    assert_eq!(check_basic_auth(Some("secret"), Some("Basic !!!notbase64")), BasicAuthOutcome::Unauthorized);
    // "root:secret": wrong user name
    assert_eq!(check_basic_auth(Some("secret"), Some("Basic cm9vdDpzZWNyZXQ=")), BasicAuthOutcome::Unauthorized);
    // "admin:se:cret": the password runs to the end
    assert_eq!(check_basic_auth(Some("se:cret"), Some("Basic YWRtaW46c2U6Y3JldA==")), BasicAuthOutcome::Authorized);
}

#[test]
fn unauthorized_body_defaults() {
    assert_eq!(unauthorized_body(None), "Unauthorized. Please provide valid credentials.");
    assert_eq!(unauthorized_body(Some("nope")), "nope");
}

#[test]
fn issued_token_is_accepted_until_it_expires() {
    let mut store = CsrfStore::new();
    let now = 1_000_000u64;
    let token = generate_token(&mut store, "session_a", now);
    assert_eq!(token.len(), 32);
    assert!(token.chars().all(|c| c.is_ascii_alphanumeric()));
    assert!(validate_token(&mut store, "session_a", &token, now + 1));
    assert!(!validate_token(&mut store, "session_b", &token, now + 1));
    assert!(!validate_token(&mut store, "session_a", "wrong-token-wrong-token-wrong-12", now + 1));
    assert!(!validate_token(&mut store, "session_a", &token, now + CSRF_TOKEN_LIFETIME_MS));
}

#[test]
fn newer_token_replaces_older_one() {
    let mut store = CsrfStore::new();
    let first = generate_token(&mut store, "s", 10);
    let second = generate_token(&mut store, "s", 20);
    assert!(validate_token(&mut store, "s", &second, 30));
    if first != second {
        assert!(!validate_token(&mut store, "s", &first, 30));
    }
}

#[test]
fn csrf_check_decisions() {
    let mut store = CsrfStore::new();
    let token = generate_token(&mut store, "default", 0);
    assert!(matches!(csrf_check(&mut store, false, "default", None, None, 1), CsrfDecision::Pass));
    match csrf_check(&mut store, true, "default", None, None, 1) {
        CsrfDecision::Forbidden(m) => assert_eq!(m, "CSRF token required"),
        CsrfDecision::Pass => panic!("a POST without token is refused"),
    }
    assert!(matches!(csrf_check(&mut store, true, "default", Some(token.as_str()), None, 1), CsrfDecision::Pass));
    let query = format!("a=1&csrf_token={}", token);
    assert!(matches!(csrf_check(&mut store, true, "default", None, Some(query.as_str()), 1), CsrfDecision::Pass));
    match csrf_check(&mut store, true, "default", Some("bad"), None, 1) {
        CsrfDecision::Forbidden(m) => assert_eq!(m, "Invalid CSRF token"),
        CsrfDecision::Pass => panic!("a wrong token is refused"),
    }
}

#[test]
fn csrf_token_in_query() {
    assert_eq!(csrf_token_from_query("csrf_token=abc"), Some("abc".to_string()));
    assert_eq!(csrf_token_from_query("x=1&csrf_token=def&csrf_token=ghi"), Some("def".to_string()));
    assert_eq!(csrf_token_from_query("csrf_token&csrf_token=z"), Some("z".to_string()));
    assert_eq!(csrf_token_from_query("x=1"), None);
}

#[test]
fn session_ids() {
    assert_eq!(session_id(None), "default");
    assert_eq!(session_id(Some(0xdeadbeef)), "session_deadbeef");
}

#[test]
fn uptime_formatting() {
    assert_eq!(format_uptime(0), "0s");
    assert_eq!(format_uptime(59), "59s");
    assert_eq!(format_uptime(61), "1m 1s");
    assert_eq!(format_uptime(3600), "1h 0m");
    assert_eq!(format_uptime(3725), "1h 2m");
    assert_eq!(format_uptime(86400 + 7200 + 5), "1d 2h");
}

#[test]
fn input_sanitizers() {
    assert_eq!(sanitize_filename("../etc/passwd"), "..etcpasswd");
    assert_eq!(sanitize_email("a b<c>@x.com"), "abc@x.com");
    assert_eq!(sanitize_path_param("a/b.c"), "abc");
    assert_eq!(sanitize_filename(&"x".repeat(100)).len(), 64);
    assert_eq!(sanitize_filename_for_download("  my vpn.ovpn  "), "my vpn.ovpn");
}

#[test]
fn error_response_statuses() {
    let (status, body) = error_response(404, "missing");
    assert_eq!(status, 404);
    assert!(body.contains("missing"));
    let (status, _) = error_response(42, "odd");
    assert_eq!(status, 500);
}

#[test]
fn html_escaping() {
    assert_eq!(html_escape("<a href=\"x\">&'</a>"), "&lt;a href=&quot;x&quot;&gt;&amp;&#39;&lt;/a&gt;");
}

fn page_reference(bytes: u64) -> String {
    const KB: u64 = 1024;
    const MB: u64 = KB * 1024;
    const GB: u64 = MB * 1024;
    const TB: u64 = GB * 1024;
    if bytes >= TB {
        format!("{:.2} TB", bytes as f64 / TB as f64)
    } else if bytes >= GB {
        format!("{:.2} GB", bytes as f64 / GB as f64)
    } else if bytes >= MB {
        format!("{:.2} MB", bytes as f64 / MB as f64)
    } else if bytes >= KB {
        format!("{:.2} KB", bytes as f64 / KB as f64)
    } else {
        format!("{} B", bytes)
    }
}

fn usage_reference(bytes: u64) -> String {
    const KB: u64 = 1024;
    const MB: u64 = KB * 1024;
    const GB: u64 = MB * 1024;
    if bytes >= GB {
        format!("{:.1} GB", bytes as f64 / GB as f64)
    } else if bytes >= MB {
        format!("{:.1} MB", bytes as f64 / MB as f64)
    } else if bytes >= KB {
        format!("{:.1} KB", bytes as f64 / KB as f64)
    } else {
        format!("{} B", bytes)
    }
}

fn samples() -> Vec<u64> {
    let mut v: Vec<u64> = (0..3000).map(|i| i * 7).collect();
    let mut x: u64 = 0x2545_f491_4f6c_dd1d;
    for _ in 0..5000 {
        x ^= x << 13;
        x ^= x >> 7;
        x ^= x << 17;
        v.push(x);
        v.push(x >> 16);
        v.push(x >> 32);
    }
    v.push(u64::MAX);
    v.push(1 << 40);
    v.push((1 << 40) - 1);
    v
}

#[test]
fn page_byte_counts_match_float_formatting() {
    assert_eq!(corevpn::templates::format_bytes(0), "0 B");
    assert_eq!(corevpn::templates::format_bytes(1536), "1.50 KB");
    assert_eq!(corevpn::templates::format_bytes(1 << 40), "1.00 TB");
    for n in samples() {
        assert_eq!(corevpn::templates::format_bytes(n), page_reference(n), "bytes {}", n);
    }
}

#[test]
fn session_usage_matches_float_formatting() {
    assert_eq!(corevpn::webui::format_data_usage(1000, 24), "1.0 KB");
    for n in samples() {
        assert_eq!(corevpn::webui::format_data_usage(n / 2, n - n / 2), usage_reference(n), "bytes {}", n);
    }
}

#[test]
fn admin_form_checks() {
    assert_eq!(create_client_input(false, "alice", "a@x.com"), Err((403, "Invalid CSRF token")));
    assert_eq!(create_client_input(true, "///", "a@x.com"), Err((400, "Invalid client name")));
    assert_eq!(
        create_client_input(true, "al ice", "a b@x.com"),
        Ok(("alice".to_string(), "ab@x.com".to_string()))
    );
    // 64 two-byte letters are 128 bytes: refused
    assert_eq!(create_client_input(true, &"é".repeat(64), "e@x.com"), Err((400, "Invalid client name")));
    assert_eq!(quick_generate_input(true, "  bob  "), Ok("bob".to_string()));
    assert_eq!(
        quick_generate_input(true, "   "),
        Err((400, "Invalid client name. Must be 1-64 characters."))
    );
    assert_eq!(client_id_input("../"), Err((400, "Invalid client ID")));
    assert_eq!(client_id_input("dev-1"), Ok("dev-1".to_string()));
}

#[test]
fn download_names_and_redirects() {
    assert_eq!(mobile_download_name("bob@corp.com"), "bob_corp_com-mobile.ovpn");
    assert_eq!(attachment_disposition("a.ovpn"), "attachment; filename=\"a.ovpn\"");
    assert_eq!(revoke_redirect(false, "x"), "/admin/clients?error=csrf");
    assert_eq!(revoke_redirect(true, "/."), "/admin/clients?error=invalid_id");
    assert_eq!(revoke_redirect(true, "x"), "/admin/clients");
    assert_eq!(disconnect_decision(false, "x"), ("/admin/sessions?error=csrf", None));
    assert_eq!(disconnect_decision(true, "/"), ("/admin/sessions?error=invalid_id", None));
    assert_eq!(disconnect_decision(true, "not-a-uuid"), ("/admin/sessions", None));
    assert_eq!(
        disconnect_decision(true, "67e55044-10b1-426f-9247-bb680e5fe0c8"),
        ("/admin/sessions", Some(0x67e55044_10b1_426f_9247_bb680e5fe0c8u128))
    );
}

#[test]
fn decoded_credentials() {
    assert_eq!(corevpn::webui::check_decoded_credentials("pw", b"admin:pw".to_vec()), BasicAuthOutcome::Authorized);
    assert_eq!(corevpn::webui::check_decoded_credentials("pw", b"admin:px".to_vec()), BasicAuthOutcome::Unauthorized);
    assert_eq!(corevpn::webui::check_decoded_credentials("pw", vec![0xff, 0xfe]), BasicAuthOutcome::Unauthorized);
    assert_eq!(corevpn::webui::check_decoded_credentials("", b"admin".to_vec()), BasicAuthOutcome::Authorized);
}

#[test]
fn validating_keeps_other_live_tokens() {
    let mut store = CsrfStore::new();
    let a = generate_token(&mut store, "a", 0);
    let b = generate_token(&mut store, "b", 1_000);
    assert!(!validate_token(&mut store, "a", "nope", 2_000));
    assert!(validate_token(&mut store, "b", &b, 3_000));
    assert!(validate_token(&mut store, "a", &a, 4_000));
    // Once `a` expired it is gone, while `b` is still accepted.
    assert!(!validate_token(&mut store, "a", &a, CSRF_TOKEN_LIFETIME_MS));
    assert!(validate_token(&mut store, "b", &b, CSRF_TOKEN_LIFETIME_MS));
}

#[test]
fn quick_generate_answers() {
    match corevpn::webui::quick_generate_answer("alice", false, None) {
        Err((status, page)) => {
            assert_eq!(status, 500);
            assert!(page.contains("An internal error occurred. Please try again later."));
            assert!(!page.contains("Failed to generate configuration"));
        }
        Ok(_) => panic!("a failed generation is a 500"),
    }
    let generated = Some(("alice/laptop.ovpn".to_string(), "client\nremote vpn 1194\n".to_string()));
    match corevpn::webui::quick_generate_answer("alice", false, generated) {
        Ok(d) => {
            assert_eq!(d.content_type, "application/x-openvpn-profile");
            assert_eq!(d.disposition, "attachment; filename=\"alicelaptop.ovpn\"");
            assert_eq!(d.content, "client\nremote vpn 1194\n");
        }
        Err(_) => panic!("a generated profile is handed out"),
    }
    let generated = Some(("ignored.ovpn".to_string(), "x".to_string()));
    match corevpn::webui::quick_generate_answer("bob.smith@corp", true, generated) {
        Ok(d) => assert_eq!(d.disposition, "attachment; filename=\"bob_smith_corp-mobile.ovpn\""),
        Err(_) => panic!("a generated profile is handed out"),
    }
}
