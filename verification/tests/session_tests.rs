use corevpn::conn_events::{AuthMethod, ConnectionId, IpAddress, SocketAddress};
use corevpn::sessions::{complete_oauth, deliver_push_reply, AuthCompletion, PendingOAuths, PushDelivery, Session, SessionTable};

fn peer(last: u8) -> SocketAddress {
    SocketAddress { ip: IpAddress::V4(u32::from_be_bytes([203, 0, 113, last])), port: 50000 }
}

fn table_with(p: SocketAddress, has_tls: bool) -> SessionTable {
    let mut table = SessionTable::new();
    table.insert(Session::new(p, ConnectionId(7), 1_000, has_tls));
    table
}

#[test]
fn push_reply_without_oauth_establishes_the_session() {
    let p = peer(1);
    let mut table = table_with(p, true);
    let mut pending = PendingOAuths::new();
    let d = deliver_push_reply(&mut table, &mut pending, 0, "PUSH_REPLY,ping 10".to_string(), "AES-256-GCM".to_string(), false, "vpn.example.com", 9000, None, 2_000);
    match d {
        PushDelivery::PushReply { message } => assert_eq!(message, "PUSH_REPLY,ping 10\0"),
        _ => panic!("without OAuth the reply goes out at once"),
    }
    assert!(table.at(0).established);
}

#[test]
fn oauth_defers_the_reply_until_authentication() {
    let p = peer(2);
    let mut table = table_with(p, true);
    let mut pending = PendingOAuths::new();
    let d = deliver_push_reply(&mut table, &mut pending, 0, "PUSH_REPLY,ping 10".to_string(), "AES-256-GCM".to_string(), true, "vpn.example.com", 9443, None, 2_000);
    let state = match d {
        PushDelivery::AuthPending { message, state } => {
            let expected = format!("AUTH_PENDING,timeout 120,OPEN_URL:https://vpn.example.com:9443/auth/start?state={}\0", state);
            assert_eq!(message, expected);
            state
        }
        _ => panic!("with OAuth the reply is held back"),
    };
    assert!(!table.at(0).established);
    assert_eq!(table.at(0).pending_push_reply, Some("PUSH_REPLY,ping 10".to_string()));
    assert_eq!(pending.peer_of(&state), Some(p));

    match complete_oauth(&mut table, &mut pending, &state, "alice@example.com".to_string()) {
        AuthCompletion::Send { index, message } => {
            assert_eq!(index, 0);
            assert_eq!(message, "PUSH_REPLY,ping 10\0");
        }
        _ => panic!("the deferred reply is sent"),
    }
    let s = table.at(0);
    assert!(s.established);
    assert_eq!(s.username, Some("alice@example.com".to_string()));
    assert_eq!(s.auth_method, AuthMethod::OAuth2);
    assert_eq!(s.pending_push_reply, None);
    assert_eq!(pending.peer_of(&state), None);
    assert!(matches!(complete_oauth(&mut table, &mut pending, &state, "x".to_string()), AuthCompletion::NoPending));
}

#[test]
fn oauth_url_follows_the_external_url() {
    let p = peer(3);
    let mut table = table_with(p, false);
    let mut pending = PendingOAuths::new();
    let d = deliver_push_reply(&mut table, &mut pending, 0, "PUSH_REPLY".to_string(), "AES-128-GCM".to_string(), true, "vpn.example.com", 9000, Some("https://sso.example.com"), 5);
    let state = match d {
        PushDelivery::AuthPending { message, state } => {
            assert_eq!(message, format!("AUTH_PENDING,timeout 120,OPEN_URL:https://sso.example.com/auth/start?state={}\0", state));
            state
        }
        _ => panic!("with OAuth the reply is held back"),
    };
    // Without a TLS handler nothing is sent and the session is not established.
    assert!(matches!(complete_oauth(&mut table, &mut pending, &state, "bob@example.com".to_string()), AuthCompletion::NoTls));
    assert!(!table.at(0).established);
    assert_eq!(table.at(0).username, Some("bob@example.com".to_string()));
}
