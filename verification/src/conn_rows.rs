//! The database form of connection events: the row each event is stored as, and the event
//! read back from a row. The identifier is stored as hyphenated UUID text and the time as
//! RFC 3339 text, both read back through the parsers of `uuid` and chrono. Address columns
//! hold typed addresses; their text form is written and parsed with `std::net` where the
//! database is accessed.

use vstd::prelude::*;
use crate::audit_events::opt_view;
use crate::audit_formats::clone_opt;
use crate::clock::{parse_rfc3339, rfc3339, rfc3339_parsed, rfc3339_text, Timestamp};
use crate::ids::uuid_text;
use crate::webui::{parse_uuid, uuid_value_of};
use crate::conn_events::{
    event_connection_id, event_timestamp, AuthMethod, AuthResult, ConnectionEvent, ConnectionId, DisconnectReason, Duration, IpAddress,
    SocketAddress, TransferStats,
};
use crate::text::{ascii_lower, ascii_lower_char, is_ascii_text, lower_of, str_eq, to_lowercase};

verus! {

/// One row of the `connection_events` table. Absent values are NULL columns.
#[derive(Clone, Debug)]
pub struct EventRow {
    /// The connection's identifier as hyphenated UUID text.
    pub connection_id: String,
    pub event_type: String,
    /// The event's time as RFC 3339 text.
    pub timestamp: String,
    pub client_addr: Option<SocketAddress>,
    pub username: Option<String>,
    pub vpn_ip: Option<IpAddress>,
    pub auth_method: Option<String>,
    pub auth_result: Option<String>,
    pub disconnect_reason: Option<String>,
    pub duration_secs: Option<i64>,
    pub bytes_rx: Option<i64>,
    pub bytes_tx: Option<i64>,
    pub packets_rx: Option<i64>,
    pub packets_tx: Option<i64>,
    pub old_addr: Option<SocketAddress>,
    pub new_addr: Option<SocketAddress>,
    pub success: Option<i32>,
    pub protocol_version: Option<String>,
    pub client_info: Option<String>,
    pub details: Option<String>,
}

/// The `Debug` name of an authentication method, as stored.
pub open spec fn auth_method_text(m: AuthMethod) -> Seq<char> {
    match m {
        AuthMethod::Certificate => "Certificate"@,
        AuthMethod::UsernamePassword => "UsernamePassword"@,
        AuthMethod::OAuth2 => "OAuth2"@,
        AuthMethod::Saml => "Saml"@,
        AuthMethod::Psk => "Psk"@,
        AuthMethod::Unknown => "Unknown"@,
    }
}

/// The `Debug` name of an authentication result, as stored.
pub open spec fn auth_result_text(r: AuthResult) -> Seq<char> {
    match r {
        AuthResult::Success => "Success"@,
        AuthResult::InvalidCredentials => "InvalidCredentials"@,
        AuthResult::Expired => "Expired"@,
        AuthResult::NotAuthorized => "NotAuthorized"@,
        AuthResult::RateLimited => "RateLimited"@,
        AuthResult::ProviderError => "ProviderError"@,
        AuthResult::Timeout => "Timeout"@,
        AuthResult::Unknown => "Unknown"@,
    }
}

/// The `Debug` name of a disconnect reason, as stored.
pub open spec fn disconnect_reason_text(r: DisconnectReason) -> Seq<char> {
    match r {
        DisconnectReason::ClientDisconnect => "ClientDisconnect"@,
        DisconnectReason::ServerDisconnect => "ServerDisconnect"@,
        DisconnectReason::IdleTimeout => "IdleTimeout"@,
        DisconnectReason::SessionTimeout => "SessionTimeout"@,
        DisconnectReason::AuthFailure => "AuthFailure"@,
        DisconnectReason::ProtocolError => "ProtocolError"@,
        DisconnectReason::ConnectionReset => "ConnectionReset"@,
        DisconnectReason::ServerShutdown => "ServerShutdown"@,
        DisconnectReason::AdminTerminated => "AdminTerminated"@,
        DisconnectReason::RenegotiationFailure => "RenegotiationFailure"@,
        DisconnectReason::Unknown => "Unknown"@,
    }
}

/// The authentication method named by a lowercase text; unknown texts give `Unknown`.
pub open spec fn auth_method_from_lower(l: Seq<char>) -> AuthMethod {
    if l == "certificate"@ {
        AuthMethod::Certificate
    } else if l == "usernamepassword"@ {
        AuthMethod::UsernamePassword
    } else if l == "oauth2"@ {
        AuthMethod::OAuth2
    } else if l == "saml"@ {
        AuthMethod::Saml
    } else if l == "psk"@ {
        AuthMethod::Psk
    } else {
        AuthMethod::Unknown
    }
}

/// The authentication result named by a lowercase text; unknown texts give `Unknown`.
pub open spec fn auth_result_from_lower(l: Seq<char>) -> AuthResult {
    if l == "success"@ {
        AuthResult::Success
    } else if l == "invalidcredentials"@ {
        AuthResult::InvalidCredentials
    } else if l == "expired"@ {
        AuthResult::Expired
    } else if l == "notauthorized"@ {
        AuthResult::NotAuthorized
    } else if l == "ratelimited"@ {
        AuthResult::RateLimited
    } else if l == "providererror"@ {
        AuthResult::ProviderError
    } else if l == "timeout"@ {
        AuthResult::Timeout
    } else {
        AuthResult::Unknown
    }
}

/// The disconnect reason named by a lowercase text; unknown texts give `Unknown`.
pub open spec fn disconnect_reason_from_lower(l: Seq<char>) -> DisconnectReason {
    if l == "clientdisconnect"@ {
        DisconnectReason::ClientDisconnect
    } else if l == "serverdisconnect"@ {
        DisconnectReason::ServerDisconnect
    } else if l == "idletimeout"@ {
        DisconnectReason::IdleTimeout
    } else if l == "sessiontimeout"@ {
        DisconnectReason::SessionTimeout
    } else if l == "authfailure"@ {
        DisconnectReason::AuthFailure
    } else if l == "protocolerror"@ {
        DisconnectReason::ProtocolError
    } else if l == "connectionreset"@ {
        DisconnectReason::ConnectionReset
    } else if l == "servershutdown"@ {
        DisconnectReason::ServerShutdown
    } else if l == "adminterminated"@ {
        DisconnectReason::AdminTerminated
    } else if l == "renegotiationfailure"@ {
        DisconnectReason::RenegotiationFailure
    } else {
        DisconnectReason::Unknown
    }
}

/// The `Debug` name of an authentication method.
pub fn auth_method_name(m: AuthMethod) -> (r: &'static str)
    ensures
        r@ == auth_method_text(m),
{
    match m {
        AuthMethod::Certificate => "Certificate",
        AuthMethod::UsernamePassword => "UsernamePassword",
        AuthMethod::OAuth2 => "OAuth2",
        AuthMethod::Saml => "Saml",
        AuthMethod::Psk => "Psk",
        AuthMethod::Unknown => "Unknown",
    }
}

/// The `Debug` name of an authentication result.
pub fn auth_result_name(r: AuthResult) -> (s: &'static str)
    ensures
        s@ == auth_result_text(r),
{
    match r {
        AuthResult::Success => "Success",
        AuthResult::InvalidCredentials => "InvalidCredentials",
        AuthResult::Expired => "Expired",
        AuthResult::NotAuthorized => "NotAuthorized",
        AuthResult::RateLimited => "RateLimited",
        AuthResult::ProviderError => "ProviderError",
        AuthResult::Timeout => "Timeout",
        AuthResult::Unknown => "Unknown",
    }
}

/// The `Debug` name of a disconnect reason.
pub fn disconnect_reason_name(r: DisconnectReason) -> (s: &'static str)
    ensures
        s@ == disconnect_reason_text(r),
{
    match r {
        DisconnectReason::ClientDisconnect => "ClientDisconnect",
        DisconnectReason::ServerDisconnect => "ServerDisconnect",
        DisconnectReason::IdleTimeout => "IdleTimeout",
        DisconnectReason::SessionTimeout => "SessionTimeout",
        DisconnectReason::AuthFailure => "AuthFailure",
        DisconnectReason::ProtocolError => "ProtocolError",
        DisconnectReason::ConnectionReset => "ConnectionReset",
        DisconnectReason::ServerShutdown => "ServerShutdown",
        DisconnectReason::AdminTerminated => "AdminTerminated",
        DisconnectReason::RenegotiationFailure => "RenegotiationFailure",
        DisconnectReason::Unknown => "Unknown",
    }
}

/// Parses a stored authentication method, ignoring case; unknown names give `Unknown`.
pub fn parse_auth_method(s: &str) -> (r: AuthMethod)
    ensures
        r == auth_method_from_lower(lower_of(s@)),
{
    let l = to_lowercase(s);
    let l = l.as_str();
    if str_eq(l, "certificate") {
        AuthMethod::Certificate
    } else if str_eq(l, "usernamepassword") {
        AuthMethod::UsernamePassword
    } else if str_eq(l, "oauth2") {
        AuthMethod::OAuth2
    } else if str_eq(l, "saml") {
        AuthMethod::Saml
    } else if str_eq(l, "psk") {
        AuthMethod::Psk
    } else {
        AuthMethod::Unknown
    }
}

/// Parses a stored authentication result, ignoring case; unknown names give `Unknown`.
pub fn parse_auth_result(s: &str) -> (r: AuthResult)
    ensures
        r == auth_result_from_lower(lower_of(s@)),
{
    let l = to_lowercase(s);
    let l = l.as_str();
    if str_eq(l, "success") {
        AuthResult::Success
    } else if str_eq(l, "invalidcredentials") {
        AuthResult::InvalidCredentials
    } else if str_eq(l, "expired") {
        AuthResult::Expired
    } else if str_eq(l, "notauthorized") {
        AuthResult::NotAuthorized
    } else if str_eq(l, "ratelimited") {
        AuthResult::RateLimited
    } else if str_eq(l, "providererror") {
        AuthResult::ProviderError
    } else if str_eq(l, "timeout") {
        AuthResult::Timeout
    } else {
        AuthResult::Unknown
    }
}

/// Parses a stored disconnect reason, ignoring case; unknown names give `Unknown`.
pub fn parse_disconnect_reason(s: &str) -> (r: DisconnectReason)
    ensures
        r == disconnect_reason_from_lower(lower_of(s@)),
{
    let l = to_lowercase(s);
    let l = l.as_str();
    if str_eq(l, "clientdisconnect") {
        DisconnectReason::ClientDisconnect
    } else if str_eq(l, "serverdisconnect") {
        DisconnectReason::ServerDisconnect
    } else if str_eq(l, "idletimeout") {
        DisconnectReason::IdleTimeout
    } else if str_eq(l, "sessiontimeout") {
        DisconnectReason::SessionTimeout
    } else if str_eq(l, "authfailure") {
        DisconnectReason::AuthFailure
    } else if str_eq(l, "protocolerror") {
        DisconnectReason::ProtocolError
    } else if str_eq(l, "connectionreset") {
        DisconnectReason::ConnectionReset
    } else if str_eq(l, "servershutdown") {
        DisconnectReason::ServerShutdown
    } else if str_eq(l, "adminterminated") {
        DisconnectReason::AdminTerminated
    } else if str_eq(l, "renegotiationfailure") {
        DisconnectReason::RenegotiationFailure
    } else {
        DisconnectReason::Unknown
    }
}

/// A copy of an optional string.
fn copy_opt(o: &Option<String>) -> (r: Option<String>)
    ensures
        r == *o,
{
    match o {
        Some(s) => Some(s.clone()),
        None => None,
    }
}

/// The text of an optional stored name; a NULL column reads as the empty text.
pub open spec fn text_or_empty(o: Option<String>) -> Seq<char> {
    match o {
        Some(s) => s@,
        None => seq![],
    }
}

/// The id column holds the identifier's hyphenated text and the time column the instant's
/// RFC 3339 text.
pub open spec fn stored_header(row: EventRow, connection_id: ConnectionId, timestamp: Timestamp) -> bool {
    row.connection_id@ == uuid_text(connection_id.0 as nat) && row.timestamp@ == rfc3339_text(timestamp.secs, timestamp.nanos)
}

/// The instant an RFC 3339 text is read back as: what chrono parses, when it is an instant
/// without leap-second nanoseconds in chrono's range.
pub open spec fn stored_instant(text: Seq<char>) -> Option<Timestamp> {
    match rfc3339_parsed(text) {
        Some((secs, nanos)) => if (Timestamp { secs, nanos }).wf() {
            Some(Timestamp { secs, nanos })
        } else {
            None
        },
        None => None,
    }
}

/// The row an event is stored as: its id, type name and time, and the columns of its kind;
/// all other columns are NULL.
pub open spec fn row_of_event(row: EventRow, e: ConnectionEvent) -> bool {
    match e {
        ConnectionEvent::ConnectionAttempt { connection_id, timestamp, client_addr, protocol_version } => {
            &&& row == EventRow { protocol_version, client_addr: Some(client_addr), ..empty_row(row) }
            &&& row.event_type@ == "connection_attempt"@
            &&& stored_header(row, connection_id, timestamp)
        },
        ConnectionEvent::Authentication { connection_id, timestamp, client_addr, username, auth_method, result, details } => {
            &&& row == EventRow {
                client_addr: Some(client_addr),
                username,
                auth_method: row.auth_method,
                auth_result: row.auth_result,
                details,
                ..empty_row(row)
            }
            &&& row.event_type@ == "authentication"@
            &&& stored_header(row, connection_id, timestamp)
            &&& opt_view(row.auth_method) == Some(auth_method_text(auth_method))
            &&& opt_view(row.auth_result) == Some(auth_result_text(result))
        },
        ConnectionEvent::Connected { connection_id, timestamp, client_addr, username, vpn_ip, auth_method, client_info } => {
            &&& row == EventRow {
                client_addr: Some(client_addr),
                username,
                vpn_ip: Some(vpn_ip),
                auth_method: row.auth_method,
                client_info,
                ..empty_row(row)
            }
            &&& row.event_type@ == "connected"@
            &&& stored_header(row, connection_id, timestamp)
            &&& opt_view(row.auth_method) == Some(auth_method_text(auth_method))
        },
        ConnectionEvent::Disconnected { connection_id, timestamp, client_addr, username, reason, duration, stats } => {
            &&& row == EventRow {
                client_addr: Some(client_addr),
                username,
                disconnect_reason: row.disconnect_reason,
                duration_secs: Some(duration.secs as i64),
                bytes_rx: match stats { Some(s) => Some(s.bytes_rx as i64), None => None },
                bytes_tx: match stats { Some(s) => Some(s.bytes_tx as i64), None => None },
                packets_rx: match stats { Some(s) => Some(s.packets_rx as i64), None => None },
                packets_tx: match stats { Some(s) => Some(s.packets_tx as i64), None => None },
                ..empty_row(row)
            }
            &&& row.event_type@ == "disconnected"@
            &&& stored_header(row, connection_id, timestamp)
            &&& opt_view(row.disconnect_reason) == Some(disconnect_reason_text(reason))
        },
        ConnectionEvent::IpChange { connection_id, timestamp, old_addr, new_addr, username } => {
            &&& row == EventRow {
                old_addr: Some(old_addr),
                new_addr: Some(new_addr),
                username,
                ..empty_row(row)
            }
            &&& row.event_type@ == "ip_change"@
            &&& stored_header(row, connection_id, timestamp)
        },
        ConnectionEvent::Renegotiation { connection_id, timestamp, client_addr, success } => {
            &&& row == EventRow {
                client_addr: Some(client_addr),
                success: Some(if success { 1i32 } else { 0i32 }),
                ..empty_row(row)
            }
            &&& row.event_type@ == "renegotiation"@
            &&& stored_header(row, connection_id, timestamp)
        },
    }
}

/// A row with the given row's id, type name and time, and every other column NULL.
pub open spec fn empty_row(row: EventRow) -> EventRow {
    EventRow {
        connection_id: row.connection_id,
        event_type: row.event_type,
        timestamp: row.timestamp,
        client_addr: None,
        username: None,
        vpn_ip: None,
        auth_method: None,
        auth_result: None,
        disconnect_reason: None,
        duration_secs: None,
        bytes_rx: None,
        bytes_tx: None,
        packets_rx: None,
        packets_tx: None,
        old_addr: None,
        new_addr: None,
        success: None,
        protocol_version: None,
        client_info: None,
        details: None,
    }
}

/// The event a row is read back as, or `None` when its identifier is not UUID text, its
/// time not RFC 3339 text of an instant, its type name unknown or a required address
/// missing.
pub open spec fn event_from_row(row: EventRow) -> Option<ConnectionEvent> {
    match (uuid_value_of(row.connection_id@), stored_instant(row.timestamp@)) {
        (Some(id), Some(ts)) => event_from_fields(row, ConnectionId(id), ts),
        _ => None,
    }
}

/// The event a row is read back as once its identifier and time are parsed, or `None` for an
/// unknown type name or a missing required address. Missing names read as `Unknown`, a
/// missing duration as zero, a missing success flag as false, and transfer statistics are
/// present when a byte count is.
pub open spec fn event_from_fields(row: EventRow, id: ConnectionId, ts: Timestamp) -> Option<ConnectionEvent> {
    let t = row.event_type@;
    if t == "connection_attempt"@ {
        match row.client_addr {
            Some(a) => Some(ConnectionEvent::ConnectionAttempt {
                connection_id: id,
                timestamp: ts,
                client_addr: a,
                protocol_version: row.protocol_version,
            }),
            None => None,
        }
    } else if t == "authentication"@ {
        match row.client_addr {
            Some(a) => Some(ConnectionEvent::Authentication {
                connection_id: id,
                timestamp: ts,
                client_addr: a,
                username: row.username,
                auth_method: auth_method_from_lower(lower_of(text_or_empty(row.auth_method))),
                result: auth_result_from_lower(lower_of(text_or_empty(row.auth_result))),
                details: row.details,
            }),
            None => None,
        }
    } else if t == "connected"@ {
        match (row.client_addr, row.vpn_ip) {
            (Some(a), Some(v)) => Some(ConnectionEvent::Connected {
                connection_id: id,
                timestamp: ts,
                client_addr: a,
                username: row.username,
                vpn_ip: v,
                auth_method: auth_method_from_lower(lower_of(text_or_empty(row.auth_method))),
                client_info: row.client_info,
            }),
            _ => None,
        }
    } else if t == "disconnected"@ {
        match row.client_addr {
            Some(a) => Some(ConnectionEvent::Disconnected {
                connection_id: id,
                timestamp: ts,
                client_addr: a,
                username: row.username,
                reason: disconnect_reason_from_lower(lower_of(text_or_empty(row.disconnect_reason))),
                duration: Duration {
                    secs: match row.duration_secs { Some(d) => d as u64, None => 0 },
                    nanos: 0,
                },
                stats: if row.bytes_rx is Some || row.bytes_tx is Some {
                    Some(TransferStats {
                        bytes_rx: stored_count(row.bytes_rx),
                        bytes_tx: stored_count(row.bytes_tx),
                        packets_rx: stored_count(row.packets_rx),
                        packets_tx: stored_count(row.packets_tx),
                    })
                } else {
                    None
                },
            }),
            None => None,
        }
    } else if t == "ip_change"@ {
        match (row.old_addr, row.new_addr) {
            (Some(o), Some(n)) => Some(ConnectionEvent::IpChange {
                connection_id: id,
                timestamp: ts,
                old_addr: o,
                new_addr: n,
                username: row.username,
            }),
            _ => None,
        }
    } else if t == "renegotiation"@ {
        match row.client_addr {
            Some(a) => Some(ConnectionEvent::Renegotiation {
                connection_id: id,
                timestamp: ts,
                client_addr: a,
                success: match row.success { Some(s) => s != 0, None => false },
            }),
            None => None,
        }
    } else {
        None
    }
}

/// A stored counter read back as unsigned (bit-for-bit); NULL reads as zero.
pub open spec fn stored_count(c: Option<i64>) -> u64 {
    match c {
        Some(x) => x as u64,
        None => 0,
    }
}

fn count_of(c: Option<i64>) -> (r: u64)
    ensures
        r == stored_count(c),
{
    match c {
        Some(x) => x as u64,
        None => 0,
    }
}

fn name_text(o: &Option<String>) -> (r: &str)
    ensures
        r@ == text_or_empty(*o),
{
    match o {
        Some(s) => s.as_str(),
        None => {
            proof {
                reveal_strlit("");
            }
            ""
        },
    }
}

/// The row an event is stored as.
pub fn row_of(event: &ConnectionEvent) -> (r: EventRow)
    requires
        event_timestamp(*event).wf(),
    ensures
        row_of_event(r, *event),
{
    match event {
        ConnectionEvent::ConnectionAttempt { connection_id, timestamp, client_addr, protocol_version } => {
            let mut r = blank_row(connection_id, "connection_attempt".to_owned(), timestamp);
            r.client_addr = Some(*client_addr);
            r.protocol_version = copy_opt(protocol_version);
            r
        },
        ConnectionEvent::Authentication { connection_id, timestamp, client_addr, username, auth_method, result, details } => {
            let mut r = blank_row(connection_id, "authentication".to_owned(), timestamp);
            r.client_addr = Some(*client_addr);
            r.username = copy_opt(username);
            r.auth_method = Some(auth_method_name(*auth_method).to_owned());
            r.auth_result = Some(auth_result_name(*result).to_owned());
            r.details = copy_opt(details);
            r
        },
        ConnectionEvent::Connected { connection_id, timestamp, client_addr, username, vpn_ip, auth_method, client_info } => {
            let mut r = blank_row(connection_id, "connected".to_owned(), timestamp);
            r.client_addr = Some(*client_addr);
            r.username = copy_opt(username);
            r.vpn_ip = Some(*vpn_ip);
            r.auth_method = Some(auth_method_name(*auth_method).to_owned());
            r.client_info = copy_opt(client_info);
            r
        },
        ConnectionEvent::Disconnected { connection_id, timestamp, client_addr, username, reason, duration, stats } => {
            let mut r = blank_row(connection_id, "disconnected".to_owned(), timestamp);
            r.client_addr = Some(*client_addr);
            r.username = copy_opt(username);
            r.disconnect_reason = Some(disconnect_reason_name(*reason).to_owned());
            r.duration_secs = Some(duration.secs as i64);
            match stats {
                Some(s) => {
                    r.bytes_rx = Some(s.bytes_rx as i64);
                    r.bytes_tx = Some(s.bytes_tx as i64);
                    r.packets_rx = Some(s.packets_rx as i64);
                    r.packets_tx = Some(s.packets_tx as i64);
                },
                None => {},
            }
            r
        },
        ConnectionEvent::IpChange { connection_id, timestamp, old_addr, new_addr, username } => {
            let mut r = blank_row(connection_id, "ip_change".to_owned(), timestamp);
            r.old_addr = Some(*old_addr);
            r.new_addr = Some(*new_addr);
            r.username = copy_opt(username);
            r
        },
        ConnectionEvent::Renegotiation { connection_id, timestamp, client_addr, success } => {
            let mut r = blank_row(connection_id, "renegotiation".to_owned(), timestamp);
            r.client_addr = Some(*client_addr);
            r.success = Some(if *success { 1i32 } else { 0i32 });
            r
        },
    }
}

fn blank_row(connection_id: &ConnectionId, event_type: String, timestamp: &Timestamp) -> (r: EventRow)
    requires
        timestamp.wf(),
    ensures
        r == empty_row(r),
        r.event_type == event_type,
        stored_header(r, *connection_id, *timestamp),
{
    EventRow {
        connection_id: connection_id.to_text(),
        event_type,
        timestamp: rfc3339(timestamp),
        client_addr: None,
        username: None,
        vpn_ip: None,
        auth_method: None,
        auth_result: None,
        disconnect_reason: None,
        duration_secs: None,
        bytes_rx: None,
        bytes_tx: None,
        packets_rx: None,
        packets_tx: None,
        old_addr: None,
        new_addr: None,
        success: None,
        protocol_version: None,
        client_info: None,
        details: None,
    }
}

/// The instant an RFC 3339 text is read back as.
pub fn instant_of_text(text: &str) -> (r: Option<Timestamp>)
    ensures
        r == stored_instant(text@),
{
    match parse_rfc3339(text) {
        Some((secs, nanos)) => {
            let t = Timestamp { secs, nanos };
            if crate::clock::MIN_SECS <= secs && secs <= crate::clock::MAX_SECS && nanos < 1_000_000_000 {
                Some(t)
            } else {
                None
            }
        },
        None => None,
    }
}

/// The event a row is read back as.
pub fn event_of_row(row: &EventRow) -> (r: Option<ConnectionEvent>)
    ensures
        r == event_from_row(*row),
{
    let id = match parse_uuid(row.connection_id.as_str()) {
        Some(v) => ConnectionId(v),
        None => return None,
    };
    let ts = match instant_of_text(row.timestamp.as_str()) {
        Some(t) => t,
        None => return None,
    };
    event_of_fields(row, id, ts)
}

fn event_of_fields(row: &EventRow, id: ConnectionId, ts: Timestamp) -> (r: Option<ConnectionEvent>)
    ensures
        r == event_from_fields(*row, id, ts),
{
    let t = row.event_type.as_str();
    if str_eq(t, "connection_attempt") {
        match row.client_addr {
            Some(a) => Some(ConnectionEvent::ConnectionAttempt {
                connection_id: id,
                timestamp: ts,
                client_addr: a,
                protocol_version: copy_opt(&row.protocol_version),
            }),
            None => None,
        }
    } else if str_eq(t, "authentication") {
        match row.client_addr {
            Some(a) => Some(ConnectionEvent::Authentication {
                connection_id: id,
                timestamp: ts,
                client_addr: a,
                username: copy_opt(&row.username),
                auth_method: parse_auth_method(name_text(&row.auth_method)),
                result: parse_auth_result(name_text(&row.auth_result)),
                details: copy_opt(&row.details),
            }),
            None => None,
        }
    } else if str_eq(t, "connected") {
        match (row.client_addr, row.vpn_ip) {
            (Some(a), Some(v)) => Some(ConnectionEvent::Connected {
                connection_id: id,
                timestamp: ts,
                client_addr: a,
                username: copy_opt(&row.username),
                vpn_ip: v,
                auth_method: parse_auth_method(name_text(&row.auth_method)),
                client_info: copy_opt(&row.client_info),
            }),
            _ => None,
        }
    } else if str_eq(t, "disconnected") {
        match row.client_addr {
            Some(a) => {
                let secs: u64 = match row.duration_secs {
                    Some(d) => d as u64,
                    None => 0,
                };
                let stats = if row.bytes_rx.is_some() || row.bytes_tx.is_some() {
                    Some(TransferStats {
                        bytes_rx: count_of(row.bytes_rx),
                        bytes_tx: count_of(row.bytes_tx),
                        packets_rx: count_of(row.packets_rx),
                        packets_tx: count_of(row.packets_tx),
                    })
                } else {
                    None
                };
                Some(ConnectionEvent::Disconnected {
                    connection_id: id,
                    timestamp: ts,
                    client_addr: a,
                    username: copy_opt(&row.username),
                    reason: parse_disconnect_reason(name_text(&row.disconnect_reason)),
                    duration: Duration { secs, nanos: 0 },
                    stats,
                })
            },
            None => None,
        }
    } else if str_eq(t, "ip_change") {
        match (row.old_addr, row.new_addr) {
            (Some(o), Some(n)) => Some(ConnectionEvent::IpChange {
                connection_id: id,
                timestamp: ts,
                old_addr: o,
                new_addr: n,
                username: copy_opt(&row.username),
            }),
            _ => None,
        }
    } else if str_eq(t, "renegotiation") {
        match row.client_addr {
            Some(a) => Some(ConnectionEvent::Renegotiation {
                connection_id: id,
                timestamp: ts,
                client_addr: a,
                success: match row.success {
                    Some(s) => s != 0,
                    None => false,
                },
            }),
            None => None,
        }
    } else {
        None
    }
}

/// The event as it comes back from storage: only whole seconds of a session's duration are
/// kept.
pub open spec fn stored_form(e: ConnectionEvent) -> ConnectionEvent {
    match e {
        ConnectionEvent::Disconnected { connection_id, timestamp, client_addr, username, reason, duration, stats } =>
            ConnectionEvent::Disconnected {
                connection_id,
                timestamp,
                client_addr,
                username,
                reason,
                duration: Duration { secs: duration.secs, nanos: 0 },
                stats,
            },
        _ => e,
    }
}

proof fn lemma_lower(name: Seq<char>, lower: Seq<char>)
    requires
        name.len() == lower.len(),
        forall|i: int| 0 <= i < name.len() ==> (#[trigger] name[i] as u32) < 128,
        forall|i: int| 0 <= i < name.len() ==> ascii_lower_char(#[trigger] name[i]) == lower[i],
    ensures
        lower_of(name) == lower,
{
    assert(is_ascii_text(name));
    assert forall|i: int| 0 <= i < name.len() implies ascii_lower(name)[i] == lower[i] by {
        assert(ascii_lower_char(name[i]) == lower[i]);
    }
    assert(ascii_lower(name) =~= lower);
}

proof fn lemma_auth_method_round_trip(x: AuthMethod)
    ensures
        auth_method_from_lower(lower_of(auth_method_text(x))) == x,
{
    reveal_strlit("Certificate");
    reveal_strlit("UsernamePassword");
    reveal_strlit("OAuth2");
    reveal_strlit("Saml");
    reveal_strlit("Psk");
    reveal_strlit("Unknown");
    reveal_strlit("saml");
    reveal_strlit("psk");
    reveal_strlit("unknown");
    reveal_strlit("usernamepassword");
    reveal_strlit("oauth2");
    reveal_strlit("certificate");
    match x {
        AuthMethod::Certificate => {
            lemma_lower("Certificate"@, "certificate"@);
        },
        AuthMethod::UsernamePassword => {
            lemma_lower("UsernamePassword"@, "usernamepassword"@);
            assert(("usernamepassword"@).len() != ("certificate"@).len());
        },
        AuthMethod::OAuth2 => {
            lemma_lower("OAuth2"@, "oauth2"@);
            assert(("oauth2"@).len() != ("certificate"@).len());
            assert(("oauth2"@).len() != ("usernamepassword"@).len());
        },
        AuthMethod::Saml => {
            lemma_lower("Saml"@, "saml"@);
            assert(("saml"@).len() != ("certificate"@).len());
            assert(("saml"@).len() != ("usernamepassword"@).len());
            assert(("saml"@).len() != ("oauth2"@).len());
        },
        AuthMethod::Psk => {
            lemma_lower("Psk"@, "psk"@);
            assert(("psk"@).len() != ("certificate"@).len());
            assert(("psk"@).len() != ("usernamepassword"@).len());
            assert(("psk"@).len() != ("oauth2"@).len());
            assert(("psk"@).len() != ("saml"@).len());
        },
        AuthMethod::Unknown => {
            lemma_lower("Unknown"@, "unknown"@);
            assert(("unknown"@).len() != ("certificate"@).len());
            assert(("unknown"@).len() != ("usernamepassword"@).len());
            assert(("unknown"@).len() != ("oauth2"@).len());
            assert(("unknown"@).len() != ("saml"@).len());
            assert(("unknown"@).len() != ("psk"@).len());
        },
    }
}

proof fn lemma_auth_result_round_trip(x: AuthResult)
    ensures
        auth_result_from_lower(lower_of(auth_result_text(x))) == x,
{
    reveal_strlit("Success");
    reveal_strlit("InvalidCredentials");
    reveal_strlit("Expired");
    reveal_strlit("NotAuthorized");
    reveal_strlit("RateLimited");
    reveal_strlit("ProviderError");
    reveal_strlit("Timeout");
    reveal_strlit("Unknown");
    reveal_strlit("invalidcredentials");
    reveal_strlit("unknown");
    reveal_strlit("expired");
    reveal_strlit("timeout");
    reveal_strlit("success");
    reveal_strlit("notauthorized");
    reveal_strlit("providererror");
    reveal_strlit("ratelimited");
    match x {
        AuthResult::Success => {
            lemma_lower("Success"@, "success"@);
        },
        AuthResult::InvalidCredentials => {
            lemma_lower("InvalidCredentials"@, "invalidcredentials"@);
            assert(("invalidcredentials"@).len() != ("success"@).len());
        },
        AuthResult::Expired => {
            lemma_lower("Expired"@, "expired"@);
            assert(("expired"@)[0] != ("success"@)[0]);
            assert(("expired"@).len() != ("invalidcredentials"@).len());
        },
        AuthResult::NotAuthorized => {
            lemma_lower("NotAuthorized"@, "notauthorized"@);
            assert(("notauthorized"@).len() != ("success"@).len());
            assert(("notauthorized"@).len() != ("invalidcredentials"@).len());
            assert(("notauthorized"@).len() != ("expired"@).len());
        },
        AuthResult::RateLimited => {
            lemma_lower("RateLimited"@, "ratelimited"@);
            assert(("ratelimited"@).len() != ("success"@).len());
            assert(("ratelimited"@).len() != ("invalidcredentials"@).len());
            assert(("ratelimited"@).len() != ("expired"@).len());
            assert(("ratelimited"@).len() != ("notauthorized"@).len());
        },
        AuthResult::ProviderError => {
            lemma_lower("ProviderError"@, "providererror"@);
            assert(("providererror"@).len() != ("success"@).len());
            assert(("providererror"@).len() != ("invalidcredentials"@).len());
            assert(("providererror"@).len() != ("expired"@).len());
            assert(("providererror"@)[0] != ("notauthorized"@)[0]);
            assert(("providererror"@).len() != ("ratelimited"@).len());
        },
        AuthResult::Timeout => {
            lemma_lower("Timeout"@, "timeout"@);
            assert(("timeout"@)[0] != ("success"@)[0]);
            assert(("timeout"@).len() != ("invalidcredentials"@).len());
            assert(("timeout"@)[0] != ("expired"@)[0]);
            assert(("timeout"@).len() != ("notauthorized"@).len());
            assert(("timeout"@).len() != ("ratelimited"@).len());
            assert(("timeout"@).len() != ("providererror"@).len());
        },
        AuthResult::Unknown => {
            lemma_lower("Unknown"@, "unknown"@);
            assert(("unknown"@)[0] != ("success"@)[0]);
            assert(("unknown"@).len() != ("invalidcredentials"@).len());
            assert(("unknown"@)[0] != ("expired"@)[0]);
            assert(("unknown"@).len() != ("notauthorized"@).len());
            assert(("unknown"@).len() != ("ratelimited"@).len());
            assert(("unknown"@).len() != ("providererror"@).len());
            assert(("unknown"@)[0] != ("timeout"@)[0]);
        },
    }
}

proof fn lemma_disconnect_reason_round_trip(x: DisconnectReason)
    ensures
        disconnect_reason_from_lower(lower_of(disconnect_reason_text(x))) == x,
{
    reveal_strlit("ClientDisconnect");
    reveal_strlit("ServerDisconnect");
    reveal_strlit("IdleTimeout");
    reveal_strlit("SessionTimeout");
    reveal_strlit("AuthFailure");
    reveal_strlit("ProtocolError");
    reveal_strlit("ConnectionReset");
    reveal_strlit("ServerShutdown");
    reveal_strlit("AdminTerminated");
    reveal_strlit("RenegotiationFailure");
    reveal_strlit("Unknown");
    reveal_strlit("connectionreset");
    reveal_strlit("servershutdown");
    reveal_strlit("protocolerror");
    reveal_strlit("sessiontimeout");
    reveal_strlit("idletimeout");
    reveal_strlit("unknown");
    reveal_strlit("serverdisconnect");
    reveal_strlit("adminterminated");
    reveal_strlit("renegotiationfailure");
    reveal_strlit("clientdisconnect");
    reveal_strlit("authfailure");
    match x {
        DisconnectReason::ClientDisconnect => {
            lemma_lower("ClientDisconnect"@, "clientdisconnect"@);
        },
        DisconnectReason::ServerDisconnect => {
            lemma_lower("ServerDisconnect"@, "serverdisconnect"@);
            assert(("serverdisconnect"@)[0] != ("clientdisconnect"@)[0]);
        },
        DisconnectReason::IdleTimeout => {
            lemma_lower("IdleTimeout"@, "idletimeout"@);
            assert(("idletimeout"@).len() != ("clientdisconnect"@).len());
            assert(("idletimeout"@).len() != ("serverdisconnect"@).len());
        },
        DisconnectReason::SessionTimeout => {
            lemma_lower("SessionTimeout"@, "sessiontimeout"@);
            assert(("sessiontimeout"@).len() != ("clientdisconnect"@).len());
            assert(("sessiontimeout"@).len() != ("serverdisconnect"@).len());
            assert(("sessiontimeout"@).len() != ("idletimeout"@).len());
        },
        DisconnectReason::AuthFailure => {
            lemma_lower("AuthFailure"@, "authfailure"@);
            assert(("authfailure"@).len() != ("clientdisconnect"@).len());
            assert(("authfailure"@).len() != ("serverdisconnect"@).len());
            assert(("authfailure"@)[0] != ("idletimeout"@)[0]);
            assert(("authfailure"@).len() != ("sessiontimeout"@).len());
        },
        DisconnectReason::ProtocolError => {
            lemma_lower("ProtocolError"@, "protocolerror"@);
            assert(("protocolerror"@).len() != ("clientdisconnect"@).len());
            assert(("protocolerror"@).len() != ("serverdisconnect"@).len());
            assert(("protocolerror"@).len() != ("idletimeout"@).len());
            assert(("protocolerror"@).len() != ("sessiontimeout"@).len());
            assert(("protocolerror"@).len() != ("authfailure"@).len());
        },
        DisconnectReason::ConnectionReset => {
            lemma_lower("ConnectionReset"@, "connectionreset"@);
            assert(("connectionreset"@).len() != ("clientdisconnect"@).len());
            assert(("connectionreset"@).len() != ("serverdisconnect"@).len());
            assert(("connectionreset"@).len() != ("idletimeout"@).len());
            assert(("connectionreset"@).len() != ("sessiontimeout"@).len());
            assert(("connectionreset"@).len() != ("authfailure"@).len());
            assert(("connectionreset"@).len() != ("protocolerror"@).len());
        },
        DisconnectReason::ServerShutdown => {
            lemma_lower("ServerShutdown"@, "servershutdown"@);
            assert(("servershutdown"@).len() != ("clientdisconnect"@).len());
            assert(("servershutdown"@).len() != ("serverdisconnect"@).len());
            assert(("servershutdown"@).len() != ("idletimeout"@).len());
            assert(("servershutdown"@)[2] != ("sessiontimeout"@)[2]);
            assert(("servershutdown"@).len() != ("authfailure"@).len());
            assert(("servershutdown"@).len() != ("protocolerror"@).len());
            assert(("servershutdown"@).len() != ("connectionreset"@).len());
        },
        DisconnectReason::AdminTerminated => {
            lemma_lower("AdminTerminated"@, "adminterminated"@);
            assert(("adminterminated"@).len() != ("clientdisconnect"@).len());
            assert(("adminterminated"@).len() != ("serverdisconnect"@).len());
            assert(("adminterminated"@).len() != ("idletimeout"@).len());
            assert(("adminterminated"@).len() != ("sessiontimeout"@).len());
            assert(("adminterminated"@).len() != ("authfailure"@).len());
            assert(("adminterminated"@).len() != ("protocolerror"@).len());
            assert(("adminterminated"@)[0] != ("connectionreset"@)[0]);
            assert(("adminterminated"@).len() != ("servershutdown"@).len());
        },
        DisconnectReason::RenegotiationFailure => {
            lemma_lower("RenegotiationFailure"@, "renegotiationfailure"@);
            assert(("renegotiationfailure"@).len() != ("clientdisconnect"@).len());
            assert(("renegotiationfailure"@).len() != ("serverdisconnect"@).len());
            assert(("renegotiationfailure"@).len() != ("idletimeout"@).len());
            assert(("renegotiationfailure"@).len() != ("sessiontimeout"@).len());
            assert(("renegotiationfailure"@).len() != ("authfailure"@).len());
            assert(("renegotiationfailure"@).len() != ("protocolerror"@).len());
            assert(("renegotiationfailure"@).len() != ("connectionreset"@).len());
            assert(("renegotiationfailure"@).len() != ("servershutdown"@).len());
            assert(("renegotiationfailure"@).len() != ("adminterminated"@).len());
        },
        DisconnectReason::Unknown => {
            lemma_lower("Unknown"@, "unknown"@);
            assert(("unknown"@).len() != ("clientdisconnect"@).len());
            assert(("unknown"@).len() != ("serverdisconnect"@).len());
            assert(("unknown"@).len() != ("idletimeout"@).len());
            assert(("unknown"@).len() != ("sessiontimeout"@).len());
            assert(("unknown"@).len() != ("authfailure"@).len());
            assert(("unknown"@).len() != ("protocolerror"@).len());
            assert(("unknown"@).len() != ("connectionreset"@).len());
            assert(("unknown"@).len() != ("servershutdown"@).len());
            assert(("unknown"@).len() != ("adminterminated"@).len());
            assert(("unknown"@).len() != ("renegotiationfailure"@).len());
        },
    }
}

/// Storing an event and reading the row back gives the event again, except that a session's
/// duration keeps only its whole seconds; this holds whenever `uuid` reads the identifier's
/// text back as the identifier and chrono reads the time's text back as the instant (see
/// `parse_uuid` and `parse_rfc3339` for when they do).
pub proof fn law_row_round_trip(row: EventRow, e: ConnectionEvent)
    requires
        row_of_event(row, e),
        uuid_value_of(uuid_text(event_connection_id(e).0 as nat)) == Some(event_connection_id(e).0),
        rfc3339_parsed(rfc3339_text(event_timestamp(e).secs, event_timestamp(e).nanos)) == Some(
            (event_timestamp(e).secs, event_timestamp(e).nanos),
        ),
        event_timestamp(e).wf(),
    ensures
        event_from_row(row) == Some(stored_form(e)),
{
    reveal_strlit("connection_attempt");
    reveal_strlit("authentication");
    reveal_strlit("connected");
    reveal_strlit("disconnected");
    reveal_strlit("ip_change");
    reveal_strlit("renegotiation");
    match e {
        ConnectionEvent::ConnectionAttempt { .. } => {},
        ConnectionEvent::Authentication { auth_method, result, .. } => {
            lemma_auth_method_round_trip(auth_method);
            lemma_auth_result_round_trip(result);
            assert(("authentication"@).len() != ("connection_attempt"@).len());
        },
        ConnectionEvent::Connected { auth_method, .. } => {
            lemma_auth_method_round_trip(auth_method);
            assert(("connected"@).len() != ("connection_attempt"@).len());
            assert(("connected"@).len() != ("authentication"@).len());
        },
        ConnectionEvent::Disconnected { reason, duration, stats, .. } => {
            lemma_disconnect_reason_round_trip(reason);
            assert(("disconnected"@).len() != ("connection_attempt"@).len());
            assert(("disconnected"@).len() != ("authentication"@).len());
            assert(("disconnected"@).len() != ("connected"@).len());
            let secs = duration.secs;
            assert((secs as i64) as u64 == secs) by (bit_vector);
            match stats {
                Some(s) => {
                    let (a, b, c, d) = (s.bytes_rx, s.bytes_tx, s.packets_rx, s.packets_tx);
                    assert((a as i64) as u64 == a) by (bit_vector);
                    assert((b as i64) as u64 == b) by (bit_vector);
                    assert((c as i64) as u64 == c) by (bit_vector);
                    assert((d as i64) as u64 == d) by (bit_vector);
                },
                None => {},
            }
        },
        ConnectionEvent::IpChange { .. } => {
            assert(("ip_change"@).len() != ("connection_attempt"@).len());
            assert(("ip_change"@).len() != ("authentication"@).len());
            assert(("ip_change"@)[0] != ("connected"@)[0]);
            assert(("ip_change"@).len() != ("disconnected"@).len());
        },
        ConnectionEvent::Renegotiation { .. } => {
            assert(("renegotiation"@).len() != ("connection_attempt"@).len());
            assert(("renegotiation"@).len() != ("authentication"@).len());
            assert(("renegotiation"@).len() != ("connected"@).len());
            assert(("renegotiation"@).len() != ("disconnected"@).len());
            assert(("renegotiation"@).len() != ("ip_change"@).len());
        },
    }
}

} // verus!
