//! Connection event types: everything the connection log records about a VPN session.

use vstd::prelude::*;
use crate::clock::{now, Timestamp};
use crate::ids::{is_v4_uuid, random_uuid, uuid_text, uuid_to_string};

verus! {

/// Unique identifier for a connection session (the 128-bit value of a UUID).
#[derive(Clone, Copy, Debug, PartialEq, Eq, Hash, Structural)]
pub struct ConnectionId(pub u128);

impl ConnectionId {
    /// A fresh random identifier (`Uuid::new_v4`).
    pub fn new() -> (r: Self)
        ensures
            is_v4_uuid(r.0),
    {
        ConnectionId(random_uuid())
    }

    /// The hyphenated text of the identifier, as `Display` prints it.
    pub fn to_text(&self) -> (s: String)
        ensures
            s@ == uuid_text(self.0 as nat),
    {
        uuid_to_string(self.0)
    }
}

/// An IP address as its big-endian integer value (the address's octets read most significant
/// first): 32 bits for IPv4, 128 bits for IPv6.
#[derive(Clone, Copy, Debug, PartialEq, Eq, Structural)]
pub enum IpAddress {
    V4(u32),
    V6(u128),
}

/// A socket address: an IP address and a port.
#[derive(Clone, Copy, Debug, PartialEq, Eq, Structural)]
pub struct SocketAddress {
    pub ip: IpAddress,
    pub port: u16,
}

/// A span of time: whole seconds and the nanoseconds past them.
#[derive(Clone, Copy, Debug, PartialEq, Eq, Structural)]
pub struct Duration {
    pub secs: u64,
    pub nanos: u32,
}

/// Authentication method used.
#[derive(Clone, Copy, Debug, PartialEq, Eq, Structural)]
pub enum AuthMethod {
    /// Certificate-based authentication
    Certificate,
    /// Username/password
    UsernamePassword,
    /// OAuth2/OIDC
    OAuth2,
    /// SAML
    Saml,
    /// Pre-shared key
    Psk,
    /// Unknown/not yet determined
    Unknown,
}

impl Default for AuthMethod {
    fn default() -> (r: Self)
        ensures
            r == AuthMethod::Unknown,
    {
        AuthMethod::Unknown
    }
}

/// Reason for disconnection.
#[derive(Clone, Copy, Debug, PartialEq, Eq, Structural)]
pub enum DisconnectReason {
    /// Client initiated clean disconnect
    ClientDisconnect,
    /// Server initiated disconnect
    ServerDisconnect,
    /// Idle timeout
    IdleTimeout,
    /// Session timeout (max duration)
    SessionTimeout,
    /// Authentication failure
    AuthFailure,
    /// Protocol error
    ProtocolError,
    /// Connection reset
    ConnectionReset,
    /// Server shutdown
    ServerShutdown,
    /// Admin terminated
    AdminTerminated,
    /// Key renegotiation failure
    RenegotiationFailure,
    /// Unknown reason
    Unknown,
}

impl Default for DisconnectReason {
    fn default() -> (r: Self)
        ensures
            r == DisconnectReason::Unknown,
    {
        DisconnectReason::Unknown
    }
}

/// Authentication result.
#[derive(Clone, Copy, Debug, PartialEq, Eq, Structural)]
pub enum AuthResult {
    /// Authentication succeeded
    Success,
    /// Invalid credentials
    InvalidCredentials,
    /// Expired credentials/certificate
    Expired,
    /// User not authorized (valid creds but not permitted)
    NotAuthorized,
    /// Rate limited
    RateLimited,
    /// Provider error (OAuth2/SAML)
    ProviderError,
    /// Timeout during authentication
    Timeout,
    /// Unknown failure
    Unknown,
}

/// Data transfer statistics.
#[derive(Clone, Copy, Debug, PartialEq, Eq, Structural)]
pub struct TransferStats {
    /// Bytes received from client
    pub bytes_rx: u64,
    /// Bytes sent to client
    pub bytes_tx: u64,
    /// Packets received from client
    pub packets_rx: u64,
    /// Packets sent to client
    pub packets_tx: u64,
}

impl Default for TransferStats {
    fn default() -> (r: Self)
        ensures
            r == (TransferStats { bytes_rx: 0, bytes_tx: 0, packets_rx: 0, packets_tx: 0 }),
    {
        TransferStats { bytes_rx: 0, bytes_tx: 0, packets_rx: 0, packets_tx: 0 }
    }
}

impl TransferStats {
    /// Total bytes in both directions.
    pub fn total_bytes(&self) -> (r: u64)
        requires
            self.bytes_rx + self.bytes_tx <= u64::MAX,
        ensures
            r == self.bytes_rx + self.bytes_tx,
    {
        self.bytes_rx + self.bytes_tx
    }

    /// Total packets in both directions.
    pub fn total_packets(&self) -> (r: u64)
        requires
            self.packets_rx + self.packets_tx <= u64::MAX,
        ensures
            r == self.packets_rx + self.packets_tx,
    {
        self.packets_rx + self.packets_tx
    }
}

/// A connection event that can be logged.
#[derive(Clone, Debug)]
pub enum ConnectionEvent {
    /// Initial connection attempt (before authentication)
    ConnectionAttempt {
        connection_id: ConnectionId,
        timestamp: Timestamp,
        client_addr: SocketAddress,
        protocol_version: Option<String>,
    },
    /// Authentication event
    Authentication {
        connection_id: ConnectionId,
        timestamp: Timestamp,
        client_addr: SocketAddress,
        username: Option<String>,
        auth_method: AuthMethod,
        result: AuthResult,
        details: Option<String>,
    },
    /// Successful connection established
    Connected {
        connection_id: ConnectionId,
        timestamp: Timestamp,
        client_addr: SocketAddress,
        username: Option<String>,
        vpn_ip: IpAddress,
        auth_method: AuthMethod,
        client_info: Option<String>,
    },
    /// Client disconnected
    Disconnected {
        connection_id: ConnectionId,
        timestamp: Timestamp,
        client_addr: SocketAddress,
        username: Option<String>,
        reason: DisconnectReason,
        duration: Duration,
        stats: Option<TransferStats>,
    },
    /// Client IP address changed (reconnected from different IP)
    IpChange {
        connection_id: ConnectionId,
        timestamp: Timestamp,
        old_addr: SocketAddress,
        new_addr: SocketAddress,
        username: Option<String>,
    },
    /// Key renegotiation event
    Renegotiation {
        connection_id: ConnectionId,
        timestamp: Timestamp,
        client_addr: SocketAddress,
        success: bool,
    },
}

/// The connection identifier of an event.
pub open spec fn event_connection_id(e: ConnectionEvent) -> ConnectionId {
    match e {
        ConnectionEvent::ConnectionAttempt { connection_id, .. } => connection_id,
        ConnectionEvent::Authentication { connection_id, .. } => connection_id,
        ConnectionEvent::Connected { connection_id, .. } => connection_id,
        ConnectionEvent::Disconnected { connection_id, .. } => connection_id,
        ConnectionEvent::IpChange { connection_id, .. } => connection_id,
        ConnectionEvent::Renegotiation { connection_id, .. } => connection_id,
    }
}

/// The timestamp of an event.
pub open spec fn event_timestamp(e: ConnectionEvent) -> Timestamp {
    match e {
        ConnectionEvent::ConnectionAttempt { timestamp, .. } => timestamp,
        ConnectionEvent::Authentication { timestamp, .. } => timestamp,
        ConnectionEvent::Connected { timestamp, .. } => timestamp,
        ConnectionEvent::Disconnected { timestamp, .. } => timestamp,
        ConnectionEvent::IpChange { timestamp, .. } => timestamp,
        ConnectionEvent::Renegotiation { timestamp, .. } => timestamp,
    }
}

/// The `event_type` tag of an event.
pub open spec fn event_type_name(e: ConnectionEvent) -> Seq<char> {
    match e {
        ConnectionEvent::ConnectionAttempt { .. } => "connection_attempt"@,
        ConnectionEvent::Authentication { .. } => "authentication"@,
        ConnectionEvent::Connected { .. } => "connected"@,
        ConnectionEvent::Disconnected { .. } => "disconnected"@,
        ConnectionEvent::IpChange { .. } => "ip_change"@,
        ConnectionEvent::Renegotiation { .. } => "renegotiation"@,
    }
}

/// The client address of an event (the new address for an address change).
pub open spec fn event_client_addr(e: ConnectionEvent) -> SocketAddress {
    match e {
        ConnectionEvent::ConnectionAttempt { client_addr, .. } => client_addr,
        ConnectionEvent::Authentication { client_addr, .. } => client_addr,
        ConnectionEvent::Connected { client_addr, .. } => client_addr,
        ConnectionEvent::Disconnected { client_addr, .. } => client_addr,
        ConnectionEvent::IpChange { new_addr, .. } => new_addr,
        ConnectionEvent::Renegotiation { client_addr, .. } => client_addr,
    }
}

impl ConnectionEvent {
    /// Get the connection ID for this event.
    pub fn connection_id(&self) -> (r: ConnectionId)
        ensures
            r == event_connection_id(*self),
    {
        match self {
            ConnectionEvent::ConnectionAttempt { connection_id, .. } => *connection_id,
            ConnectionEvent::Authentication { connection_id, .. } => *connection_id,
            ConnectionEvent::Connected { connection_id, .. } => *connection_id,
            ConnectionEvent::Disconnected { connection_id, .. } => *connection_id,
            ConnectionEvent::IpChange { connection_id, .. } => *connection_id,
            ConnectionEvent::Renegotiation { connection_id, .. } => *connection_id,
        }
    }

    /// Get the timestamp for this event.
    pub fn timestamp(&self) -> (r: Timestamp)
        ensures
            r == event_timestamp(*self),
    {
        match self {
            ConnectionEvent::ConnectionAttempt { timestamp, .. } => *timestamp,
            ConnectionEvent::Authentication { timestamp, .. } => *timestamp,
            ConnectionEvent::Connected { timestamp, .. } => *timestamp,
            ConnectionEvent::Disconnected { timestamp, .. } => *timestamp,
            ConnectionEvent::IpChange { timestamp, .. } => *timestamp,
            ConnectionEvent::Renegotiation { timestamp, .. } => *timestamp,
        }
    }

    /// Get the event type as a string.
    pub fn event_type(&self) -> (r: &'static str)
        ensures
            r@ == event_type_name(*self),
    {
        match self {
            ConnectionEvent::ConnectionAttempt { .. } => "connection_attempt",
            ConnectionEvent::Authentication { .. } => "authentication",
            ConnectionEvent::Connected { .. } => "connected",
            ConnectionEvent::Disconnected { .. } => "disconnected",
            ConnectionEvent::IpChange { .. } => "ip_change",
            ConnectionEvent::Renegotiation { .. } => "renegotiation",
        }
    }

    /// Get the client address for this event (every event carries one).
    pub fn client_addr(&self) -> (r: Option<SocketAddress>)
        ensures
            r == Some(event_client_addr(*self)),
    {
        match self {
            ConnectionEvent::ConnectionAttempt { client_addr, .. } => Some(*client_addr),
            ConnectionEvent::Authentication { client_addr, .. } => Some(*client_addr),
            ConnectionEvent::Connected { client_addr, .. } => Some(*client_addr),
            ConnectionEvent::Disconnected { client_addr, .. } => Some(*client_addr),
            ConnectionEvent::IpChange { new_addr, .. } => Some(*new_addr),
            ConnectionEvent::Renegotiation { client_addr, .. } => Some(*client_addr),
        }
    }
}

/// Builder for creating connection events.
pub struct ConnectionEventBuilder {
    pub connection_id: ConnectionId,
}

impl ConnectionEventBuilder {
    /// A builder for a new connection with a fresh random identifier.
    pub fn new() -> (r: Self)
        ensures
            is_v4_uuid(r.connection_id.0),
    {
        ConnectionEventBuilder { connection_id: ConnectionId::new() }
    }

    /// A builder for an existing connection.
    pub fn with_id(connection_id: ConnectionId) -> (r: Self)
        ensures
            r.connection_id == connection_id,
    {
        ConnectionEventBuilder { connection_id }
    }

    /// The identifier the events will carry.
    pub fn connection_id(&self) -> (r: ConnectionId)
        ensures
            r == self.connection_id,
    {
        self.connection_id
    }

    /// A connection attempt, stamped now.
    pub fn attempt(self, client_addr: SocketAddress) -> (e: ConnectionEvent)
        ensures
            e matches ConnectionEvent::ConnectionAttempt {
                connection_id,
                timestamp,
                client_addr: a,
                protocol_version,
            } && connection_id == self.connection_id && timestamp.wf() && a == client_addr
                && protocol_version is None,
    {
        ConnectionEvent::ConnectionAttempt {
            connection_id: self.connection_id,
            timestamp: now(),
            client_addr,
            protocol_version: None,
        }
    }

    /// An authentication result, stamped now.
    pub fn authentication(
        self,
        client_addr: SocketAddress,
        username: Option<String>,
        auth_method: AuthMethod,
        result: AuthResult,
    ) -> (e: ConnectionEvent)
        ensures
            e matches ConnectionEvent::Authentication {
                connection_id,
                timestamp,
                client_addr: a,
                username: u,
                auth_method: m,
                result: res,
                details,
            } && connection_id == self.connection_id && timestamp.wf() && a == client_addr && u
                == username && m == auth_method && res == result && details is None,
    {
        ConnectionEvent::Authentication {
            connection_id: self.connection_id,
            timestamp: now(),
            client_addr,
            username,
            auth_method,
            result,
            details: None,
        }
    }

    /// An established connection, stamped now.
    pub fn connected(
        self,
        client_addr: SocketAddress,
        vpn_ip: IpAddress,
        username: Option<String>,
        auth_method: AuthMethod,
    ) -> (e: ConnectionEvent)
        ensures
            e matches ConnectionEvent::Connected {
                connection_id,
                timestamp,
                client_addr: a,
                username: u,
                vpn_ip: v,
                auth_method: m,
                client_info,
            } && connection_id == self.connection_id && timestamp.wf() && a == client_addr && u
                == username && v == vpn_ip && m == auth_method && client_info is None,
    {
        ConnectionEvent::Connected {
            connection_id: self.connection_id,
            timestamp: now(),
            client_addr,
            username,
            vpn_ip,
            auth_method,
            client_info: None,
        }
    }

    /// A disconnection, stamped now.
    pub fn disconnected(
        self,
        client_addr: SocketAddress,
        username: Option<String>,
        reason: DisconnectReason,
        duration: Duration,
        stats: Option<TransferStats>,
    ) -> (e: ConnectionEvent)
        ensures
            e matches ConnectionEvent::Disconnected {
                connection_id,
                timestamp,
                client_addr: a,
                username: u,
                reason: r,
                duration: d,
                stats: s,
            } && connection_id == self.connection_id && timestamp.wf() && a == client_addr && u
                == username && r == reason && d == duration && s == stats,
    {
        ConnectionEvent::Disconnected {
            connection_id: self.connection_id,
            timestamp: now(),
            client_addr,
            username,
            reason,
            duration,
            stats,
        }
    }

    /// A change of client address, stamped now.
    pub fn ip_change(self, old_addr: SocketAddress, new_addr: SocketAddress, username: Option<String>) -> (e:
        ConnectionEvent)
        ensures
            e matches ConnectionEvent::IpChange {
                connection_id,
                timestamp,
                old_addr: o,
                new_addr: n,
                username: u,
            } && connection_id == self.connection_id && timestamp.wf() && o == old_addr && n
                == new_addr && u == username,
    {
        ConnectionEvent::IpChange {
            connection_id: self.connection_id,
            timestamp: now(),
            old_addr,
            new_addr,
            username,
        }
    }

    /// A key renegotiation, stamped now.
    pub fn renegotiation(self, client_addr: SocketAddress, success: bool) -> (e: ConnectionEvent)
        ensures
            e matches ConnectionEvent::Renegotiation {
                connection_id,
                timestamp,
                client_addr: a,
                success: s,
            } && connection_id == self.connection_id && timestamp.wf() && a == client_addr && s
                == success,
    {
        ConnectionEvent::Renegotiation {
            connection_id: self.connection_id,
            timestamp: now(),
            client_addr,
            success,
        }
    }
}

} // verus!
