//! The VPN server's table of client sessions and the decisions taken on each incoming packet,
//! timer tick and OAuth completion. Times are milliseconds on the caller's monotonic clock;
//! the protocol engine, sockets and the TUN device are driven by the caller.

use vstd::prelude::*;
use crate::conn_events::{
    AuthMethod, AuthResult, ConnectionEvent, ConnectionEventBuilder, ConnectionId, DisconnectReason,
    Duration, SocketAddress, TransferStats,
};
use crate::text::str_eq;

verus! {

/// One client session, as far as the server's own decisions need it.
#[derive(Clone, Debug)]
pub struct Session {
    pub peer: SocketAddress,
    pub connection_id: ConnectionId,
    /// Last activity, in milliseconds.
    pub last_activity_ms: u64,
    /// Start of the session, in milliseconds.
    pub connected_at_ms: u64,
    /// Assigned VPN address (IPv4, big-endian value), once allocated.
    pub vpn_ip: Option<u32>,
    pub username: Option<String>,
    pub auth_method: AuthMethod,
    pub stats: TransferStats,
    /// Whether the protocol session is established (data may flow).
    pub established: bool,
    /// Whether the session has a TLS handler.
    pub has_tls: bool,
    /// Whether the hard-reset response is cached for retransmission.
    pub has_reset_response: bool,
    /// PUSH_REPLY held back until OAuth completes.
    pub pending_push_reply: Option<String>,
    /// OAuth state token of the session.
    pub oauth_state: Option<String>,
    /// The negotiated cipher, kept for the deferred PUSH_REPLY.
    pub negotiated_cipher: Option<String>,
}

/// A copy of an optional string.
pub fn copy_opt(o: &Option<String>) -> (r: Option<String>)
    ensures
        r == *o,
{
    match o {
        Some(s) => Some(s.clone()),
        None => None,
    }
}

/// Milliseconds elapsed from `since` to `now` (zero if the clock reads earlier).
pub open spec fn elapsed(now: u64, since: u64) -> u64 {
    if now >= since { (now - since) as u64 } else { 0 }
}

impl Session {
    /// A fresh session that starts now: unauthenticated, nothing transferred.
    pub fn new(peer: SocketAddress, connection_id: ConnectionId, now_ms: u64, has_tls: bool) -> (r: Self)
        ensures
            r.peer == peer,
            r.connection_id == connection_id,
            r.last_activity_ms == now_ms,
            r.connected_at_ms == now_ms,
            r.vpn_ip is None,
            r.username is None,
            r.auth_method == AuthMethod::Unknown,
            r.stats == (TransferStats { bytes_rx: 0, bytes_tx: 0, packets_rx: 0, packets_tx: 0 }),
            !r.established,
            r.has_tls == has_tls,
            !r.has_reset_response,
            r.pending_push_reply is None,
            r.oauth_state is None,
            r.negotiated_cipher is None,
    {
        Session {
            peer,
            connection_id,
            last_activity_ms: now_ms,
            connected_at_ms: now_ms,
            vpn_ip: None,
            username: None,
            auth_method: AuthMethod::Unknown,
            stats: TransferStats { bytes_rx: 0, bytes_tx: 0, packets_rx: 0, packets_tx: 0 },
            established: false,
            has_tls,
            has_reset_response: false,
            pending_push_reply: None,
            oauth_state: None,
            negotiated_cipher: None,
        }
    }

    /// A copy of the session.
    pub fn copied(&self) -> (r: Self)
        ensures
            r == *self,
    {
        Session {
            peer: self.peer,
            connection_id: self.connection_id,
            last_activity_ms: self.last_activity_ms,
            connected_at_ms: self.connected_at_ms,
            vpn_ip: self.vpn_ip,
            username: copy_opt(&self.username),
            auth_method: self.auth_method,
            stats: self.stats,
            established: self.established,
            has_tls: self.has_tls,
            has_reset_response: self.has_reset_response,
            pending_push_reply: copy_opt(&self.pending_push_reply),
            oauth_state: copy_opt(&self.oauth_state),
            negotiated_cipher: copy_opt(&self.negotiated_cipher),
        }
    }

    /// Records activity now.
    pub fn touch(&mut self, now_ms: u64)
        ensures
            *final(self) == (Session { last_activity_ms: now_ms, ..*old(self) }),
    {
        self.last_activity_ms = now_ms;
    }

    /// Whether the session has been idle for longer than `timeout_ms`.
    pub fn is_stale(&self, now_ms: u64, timeout_ms: u64) -> (r: bool)
        ensures
            r == (elapsed(now_ms, self.last_activity_ms) > timeout_ms),
    {
        now_ms.saturating_sub(self.last_activity_ms) > timeout_ms
    }

    /// How long the session has lasted.
    pub fn duration(&self, now_ms: u64) -> (r: Duration)
        ensures
            r.secs == elapsed(now_ms, self.connected_at_ms) / 1000,
            r.nanos == (elapsed(now_ms, self.connected_at_ms) % 1000) * 1_000_000,
    {
        let ms = now_ms.saturating_sub(self.connected_at_ms);
        Duration { secs: ms / 1000, nanos: ((ms % 1000) * 1_000_000) as u32 }
    }

    /// Counts a received packet of `bytes` bytes.
    pub fn add_bytes_rx(&mut self, bytes: u64)
        requires
            old(self).stats.bytes_rx + bytes <= u64::MAX,
            old(self).stats.packets_rx + 1 <= u64::MAX,
        ensures
            *final(self) == (Session {
                stats: TransferStats {
                    bytes_rx: (old(self).stats.bytes_rx + bytes) as u64,
                    packets_rx: (old(self).stats.packets_rx + 1) as u64,
                    ..old(self).stats
                },
                ..*old(self)
            }),
    {
        self.stats.bytes_rx = self.stats.bytes_rx + bytes;
        self.stats.packets_rx = self.stats.packets_rx + 1;
    }

    /// Counts a sent packet of `bytes` bytes.
    pub fn add_bytes_tx(&mut self, bytes: u64)
        requires
            old(self).stats.bytes_tx + bytes <= u64::MAX,
            old(self).stats.packets_tx + 1 <= u64::MAX,
        ensures
            *final(self) == (Session {
                stats: TransferStats {
                    bytes_tx: (old(self).stats.bytes_tx + bytes) as u64,
                    packets_tx: (old(self).stats.packets_tx + 1) as u64,
                    ..old(self).stats
                },
                ..*old(self)
            }),
    {
        self.stats.bytes_tx = self.stats.bytes_tx + bytes;
        self.stats.packets_tx = self.stats.packets_tx + 1;
    }
}

/// No peer occurs twice.
pub open spec fn peers_unique(s: Seq<Session>) -> bool {
    forall|i: int, j: int| 0 <= i < j < s.len() ==> s[i].peer != s[j].peer
}

/// The index of the session of `peer`, if there is one.
pub open spec fn has_peer(s: Seq<Session>, peer: SocketAddress) -> bool {
    exists|i: int| 0 <= i < s.len() && s[i].peer == peer
}

/// The server's sessions, at most one per peer address. They are kept in a vector whose
/// invariant is that no address occurs twice: for a struct key, vstd's
/// specification of `HashMap` gives no proof of what a lookup returns.
pub struct SessionTable {
    sessions: Vec<Session>,
}

impl SessionTable {
    /// The sessions, in the table's order.
    pub closed spec fn view(&self) -> Seq<Session> {
        self.sessions@
    }

    /// The table holds at most one session per peer.
    pub closed spec fn wf(&self) -> bool {
        peers_unique(self.sessions@)
    }

    /// An empty table.
    pub fn new() -> (r: Self)
        ensures
            r.wf(),
            r.view().len() == 0,
    {
        SessionTable { sessions: Vec::new() }
    }

    /// Number of sessions.
    pub fn len(&self) -> (r: usize)
        ensures
            r == self.view().len(),
    {
        self.sessions.len()
    }

    /// The session at a position.
    pub fn at(&self, i: usize) -> (r: &Session)
        requires
            i < self.view().len(),
        ensures
            *r == self.view()[i as int],
    {
        &self.sessions[i]
    }

    /// The position of the session of `peer`.
    pub fn index_of(&self, peer: &SocketAddress) -> (r: Option<usize>)
        ensures
            match r {
                Some(i) => i < self.view().len() && self.view()[i as int].peer == *peer,
                None => !has_peer(self.view(), *peer),
            },
    {
        let mut i: usize = 0;
        while i < self.sessions.len()
            invariant
                i <= self.sessions@.len(),
                forall|j: int| 0 <= j < i ==> self.sessions@[j].peer != *peer,
            decreases self.sessions@.len() - i,
        {
            if self.sessions[i].peer == *peer {
                return Some(i);
            }
            i = i + 1;
        }
        None
    }

    /// Adds a session, replacing the session of the same peer if there is one.
    pub fn insert(&mut self, session: Session)
        requires
            old(self).wf(),
        ensures
            final(self).wf(),
            has_peer(old(self).view(), session.peer) ==> exists|i: int|
                0 <= i < old(self).view().len() && old(self).view()[i].peer == session.peer
                    && final(self).view() == old(self).view().update(i, session),
            !has_peer(old(self).view(), session.peer) ==> final(self).view() == old(self).view().push(
                session,
            ),
    {
        match self.index_of(&session.peer) {
            Some(i) => {
                let ghost p = session.peer;
                self.sessions.set(i, session);
                assert(self.sessions@[i as int].peer == p);
            },
            None => {
                self.sessions.push(session);
            },
        }
    }

    /// Removes and returns the session of a peer.
    pub fn remove(&mut self, peer: &SocketAddress) -> (r: Option<Session>)
        requires
            old(self).wf(),
        ensures
            final(self).wf(),
            !has_peer(final(self).view(), *peer),
            match r {
                Some(s) => s.peer == *peer && exists|i: int|
                    0 <= i < old(self).view().len() && old(self).view()[i] == s
                        && final(self).view() == old(self).view().remove(i),
                None => !has_peer(old(self).view(), *peer) && final(self).view() == old(self).view(),
            },
    {
        match self.index_of(peer) {
            Some(i) => {
                let ghost before = self.sessions@;
                let s = self.sessions.remove(i);
                proof {
                    assert(self.sessions@ == before.remove(i as int));
                    assert forall|a: int, b: int| 0 <= a < b < self.sessions@.len() implies self.sessions@[a].peer
                        != self.sessions@[b].peer by {
                        let a2 = if a < i { a } else { a + 1 };
                        let b2 = if b < i { b } else { b + 1 };
                        assert(self.sessions@[a] == before[a2]);
                        assert(self.sessions@[b] == before[b2]);
                    }
                    assert forall|k: int| 0 <= k < self.sessions@.len() implies self.sessions@[k].peer != *peer by {
                        let k2 = if k < i { k } else { k + 1 };
                        assert(self.sessions@[k] == before[k2]);
                    }
                }
                Some(s)
            },
            None => None,
        }
    }

    /// Mutable access to the session at a position, keeping its peer.
    pub fn update_at(&mut self, i: usize, session: Session)
        requires
            old(self).wf(),
            i < old(self).view().len(),
            session.peer == old(self).view()[i as int].peer,
        ensures
            final(self).wf(),
            final(self).view() == old(self).view().update(i as int, session),
    {
        self.sessions.set(i, session);
    }
}

/// Sessions active within the timeout.
pub open spec fn fresh_pred(now_ms: u64, timeout_ms: u64) -> spec_fn(Session) -> bool {
    |s: Session| !(elapsed(now_ms, s.last_activity_ms) > timeout_ms)
}

/// Sessions idle for longer than the timeout.
pub open spec fn stale_pred(now_ms: u64, timeout_ms: u64) -> spec_fn(Session) -> bool {
    |s: Session| elapsed(now_ms, s.last_activity_ms) > timeout_ms
}

/// The disconnection event logged for a session dropped as idle.
pub open spec fn idle_event_of(e: ConnectionEvent, s: Session, now_ms: u64) -> bool {
    &&& e matches ConnectionEvent::Disconnected { connection_id, timestamp, client_addr, username, reason, duration, stats }
    &&& connection_id == s.connection_id
    &&& timestamp.wf()
    &&& client_addr == s.peer
    &&& username == s.username
    &&& reason == DisconnectReason::IdleTimeout
    &&& duration.secs == elapsed(now_ms, s.connected_at_ms) / 1000
    &&& duration.nanos == (elapsed(now_ms, s.connected_at_ms) % 1000) * 1_000_000
    &&& stats == Some(s.stats)
}

impl SessionTable {
    /// Drops every session idle for longer than `timeout_ms`, returning them in order; the
    /// caller logs their disconnection.
    pub fn remove_stale(&mut self, now_ms: u64, timeout_ms: u64) -> (r: Vec<Session>)
        requires
            old(self).wf(),
        ensures
            final(self).wf(),
            final(self).view() == old(self).view().filter(fresh_pred(now_ms, timeout_ms)),
            r@ == old(self).view().filter(stale_pred(now_ms, timeout_ms)),
    {
        let ghost before = self.sessions@;
        let ghost fresh = fresh_pred(now_ms, timeout_ms);
        let ghost stale = stale_pred(now_ms, timeout_ms);
        let mut kept: Vec<Session> = Vec::new();
        let mut gone: Vec<Session> = Vec::new();
        let mut i: usize = 0;
        while i < self.sessions.len()
            invariant
                self.sessions@ == before,
                fresh == fresh_pred(now_ms, timeout_ms),
                stale == stale_pred(now_ms, timeout_ms),
                peers_unique(before),
                i <= before.len(),
                kept@ == before.subrange(0, i as int).filter(fresh),
                gone@ == before.subrange(0, i as int).filter(stale),
                forall|a: int| 0 <= a < kept@.len() ==> exists|j: int| 0 <= j < i && #[trigger] kept@[a] == before[j],
                peers_unique(kept@),
            decreases before.len() - i,
        {
            let s = self.sessions[i].copied();
            proof {
                assert(before.subrange(0, i + 1).drop_last() =~= before.subrange(0, i as int));
                assert(before.subrange(0, i + 1).last() == before[i as int]);
                reveal(Seq::filter);
                let next = before.subrange(0, i + 1);
                assert(next.filter(fresh) == (if fresh(next.last()) {
                    next.drop_last().filter(fresh).push(next.last())
                } else {
                    next.drop_last().filter(fresh)
                }));
                assert(next.filter(stale) == (if stale(next.last()) {
                    next.drop_last().filter(stale).push(next.last())
                } else {
                    next.drop_last().filter(stale)
                }));
            }
            if s.is_stale(now_ms, timeout_ms) {
                gone.push(s);
            } else {
                let ghost k0 = kept@;
                kept.push(s);
                proof {
                    assert forall|a: int, b: int| 0 <= a < b < kept@.len() implies kept@[a].peer
                        != kept@[b].peer by {
                        if b == k0.len() {
                            let j = choose|j: int| 0 <= j < i && kept@[a] == before[j];
                            assert(before[j].peer != before[i as int].peer);
                        } else {
                            assert(kept@[a] == k0[a] && kept@[b] == k0[b]);
                        }
                    }
                    assert forall|a: int| 0 <= a < kept@.len() implies exists|j: int|
                        0 <= j < i + 1 && #[trigger] kept@[a] == before[j] by {
                        if a == k0.len() {
                            assert(kept@[a] == before[i as int]);
                        } else {
                            assert(kept@[a] == k0[a]);
                        }
                    }
                }
            }
            i = i + 1;
        }
        assert(before.subrange(0, before.len() as int) =~= before);
        self.sessions = kept;
        gone
    }

    /// The disconnection events of dropped idle sessions (reason: idle timeout).
    pub fn idle_disconnect_events(dropped: &Vec<Session>, now_ms: u64) -> (r: Vec<ConnectionEvent>)
        ensures
            r@.len() == dropped@.len(),
            forall|k: int| 0 <= k < r@.len() ==> idle_event_of(#[trigger] r@[k], dropped@[k], now_ms),
    {
        let mut r: Vec<ConnectionEvent> = Vec::new();
        let mut i: usize = 0;
        while i < dropped.len()
            invariant
                i <= dropped@.len(),
                r@.len() == i,
                forall|k: int| 0 <= k < i ==> idle_event_of(#[trigger] r@[k], dropped@[k], now_ms),
            decreases dropped@.len() - i,
        {
            let s = &dropped[i];
            let e = ConnectionEventBuilder::with_id(s.connection_id).disconnected(
                s.peer,
                s.username.clone(),
                DisconnectReason::IdleTimeout,
                s.duration(now_ms),
                Some(s.stats),
            );
            r.push(e);
            i = i + 1;
        }
        r
    }
}

/// What to do with a client's hard reset.
#[derive(Clone, Copy, Debug, PartialEq, Eq, Structural)]
pub enum HardResetAction {
    /// A UDP retry from a live session: send the cached response again.
    Retransmit,
    /// Start a new session.
    NewSession,
}

/// How long a hard reset counts as a retry of the previous one.
pub const RESET_RETRY_MS: u64 = 30_000;

/// Whether a session is live and holds a cached hard-reset response.
pub open spec fn is_retry_of(s: Session, now_ms: u64) -> bool {
    !(elapsed(now_ms, s.last_activity_ms) > RESET_RETRY_MS) && s.has_reset_response
}

/// What a data packet from a peer leads to.
#[derive(Clone, Copy, Debug, PartialEq, Eq, Structural)]
pub enum DataAction {
    /// No session for the peer: ignore.
    NoSession,
    /// The session is not established yet: ignore.
    NotEstablished,
    /// Decrypt the packet in the session at this position.
    Accept(usize),
}

/// What a decrypted data payload is.
#[derive(Clone, Copy, Debug, PartialEq, Eq, Structural)]
pub enum PayloadKind {
    /// The OpenVPN keepalive ping: answer with a ping.
    KeepalivePing,
    /// An IP packet for the TUN device.
    IpPacket,
    /// Too short to be an IP packet: ignore.
    TooShort,
}

/// The OpenVPN keepalive ping payload.
pub open spec fn ping_payload() -> Seq<u8> {
    seq![0x2a, 0x18, 0x7b, 0xf3, 0x64, 0x1e, 0xb4, 0xcb, 0x07, 0xed, 0x2d, 0x0a, 0x98, 0x1f, 0xc7, 0x48]
}

/// The OpenVPN keepalive ping payload.
pub fn ping_payload_bytes() -> (r: Vec<u8>)
    ensures
        r@ == ping_payload(),
{
    let r: Vec<u8> = vec![0x2au8, 0x18, 0x7b, 0xf3, 0x64, 0x1e, 0xb4, 0xcb, 0x07, 0xed, 0x2d, 0x0a, 0x98, 0x1f, 0xc7, 0x48];
    assert(r@ =~= ping_payload());
    r
}

/// Classifies a decrypted payload.
pub fn classify_payload(data: &[u8]) -> (r: PayloadKind)
    ensures
        r == if data@ == ping_payload() {
            PayloadKind::KeepalivePing
        } else if data@.len() >= 20 {
            PayloadKind::IpPacket
        } else {
            PayloadKind::TooShort
        },
{
    let ping = ping_payload_bytes();
    if data.len() == ping.len() {
        let mut i: usize = 0;
        let mut same = true;
        while i < data.len()
            invariant
                data@.len() == ping@.len(),
                i <= data@.len(),
                same == (forall|j: int| 0 <= j < i ==> data@[j] == ping@[j]),
            decreases data@.len() - i,
        {
            if data[i] != ping[i] {
                same = false;
            }
            i = i + 1;
        }
        if same {
            assert(data@ =~= ping@);
            return PayloadKind::KeepalivePing;
        }
        assert(data@ != ping_payload()) by {
            let j = choose|j: int| 0 <= j < data@.len() && data@[j] != ping@[j];
            assert(data@[j] != ping_payload()[j]);
        }
    }
    if data.len() >= 20 {
        PayloadKind::IpPacket
    } else {
        PayloadKind::TooShort
    }
}

/// The destination of an IPv4 packet read from the TUN device (bytes 16 to 19), or `None` for
/// a packet shorter than an IPv4 header or of another IP version.
pub open spec fn tun_destination_of(p: Seq<u8>) -> Option<u32> {
    if p.len() < 20 || p[0] / 16 != 4 {
        None
    } else {
        Some((p[16] * 0x100_0000 + p[17] * 0x1_0000 + p[18] * 0x100 + p[19]) as u32)
    }
}

/// The IPv4 destination of a packet from the TUN device.
pub fn tun_destination(packet: &[u8]) -> (r: Option<u32>)
    ensures
        r == tun_destination_of(packet@),
{
    if packet.len() < 20 {
        return None;
    }
    let b0: u8 = packet[0];
    assert(b0 >> 4 == b0 / 16) by (bit_vector);
    if b0 >> 4 != 4 {
        return None;
    }
    let v: u32 = packet[16] as u32 * 0x100_0000 + packet[17] as u32 * 0x1_0000 + packet[18] as u32 * 0x100
        + packet[19] as u32;
    Some(v)
}

/// Server statistics.
#[derive(Clone, Copy, Debug, PartialEq, Eq, Structural)]
pub struct ServerStats {
    /// Total connections received
    pub connections: u64,
    /// Active sessions
    pub active_sessions: u64,
    /// Bytes received
    pub bytes_rx: u64,
    /// Bytes sent
    pub bytes_tx: u64,
    /// Packets received
    pub packets_rx: u64,
    /// Packets sent
    pub packets_tx: u64,
}

/// The number of established sessions.
pub open spec fn established_count(s: Seq<Session>) -> nat
    decreases s.len(),
{
    if s.len() == 0 {
        0
    } else {
        established_count(s.drop_last()) + if s.last().established { 1nat } else { 0nat }
    }
}

proof fn lemma_established_count_bound(s: Seq<Session>)
    ensures
        established_count(s) <= s.len(),
    decreases s.len(),
{
    if s.len() > 0 {
        lemma_established_count_bound(s.drop_last());
    }
}

impl SessionTable {
    /// What a hard reset from `peer` leads to: a retransmission when the peer's session is
    /// live (active within 30 s) and holds a cached response, a new session otherwise.
    pub fn hard_reset_action(&self, peer: &SocketAddress, now_ms: u64) -> (r: HardResetAction)
        requires
            self.wf(),
        ensures
            r == HardResetAction::Retransmit <==> exists|i: int|
                0 <= i < self.view().len() && self.view()[i].peer == *peer && is_retry_of(
                    self.view()[i],
                    now_ms,
                ),
    {
        match self.index_of(peer) {
            Some(i) => {
                let s = self.at(i);
                if !s.is_stale(now_ms, RESET_RETRY_MS) && s.has_reset_response {
                    HardResetAction::Retransmit
                } else {
                    proof {
                        assert forall|j: int| 0 <= j < self.view().len() && self.view()[j].peer == *peer implies !is_retry_of(
                            self.view()[j],
                            now_ms,
                        ) by {
                            if j != i {
                                assert(peers_unique(self.view()));
                                if j < i {
                                    assert(self.view()[j].peer != self.view()[i as int].peer);
                                } else {
                                    assert(self.view()[i as int].peer != self.view()[j].peer);
                                }
                            }
                        }
                    }
                    HardResetAction::NewSession
                }
            },
            None => HardResetAction::NewSession,
        }
    }
}

impl SessionTable {
    /// A data packet of `len` bytes from `peer`: the peer's session (if any) is touched; if it
    /// is established the packet is counted as received and accepted for decryption.
    pub fn on_data_packet(&mut self, peer: &SocketAddress, len: u64, now_ms: u64) -> (r: DataAction)
        requires
            old(self).wf(),
            forall|i: int|
                0 <= i < old(self).view().len() && old(self).view()[i].peer == *peer ==> old(self).view()[i].stats.bytes_rx
                    + len <= u64::MAX && old(self).view()[i].stats.packets_rx + 1 <= u64::MAX,
        ensures
            final(self).wf(),
            match r {
                DataAction::NoSession => !has_peer(old(self).view(), *peer) && final(self).view() == old(self).view(),
                DataAction::NotEstablished => exists|i: int|
                    0 <= i < old(self).view().len() && old(self).view()[i].peer == *peer
                        && !old(self).view()[i].established && final(self).view() == old(self).view().update(
                        i,
                        Session { last_activity_ms: now_ms, ..old(self).view()[i] },
                    ),
                DataAction::Accept(i) => i < old(self).view().len() && old(self).view()[i as int].peer == *peer
                    && old(self).view()[i as int].established && final(self).view() == old(self).view().update(
                    i as int,
                    Session {
                        last_activity_ms: now_ms,
                        stats: TransferStats {
                            bytes_rx: (old(self).view()[i as int].stats.bytes_rx + len) as u64,
                            packets_rx: (old(self).view()[i as int].stats.packets_rx + 1) as u64,
                            ..old(self).view()[i as int].stats
                        },
                        ..old(self).view()[i as int]
                    },
                ),
            },
    {
        match self.index_of(peer) {
            None => DataAction::NoSession,
            Some(i) => {
                let mut s = self.sessions[i].copied();
                s.touch(now_ms);
                if !s.established {
                    self.update_at(i, s);
                    return DataAction::NotEstablished;
                }
                s.add_bytes_rx(len);
                self.update_at(i, s);
                DataAction::Accept(i)
            },
        }
    }

    /// The established session holding a VPN address.
    pub fn find_by_vpn_ip(&self, ip: u32) -> (r: Option<usize>)
        ensures
            match r {
                Some(i) => i < self.view().len() && self.view()[i as int].vpn_ip == Some(ip)
                    && self.view()[i as int].established,
                None => forall|i: int|
                    0 <= i < self.view().len() ==> !(self.view()[i].vpn_ip == Some(ip) && self.view()[i].established),
            },
    {
        let mut i: usize = 0;
        while i < self.sessions.len()
            invariant
                i <= self.sessions@.len(),
                forall|j: int| 0 <= j < i ==> !(self.sessions@[j].vpn_ip == Some(ip) && self.sessions@[j].established),
            decreases self.sessions@.len() - i,
        {
            if self.sessions[i].vpn_ip == Some(ip) && self.sessions[i].established {
                return Some(i);
            }
            i = i + 1;
        }
        None
    }

    /// Positions of the established sessions, which get keepalive pings.
    pub fn keepalive_targets(&self) -> (r: Vec<usize>)
        ensures
            forall|k: int| 0 <= k < r@.len() ==> (#[trigger] r@[k]) < self.view().len() && self.view()[r@[k] as int].established,
            forall|i: int| 0 <= i < self.view().len() && #[trigger] self.view()[i].established ==> r@.contains(i as usize),
    {
        let mut r: Vec<usize> = Vec::new();
        let mut i: usize = 0;
        while i < self.sessions.len()
            invariant
                i <= self.sessions@.len(),
                forall|k: int| 0 <= k < r@.len() ==> (#[trigger] r@[k]) < i && self.sessions@[r@[k] as int].established,
                forall|j: int| 0 <= j < i && #[trigger] self.sessions@[j].established ==> r@.contains(j as usize),
            decreases self.sessions@.len() - i,
        {
            if self.sessions[i].established {
                let ghost r0 = r@;
                r.push(i);
                proof {
                    assert(r@[r0.len() as int] == i);
                    assert forall|j: int| 0 <= j < i + 1 && #[trigger] self.sessions@[j].established implies r@.contains(j as usize) by {
                        if j < i {
                            let k = choose|k: int| 0 <= k < r0.len() && r0[k] == j as usize;
                            assert(r@[k] == r0[k]);
                        }
                    }
                }
            }
            i = i + 1;
        }
        r
    }

    /// Counts a packet of `bytes` bytes sent to the session at a position.
    pub fn record_tx(&mut self, i: usize, bytes: u64)
        requires
            old(self).wf(),
            i < old(self).view().len(),
            old(self).view()[i as int].stats.bytes_tx + bytes <= u64::MAX,
            old(self).view()[i as int].stats.packets_tx + 1 <= u64::MAX,
        ensures
            final(self).wf(),
            final(self).view() == old(self).view().update(
                i as int,
                Session {
                    stats: TransferStats {
                        bytes_tx: (old(self).view()[i as int].stats.bytes_tx + bytes) as u64,
                        packets_tx: (old(self).view()[i as int].stats.packets_tx + 1) as u64,
                        ..old(self).view()[i as int].stats
                    },
                    ..old(self).view()[i as int]
                },
            ),
    {
        let mut s = self.sessions[i].copied();
        s.add_bytes_tx(bytes);
        self.update_at(i, s);
    }
}

impl ServerStats {
    /// The statistics of a server's session table: the number of sessions and of
    /// established ones; the transfer counters are not aggregated.
    pub fn from_server(server: &SessionTable) -> (r: ServerStats)
        ensures
            r.connections == server.view().len(),
            r.active_sessions == established_count(server.view()),
            r.bytes_rx == 0 && r.bytes_tx == 0 && r.packets_rx == 0 && r.packets_tx == 0,
    {
        let mut active: u64 = 0;
        let mut i: usize = 0;
        while i < server.sessions.len()
            invariant
                i <= server.sessions@.len(),
                active == established_count(server.sessions@.subrange(0, i as int)),
                active <= i,
            decreases server.sessions@.len() - i,
        {
            proof {
                assert(server.sessions@.subrange(0, i + 1).drop_last() =~= server.sessions@.subrange(0, i as int));
            }
            if server.sessions[i].established {
                active = active + 1;
            }
            i = i + 1;
        }
        assert(server.sessions@.subrange(0, server.sessions@.len() as int) =~= server.sessions@);
        ServerStats {
            connections: server.sessions.len() as u64,
            active_sessions: active,
            bytes_rx: 0,
            bytes_tx: 0,
            packets_rx: 0,
            packets_tx: 0,
        }
    }
}

/// OAuth authentication completion message.
pub struct AuthCompleted {
    /// OAuth state token
    pub state: String,
    /// Authenticated user email
    pub email: String,
}

/// An OAuth authentication waiting for completion.
#[derive(Clone, Debug)]
pub struct PendingOAuth {
    pub state: String,
    pub peer: SocketAddress,
    pub created_ms: u64,
}

/// No state token occurs twice.
pub open spec fn states_unique(s: Seq<PendingOAuth>) -> bool {
    forall|i: int, j: int| 0 <= i < j < s.len() ==> s[i].state@ != s[j].state@
}

/// The peer waiting under a state token, if any.
pub open spec fn pending_peer(s: Seq<PendingOAuth>, state: Seq<char>) -> Option<SocketAddress>
    decreases s.len(),
{
    if s.len() == 0 {
        None
    } else if s.last().state@ == state {
        Some(s.last().peer)
    } else {
        pending_peer(s.drop_last(), state)
    }
}

/// Pending OAuth authentications, keyed by state token. They are kept in a vector whose
/// invariant is that no token occurs twice: for a `String` key, vstd's specification of
/// `HashMap` gives no proof of what a lookup returns.
pub struct PendingOAuths {
    entries: Vec<PendingOAuth>,
}

impl PendingOAuths {
    /// The entries.
    pub closed spec fn view(&self) -> Seq<PendingOAuth> {
        self.entries@
    }

    /// Each state token occurs once.
    pub closed spec fn wf(&self) -> bool {
        states_unique(self.entries@)
    }

    /// No pending authentication.
    pub fn new() -> (r: Self)
        ensures
            r.wf(),
            r.view().len() == 0,
    {
        PendingOAuths { entries: Vec::new() }
    }

    fn position(&self, state: &str) -> (r: Option<usize>)
        requires
            self.wf(),
        ensures
            match r {
                Some(i) => i < self.view().len() && self.view()[i as int].state@ == state@
                    && pending_peer(self.view(), state@) == Some(self.view()[i as int].peer),
                None => pending_peer(self.view(), state@) is None && forall|j: int|
                    0 <= j < self.view().len() ==> self.view()[j].state@ != state@,
            },
    {
        let mut i: usize = 0;
        while i < self.entries.len()
            invariant
                i <= self.entries@.len(),
                states_unique(self.entries@),
                forall|j: int| 0 <= j < i ==> self.entries@[j].state@ != state@,
            decreases self.entries@.len() - i,
        {
            if str_eq(self.entries[i].state.as_str(), state) {
                proof {
                    lemma_pending_peer_at(self.entries@, i as int, state@);
                }
                return Some(i);
            }
            i = i + 1;
        }
        proof {
            lemma_pending_peer_none(self.entries@, state@);
        }
        None
    }

    /// Whether a state token is pending.
    pub fn contains(&self, state: &str) -> (r: bool)
        requires
            self.wf(),
        ensures
            r == (pending_peer(self.view(), state@) is Some),
    {
        self.position(state).is_some()
    }

    /// The peer waiting under a state token.
    pub fn peer_of(&self, state: &str) -> (r: Option<SocketAddress>)
        requires
            self.wf(),
        ensures
            r == pending_peer(self.view(), state@),
    {
        match self.position(state) {
            Some(i) => Some(self.entries[i].peer),
            None => None,
        }
    }

    /// Registers a pending authentication, replacing one under the same token.
    pub fn insert(&mut self, state: String, peer: SocketAddress, now_ms: u64)
        requires
            old(self).wf(),
        ensures
            final(self).wf(),
            pending_peer(final(self).view(), state@) == Some(peer),
            forall|t: Seq<char>| t != state@ ==> pending_peer(final(self).view(), t) == pending_peer(old(self).view(), t),
    {
        let ghost st = state@;
        match self.position(state.as_str()) {
            Some(i) => {
                let ghost before = self.entries@;
                self.entries.set(i, PendingOAuth { state, peer, created_ms: now_ms });
                proof {
                    assert forall|t: Seq<char>| #![auto] pending_peer(self.entries@, t) == (if t == st { Some(peer) } else { pending_peer(before, t) }) by {
                        lemma_pending_peer_update(before, i as int, PendingOAuth { state: self.entries@[i as int].state, peer, created_ms: now_ms }, t);
                    }
                }
            },
            None => {
                let ghost before = self.entries@;
                self.entries.push(PendingOAuth { state, peer, created_ms: now_ms });
                proof {
                    assert(self.entries@.drop_last() =~= before);
                }
            },
        }
    }

    /// Removes a pending authentication; returns its peer.
    pub fn remove(&mut self, state: &str) -> (r: Option<SocketAddress>)
        requires
            old(self).wf(),
        ensures
            final(self).wf(),
            r == pending_peer(old(self).view(), state@),
            pending_peer(final(self).view(), state@) is None,
            forall|t: Seq<char>| t != state@ ==> pending_peer(final(self).view(), t) == pending_peer(old(self).view(), t),
    {
        match self.position(state) {
            Some(i) => {
                let ghost before = self.entries@;
                let e = self.entries.remove(i);
                proof {
                    lemma_pending_peer_remove(before, i as int);
                }
                Some(e.peer)
            },
            None => None,
        }
    }
}

proof fn lemma_pending_peer_at(s: Seq<PendingOAuth>, i: int, state: Seq<char>)
    requires
        states_unique(s),
        0 <= i < s.len(),
        s[i].state@ == state,
    ensures
        pending_peer(s, state) == Some(s[i].peer),
    decreases s.len(),
{
    if i < s.len() - 1 {
        assert(s.last().state@ != state);
        assert(states_unique(s.drop_last()));
        lemma_pending_peer_at(s.drop_last(), i, state);
    }
}

proof fn lemma_pending_peer_none(s: Seq<PendingOAuth>, state: Seq<char>)
    requires
        forall|j: int| 0 <= j < s.len() ==> s[j].state@ != state,
    ensures
        pending_peer(s, state) is None,
    decreases s.len(),
{
    if s.len() > 0 {
        lemma_pending_peer_none(s.drop_last(), state);
    }
}

proof fn lemma_pending_peer_update(s: Seq<PendingOAuth>, i: int, e: PendingOAuth, t: Seq<char>)
    requires
        states_unique(s),
        0 <= i < s.len(),
        e.state@ == s[i].state@,
    ensures
        states_unique(s.update(i, e)),
        pending_peer(s.update(i, e), t) == (if t == e.state@ { Some(e.peer) } else { pending_peer(s, t) }),
    decreases s.len(),
{
    let u = s.update(i, e);
    if i == s.len() - 1 {
        assert(u.drop_last() =~= s.drop_last());
    } else {
        assert(u.drop_last() =~= s.drop_last().update(i, e));
        assert(states_unique(s.drop_last()));
        lemma_pending_peer_update(s.drop_last(), i, e, t);
        if t == e.state@ {
            assert(s.last().state@ != s[i].state@);
        }
    }
}

proof fn lemma_pending_peer_remove(s: Seq<PendingOAuth>, i: int)
    requires
        states_unique(s),
        0 <= i < s.len(),
    ensures
        states_unique(s.remove(i)),
        pending_peer(s.remove(i), s[i].state@) is None,
        forall|t: Seq<char>| t != s[i].state@ ==> pending_peer(s.remove(i), t) == pending_peer(s, t),
    decreases s.len(),
{
    let r = s.remove(i);
    assert forall|a: int, b: int| 0 <= a < b < r.len() implies r[a].state@ != r[b].state@ by {
        let a2 = if a < i { a } else { a + 1 };
        let b2 = if b < i { b } else { b + 1 };
        assert(r[a] == s[a2] && r[b] == s[b2]);
    }
    assert forall|j: int| 0 <= j < r.len() implies r[j].state@ != s[i].state@ by {
        let j2 = if j < i { j } else { j + 1 };
        assert(r[j] == s[j2]);
    }
    lemma_pending_peer_none(r, s[i].state@);
    assert forall|t: Seq<char>| t != s[i].state@ implies pending_peer(r, t) == pending_peer(s, t) by {
        lemma_pending_peer_remove_other(s, i, t);
    }
}

proof fn lemma_pending_peer_remove_other(s: Seq<PendingOAuth>, i: int, t: Seq<char>)
    requires
        0 <= i < s.len(),
        t != s[i].state@,
    ensures
        pending_peer(s.remove(i), t) == pending_peer(s, t),
    decreases s.len(),
{
    if i == s.len() - 1 {
        assert(s.remove(i) =~= s.drop_last());
    } else {
        assert(s.remove(i).drop_last() =~= s.drop_last().remove(i));
        assert(s.remove(i).last() == s.last());
        lemma_pending_peer_remove_other(s.drop_last(), i, t);
    }
}

/// The outcome of an OAuth completion for a state token.
#[derive(Clone, Debug)]
pub enum AuthCompletion {
    /// No authentication is pending under the token.
    NoPending,
    /// The peer's session is gone.
    ConnectionGone,
    /// The session holds no deferred PUSH_REPLY.
    NoPushReply,
    /// The session has no TLS handler to send through.
    NoTls,
    /// Send this NUL-terminated PUSH_REPLY to the session at `index`, now established.
    Send { index: usize, message: String },
}

/// The session after an OAuth user was authenticated: user name set to the email, method
/// OAuth2, deferred PUSH_REPLY taken.
pub open spec fn oauth_authenticated(s: Session, email: String) -> Session {
    Session { username: Some(email), auth_method: AuthMethod::OAuth2, pending_push_reply: None, ..s }
}

/// Finishes an OAuth authentication: the pending token is consumed; the peer's session, if it
/// holds a deferred PUSH_REPLY, is authenticated as the email's user and, when it has a TLS
/// handler, the reply is to be sent through it and the session becomes established.
pub fn complete_oauth(
    table: &mut SessionTable,
    pending: &mut PendingOAuths,
    state: &str,
    email: String,
) -> (r: AuthCompletion)
    requires
        old(table).wf(),
        old(pending).wf(),
    ensures
        final(table).wf(),
        final(pending).wf(),
        pending_peer(final(pending).view(), state@) is None,
        forall|t: Seq<char>| t != state@ ==> pending_peer(final(pending).view(), t) == pending_peer(old(pending).view(), t),
        match pending_peer(old(pending).view(), state@) {
            None => r is NoPending && final(table).view() == old(table).view(),
            Some(peer) => if !has_peer(old(table).view(), peer) {
                r is ConnectionGone && final(table).view() == old(table).view()
            } else {
                exists|i: int| 0 <= i < old(table).view().len() && old(table).view()[i].peer == peer && ({
                    let s = old(table).view()[i];
                    match s.pending_push_reply {
                        None => r is NoPushReply && final(table).view() == old(table).view(),
                        Some(reply) => if s.has_tls {
                                r matches AuthCompletion::Send { index, message } && index == i
                                    && message@ == reply@.push('\0')
                                    && final(table).view() == old(table).view().update(
                                        i,
                                        Session { established: true, ..oauth_authenticated(s, email) },
                                    )
                            } else {
                                r is NoTls && final(table).view() == old(table).view().update(i, oauth_authenticated(s, email))
                            },
                    }
                })
            },
        },
{
    let peer = match pending.peer_of(state) {
        Some(p) => p,
        None => {
            pending.remove(state);
            return AuthCompletion::NoPending;
        },
    };
    pending.remove(state);
    let i = match table.index_of(&peer) {
        Some(i) => i,
        None => return AuthCompletion::ConnectionGone,
    };
    let mut s = table.at(i).copied();
    let reply = match s.pending_push_reply {
        Some(r) => r,
        None => return AuthCompletion::NoPushReply,
    };
    let has_tls = s.has_tls;
    let updated = Session {
        username: Some(email),
        auth_method: AuthMethod::OAuth2,
        pending_push_reply: None,
        established: has_tls || s.established,
        ..s
    };
    table.update_at(i, updated);
    if !has_tls {
        return AuthCompletion::NoTls;
    }
    let message = crate::negotiation::control_message(reply.as_str());
    AuthCompletion::Send { index: i, message }
}

impl SessionTable {
    /// Marks the session at a position established.
    pub fn mark_established(&mut self, i: usize)
        requires
            old(self).wf(),
            i < old(self).view().len(),
        ensures
            final(self).wf(),
            final(self).view() == old(self).view().update(i as int, Session { established: true, ..old(self).view()[i as int] }),
    {
        let s = self.sessions[i].copied();
        self.update_at(i, Session { established: true, ..s });
    }

    /// Records the end of the TLS handshake of the session at a position: authenticated by
    /// certificate, with the user name the client sent, if any.
    pub fn handshake_completed(&mut self, i: usize, client_username: Option<String>)
        requires
            old(self).wf(),
            i < old(self).view().len(),
        ensures
            final(self).wf(),
            final(self).view() == old(self).view().update(
                i as int,
                Session {
                    auth_method: AuthMethod::Certificate,
                    username: match client_username {
                        Some(u) => Some(u),
                        None => old(self).view()[i as int].username,
                    },
                    ..old(self).view()[i as int]
                },
            ),
    {
        let s = self.sessions[i].copied();
        let username = match client_username {
            Some(u) => Some(u),
            None => copy_opt(&s.username),
        };
        self.update_at(i, Session { auth_method: AuthMethod::Certificate, username, ..s });
    }
}

/// What the server sends once the push reply is ready.
#[derive(Clone, Debug)]
pub enum PushDelivery {
    /// OAuth is on: the reply is held back and the client is asked to authenticate at a URL.
    AuthPending { message: String, state: String },
    /// The reply is sent now and the session is established.
    PushReply { message: String },
}

/// Sends or defers the PUSH_REPLY of the session at a position. With OAuth, a fresh state
/// token is registered for the peer, the reply and cipher are kept in the session, and an
/// AUTH_PENDING message with the OAuth URL is returned; without OAuth the NUL-terminated reply
/// is returned and the session becomes established.
pub fn deliver_push_reply(
    table: &mut SessionTable,
    pending: &mut PendingOAuths,
    i: usize,
    reply: String,
    cipher: String,
    oauth_enabled: bool,
    public_host: &str,
    oauth_port: u16,
    external_url: Option<&str>,
    now_ms: u64,
) -> (r: PushDelivery)
    requires
        old(table).wf(),
        old(pending).wf(),
        i < old(table).view().len(),
    ensures
        final(table).wf(),
        final(pending).wf(),
        !oauth_enabled ==> (r matches PushDelivery::PushReply { message } && message@ == reply@.push('\0')
            && final(table).view() == old(table).view().update(i as int, Session { established: true, ..old(table).view()[i as int] })
            && final(pending).view() == old(pending).view()),
        oauth_enabled ==> (r matches PushDelivery::AuthPending { message, state } && message@
            == "AUTH_PENDING,timeout 120,OPEN_URL:"@ + crate::negotiation::oauth_start_url(
                crate::negotiation::oauth_base_url(public_host@, oauth_port, crate::negotiation::opt_str_view(external_url)),
                state@,
            ) + seq!['\0']
            && (exists|n: u64| state@ == crate::negotiation::state_token_text(n))
            && pending_peer(final(pending).view(), state@) == Some(old(table).view()[i as int].peer)
            && (forall|t: Seq<char>| t != state@ ==> pending_peer(final(pending).view(), t) == pending_peer(old(pending).view(), t))
            && final(table).view() == old(table).view().update(
                i as int,
                Session {
                    pending_push_reply: Some(reply),
                    oauth_state: Some(state),
                    negotiated_cipher: Some(cipher),
                    ..old(table).view()[i as int]
                },
            )),
{
    let s = table.at(i).copied();
    if oauth_enabled {
        let token = crate::negotiation::new_state_token();
        let peer = s.peer;
        pending.insert(token.clone(), peer, now_ms);
        let url = crate::negotiation::auth_url(public_host, oauth_port, external_url, token.as_str());
        let message = crate::negotiation::auth_pending_message(url.as_str());
        let updated = Session {
            pending_push_reply: Some(reply),
            oauth_state: Some(token.clone()),
            negotiated_cipher: Some(cipher),
            ..s
        };
        table.update_at(i, updated);
        PushDelivery::AuthPending { message, state: token }
    } else {
        let message = crate::negotiation::control_message(reply.as_str());
        table.mark_established(i);
        PushDelivery::PushReply { message }
    }
}

/// Which connection events the server logs.
#[derive(Clone, Copy, Debug, PartialEq, Eq, Structural)]
pub struct EventLogFlags {
    pub attempts: bool,
    pub auth_events: bool,
    pub renegotiations: bool,
}

/// The attempt event of a new session, when attempts are logged.
pub fn attempt_event(flags: EventLogFlags, builder: ConnectionEventBuilder, peer: SocketAddress) -> (r: Option<ConnectionEvent>)
    ensures
        !flags.attempts ==> r is None,
        flags.attempts ==> (r matches Some(e) && e matches ConnectionEvent::ConnectionAttempt {
            connection_id,
            client_addr,
            protocol_version,
            ..
        } && connection_id == builder.connection_id && client_addr == peer && protocol_version is None),
{
    if flags.attempts {
        Some(builder.attempt(peer))
    } else {
        None
    }
}

/// The successful-authentication event of a session, when authentication events are logged.
pub fn auth_success_event(flags: EventLogFlags, s: &Session) -> (r: Option<ConnectionEvent>)
    ensures
        !flags.auth_events ==> r is None,
        flags.auth_events ==> (r matches Some(e) && e matches ConnectionEvent::Authentication {
            connection_id,
            client_addr,
            username,
            auth_method,
            result,
            ..
        } && connection_id == s.connection_id && client_addr == s.peer && username == s.username
            && auth_method == s.auth_method && result == AuthResult::Success),
{
    if flags.auth_events {
        Some(
            ConnectionEventBuilder::with_id(s.connection_id).authentication(
                s.peer,
                copy_opt(&s.username),
                s.auth_method,
                AuthResult::Success,
            ),
        )
    } else {
        None
    }
}

/// The event of a key renegotiation, when renegotiations are logged.
pub fn renegotiation_event(flags: EventLogFlags, s: &Session) -> (r: Option<ConnectionEvent>)
    ensures
        !flags.renegotiations ==> r is None,
        flags.renegotiations ==> (r matches Some(e) && e matches ConnectionEvent::Renegotiation {
            connection_id,
            client_addr,
            success,
            ..
        } && connection_id == s.connection_id && client_addr == s.peer && success),
{
    if flags.renegotiations {
        Some(ConnectionEventBuilder::with_id(s.connection_id).renegotiation(s.peer, true))
    } else {
        None
    }
}


/// A packet from the TUN device is routed by its IPv4 destination field: for an IPv4 packet
/// of at least 20 bytes the result is the big-endian number of bytes 16 to 19, whatever the
/// source field (bytes 12 to 15) and the rest of the packet hold; shorter packets and other
/// IP versions are not routed.
pub proof fn law_tun_routes_by_destination(p: Seq<u8>, q: Seq<u8>)
    ensures
        p.len() < 20 || p[0] / 16 != 4 <==> tun_destination_of(p) is None,
        tun_destination_of(p) matches Some(a) ==> a / 0x100_0000 == p[16] && (a / 0x1_0000) % 0x100 == p[17] && (a
            / 0x100) % 0x100 == p[18] && a % 0x100 == p[19],
        p.len() == q.len() && (p.len() > 0 ==> p[0] == q[0]) && (p.len() >= 20 ==> p[16] == q[16] && p[17] == q[17] && p[18] == q[18]
            && p[19] == q[19]) ==> tun_destination_of(p) == tun_destination_of(q),
{
    if p.len() >= 20 && p[0] / 16 == 4 {
        let (b0, b1, b2, b3) = (p[16], p[17], p[18], p[19]);
        let v: int = b0 * 0x100_0000 + b1 * 0x1_0000 + b2 * 0x100 + b3;
        assert(0 <= v <= 0xffff_ffff) by (nonlinear_arith)
            requires
                b0 < 256,
                b1 < 256,
                b2 < 256,
                b3 < 256,
                v == b0 * 0x100_0000 + b1 * 0x1_0000 + b2 * 0x100 + b3,
        {}
        let a = v as u32;
        assert(a == v);
        assert(a / 0x100_0000 == b0 && (a / 0x1_0000) % 0x100 == b1 && (a / 0x100) % 0x100 == b2 && a % 0x100 == b3)
            by (nonlinear_arith)
            requires
                b0 < 256,
                b1 < 256,
                b2 < 256,
                b3 < 256,
                a == b0 * 0x100_0000 + b1 * 0x1_0000 + b2 * 0x100 + b3,
        {}
    }
}

} // verus!
