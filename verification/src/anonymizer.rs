//! Event anonymizer: applies the configured privacy transforms to connection events.

use vstd::prelude::*;
use vstd::string::*;
use vstd::utf8::encode_utf8;
use crate::clock::{now, ordinal, ordinal_day, Timestamp, MAX_SECS};
use crate::conn_events::{ConnectionEvent, IpAddress, SocketAddress, TransferStats};
use crate::digest::{hmac_sha256, hmac_sha256_tag, sha256, sha256_digest};
use crate::text::{hex_fixed, push_str, write_hex_fixed};

verus! {

/// Which anonymization transforms apply to logged connection events.
#[derive(Clone, Copy, Debug, PartialEq, Eq, Structural)]
pub struct AnonymizationConfig {
    /// Replace client IPs with keyed hashes
    pub hash_client_ips: bool,
    /// Truncate client IPs (IPv4 to /24, IPv6 to /48)
    pub truncate_client_ips: bool,
    /// Replace usernames with keyed hashes
    pub hash_usernames: bool,
    /// Round timestamps down to the hour
    pub round_timestamps: bool,
    /// Replace transfer byte counts with size buckets
    pub aggregate_transfer_stats: bool,
}

impl Default for AnonymizationConfig {
    fn default() -> (r: Self)
        ensures
            !r.hash_client_ips && !r.truncate_client_ips && !r.hash_usernames
                && !r.round_timestamps && !r.aggregate_transfer_stats,
    {
        AnonymizationConfig {
            hash_client_ips: false,
            truncate_client_ips: false,
            hash_usernames: false,
            round_timestamps: false,
            aggregate_transfer_stats: false,
        }
    }
}

impl AnonymizationConfig {
    /// Whether any transform is enabled (the server only anonymizes when one is).
    pub fn any_enabled(&self) -> (r: bool)
        ensures
            r == (self.hash_client_ips || self.truncate_client_ips || self.hash_usernames
                || self.round_timestamps || self.aggregate_transfer_stats),
    {
        self.hash_client_ips || self.truncate_client_ips || self.hash_usernames
            || self.round_timestamps || self.aggregate_transfer_stats
    }
}

/// The lowest `n` bytes of `v`, most significant first.
pub open spec fn be_octets(v: nat, n: nat) -> Seq<u8>
    decreases n,
{
    if n == 0 {
        seq![]
    } else {
        be_octets(v / 256, (n - 1) as nat).push((v % 256) as u8)
    }
}

/// `n` zero bytes.
pub open spec fn zeros(n: nat) -> Seq<u8> {
    Seq::new(n, |i: int| 0u8)
}

/// The little-endian value of a byte sequence.
pub open spec fn le_value(b: Seq<u8>) -> nat
    decreases b.len(),
{
    if b.len() == 0 {
        0
    } else {
        b[0] as nat + 256 * le_value(b.drop_first())
    }
}

/// The four little-endian bytes of a 32-bit value (`u32::to_le_bytes`).
pub open spec fn le4(d: u32) -> Seq<u8> {
    seq![(d % 256) as u8, (d / 256 % 256) as u8, (d / 65536 % 256) as u8, (d / 16777216) as u8]
}

/// The salt of a day of the year: SHA-256 of the day's little-endian bytes followed by a
/// fixed label.
pub open spec fn salt_for_day(day: u32) -> Seq<u8> {
    sha256_digest(le4(day) + "corevpn-anonymizer-salt".spec_bytes())
}

/// The sixteen bytes that are hashed for an address: IPv4 octets padded with zeros, or the
/// IPv6 octets.
pub open spec fn ip_hash_input(ip: IpAddress) -> Seq<u8> {
    match ip {
        IpAddress::V4(v) => be_octets(v as nat, 4) + zeros(12),
        IpAddress::V6(v) => be_octets(v as nat, 16),
    }
}

/// The replacement address made from a keyed hash `t` of an address: in `0.0.0.0/8` for
/// IPv4 and in the documentation prefix `2001:db8::/32` for IPv6, filled from the leading
/// bytes of the hash.
pub open spec fn ip_from_tag(ip: IpAddress, t: Seq<u8>) -> IpAddress {
    match ip {
        IpAddress::V4(_) => IpAddress::V4((t[1] * 65536 + t[2] * 256 + t[3]) as u32),
        IpAddress::V6(_) => IpAddress::V6(
            (0x20010db8 * 0x1_0000_0000_0000_0000_0000_0000 + t[4] * 0x1_0000_0000_0000_0000_0000_00
                + t[5] * 0x1_0000_0000_0000_0000_0000 + t[6] * 0x1_0000_0000_0000_0000_00 + t[7]
                * 0x1_0000_0000_0000_0000 + t[0] * 0x1_0000_0000_0000_00 + t[1]
                * 0x1_0000_0000_0000 + t[2] * 0x1_0000_0000_00 + t[3] * 0x1_0000_0000) as u128,
        ),
    }
}

/// The replacement address for a hashed IP: made from the HMAC-SHA256 of the address under
/// the salt.
pub open spec fn hashed_ip(salt: Seq<u8>, ip: IpAddress) -> IpAddress {
    ip_from_tag(ip, hmac_sha256_tag(salt, ip_hash_input(ip)))
}

/// An address truncated to its network prefix: `/24` for IPv4, `/48` for IPv6.
pub open spec fn truncated_ip(ip: IpAddress) -> IpAddress {
    match ip {
        IpAddress::V4(v) => IpAddress::V4((v - v % 256) as u32),
        IpAddress::V6(v) => IpAddress::V6((v - v % 0x1_0000_0000_0000_0000_0000) as u128),
    }
}

/// The size bucket that stands for a byte count when transfer statistics are aggregated.
pub open spec fn bucket(bytes: u64) -> u64 {
    if bytes < 1024 {
        512
    } else if bytes < 10240 {
        5120
    } else if bytes < 102400 {
        51200
    } else if bytes < 1048576 {
        512000
    } else if bytes < 10485760 {
        5242880
    } else if bytes < 104857600 {
        52428800
    } else if bytes < 1073741824 {
        524288000
    } else {
        1073741824
    }
}

/// The pseudonym made from a keyed hash `t` of a username: `user_` and sixteen hexadecimal
/// digits of the little-endian value of the hash's first eight bytes.
pub open spec fn pseudonym_text(t: Seq<u8>) -> Seq<char> {
    "user_"@ + hex_fixed(le_value(t.subrange(0, 8)), 16)
}

/// The pseudonym of a username under a salt: made from the HMAC-SHA256 of its UTF-8 bytes.
pub open spec fn hashed_username(salt: Seq<u8>, username: Seq<char>) -> Seq<char> {
    pseudonym_text(hmac_sha256_tag(salt, encode_utf8(username)))
}

/// Anonymizes connection events based on configuration.
pub struct Anonymizer {
    config: AnonymizationConfig,
    /// Daily rotating salt for hashing (changes each day)
    daily_salt: Vec<u8>,
    /// Current day of the year (for salt rotation)
    current_day: u32,
}

/// Appends the lowest `n` bytes of `v`, most significant first.
fn push_be_octets(out: &mut Vec<u8>, v: u128, n: u32)
    ensures
        final(out)@ == old(out)@ + be_octets(v as nat, n as nat),
    decreases n,
{
    if n == 0 {
        assert(old(out)@ + be_octets(v as nat, 0) =~= old(out)@);
    } else {
        push_be_octets(out, v / 256, n - 1);
        out.push((v % 256) as u8);
        assert(final(out)@ =~= old(out)@ + be_octets(v as nat, n as nat));
    }
}

/// Appends `n` zero bytes.
fn push_zeros(out: &mut Vec<u8>, n: usize)
    ensures
        final(out)@ == old(out)@ + zeros(n as nat),
{
    let mut i: usize = 0;
    while i < n
        invariant
            i <= n,
            out@ == old(out)@ + zeros(i as nat),
        decreases n - i,
    {
        out.push(0u8);
        i = i + 1;
        assert(out@ =~= old(out)@ + zeros(i as nat));
    }
}

/// The value of `b[i..len]` read little-endian is below `256^(len - i)`.
proof fn lemma_le_value_bound(b: Seq<u8>)
    ensures
        le_value(b) < pow256(b.len()),
    decreases b.len(),
{
    if b.len() > 0 {
        lemma_le_value_bound(b.drop_first());
    }
}

/// `256^n`.
pub open spec fn pow256(n: nat) -> nat
    decreases n,
{
    if n == 0 {
        1
    } else {
        256 * pow256((n - 1) as nat)
    }
}

/// The little-endian value of the first eight bytes.
fn le_value8(b: &Vec<u8>) -> (h: u128)
    requires
        b@.len() >= 8,
    ensures
        h == le_value(b@.subrange(0, 8)),
        h < 0x1_0000_0000_0000_0000,
{
    let mut h: u128 = 0;
    let mut i: usize = 8;
    while i > 0
        invariant
            b@.len() >= 8,
            i <= 8,
            h == le_value(b@.subrange(i as int, 8)),
            h < pow256((8 - i) as nat),
        decreases i,
    {
        i = i - 1;
        proof {
            assert(b@.subrange(i as int, 8).drop_first() =~= b@.subrange(i + 1, 8));
            assert(pow256((8 - i) as nat) == 256 * pow256((8 - i - 1) as nat));
            lemma_pow256_8();
            assert(h * 256 + 255 < pow256((8 - i) as nat)) by (nonlinear_arith)
                requires
                    h < pow256((8 - i - 1) as nat),
                    pow256((8 - i) as nat) == 256 * pow256((8 - i - 1) as nat),
            ;
            assert(pow256((8 - i) as nat) <= pow256(8)) by {
                lemma_pow256_mono((8 - i) as nat, 8);
            }
        }
        h = (b[i] as u128) + 256 * h;
    }
    proof {
        lemma_pow256_8();
    }
    h
}

/// `256^8 = 2^64`.
proof fn lemma_pow256_8()
    ensures
        pow256(8) == 0x1_0000_0000_0000_0000,
{
    assert(pow256(0) == 1);
    assert(pow256(1) == 256);
    assert(pow256(2) == 65536);
    assert(pow256(3) == 16777216);
    assert(pow256(4) == 4294967296);
    assert(pow256(5) == 1099511627776);
    assert(pow256(6) == 281474976710656);
    assert(pow256(7) == 72057594037927936);
}

/// `256^n` grows with `n`.
proof fn lemma_pow256_mono(m: nat, n: nat)
    requires
        m <= n,
    ensures
        pow256(m) <= pow256(n),
    decreases n - m,
{
    if m < n {
        lemma_pow256_mono(m, (n - 1) as nat);
    }
}

/// The salt of a day of the year.
fn generate_salt(day: u32) -> (salt: Vec<u8>)
    ensures
        salt@ == salt_for_day(day),
        salt@.len() == 32,
{
    let mut input: Vec<u8> = Vec::new();
    input.push((day % 256) as u8);
    input.push((day / 256 % 256) as u8);
    input.push((day / 65536 % 256) as u8);
    input.push((day / 16777216) as u8);
    let label = "corevpn-anonymizer-salt".as_bytes();
    let mut i: usize = 0;
    while i < label.len()
        invariant
            i <= label@.len(),
            input@ == le4(day) + label@.subrange(0, i as int),
        decreases label@.len() - i,
    {
        input.push(label[i]);
        i = i + 1;
        assert(input@ =~= le4(day) + label@.subrange(0, i as int));
    }
    assert(label@.subrange(0, label@.len() as int) =~= label@);
    sha256(input.as_slice())
}

impl Anonymizer {
    /// The configuration the anonymizer applies.
    pub closed spec fn config(&self) -> AnonymizationConfig {
        self.config
    }

    /// The salt that keys the hashes.
    pub closed spec fn salt(&self) -> Seq<u8> {
        self.daily_salt@
    }

    /// The day of the year that the salt belongs to.
    pub closed spec fn day(&self) -> u32 {
        self.current_day
    }

    /// The salt is the one of the recorded day.
    pub closed spec fn wf(&self) -> bool {
        self.daily_salt@ == salt_for_day(self.current_day)
    }

    /// An anonymizer keyed with today's salt.
    pub fn new(config: AnonymizationConfig) -> (r: Self)
        ensures
            r.wf(),
            r.config() == config,
            r.salt() == salt_for_day(r.day()),
            1 <= r.day() <= 366,
    {
        let t = now();
        let day = ordinal(&t);
        Anonymizer { config, daily_salt: generate_salt(day), current_day: day }
    }

    /// Switches to the salt of the given day of the year if it differs from the current one.
    pub fn rotate_salt_for_day(&mut self, day: u32)
        requires
            old(self).wf(),
        ensures
            final(self).wf(),
            final(self).config() == old(self).config(),
            final(self).day() == day,
            final(self).salt() == salt_for_day(day),
    {
        if day != self.current_day {
            self.daily_salt = generate_salt(day);
            self.current_day = day;
        }
    }

    /// Switches to today's salt if the day has changed.
    pub fn rotate_salt_if_needed(&mut self)
        requires
            old(self).wf(),
        ensures
            final(self).wf(),
            final(self).config() == old(self).config(),
            final(self).salt() == salt_for_day(final(self).day()),
            1 <= final(self).day() <= 366,
    {
        let t = now();
        let day = ordinal(&t);
        self.rotate_salt_for_day(day);
    }

    /// The timestamp as logged: rounded to the nearest hour when configured.
    pub fn anonymize_timestamp(&self, timestamp: Timestamp) -> (r: Timestamp)
        requires
            timestamp.wf(),
        ensures
            r.wf(),
            r == (if self.config().round_timestamps {
                timestamp.nearest_hour()
            } else {
                timestamp
            }),
    {
        if self.config.round_timestamps {
            timestamp.round_to_hour()
        } else {
            timestamp
        }
    }

    /// Keyed hash of an address, mapped into a reserved range.
    pub fn hash_ip(&self, ip: IpAddress) -> (r: IpAddress)
        ensures
            r == hashed_ip(self.salt(), ip),
    {
        let mut input: Vec<u8> = Vec::new();
        match ip {
            IpAddress::V4(v) => {
                push_be_octets(&mut input, v as u128, 4);
                push_zeros(&mut input, 12);
            },
            IpAddress::V6(v) => {
                push_be_octets(&mut input, v, 16);
            },
        }
        assert(input@ =~= ip_hash_input(ip));
        let t = hmac_sha256(self.daily_salt.as_slice(), input.as_slice());
        address_from_tag(ip, &t)
    }

    /// The address truncated to its network prefix (IPv4 `/24`, IPv6 `/48`).
    pub fn truncate_ip(&self, ip: IpAddress) -> (r: IpAddress)
        ensures
            r == truncated_ip(ip),
    {
        match ip {
            IpAddress::V4(v) => IpAddress::V4(v - v % 256),
            IpAddress::V6(v) => IpAddress::V6(v - v % 0x1_0000_0000_0000_0000_0000u128),
        }
    }

    /// The socket address as logged: the IP hashed or truncated as configured (hashing wins),
    /// and the port always zero.
    pub fn anonymize_socket_addr(&self, addr: SocketAddress) -> (r: SocketAddress)
        ensures
            r.port == 0,
            r.ip == (if self.config().hash_client_ips {
                hashed_ip(self.salt(), addr.ip)
            } else if self.config().truncate_client_ips {
                truncated_ip(addr.ip)
            } else {
                addr.ip
            }),
    {
        let ip = if self.config.hash_client_ips {
            self.hash_ip(addr.ip)
        } else if self.config.truncate_client_ips {
            self.truncate_ip(addr.ip)
        } else {
            addr.ip
        };
        SocketAddress { ip, port: 0 }
    }

    /// The username as logged: its pseudonym when usernames are hashed.
    pub fn anonymize_username(&self, username: Option<String>) -> (r: Option<String>)
        ensures
            match username {
                None => r is None,
                Some(u) => if self.config().hash_usernames {
                    r matches Some(h) && h@ == hashed_username(self.salt(), u@)
                } else {
                    r == Some(u)
                },
            },
    {
        if !self.config.hash_usernames {
            return username;
        }
        match username {
            None => None,
            Some(u) => {
                let t = hmac_sha256(self.daily_salt.as_slice(), u.as_str().as_bytes());
                Some(pseudonym_from_tag(&t))
            },
        }
    }

    /// The statistics as logged: byte counts replaced by their buckets and packet counts
    /// dropped when aggregation is configured.
    pub fn anonymize_stats(&self, stats: Option<TransferStats>) -> (r: Option<TransferStats>)
        ensures
            match stats {
                None => r is None,
                Some(s) => if self.config().aggregate_transfer_stats {
                    r == Some(
                        TransferStats {
                            bytes_rx: bucket(s.bytes_rx),
                            bytes_tx: bucket(s.bytes_tx),
                            packets_rx: 0,
                            packets_tx: 0,
                        },
                    )
                } else {
                    r == Some(s)
                },
            },
    {
        if !self.config.aggregate_transfer_stats {
            return stats;
        }
        match stats {
            None => None,
            Some(s) => Some(
                TransferStats {
                    bytes_rx: bucket_of(s.bytes_rx),
                    bytes_tx: bucket_of(s.bytes_tx),
                    packets_rx: 0,
                    packets_tx: 0,
                },
            ),
        }
    }
}

/// The replacement address made from a keyed hash of an address.
pub fn address_from_tag(ip: IpAddress, t: &Vec<u8>) -> (r: IpAddress)
    requires
        t@.len() >= 8,
    ensures
        r == ip_from_tag(ip, t@),
{
    match ip {
        IpAddress::V4(_) => IpAddress::V4(
            (t[1] as u32) * 65536 + (t[2] as u32) * 256 + (t[3] as u32),
        ),
        IpAddress::V6(_) => IpAddress::V6(
            0x20010db8u128 * 0x1_0000_0000_0000_0000_0000_0000u128 + (t[4] as u128)
                * 0x1_0000_0000_0000_0000_0000_00u128 + (t[5] as u128)
                * 0x1_0000_0000_0000_0000_0000u128 + (t[6] as u128)
                * 0x1_0000_0000_0000_0000_00u128 + (t[7] as u128)
                * 0x1_0000_0000_0000_0000u128 + (t[0] as u128) * 0x1_0000_0000_0000_00u128
                + (t[1] as u128) * 0x1_0000_0000_0000u128 + (t[2] as u128)
                * 0x1_0000_0000_00u128 + (t[3] as u128) * 0x1_0000_0000u128,
        ),
    }
}

/// The pseudonym made from a keyed hash of a username.
pub fn pseudonym_from_tag(t: &Vec<u8>) -> (r: String)
    requires
        t@.len() >= 8,
    ensures
        r@ == pseudonym_text(t@),
{
    let h = le_value8(t);
    let mut out = "user_".to_owned();
    write_hex_fixed(&mut out, h, 16);
    out
}

/// The size bucket of a byte count.
pub fn bucket_of(bytes: u64) -> (r: u64)
    ensures
        r == bucket(bytes),
{
    if bytes <= 1023 {
        512
    } else if bytes <= 10239 {
        5 * 1024
    } else if bytes <= 102399 {
        50 * 1024
    } else if bytes <= 1048575 {
        500 * 1024
    } else if bytes <= 10485759 {
        5 * 1024 * 1024
    } else if bytes <= 104857599 {
        50 * 1024 * 1024
    } else if bytes <= 1073741823 {
        500 * 1024 * 1024
    } else {
        1024 * 1024 * 1024
    }
}


/// The timestamp as logged under a configuration.
pub open spec fn anon_timestamp(cfg: AnonymizationConfig, t: Timestamp) -> Timestamp {
    if cfg.round_timestamps {
        t.nearest_hour()
    } else {
        t
    }
}

/// The socket address as logged under a configuration and salt.
pub open spec fn anon_addr(cfg: AnonymizationConfig, salt: Seq<u8>, a: SocketAddress) -> SocketAddress {
    SocketAddress {
        ip: if cfg.hash_client_ips {
            hashed_ip(salt, a.ip)
        } else if cfg.truncate_client_ips {
            truncated_ip(a.ip)
        } else {
            a.ip
        },
        port: 0,
    }
}

/// `out` is the username as logged for `input`.
pub open spec fn anon_username(
    cfg: AnonymizationConfig,
    salt: Seq<u8>,
    input: Option<String>,
    out: Option<String>,
) -> bool {
    match input {
        None => out is None,
        Some(u) => if cfg.hash_usernames {
            out matches Some(h) && h@ == hashed_username(salt, u@)
        } else {
            out == Some(u)
        },
    }
}

/// The statistics as logged under a configuration.
pub open spec fn anon_stats(cfg: AnonymizationConfig, s: Option<TransferStats>) -> Option<TransferStats> {
    match s {
        None => None,
        Some(s) => if cfg.aggregate_transfer_stats {
            Some(
                TransferStats {
                    bytes_rx: bucket(s.bytes_rx),
                    bytes_tx: bucket(s.bytes_tx),
                    packets_rx: 0,
                    packets_tx: 0,
                },
            )
        } else {
            Some(s)
        },
    }
}

/// `r` is the event `e` as logged: the same kind of event about the same connection, with
/// timestamps, addresses, usernames and statistics transformed as configured, and the
/// free-text details and client information that could identify a client removed.
pub open spec fn is_anonymized(
    cfg: AnonymizationConfig,
    salt: Seq<u8>,
    e: ConnectionEvent,
    r: ConnectionEvent,
) -> bool {
    match e {
        ConnectionEvent::ConnectionAttempt {
            connection_id,
            timestamp,
            client_addr,
            protocol_version,
        } => r == ConnectionEvent::ConnectionAttempt {
            connection_id,
            timestamp: anon_timestamp(cfg, timestamp),
            client_addr: anon_addr(cfg, salt, client_addr),
            protocol_version,
        },
        ConnectionEvent::Authentication {
            connection_id,
            timestamp,
            client_addr,
            username,
            auth_method,
            result,
            details,
        } => r matches ConnectionEvent::Authentication {
            connection_id: c,
            timestamp: t,
            client_addr: a,
            username: u,
            auth_method: m,
            result: res,
            details: d,
        } && c == connection_id && t == anon_timestamp(cfg, timestamp) && a == anon_addr(
            cfg,
            salt,
            client_addr,
        ) && anon_username(cfg, salt, username, u) && m == auth_method && res == result
            && d is None,
        ConnectionEvent::Connected {
            connection_id,
            timestamp,
            client_addr,
            username,
            vpn_ip,
            auth_method,
            client_info,
        } => r matches ConnectionEvent::Connected {
            connection_id: c,
            timestamp: t,
            client_addr: a,
            username: u,
            vpn_ip: v,
            auth_method: m,
            client_info: ci,
        } && c == connection_id && t == anon_timestamp(cfg, timestamp) && a == anon_addr(
            cfg,
            salt,
            client_addr,
        ) && anon_username(cfg, salt, username, u) && v == vpn_ip && m == auth_method
            && ci is None,
        ConnectionEvent::Disconnected {
            connection_id,
            timestamp,
            client_addr,
            username,
            reason,
            duration,
            stats,
        } => r matches ConnectionEvent::Disconnected {
            connection_id: c,
            timestamp: t,
            client_addr: a,
            username: u,
            reason: rs,
            duration: d,
            stats: st,
        } && c == connection_id && t == anon_timestamp(cfg, timestamp) && a == anon_addr(
            cfg,
            salt,
            client_addr,
        ) && anon_username(cfg, salt, username, u) && rs == reason && d == duration && st
            == anon_stats(cfg, stats),
        ConnectionEvent::IpChange { connection_id, timestamp, old_addr, new_addr, username } => r
            matches ConnectionEvent::IpChange {
            connection_id: c,
            timestamp: t,
            old_addr: o,
            new_addr: n,
            username: u,
        } && c == connection_id && t == anon_timestamp(cfg, timestamp) && o == anon_addr(
            cfg,
            salt,
            old_addr,
        ) && n == anon_addr(cfg, salt, new_addr) && anon_username(cfg, salt, username, u),
        ConnectionEvent::Renegotiation { connection_id, timestamp, client_addr, success } => r
            == ConnectionEvent::Renegotiation {
            connection_id,
            timestamp: anon_timestamp(cfg, timestamp),
            client_addr: anon_addr(cfg, salt, client_addr),
            success,
        },
    }
}

impl Anonymizer {
    /// Anonymizes an event with the current salt.
    pub fn anonymize_with_current_salt(&self, event: ConnectionEvent) -> (r: ConnectionEvent)
        requires
            event_timestamp_wf(event),
        ensures
            is_anonymized(self.config(), self.salt(), event, r),
    {
        match event {
            ConnectionEvent::ConnectionAttempt {
                connection_id,
                timestamp,
                client_addr,
                protocol_version,
            } => ConnectionEvent::ConnectionAttempt {
                connection_id,
                timestamp: self.anonymize_timestamp(timestamp),
                client_addr: self.anonymize_socket_addr(client_addr),
                protocol_version,
            },
            ConnectionEvent::Authentication {
                connection_id,
                timestamp,
                client_addr,
                username,
                auth_method,
                result,
                details: _,
            } => ConnectionEvent::Authentication {
                connection_id,
                timestamp: self.anonymize_timestamp(timestamp),
                client_addr: self.anonymize_socket_addr(client_addr),
                username: self.anonymize_username(username),
                auth_method,
                result,
                details: None,
            },
            ConnectionEvent::Connected {
                connection_id,
                timestamp,
                client_addr,
                username,
                vpn_ip,
                auth_method,
                client_info: _,
            } => ConnectionEvent::Connected {
                connection_id,
                timestamp: self.anonymize_timestamp(timestamp),
                client_addr: self.anonymize_socket_addr(client_addr),
                username: self.anonymize_username(username),
                vpn_ip,
                auth_method,
                client_info: None,
            },
            ConnectionEvent::Disconnected {
                connection_id,
                timestamp,
                client_addr,
                username,
                reason,
                duration,
                stats,
            } => ConnectionEvent::Disconnected {
                connection_id,
                timestamp: self.anonymize_timestamp(timestamp),
                client_addr: self.anonymize_socket_addr(client_addr),
                username: self.anonymize_username(username),
                reason,
                duration,
                stats: self.anonymize_stats(stats),
            },
            ConnectionEvent::IpChange { connection_id, timestamp, old_addr, new_addr, username } =>
            ConnectionEvent::IpChange {
                connection_id,
                timestamp: self.anonymize_timestamp(timestamp),
                old_addr: self.anonymize_socket_addr(old_addr),
                new_addr: self.anonymize_socket_addr(new_addr),
                username: self.anonymize_username(username),
            },
            ConnectionEvent::Renegotiation { connection_id, timestamp, client_addr, success } =>
            ConnectionEvent::Renegotiation {
                connection_id,
                timestamp: self.anonymize_timestamp(timestamp),
                client_addr: self.anonymize_socket_addr(client_addr),
                success,
            },
        }
    }

    /// Anonymize a connection event: switch to today's salt if the day has changed, then
    /// apply the configured transforms.
    pub fn anonymize(&mut self, event: ConnectionEvent) -> (r: ConnectionEvent)
        requires
            old(self).wf(),
            event_timestamp_wf(event),
        ensures
            final(self).wf(),
            final(self).config() == old(self).config(),
            final(self).salt() == salt_for_day(final(self).day()),
            is_anonymized(final(self).config(), final(self).salt(), event, r),
    {
        self.rotate_salt_if_needed();
        self.anonymize_with_current_salt(event)
    }
}

/// Every timestamp in the event lies in chrono's range.
pub open spec fn event_timestamp_wf(e: ConnectionEvent) -> bool {
    crate::conn_events::event_timestamp(e).wf()
}


/// Hashed addresses stay in reserved ranges, so they are never mistaken for real clients:
/// IPv4 ones lie in `0.0.0.0/8`, IPv6 ones in the documentation prefix `2001:db8::/32`.
pub proof fn law_hashed_addresses_are_reserved(salt: Seq<u8>, ip: IpAddress)
    ensures
        hashed_ip(salt, ip) matches IpAddress::V4(v) ==> v < 0x100_0000,
        hashed_ip(salt, ip) matches IpAddress::V6(v) ==> v / 0x1_0000_0000_0000_0000_0000_0000 == 0x20010db8,
{
    let t = hmac_sha256_tag(salt, ip_hash_input(ip));
    let (b0, b1, b2, b3, b4, b5, b6, b7) = (t[0] as int, t[1] as int, t[2] as int, t[3] as int, t[4] as int, t[5] as int, t[6] as int, t[7] as int);
    match ip {
        IpAddress::V4(_) => {
            assert(b1 * 65536 + b2 * 256 + b3 < 0x100_0000) by (nonlinear_arith)
                requires 0 <= b1 < 256, 0 <= b2 < 256, 0 <= b3 < 256;
        },
        IpAddress::V6(_) => {
            let low = b4 * 0x1_0000_0000_0000_0000_0000_00 + b5 * 0x1_0000_0000_0000_0000_0000
                + b6 * 0x1_0000_0000_0000_0000_00 + b7 * 0x1_0000_0000_0000_0000 + b0
                * 0x1_0000_0000_0000_00 + b1 * 0x1_0000_0000_0000 + b2 * 0x1_0000_0000_00 + b3
                * 0x1_0000_0000;
            assert(0 <= low < 0x1_0000_0000_0000_0000_0000_0000) by (nonlinear_arith)
                requires
                    0 <= b0 < 256, 0 <= b1 < 256, 0 <= b2 < 256, 0 <= b3 < 256,
                    0 <= b4 < 256, 0 <= b5 < 256, 0 <= b6 < 256, 0 <= b7 < 256,
                    low == b4 * 0x1_0000_0000_0000_0000_0000_00 + b5 * 0x1_0000_0000_0000_0000_0000
                        + b6 * 0x1_0000_0000_0000_0000_00 + b7 * 0x1_0000_0000_0000_0000 + b0
                        * 0x1_0000_0000_0000_00 + b1 * 0x1_0000_0000_0000 + b2 * 0x1_0000_0000_00 + b3
                        * 0x1_0000_0000;
            let v = 0x20010db8 * 0x1_0000_0000_0000_0000_0000_0000 + low;
            assert(v / 0x1_0000_0000_0000_0000_0000_0000 == 0x20010db8) by (nonlinear_arith)
                requires
                    v == 0x20010db8 * 0x1_0000_0000_0000_0000_0000_0000 + low,
                    0 <= low < 0x1_0000_0000_0000_0000_0000_0000;
            assert(v < 0x1_0000_0000_0000_0000_0000_0000_0000_0000);
        },
    }
}

/// Truncating an address twice gives the same prefix as truncating it once.
pub proof fn law_truncation_idempotent(ip: IpAddress)
    ensures
        truncated_ip(truncated_ip(ip)) == truncated_ip(ip),
{
}

/// Rounding a timestamp to the hour twice gives the same instant as rounding it once.
pub proof fn law_rounding_idempotent(cfg: AnonymizationConfig, t: Timestamp)
    requires
        t.wf(),
    ensures
        anon_timestamp(cfg, anon_timestamp(cfg, t)) == anon_timestamp(cfg, t),
{
    if cfg.round_timestamps {
        lemma_nearest_hour_on_boundary(t);
    }
}

/// A rounded timestamp lies on an hour boundary, no more than half an hour from the original
/// instant, and (unless the next boundary lies beyond chrono's range) no boundary is nearer.
pub proof fn law_rounding_nearest(t: Timestamp)
    requires
        t.wf(),
    ensures
        t.nearest_hour().secs % 3600 == 0,
        t.nearest_hour().nanos == 0,
        t.nearest_hour().secs - 1800 <= t.secs,
        t.secs < t.nearest_hour().secs + 3600,
        t.nearest_hour().secs + 3600 <= MAX_SECS ==> t.secs < t.nearest_hour().secs + 1800,
{
    lemma_nearest_hour_on_boundary(t);
}

proof fn lemma_nearest_hour_on_boundary(t: Timestamp)
    requires
        t.wf(),
    ensures
        t.nearest_hour().wf(),
        t.nearest_hour().secs % 3600 == 0,
        t.nearest_hour().nearest_hour() == t.nearest_hour(),
{
    let s = t.secs as int;
    vstd::arithmetic::div_mod::lemma_fundamental_div_mod(s, 3600);
    assert(s - s % 3600 == 3600 * (s / 3600));
    assert((3600 * (s / 3600)) % 3600 == 0) by {
        vstd::arithmetic::div_mod::lemma_mod_multiples_basic(s / 3600, 3600);
        vstd::arithmetic::mul::lemma_mul_is_commutative(s / 3600, 3600);
    }
    assert((3600 * (s / 3600 + 1)) % 3600 == 0) by {
        vstd::arithmetic::div_mod::lemma_mod_multiples_basic(s / 3600 + 1, 3600);
        vstd::arithmetic::mul::lemma_mul_is_commutative(s / 3600 + 1, 3600);
    }
    assert(3600 * (s / 3600 + 1) == 3600 * (s / 3600) + 3600) by {
        vstd::arithmetic::mul::lemma_mul_is_distributive_add(3600, s / 3600, 1);
    }
}

/// Bucketing preserves the order of byte counts.
pub proof fn law_bucket_monotone(a: u64, b: u64)
    requires
        a <= b,
    ensures
        bucket(a) <= bucket(b),
{
}

/// An anonymized event is the same kind of event about the same connection, and every
/// address it carries has port zero.
pub proof fn law_anonymized_keeps_identity(
    cfg: AnonymizationConfig,
    salt: Seq<u8>,
    e: ConnectionEvent,
    r: ConnectionEvent,
)
    requires
        is_anonymized(cfg, salt, e, r),
    ensures
        crate::conn_events::event_connection_id(r) == crate::conn_events::event_connection_id(e),
        crate::conn_events::event_type_name(r) == crate::conn_events::event_type_name(e),
        crate::conn_events::event_client_addr(r).port == 0,
        crate::conn_events::event_timestamp(r) == anon_timestamp(
            cfg,
            crate::conn_events::event_timestamp(e),
        ),
{
}

/// With no transform enabled, anonymization only zeroes ports and drops the free-text
/// details and client information.
pub proof fn law_disabled_keeps_values(salt: Seq<u8>, e: ConnectionEvent, r: ConnectionEvent)
    requires
        is_anonymized(
            AnonymizationConfig {
                hash_client_ips: false,
                truncate_client_ips: false,
                hash_usernames: false,
                round_timestamps: false,
                aggregate_transfer_stats: false,
            },
            salt,
            e,
            r,
        ),
    ensures
        crate::conn_events::event_timestamp(r) == crate::conn_events::event_timestamp(e),
        crate::conn_events::event_client_addr(r).ip == crate::conn_events::event_client_addr(e).ip,
{
}


/// Every byte count lies in the band of its bucket: counts below 1 KiB share the bucket of
/// 512 bytes, counts of 1 GiB and more the bucket of 1 GiB, and in between the bucket is at
/// most five times the count and more than the count divided by 2.048 (so `[102400, 1048576)`
/// maps to 512000, `[1024, 10240)` to 5120, and so on).
pub proof fn law_bucket_band(bytes: u64)
    ensures
        bytes < 1024 ==> bucket(bytes) == 512,
        bytes >= 0x4000_0000 ==> bucket(bytes) == 0x4000_0000,
        1024 <= bytes < 0x4000_0000 ==> bucket(bytes) <= 5 * bytes && bytes * 1000 < bucket(bytes) * 2048,
{
}

} // verus!
