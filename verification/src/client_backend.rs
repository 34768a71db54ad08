//! Messages between the desktop client's interface and its connection worker, and the
//! decisions the interface takes on them.

use vstd::prelude::*;
use crate::client_state::{active_index, logged, AppState, ConnectionState, LogEntry, VpnProfile};
use crate::client_state::LogLevel as UiLevel;
use crate::client_types::{is_transition, VpnConnectionStatus};
use crate::text::{
    chars_of, contains_seq, contains_str, push_char, push_str, split_at_char, split_char,
    str_eq, str_is_empty, views,
};

verus! {

/// Commands sent from the interface to the connection worker.
#[derive(Debug)]
pub enum VpnCommand {
    /// Connect using the configuration file at this path
    Connect(String),
    /// Disconnect the active connection
    Disconnect,
}

/// Events sent from the connection worker to the interface.
#[derive(Clone, Debug)]
pub enum VpnEvent {
    /// Connection attempt started
    Connecting,
    /// TLS handshake started
    Handshaking,
    /// Authenticating (e.g., waiting for OAuth)
    Authenticating {
        /// OAuth URL to open, if any
        url: Option<String>,
    },
    /// Successfully connected
    Connected {
        /// Assigned VPN IP address
        vpn_ip: Option<String>,
        /// Server name/address
        server: String,
    },
    /// Disconnected cleanly
    Disconnected,
    /// An error occurred
    Error(String),
    /// Log message from the worker
    Log {
        /// Log level
        level: LogLevel,
        /// Message text
        message: String,
    },
}

/// Log level for worker messages.
#[derive(Clone, Copy, Debug, PartialEq, Eq, Structural)]
pub enum LogLevel {
    /// Debug
    Debug,
    /// Info
    Info,
    /// Warning
    Warn,
    /// Error
    Error,
}

/// Summary of a parsed .ovpn configuration for display.
#[derive(Clone, Debug)]
pub struct OvpnSummary {
    /// Remote server address:port
    pub remote: String,
    /// Protocol (udp/tcp)
    pub protocol: String,
    /// Cipher name
    pub cipher: String,
    /// Whether tls-auth is configured
    pub has_tls_auth: bool,
    /// Device type
    pub dev: String,
}

/// The events after which no connection task runs any more.
pub open spec fn ends_connection(e: VpnEvent) -> bool {
    e is Disconnected || e is Error
}

/// Whether a connection task still runs after a batch of events: one that ran stops at a
/// `Disconnected` or an `Error` event, and none starts.
pub fn active_after_events(active: bool, events: &Vec<VpnEvent>) -> (r: bool)
    ensures
        r == (active && forall|i: int| 0 <= i < events@.len() ==> !ends_connection(#[trigger] events@[i])),
{
    let mut r = active;
    let mut i: usize = 0;
    while i < events.len()
        invariant
            i <= events@.len(),
            r == (active && forall|k: int| 0 <= k < i ==> !ends_connection(#[trigger] events@[k])),
        decreases events@.len() - i,
    {
        match &events[i] {
            VpnEvent::Disconnected => {
                r = false;
            },
            VpnEvent::Error(_) => {
                r = false;
            },
            _ => {},
        }
        i = i + 1;
    }
    r
}

/// The event that opens a connection attempt: an informational log naming the file.
pub fn loading_event(config_path: &str) -> (e: VpnEvent)
    ensures
        e matches VpnEvent::Log { level, message } && level == LogLevel::Info && message@
            == "Loading config: "@ + config_path@,
{
    let mut m = "Loading config: ".to_owned();
    push_str(&mut m, config_path);
    VpnEvent::Log { level: LogLevel::Info, message: m }
}

/// The event that ends an attempt whose file did not parse.
pub fn parse_failure_event(error: &str) -> (e: VpnEvent)
    ensures
        e matches VpnEvent::Error(m) && m@ == "Failed to parse .ovpn: "@ + error@,
{
    let mut m = "Failed to parse .ovpn: ".to_owned();
    push_str(&mut m, error);
    VpnEvent::Error(m)
}

/// The text logged once a file has parsed.
pub open spec fn loaded_text(s: OvpnSummary) -> Seq<char> {
    "Loaded config: remote="@ + s.remote@ + ", cipher="@ + s.cipher@ + ", proto="@ + s.protocol@
}

/// The events once a file has parsed: a log of its remote, cipher and protocol, then
/// `Connecting`.
pub fn loaded_events(summary: &OvpnSummary) -> (r: Vec<VpnEvent>)
    ensures
        r@.len() == 2,
        r@[0] matches VpnEvent::Log { level, message } && level == LogLevel::Info && message@
            == loaded_text(*summary),
        r@[1] is Connecting,
{
    let mut m = "Loaded config: remote=".to_owned();
    push_str(&mut m, summary.remote.as_str());
    push_str(&mut m, ", cipher=");
    push_str(&mut m, summary.cipher.as_str());
    push_str(&mut m, ", proto=");
    push_str(&mut m, summary.protocol.as_str());
    let mut r: Vec<VpnEvent> = Vec::new();
    r.push(VpnEvent::Log { level: LogLevel::Info, message: m });
    r.push(VpnEvent::Connecting);
    r
}

/// Whether a connection error reads as pending authentication.
pub open spec fn mentions_auth(message: Seq<char>) -> bool {
    contains_seq(message, "AUTH_PENDING"@) || contains_seq(message, "auth"@)
}

/// The events that end a connection attempt, given how connecting went: `Connected` to the
/// server, or the error (announced by `Authenticating` when it mentions authentication); and
/// `Disconnected` last in either case.
pub fn outcome_events(server: String, outcome: Result<(), String>) -> (r: Vec<VpnEvent>)
    ensures
        match outcome {
            Ok(_) => r@ == seq![VpnEvent::Connected { vpn_ip: None, server }, VpnEvent::Disconnected],
            Err(m) => if mentions_auth(m@) {
                r@ == seq![VpnEvent::Authenticating { url: None }, VpnEvent::Error(m), VpnEvent::Disconnected]
            } else {
                r@ == seq![VpnEvent::Error(m), VpnEvent::Disconnected]
            },
        },
{
    let mut r: Vec<VpnEvent> = Vec::new();
    match outcome {
        Ok(_) => {
            r.push(VpnEvent::Connected { vpn_ip: None, server });
        },
        Err(m) => {
            let pending = contains_str(m.as_str(), "AUTH_PENDING");
            let lower = contains_str(m.as_str(), "auth");
            if pending || lower {
                r.push(VpnEvent::Authenticating { url: None });
            }
            r.push(VpnEvent::Error(m));
        },
    }
    r.push(VpnEvent::Disconnected);
    r
}

/// The last piece of a path that names something: empty pieces and `.` are skipped.
pub open spec fn last_named_piece(pieces: Seq<Seq<char>>) -> Option<Seq<char>>
    decreases pieces.len(),
{
    if pieces.len() == 0 {
        None
    } else if pieces.last().len() == 0 || pieces.last() == "."@ {
        last_named_piece(pieces.drop_last())
    } else {
        Some(pieces.last())
    }
}

/// The file name of a `/`-separated path: its last component, unless that is `..`.
pub open spec fn file_name_of(path: Seq<char>) -> Option<Seq<char>> {
    match last_named_piece(split_char(path, '/')) {
        Some(c) => if c == ".."@ {
            None
        } else {
            Some(c)
        },
        None => None,
    }
}

/// The position of the last `.` in a name, if any.
pub open spec fn last_dot(name: Seq<char>) -> Option<int>
    decreases name.len(),
{
    if name.len() == 0 {
        None
    } else if name.last() == '.' {
        Some(name.len() - 1)
    } else {
        last_dot(name.drop_last())
    }
}

/// The stem of a path's file name: the name without its final extension; a name with no
/// dot, or whose only dot leads it, is its own stem.
pub open spec fn file_stem_of(path: Seq<char>) -> Option<Seq<char>> {
    match file_name_of(path) {
        Some(n) => match last_dot(n) {
            Some(k) => if k == 0 {
                Some(n)
            } else {
                Some(n.subrange(0, k))
            },
            None => Some(n),
        },
        None => None,
    }
}

/// The stem of the file name of a `/`-separated path (`Path::file_stem`).
pub fn file_stem(path: &str) -> (r: Option<String>)
    ensures
        match file_stem_of(path@) {
            Some(t) => r matches Some(s) && s@ == t,
            None => r is None,
        },
{
    let pieces = split_at_char(path, '/');
    let ghost ps = views(pieces@);
    let mut i: usize = pieces.len();
    assert(ps.subrange(0, i as int) =~= ps);
    while i > 0
        invariant
            i <= pieces@.len(),
            ps == views(pieces@),
            ps == split_char(path@, '/'),
            last_named_piece(ps) == last_named_piece(ps.subrange(0, i as int)),
        ensures
            i <= pieces@.len(),
            last_named_piece(ps) == last_named_piece(ps.subrange(0, i as int)),
            i > 0 ==> ps[i - 1].len() != 0 && ps[i - 1] != "."@,
        decreases i,
    {
        let p = pieces[i - 1].as_str();
        proof {
            let sub = ps.subrange(0, i as int);
            assert(sub.drop_last() =~= ps.subrange(0, i - 1));
            assert(sub.last() == pieces@[i - 1]@);
        }
        if str_is_empty(p) || str_eq(p, ".") {
            i = i - 1;
        } else {
            break;
        }
    }
    if i == 0 {
        assert(ps.subrange(0, 0) =~= Seq::<Seq<char>>::empty());
        return None;
    }
    let name = pieces[i - 1].as_str();
    assert(last_named_piece(ps) == Some(name@)) by {
        let sub = ps.subrange(0, i as int);
        assert(sub.last() == name@);
    }
    if str_eq(name, "..") {
        return None;
    }
    let cs = chars_of(name);
    let mut k: usize = cs.len();
    assert(cs@.subrange(0, k as int) =~= cs@);
    while k > 0
        invariant
            k <= cs@.len(),
            cs@ == name@,
            last_dot(name@) == last_dot(cs@.subrange(0, k as int)),
            forall|j: int| k <= j < cs@.len() ==> cs@[j] != '.',
        ensures
            k <= cs@.len(),
            last_dot(name@) == last_dot(cs@.subrange(0, k as int)),
            k > 0 ==> cs@[k - 1] == '.',
        decreases k,
    {
        proof {
            let sub = cs@.subrange(0, k as int);
            assert(sub.drop_last() =~= cs@.subrange(0, k - 1));
        }
        if cs[k - 1] == '.' {
            break;
        }
        k = k - 1;
    }
    if k > 0 {
        assert(cs@.subrange(0, k as int).last() == '.');
        assert(last_dot(name@) == Some(k - 1));
    }
    if k <= 1 {
        if k == 0 {
            assert(cs@.subrange(0, 0) =~= Seq::<char>::empty());
        }
        return Some(name.to_owned());
    }
    let mut stem = String::new();
    let mut j: usize = 0;
    while j < k - 1
        invariant
            j <= k - 1,
            1 < k <= cs@.len(),
            stem@ == cs@.subrange(0, j as int),
        decreases k - 1 - j,
    {
        push_char(&mut stem, cs[j]);
        j = j + 1;
        assert(stem@ =~= cs@.subrange(0, j as int));
    }
    Some(stem)
}

/// Whether the interface redraws soon on its own: while the connection is being set up or
/// torn down, or while a connection task runs.
pub fn wants_repaint(status: VpnConnectionStatus, backend_active: bool) -> (r: bool)
    ensures
        r == (is_transition(status) || backend_active),
{
    status.is_transitioning() || backend_active
}

/// The interface's log level for a worker's log level.
pub open spec fn ui_level(l: LogLevel) -> UiLevel {
    match l {
        LogLevel::Debug => UiLevel::Debug,
        LogLevel::Info => UiLevel::Info,
        LogLevel::Warn => UiLevel::Warn,
        LogLevel::Error => UiLevel::Error,
    }
}

/// The log grew by one entry with the message, or stayed as it was when there is none.
pub open spec fn maybe_logged(before: Seq<LogEntry>, after: Seq<LogEntry>, level: UiLevel, message: Option<Seq<char>>) -> bool {
    match message {
        Some(m) => logged(before, after, level, m),
        None => after == before,
    }
}

/// What marking a connection as connected logs about the active profile, if there is one.
pub open spec fn active_profile_note(s: AppState) -> Option<Seq<char>> {
    match active_index(s) {
        Some(i) => Some("Connected to "@ + s.profiles@[i].server_addr@),
        None => None,
    }
}

/// What is logged about an assigned VPN address, if there is one.
pub open spec fn vpn_ip_note(ip: Option<String>) -> Option<Seq<char>> {
    match ip {
        Some(a) => Some("VPN IP: "@ + a@),
        None => None,
    }
}

/// The effect of a `Connected` event on the log: the active profile's server, the
/// assigned address and the reported server, each logged where there is one.
pub open spec fn connected_logs(old_state: AppState, after: Seq<LogEntry>, vpn_ip: Option<String>, server: String) -> bool {
    exists|m1: Seq<LogEntry>, m2: Seq<LogEntry>|
        maybe_logged(old_state.logs@, m1, UiLevel::Info, active_profile_note(old_state))
            && #[trigger] maybe_logged(m1, m2, UiLevel::Info, vpn_ip_note(vpn_ip))
            && logged(m2, after, UiLevel::Info, "Connected to "@ + server@)
}

/// The effect of an error on the connection and the log.
pub open spec fn error_applied(old_state: AppState, new_state: AppState, message: Seq<char>) -> bool {
    &&& new_state.connection.status == VpnConnectionStatus::Error
    &&& new_state.connection.last_error matches Some(e) && e@ == message
    &&& new_state.connection.server_addr == old_state.connection.server_addr
    &&& new_state.connection.connected_at == old_state.connection.connected_at
    &&& new_state.connection.stats == old_state.connection.stats
    &&& logged(old_state.logs@, new_state.logs@, UiLevel::Error, message)
}

/// The effect of one worker event on the interface state.
pub open spec fn event_applied(old_state: AppState, new_state: AppState, event: VpnEvent) -> bool {
    let info = UiLevel::Info;
    match event {
        VpnEvent::Connecting => new_state.connection == (ConnectionState {
            status: VpnConnectionStatus::Connecting,
            ..old_state.connection
        }) && logged(old_state.logs@, new_state.logs@, info, "Connecting..."@),
        VpnEvent::Handshaking => new_state.connection == old_state.connection && logged(
            old_state.logs@,
            new_state.logs@,
            info,
            "TLS handshake in progress..."@,
        ),
        VpnEvent::Authenticating { url } => new_state.connection == (ConnectionState {
            status: VpnConnectionStatus::Authenticating,
            ..old_state.connection
        }) && logged(
            old_state.logs@,
            new_state.logs@,
            info,
            match url {
                Some(u) => "Open in browser to authenticate: "@ + u@,
                None => "Authenticating..."@,
            },
        ),
        VpnEvent::Connected { vpn_ip, server } => {
            &&& new_state.connection.status == VpnConnectionStatus::Connected
            &&& new_state.connection.connected_at matches Some(t) && t.wf()
            &&& new_state.connection.server_addr == old_state.connection.server_addr
            &&& new_state.connection.stats == old_state.connection.stats
            &&& new_state.connection.last_error == old_state.connection.last_error
            &&& connected_logs(old_state, new_state.logs@, vpn_ip, server)
        },
        VpnEvent::Disconnected => if old_state.connection.status != VpnConnectionStatus::Disconnected {
            &&& new_state.connection.status == VpnConnectionStatus::Disconnected
            &&& new_state.connection.server_addr is None
            &&& new_state.connection.connected_at is None
            &&& new_state.connection.stats.bytes_rx == 0 && new_state.connection.stats.bytes_tx == 0
            &&& new_state.connection.stats.speed_rx == 0 && new_state.connection.stats.speed_tx == 0
            &&& new_state.connection.stats.duration_secs == 0
            &&& new_state.connection.last_error == old_state.connection.last_error
            &&& logged(old_state.logs@, new_state.logs@, info, "Disconnected"@)
        } else {
            new_state.connection == old_state.connection && new_state.logs@ == old_state.logs@
        },
        VpnEvent::Error(m) => error_applied(old_state, new_state, m@),
        VpnEvent::Log { level, message } => new_state.connection == old_state.connection && logged(
            old_state.logs@,
            new_state.logs@,
            ui_level(level),
            message@,
        ),
    }
}

impl AppState {
    /// Apply one event from the connection worker: update the connection status and log
    /// what happened. Profiles and the active profile are left alone.
    pub fn process_backend_event(&mut self, event: VpnEvent)
        ensures
            event_applied(*old(self), *final(self), event),
            final(self).profiles == old(self).profiles,
            final(self).active_profile == old(self).active_profile,
    {
        let ghost before = *self;
        match event {
            VpnEvent::Connecting => {
                self.connection.status = VpnConnectionStatus::Connecting;
                self.add_log(UiLevel::Info, "Connecting...");
            },
            VpnEvent::Handshaking => {
                self.add_log(UiLevel::Info, "TLS handshake in progress...");
            },
            VpnEvent::Authenticating { url } => {
                self.connection.status = VpnConnectionStatus::Authenticating;
                match url {
                    Some(u) => {
                        let mut m = "Open in browser to authenticate: ".to_owned();
                        push_str(&mut m, u.as_str());
                        self.add_log(UiLevel::Info, m.as_str());
                    },
                    None => {
                        self.add_log(UiLevel::Info, "Authenticating...");
                    },
                }
            },
            VpnEvent::Connected { vpn_ip, server } => {
                let ghost ip = vpn_ip;
                self.set_connected();
                let ghost l1 = self.logs@;
                assert(maybe_logged(before.logs@, l1, UiLevel::Info, active_profile_note(before)));
                match vpn_ip {
                    Some(a) => {
                        let mut m = "VPN IP: ".to_owned();
                        push_str(&mut m, a.as_str());
                        self.add_log(UiLevel::Info, m.as_str());
                    },
                    None => {},
                }
                let ghost l2 = self.logs@;
                assert(maybe_logged(l1, l2, UiLevel::Info, vpn_ip_note(ip)));
                let mut m = "Connected to ".to_owned();
                push_str(&mut m, server.as_str());
                self.add_log(UiLevel::Info, m.as_str());
                assert(logged(l2, self.logs@, UiLevel::Info, "Connected to "@ + server@));
                assert(connected_logs(before, self.logs@, ip, server));
            },
            VpnEvent::Disconnected => {
                if self.connection.status != VpnConnectionStatus::Disconnected {
                    self.set_disconnected();
                }
            },
            VpnEvent::Error(m) => {
                self.set_error(m);
            },
            VpnEvent::Log { level, message } => {
                let l = match level {
                    LogLevel::Debug => UiLevel::Debug,
                    LogLevel::Info => UiLevel::Info,
                    LogLevel::Warn => UiLevel::Warn,
                    LogLevel::Error => UiLevel::Error,
                };
                self.add_log(l, message.as_str());
            },
        }
    }
}

/// The name an imported profile gets: the stem of its file's name, or `Imported`.
pub open spec fn imported_name(path: Seq<char>) -> Seq<char> {
    match file_stem_of(path) {
        Some(s) => s,
        None => "Imported"@,
    }
}

/// The profile made from an imported file.
pub open spec fn is_imported_profile(p: VpnProfile, name: Seq<char>, path: String, s: OvpnSummary) -> bool {
    &&& p.name@ == name
    &&& p.config_path == Some(path)
    &&& p.server_addr == s.remote
    &&& p.protocol == s.protocol
    &&& p.cipher == s.cipher
    &&& p.has_tls_auth == s.has_tls_auth
    &&& !p.auto_connect
}

/// The text logged for an imported profile.
pub open spec fn imported_text(name: Seq<char>, remote: Seq<char>) -> Seq<char> {
    "Imported profile '"@ + name + "' ("@ + remote + ")"@
}

/// The configuration file of the active profile, if there is an active profile and it has one.
pub open spec fn active_config(s: AppState) -> Option<String> {
    match active_index(s) {
        Some(i) => s.profiles@[i].config_path,
        None => None,
    }
}

/// The error shown when a connection is asked for with no usable active profile.
pub open spec fn no_profile_text() -> Seq<char> {
    "No active profile selected. Import an .ovpn file first."@
}

impl AppState {
    /// Add the profile read from an .ovpn file at `path`, given the outcome of validating
    /// the file. A valid file becomes a profile named after the file's stem (`Imported`
    /// when there is none), which becomes the active profile when there was none; an
    /// invalid one sets the error `Failed to import: ` and the reason.
    pub fn import_ovpn(&mut self, path: String, validated: Result<OvpnSummary, String>)
        ensures
            match validated {
                Ok(summary) => {
                    let name = imported_name(path@);
                    &&& final(self).profiles@.len() == old(self).profiles@.len() + 1
                    &&& final(self).profiles@.drop_last() == old(self).profiles@
                    &&& is_imported_profile(final(self).profiles@.last(), name, path, summary)
                    &&& logged(old(self).logs@, final(self).logs@, UiLevel::Info, imported_text(name, summary.remote@))
                    &&& final(self).connection == old(self).connection
                    &&& old(self).active_profile is None ==> (final(self).active_profile matches Some(n) && n@ == name)
                    &&& old(self).active_profile is Some ==> final(self).active_profile == old(self).active_profile
                },
                Err(e) => {
                    &&& error_applied(*old(self), *final(self), "Failed to import: "@ + e@)
                    &&& final(self).profiles == old(self).profiles
                    &&& final(self).active_profile == old(self).active_profile
                },
            },
    {
        match validated {
            Ok(summary) => {
                let stem = file_stem(path.as_str());
                let file_name = match stem {
                    Some(s) => s,
                    None => "Imported".to_owned(),
                };
                assert(file_name@ == imported_name(path@));
                let ghost summary_copy = summary;
                let mut m = "Imported profile '".to_owned();
                push_str(&mut m, file_name.as_str());
                push_str(&mut m, "' (");
                push_str(&mut m, summary.remote.as_str());
                push_str(&mut m, ")");
                self.add_log(UiLevel::Info, m.as_str());
                let profile = VpnProfile {
                    name: file_name.clone(),
                    config_path: Some(path),
                    server_addr: summary.remote,
                    protocol: summary.protocol,
                    cipher: summary.cipher,
                    has_tls_auth: summary.has_tls_auth,
                    auto_connect: false,
                };
                self.profiles.push(profile);
                if self.active_profile.is_none() {
                    self.active_profile = Some(file_name);
                }
            },
            Err(e) => {
                let mut m = "Failed to import: ".to_owned();
                push_str(&mut m, e.as_str());
                self.set_error(m);
            },
        }
    }

    /// Start connecting with the active profile: the path of its configuration file is
    /// returned for the connection worker, and the state marks the connection as being set
    /// up. Without an active profile that has a file, the state shows an error and nothing
    /// is returned.
    pub fn start_connection(&mut self) -> (r: Option<String>)
        ensures
            match active_config(*old(self)) {
                Some(p) => {
                    &&& r == Some(p)
                    &&& final(self).connection == (ConnectionState {
                        status: VpnConnectionStatus::Connecting,
                        last_error: None,
                        ..old(self).connection
                    })
                    &&& logged(old(self).logs@, final(self).logs@, UiLevel::Info, "Initiating VPN connection..."@)
                },
                None => r is None && error_applied(*old(self), *final(self), no_profile_text()),
            },
            final(self).profiles == old(self).profiles,
            final(self).active_profile == old(self).active_profile,
    {
        let idx = self.active_profile_index();
        let path = match idx {
            Some(i) => match &self.profiles[i].config_path {
                Some(p) => Some(p.clone()),
                None => None,
            },
            None => None,
        };
        match path {
            Some(p) => {
                self.start_connecting();
                Some(p)
            },
            None => {
                self.set_error("No active profile selected. Import an .ovpn file first.".to_owned());
                None
            },
        }
    }
}

} // verus!
