//! State of the desktop VPN client: profiles, connection progress, authentication, logs and
//! the reaction to events from the connection worker.

use vstd::prelude::*;
use crate::client_types::{AuthMethod, ConnectionStats, VpnConnectionStatus};
use crate::clock::{now, Timestamp};
use crate::text::{contains_seq, contains_str, push_str, str_eq, utf8_len};

verus! {

/// A string wiped from memory when dropped (`zeroize::Zeroizing<String>`).
#[verifier::external_body]
pub struct SecretString {
    inner: zeroize::Zeroizing<String>,
}

/// The text a secret string holds.
pub uninterp spec fn secret_text(z: SecretString) -> Seq<char>;

/// `Zeroizing::new`: wraps a string that is wiped when dropped.
#[verifier::external_body]
pub(crate) fn new_secret(s: String) -> (r: SecretString)
    ensures
        secret_text(r) == s@,
{
    SecretString { inner: zeroize::Zeroizing::new(s) }
}

/// `Deref` of a zeroizing string: the text it holds.
#[verifier::external_body]
pub(crate) fn secret_str(z: &SecretString) -> (r: &str)
    ensures
        r@ == secret_text(*z),
{
    std::ops::Deref::deref(&z.inner).as_str()
}

/// `DerefMut` of a zeroizing string: the string it holds, for editing.
#[verifier::external_body]
pub(crate) fn secret_mut(z: &mut SecretString) -> (r: &mut String)
    ensures
        (*r)@ == secret_text(*old(z)),
        secret_text(*final(z)) == (*final(r))@,
{
    std::ops::DerefMut::deref_mut(&mut z.inner)
}

/// Log level.
#[derive(Clone, Copy, Debug, PartialEq, Eq, Structural)]
pub enum LogLevel {
    /// Debug level
    Debug,
    /// Info level
    Info,
    /// Warning level
    Warn,
    /// Error level
    Error,
}

/// The display text of a log level.
pub open spec fn level_text(l: LogLevel) -> Seq<char> {
    match l {
        LogLevel::Debug => "DEBUG"@,
        LogLevel::Info => "INFO"@,
        LogLevel::Warn => "WARN"@,
        LogLevel::Error => "ERROR"@,
    }
}

impl LogLevel {
    /// Get the display string.
    pub fn as_str(&self) -> (r: &'static str)
        ensures
            r@ == level_text(*self),
    {
        match self {
            LogLevel::Debug => "DEBUG",
            LogLevel::Info => "INFO",
            LogLevel::Warn => "WARN",
            LogLevel::Error => "ERROR",
        }
    }
}

/// Application views.
#[derive(Clone, Copy, Debug, PartialEq, Eq, Structural)]
pub enum AppView {
    /// Main connection view
    Connection,
    /// Server selection list
    ServerList,
    /// Profile management
    Profiles,
    /// Settings
    Settings,
    /// Connection logs
    Logs,
    /// About/Help
    About,
}

impl Default for AppView {
    fn default() -> (r: Self)
        ensures
            r == AppView::Connection,
    {
        AppView::Connection
    }
}

/// Authentication state.
#[derive(Clone, Debug)]
pub enum AuthState {
    /// Not authenticated
    NotAuthenticated,
    /// Authenticating via OAuth2/SAML (browser opened)
    AwaitingSso { url: Option<String> },
    /// Authenticated with credentials
    Authenticated { email: String, name: Option<String>, expires_at: Option<Timestamp> },
    /// Authentication failed
    Failed { error: String },
}

impl Default for AuthState {
    fn default() -> (r: Self)
        ensures
            r is NotAuthenticated,
    {
        AuthState::NotAuthenticated
    }
}

/// VPN connection state.
#[derive(Clone, Debug)]
pub struct ConnectionState {
    /// Current status
    pub status: VpnConnectionStatus,
    /// Connected server address
    pub server_addr: Option<String>,
    /// Connection statistics
    pub stats: ConnectionStats,
    /// Connection start time
    pub connected_at: Option<Timestamp>,
    /// Last error message
    pub last_error: Option<String>,
}

impl Default for ConnectionState {
    fn default() -> (r: Self)
        ensures
            r.status == VpnConnectionStatus::Disconnected,
            r.server_addr is None,
            r.stats == (ConnectionStats { bytes_rx: 0, bytes_tx: 0, speed_rx: 0, speed_tx: 0, duration_secs: 0 }),
            r.connected_at is None,
            r.last_error is None,
    {
        ConnectionState {
            status: VpnConnectionStatus::Disconnected,
            server_addr: None,
            stats: ConnectionStats::default(),
            connected_at: None,
            last_error: None,
        }
    }
}

/// Whole seconds from `since` to `now`, zero when `now` is not later.
pub open spec fn whole_seconds_between(since: Timestamp, now: Timestamp) -> int {
    let t = (now.secs - since.secs) * 1_000_000_000 + now.nanos - since.nanos;
    if t <= 0 { 0 } else { t / 1_000_000_000 }
}

impl ConnectionState {
    /// Updates the connection duration to the whole seconds since the connection started.
    pub fn update_duration(&mut self, now: &Timestamp)
        requires
            now.wf(),
            old(self).connected_at matches Some(c) ==> c.wf(),
        ensures
            *final(self) == match old(self).connected_at {
                Some(c) => ConnectionState {
                    stats: ConnectionStats {
                        duration_secs: whole_seconds_between(c, *now) as u64,
                        ..old(self).stats
                    },
                    ..*old(self)
                },
                None => *old(self),
            },
    {
        if let Some(c) = self.connected_at {
            let d: i64 = now.secs - c.secs;
            let secs: u64 = if d > 0 {
                if now.nanos >= c.nanos {
                    d as u64
                } else {
                    (d - 1) as u64
                }
            } else {
                0
            };
            proof {
                let t = (now.secs - c.secs) * 1_000_000_000 + now.nanos - c.nanos;
                if d > 0 {
                    if now.nanos >= c.nanos {
                        assert(t / 1_000_000_000 == d) by (nonlinear_arith)
                            requires
                                t == d * 1_000_000_000 + (now.nanos - c.nanos),
                                0 <= now.nanos - c.nanos < 1_000_000_000,
                        ;
                    } else {
                        assert(t / 1_000_000_000 == d - 1) by (nonlinear_arith)
                            requires
                                t == (d - 1) * 1_000_000_000 + (1_000_000_000 + now.nanos - c.nanos),
                                0 <= 1_000_000_000 + now.nanos - c.nanos < 1_000_000_000,
                        ;
                    }
                } else {
                    assert(t < 1_000_000_000) by (nonlinear_arith)
                        requires
                            t == d * 1_000_000_000 + (now.nanos - c.nanos),
                            d <= 0,
                            now.nanos - c.nanos < 1_000_000_000,
                    ;
                    if t > 0 {
                        assert(t / 1_000_000_000 == 0);
                    }
                }
            }
            self.stats.duration_secs = secs;
        }
    }
}

/// VPN profile (saved connection configuration loaded from `.ovpn`).
#[derive(Clone, Debug)]
pub struct VpnProfile {
    /// Profile display name (derived from filename)
    pub name: String,
    /// Path to the .ovpn config file
    pub config_path: Option<String>,
    /// Remote server address:port
    pub server_addr: String,
    /// Protocol (udp/tcp)
    pub protocol: String,
    /// Cipher name
    pub cipher: String,
    /// Whether tls-auth is configured
    pub has_tls_auth: bool,
    /// Auto-connect this profile
    pub auto_connect: bool,
}

/// Log entry for connection logs.
#[derive(Clone, Debug)]
pub struct LogEntry {
    /// Log level
    pub level: LogLevel,
    /// Log message
    pub message: String,
    /// Timestamp
    pub timestamp: Timestamp,
}

/// Log entries kept at most.
pub const MAX_LOGS: usize = 500;

/// Log entries dropped at once when the log is full.
pub const LOG_TRIM: usize = 100;

/// The log after an entry is added: the entry appended, and the oldest hundred entries
/// dropped when that makes more than 500.
pub open spec fn log_after_add(logs: Seq<LogEntry>, e: LogEntry) -> Seq<LogEntry> {
    let grown = logs.push(e);
    if grown.len() > MAX_LOGS { grown.skip(LOG_TRIM as int) } else { grown }
}

/// A log that holds at most 500 entries still does after an entry is added, and the added
/// entry is its newest.
pub proof fn law_log_stays_bounded(logs: Seq<LogEntry>, e: LogEntry)
    requires
        logs.len() <= MAX_LOGS,
    ensures
        log_after_add(logs, e).len() <= MAX_LOGS,
        log_after_add(logs, e).last() == e,
{
}

/// Main application state.
pub struct AppState {
    /// Current view
    pub current_view: AppView,
    /// Authentication state
    pub auth: AuthState,
    /// Connection state
    pub connection: ConnectionState,
    /// Saved profiles (from imported .ovpn files)
    pub profiles: Vec<VpnProfile>,
    /// Active profile name
    pub active_profile: Option<String>,
    /// Authentication method for current profile
    pub auth_method: AuthMethod,
    /// Username (for username/password auth)
    pub username: String,
    /// Password (not persisted, wiped on drop)
    pub password: SecretString,
    /// Remember credentials
    pub remember_credentials: bool,
    /// Auto-connect on startup
    pub auto_connect: bool,
    /// Show notifications
    pub show_notifications: bool,
    /// Log entries
    pub logs: Vec<LogEntry>,
}

/// The entry added to the log: given level and message, stamped with a valid time.
pub open spec fn is_entry(e: LogEntry, level: LogLevel, message: Seq<char>) -> bool {
    e.level == level && e.message@ == message && e.timestamp.wf()
}

/// The position of the profile with the given name, if any.
pub open spec fn profile_named(ps: Seq<VpnProfile>, name: Seq<char>) -> Option<int>
    decreases ps.len(),
{
    if ps.len() == 0 {
        None
    } else {
        match profile_named(ps.drop_last(), name) {
            Some(i) => Some(i),
            None => if ps.last().name@ == name { Some(ps.len() - 1) } else { None },
        }
    }
}

/// The active profile's position.
pub open spec fn active_index(s: AppState) -> Option<int> {
    match s.active_profile {
        Some(n) => profile_named(s.profiles@, n@),
        None => None,
    }
}

impl AppState {
    /// The initial state: connection view, nothing connected, no profiles, certificate
    /// authentication, notifications on, and one log entry inviting to import a profile.
    pub fn new() -> (r: Self)
        ensures
            r.current_view == AppView::Connection,
            r.auth is NotAuthenticated,
            r.connection.status == VpnConnectionStatus::Disconnected,
            r.connection.server_addr is None,
            r.connection.connected_at is None,
            r.connection.last_error is None,
            r.profiles@.len() == 0,
            r.active_profile is None,
            r.auth_method == AuthMethod::Certificate,
            r.username@.len() == 0,
            secret_text(r.password).len() == 0,
            !r.remember_credentials,
            !r.auto_connect,
            r.show_notifications,
            r.logs@.len() == 1,
            is_entry(r.logs@[0], LogLevel::Info, "Ready. Import an .ovpn profile to get started."@),
    {
        let mut logs: Vec<LogEntry> = Vec::new();
        logs.push(LogEntry {
            level: LogLevel::Info,
            message: "Ready. Import an .ovpn profile to get started.".to_owned(),
            timestamp: now(),
        });
        proof {
            reveal_strlit("");
        }
        AppState {
            current_view: AppView::Connection,
            auth: AuthState::NotAuthenticated,
            connection: ConnectionState::default(),
            profiles: Vec::new(),
            active_profile: None,
            auth_method: AuthMethod::Certificate,
            username: String::new(),
            password: new_secret(String::new()),
            remember_credentials: false,
            auto_connect: false,
            show_notifications: true,
            logs,
        }
    }

    /// Add a log entry; the log keeps at most 500 entries by dropping the oldest hundred.
    /// Nothing but the log changes.
    pub fn add_log(&mut self, level: LogLevel, message: &str)
        ensures
            exists|e: LogEntry| is_entry(e, level, message@) && final(self).logs@ == log_after_add(old(self).logs@, e),
            *final(self) == (AppState { logs: final(self).logs, ..*old(self) }),
    {
        let e = LogEntry { level, message: message.to_owned(), timestamp: now() };
        let ghost ge = e;
        self.logs.push(e);
        if self.logs.len() > MAX_LOGS {
            let mut kept: Vec<LogEntry> = Vec::new();
            let mut i: usize = LOG_TRIM;
            let ghost grown = self.logs@;
            while i < self.logs.len()
                invariant
                    self.logs@ == grown,
                    LOG_TRIM <= i <= grown.len(),
                    kept@ == grown.subrange(LOG_TRIM as int, i as int),
                decreases grown.len() - i,
            {
                let x = &self.logs[i];
                kept.push(LogEntry { level: x.level, message: x.message.clone(), timestamp: x.timestamp });
                i = i + 1;
                assert(kept@ =~= grown.subrange(LOG_TRIM as int, i as int));
            }
            self.logs = kept;
            assert(self.logs@ =~= grown.skip(LOG_TRIM as int));
        }
        assert(is_entry(ge, level, message@));
    }

    /// Clear all logs.
    pub fn clear_logs(&mut self)
        ensures
            final(self).logs@.len() == 0,
            final(self).connection == old(self).connection,
            final(self).profiles == old(self).profiles,
            final(self).active_profile == old(self).active_profile,
    {
        self.logs = Vec::new();
    }

    /// The password for authentication.
    pub fn password(&self) -> (r: &str)
        ensures
            r@ == secret_text(self.password),
    {
        secret_str(&self.password)
    }

    /// The password for editing in the interface.
    pub fn password_mut(&mut self) -> (r: &mut String)
        ensures
            (*r)@ == secret_text(old(self).password),
            secret_text(final(self).password) == (*final(r))@,
    {
        secret_mut(&mut self.password)
    }

    /// Check if we need to show password input.
    pub fn requires_password(&self) -> (r: bool)
        ensures
            r == (self.auth_method == AuthMethod::UsernamePassword),
    {
        self.auth_method.requires_password()
    }

    /// Check if using SSO authentication.
    pub fn is_sso(&self) -> (r: bool)
        ensures
            r == (self.auth_method == AuthMethod::OAuth2 || self.auth_method == AuthMethod::Saml),
    {
        self.auth_method.is_sso()
    }

    /// The position of the active profile.
    pub fn active_profile_index(&self) -> (r: Option<usize>)
        ensures
            match active_index(*self) {
                Some(i) => r matches Some(x) && x as int == i && 0 <= i < self.profiles@.len(),
                None => r is None,
            },
    {
        let name = match &self.active_profile {
            Some(n) => n,
            None => return None,
        };
        let mut i: usize = 0;
        while i < self.profiles.len()
            invariant
                i <= self.profiles@.len(),
                self.active_profile matches Some(n) && n@ == name@,
                profile_named(self.profiles@.subrange(0, i as int), name@) is None,
            decreases self.profiles@.len() - i,
        {
            proof {
                let next = self.profiles@.subrange(0, i + 1);
                assert(next.drop_last() =~= self.profiles@.subrange(0, i as int));
            }
            if str_eq(self.profiles[i].name.as_str(), name.as_str()) {
                proof {
                    lemma_profile_named_prefix(self.profiles@, i as int + 1, i as int, name@);
                }
                return Some(i);
            }
            i = i + 1;
        }
        assert(self.profiles@.subrange(0, self.profiles@.len() as int) =~= self.profiles@);
        None
    }
}

impl AppState {
    /// The active profile, if any: the first profile with the active name.
    pub fn active_profile_ref(&self) -> (r: Option<&VpnProfile>)
        ensures
            match active_index(*self) {
                Some(i) => r == Some(&self.profiles@[i]),
                None => r is None,
            },
    {
        match self.active_profile_index() {
            Some(i) => Some(&self.profiles[i]),
            None => None,
        }
    }
}

proof fn lemma_profile_named_prefix(ps: Seq<VpnProfile>, n: int, k: int, name: Seq<char>)
    requires
        0 <= n <= ps.len(),
        profile_named(ps.subrange(0, n), name) == Some(k),
    ensures
        profile_named(ps, name) == Some(k),
    decreases ps.len(),
{
    if n == ps.len() {
        assert(ps.subrange(0, n) =~= ps);
    } else {
        assert(ps.drop_last().subrange(0, n) =~= ps.subrange(0, n));
        lemma_profile_named_prefix(ps.drop_last(), n, k, name);
    }
}

/// Whether a profile does not carry a name.
pub open spec fn not_named(name: Seq<char>) -> spec_fn(VpnProfile) -> bool {
    |p: VpnProfile| p.name@ != name
}

/// The state's log grew by one entry with this level and message.
pub open spec fn logged(before: Seq<LogEntry>, after: Seq<LogEntry>, level: LogLevel, message: Seq<char>) -> bool {
    exists|e: LogEntry| is_entry(e, level, message) && after == log_after_add(before, e)
}

impl AppState {
    /// Removes the profiles with a name (the profile list's remove button); nothing else
    /// changes.
    pub fn delete_profile(&mut self, name: &str)
        ensures
            final(self).profiles@ == old(self).profiles@.filter(not_named(name@)),
            *final(self) == (AppState { profiles: final(self).profiles, ..*old(self) }),
    {
        let ghost orig = self.profiles@;
        let ghost keep = not_named(name@);
        let mut i: usize = 0;
        let mut j: usize = 0;
        assert(orig.len() == self.profiles.len());
        while i < self.profiles.len()
            invariant
                j <= orig.len(),
                orig.len() <= usize::MAX,
                keep == not_named(name@),
                i == orig.subrange(0, j as int).filter(keep).len(),
                self.profiles@ == orig.subrange(0, j as int).filter(keep) + orig.subrange(j as int, orig.len() as int),
                *self == (AppState { profiles: self.profiles, ..*old(self) }),
            decreases self.profiles@.len() - i,
        {
            assert(j < orig.len());
            proof {
                reveal(Seq::filter);
                let next = orig.subrange(0, j + 1);
                assert(next.drop_last() =~= orig.subrange(0, j as int));
                assert(next.last() == orig[j as int]);
                assert(self.profiles@[i as int] == orig[j as int]);
            }
            let ghost before = self.profiles@;
            if str_eq(self.profiles[i].name.as_str(), name) {
                self.profiles.remove(i);
                proof {
                    assert(self.profiles@ =~= orig.subrange(0, j + 1).filter(keep) + orig.subrange(j + 1, orig.len() as int));
                }
            } else {
                proof {
                    assert(orig.subrange(0, j + 1).filter(keep) == orig.subrange(0, j as int).filter(keep).push(orig[j as int]));
                    assert(self.profiles@ =~= orig.subrange(0, j + 1).filter(keep) + orig.subrange(j + 1, orig.len() as int));
                }
                i = i + 1;
            }
            j = j + 1;
        }
        proof {
            assert(j == orig.len()) by {
                if j < orig.len() {
                    assert(self.profiles@.len() > i);
                }
            }
            assert(orig.subrange(0, j as int) =~= orig);
            assert(self.profiles@ =~= orig.filter(keep));
        }
    }

    /// Makes the profile with a name the active one (the profile list's use button); nothing
    /// else changes.
    pub fn set_active_profile(&mut self, name: String)
        ensures
            *final(self) == (AppState { active_profile: Some(name), ..*old(self) }),
    {
        self.active_profile = Some(name);
    }

    /// Start connection process.
    pub fn start_connecting(&mut self)
        ensures
            final(self).connection == (ConnectionState {
                status: VpnConnectionStatus::Connecting,
                last_error: None,
                ..old(self).connection
            }),
            logged(old(self).logs@, final(self).logs@, LogLevel::Info, "Initiating VPN connection..."@),
            final(self).profiles == old(self).profiles,
            final(self).active_profile == old(self).active_profile,
    {
        self.connection.status = VpnConnectionStatus::Connecting;
        self.connection.last_error = None;
        self.add_log(LogLevel::Info, "Initiating VPN connection...");
    }

    /// Set connection as authenticating.
    pub fn set_authenticating(&mut self)
        ensures
            final(self).connection == (ConnectionState { status: VpnConnectionStatus::Authenticating, ..old(self).connection }),
            logged(old(self).logs@, final(self).logs@, LogLevel::Info, "Authenticating..."@),
            final(self).profiles == old(self).profiles,
            final(self).active_profile == old(self).active_profile,
    {
        self.connection.status = VpnConnectionStatus::Authenticating;
        self.add_log(LogLevel::Info, "Authenticating...");
    }

    /// Set connection as connected, stamped now; logs the active profile's server, if any.
    pub fn set_connected(&mut self)
        ensures
            final(self).connection.status == VpnConnectionStatus::Connected,
            final(self).connection.connected_at matches Some(t) && t.wf(),
            final(self).connection.server_addr == old(self).connection.server_addr,
            final(self).connection.stats == old(self).connection.stats,
            final(self).connection.last_error == old(self).connection.last_error,
            active_index(*old(self)) is None ==> final(self).logs@ == old(self).logs@,
            active_index(*old(self)) matches Some(i) ==> logged(old(self).logs@, final(self).logs@, LogLevel::Info, "Connected to "@ + old(self).profiles@[i].server_addr@),
            final(self).profiles == old(self).profiles,
            final(self).active_profile == old(self).active_profile,
    {
        let idx = self.active_profile_index();
        self.connection.status = VpnConnectionStatus::Connected;
        self.connection.connected_at = Some(now());
        match idx {
            Some(i) => {
                let mut m = "Connected to ".to_owned();
                push_str(&mut m, self.profiles[i].server_addr.as_str());
                assert(m@ == "Connected to "@ + old(self).profiles@[i as int].server_addr@);
                let ghost before = self.logs@;
                assert(before == old(self).logs@);
                self.add_log(LogLevel::Info, m.as_str());
                assert(logged(before, self.logs@, LogLevel::Info, m@));
            },
            None => {},
        }
    }

    /// Start disconnection process.
    pub fn start_disconnecting(&mut self)
        ensures
            final(self).connection == (ConnectionState { status: VpnConnectionStatus::Disconnecting, ..old(self).connection }),
            logged(old(self).logs@, final(self).logs@, LogLevel::Info, "Disconnecting..."@),
            final(self).profiles == old(self).profiles,
            final(self).active_profile == old(self).active_profile,
    {
        self.connection.status = VpnConnectionStatus::Disconnecting;
        self.add_log(LogLevel::Info, "Disconnecting...");
    }

    /// Set connection as disconnected: no server, no start time, statistics reset.
    pub fn set_disconnected(&mut self)
        ensures
            final(self).connection == (ConnectionState {
                status: VpnConnectionStatus::Disconnected,
                server_addr: None,
                connected_at: None,
                stats: ConnectionStats { bytes_rx: 0, bytes_tx: 0, speed_rx: 0, speed_tx: 0, duration_secs: 0 },
                ..old(self).connection
            }),
            logged(old(self).logs@, final(self).logs@, LogLevel::Info, "Disconnected"@),
            final(self).profiles == old(self).profiles,
            final(self).active_profile == old(self).active_profile,
    {
        self.connection.status = VpnConnectionStatus::Disconnected;
        self.connection.server_addr = None;
        self.connection.connected_at = None;
        self.connection.stats = ConnectionStats::default();
        self.add_log(LogLevel::Info, "Disconnected");
    }

    /// Set connection error: status and last error set, the error logged.
    pub fn set_error(&mut self, error: String)
        ensures
            final(self).connection.status == VpnConnectionStatus::Error,
            final(self).connection.last_error == Some(error),
            final(self).connection.server_addr == old(self).connection.server_addr,
            final(self).connection.connected_at == old(self).connection.connected_at,
            final(self).connection.stats == old(self).connection.stats,
            logged(old(self).logs@, final(self).logs@, LogLevel::Error, error@),
            final(self).profiles == old(self).profiles,
            final(self).active_profile == old(self).active_profile,
    {
        self.connection.status = VpnConnectionStatus::Error;
        let copy = error.clone();
        self.connection.last_error = Some(error);
        self.add_log(LogLevel::Error, copy.as_str());
    }
}

/// Whether a character is a control character (general category Cc: U+0000 to U+001F and
/// U+007F to U+009F), as `char::is_control` decides.
pub open spec fn is_control(c: char) -> bool {
    c <= '\u{1f}' || ('\u{7f}' <= c && c <= '\u{9f}')
}

/// The problem with a user name, if any: empty, longer than 256 bytes, or holding a control
/// character.
pub open spec fn username_problem(u: Seq<char>) -> Option<Seq<char>> {
    if u.len() == 0 {
        Some("Username cannot be empty"@)
    } else if utf8_len(u) > 256 {
        Some("Username is too long (max 256 characters)"@)
    } else if exists|i: int| 0 <= i < u.len() && is_control(#[trigger] u[i]) {
        Some("Username contains invalid characters"@)
    } else {
        None
    }
}

/// The problem with a password, if any: empty or longer than 1024 bytes.
pub open spec fn password_problem(p: Seq<char>) -> Option<Seq<char>> {
    if p.len() == 0 {
        Some("Password cannot be empty"@)
    } else if utf8_len(p) > 1024 {
        Some("Password is too long (max 1024 characters)"@)
    } else {
        None
    }
}

/// Validate username input.
pub fn validate_username(username: &str) -> (r: Option<&'static str>)
    ensures
        match r {
            Some(m) => username_problem(username@) == Some(m@),
            None => username_problem(username@) is None,
        },
{
    let a = crate::text::chars_of(username);
    if a.len() == 0 {
        return Some("Username cannot be empty");
    }
    if username.as_bytes().len() > 256 {
        return Some("Username is too long (max 256 characters)");
    }
    let mut i: usize = 0;
    while i < a.len()
        invariant
            a@ == username@,
            username@.len() > 0,
            utf8_len(username@) <= 256,
            i <= a@.len(),
            forall|j: int| 0 <= j < i ==> !is_control(#[trigger] a@[j]),
        decreases a@.len() - i,
    {
        let c = a[i];
        if c <= '\u{1f}' || ('\u{7f}' <= c && c <= '\u{9f}') {
            assert(is_control(username@[i as int]));
            return Some("Username contains invalid characters");
        }
        i = i + 1;
    }
    None
}

/// Validate password input.
pub fn validate_password(password: &str) -> (r: Option<&'static str>)
    ensures
        match r {
            Some(m) => password_problem(password@) == Some(m@),
            None => password_problem(password@) is None,
        },
{
    if crate::text::str_is_empty(password) {
        return Some("Password cannot be empty");
    }
    if password.as_bytes().len() > 1024 {
        return Some("Password is too long (max 1024 characters)");
    }
    None
}

} // verus!
