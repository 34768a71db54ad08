//! Audit event types and their builder.

use vstd::prelude::*;
use crate::clock::{now, Timestamp};
use crate::ids::{host_name, is_v4_uuid, new_uuid_string, uuid_text};
use crate::text::{decimal, push_str, str_eq, u64_to_decimal};

verus! {

/// Audit event severity levels.
#[derive(Clone, Copy, Debug, PartialEq, Eq, Structural)]
pub enum AuditSeverity {
    /// Informational event
    Info,
    /// Low severity - notable but not concerning
    Low,
    /// Medium severity - requires attention
    Medium,
    /// High severity - potential security issue
    High,
    /// Critical severity - immediate action required
    Critical,
}

/// The syslog severity number of an audit severity.
pub open spec fn syslog_severity_of(s: AuditSeverity) -> u8 {
    match s {
        AuditSeverity::Info => 6,
        AuditSeverity::Low => 5,
        AuditSeverity::Medium => 4,
        AuditSeverity::High => 3,
        AuditSeverity::Critical => 2,
    }
}

/// The CEF severity number (0-10) of an audit severity.
pub open spec fn cef_severity_of(s: AuditSeverity) -> u8 {
    match s {
        AuditSeverity::Info => 1,
        AuditSeverity::Low => 3,
        AuditSeverity::Medium => 5,
        AuditSeverity::High => 7,
        AuditSeverity::Critical => 10,
    }
}

impl AuditSeverity {
    /// Convert to syslog severity level.
    pub fn to_syslog_severity(&self) -> (r: u8)
        ensures
            r == syslog_severity_of(*self),
    {
        match self {
            AuditSeverity::Info => 6,
            AuditSeverity::Low => 5,
            AuditSeverity::Medium => 4,
            AuditSeverity::High => 3,
            AuditSeverity::Critical => 2,
        }
    }

    /// Convert to CEF severity (0-10).
    pub fn to_cef_severity(&self) -> (r: u8)
        ensures
            r == cef_severity_of(*self),
    {
        match self {
            AuditSeverity::Info => 1,
            AuditSeverity::Low => 3,
            AuditSeverity::Medium => 5,
            AuditSeverity::High => 7,
            AuditSeverity::Critical => 10,
        }
    }
}

/// Audit event categories.
#[derive(Clone, Copy, Debug, PartialEq, Eq, Hash, Structural)]
pub enum AuditCategory {
    /// Authentication events (login, logout, MFA)
    Authentication,
    /// Authorization events (access granted/denied)
    Authorization,
    /// Connection events (connect, disconnect, reconnect)
    Connection,
    /// Configuration changes
    Configuration,
    /// Security events (attacks, anomalies)
    Security,
    /// Administrative actions
    Administrative,
    /// Certificate operations
    Certificate,
    /// Network events
    Network,
    /// System events
    System,
}

/// The logging name of a category.
pub open spec fn category_name(c: AuditCategory) -> Seq<char> {
    match c {
        AuditCategory::Authentication => "authentication"@,
        AuditCategory::Authorization => "authorization"@,
        AuditCategory::Connection => "connection"@,
        AuditCategory::Configuration => "configuration"@,
        AuditCategory::Security => "security"@,
        AuditCategory::Administrative => "administrative"@,
        AuditCategory::Certificate => "certificate"@,
        AuditCategory::Network => "network"@,
        AuditCategory::System => "system"@,
    }
}

impl AuditCategory {
    /// Get the category name for logging.
    pub fn as_str(&self) -> (r: &'static str)
        ensures
            r@ == category_name(*self),
    {
        match self {
            AuditCategory::Authentication => "authentication",
            AuditCategory::Authorization => "authorization",
            AuditCategory::Connection => "connection",
            AuditCategory::Configuration => "configuration",
            AuditCategory::Security => "security",
            AuditCategory::Administrative => "administrative",
            AuditCategory::Certificate => "certificate",
            AuditCategory::Network => "network",
            AuditCategory::System => "system",
        }
    }
}

/// Outcome of an audited action.
#[derive(Clone, Copy, Debug, PartialEq, Eq, Structural)]
pub enum AuditOutcome {
    Success,
    Failure,
    Unknown,
}

/// The name `{:?}` prints for an outcome.
pub open spec fn outcome_name(o: AuditOutcome) -> Seq<char> {
    match o {
        AuditOutcome::Success => "Success"@,
        AuditOutcome::Failure => "Failure"@,
        AuditOutcome::Unknown => "Unknown"@,
    }
}

impl AuditOutcome {
    /// The variant name, as `{:?}` prints it.
    pub fn name(&self) -> (r: &'static str)
        ensures
            r@ == outcome_name(*self),
    {
        match self {
            AuditOutcome::Success => "Success",
            AuditOutcome::Failure => "Failure",
            AuditOutcome::Unknown => "Unknown",
        }
    }
}

/// A value attached to an event under a key: the texts and counters that the builders record.
#[derive(Clone, Debug)]
pub enum DataValue {
    Text(String),
    Unsigned(u64),
}

/// Actor who performed the action.
#[derive(Clone, Debug)]
pub struct AuditActor {
    /// Actor type (user, system, service)
    pub actor_type: String,
    /// Actor identifier
    pub id: Option<String>,
    /// Actor name/username
    pub name: Option<String>,
    /// Actor email
    pub email: Option<String>,
    /// Source IP address
    pub source_ip: Option<String>,
    /// User agent or client info
    pub user_agent: Option<String>,
    /// Session ID
    pub session_id: Option<String>,
    /// Authentication method used
    pub auth_method: Option<String>,
}

/// Target of the audited action.
#[derive(Clone, Debug)]
pub struct AuditTarget {
    /// Target type (resource, user, configuration)
    pub target_type: String,
    /// Target identifier
    pub id: Option<String>,
    /// Target name
    pub name: Option<String>,
    /// Additional target attributes, by key
    pub attributes: Vec<(String, DataValue)>,
}

/// Error details for failed actions.
#[derive(Clone, Debug)]
pub struct AuditError {
    /// Error code
    pub code: String,
    /// Error message
    pub message: String,
    /// Additional error details, by key
    pub details: Vec<(String, DataValue)>,
}

/// A complete audit event.
#[derive(Clone, Debug)]
pub struct AuditEvent {
    /// Unique event ID
    pub id: String,
    /// Event timestamp
    pub timestamp: Timestamp,
    /// Event version for schema compatibility
    pub version: String,
    /// Event category
    pub category: AuditCategory,
    /// Event type/action
    pub action: String,
    /// Event severity
    pub severity: AuditSeverity,
    /// Event outcome
    pub outcome: AuditOutcome,
    /// Human-readable message
    pub message: String,
    /// Actor who performed the action
    pub actor: Option<AuditActor>,
    /// Target of the action
    pub target: Option<AuditTarget>,
    /// Service/application name
    pub service: String,
    /// Server hostname
    pub host: String,
    /// Additional event data, by key
    pub data: Vec<(String, DataValue)>,
    /// Tags for filtering
    pub tags: Vec<String>,
    /// Error details if outcome is failure
    pub error: Option<AuditError>,
    /// Duration of the action in milliseconds
    pub duration_ms: Option<u64>,
    /// Request ID for correlation
    pub request_id: Option<String>,
    /// Trace ID for distributed tracing
    pub trace_id: Option<String>,
}

/// The view of an optional string.
pub open spec fn opt_view(o: Option<String>) -> Option<Seq<char>> {
    match o {
        Some(s) => Some(s@),
        None => None,
    }
}

/// No key occurs twice among the entries.
pub open spec fn keys_unique(d: Seq<(String, DataValue)>) -> bool {
    forall|i: int, j: int| 0 <= i < j < d.len() ==> d[i].0@ != d[j].0@
}

/// The value stored under `key`, if any.
pub open spec fn lookup(d: Seq<(String, DataValue)>, key: Seq<char>) -> Option<DataValue> {
    if exists|i: int| 0 <= i < d.len() && d[i].0@ == key {
        let i = choose|i: int| 0 <= i < d.len() && d[i].0@ == key;
        Some(d[i].1)
    } else {
        None
    }
}

/// `after` is `before` with `value` stored under `key`: an existing entry for the key has its
/// value replaced in place, otherwise the pair is appended (a map insert).
pub open spec fn is_inserted(
    before: Seq<(String, DataValue)>,
    after: Seq<(String, DataValue)>,
    key: Seq<char>,
    value: DataValue,
) -> bool {
    if exists|i: int| 0 <= i < before.len() && before[i].0@ == key {
        let i = choose|i: int| 0 <= i < before.len() && before[i].0@ == key;
        after == before.update(i, (before[i].0, value))
    } else {
        &&& after.len() == before.len() + 1
        &&& after.subrange(0, before.len() as int) == before
        &&& after.last().0@ == key
        &&& after.last().1 == value
    }
}

/// Stores `value` under `key` in a list of entries whose keys are unique.
pub fn insert_entry(d: &mut Vec<(String, DataValue)>, key: &str, value: DataValue)
    requires
        keys_unique(old(d)@),
    ensures
        keys_unique(final(d)@),
        is_inserted(old(d)@, final(d)@, key@, value),
        lookup(final(d)@, key@) == Some(value),
{
    let mut i: usize = 0;
    while i < d.len()
        invariant
            d@ == old(d)@,
            keys_unique(d@),
            i <= d@.len(),
            forall|j: int| 0 <= j < i ==> d@[j].0@ != key@,
        decreases d@.len() - i,
    {
        if str_eq(d[i].0.as_str(), key) {
            let k = d[i].0.clone();
            proof {
                assert(d@[i as int].0@ == key@);
                let c = choose|c: int| 0 <= c < d@.len() && d@[c].0@ == key@;
                assert(c == i as int) by {
                    if c < i {
                    } else if c > i {
                        assert(keys_unique(d@));
                    }
                }
            }
            d.set(i, (k, value));
            proof {
                let c = choose|c: int| 0 <= c < old(d)@.len() && old(d)@[c].0@ == key@;
                assert(c == i as int);
                assert(final(d)@ =~= old(d)@.update(c, (old(d)@[c].0, value)));
                assert(final(d)@[c].0@ == key@);
                assert forall|x: int, y: int| 0 <= x < y < final(d)@.len() implies final(d)@[x].0@
                    != final(d)@[y].0@ by {
                    assert(final(d)@[x].0 == old(d)@[x].0);
                    assert(final(d)@[y].0 == old(d)@[y].0);
                }
            }
            return;
        }
        i = i + 1;
    }
    let k = key.to_owned();
    d.push((k, value));
    proof {
        assert(!(exists|c: int| 0 <= c < old(d)@.len() && old(d)@[c].0@ == key@));
        assert(final(d)@.subrange(0, old(d)@.len() as int) =~= old(d)@);
        assert(final(d)@[old(d)@.len() as int].0@ == key@);
        assert forall|x: int, y: int| 0 <= x < y < final(d)@.len() implies final(d)@[x].0@
            != final(d)@[y].0@ by {
            if y == old(d)@.len() {
                assert(final(d)@[x] == old(d)@[x]);
            } else {
                assert(final(d)@[x] == old(d)@[x]);
                assert(final(d)@[y] == old(d)@[y]);
            }
        }
    }
}


/// Builder for creating audit events.
pub struct AuditEventBuilder {
    pub category: AuditCategory,
    pub action: Option<String>,
    pub severity: AuditSeverity,
    pub outcome: AuditOutcome,
    pub message: Option<String>,
    pub actor: Option<AuditActor>,
    pub target: Option<AuditTarget>,
    pub data: Vec<(String, DataValue)>,
    pub tags: Vec<String>,
    pub error: Option<AuditError>,
    pub duration_ms: Option<u64>,
    pub request_id: Option<String>,
    pub trace_id: Option<String>,
}

/// `a` is the actor that `actor_user` records for `username` and `source_ip`.
pub open spec fn is_user_actor(a: AuditActor, username: Seq<char>, source_ip: Option<String>) -> bool {
    &&& a.actor_type@ == "user"@
    &&& a.id is None
    &&& opt_view(a.name) == Some(username)
    &&& a.email is None
    &&& a.source_ip == source_ip
    &&& a.user_agent is None
    &&& a.session_id is None
    &&& a.auth_method is None
}

/// `a` is the actor that `actor_system` records.
pub open spec fn is_system_actor(a: AuditActor) -> bool {
    &&& a.actor_type@ == "system"@
    &&& a.id is None
    &&& opt_view(a.name) == Some("corevpn-server"@)
    &&& a.email is None
    &&& a.source_ip is None
    &&& a.user_agent is None
    &&& a.session_id is None
    &&& a.auth_method is None
}

/// `t` is the target that `target_resource` records.
pub open spec fn is_resource_target(t: AuditTarget, target_type: Seq<char>, id: Seq<char>) -> bool {
    &&& t.target_type@ == target_type
    &&& opt_view(t.id) == Some(id)
    &&& t.name is None
    &&& t.attributes@.len() == 0
}

/// The event that `build` assembles from a builder, apart from the fields it draws from the
/// system (identifier, timestamp, host name).
pub open spec fn built_from(e: AuditEvent, b: AuditEventBuilder) -> bool {
    &&& e.version@ == "1.0"@
    &&& e.category == b.category
    &&& e.action@ == (match b.action {
        Some(a) => a@,
        None => "unknown"@,
    })
    &&& e.severity == b.severity
    &&& e.outcome == b.outcome
    &&& e.message@ == (match b.message {
        Some(m) => m@,
        None => Seq::<char>::empty(),
    })
    &&& e.actor == b.actor
    &&& e.target == b.target
    &&& e.service@ == "corevpn"@
    &&& e.data == b.data
    &&& e.tags == b.tags
    &&& e.error == b.error
    &&& e.duration_ms == b.duration_ms
    &&& e.request_id == b.request_id
    &&& e.trace_id == b.trace_id
}

impl AuditEventBuilder {
    /// The builder is well formed: its data keys are unique.
    pub open spec fn wf(&self) -> bool {
        keys_unique(self.data@)
    }

    /// Create a new audit event builder.
    pub fn new(category: AuditCategory) -> (r: Self)
        ensures
            r.wf(),
            r.category == category,
            r.action is None,
            r.severity == AuditSeverity::Info,
            r.outcome == AuditOutcome::Success,
            r.message is None,
            r.actor is None,
            r.target is None,
            r.data@.len() == 0,
            r.tags@.len() == 0,
            r.error is None,
            r.duration_ms is None,
            r.request_id is None,
            r.trace_id is None,
    {
        AuditEventBuilder {
            category,
            action: None,
            severity: AuditSeverity::Info,
            outcome: AuditOutcome::Success,
            message: None,
            actor: None,
            target: None,
            data: Vec::new(),
            tags: Vec::new(),
            error: None,
            duration_ms: None,
            request_id: None,
            trace_id: None,
        }
    }

    /// Set the action type.
    pub fn action(self, action: &str) -> (r: Self)
        ensures
            opt_view(r.action) == Some(action@),
            r == (AuditEventBuilder { action: r.action, ..self }),
    {
        AuditEventBuilder { action: Some(action.to_owned()), ..self }
    }

    /// Set the severity.
    pub fn severity(self, severity: AuditSeverity) -> (r: Self)
        ensures
            r == (AuditEventBuilder { severity, ..self }),
    {
        AuditEventBuilder { severity, ..self }
    }

    /// Set the outcome.
    pub fn outcome(self, outcome: AuditOutcome) -> (r: Self)
        ensures
            r == (AuditEventBuilder { outcome, ..self }),
    {
        AuditEventBuilder { outcome, ..self }
    }

    /// Mark as success.
    pub fn success(self) -> (r: Self)
        ensures
            r == (AuditEventBuilder { outcome: AuditOutcome::Success, ..self }),
    {
        AuditEventBuilder { outcome: AuditOutcome::Success, ..self }
    }

    /// Mark as failure with error details.
    pub fn failure(self, code: &str, message: &str) -> (r: Self)
        ensures
            r.outcome == AuditOutcome::Failure,
            r.error matches Some(e) && e.code@ == code@ && e.message@ == message@
                && e.details@.len() == 0,
            r == (AuditEventBuilder { outcome: AuditOutcome::Failure, error: r.error, ..self }),
    {
        let error = AuditError {
            code: code.to_owned(),
            message: message.to_owned(),
            details: Vec::new(),
        };
        AuditEventBuilder { outcome: AuditOutcome::Failure, error: Some(error), ..self }
    }

    /// Set the message.
    pub fn message(self, message: String) -> (r: Self)
        ensures
            r == (AuditEventBuilder { message: Some(message), ..self }),
    {
        AuditEventBuilder { message: Some(message), ..self }
    }

    /// Set the actor.
    pub fn actor(self, actor: AuditActor) -> (r: Self)
        ensures
            r == (AuditEventBuilder { actor: Some(actor), ..self }),
    {
        AuditEventBuilder { actor: Some(actor), ..self }
    }

    /// Set actor from username and IP.
    pub fn actor_user(self, username: &str, source_ip: Option<String>) -> (r: Self)
        ensures
            r.actor matches Some(a) && is_user_actor(a, username@, source_ip),
            r == (AuditEventBuilder { actor: r.actor, ..self }),
    {
        let actor = AuditActor {
            actor_type: "user".to_owned(),
            id: None,
            name: Some(username.to_owned()),
            email: None,
            source_ip,
            user_agent: None,
            session_id: None,
            auth_method: None,
        };
        AuditEventBuilder { actor: Some(actor), ..self }
    }

    /// Set actor as system.
    pub fn actor_system(self) -> (r: Self)
        ensures
            r.actor matches Some(a) && is_system_actor(a),
            r == (AuditEventBuilder { actor: r.actor, ..self }),
    {
        let actor = AuditActor {
            actor_type: "system".to_owned(),
            id: None,
            name: Some("corevpn-server".to_owned()),
            email: None,
            source_ip: None,
            user_agent: None,
            session_id: None,
            auth_method: None,
        };
        AuditEventBuilder { actor: Some(actor), ..self }
    }

    /// Set the target.
    pub fn target(self, target: AuditTarget) -> (r: Self)
        ensures
            r == (AuditEventBuilder { target: Some(target), ..self }),
    {
        AuditEventBuilder { target: Some(target), ..self }
    }

    /// Set target with type and ID.
    pub fn target_resource(self, target_type: &str, id: &str) -> (r: Self)
        ensures
            r.target matches Some(t) && is_resource_target(t, target_type@, id@),
            r == (AuditEventBuilder { target: r.target, ..self }),
    {
        let target = AuditTarget {
            target_type: target_type.to_owned(),
            id: Some(id.to_owned()),
            name: None,
            attributes: Vec::new(),
        };
        AuditEventBuilder { target: Some(target), ..self }
    }

    /// Add custom data field (a later value under the same key replaces the earlier one).
    pub fn data(self, key: &str, value: DataValue) -> (r: Self)
        requires
            self.wf(),
        ensures
            r.wf(),
            is_inserted(self.data@, r.data@, key@, value),
            lookup(r.data@, key@) == Some(value),
            r == (AuditEventBuilder { data: r.data, ..self }),
    {
        let mut b = self;
        insert_entry(&mut b.data, key, value);
        b
    }

    /// Add a tag.
    pub fn tag(self, tag: &str) -> (r: Self)
        ensures
            r.tags@.len() == self.tags@.len() + 1,
            r.tags@.subrange(0, self.tags@.len() as int) == self.tags@,
            r.tags@.last()@ == tag@,
            r == (AuditEventBuilder { tags: r.tags, ..self }),
    {
        let mut b = self;
        b.tags.push(tag.to_owned());
        proof {
            assert(b.tags@.subrange(0, self.tags@.len() as int) =~= self.tags@);
        }
        b
    }

    /// Add multiple tags.
    pub fn tags(self, tags: Vec<String>) -> (r: Self)
        ensures
            r.tags@ == self.tags@ + tags@,
            r == (AuditEventBuilder { tags: r.tags, ..self }),
    {
        let mut b = self;
        let mut more = tags;
        b.tags.append(&mut more);
        b
    }

    /// Set the duration.
    pub fn duration_ms(self, duration: u64) -> (r: Self)
        ensures
            r == (AuditEventBuilder { duration_ms: Some(duration), ..self }),
    {
        AuditEventBuilder { duration_ms: Some(duration), ..self }
    }

    /// Set the request ID.
    pub fn request_id(self, id: &str) -> (r: Self)
        ensures
            opt_view(r.request_id) == Some(id@),
            r == (AuditEventBuilder { request_id: r.request_id, ..self }),
    {
        AuditEventBuilder { request_id: Some(id.to_owned()), ..self }
    }

    /// Set the trace ID.
    pub fn trace_id(self, id: &str) -> (r: Self)
        ensures
            opt_view(r.trace_id) == Some(id@),
            r == (AuditEventBuilder { trace_id: r.trace_id, ..self }),
    {
        AuditEventBuilder { trace_id: Some(id.to_owned()), ..self }
    }

    /// Build the audit event: a fresh random identifier, the current time and the host name
    /// join the fields collected so far.
    pub fn build(self) -> (e: AuditEvent)
        ensures
            built_from(e, self),
            e.timestamp.wf(),
            exists|v: u128| is_v4_uuid(v) && e.id@ == uuid_text(v as nat),
    {
        let host = host_name();
        let id = new_uuid_string();
        let timestamp = now();
        let action = match self.action {
            Some(a) => a,
            None => "unknown".to_owned(),
        };
        let message = match self.message {
            Some(m) => m,
            None => String::new(),
        };
        AuditEvent {
            id,
            timestamp,
            version: "1.0".to_owned(),
            category: self.category,
            action,
            severity: self.severity,
            outcome: self.outcome,
            message,
            actor: self.actor,
            target: self.target,
            service: "corevpn".to_owned(),
            host,
            data: self.data,
            tags: self.tags,
            error: self.error,
            duration_ms: self.duration_ms,
            request_id: self.request_id,
            trace_id: self.trace_id,
        }
    }
}


/// The entry holds `key` and a text value equal to `value`.
pub open spec fn text_entry(e: (String, DataValue), key: Seq<char>, value: Seq<char>) -> bool {
    e.0@ == key && (e.1 matches DataValue::Text(t) && t@ == value)
}

/// The entry holds `key` and the counter `value`.
pub open spec fn unsigned_entry(e: (String, DataValue), key: Seq<char>, value: u64) -> bool {
    e.0@ == key && e.1 == DataValue::Unsigned(value)
}

/// The fields that every predefined builder leaves at their defaults.
pub open spec fn preset_defaults(r: AuditEventBuilder) -> bool {
    &&& r.tags@.len() == 0
    &&& r.duration_ms is None
    &&& r.request_id is None
    &&& r.trace_id is None
}

/// Concatenation of two string slices.
pub fn concat2(a: &str, b: &str) -> (r: String)
    ensures
        r@ == a@ + b@,
{
    let mut r = a.to_owned();
    push_str(&mut r, b);
    r
}

/// Concatenation of four string slices.
pub fn concat4(a: &str, b: &str, c: &str, d: &str) -> (r: String)
    ensures
        r@ == a@ + b@ + c@ + d@,
{
    let mut r = a.to_owned();
    push_str(&mut r, b);
    push_str(&mut r, c);
    push_str(&mut r, d);
    r
}

// Predefined event builders for common scenarios
impl AuditEventBuilder {
    /// Authentication attempt event.
    pub fn auth_attempt(username: &str, source_ip: Option<String>) -> (r: Self)
        ensures
            r.wf(),
            preset_defaults(r),
            r.category == AuditCategory::Authentication,
            opt_view(r.action) == Some("auth.attempt"@),
            r.severity == AuditSeverity::Info,
            r.outcome == AuditOutcome::Success,
            r.actor matches Some(a) && is_user_actor(a, username@, source_ip),
            r.target is None,
            opt_view(r.message) == Some("Authentication attempt for user: "@ + username@),
            r.data@.len() == 0,
            r.error is None,
    {
        Self::new(AuditCategory::Authentication).action("auth.attempt").actor_user(
            username,
            source_ip,
        ).message(concat2("Authentication attempt for user: ", username))
    }

    /// Authentication success event.
    pub fn auth_success(username: &str, source_ip: Option<String>, method: &str) -> (r: Self)
        ensures
            r.wf(),
            preset_defaults(r),
            r.category == AuditCategory::Authentication,
            opt_view(r.action) == Some("auth.success"@),
            r.severity == AuditSeverity::Info,
            r.outcome == AuditOutcome::Success,
            r.actor matches Some(a) && is_user_actor(a, username@, source_ip),
            r.target is None,
            opt_view(r.message) == Some(
                "User "@ + username@ + " authenticated successfully via "@ + method@,
            ),
            r.data@.len() == 1,
            text_entry(r.data@[0], "auth_method"@, method@),
            r.error is None,
    {
        let r = Self::new(AuditCategory::Authentication).action("auth.success").actor_user(
            username,
            source_ip,
        ).message(concat4("User ", username, " authenticated successfully via ", method));
        r.data("auth_method", DataValue::Text(method.to_owned()))
    }

    /// Authentication failure event.
    pub fn auth_failure(username: &str, source_ip: Option<String>, reason: &str) -> (r: Self)
        ensures
            r.wf(),
            preset_defaults(r),
            r.category == AuditCategory::Authentication,
            opt_view(r.action) == Some("auth.failure"@),
            r.severity == AuditSeverity::Medium,
            r.outcome == AuditOutcome::Failure,
            r.actor matches Some(a) && is_user_actor(a, username@, source_ip),
            r.target is None,
            r.error matches Some(e) && e.code@ == "AUTH_FAILED"@ && e.message@ == reason@
                && e.details@.len() == 0,
            opt_view(r.message) == Some(
                "Authentication failed for user "@ + username@ + ": "@ + reason@,
            ),
            r.data@.len() == 0,
    {
        Self::new(AuditCategory::Authentication).action("auth.failure").severity(
            AuditSeverity::Medium,
        ).actor_user(username, source_ip).failure("AUTH_FAILED", reason).message(
            concat4("Authentication failed for user ", username, ": ", reason),
        )
    }

    /// VPN connection established.
    pub fn vpn_connect(username: &str, source_ip: &str, assigned_ip: &str) -> (r: Self)
        ensures
            r.wf(),
            preset_defaults(r),
            r.category == AuditCategory::Connection,
            opt_view(r.action) == Some("vpn.connect"@),
            r.severity == AuditSeverity::Info,
            r.outcome == AuditOutcome::Success,
            r.actor matches Some(a) && a.actor_type@ == "user"@ && opt_view(a.name) == Some(
                username@,
            ) && opt_view(a.source_ip) == Some(source_ip@),
            r.target is None,
            opt_view(r.message) == Some("VPN connection established for "@ + username@),
            r.data@.len() == 2,
            text_entry(r.data@[0], "assigned_ip"@, assigned_ip@),
            text_entry(r.data@[1], "source_ip"@, source_ip@),
            r.error is None,
    {
        let r = Self::new(AuditCategory::Connection).action("vpn.connect").actor_user(
            username,
            Some(source_ip.to_owned()),
        ).message(concat2("VPN connection established for ", username));
        let r = r.data("assigned_ip", DataValue::Text(assigned_ip.to_owned()));
        proof {
            reveal_strlit("assigned_ip");
            reveal_strlit("source_ip");
            assert("assigned_ip"@[0] != "source_ip"@[0] || "assigned_ip"@[1] != "source_ip"@[1]);
            assert("assigned_ip"@ != "source_ip"@);
        }
        r.data("source_ip", DataValue::Text(source_ip.to_owned()))
    }

    /// VPN connection terminated.
    pub fn vpn_disconnect(username: &str, source_ip: &str, reason: &str, duration_secs: u64) -> (r:
        Self)
        ensures
            r.wf(),
            preset_defaults(r),
            r.category == AuditCategory::Connection,
            opt_view(r.action) == Some("vpn.disconnect"@),
            r.severity == AuditSeverity::Info,
            r.outcome == AuditOutcome::Success,
            r.actor matches Some(a) && a.actor_type@ == "user"@ && opt_view(a.name) == Some(
                username@,
            ) && opt_view(a.source_ip) == Some(source_ip@),
            r.target is None,
            opt_view(r.message) == Some(
                "VPN connection terminated for "@ + username@ + ": "@ + reason@,
            ),
            r.data@.len() == 2,
            text_entry(r.data@[0], "disconnect_reason"@, reason@),
            unsigned_entry(r.data@[1], "session_duration_secs"@, duration_secs),
            r.error is None,
    {
        let r = Self::new(AuditCategory::Connection).action("vpn.disconnect").actor_user(
            username,
            Some(source_ip.to_owned()),
        ).message(concat4("VPN connection terminated for ", username, ": ", reason));
        let r = r.data("disconnect_reason", DataValue::Text(reason.to_owned()));
        proof {
            reveal_strlit("disconnect_reason");
            reveal_strlit("session_duration_secs");
            assert("disconnect_reason"@[0] != "session_duration_secs"@[0] || "disconnect_reason"@[1] != "session_duration_secs"@[1]);
            assert("disconnect_reason"@ != "session_duration_secs"@);
        }
        r.data("session_duration_secs", DataValue::Unsigned(duration_secs))
    }

    /// Configuration change.
    pub fn config_change(admin: &str, setting: &str, old_value: &str, new_value: &str) -> (r: Self)
        ensures
            r.wf(),
            preset_defaults(r),
            r.category == AuditCategory::Configuration,
            opt_view(r.action) == Some("config.change"@),
            r.severity == AuditSeverity::Medium,
            r.outcome == AuditOutcome::Success,
            r.actor matches Some(a) && is_user_actor(a, admin@, None),
            r.target matches Some(t) && is_resource_target(t, "configuration"@, setting@),
            opt_view(r.message) == Some("Configuration changed: "@ + setting@ + " by "@ + admin@),
            r.data@.len() == 2,
            text_entry(r.data@[0], "old_value"@, old_value@),
            text_entry(r.data@[1], "new_value"@, new_value@),
            r.error is None,
    {
        let r = Self::new(AuditCategory::Configuration).action("config.change").severity(
            AuditSeverity::Medium,
        ).actor_user(admin, None).target_resource("configuration", setting).message(
            concat4("Configuration changed: ", setting, " by ", admin),
        );
        let r = r.data("old_value", DataValue::Text(old_value.to_owned()));
        proof {
            reveal_strlit("old_value");
            reveal_strlit("new_value");
            assert("old_value"@[0] != "new_value"@[0] || "old_value"@[1] != "new_value"@[1]);
            assert("old_value"@ != "new_value"@);
        }
        r.data("new_value", DataValue::Text(new_value.to_owned()))
    }

    /// Security alert.
    pub fn security_alert(alert_type: &str, description: &str, source_ip: Option<String>) -> (r:
        Self)
        ensures
            r.wf(),
            preset_defaults(r),
            r.category == AuditCategory::Security,
            opt_view(r.action) == Some("security."@ + alert_type@),
            r.severity == AuditSeverity::High,
            r.outcome == AuditOutcome::Success,
            r.actor is None,
            r.target is None,
            opt_view(r.message) == Some(description@),
            r.data@.len() == 2,
            text_entry(r.data@[0], "alert_type"@, alert_type@),
            text_entry(
                r.data@[1],
                "source_ip"@,
                match source_ip {
                    Some(ip) => ip@,
                    None => Seq::<char>::empty(),
                },
            ),
            r.error is None,
    {
        let action = concat2("security.", alert_type);
        let ip = match source_ip {
            Some(ip) => ip,
            None => String::new(),
        };
        let r = Self::new(AuditCategory::Security).action(action.as_str()).severity(
            AuditSeverity::High,
        ).message(description.to_owned());
        let r = r.data("alert_type", DataValue::Text(alert_type.to_owned()));
        proof {
            reveal_strlit("alert_type");
            reveal_strlit("source_ip");
            assert("alert_type"@[0] != "source_ip"@[0] || "alert_type"@[1] != "source_ip"@[1]);
            assert("alert_type"@ != "source_ip"@);
        }
        r.data("source_ip", DataValue::Text(ip))
    }

    /// Client certificate issued.
    pub fn cert_issued(admin: &str, client_name: &str, expires_at: &str) -> (r: Self)
        ensures
            r.wf(),
            preset_defaults(r),
            r.category == AuditCategory::Certificate,
            opt_view(r.action) == Some("cert.issued"@),
            r.severity == AuditSeverity::Info,
            r.outcome == AuditOutcome::Success,
            r.actor matches Some(a) && is_user_actor(a, admin@, None),
            r.target matches Some(t) && is_resource_target(t, "certificate"@, client_name@),
            opt_view(r.message) == Some("Certificate issued for client: "@ + client_name@),
            r.data@.len() == 1,
            text_entry(r.data@[0], "expires_at"@, expires_at@),
            r.error is None,
    {
        let r = Self::new(AuditCategory::Certificate).action("cert.issued").actor_user(
            admin,
            None,
        ).target_resource("certificate", client_name).message(
            concat2("Certificate issued for client: ", client_name),
        );
        r.data("expires_at", DataValue::Text(expires_at.to_owned()))
    }

    /// Client certificate revoked.
    pub fn cert_revoked(admin: &str, client_name: &str, reason: &str) -> (r: Self)
        ensures
            r.wf(),
            preset_defaults(r),
            r.category == AuditCategory::Certificate,
            opt_view(r.action) == Some("cert.revoked"@),
            r.severity == AuditSeverity::Medium,
            r.outcome == AuditOutcome::Success,
            r.actor matches Some(a) && is_user_actor(a, admin@, None),
            r.target matches Some(t) && is_resource_target(t, "certificate"@, client_name@),
            opt_view(r.message) == Some("Certificate revoked for client: "@ + client_name@),
            r.data@.len() == 1,
            text_entry(r.data@[0], "revocation_reason"@, reason@),
            r.error is None,
    {
        let r = Self::new(AuditCategory::Certificate).action("cert.revoked").severity(
            AuditSeverity::Medium,
        ).actor_user(admin, None).target_resource("certificate", client_name).message(
            concat2("Certificate revoked for client: ", client_name),
        );
        r.data("revocation_reason", DataValue::Text(reason.to_owned()))
    }
}

} // verus!
