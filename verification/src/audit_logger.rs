//! The audit logger: its configuration, and the queue of events it hands to the sinks.
//! Delivering a queued event to each configured sink is done by the caller.

use vstd::prelude::*;
use crate::audit_events::{AuditCategory, AuditEvent, AuditEventBuilder, AuditOutcome, AuditSeverity};
use crate::audit_formats::{AuditFormat, FormatConfig};
use crate::sinks::{create_sink, sink_for, SinkConfig, SinkInstance};

verus! {

/// Audit logging configuration.
#[derive(Clone, Debug)]
pub struct AuditConfig {
    /// Enable audit logging
    pub enabled: bool,
    /// Event buffer size
    pub buffer_size: usize,
    /// Configured sinks
    pub sinks: Vec<SinkConfig>,
    /// Default format for sinks that don't specify one
    pub default_format: FormatConfig,
    /// Include source IP in events
    pub include_source_ip: bool,
    /// Include user identity in events
    pub include_user_identity: bool,
    /// Hash sensitive fields for privacy
    pub hash_sensitive_fields: bool,
    /// Categories to log
    pub categories: Vec<AuditCategory>,
}

/// The event buffer size when none is configured.
pub const DEFAULT_BUFFER_SIZE: usize = 10000;

/// The categories logged when none are configured.
pub open spec fn default_category_list() -> Seq<AuditCategory> {
    seq![
        AuditCategory::Authentication,
        AuditCategory::Authorization,
        AuditCategory::Connection,
        AuditCategory::Configuration,
        AuditCategory::Security,
    ]
}

/// The categories logged when none are configured: authentication, authorization,
/// connection, configuration and security.
pub fn default_categories() -> (r: Vec<AuditCategory>)
    ensures
        r@ == default_category_list(),
{
    let mut r: Vec<AuditCategory> = Vec::new();
    r.push(AuditCategory::Authentication);
    r.push(AuditCategory::Authorization);
    r.push(AuditCategory::Connection);
    r.push(AuditCategory::Configuration);
    r.push(AuditCategory::Security);
    r
}

impl Default for AuditConfig {
    /// Enabled, a buffer of 10000 events, no sinks, JSON output, no identities or
    /// addresses included, nothing hashed, and the default categories.
    fn default() -> (r: Self)
        ensures
            r.enabled,
            r.buffer_size == DEFAULT_BUFFER_SIZE,
            r.sinks@.len() == 0,
            r.default_format.is_default_for(AuditFormat::Json),
            !r.include_source_ip,
            !r.include_user_identity,
            !r.hash_sensitive_fields,
            r.categories@ == default_category_list(),
    {
        AuditConfig {
            enabled: true,
            buffer_size: DEFAULT_BUFFER_SIZE,
            sinks: Vec::new(),
            default_format: FormatConfig::default(),
            include_source_ip: false,
            include_user_identity: false,
            hash_sensitive_fields: false,
            categories: default_categories(),
        }
    }
}

/// What happened to a logged event.
pub enum LogOutcome {
    /// The logger is disabled, or the event's category is not among those logged: the event
    /// is dropped.
    Dropped,
    /// The event is queued for the sinks.
    Queued,
    /// The queue is full: the event is handed back, to be logged again once the sinks have
    /// taken queued events.
    Full(AuditEvent),
}

/// Audit logger: accepts events of the configured categories while enabled and queues them,
/// oldest first and at most the configured buffer size of them, for delivery to the configured
/// sinks.
pub struct AuditLogger {
    enabled: bool,
    capacity: usize,
    categories: Vec<AuditCategory>,
    pending: Vec<AuditEvent>,
}

impl AuditLogger {
    /// Whether events are accepted.
    pub closed spec fn is_enabled(&self) -> bool {
        self.enabled
    }

    /// The configured buffer size.
    pub closed spec fn buffer_size(&self) -> usize {
        self.capacity
    }

    /// The categories whose events are logged.
    pub closed spec fn logged_categories(&self) -> Seq<AuditCategory> {
        self.categories@
    }

    /// Whether events of a category are logged.
    pub open spec fn logs_category(&self, category: AuditCategory) -> bool {
        self.logged_categories().contains(category)
    }

    /// The events accepted and not yet handed out, oldest first.
    pub closed spec fn queued(&self) -> Seq<AuditEvent> {
        self.pending@
    }

    /// A logger for the configuration: enabled and logging the categories as configured, with
    /// nothing queued. The buffer holds at least one event.
    pub fn new(config: &AuditConfig) -> (r: Self)
        requires
            config.buffer_size > 0,
        ensures
            r.is_enabled() == config.enabled,
            r.buffer_size() == config.buffer_size,
            r.logged_categories() == config.categories@,
            r.queued().len() == 0,
    {
        AuditLogger {
            enabled: config.enabled,
            capacity: config.buffer_size,
            categories: copy_categories(&config.categories),
            pending: Vec::new(),
        }
    }

    /// A logger that accepts nothing (for ghost mode).
    pub fn null() -> (r: Self)
        ensures
            !r.is_enabled(),
            r.buffer_size() == 1,
            r.logged_categories().len() == 0,
            r.queued().len() == 0,
    {
        AuditLogger { enabled: false, capacity: 1, categories: Vec::new(), pending: Vec::new() }
    }

    /// Whether events are accepted.
    pub fn enabled(&self) -> (r: bool)
        ensures
            r == self.is_enabled(),
    {
        self.enabled
    }

    /// Whether events of a category are logged.
    pub fn category_logged(&self, category: AuditCategory) -> (r: bool)
        ensures
            r == self.logs_category(category),
    {
        let mut i: usize = 0;
        while i < self.categories.len()
            invariant
                i <= self.categories@.len(),
                forall|j: int| 0 <= j < i ==> self.categories@[j] != category,
            decreases self.categories@.len() - i,
        {
            if self.categories[i] == category {
                assert(self.categories@[i as int] == category);
                return true;
            }
            i = i + 1;
        }
        false
    }

    /// Log an audit event: dropped when the logger is disabled or the event's category is not
    /// logged, queued when there is room, and handed back when the queue is full.
    pub fn log(&mut self, event: AuditEvent) -> (r: LogOutcome)
        ensures
            final(self).is_enabled() == old(self).is_enabled(),
            final(self).buffer_size() == old(self).buffer_size(),
            final(self).logged_categories() == old(self).logged_categories(),
            !old(self).is_enabled() || !old(self).logs_category(event.category) ==> r is Dropped
                && final(self).queued() == old(self).queued(),
            old(self).is_enabled() && old(self).logs_category(event.category) && old(self).queued().len()
                < old(self).buffer_size() ==> r is Queued && final(self).queued() == old(self).queued().push(event),
            old(self).is_enabled() && old(self).logs_category(event.category) && old(self).queued().len()
                >= old(self).buffer_size() ==> r == LogOutcome::Full(event) && final(self).queued()
                == old(self).queued(),
    {
        if !self.enabled || !self.category_logged(event.category) {
            return LogOutcome::Dropped;
        }
        if self.pending.len() >= self.capacity {
            return LogOutcome::Full(event);
        }
        self.pending.push(event);
        LogOutcome::Queued
    }

    /// Hands out the queued events, oldest first, and empties the queue.
    pub fn take_queued(&mut self) -> (r: Vec<AuditEvent>)
        ensures
            r@ == old(self).queued(),
            final(self).queued().len() == 0,
            final(self).is_enabled() == old(self).is_enabled(),
            final(self).buffer_size() == old(self).buffer_size(),
            final(self).logged_categories() == old(self).logged_categories(),
    {
        let mut out: Vec<AuditEvent> = Vec::new();
        std::mem::swap(&mut out, &mut self.pending);
        out
    }

    /// Create a builder for a new audit event of the category.
    pub fn event(&self, category: AuditCategory) -> (r: AuditEventBuilder)
        ensures
            r.wf(),
            r.category == category,
            r.action is None,
            r.severity == AuditSeverity::Info,
            r.outcome == AuditOutcome::Success,
            r.message is None,
            r.actor is None,
            r.target is None,
            r.data@.len() == 0,
            r.tags@.len() == 0,
            r.error is None,
    {
        AuditEventBuilder::new(category)
    }
}

/// A copy of a list of categories.
fn copy_categories(v: &Vec<AuditCategory>) -> (r: Vec<AuditCategory>)
    ensures
        r@ == v@,
{
    let mut r: Vec<AuditCategory> = Vec::new();
    let mut i: usize = 0;
    while i < v.len()
        invariant
            i <= v@.len(),
            r@ == v@.subrange(0, i as int),
        decreases v@.len() - i,
    {
        r.push(v[i]);
        i = i + 1;
        assert(r@ =~= v@.subrange(0, i as int));
    }
    assert(r@ =~= v@);
    r
}

/// The sinks of a configuration, one per configured sink and in the same order.
pub fn create_sinks(configs: Vec<SinkConfig>) -> (r: Vec<SinkInstance>)
    ensures
        r@.len() == configs@.len(),
        forall|i: int| 0 <= i < r@.len() ==> sink_for(configs@[i], #[trigger] r@[i]),
{
    let ghost all = configs@;
    let mut rest = configs;
    let mut r: Vec<SinkInstance> = Vec::new();
    while rest.len() > 0
        invariant
            r@.len() + rest@.len() == all.len(),
            rest@ == all.subrange(r@.len() as int, all.len() as int),
            forall|i: int| 0 <= i < r@.len() ==> sink_for(all[i], #[trigger] r@[i]),
        decreases rest@.len(),
    {
        let c = rest.remove(0);
        let ghost k = r@.len();
        assert(c == all[k as int]);
        r.push(create_sink(c));
        assert(rest@ =~= all.subrange(r@.len() as int, all.len() as int));
    }
    r
}

} // verus!
