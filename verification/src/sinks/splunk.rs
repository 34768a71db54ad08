//! Splunk HTTP Event Collector audit sink.

use vstd::prelude::*;
use crate::audit_events::{opt_view, AuditEvent};
use crate::audit_formats::{clone_opt, FormatConfig, FormatEncoder};
use crate::sinks::BatchBuffer;
use crate::text::{join, join_strings, push_str, views};

verus! {

/// Splunk HEC configuration.
#[derive(Clone, Debug)]
pub struct SplunkConfig {
    /// HEC endpoint URL
    pub url: String,
    /// HEC token
    pub token: String,
    /// Source type
    pub sourcetype: String,
    /// Source
    pub source: String,
    /// Index
    pub index: Option<String>,
    /// Host field override
    pub host: Option<String>,
    /// Enable TLS verification
    pub tls_verify: bool,
    /// Format configuration
    pub format: FormatConfig,
    /// Batch size
    pub batch_size: usize,
    /// Flush interval in seconds
    pub flush_interval_secs: u64,
    /// Use raw endpoint (vs event endpoint)
    pub raw: bool,
    /// Channel for HEC acknowledgment
    pub channel: Option<String>,
}

/// Default source type.
pub fn default_sourcetype() -> (r: String)
    ensures
        r@ == "corevpn:audit"@,
{
    "corevpn:audit".to_owned()
}

/// Default source.
pub fn default_source() -> (r: String)
    ensures
        r@ == "corevpn"@,
{
    "corevpn".to_owned()
}

/// Default for the flags that are on unless configured otherwise.
pub fn default_true() -> (r: bool)
    ensures
        r,
{
    true
}

/// Default batch size.
pub fn default_batch_size() -> (r: usize)
    ensures
        r == 100,
{
    100
}

/// Default flush interval in seconds.
pub fn default_flush_interval() -> (r: u64)
    ensures
        r == 5,
{
    5
}

/// The fields of one HEC event. `time_millis` is the event time in milliseconds; HEC takes it
/// in seconds with a fraction (`time_millis / 1000`).
#[derive(Clone, Debug)]
pub struct HecEvent {
    pub time_millis: i64,
    pub sourcetype: String,
    pub source: String,
    pub index: Option<String>,
    pub host: String,
    /// The encoded event (a serialized JSON value).
    pub event: String,
}

/// Splunk HEC sink.
pub struct SplunkSink {
    config: SplunkConfig,
    encoder: FormatEncoder,
    buffer: BatchBuffer<String>,
}

impl SplunkSink {
    /// The sink's configuration.
    pub closed spec fn cfg(&self) -> SplunkConfig {
        self.config
    }

    /// The encoder the sink uses.
    pub closed spec fn enc(&self) -> FormatEncoder {
        self.encoder
    }

    /// The serialized HEC events waiting to be sent.
    pub closed spec fn pending(&self) -> BatchBuffer<String> {
        self.buffer
    }

    /// A sink that encodes with the configured format and sends in batches of the configured
    /// size.
    pub fn new(config: SplunkConfig) -> (r: Self)
        ensures
            r.cfg() == config,
            r.enc().cfg() == config.format,
            r.pending().contents().len() == 0,
            r.pending().limit() == config.batch_size,
    {
        let encoder = FormatEncoder::new(config.format.copied());
        let batch_size = config.batch_size;
        SplunkSink { config, encoder, buffer: BatchBuffer::new(batch_size) }
    }

    /// The encoder the sink uses.
    pub fn encoder(&self) -> (r: &FormatEncoder)
        ensures
            *r == self.enc(),
    {
        &self.encoder
    }

    /// The HEC event for an encoded event: its time, the configured source type and source,
    /// the configured index if any, and the configured host or else the event's host.
    pub fn build_hec_event(&self, event: &AuditEvent, data: String) -> (r: HecEvent)
        requires
            event.timestamp.wf(),
        ensures
            r.time_millis == event.timestamp.millis(),
            r.sourcetype@ == self.cfg().sourcetype@,
            r.source@ == self.cfg().source@,
            opt_view(r.index) == opt_view(self.cfg().index),
            r.host@ == match self.cfg().host {
                Some(h) => h@,
                None => event.host@,
            },
            r.event == data,
    {
        let host = match &self.config.host {
            Some(h) => h.clone(),
            None => event.host.clone(),
        };
        HecEvent {
            time_millis: event.timestamp.timestamp_millis(),
            sourcetype: self.config.sourcetype.clone(),
            source: self.config.source.clone(),
            index: clone_opt(&self.config.index),
            host,
            event: data,
        }
    }

    /// The collector endpoint: the raw endpoint when configured, else the event endpoint.
    pub fn endpoint(&self) -> (r: String)
        ensures
            r@ == self.cfg().url@ + if self.cfg().raw {
                "/services/collector/raw"@
            } else {
                "/services/collector/event"@
            },
    {
        let mut r = self.config.url.clone();
        if self.config.raw {
            push_str(&mut r, "/services/collector/raw");
        } else {
            push_str(&mut r, "/services/collector/event");
        }
        r
    }

    /// Endpoint and body (newline-delimited serialized events) for a batch, or nothing for an
    /// empty batch.
    pub fn send_batch(&self, events: Vec<String>) -> (r: Option<(String, String)>)
        ensures
            events@.len() == 0 ==> r is None,
            events@.len() > 0 ==> (r matches Some((e, b)) && e@ == self.cfg().url@ + (if self.cfg().raw {
                "/services/collector/raw"@
            } else {
                "/services/collector/event"@
            }) && b@ == join(views(events@), "\n"@)),
    {
        if events.len() == 0 {
            return None;
        }
        let endpoint = self.endpoint();
        let body = join_strings(&events, "\n");
        Some((endpoint, body))
    }

    /// Buffers a serialized HEC event; returns a full batch to send.
    pub fn push(&mut self, event: String) -> (r: Option<Vec<String>>)
        ensures
            final(self).cfg() == old(self).cfg(),
            final(self).enc() == old(self).enc(),
            final(self).pending().limit() == old(self).pending().limit(),
            old(self).pending().contents().len() + 1 >= old(self).pending().limit() ==> (r matches Some(
                b,
            ) && b@ == old(self).pending().contents().push(event)
                && final(self).pending().contents().len() == 0),
            old(self).pending().contents().len() + 1 < old(self).pending().limit() ==> (r is None
                && final(self).pending().contents() == old(self).pending().contents().push(event)),
    {
        self.buffer.push(event)
    }

    /// Everything buffered, to send now.
    pub fn flush(&mut self) -> (r: Vec<String>)
        ensures
            r@ == old(self).pending().contents(),
            final(self).pending().contents().len() == 0,
            final(self).cfg() == old(self).cfg(),
            final(self).enc() == old(self).enc(),
    {
        self.buffer.take_all()
    }

    /// The sink name for logging.
    pub fn name(&self) -> (r: &'static str)
        ensures
            r@ == "splunk"@,
    {
        "splunk"
    }
}

} // verus!
