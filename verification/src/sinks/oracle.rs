//! Oracle Cloud audit sinks: OCI Logging and OCI Streaming.

use vstd::prelude::*;
use vstd::utf8::encode_utf8;
use crate::audit_events::AuditEvent;
use crate::audit_formats::{FormatConfig, FormatEncoder};
use crate::clock::{now, rfc3339, rfc3339_text, Timestamp};
use crate::codec::{base64_encode, base64_text};
use crate::sinks::BatchBuffer;
use crate::text::push_str;

verus! {

/// Oracle Cloud Logging configuration.
#[derive(Clone, Debug)]
pub struct OracleLoggingConfig {
    /// OCI region
    pub region: String,
    /// Log OCID
    pub log_id: String,
    /// Tenancy OCID
    pub tenancy_id: String,
    /// User OCID
    pub user_id: String,
    /// API key fingerprint
    pub fingerprint: String,
    /// Private key path or content
    pub private_key: String,
    /// Private key passphrase (optional)
    pub passphrase: Option<String>,
    /// Format configuration
    pub format: FormatConfig,
    /// Batch size
    pub batch_size: usize,
    /// Flush interval in seconds
    pub flush_interval_secs: u64,
}

/// Default batch size.
pub fn default_batch_size() -> (r: usize)
    ensures
        r == 100,
{
    100
}

/// Default flush interval in seconds.
pub fn default_flush_interval() -> (r: u64)
    ensures
        r == 5,
{
    5
}

/// One OCI Logging entry: the encoded event, its id and its time in RFC 3339.
#[derive(Clone, Debug)]
pub struct LogEntry {
    pub data: String,
    pub id: String,
    pub time: String,
}

/// A batch of entries for one log, with the batch's default entry time.
#[derive(Clone, Debug)]
pub struct LogEntryBatch {
    pub entries: Vec<LogEntry>,
    pub log_id: String,
    pub default_log_entry_time: String,
}

/// OCI Logging sink.
pub struct OracleLoggingSink {
    config: OracleLoggingConfig,
    encoder: FormatEncoder,
    buffer: BatchBuffer<LogEntry>,
}

impl OracleLoggingSink {
    /// The sink's configuration.
    pub closed spec fn cfg(&self) -> OracleLoggingConfig {
        self.config
    }

    /// The encoder the sink uses.
    pub closed spec fn enc(&self) -> FormatEncoder {
        self.encoder
    }

    /// The entries waiting to be sent.
    pub closed spec fn pending(&self) -> BatchBuffer<LogEntry> {
        self.buffer
    }

    /// A sink that encodes with the configured format and sends in batches of the configured
    /// size.
    pub fn new(config: OracleLoggingConfig) -> (r: Self)
        ensures
            r.cfg() == config,
            r.enc().cfg() == config.format,
            r.pending().contents().len() == 0,
            r.pending().limit() == config.batch_size,
    {
        let encoder = FormatEncoder::new(config.format.copied());
        let batch_size = config.batch_size;
        OracleLoggingSink { config, encoder, buffer: BatchBuffer::new(batch_size) }
    }

    /// The encoder the sink uses.
    pub fn encoder(&self) -> (r: &FormatEncoder)
        ensures
            *r == self.enc(),
    {
        &self.encoder
    }

    /// The ingestion endpoint of the configured region.
    pub fn get_endpoint(&self) -> (r: String)
        ensures
            r@ == "https://ingestion.logging."@ + self.cfg().region@ + ".oci.oraclecloud.com"@,
    {
        let mut r = "https://ingestion.logging.".to_owned();
        push_str(&mut r, self.config.region.as_str());
        push_str(&mut r, ".oci.oraclecloud.com");
        r
    }

    /// The log entry of an encoded event.
    pub fn entry_for(event: &AuditEvent, data: String) -> (r: LogEntry)
        requires
            event.timestamp.wf(),
        ensures
            r.data == data,
            r.id@ == event.id@,
            r.time@ == rfc3339_text(event.timestamp.secs, event.timestamp.nanos),
    {
        LogEntry { data, id: event.id.clone(), time: rfc3339(&event.timestamp) }
    }

    /// The request for a batch of entries, stamped with the current time, or nothing for an
    /// empty batch.
    pub fn send_batch(&self, entries: Vec<LogEntry>) -> (r: Option<LogEntryBatch>)
        ensures
            entries@.len() == 0 ==> r is None,
            entries@.len() > 0 ==> (r matches Some(b) && b.entries@ == entries@ && b.log_id@
                == self.cfg().log_id@ && exists|t: Timestamp|
                t.wf() && b.default_log_entry_time@ == rfc3339_text(t.secs, t.nanos)),
    {
        if entries.len() == 0 {
            return None;
        }
        let t = now();
        Some(
            LogEntryBatch {
                entries,
                log_id: self.config.log_id.clone(),
                default_log_entry_time: rfc3339(&t),
            },
        )
    }

    /// Buffers an entry; returns a full batch to send.
    pub fn push(&mut self, entry: LogEntry) -> (r: Option<Vec<LogEntry>>)
        ensures
            final(self).cfg() == old(self).cfg(),
            final(self).enc() == old(self).enc(),
            final(self).pending().limit() == old(self).pending().limit(),
            old(self).pending().contents().len() + 1 >= old(self).pending().limit() ==> (r matches Some(
                b,
            ) && b@ == old(self).pending().contents().push(entry)
                && final(self).pending().contents().len() == 0),
            old(self).pending().contents().len() + 1 < old(self).pending().limit() ==> (r is None
                && final(self).pending().contents() == old(self).pending().contents().push(entry)),
    {
        self.buffer.push(entry)
    }

    /// Everything buffered, to send now.
    pub fn flush(&mut self) -> (r: Vec<LogEntry>)
        ensures
            r@ == old(self).pending().contents(),
            final(self).pending().contents().len() == 0,
            final(self).cfg() == old(self).cfg(),
            final(self).enc() == old(self).enc(),
    {
        self.buffer.take_all()
    }

    /// The sink name for logging.
    pub fn name(&self) -> (r: &'static str)
        ensures
            r@ == "oracle_logging"@,
    {
        "oracle_logging"
    }
}

/// Oracle Cloud Streaming configuration.
#[derive(Clone, Debug)]
pub struct OracleStreamingConfig {
    /// OCI region
    pub region: String,
    /// Stream OCID
    pub stream_id: String,
    /// Stream pool OCID (optional)
    pub stream_pool_id: Option<String>,
    /// Tenancy OCID
    pub tenancy_id: String,
    /// User OCID
    pub user_id: String,
    /// API key fingerprint
    pub fingerprint: String,
    /// Private key path or content
    pub private_key: String,
    /// Private key passphrase (optional)
    pub passphrase: Option<String>,
    /// Partition key (optional, uses event ID if not set)
    pub partition_key: Option<String>,
    /// Format configuration
    pub format: FormatConfig,
    /// Batch size
    pub batch_size: usize,
}

/// A message for a stream: key and encoded value.
#[derive(Clone, Debug)]
pub struct StreamMessage {
    pub key: String,
    pub value: String,
}

/// A message as the streaming API takes it: key and value in base64.
#[derive(Clone, Debug)]
pub struct StreamRecord {
    pub key: String,
    pub value: String,
}

/// Strings short enough for base64's output length to fit in `usize`.
pub open spec fn base64_encodable(s: Seq<char>) -> bool {
    (encode_utf8(s).len() / 3) * 4 + 4 <= usize::MAX
}

/// The base64 of a string's UTF-8 bytes.
pub fn base64_of_str(s: &str) -> (r: String)
    requires
        base64_encodable(s@),
    ensures
        r@ == base64_text(encode_utf8(s@)),
{
    base64_encode(s.as_bytes())
}

/// OCI Streaming sink.
pub struct OracleStreamingSink {
    config: OracleStreamingConfig,
    encoder: FormatEncoder,
    buffer: BatchBuffer<StreamMessage>,
}

impl OracleStreamingSink {
    /// The sink's configuration.
    pub closed spec fn cfg(&self) -> OracleStreamingConfig {
        self.config
    }

    /// The encoder the sink uses.
    pub closed spec fn enc(&self) -> FormatEncoder {
        self.encoder
    }

    /// The messages waiting to be sent.
    pub closed spec fn pending(&self) -> BatchBuffer<StreamMessage> {
        self.buffer
    }

    /// A sink that encodes with the configured format and sends in batches of the configured
    /// size.
    pub fn new(config: OracleStreamingConfig) -> (r: Self)
        ensures
            r.cfg() == config,
            r.enc().cfg() == config.format,
            r.pending().contents().len() == 0,
            r.pending().limit() == config.batch_size,
    {
        let encoder = FormatEncoder::new(config.format.copied());
        let batch_size = config.batch_size;
        OracleStreamingSink { config, encoder, buffer: BatchBuffer::new(batch_size) }
    }

    /// The encoder the sink uses.
    pub fn encoder(&self) -> (r: &FormatEncoder)
        ensures
            *r == self.enc(),
    {
        &self.encoder
    }

    /// The messages endpoint of the configured stream.
    pub fn get_endpoint(&self) -> (r: String)
        ensures
            r@ == "https://streaming."@ + self.cfg().region@ + ".oci.oraclecloud.com/20180418/streams/"@
                + self.cfg().stream_id@ + "/messages"@,
    {
        let mut r = "https://streaming.".to_owned();
        push_str(&mut r, self.config.region.as_str());
        push_str(&mut r, ".oci.oraclecloud.com/20180418/streams/");
        push_str(&mut r, self.config.stream_id.as_str());
        push_str(&mut r, "/messages");
        r
    }

    /// The message of an encoded event: keyed by the configured partition key, or by the
    /// event's id when none is configured.
    pub fn message_for(&self, event: &AuditEvent, value: String) -> (r: StreamMessage)
        ensures
            r.key@ == match self.cfg().partition_key {
                Some(k) => k@,
                None => event.id@,
            },
            r.value == value,
    {
        let key = match &self.config.partition_key {
            Some(k) => k.clone(),
            None => event.id.clone(),
        };
        StreamMessage { key, value }
    }

    /// The batch's records, key and value of each message in base64.
    pub fn encode_records(messages: &Vec<StreamMessage>) -> (r: Vec<StreamRecord>)
        requires
            forall|i: int|
                0 <= i < messages@.len() ==> base64_encodable(#[trigger] messages@[i].key@)
                    && base64_encodable(messages@[i].value@),
        ensures
            r@.len() == messages@.len(),
            forall|i: int|
                0 <= i < r@.len() ==> #[trigger] r@[i].key@ == base64_text(
                    encode_utf8(messages@[i].key@),
                ) && r@[i].value@ == base64_text(encode_utf8(messages@[i].value@)),
    {
        let mut r: Vec<StreamRecord> = Vec::new();
        let mut i: usize = 0;
        while i < messages.len()
            invariant
                i <= messages@.len(),
                r@.len() == i,
                forall|j: int|
                    0 <= j < messages@.len() ==> base64_encodable(#[trigger] messages@[j].key@)
                        && base64_encodable(messages@[j].value@),
                forall|j: int|
                    0 <= j < i ==> #[trigger] r@[j].key@ == base64_text(
                        encode_utf8(messages@[j].key@),
                    ) && r@[j].value@ == base64_text(encode_utf8(messages@[j].value@)),
            decreases messages@.len() - i,
        {
            let m = &messages[i];
            let key = base64_of_str(m.key.as_str());
            let value = base64_of_str(m.value.as_str());
            r.push(StreamRecord { key, value });
            i = i + 1;
        }
        r
    }

    /// Buffers a message; returns a full batch to send.
    pub fn push(&mut self, message: StreamMessage) -> (r: Option<Vec<StreamMessage>>)
        ensures
            final(self).cfg() == old(self).cfg(),
            final(self).enc() == old(self).enc(),
            final(self).pending().limit() == old(self).pending().limit(),
            old(self).pending().contents().len() + 1 >= old(self).pending().limit() ==> (r matches Some(
                b,
            ) && b@ == old(self).pending().contents().push(message)
                && final(self).pending().contents().len() == 0),
            old(self).pending().contents().len() + 1 < old(self).pending().limit() ==> (r is None
                && final(self).pending().contents() == old(self).pending().contents().push(
                message,
            )),
    {
        self.buffer.push(message)
    }

    /// Everything buffered, to send now.
    pub fn flush(&mut self) -> (r: Vec<StreamMessage>)
        ensures
            r@ == old(self).pending().contents(),
            final(self).pending().contents().len() == 0,
            final(self).cfg() == old(self).cfg(),
            final(self).enc() == old(self).enc(),
    {
        self.buffer.take_all()
    }

    /// The sink name for logging.
    pub fn name(&self) -> (r: &'static str)
        ensures
            r@ == "oracle_streaming"@,
    {
        "oracle_streaming"
    }
}

} // verus!
