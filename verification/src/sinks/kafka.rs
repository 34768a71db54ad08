//! Kafka audit sink: keyed messages produced in batches.

use vstd::prelude::*;
use crate::audit_events::{category_name, opt_view, AuditEvent};
use crate::audit_formats::{clone_opt, FormatConfig, FormatEncoder};
use crate::sinks::BatchBuffer;
use crate::text::str_eq;

verus! {

/// Kafka configuration.
#[derive(Clone, Debug)]
pub struct KafkaConfig {
    /// Kafka bootstrap servers
    pub brokers: Vec<String>,
    /// Topic name
    pub topic: String,
    /// Partition key field from event (e.g., "actor.source_ip")
    pub partition_key: Option<String>,
    /// SASL mechanism (PLAIN, SCRAM-SHA-256, SCRAM-SHA-512)
    pub sasl_mechanism: Option<String>,
    /// SASL username
    pub sasl_username: Option<String>,
    /// SASL password
    pub sasl_password: Option<String>,
    /// Enable TLS
    pub tls_enabled: bool,
    /// TLS CA certificate path
    pub tls_ca_cert: Option<String>,
    /// TLS client certificate path
    pub tls_client_cert: Option<String>,
    /// TLS client key path
    pub tls_client_key: Option<String>,
    /// Format configuration
    pub format: FormatConfig,
    /// Batch size
    pub batch_size: usize,
    /// Compression (none, gzip, snappy, lz4, zstd)
    pub compression: Option<String>,
    /// Required acknowledgments (0, 1, all)
    pub acks: String,
    /// Linger time in ms
    pub linger_ms: u32,
}

/// Default batch size.
pub fn default_batch_size() -> (r: usize)
    ensures
        r == 100,
{
    100
}

/// Default acknowledgment setting.
pub fn default_acks() -> (r: String)
    ensures
        r@ == "all"@,
{
    "all".to_owned()
}

/// Default linger time in milliseconds.
pub fn default_linger() -> (r: u32)
    ensures
        r == 5,
{
    5
}

/// A message to produce: optional partition key and encoded value.
#[derive(Clone, Debug)]
pub struct KafkaMessage {
    pub key: Option<String>,
    pub value: String,
}

/// The partition key that the configured key path selects from an event: its id, its category
/// name, or its actor's source IP or name; nothing for another path, an absent actor or field,
/// or no configured path.
pub open spec fn partition_key_of(path: Option<String>, ev: AuditEvent) -> Option<Seq<char>> {
    match path {
        None => None,
        Some(p) => if p@ == "id"@ {
            Some(ev.id@)
        } else if p@ == "category"@ {
            Some(category_name(ev.category))
        } else if p@ == "actor.source_ip"@ {
            match ev.actor {
                Some(a) => opt_view(a.source_ip),
                None => None,
            }
        } else if p@ == "actor.name"@ {
            match ev.actor {
                Some(a) => opt_view(a.name),
                None => None,
            }
        } else {
            None
        },
    }
}

/// Kafka sink: buffers keyed messages.
pub struct KafkaSink {
    config: KafkaConfig,
    encoder: FormatEncoder,
    buffer: BatchBuffer<KafkaMessage>,
}

impl KafkaSink {
    /// The sink's configuration.
    pub closed spec fn cfg(&self) -> KafkaConfig {
        self.config
    }

    /// The encoder the sink uses.
    pub closed spec fn enc(&self) -> FormatEncoder {
        self.encoder
    }

    /// The messages waiting to be produced.
    pub closed spec fn pending(&self) -> BatchBuffer<KafkaMessage> {
        self.buffer
    }

    /// A sink that encodes with the configured format and produces in batches of the
    /// configured size.
    pub fn new(config: KafkaConfig) -> (r: Self)
        ensures
            r.cfg() == config,
            r.enc().cfg() == config.format,
            r.pending().contents().len() == 0,
            r.pending().limit() == config.batch_size,
    {
        let encoder = FormatEncoder::new(config.format.copied());
        let batch_size = config.batch_size;
        KafkaSink { config, encoder, buffer: BatchBuffer::new(batch_size) }
    }

    /// The encoder the sink uses.
    pub fn encoder(&self) -> (r: &FormatEncoder)
        ensures
            *r == self.enc(),
    {
        &self.encoder
    }

    /// The partition key of an event under the configured key path.
    pub fn extract_partition_key(&self, event: &AuditEvent) -> (r: Option<String>)
        ensures
            opt_view(r) == partition_key_of(self.cfg().partition_key, *event),
    {
        match &self.config.partition_key {
            None => None,
            Some(p) => {
                let p = p.as_str();
                if str_eq(p, "id") {
                    Some(event.id.clone())
                } else if str_eq(p, "category") {
                    Some(event.category.as_str().to_owned())
                } else if str_eq(p, "actor.source_ip") {
                    match &event.actor {
                        Some(a) => clone_opt(&a.source_ip),
                        None => None,
                    }
                } else if str_eq(p, "actor.name") {
                    match &event.actor {
                        Some(a) => clone_opt(&a.name),
                        None => None,
                    }
                } else {
                    None
                }
            },
        }
    }

    /// Buffers the encoded value of an event under its partition key; returns a full batch to
    /// produce.
    pub fn send(&mut self, event: &AuditEvent, value: String) -> (r: Option<Vec<KafkaMessage>>)
        ensures
            final(self).cfg() == old(self).cfg(),
            final(self).enc() == old(self).enc(),
            final(self).pending().limit() == old(self).pending().limit(),
            ({
                let before = old(self).pending().contents();
                let m = final(self).pending().contents();
                let key_ok = |k: KafkaMessage|
                    opt_view(k.key) == partition_key_of(old(self).cfg().partition_key, *event)
                        && k.value == value;
                if before.len() + 1 >= old(self).pending().limit() {
                    r matches Some(b) && b@.len() == before.len() + 1 && b@.drop_last() == before
                        && key_ok(b@.last()) && m.len() == 0
                } else {
                    r is None && m.len() == before.len() + 1 && m.drop_last() == before
                        && key_ok(m.last())
                }
            }),
    {
        let key = self.extract_partition_key(event);
        let msg = KafkaMessage { key, value };
        let ghost pushed = msg;
        let r = self.buffer.push(msg);
        proof {
            let before = old(self).pending().contents();
            assert(before.push(pushed).drop_last() =~= before);
        }
        r
    }

    /// Everything buffered, to produce now.
    pub fn flush(&mut self) -> (r: Vec<KafkaMessage>)
        ensures
            r@ == old(self).pending().contents(),
            final(self).pending().contents().len() == 0,
            final(self).cfg() == old(self).cfg(),
            final(self).enc() == old(self).enc(),
    {
        self.buffer.take_all()
    }

    /// The sink name for logging.
    pub fn name(&self) -> (r: &'static str)
        ensures
            r@ == "kafka"@,
    {
        "kafka"
    }
}

} // verus!
