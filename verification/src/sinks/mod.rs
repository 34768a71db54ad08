//! Audit log sinks: destinations for audit events (cloud providers and SIEM systems).
//! Each sink decides how events are encoded, batched and addressed; the network and file
//! transfer of a finished batch is performed by the caller.

pub mod aws;
pub mod azure;
pub mod elasticsearch;
pub mod file;
pub mod kafka;
pub mod oracle;
pub mod splunk;
pub mod syslog;
pub mod webhook;

use vstd::prelude::*;
use self::aws::{
    AwsCloudwatchConfig, AwsCloudwatchSink, AwsEventBridgeConfig, AwsEventBridgeSink, AwsS3Config,
    AwsS3Sink, AwsSecurityHubConfig, AwsSecurityHubSink,
};
use self::azure::{
    AzureEventHubConfig, AzureEventHubSink, AzureMonitorConfig, AzureMonitorSink, AzureSentinelConfig,
    AzureSentinelSink,
};
use self::elasticsearch::{ElasticsearchConfig, ElasticsearchSink};
use self::file::{FileConfig, FileSink};
use self::kafka::{KafkaConfig, KafkaSink};
use self::oracle::{OracleLoggingConfig, OracleLoggingSink, OracleStreamingConfig, OracleStreamingSink};
use self::splunk::{SplunkConfig, SplunkSink};
use self::syslog::{SyslogConfig, SyslogSink};
use self::webhook::{WebhookConfig, WebhookSink};

verus! {

/// A buffer that collects items and hands them out in batches once it holds `batch_size`.
pub struct BatchBuffer<T> {
    items: Vec<T>,
    batch_size: usize,
}

impl<T> BatchBuffer<T> {
    /// The buffered items, oldest first.
    pub closed spec fn contents(&self) -> Seq<T> {
        self.items@
    }

    /// The size at which a batch is handed out.
    pub closed spec fn limit(&self) -> usize {
        self.batch_size
    }

    /// An empty buffer that hands out batches of `batch_size` items.
    pub fn new(batch_size: usize) -> (r: Self)
        ensures
            r.contents() == Seq::<T>::empty(),
            r.limit() == batch_size,
    {
        BatchBuffer { items: Vec::new(), batch_size }
    }

    /// Number of buffered items.
    pub fn len(&self) -> (r: usize)
        ensures
            r == self.contents().len(),
    {
        self.items.len()
    }

    /// Adds an item; once the buffer holds `batch_size` items or more, all of them are handed
    /// out as one batch and the buffer is emptied.
    pub fn push(&mut self, item: T) -> (r: Option<Vec<T>>)
        ensures
            final(self).limit() == old(self).limit(),
            old(self).contents().len() + 1 >= old(self).limit() ==> (r matches Some(b) && b@
                == old(self).contents().push(item) && final(self).contents().len() == 0),
            old(self).contents().len() + 1 < old(self).limit() ==> (r is None
                && final(self).contents() == old(self).contents().push(item)),
    {
        self.items.push(item);
        if self.items.len() >= self.batch_size {
            let mut batch = Vec::new();
            std::mem::swap(&mut batch, &mut self.items);
            Some(batch)
        } else {
            None
        }
    }

    /// Hands out everything buffered and empties the buffer.
    pub fn take_all(&mut self) -> (r: Vec<T>)
        ensures
            r@ == old(self).contents(),
            final(self).contents().len() == 0,
            final(self).limit() == old(self).limit(),
    {
        let mut batch = Vec::new();
        std::mem::swap(&mut batch, &mut self.items);
        batch
    }
}

/// Items pass through a buffer unchanged and in order: what was buffered before, followed by
/// the pushed item, equals what is handed out now followed by what stays buffered.
pub proof fn law_batching_preserves_items<T>(
    before: Seq<T>,
    item: T,
    limit: usize,
    out: Option<Seq<T>>,
    after: Seq<T>,
)
    requires
        before.len() + 1 >= limit ==> (out == Some(before.push(item)) && after.len() == 0),
        before.len() + 1 < limit ==> (out is None && after == before.push(item)),
    ensures
        before.push(item) == (match out {
            Some(b) => b,
            None => Seq::<T>::empty(),
        }) + after,
{
    match out {
        Some(b) => {
            assert(b + after =~= b);
        },
        None => {
            assert(Seq::<T>::empty() + after =~= after);
        },
    }
}

/// Configuration for a single sink.
#[derive(Clone, Debug)]
pub enum SinkConfig {
    /// AWS CloudWatch Logs
    AwsCloudwatch(AwsCloudwatchConfig),
    /// AWS S3 bucket
    AwsS3(AwsS3Config),
    /// AWS Security Hub
    AwsSecurityHub(AwsSecurityHubConfig),
    /// AWS EventBridge
    AwsEventBridge(AwsEventBridgeConfig),
    /// Azure Monitor / Log Analytics
    AzureMonitor(AzureMonitorConfig),
    /// Azure Event Hub
    AzureEventHub(AzureEventHubConfig),
    /// Azure Sentinel
    AzureSentinel(AzureSentinelConfig),
    /// Oracle Cloud Logging
    OracleLogging(OracleLoggingConfig),
    /// Oracle Cloud Streaming
    OracleStreaming(OracleStreamingConfig),
    /// Elasticsearch
    Elasticsearch(ElasticsearchConfig),
    /// Splunk HEC
    Splunk(SplunkConfig),
    /// Kafka
    Kafka(KafkaConfig),
    /// Syslog (TCP/UDP/TLS)
    Syslog(SyslogConfig),
    /// HTTP Webhook
    Webhook(WebhookConfig),
    /// Local file
    File(FileConfig),
}

/// A configured sink.
pub enum SinkInstance {
    AwsCloudwatch(AwsCloudwatchSink),
    AwsS3(AwsS3Sink),
    AwsSecurityHub(AwsSecurityHubSink),
    AwsEventBridge(AwsEventBridgeSink),
    AzureMonitor(AzureMonitorSink),
    AzureEventHub(AzureEventHubSink),
    AzureSentinel(AzureSentinelSink),
    OracleLogging(OracleLoggingSink),
    OracleStreaming(OracleStreamingSink),
    Elasticsearch(ElasticsearchSink),
    Splunk(SplunkSink),
    Kafka(KafkaSink),
    Syslog(SyslogSink),
    Webhook(WebhookSink),
    File(FileSink),
}

/// The sink a configuration describes: each kind of configuration makes its own kind of
/// sink, with that configuration.
pub open spec fn sink_for(config: SinkConfig, r: SinkInstance) -> bool {
    match config {
        SinkConfig::AwsCloudwatch(c) => r matches SinkInstance::AwsCloudwatch(s) && s.cfg() == c,
        SinkConfig::AwsS3(c) => r matches SinkInstance::AwsS3(s) && s.cfg() == c,
        SinkConfig::AwsSecurityHub(c) => r matches SinkInstance::AwsSecurityHub(s) && s.cfg() == c,
        SinkConfig::AwsEventBridge(c) => r matches SinkInstance::AwsEventBridge(s) && s.cfg() == c,
        SinkConfig::AzureMonitor(c) => r matches SinkInstance::AzureMonitor(s) && s.cfg() == c,
        SinkConfig::AzureEventHub(c) => r matches SinkInstance::AzureEventHub(s) && s.cfg() == c,
        SinkConfig::AzureSentinel(c) => r matches SinkInstance::AzureSentinel(s)
            && s.monitor().cfg().workspace_id == c.workspace_id
            && s.monitor().cfg().shared_key == c.shared_key,
        SinkConfig::OracleLogging(c) => r matches SinkInstance::OracleLogging(s) && s.cfg() == c,
        SinkConfig::OracleStreaming(c) => r matches SinkInstance::OracleStreaming(s) && s.cfg() == c,
        SinkConfig::Elasticsearch(c) => r matches SinkInstance::Elasticsearch(s) && s.cfg() == c,
        SinkConfig::Splunk(c) => r matches SinkInstance::Splunk(s) && s.cfg() == c,
        SinkConfig::Kafka(c) => r matches SinkInstance::Kafka(s) && s.cfg() == c,
        SinkConfig::Syslog(c) => r matches SinkInstance::Syslog(s) && s.cfg() == c,
        SinkConfig::Webhook(c) => r matches SinkInstance::Webhook(s) && s.cfg() == c,
        SinkConfig::File(c) => r matches SinkInstance::File(s) && s.cfg() == c,
    }
}

/// Create a sink from configuration.
pub fn create_sink(config: SinkConfig) -> (r: SinkInstance)
    ensures
        sink_for(config, r),
{
    match config {
        SinkConfig::AwsCloudwatch(c) => SinkInstance::AwsCloudwatch(AwsCloudwatchSink::new(c)),
        SinkConfig::AwsS3(c) => SinkInstance::AwsS3(AwsS3Sink::new(c)),
        SinkConfig::AwsSecurityHub(c) => SinkInstance::AwsSecurityHub(AwsSecurityHubSink::new(c)),
        SinkConfig::AwsEventBridge(c) => SinkInstance::AwsEventBridge(AwsEventBridgeSink::new(c)),
        SinkConfig::AzureMonitor(c) => SinkInstance::AzureMonitor(AzureMonitorSink::new(c)),
        SinkConfig::AzureEventHub(c) => SinkInstance::AzureEventHub(AzureEventHubSink::new(c)),
        SinkConfig::AzureSentinel(c) => SinkInstance::AzureSentinel(AzureSentinelSink::new(c)),
        SinkConfig::OracleLogging(c) => SinkInstance::OracleLogging(OracleLoggingSink::new(c)),
        SinkConfig::OracleStreaming(c) => SinkInstance::OracleStreaming(OracleStreamingSink::new(c)),
        SinkConfig::Elasticsearch(c) => SinkInstance::Elasticsearch(ElasticsearchSink::new(c)),
        SinkConfig::Splunk(c) => SinkInstance::Splunk(SplunkSink::new(c)),
        SinkConfig::Kafka(c) => SinkInstance::Kafka(KafkaSink::new(c)),
        SinkConfig::Syslog(c) => SinkInstance::Syslog(SyslogSink::new(c)),
        SinkConfig::Webhook(c) => SinkInstance::Webhook(WebhookSink::new(c)),
        SinkConfig::File(c) => SinkInstance::File(FileSink::new(c)),
    }
}

} // verus!
