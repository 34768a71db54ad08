//! Azure audit sinks: Azure Monitor / Log Analytics, Event Hub and Sentinel.

use vstd::prelude::*;
use crate::audit_formats::{AuditFormat, FormatConfig, FormatEncoder};
use crate::sinks::BatchBuffer;
use crate::text::push_str;

verus! {

/// Azure Monitor / Log Analytics configuration.
#[derive(Clone, Debug)]
pub struct AzureMonitorConfig {
    /// Workspace ID
    pub workspace_id: String,
    /// Shared key (primary or secondary)
    pub shared_key: String,
    /// Custom log type name
    pub log_type: String,
    /// Azure Government or other cloud
    pub azure_cloud: AzureCloud,
    /// Time field name in records
    pub time_field: String,
    /// Batch size
    pub batch_size: usize,
    /// Flush interval in seconds
    pub flush_interval_secs: u64,
}

/// Default custom log type.
pub fn default_log_type() -> (r: String)
    ensures
        r@ == "CoreVPNAudit"@,
{
    "CoreVPNAudit".to_owned()
}

/// Default time field name.
pub fn default_time_field() -> (r: String)
    ensures
        r@ == "TimeGenerated"@,
{
    "TimeGenerated".to_owned()
}

/// Default batch size.
pub fn default_batch_size() -> (r: usize)
    ensures
        r == 100,
{
    100
}

/// Default flush interval in seconds.
pub fn default_flush_interval() -> (r: u64)
    ensures
        r == 5,
{
    5
}

/// The Azure cloud that hosts the services.
#[derive(Clone, Copy, Debug, PartialEq, Eq, Structural)]
pub enum AzureCloud {
    Public,
    Government,
    China,
    Germany,
}

impl Default for AzureCloud {
    fn default() -> (r: Self)
        ensures
            r == AzureCloud::Public,
    {
        AzureCloud::Public
    }
}

/// The Log Analytics ingestion domain of a cloud.
pub open spec fn log_analytics_domain(c: AzureCloud) -> Seq<char> {
    match c {
        AzureCloud::Public => "ods.opinsights.azure.com"@,
        AzureCloud::Government => "ods.opinsights.azure.us"@,
        AzureCloud::China => "ods.opinsights.azure.cn"@,
        AzureCloud::Germany => "ods.opinsights.azure.de"@,
    }
}

/// The Service Bus domain of a cloud.
pub open spec fn service_bus_domain(c: AzureCloud) -> Seq<char> {
    match c {
        AzureCloud::Public => "servicebus.windows.net"@,
        AzureCloud::Government => "servicebus.usgovcloudapi.net"@,
        AzureCloud::China => "servicebus.chinacloudapi.cn"@,
        AzureCloud::Germany => "servicebus.cloudapi.de"@,
    }
}

impl AzureCloud {
    /// The Log Analytics ingestion domain.
    pub fn log_analytics_endpoint(&self) -> (r: &'static str)
        ensures
            r@ == log_analytics_domain(*self),
    {
        match self {
            AzureCloud::Public => "ods.opinsights.azure.com",
            AzureCloud::Government => "ods.opinsights.azure.us",
            AzureCloud::China => "ods.opinsights.azure.cn",
            AzureCloud::Germany => "ods.opinsights.azure.de",
        }
    }

    /// The Service Bus domain.
    pub fn service_bus_suffix(&self) -> (r: &'static str)
        ensures
            r@ == service_bus_domain(*self),
    {
        match self {
            AzureCloud::Public => "servicebus.windows.net",
            AzureCloud::Government => "servicebus.usgovcloudapi.net",
            AzureCloud::China => "servicebus.chinacloudapi.cn",
            AzureCloud::Germany => "servicebus.cloudapi.de",
        }
    }
}

/// Azure Monitor sink: buffers encoded records.
pub struct AzureMonitorSink {
    config: AzureMonitorConfig,
    encoder: FormatEncoder,
    buffer: BatchBuffer<String>,
}

impl AzureMonitorSink {
    /// The sink's configuration.
    pub closed spec fn cfg(&self) -> AzureMonitorConfig {
        self.config
    }

    /// The encoder the sink uses.
    pub closed spec fn enc(&self) -> FormatEncoder {
        self.encoder
    }

    /// The records waiting to be sent.
    pub closed spec fn pending(&self) -> BatchBuffer<String> {
        self.buffer
    }

    /// A sink that encodes in the Azure Monitor format with default settings.
    pub fn new(config: AzureMonitorConfig) -> (r: Self)
        ensures
            r.cfg() == config,
            r.enc().cfg().is_default_for(AuditFormat::AzureMonitor),
            r.pending().contents().len() == 0,
            r.pending().limit() == config.batch_size,
    {
        let base: FormatConfig = FormatConfig::default();
        let encoder = FormatEncoder::new(base.with_format(AuditFormat::AzureMonitor));
        let batch_size = config.batch_size;
        AzureMonitorSink { config, encoder, buffer: BatchBuffer::new(batch_size) }
    }

    /// The encoder the sink uses.
    pub fn encoder(&self) -> (r: &FormatEncoder)
        ensures
            *r == self.enc(),
    {
        &self.encoder
    }

    /// The request signature. No key-based signature is computed: the sink only prepares
    /// requests.
    pub fn build_signature(&self, _date: &str, _content_length: usize) -> (r: String)
        ensures
            r@ == "placeholder_signature"@,
    {
        "placeholder_signature".to_owned()
    }

    /// The Data Collector API URL of the workspace.
    pub fn logs_url(&self) -> (r: String)
        ensures
            r@ == "https://"@ + self.cfg().workspace_id@ + "."@ + log_analytics_domain(
                self.cfg().azure_cloud,
            ) + "/api/logs?api-version=2016-04-01"@,
    {
        let mut r = "https://".to_owned();
        push_str(&mut r, self.config.workspace_id.as_str());
        push_str(&mut r, ".");
        push_str(&mut r, self.config.azure_cloud.log_analytics_endpoint());
        push_str(&mut r, "/api/logs?api-version=2016-04-01");
        r
    }

    /// Buffers an encoded record; returns a full batch to send.
    pub fn push(&mut self, record: String) -> (r: Option<Vec<String>>)
        ensures
            final(self).cfg() == old(self).cfg(),
            final(self).enc() == old(self).enc(),
            final(self).pending().limit() == old(self).pending().limit(),
            old(self).pending().contents().len() + 1 >= old(self).pending().limit() ==> (r matches Some(
                b,
            ) && b@ == old(self).pending().contents().push(record)
                && final(self).pending().contents().len() == 0),
            old(self).pending().contents().len() + 1 < old(self).pending().limit() ==> (r is None
                && final(self).pending().contents() == old(self).pending().contents().push(record)),
    {
        self.buffer.push(record)
    }

    /// Everything buffered, to send now.
    pub fn flush(&mut self) -> (r: Vec<String>)
        ensures
            r@ == old(self).pending().contents(),
            final(self).pending().contents().len() == 0,
            final(self).cfg() == old(self).cfg(),
            final(self).enc() == old(self).enc(),
    {
        self.buffer.take_all()
    }

    /// The sink name for logging.
    pub fn name(&self) -> (r: &'static str)
        ensures
            r@ == "azure_monitor"@,
    {
        "azure_monitor"
    }
}

/// Azure Event Hub configuration.
#[derive(Clone, Debug)]
pub struct AzureEventHubConfig {
    /// Event Hub namespace
    pub namespace: String,
    /// Event Hub name
    pub event_hub: String,
    /// Shared Access Signature policy name
    pub policy_name: String,
    /// Shared Access Signature key
    pub policy_key: String,
    /// Partition key (optional)
    pub partition_key: Option<String>,
    /// Format configuration
    pub format: FormatConfig,
    /// Batch size
    pub batch_size: usize,
    /// Azure cloud
    pub azure_cloud: AzureCloud,
}

/// Azure Event Hub sink.
pub struct AzureEventHubSink {
    config: AzureEventHubConfig,
    encoder: FormatEncoder,
    buffer: BatchBuffer<String>,
}

impl AzureEventHubSink {
    /// The sink's configuration.
    pub closed spec fn cfg(&self) -> AzureEventHubConfig {
        self.config
    }

    /// The encoder the sink uses.
    pub closed spec fn enc(&self) -> FormatEncoder {
        self.encoder
    }

    /// The messages waiting to be sent.
    pub closed spec fn pending(&self) -> BatchBuffer<String> {
        self.buffer
    }

    /// A sink that encodes with the configured format.
    pub fn new(config: AzureEventHubConfig) -> (r: Self)
        ensures
            r.cfg() == config,
            r.enc().cfg() == config.format,
            r.pending().contents().len() == 0,
            r.pending().limit() == config.batch_size,
    {
        let encoder = FormatEncoder::new(config.format.copied());
        let batch_size = config.batch_size;
        AzureEventHubSink { config, encoder, buffer: BatchBuffer::new(batch_size) }
    }

    /// The encoder the sink uses.
    pub fn encoder(&self) -> (r: &FormatEncoder)
        ensures
            *r == self.enc(),
    {
        &self.encoder
    }

    /// The REST endpoint that messages are posted to.
    pub fn get_endpoint(&self) -> (r: String)
        ensures
            r@ == "https://"@ + self.cfg().namespace@ + "."@ + service_bus_domain(
                self.cfg().azure_cloud,
            ) + "/"@ + self.cfg().event_hub@ + "/messages"@,
    {
        let mut r = "https://".to_owned();
        push_str(&mut r, self.config.namespace.as_str());
        push_str(&mut r, ".");
        push_str(&mut r, self.config.azure_cloud.service_bus_suffix());
        push_str(&mut r, "/");
        push_str(&mut r, self.config.event_hub.as_str());
        push_str(&mut r, "/messages");
        r
    }

    /// Buffers an encoded message; returns a full batch to send.
    pub fn push(&mut self, message: String) -> (r: Option<Vec<String>>)
        ensures
            final(self).cfg() == old(self).cfg(),
            final(self).enc() == old(self).enc(),
            final(self).pending().limit() == old(self).pending().limit(),
            old(self).pending().contents().len() + 1 >= old(self).pending().limit() ==> (r matches Some(
                b,
            ) && b@ == old(self).pending().contents().push(message)
                && final(self).pending().contents().len() == 0),
            old(self).pending().contents().len() + 1 < old(self).pending().limit() ==> (r is None
                && final(self).pending().contents() == old(self).pending().contents().push(message)),
    {
        self.buffer.push(message)
    }

    /// Everything buffered, to send now.
    pub fn flush(&mut self) -> (r: Vec<String>)
        ensures
            r@ == old(self).pending().contents(),
            final(self).pending().contents().len() == 0,
            final(self).cfg() == old(self).cfg(),
            final(self).enc() == old(self).enc(),
    {
        self.buffer.take_all()
    }

    /// The sink name for logging.
    pub fn name(&self) -> (r: &'static str)
        ensures
            r@ == "azure_event_hub"@,
    {
        "azure_event_hub"
    }
}

/// Azure Sentinel configuration.
#[derive(Clone, Debug)]
pub struct AzureSentinelConfig {
    /// Log Analytics Workspace ID (Sentinel uses Log Analytics)
    pub workspace_id: String,
    /// Shared key
    pub shared_key: String,
    /// Custom log type for Sentinel
    pub log_type: String,
    /// Azure cloud
    pub azure_cloud: AzureCloud,
    /// Add Sentinel-specific enrichments
    pub enrich_for_sentinel: bool,
    /// Batch size
    pub batch_size: usize,
}

/// Default Sentinel log type.
pub fn default_sentinel_log_type() -> (r: String)
    ensures
        r@ == "CoreVPNSecurity"@,
{
    "CoreVPNSecurity".to_owned()
}

/// Default for the flags that are on unless configured otherwise.
pub fn default_true() -> (r: bool)
    ensures
        r,
{
    true
}

/// Azure Sentinel sink (via Log Analytics).
pub struct AzureSentinelSink {
    monitor_sink: AzureMonitorSink,
    enrich: bool,
}

impl AzureSentinelSink {
    /// The Log Analytics sink that Sentinel events go through.
    pub closed spec fn monitor(&self) -> AzureMonitorSink {
        self.monitor_sink
    }

    /// Whether events are enriched for Sentinel.
    pub closed spec fn enriches(&self) -> bool {
        self.enrich
    }

    /// A Sentinel sink: a Log Analytics sink for the same workspace, key, log type, cloud and
    /// batch size, with the `TimeGenerated` time field and a five-second flush interval.
    pub fn new(config: AzureSentinelConfig) -> (r: Self)
        ensures
            r.monitor().cfg().workspace_id == config.workspace_id,
            r.monitor().cfg().shared_key == config.shared_key,
            r.monitor().cfg().log_type == config.log_type,
            r.monitor().cfg().azure_cloud == config.azure_cloud,
            r.monitor().cfg().time_field@ == "TimeGenerated"@,
            r.monitor().cfg().batch_size == config.batch_size,
            r.monitor().cfg().flush_interval_secs == 5,
            r.monitor().enc().cfg().is_default_for(AuditFormat::AzureMonitor),
            r.monitor().pending().contents().len() == 0,
            r.enriches() == config.enrich_for_sentinel,
    {
        let monitor_config = AzureMonitorConfig {
            workspace_id: config.workspace_id,
            shared_key: config.shared_key,
            log_type: config.log_type,
            azure_cloud: config.azure_cloud,
            time_field: "TimeGenerated".to_owned(),
            batch_size: config.batch_size,
            flush_interval_secs: 5,
        };
        AzureSentinelSink {
            monitor_sink: AzureMonitorSink::new(monitor_config),
            enrich: config.enrich_for_sentinel,
        }
    }

    /// The underlying Log Analytics sink.
    pub fn monitor_sink(&mut self) -> (r: &mut AzureMonitorSink)
        ensures
            *r == old(self).monitor(),
            final(self).monitor() == *final(r),
            final(self).enriches() == old(self).enriches(),
    {
        &mut self.monitor_sink
    }

    /// Whether events are enriched for Sentinel.
    pub fn enrich(&self) -> (r: bool)
        ensures
            r == self.enriches(),
    {
        self.enrich
    }

    /// The sink name for logging.
    pub fn name(&self) -> (r: &'static str)
        ensures
            r@ == "azure_sentinel"@,
    {
        "azure_sentinel"
    }
}

} // verus!
