//! AWS audit sinks: CloudWatch Logs, S3, Security Hub and EventBridge.

use vstd::prelude::*;
use crate::audit_events::{AuditCategory, AuditSeverity, category_name};
use crate::audit_formats::{AuditFormat, FormatConfig, FormatEncoder};
use crate::sinks::BatchBuffer;
use crate::text::{join, join_strings, push_str, views};

verus! {

/// AWS CloudWatch Logs configuration.
#[derive(Clone, Debug)]
pub struct AwsCloudwatchConfig {
    /// AWS region
    pub region: String,
    /// Log group name
    pub log_group: String,
    /// Log stream name (supports {date}, {host} placeholders)
    pub log_stream: String,
    /// Create log group if it doesn't exist
    pub create_log_group: bool,
    /// Retention in days (0 = never expire)
    pub retention_days: u32,
    /// Format configuration
    pub format: FormatConfig,
    /// Batch size for sending logs
    pub batch_size: usize,
    /// Flush interval in seconds
    pub flush_interval_secs: u64,
    /// AWS credentials profile (optional, uses default chain if not set)
    pub profile: Option<String>,
    /// Assume role ARN (optional)
    pub role_arn: Option<String>,
}

/// Default CloudWatch log stream name.
pub fn default_stream() -> (r: String)
    ensures
        r@ == "corevpn-audit-{date}"@,
{
    "corevpn-audit-{date}".to_owned()
}

/// Default for the flags that are on unless configured otherwise.
pub fn default_true() -> (r: bool)
    ensures
        r,
{
    true
}

/// Default batch size.
pub fn default_batch_size() -> (r: usize)
    ensures
        r == 100,
{
    100
}

/// Default flush interval in seconds.
pub fn default_flush_interval() -> (r: u64)
    ensures
        r == 5,
{
    5
}

/// CloudWatch Logs sink: buffers `(timestamp in milliseconds, encoded event)` pairs.
pub struct AwsCloudwatchSink {
    config: AwsCloudwatchConfig,
    encoder: FormatEncoder,
    buffer: BatchBuffer<(i64, String)>,
}

impl AwsCloudwatchSink {
    /// The sink's configuration.
    pub closed spec fn cfg(&self) -> AwsCloudwatchConfig {
        self.config
    }

    /// The encoder the sink uses.
    pub closed spec fn enc(&self) -> FormatEncoder {
        self.encoder
    }

    /// The events waiting to be sent.
    pub closed spec fn pending(&self) -> BatchBuffer<(i64, String)> {
        self.buffer
    }

    /// A sink that encodes in the CloudWatch format, with the other format settings taken from
    /// the configuration, and sends in batches of the configured size.
    pub fn new(config: AwsCloudwatchConfig) -> (r: Self)
        ensures
            r.cfg() == config,
            r.enc().cfg() == (FormatConfig { format: AuditFormat::CloudWatch, ..config.format }),
            r.pending().contents().len() == 0,
            r.pending().limit() == config.batch_size,
    {
        let encoder = FormatEncoder::new(config.format.with_format(AuditFormat::CloudWatch));
        let batch_size = config.batch_size;
        AwsCloudwatchSink { config, encoder, buffer: BatchBuffer::new(batch_size) }
    }

    /// The encoder the sink uses.
    pub fn encoder(&self) -> (r: &FormatEncoder)
        ensures
            *r == self.enc(),
    {
        &self.encoder
    }

    /// Buffers an encoded event; returns a full batch to send.
    pub fn push(&mut self, timestamp: i64, message: String) -> (r: Option<Vec<(i64, String)>>)
        ensures
            final(self).cfg() == old(self).cfg(),
            final(self).enc() == old(self).enc(),
            final(self).pending().limit() == old(self).pending().limit(),
            old(self).pending().contents().len() + 1 >= old(self).pending().limit() ==> (r matches Some(
                b,
            ) && b@ == old(self).pending().contents().push((timestamp, message))
                && final(self).pending().contents().len() == 0),
            old(self).pending().contents().len() + 1 < old(self).pending().limit() ==> (r is None
                && final(self).pending().contents() == old(self).pending().contents().push(
                (timestamp, message),
            )),
    {
        self.buffer.push((timestamp, message))
    }

    /// Everything buffered, to send now.
    pub fn flush(&mut self) -> (r: Vec<(i64, String)>)
        ensures
            r@ == old(self).pending().contents(),
            final(self).pending().contents().len() == 0,
            final(self).cfg() == old(self).cfg(),
            final(self).enc() == old(self).enc(),
    {
        self.buffer.take_all()
    }

    /// The sink name for logging.
    pub fn name(&self) -> (r: &'static str)
        ensures
            r@ == "aws_cloudwatch"@,
    {
        "aws_cloudwatch"
    }
}

/// AWS S3 configuration.
#[derive(Clone, Debug)]
pub struct AwsS3Config {
    /// AWS region
    pub region: String,
    /// S3 bucket name
    pub bucket: String,
    /// Key prefix (supports {date}, {hour}, {host} placeholders)
    pub prefix: String,
    /// File format
    pub format: FormatConfig,
    /// Compress files with gzip
    pub compress: bool,
    /// Max file size before rotation (bytes)
    pub max_file_size: u64,
    /// Server-side encryption
    pub sse: Option<S3Encryption>,
    /// AWS credentials profile
    pub profile: Option<String>,
}

/// Default S3 key prefix.
pub fn default_s3_prefix() -> (r: String)
    ensures
        r@ == "audit-logs/{date}/{hour}/"@,
{
    "audit-logs/{date}/{hour}/".to_owned()
}

/// Default maximum S3 object size: 100 MiB.
pub fn default_max_file_size() -> (r: u64)
    ensures
        r == 100 * 1024 * 1024,
{
    100 * 1024 * 1024
}

/// Server-side encryption of S3 objects.
#[derive(Clone, Debug)]
pub enum S3Encryption {
    Aes256,
    AwsKms { key_id: String },
}

/// S3 audit sink: collects encoded lines until flushed.
pub struct AwsS3Sink {
    config: AwsS3Config,
    encoder: FormatEncoder,
    buffer: Vec<String>,
}

impl AwsS3Sink {
    /// The sink's configuration.
    pub closed spec fn cfg(&self) -> AwsS3Config {
        self.config
    }

    /// The encoder the sink uses.
    pub closed spec fn enc(&self) -> FormatEncoder {
        self.encoder
    }

    /// The lines waiting to be uploaded.
    pub closed spec fn pending(&self) -> Seq<String> {
        self.buffer@
    }

    /// A sink that encodes with the configured format.
    pub fn new(config: AwsS3Config) -> (r: Self)
        ensures
            r.cfg() == config,
            r.enc().cfg() == config.format,
            r.pending().len() == 0,
    {
        let encoder = FormatEncoder::new(config.format.copied());
        AwsS3Sink { config, encoder, buffer: Vec::new() }
    }

    /// The encoder the sink uses.
    pub fn encoder(&self) -> (r: &FormatEncoder)
        ensures
            *r == self.enc(),
    {
        &self.encoder
    }

    /// Buffers an encoded line.
    pub fn push(&mut self, line: String)
        ensures
            final(self).pending() == old(self).pending().push(line),
            final(self).cfg() == old(self).cfg(),
            final(self).enc() == old(self).enc(),
    {
        self.buffer.push(line);
    }

    /// The object body to upload (the buffered lines joined with newlines), or nothing when no
    /// line is buffered; the buffer is emptied.
    pub fn flush(&mut self) -> (r: Option<String>)
        ensures
            old(self).pending().len() == 0 ==> r is None,
            old(self).pending().len() > 0 ==> (r matches Some(c) && c@ == join(
                views(old(self).pending()),
                "\n"@,
            )),
            final(self).pending().len() == 0,
            final(self).cfg() == old(self).cfg(),
            final(self).enc() == old(self).enc(),
    {
        if self.buffer.len() == 0 {
            return None;
        }
        let content = join_strings(&self.buffer, "\n");
        self.buffer = Vec::new();
        Some(content)
    }

    /// The sink name for logging.
    pub fn name(&self) -> (r: &'static str)
        ensures
            r@ == "aws_s3"@,
    {
        "aws_s3"
    }
}

/// AWS Security Hub configuration.
#[derive(Clone, Debug)]
pub struct AwsSecurityHubConfig {
    /// AWS region
    pub region: String,
    /// Product ARN for findings
    pub product_arn: Option<String>,
    /// AWS account ID
    pub account_id: String,
    /// Minimum severity to send (filters lower severity events)
    pub min_severity: Option<String>,
    /// AWS credentials profile
    pub profile: Option<String>,
}

/// The Security Hub severity label of a severity.
pub open spec fn severity_label(s: AuditSeverity) -> Seq<char> {
    match s {
        AuditSeverity::Info => "INFORMATIONAL"@,
        AuditSeverity::Low => "LOW"@,
        AuditSeverity::Medium => "MEDIUM"@,
        AuditSeverity::High => "HIGH"@,
        AuditSeverity::Critical => "CRITICAL"@,
    }
}

/// Security Hub sink.
pub struct AwsSecurityHubSink {
    config: AwsSecurityHubConfig,
}

impl AwsSecurityHubSink {
    /// The sink's configuration.
    pub closed spec fn cfg(&self) -> AwsSecurityHubConfig {
        self.config
    }

    pub fn new(config: AwsSecurityHubConfig) -> (r: Self)
        ensures
            r.cfg() == config,
    {
        AwsSecurityHubSink { config }
    }

    /// The finding's severity label.
    pub fn severity_label(&self, severity: AuditSeverity) -> (r: &'static str)
        ensures
            r@ == severity_label(severity),
    {
        match severity {
            AuditSeverity::Info => "INFORMATIONAL",
            AuditSeverity::Low => "LOW",
            AuditSeverity::Medium => "MEDIUM",
            AuditSeverity::High => "HIGH",
            AuditSeverity::Critical => "CRITICAL",
        }
    }

    /// The product ARN of findings: the configured one, or CoreVPN's default product ARN.
    pub fn product_arn(&self) -> (r: String)
        ensures
            r@ == match self.cfg().product_arn {
                Some(a) => a@,
                None => "arn:aws:securityhub:::product/pegasusheavy/corevpn"@,
            },
    {
        match &self.config.product_arn {
            Some(a) => a.clone(),
            None => "arn:aws:securityhub:::product/pegasusheavy/corevpn".to_owned(),
        }
    }

    /// The finding type of an event category.
    pub fn finding_type(&self, category: AuditCategory) -> (r: String)
        ensures
            r@ == "Software and Configuration Checks/VPN/"@ + category_name(category),
    {
        let mut r = "Software and Configuration Checks/VPN/".to_owned();
        push_str(&mut r, category.as_str());
        r
    }

    /// The sink name for logging.
    pub fn name(&self) -> (r: &'static str)
        ensures
            r@ == "aws_security_hub"@,
    {
        "aws_security_hub"
    }
}

/// AWS EventBridge configuration.
#[derive(Clone, Debug)]
pub struct AwsEventBridgeConfig {
    /// AWS region
    pub region: String,
    /// Event bus name
    pub event_bus: String,
    /// Event source name
    pub source: String,
    /// Detail type for events
    pub detail_type: String,
    /// AWS credentials profile
    pub profile: Option<String>,
}

/// Default EventBridge bus.
pub fn default_event_bus() -> (r: String)
    ensures
        r@ == "default"@,
{
    "default".to_owned()
}

/// Default EventBridge source.
pub fn default_source() -> (r: String)
    ensures
        r@ == "corevpn.audit"@,
{
    "corevpn.audit".to_owned()
}

/// Default EventBridge detail type.
pub fn default_detail_type() -> (r: String)
    ensures
        r@ == "CoreVPN Audit Event"@,
{
    "CoreVPN Audit Event".to_owned()
}

/// EventBridge sink.
pub struct AwsEventBridgeSink {
    config: AwsEventBridgeConfig,
}

impl AwsEventBridgeSink {
    /// The sink's configuration.
    pub closed spec fn cfg(&self) -> AwsEventBridgeConfig {
        self.config
    }

    pub fn new(config: AwsEventBridgeConfig) -> (r: Self)
        ensures
            r.cfg() == config,
    {
        AwsEventBridgeSink { config }
    }

    /// The sink's configuration.
    pub fn config(&self) -> (r: &AwsEventBridgeConfig)
        ensures
            *r == self.cfg(),
    {
        &self.config
    }

    /// The sink name for logging.
    pub fn name(&self) -> (r: &'static str)
        ensures
            r@ == "aws_eventbridge"@,
    {
        "aws_eventbridge"
    }
}

} // verus!
