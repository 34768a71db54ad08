//! Syslog audit sink (UDP, TCP or TLS transport).

use vstd::prelude::*;
use crate::audit_formats::{AuditFormat, FormatConfig, FormatEncoder};
use crate::sinks::BatchBuffer;
use crate::text::{decimal, push_char, push_str, utf8_len, write_decimal};

verus! {

/// Syslog configuration.
#[derive(Clone, Debug)]
pub struct SyslogConfig {
    /// Syslog server address
    pub address: String,
    /// Port
    pub port: u16,
    /// Protocol (udp, tcp, tls)
    pub protocol: SyslogProtocol,
    /// Facility (0-23)
    pub facility: u8,
    /// App name
    pub app_name: String,
    /// TLS CA certificate path (for TLS protocol)
    pub tls_ca_cert: Option<String>,
    /// TLS client certificate path
    pub tls_client_cert: Option<String>,
    /// TLS client key path
    pub tls_client_key: Option<String>,
    /// Skip TLS verification
    pub tls_insecure: bool,
    /// Use CEF format
    pub use_cef: bool,
    /// Use LEEF format
    pub use_leef: bool,
    /// Frame messages with octet counting (RFC 5425)
    pub octet_counting: bool,
    /// Reconnect on failure
    pub reconnect: bool,
    /// Reconnect interval in seconds
    pub reconnect_interval_secs: u64,
}

/// Default syslog port.
pub fn default_port() -> (r: u16)
    ensures
        r == 514,
{
    514
}

/// Default facility: security/auth.
pub fn default_facility() -> (r: u8)
    ensures
        r == 4,
{
    4
}

/// Default app name.
pub fn default_app_name() -> (r: String)
    ensures
        r@ == "corevpn"@,
{
    "corevpn".to_owned()
}

/// Default for the flags that are on unless configured otherwise.
pub fn default_true() -> (r: bool)
    ensures
        r,
{
    true
}

/// Default reconnect interval in seconds.
pub fn default_reconnect_interval() -> (r: u64)
    ensures
        r == 5,
{
    5
}

/// Syslog transport.
#[derive(Clone, Copy, Debug, PartialEq, Eq, Structural)]
pub enum SyslogProtocol {
    Udp,
    Tcp,
    Tls,
}

impl Default for SyslogProtocol {
    fn default() -> (r: Self)
        ensures
            r == SyslogProtocol::Udp,
    {
        SyslogProtocol::Udp
    }
}

/// The output format a syslog configuration selects: CEF, else LEEF, else plain syslog.
pub open spec fn syslog_format_of(config: SyslogConfig) -> AuditFormat {
    if config.use_cef {
        AuditFormat::Cef
    } else if config.use_leef {
        AuditFormat::Leef
    } else {
        AuditFormat::Syslog
    }
}

/// Number of messages a stream transport collects before sending.
pub const STREAM_BATCH: usize = 10;

/// Syslog sink: datagrams are sent one by one, stream transports send in groups.
pub struct SyslogSink {
    config: SyslogConfig,
    encoder: FormatEncoder,
    buffer: BatchBuffer<String>,
}

impl SyslogSink {
    /// The sink's configuration.
    pub closed spec fn cfg(&self) -> SyslogConfig {
        self.config
    }

    /// The encoder the sink uses.
    pub closed spec fn enc(&self) -> FormatEncoder {
        self.encoder
    }

    /// The messages waiting to be sent over a stream transport.
    pub closed spec fn pending(&self) -> BatchBuffer<String> {
        self.buffer
    }

    /// A sink whose encoder uses the format the configuration selects, the configured
    /// facility and app name, and the default format settings otherwise.
    pub fn new(config: SyslogConfig) -> (r: Self)
        ensures
            r.cfg() == config,
            r.enc().cfg().format == syslog_format_of(config),
            !r.enc().cfg().pretty,
            !r.enc().cfg().include_nulls,
            r.enc().cfg().cef_vendor@ == "PegasusHeavy"@,
            r.enc().cfg().cef_product@ == "CoreVPN"@,
            r.enc().cfg().cef_version@ == "1.0"@,
            r.enc().cfg().syslog_facility == config.facility,
            r.enc().cfg().syslog_app_name@ == config.app_name@,
            r.pending().contents().len() == 0,
            r.pending().limit() == STREAM_BATCH,
    {
        let format = if config.use_cef {
            AuditFormat::Cef
        } else if config.use_leef {
            AuditFormat::Leef
        } else {
            AuditFormat::Syslog
        };
        let base = FormatConfig::default();
        let encoder = FormatEncoder::new(
            FormatConfig {
                format,
                syslog_facility: config.facility,
                syslog_app_name: config.app_name.clone(),
                ..base
            },
        );
        SyslogSink { config, encoder, buffer: BatchBuffer::new(STREAM_BATCH) }
    }

    /// The encoder the sink uses.
    pub fn encoder(&self) -> (r: &FormatEncoder)
        ensures
            *r == self.enc(),
    {
        &self.encoder
    }

    /// The message as sent: with octet counting, its length in bytes, a space and the
    /// message; otherwise the message and a newline.
    pub fn frame_message(&self, message: &str) -> (r: String)
        requires
            utf8_len(message@) <= usize::MAX,
        ensures
            r@ == if self.cfg().octet_counting {
                decimal(utf8_len(message@)) + " "@ + message@
            } else {
                message@.push('\n')
            },
    {
        if self.config.octet_counting {
            let mut r = String::new();
            write_decimal(&mut r, message.len() as u64);
            push_str(&mut r, " ");
            push_str(&mut r, message);
            r
        } else {
            let mut r = message.to_owned();
            push_char(&mut r, '\n');
            r
        }
    }

    /// The server address as `host:port`.
    pub fn address(&self) -> (r: String)
        ensures
            r@ == self.cfg().address@ + ":"@ + decimal(self.cfg().port as nat),
    {
        let mut r = self.config.address.clone();
        push_str(&mut r, ":");
        write_decimal(&mut r, self.config.port as u64);
        r
    }

    /// The framed messages to transmit, in order.
    pub fn send_messages(&self, messages: &Vec<String>) -> (r: Vec<String>)
        requires
            forall|i: int| 0 <= i < messages@.len() ==> utf8_len(#[trigger] messages@[i]@) <= usize::MAX,
        ensures
            r@.len() == messages@.len(),
            forall|i: int|
                0 <= i < r@.len() ==> #[trigger] r@[i]@ == if self.cfg().octet_counting {
                    decimal(utf8_len(messages@[i]@)) + " "@ + messages@[i]@
                } else {
                    messages@[i]@.push('\n')
                },
    {
        let mut r: Vec<String> = Vec::new();
        let mut i: usize = 0;
        while i < messages.len()
            invariant
                i <= messages@.len(),
                r@.len() == i,
                forall|j: int| 0 <= j < messages@.len() ==> utf8_len(#[trigger] messages@[j]@) <= usize::MAX,
                forall|j: int|
                    0 <= j < i ==> #[trigger] r@[j]@ == if self.cfg().octet_counting {
                        decimal(utf8_len(messages@[j]@)) + " "@ + messages@[j]@
                    } else {
                        messages@[j]@.push('\n')
                    },
            decreases messages@.len() - i,
        {
            let framed = self.frame_message(messages[i].as_str());
            r.push(framed);
            i = i + 1;
        }
        r
    }

    /// Accepts an encoded message and returns the messages to transmit now: over UDP the
    /// message itself; over TCP or TLS the collected messages once ten have gathered, else none.
    pub fn send(&mut self, message: String) -> (r: Vec<String>)
        ensures
            final(self).cfg() == old(self).cfg(),
            final(self).enc() == old(self).enc(),
            final(self).pending().limit() == old(self).pending().limit(),
            old(self).cfg().protocol == SyslogProtocol::Udp ==> (r@ == seq![message]
                && final(self).pending() == old(self).pending()),
            old(self).cfg().protocol != SyslogProtocol::Udp ==> ({
                let grown = old(self).pending().contents().push(message);
                if grown.len() >= old(self).pending().limit() {
                    r@ == grown && final(self).pending().contents().len() == 0
                } else {
                    r@.len() == 0 && final(self).pending().contents() == grown
                }
            }),
    {
        match self.config.protocol {
            SyslogProtocol::Udp => {
                let mut r = Vec::new();
                r.push(message);
                r
            },
            SyslogProtocol::Tcp | SyslogProtocol::Tls => {
                match self.buffer.push(message) {
                    Some(batch) => batch,
                    None => Vec::new(),
                }
            },
        }
    }

    /// Everything buffered, to send now.
    pub fn flush(&mut self) -> (r: Vec<String>)
        ensures
            r@ == old(self).pending().contents(),
            final(self).pending().contents().len() == 0,
            final(self).cfg() == old(self).cfg(),
            final(self).enc() == old(self).enc(),
    {
        self.buffer.take_all()
    }

    /// The sink name for logging.
    pub fn name(&self) -> (r: &'static str)
        ensures
            r@ == "syslog"@,
    {
        "syslog"
    }
}

} // verus!
