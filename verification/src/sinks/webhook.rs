//! HTTP webhook audit sink.

use std::collections::HashMap;
use vstd::prelude::*;
use vstd::utf8::encode_utf8;
use crate::audit_formats::{FormatConfig, FormatEncoder};
use crate::codec::base64_text;
use crate::sinks::BatchBuffer;
use crate::sinks::oracle::{base64_encodable, base64_of_str};
use crate::text::{join, join_strings, push_str, views};

verus! {

/// Webhook configuration.
#[derive(Clone, Debug)]
pub struct WebhookConfig {
    /// Webhook URL
    pub url: String,
    /// HTTP method (POST, PUT)
    pub method: String,
    /// Additional headers
    pub headers: HashMap<String, String>,
    /// Authentication type
    pub auth: Option<WebhookAuth>,
    /// Format configuration
    pub format: FormatConfig,
    /// Batch size
    pub batch_size: usize,
    /// Timeout in seconds
    pub timeout_secs: u64,
    /// Retry attempts
    pub retries: u32,
    /// Retry delay in milliseconds
    pub retry_delay_ms: u64,
    /// TLS verification
    pub tls_verify: bool,
    /// Wrap batch in array
    pub batch_as_array: bool,
}

/// Default HTTP method.
pub fn default_method() -> (r: String)
    ensures
        r@ == "POST"@,
{
    "POST".to_owned()
}

/// Default batch size.
pub fn default_batch_size() -> (r: usize)
    ensures
        r == 100,
{
    100
}

/// Default timeout in seconds.
pub fn default_timeout() -> (r: u64)
    ensures
        r == 30,
{
    30
}

/// Default number of retries.
pub fn default_retries() -> (r: u32)
    ensures
        r == 3,
{
    3
}

/// Default retry delay in milliseconds.
pub fn default_retry_delay() -> (r: u64)
    ensures
        r == 1000,
{
    1000
}

/// Default for the flags that are on unless configured otherwise.
pub fn default_true() -> (r: bool)
    ensures
        r,
{
    true
}

/// Webhook authentication.
#[derive(Clone, Debug)]
pub enum WebhookAuth {
    /// Bearer token authentication
    Bearer { token: String },
    /// Basic authentication
    Basic { username: String, password: String },
    /// API key header
    ApiKey { header: String, value: String },
    /// OAuth2 client credentials
    OAuth2 { token_url: String, client_id: String, client_secret: String, scope: Option<String> },
    /// HMAC signature
    Hmac { secret: String, algorithm: String, header: String },
}

/// The credentials of basic authentication: user name, a colon and password.
pub open spec fn basic_credentials(username: Seq<char>, password: Seq<char>) -> Seq<char> {
    username + ":"@ + password
}

/// The authentication header of a configuration, as name and value.
pub open spec fn auth_header_of(auth: Option<WebhookAuth>) -> Option<(Seq<char>, Seq<char>)> {
    match auth {
        Some(WebhookAuth::Bearer { token }) => Some(("Authorization"@, "Bearer "@ + token@)),
        Some(WebhookAuth::Basic { username, password }) => Some(
            (
                "Authorization"@,
                "Basic "@ + base64_text(encode_utf8(basic_credentials(username@, password@))),
            ),
        ),
        Some(WebhookAuth::ApiKey { header, value }) => Some((header@, value@)),
        _ => None,
    }
}

/// Authentication settings whose header can be built (basic credentials short enough to
/// encode).
pub open spec fn auth_buildable(auth: Option<WebhookAuth>) -> bool {
    match auth {
        Some(WebhookAuth::Basic { username, password }) => base64_encodable(
            basic_credentials(username@, password@),
        ),
        _ => true,
    }
}

/// The request body of a batch: a JSON array of the events, or the events one per line.
pub open spec fn webhook_body(as_array: bool, events: Seq<Seq<char>>) -> Seq<char> {
    if as_array {
        "["@ + join(events, ","@) + "]"@
    } else {
        join(events, "\n"@)
    }
}

/// Webhook sink.
pub struct WebhookSink {
    config: WebhookConfig,
    encoder: FormatEncoder,
    buffer: BatchBuffer<String>,
}

impl WebhookSink {
    /// The sink's configuration.
    pub closed spec fn cfg(&self) -> WebhookConfig {
        self.config
    }

    /// The encoder the sink uses.
    pub closed spec fn enc(&self) -> FormatEncoder {
        self.encoder
    }

    /// The serialized events waiting to be sent.
    pub closed spec fn pending(&self) -> BatchBuffer<String> {
        self.buffer
    }

    /// A sink that encodes with the configured format and sends in batches of the configured
    /// size.
    pub fn new(config: WebhookConfig) -> (r: Self)
        ensures
            r.cfg() == config,
            r.enc().cfg() == config.format,
            r.pending().contents().len() == 0,
            r.pending().limit() == config.batch_size,
    {
        let encoder = FormatEncoder::new(config.format.copied());
        let batch_size = config.batch_size;
        WebhookSink { config, encoder, buffer: BatchBuffer::new(batch_size) }
    }

    /// The encoder the sink uses.
    pub fn encoder(&self) -> (r: &FormatEncoder)
        ensures
            *r == self.enc(),
    {
        &self.encoder
    }

    /// The authentication header for the configured authentication, if it uses one.
    pub fn build_auth_header(&self) -> (r: Option<(String, String)>)
        requires
            auth_buildable(self.cfg().auth),
        ensures
            match (r, auth_header_of(self.cfg().auth)) {
                (Some((n, v)), Some((sn, sv))) => n@ == sn && v@ == sv,
                (None, None) => true,
                _ => false,
            },
    {
        match &self.config.auth {
            Some(WebhookAuth::Bearer { token }) => {
                let mut v = "Bearer ".to_owned();
                push_str(&mut v, token.as_str());
                Some(("Authorization".to_owned(), v))
            },
            Some(WebhookAuth::Basic { username, password }) => {
                let mut creds = username.clone();
                push_str(&mut creds, ":");
                push_str(&mut creds, password.as_str());
                let encoded = base64_of_str(creds.as_str());
                let mut v = "Basic ".to_owned();
                push_str(&mut v, encoded.as_str());
                Some(("Authorization".to_owned(), v))
            },
            Some(WebhookAuth::ApiKey { header, value }) => Some((header.clone(), value.clone())),
            _ => None,
        }
    }

    /// The request body for a batch, or nothing for an empty batch.
    pub fn send_batch(&self, events: Vec<String>) -> (r: Option<String>)
        ensures
            events@.len() == 0 ==> r is None,
            events@.len() > 0 ==> (r matches Some(b) && b@ == webhook_body(
                self.cfg().batch_as_array,
                views(events@),
            )),
    {
        if events.len() == 0 {
            return None;
        }
        if self.config.batch_as_array {
            let mut b = "[".to_owned();
            let inner = join_strings(&events, ",");
            push_str(&mut b, inner.as_str());
            push_str(&mut b, "]");
            Some(b)
        } else {
            Some(join_strings(&events, "\n"))
        }
    }

    /// Buffers a serialized event; returns a full batch to send.
    pub fn push(&mut self, event: String) -> (r: Option<Vec<String>>)
        ensures
            final(self).cfg() == old(self).cfg(),
            final(self).enc() == old(self).enc(),
            final(self).pending().limit() == old(self).pending().limit(),
            old(self).pending().contents().len() + 1 >= old(self).pending().limit() ==> (r matches Some(
                b,
            ) && b@ == old(self).pending().contents().push(event)
                && final(self).pending().contents().len() == 0),
            old(self).pending().contents().len() + 1 < old(self).pending().limit() ==> (r is None
                && final(self).pending().contents() == old(self).pending().contents().push(event)),
    {
        self.buffer.push(event)
    }

    /// Everything buffered, to send now.
    pub fn flush(&mut self) -> (r: Vec<String>)
        ensures
            r@ == old(self).pending().contents(),
            final(self).pending().contents().len() == 0,
            final(self).cfg() == old(self).cfg(),
            final(self).enc() == old(self).enc(),
    {
        self.buffer.take_all()
    }

    /// The sink name for logging.
    pub fn name(&self) -> (r: &'static str)
        ensures
            r@ == "webhook"@,
    {
        "webhook"
    }
}

} // verus!
