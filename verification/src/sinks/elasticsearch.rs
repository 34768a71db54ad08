//! Elasticsearch audit sink: bulk-API batches written to a dated index.

use vstd::prelude::*;
use crate::clock::{now, strftime, strftime_text, Timestamp};
use crate::codec::{json_string, json_string_text};
use crate::audit_formats::{FormatConfig, FormatEncoder};
use crate::sinks::BatchBuffer;
use crate::text::{push_str, replace_all, replaced, views};

verus! {

/// Elasticsearch configuration.
#[derive(Clone, Debug)]
pub struct ElasticsearchConfig {
    /// Elasticsearch URLs (comma-separated for cluster)
    pub urls: Vec<String>,
    /// Index name pattern (supports {date} placeholder)
    pub index: String,
    /// Username for authentication
    pub username: Option<String>,
    /// Password for authentication
    pub password: Option<String>,
    /// API key for authentication
    pub api_key: Option<String>,
    /// Cloud ID for Elastic Cloud
    pub cloud_id: Option<String>,
    /// Enable TLS verification
    pub tls_verify: bool,
    /// CA certificate path
    pub ca_cert: Option<String>,
    /// Format configuration
    pub format: FormatConfig,
    /// Batch size for bulk API
    pub batch_size: usize,
    /// Flush interval in seconds
    pub flush_interval_secs: u64,
    /// Number of replicas for index
    pub replicas: u32,
    /// Number of shards for index
    pub shards: u32,
    /// Pipeline for ingest (optional)
    pub pipeline: Option<String>,
}

/// Default index name pattern.
pub fn default_index() -> (r: String)
    ensures
        r@ == "corevpn-audit-{date}"@,
{
    "corevpn-audit-{date}".to_owned()
}

/// Default for the flags that are on unless configured otherwise.
pub fn default_true() -> (r: bool)
    ensures
        r,
{
    true
}

/// Default bulk batch size.
pub fn default_batch_size() -> (r: usize)
    ensures
        r == 100,
{
    100
}

/// Default flush interval in seconds.
pub fn default_flush_interval() -> (r: u64)
    ensures
        r == 5,
{
    5
}

/// Default number of shards.
pub fn default_shards() -> (r: u32)
    ensures
        r == 1,
{
    1
}

/// The index name for an instant: the pattern with `{date}` replaced by the UTC date as
/// `YYYY.MM.DD`.
pub open spec fn index_name_at(pattern: Seq<char>, t: Timestamp) -> Seq<char> {
    replaced(pattern, "{date}"@, strftime_text(t.secs, t.nanos, "%Y.%m.%d"@))
}

/// The index name for a date given as text: the pattern with `{date}` replaced.
pub fn index_for_date(pattern: &str, date: &str) -> (r: String)
    ensures
        r@ == replaced(pattern@, "{date}"@, date@),
{
    proof {
        reveal_strlit("{date}");
    }
    replace_all(pattern, "{date}", date)
}

/// The bulk-API action line that indexes a document into the index whose JSON string is
/// `quoted_index`.
pub open spec fn bulk_action(quoted_index: Seq<char>) -> Seq<char> {
    "{\"index\":{\"_index\":"@ + quoted_index + "}}"@
}

/// The bulk-API request body for an index given as a JSON string: for each document, its
/// action line and the document, each followed by a newline.
pub open spec fn bulk_lines(quoted_index: Seq<char>, docs: Seq<Seq<char>>) -> Seq<char>
    decreases docs.len(),
{
    if docs.len() == 0 {
        seq![]
    } else {
        bulk_lines(quoted_index, docs.drop_last()) + bulk_action(quoted_index) + "\n"@ + docs.last() + "\n"@
    }
}

/// The bulk-API request body for an index: its name is written as a JSON string.
pub open spec fn bulk_text(index: Seq<char>, docs: Seq<Seq<char>>) -> Seq<char> {
    bulk_lines(json_string_text(index), docs)
}

/// The bulk request body for documents, the index given as a JSON string.
pub fn bulk_body_quoted(quoted_index: &str, documents: &Vec<String>) -> (r: String)
    ensures
        r@ == bulk_lines(quoted_index@, views(documents@)),
{
    let mut r = String::new();
    let mut i: usize = 0;
    while i < documents.len()
        invariant
            i <= documents@.len(),
            r@ == bulk_lines(quoted_index@, views(documents@.subrange(0, i as int))),
        decreases documents@.len() - i,
    {
        let ghost prev = r@;
        push_str(&mut r, "{\"index\":{\"_index\":");
        push_str(&mut r, quoted_index);
        push_str(&mut r, "}}");
        push_str(&mut r, "\n");
        push_str(&mut r, documents[i].as_str());
        push_str(&mut r, "\n");
        proof {
            let next = views(documents@.subrange(0, i + 1));
            assert(next.drop_last() =~= views(documents@.subrange(0, i as int)));
            assert(next.last() == documents@[i as int]@);
            assert(r@ =~= prev + bulk_action(quoted_index@) + "\n"@ + documents@[i as int]@ + "\n"@);
        }
        i = i + 1;
    }
    assert(documents@.subrange(0, documents@.len() as int) =~= documents@);
    r
}

/// The bulk request body for documents addressed to an index.
pub fn bulk_body(index: &str, documents: &Vec<String>) -> (r: String)
    ensures
        r@ == bulk_text(index@, views(documents@)),
{
    let quoted = json_string(index);
    bulk_body_quoted(quoted.as_str(), documents)
}

/// Elasticsearch sink: buffers serialized documents for the bulk API.
pub struct ElasticsearchSink {
    config: ElasticsearchConfig,
    encoder: FormatEncoder,
    buffer: BatchBuffer<String>,
}

impl ElasticsearchSink {
    /// The sink's configuration.
    pub closed spec fn cfg(&self) -> ElasticsearchConfig {
        self.config
    }

    /// The encoder the sink uses.
    pub closed spec fn enc(&self) -> FormatEncoder {
        self.encoder
    }

    /// The documents waiting to be sent.
    pub closed spec fn pending(&self) -> BatchBuffer<String> {
        self.buffer
    }

    /// A sink that encodes with the configured format and sends in batches of the configured
    /// size.
    pub fn new(config: ElasticsearchConfig) -> (r: Self)
        ensures
            r.cfg() == config,
            r.enc().cfg() == config.format,
            r.pending().contents().len() == 0,
            r.pending().limit() == config.batch_size,
    {
        let encoder = FormatEncoder::new(config.format.copied());
        let batch_size = config.batch_size;
        ElasticsearchSink { config, encoder, buffer: BatchBuffer::new(batch_size) }
    }

    /// The encoder the sink uses.
    pub fn encoder(&self) -> (r: &FormatEncoder)
        ensures
            *r == self.enc(),
    {
        &self.encoder
    }

    /// The index name for the given instant.
    pub fn index_name_at(&self, t: &Timestamp) -> (r: String)
        requires
            t.wf(),
        ensures
            r@ == index_name_at(self.cfg().index@, *t),
    {
        let date = strftime(t, "%Y.%m.%d");
        index_for_date(self.config.index.as_str(), date.as_str())
    }

    /// The index name for the current UTC date.
    pub fn get_index_name(&self) -> (r: String)
        ensures
            exists|t: Timestamp| t.wf() && r@ == index_name_at(self.cfg().index@, t),
    {
        let t = now();
        self.index_name_at(&t)
    }

    /// The bulk request body for a batch of documents, addressed to today's index, or nothing
    /// for an empty batch.
    pub fn send_batch(&self, documents: Vec<String>) -> (r: Option<String>)
        ensures
            documents@.len() == 0 ==> r is None,
            documents@.len() > 0 ==> (r matches Some(b) && exists|t: Timestamp|
                t.wf() && b@ == bulk_text(
                    index_name_at(self.cfg().index@, t),
                    views(documents@),
                )),
    {
        if documents.len() == 0 {
            return None;
        }
        let t = now();
        let index = self.index_name_at(&t);
        Some(bulk_body(index.as_str(), &documents))
    }

    /// Buffers a serialized document; returns a full batch to send.
    pub fn push(&mut self, document: String) -> (r: Option<Vec<String>>)
        ensures
            final(self).cfg() == old(self).cfg(),
            final(self).enc() == old(self).enc(),
            final(self).pending().limit() == old(self).pending().limit(),
            old(self).pending().contents().len() + 1 >= old(self).pending().limit() ==> (r matches Some(
                b,
            ) && b@ == old(self).pending().contents().push(document)
                && final(self).pending().contents().len() == 0),
            old(self).pending().contents().len() + 1 < old(self).pending().limit() ==> (r is None
                && final(self).pending().contents() == old(self).pending().contents().push(
                document,
            )),
    {
        self.buffer.push(document)
    }

    /// Everything buffered, to send now.
    pub fn flush(&mut self) -> (r: Vec<String>)
        ensures
            r@ == old(self).pending().contents(),
            final(self).pending().contents().len() == 0,
            final(self).cfg() == old(self).cfg(),
            final(self).enc() == old(self).enc(),
    {
        self.buffer.take_all()
    }

    /// The sink name for logging.
    pub fn name(&self) -> (r: &'static str)
        ensures
            r@ == "elasticsearch"@,
    {
        "elasticsearch"
    }
}

} // verus!
