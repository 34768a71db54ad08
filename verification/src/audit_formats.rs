//! Audit event format encoders: CEF, LEEF and RFC 5424 syslog text, and the field values of
//! the JSON-based formats (CloudWatch, Azure Monitor, OCSF).

use vstd::prelude::*;
use crate::audit_events::{
    AuditCategory, AuditEvent, AuditOutcome, AuditSeverity, category_name, cef_severity_of,
    outcome_name, syslog_severity_of, opt_view,
};
use crate::clock::{rfc3339_micros, rfc3339_micros_text, rfc3339_millis, rfc3339_millis_text};
use crate::text::{
    chars_of, decimal, join, join_strings, push_char, push_str, signed_decimal, views,
    write_decimal, write_signed_decimal,
};

verus! {

/// Supported audit log formats.
#[derive(Clone, Copy, Debug, PartialEq, Eq, Structural)]
pub enum AuditFormat {
    /// JSON format (default)
    Json,
    /// JSON Lines format (one JSON object per line)
    JsonLines,
    /// Common Event Format (CEF)
    Cef,
    /// Log Event Extended Format (LEEF)
    Leef,
    /// Syslog RFC 5424
    Syslog,
    /// AWS CloudWatch Logs
    CloudWatch,
    /// Azure Monitor
    AzureMonitor,
    /// Open Cybersecurity Schema Framework
    Ocsf,
}

impl Default for AuditFormat {
    fn default() -> (r: Self)
        ensures
            r == AuditFormat::Json,
    {
        AuditFormat::Json
    }
}

/// Format configuration.
#[derive(Clone, Debug)]
pub struct FormatConfig {
    /// Output format
    pub format: AuditFormat,
    /// Pretty print JSON (for debugging)
    pub pretty: bool,
    /// Include null fields
    pub include_nulls: bool,
    /// CEF device vendor
    pub cef_vendor: String,
    /// CEF device product
    pub cef_product: String,
    /// CEF device version
    pub cef_version: String,
    /// Syslog facility (0-23)
    pub syslog_facility: u8,
    /// Syslog app name
    pub syslog_app_name: String,
}

/// Default CEF device vendor.
pub fn default_vendor() -> (r: String)
    ensures
        r@ == "PegasusHeavy"@,
{
    "PegasusHeavy".to_owned()
}

/// Default CEF device product.
pub fn default_product() -> (r: String)
    ensures
        r@ == "CoreVPN"@,
{
    "CoreVPN".to_owned()
}

/// Default CEF device version.
pub fn default_version() -> (r: String)
    ensures
        r@ == "1.0"@,
{
    "1.0".to_owned()
}

/// Default syslog facility (security/auth).
pub fn default_facility() -> (r: u8)
    ensures
        r == 4,
{
    4
}

/// Default syslog app name.
pub fn default_app_name() -> (r: String)
    ensures
        r@ == "corevpn"@,
{
    "corevpn".to_owned()
}

impl FormatConfig {
    /// The configuration that `Default` yields for the given output format.
    pub open spec fn is_default_for(self, format: AuditFormat) -> bool {
        &&& self.format == format
        &&& !self.pretty
        &&& !self.include_nulls
        &&& self.cef_vendor@ == "PegasusHeavy"@
        &&& self.cef_product@ == "CoreVPN"@
        &&& self.cef_version@ == "1.0"@
        &&& self.syslog_facility == 4
        &&& self.syslog_app_name@ == "corevpn"@
    }
}

impl FormatConfig {
    /// A copy of the configuration.
    pub fn copied(&self) -> (r: Self)
        ensures
            r == *self,
    {
        FormatConfig {
            format: self.format,
            pretty: self.pretty,
            include_nulls: self.include_nulls,
            cef_vendor: self.cef_vendor.clone(),
            cef_product: self.cef_product.clone(),
            cef_version: self.cef_version.clone(),
            syslog_facility: self.syslog_facility,
            syslog_app_name: self.syslog_app_name.clone(),
        }
    }

    /// The same configuration with another output format.
    pub fn with_format(&self, format: AuditFormat) -> (r: Self)
        ensures
            r == (FormatConfig { format, ..*self }),
    {
        FormatConfig { format, ..self.copied() }
    }
}

impl Default for FormatConfig {
    fn default() -> (r: Self)
        ensures
            r.is_default_for(AuditFormat::Json),
    {
        FormatConfig {
            format: AuditFormat::Json,
            pretty: false,
            include_nulls: false,
            cef_vendor: default_vendor(),
            cef_product: default_product(),
            cef_version: default_version(),
            syslog_facility: default_facility(),
            syslog_app_name: default_app_name(),
        }
    }
}

/// The three escaping schemes of the text formats.
#[derive(Clone, Copy, PartialEq, Eq, Structural)]
pub enum EscapeScheme {
    Cef,
    Leef,
    SyslogStructuredData,
}

/// The replacement text of one character under an escaping scheme.
pub open spec fn escape_char(scheme: EscapeScheme, c: char) -> Seq<char> {
    match scheme {
        EscapeScheme::Cef => {
            if c == '\\' {
                seq!['\\', '\\']
            } else if c == '|' {
                seq!['\\', '|']
            } else if c == '\n' {
                seq!['\\', 'n']
            } else if c == '\r' {
                seq!['\\', 'r']
            } else if c == '=' {
                seq!['\\', '=']
            } else {
                seq![c]
            }
        },
        EscapeScheme::Leef => {
            if c == '\\' {
                seq!['\\', '\\']
            } else if c == '|' {
                seq!['\\', '|']
            } else if c == '\t' {
                seq!['\\', 't']
            } else if c == '\n' {
                seq!['\\', 'n']
            } else if c == '\r' {
                seq!['\\', 'r']
            } else {
                seq![c]
            }
        },
        EscapeScheme::SyslogStructuredData => {
            if c == '\\' {
                seq!['\\', '\\']
            } else if c == '"' {
                seq!['\\', '"']
            } else if c == ']' {
                seq!['\\', ']']
            } else {
                seq![c]
            }
        },
    }
}

/// A text with every character replaced by its escape under `scheme`.
pub open spec fn escaped(scheme: EscapeScheme, s: Seq<char>) -> Seq<char>
    decreases s.len(),
{
    if s.len() == 0 {
        seq![]
    } else {
        escaped(scheme, s.drop_last()) + escape_char(scheme, s.last())
    }
}

/// Escapes a text under the given scheme.
pub fn escape_with(scheme: EscapeScheme, s: &str) -> (r: String)
    ensures
        r@ == escaped(scheme, s@),
{
    let cs = chars_of(s);
    let mut out = String::new();
    let mut i: usize = 0;
    while i < cs.len()
        invariant
            cs@ == s@,
            i <= cs@.len(),
            out@ == escaped(scheme, cs@.subrange(0, i as int)),
        decreases cs@.len() - i,
    {
        let c = cs[i];
        let special = match scheme {
            EscapeScheme::Cef => c == '\\' || c == '|' || c == '\n' || c == '\r' || c == '=',
            EscapeScheme::Leef => c == '\\' || c == '|' || c == '\t' || c == '\n' || c == '\r',
            EscapeScheme::SyslogStructuredData => c == '\\' || c == '"' || c == ']',
        };
        if special {
            push_char(&mut out, '\\');
            let e = if c == '\n' {
                'n'
            } else if c == '\r' {
                'r'
            } else if c == '\t' {
                't'
            } else {
                c
            };
            push_char(&mut out, e);
        } else {
            push_char(&mut out, c);
        }
        proof {
            let next = cs@.subrange(0, i + 1);
            assert(next.drop_last() =~= cs@.subrange(0, i as int));
            assert(next.last() == c);
            assert(out@ =~= escaped(scheme, next));
        }
        i = i + 1;
    }
    assert(cs@.subrange(0, cs@.len() as int) =~= cs@);
    out
}

/// Escape special characters for CEF format.
pub fn escape_cef(s: &str) -> (r: String)
    ensures
        r@ == escaped(EscapeScheme::Cef, s@),
{
    escape_with(EscapeScheme::Cef, s)
}

/// Escape special characters for LEEF format.
pub fn escape_leef(s: &str) -> (r: String)
    ensures
        r@ == escaped(EscapeScheme::Leef, s@),
{
    escape_with(EscapeScheme::Leef, s)
}

/// Escape special characters for syslog structured data.
pub fn escape_syslog_sd(s: &str) -> (r: String)
    ensures
        r@ == escaped(EscapeScheme::SyslogStructuredData, s@),
{
    escape_with(EscapeScheme::SyslogStructuredData, s)
}


/// `key` followed by the (optionally escaped) text of an optional field, as a one-element list,
/// or nothing when the field is absent.
pub open spec fn opt_ext(o: Option<String>, key: Seq<char>, scheme: Option<EscapeScheme>) -> Seq<
    Seq<char>,
> {
    match o {
        Some(v) => seq![
            key + match scheme {
                Some(sc) => escaped(sc, v@),
                None => v@,
            },
        ],
        None => seq![],
    }
}

/// The `category.action` identifier of an event.
pub open spec fn event_key(ev: AuditEvent) -> Seq<char> {
    category_name(ev.category) + "."@ + ev.action@
}

/// The CEF extension fields that describe the actor.
pub open spec fn cef_actor_part(ev: AuditEvent) -> Seq<Seq<char>> {
    let cef = Some(EscapeScheme::Cef);
    match ev.actor {
        Some(a) => opt_ext(a.name, "suser="@, cef) + opt_ext(a.source_ip, "src="@, None) + opt_ext(
            a.session_id,
            "sproc="@,
            cef,
        ),
        None => seq![],
    }
}

/// The CEF extension fields that describe the target.
pub open spec fn cef_target_part(ev: AuditEvent) -> Seq<Seq<char>> {
    let cef = Some(EscapeScheme::Cef);
    match ev.target {
        Some(t) => opt_ext(t.id, "duid="@, cef) + opt_ext(t.name, "duser="@, cef),
        None => seq![],
    }
}

/// The CEF extension fields of an event, in order.
pub open spec fn cef_extensions(ev: AuditEvent) -> Seq<Seq<char>> {
    let base = seq![
        "rt="@ + signed_decimal(ev.timestamp.millis()),
        "msg="@ + escaped(EscapeScheme::Cef, ev.message@),
        "outcome="@ + outcome_name(ev.outcome),
        "cat="@ + category_name(ev.category),
    ];
    base + cef_actor_part(ev) + cef_target_part(ev) + seq![
        "dvchost="@ + escaped(EscapeScheme::Cef, ev.host@),
        "externalId="@ + ev.id@,
    ]
}

/// The CEF line of an event:
/// `CEF:0|Vendor|Product|Version|SignatureID|Name|Severity|Extensions`.
pub open spec fn cef_text(cfg: FormatConfig, ev: AuditEvent) -> Seq<char> {
    let e = |t: Seq<char>| escaped(EscapeScheme::Cef, t);
    "CEF:0|"@ + e(cfg.cef_vendor@) + "|"@ + e(cfg.cef_product@) + "|"@ + e(cfg.cef_version@) + "|"@
        + e(event_key(ev)) + "|"@ + e(ev.action@) + "|"@ + decimal(
        cef_severity_of(ev.severity) as nat,
    ) + "|"@ + join(cef_extensions(ev), " "@)
}

/// The LEEF extension fields that describe the actor.
pub open spec fn leef_actor_part(ev: AuditEvent) -> Seq<Seq<char>> {
    match ev.actor {
        Some(a) => opt_ext(a.name, "usrName="@, Some(EscapeScheme::Leef)) + opt_ext(
            a.source_ip,
            "src="@,
            None,
        ),
        None => seq![],
    }
}

/// The LEEF extension fields of an event stamped with the time text `time`, in order.
pub open spec fn leef_extensions_at(ev: AuditEvent, time: Seq<char>) -> Seq<Seq<char>> {
    let base = seq![
        "devTime="@ + time,
        "cat="@ + category_name(ev.category),
        "sev="@ + decimal(cef_severity_of(ev.severity) as nat),
        "msg="@ + escaped(EscapeScheme::Leef, ev.message@),
    ];
    base + leef_actor_part(ev) + seq!["identHostName="@ + escaped(EscapeScheme::Leef, ev.host@)]
}

/// The LEEF line of an event stamped with the time text `time`:
/// `LEEF:2.0|Vendor|Product|Version|EventID|Extensions`.
pub open spec fn leef_text_at(cfg: FormatConfig, ev: AuditEvent, time: Seq<char>) -> Seq<char> {
    let e = |t: Seq<char>| escaped(EscapeScheme::Leef, t);
    "LEEF:2.0|"@ + e(cfg.cef_vendor@) + "|"@ + e(cfg.cef_product@) + "|"@ + e(cfg.cef_version@)
        + "|"@ + e(event_key(ev)) + "|"@ + join(leef_extensions_at(ev, time), seq!['\t'])
}

/// The LEEF line of an event, stamped with its time in RFC 3339 with milliseconds.
pub open spec fn leef_text(cfg: FormatConfig, ev: AuditEvent) -> Seq<char> {
    leef_text_at(cfg, ev, rfc3339_millis_text(ev.timestamp.secs, ev.timestamp.nanos))
}

/// The syslog PRI value: facility times eight plus severity.
pub open spec fn syslog_priority(facility: u8, ev: AuditEvent) -> int {
    facility * 8 + syslog_severity_of(ev.severity)
}

/// The ` name="..."` parameter of the actor element, if the actor has a name.
pub open spec fn sd_name_part(name: Option<String>) -> Seq<char> {
    match name {
        Some(n) => " name=\""@ + escaped(EscapeScheme::SyslogStructuredData, n@) + "\""@,
        None => Seq::<char>::empty(),
    }
}

/// The ` sourceIp="..."` parameter of the actor element, if the actor has a source address.
pub open spec fn sd_ip_part(ip: Option<String>) -> Seq<char> {
    match ip {
        Some(ip) => " sourceIp=\""@ + ip@ + "\""@,
        None => Seq::<char>::empty(),
    }
}

/// The RFC 5424 structured data of an event.
pub open spec fn syslog_structured_data(ev: AuditEvent) -> Seq<char> {
    let head = "[corevpn@32473 eventId=\""@ + ev.id@ + "\" outcome=\""@ + outcome_name(ev.outcome)
        + "\" category=\""@ + category_name(ev.category) + "\"]"@;
    match ev.actor {
        Some(a) => head + "[actor@32473 type=\""@ + a.actor_type@ + "\""@ + sd_name_part(a.name)
            + sd_ip_part(a.source_ip) + "]"@,
        None => head,
    }
}

/// The RFC 5424 syslog line of an event:
/// `<PRI>1 TIMESTAMP HOST APP - MSGID [SD] MSG`.
pub open spec fn syslog_text(cfg: FormatConfig, ev: AuditEvent) -> Seq<char> {
    syslog_text_at(cfg, ev, rfc3339_micros_text(ev.timestamp.secs, ev.timestamp.nanos))
}

/// The syslog line of an event stamped with the time text `time`.
pub open spec fn syslog_text_at(cfg: FormatConfig, ev: AuditEvent, time: Seq<char>) -> Seq<char> {
    "<"@ + decimal(syslog_priority(cfg.syslog_facility, ev) as nat) + ">1 "@ + time + " "@ + ev.host@ + " "@ + cfg.syslog_app_name@ + " - "@ + event_key(ev) + " "@
        + syslog_structured_data(ev) + " "@ + ev.message@
}

/// Appends `key` and the optional field's (optionally escaped) text to the extension list.
fn push_opt_ext(exts: &mut Vec<String>, o: &Option<String>, key: &str, scheme: Option<EscapeScheme>)
    ensures
        views(final(exts)@) == views(old(exts)@) + opt_ext(*o, key@, scheme),
{
    let ghost before = views(exts@);
    match o {
        Some(v) => {
            let mut part = key.to_owned();
            match scheme {
                Some(sc) => {
                    let esc = escape_with(sc, v.as_str());
                    push_str(&mut part, esc.as_str());
                },
                None => push_str(&mut part, v.as_str()),
            }
            exts.push(part);
            assert(views(exts@) =~= before + opt_ext(*o, key@, scheme));
        },
        None => {
            assert(views(exts@) =~= before + opt_ext(*o, key@, scheme));
        },
    }
}

/// The text of `key` followed by `value`.
fn keyed(key: &str, value: &str) -> (r: String)
    ensures
        r@ == key@ + value@,
{
    let mut r = key.to_owned();
    push_str(&mut r, value);
    r
}

/// `category.action` of an event.
fn event_key_string(ev: &AuditEvent) -> (r: String)
    ensures
        r@ == event_key(*ev),
{
    let mut r = ev.category.as_str().to_owned();
    push_str(&mut r, ".");
    push_str(&mut r, ev.action.as_str());
    r
}

/// Encode to Common Event Format (CEF).
pub fn encode_cef(cfg: &FormatConfig, ev: &AuditEvent) -> (r: String)
    requires
        ev.timestamp.wf(),
    ensures
        r@ == cef_text(*cfg, *ev),
{
    let mut exts: Vec<String> = Vec::new();
    let mut rt = "rt=".to_owned();
    write_signed_decimal(&mut rt, ev.timestamp.timestamp_millis());
    exts.push(rt);
    exts.push(keyed("msg=", escape_cef(ev.message.as_str()).as_str()));
    exts.push(keyed("outcome=", ev.outcome.name()));
    exts.push(keyed("cat=", ev.category.as_str()));
    let ghost base = views(exts@);
    assert(base =~= seq![
        "rt="@ + signed_decimal(ev.timestamp.millis()),
        "msg="@ + escaped(EscapeScheme::Cef, ev.message@),
        "outcome="@ + outcome_name(ev.outcome),
        "cat="@ + category_name(ev.category),
    ]);
    match &ev.actor {
        Some(a) => {
            push_opt_ext(&mut exts, &a.name, "suser=", Some(EscapeScheme::Cef));
            push_opt_ext(&mut exts, &a.source_ip, "src=", None);
            push_opt_ext(&mut exts, &a.session_id, "sproc=", Some(EscapeScheme::Cef));
        },
        None => {},
    }
    let ghost with_actor = views(exts@);
    match &ev.target {
        Some(t) => {
            push_opt_ext(&mut exts, &t.id, "duid=", Some(EscapeScheme::Cef));
            push_opt_ext(&mut exts, &t.name, "duser=", Some(EscapeScheme::Cef));
        },
        None => {},
    }
    let ghost with_target = views(exts@);
    exts.push(keyed("dvchost=", escape_cef(ev.host.as_str()).as_str()));
    exts.push(keyed("externalId=", ev.id.as_str()));
    proof {
        assert(with_actor =~= base + cef_actor_part(*ev));
        assert(with_target =~= base + cef_actor_part(*ev) + cef_target_part(*ev));
        assert(views(exts@) =~= cef_extensions(*ev));
    }
    let ext = join_strings(&exts, " ");
    let mut out = "CEF:0|".to_owned();
    push_str(&mut out, escape_cef(cfg.cef_vendor.as_str()).as_str());
    push_str(&mut out, "|");
    push_str(&mut out, escape_cef(cfg.cef_product.as_str()).as_str());
    push_str(&mut out, "|");
    push_str(&mut out, escape_cef(cfg.cef_version.as_str()).as_str());
    push_str(&mut out, "|");
    push_str(&mut out, escape_cef(event_key_string(ev).as_str()).as_str());
    push_str(&mut out, "|");
    push_str(&mut out, escape_cef(ev.action.as_str()).as_str());
    push_str(&mut out, "|");
    write_decimal(&mut out, ev.severity.to_cef_severity() as u64);
    push_str(&mut out, "|");
    push_str(&mut out, ext.as_str());
    out
}

/// Encode to Log Event Extended Format (LEEF) for IBM QRadar.
pub fn encode_leef(cfg: &FormatConfig, ev: &AuditEvent) -> (r: String)
    requires
        ev.timestamp.wf(),
    ensures
        r@ == leef_text(*cfg, *ev),
{
    let time = rfc3339_millis(&ev.timestamp);
    encode_leef_at(cfg, ev, time.as_str())
}

/// Encode to LEEF with the event's time given as text.
pub fn encode_leef_at(cfg: &FormatConfig, ev: &AuditEvent, time: &str) -> (r: String)
    ensures
        r@ == leef_text_at(*cfg, *ev, time@),
{
    let mut exts: Vec<String> = Vec::new();
    exts.push(keyed("devTime=", time));
    exts.push(keyed("cat=", ev.category.as_str()));
    let mut sev = "sev=".to_owned();
    write_decimal(&mut sev, ev.severity.to_cef_severity() as u64);
    exts.push(sev);
    exts.push(keyed("msg=", escape_leef(ev.message.as_str()).as_str()));
    let ghost base = views(exts@);
    assert(base =~= seq![
        "devTime="@ + time@,
        "cat="@ + category_name(ev.category),
        "sev="@ + decimal(cef_severity_of(ev.severity) as nat),
        "msg="@ + escaped(EscapeScheme::Leef, ev.message@),
    ]);
    match &ev.actor {
        Some(a) => {
            push_opt_ext(&mut exts, &a.name, "usrName=", Some(EscapeScheme::Leef));
            push_opt_ext(&mut exts, &a.source_ip, "src=", None);
        },
        None => {},
    }
    let ghost with_actor = views(exts@);
    exts.push(keyed("identHostName=", escape_leef(ev.host.as_str()).as_str()));
    proof {
        assert(with_actor =~= base + leef_actor_part(*ev));
        assert(views(exts@) =~= leef_extensions_at(*ev, time@));
    }
    let ext = join_strings(&exts, "\t");
    proof {
        reveal_strlit("\t");
        assert("\t"@ =~= seq!['\t']);
    }
    let mut out = "LEEF:2.0|".to_owned();
    push_str(&mut out, escape_leef(cfg.cef_vendor.as_str()).as_str());
    push_str(&mut out, "|");
    push_str(&mut out, escape_leef(cfg.cef_product.as_str()).as_str());
    push_str(&mut out, "|");
    push_str(&mut out, escape_leef(cfg.cef_version.as_str()).as_str());
    push_str(&mut out, "|");
    push_str(&mut out, escape_leef(event_key_string(ev).as_str()).as_str());
    push_str(&mut out, "|");
    push_str(&mut out, ext.as_str());
    out
}

/// Encode to Syslog RFC 5424 format.
pub fn encode_syslog(cfg: &FormatConfig, ev: &AuditEvent) -> (r: String)
    requires
        ev.timestamp.wf(),
        syslog_priority(cfg.syslog_facility, *ev) < 256,
    ensures
        r@ == syslog_text(*cfg, *ev),
{
    let time = rfc3339_micros(&ev.timestamp);
    encode_syslog_at(cfg, ev, time.as_str())
}

/// Encode to Syslog RFC 5424 format with the event's time given as text.
pub fn encode_syslog_at(cfg: &FormatConfig, ev: &AuditEvent, time: &str) -> (r: String)
    requires
        syslog_priority(cfg.syslog_facility, *ev) < 256,
    ensures
        r@ == syslog_text_at(*cfg, *ev, time@),
{
    let priority: u8 = cfg.syslog_facility * 8 + ev.severity.to_syslog_severity();
    let mut sd = "[corevpn@32473 eventId=\"".to_owned();
    push_str(&mut sd, ev.id.as_str());
    push_str(&mut sd, "\" outcome=\"");
    push_str(&mut sd, ev.outcome.name());
    push_str(&mut sd, "\" category=\"");
    push_str(&mut sd, ev.category.as_str());
    push_str(&mut sd, "\"]");
    let ghost head = sd@;
    match &ev.actor {
        Some(a) => {
            push_str(&mut sd, "[actor@32473 type=\"");
            push_str(&mut sd, a.actor_type.as_str());
            push_str(&mut sd, "\"");
            let ghost mid = sd@;
            match &a.name {
                Some(n) => {
                    push_str(&mut sd, " name=\"");
                    push_str(&mut sd, escape_syslog_sd(n.as_str()).as_str());
                    push_str(&mut sd, "\"");
                },
                None => {},
            }
            let ghost mid2 = sd@;
            match &a.source_ip {
                Some(ip) => {
                    push_str(&mut sd, " sourceIp=\"");
                    push_str(&mut sd, ip.as_str());
                    push_str(&mut sd, "\"");
                },
                None => {},
            }
            let ghost mid3 = sd@;
            push_str(&mut sd, "]");
            proof {
                assert(mid2 =~= mid + sd_name_part(a.name));
                assert(mid3 =~= mid + sd_name_part(a.name) + sd_ip_part(a.source_ip));
                assert(sd@ =~= syslog_structured_data(*ev));
            }
        },
        None => {},
    }
    let mut out = "<".to_owned();
    write_decimal(&mut out, priority as u64);
    push_str(&mut out, ">1 ");
    push_str(&mut out, time);
    push_str(&mut out, " ");
    push_str(&mut out, ev.host.as_str());
    push_str(&mut out, " ");
    push_str(&mut out, cfg.syslog_app_name.as_str());
    push_str(&mut out, " - ");
    push_str(&mut out, event_key_string(ev).as_str());
    push_str(&mut out, " ");
    push_str(&mut out, sd.as_str());
    push_str(&mut out, " ");
    push_str(&mut out, ev.message.as_str());
    out
}


/// The `ResultType` that Azure Monitor records carry for an outcome.
pub open spec fn azure_result_type(o: AuditOutcome) -> Seq<char> {
    outcome_name(o)
}

/// The Azure Monitor fields that wrap an event's own JSON properties.
#[derive(Clone, Debug)]
pub struct AzureMonitorFields {
    pub time_generated: String,
    pub source_system: String,
    pub category: String,
    pub operation_name: String,
    pub result_type: String,
    pub caller_ip_address: Option<String>,
    pub caller_identity: Option<String>,
    pub resource_id: Option<String>,
}

/// The OCSF class (`class_uid`, `class_name`) of a category.
pub open spec fn ocsf_class(c: AuditCategory) -> (u32, Seq<char>) {
    match c {
        AuditCategory::Authentication => (3002, "Authentication"@),
        AuditCategory::Authorization => (3003, "Authorization"@),
        AuditCategory::Network | AuditCategory::Connection => (4001, "Network Activity"@),
        AuditCategory::Configuration => (5001, "Configuration"@),
        _ => (1001, "Security Finding"@),
    }
}

/// The OCSF `severity_id` of a severity.
pub open spec fn ocsf_severity_id(s: AuditSeverity) -> u8 {
    match s {
        AuditSeverity::Info => 1,
        AuditSeverity::Low => 2,
        AuditSeverity::Medium => 3,
        AuditSeverity::High => 4,
        AuditSeverity::Critical => 5,
    }
}

/// The OCSF `status_id` of an outcome.
pub open spec fn ocsf_status_id(o: AuditOutcome) -> u8 {
    match o {
        AuditOutcome::Success => 1,
        AuditOutcome::Failure => 2,
        AuditOutcome::Unknown => 0,
    }
}

/// The OCSF fields that wrap an event's own JSON properties.
#[derive(Clone, Debug)]
pub struct OcsfFields {
    pub class_uid: u32,
    pub class_name: String,
    pub category_uid: u32,
    pub category_name: String,
    pub severity_id: u8,
    pub activity_id: u8,
    pub activity_name: String,
    pub status_id: u8,
    pub message: String,
    pub time: i64,
    pub timezone_offset: i32,
    pub metadata_version: String,
    pub product_name: String,
    pub product_vendor_name: String,
    pub product_version: String,
    pub metadata_uid: String,
    /// The actor's user (`name`, `uid`) when the event has an actor.
    pub actor_user: Option<(Option<String>, Option<String>)>,
}

/// `f` holds the Azure Monitor fields of `ev`.
pub open spec fn azure_fields_of(f: AzureMonitorFields, ev: AuditEvent) -> bool {
    &&& f.time_generated@ == rfc3339_millis_text(ev.timestamp.secs, ev.timestamp.nanos)
    &&& f.source_system@ == "CoreVPN"@
    &&& f.category@ == category_name(ev.category)
    &&& f.operation_name@ == ev.action@
    &&& f.result_type@ == azure_result_type(ev.outcome)
    &&& opt_view(f.caller_ip_address) == match ev.actor {
        Some(a) => opt_view(a.source_ip),
        None => None,
    }
    &&& opt_view(f.caller_identity) == match ev.actor {
        Some(a) => opt_view(a.name),
        None => None,
    }
    &&& opt_view(f.resource_id) == match ev.target {
        Some(t) => opt_view(t.id),
        None => None,
    }
}

/// `f` holds the OCSF fields of `ev`.
pub open spec fn ocsf_fields_of(f: OcsfFields, ev: AuditEvent) -> bool {
    &&& f.class_uid == ocsf_class(ev.category).0
    &&& f.class_name@ == ocsf_class(ev.category).1
    &&& f.category_uid == ocsf_class(ev.category).0 / 1000
    &&& f.category_name@ == category_name(ev.category)
    &&& f.severity_id == ocsf_severity_id(ev.severity)
    &&& f.activity_id == 1
    &&& f.activity_name@ == ev.action@
    &&& f.status_id == ocsf_status_id(ev.outcome)
    &&& f.message@ == ev.message@
    &&& f.time == ev.timestamp.millis()
    &&& f.timezone_offset == 0
    &&& f.metadata_version@ == "1.0.0"@
    &&& f.product_name@ == "CoreVPN"@
    &&& f.product_vendor_name@ == "Pegasus Heavy Industries"@
    &&& f.product_version@ == "0.1.0"@
    &&& f.metadata_uid@ == ev.id@
    &&& match ev.actor {
        Some(a) => f.actor_user matches Some((n, u)) && opt_view(n) == opt_view(a.name) && opt_view(u)
            == opt_view(a.id),
        None => f.actor_user is None,
    }
}

/// A copy of an optional string.
pub fn clone_opt(o: &Option<String>) -> (r: Option<String>)
    ensures
        opt_view(r) == opt_view(*o),
{
    match o {
        Some(s) => Some(s.as_str().to_owned()),
        None => None,
    }
}

/// The Azure Monitor fields of an event.
pub fn azure_monitor_fields(ev: &AuditEvent) -> (f: AzureMonitorFields)
    requires
        ev.timestamp.wf(),
    ensures
        azure_fields_of(f, *ev),
{
    let result_type = ev.outcome.name();
    let (caller_ip_address, caller_identity) = match &ev.actor {
        Some(a) => (clone_opt(&a.source_ip), clone_opt(&a.name)),
        None => (None, None),
    };
    let resource_id = match &ev.target {
        Some(t) => clone_opt(&t.id),
        None => None,
    };
    AzureMonitorFields {
        time_generated: rfc3339_millis(&ev.timestamp),
        source_system: "CoreVPN".to_owned(),
        category: ev.category.as_str().to_owned(),
        operation_name: ev.action.as_str().to_owned(),
        result_type: result_type.to_owned(),
        caller_ip_address,
        caller_identity,
        resource_id,
    }
}

/// The OCSF fields of an event.
pub fn ocsf_fields(ev: &AuditEvent) -> (f: OcsfFields)
    requires
        ev.timestamp.wf(),
    ensures
        ocsf_fields_of(f, *ev),
{
    let (class_uid, class_name): (u32, &str) = match ev.category {
        AuditCategory::Authentication => (3002, "Authentication"),
        AuditCategory::Authorization => (3003, "Authorization"),
        AuditCategory::Network | AuditCategory::Connection => (4001, "Network Activity"),
        AuditCategory::Configuration => (5001, "Configuration"),
        _ => (1001, "Security Finding"),
    };
    let severity_id: u8 = match ev.severity {
        AuditSeverity::Info => 1,
        AuditSeverity::Low => 2,
        AuditSeverity::Medium => 3,
        AuditSeverity::High => 4,
        AuditSeverity::Critical => 5,
    };
    let status_id: u8 = match ev.outcome {
        AuditOutcome::Success => 1,
        AuditOutcome::Failure => 2,
        AuditOutcome::Unknown => 0,
    };
    let actor_user = match &ev.actor {
        Some(a) => Some((clone_opt(&a.name), clone_opt(&a.id))),
        None => None,
    };
    OcsfFields {
        class_uid,
        class_name: class_name.to_owned(),
        category_uid: class_uid / 1000,
        category_name: ev.category.as_str().to_owned(),
        severity_id,
        activity_id: 1,
        activity_name: ev.action.as_str().to_owned(),
        status_id,
        message: ev.message.as_str().to_owned(),
        time: ev.timestamp.timestamp_millis(),
        timezone_offset: 0,
        metadata_version: "1.0.0".to_owned(),
        product_name: "CoreVPN".to_owned(),
        product_vendor_name: "Pegasus Heavy Industries".to_owned(),
        product_version: "0.1.0".to_owned(),
        metadata_uid: ev.id.as_str().to_owned(),
        actor_user,
    }
}

/// What encoding an event yields: finished text for the text formats, or, for the JSON-based
/// formats, the fields that the JSON serializer places around the event's own properties.
#[derive(Clone, Debug)]
pub enum EncodePlan {
    /// Finished text (CEF, LEEF, syslog).
    Text(String),
    /// The event's JSON object, pretty-printed or compact.
    Json { pretty: bool },
    /// The event's compact JSON object followed by a newline.
    JsonLine,
    /// The event's JSON object with `timestamp` (milliseconds) and `message` in front.
    CloudWatch { timestamp_millis: i64 },
    /// The event's JSON object flattened under the Azure Monitor fields.
    AzureMonitor(AzureMonitorFields),
    /// The event's JSON object flattened under the OCSF fields.
    Ocsf(OcsfFields),
}

impl EncodePlan {
    /// The finished text, for the text formats.
    pub fn text(self) -> (r: Option<String>)
        ensures
            match self {
                EncodePlan::Text(t) => r == Some(t),
                _ => r is None,
            },
    {
        match self {
            EncodePlan::Text(t) => Some(t),
            _ => None,
        }
    }
}

/// A line of JSON Lines: the serialized object followed by a newline.
pub fn frame_json_line(json: &str) -> (r: String)
    ensures
        r@ == json@.push('\n'),
{
    let mut r = json.to_owned();
    push_char(&mut r, '\n');
    r
}

/// Format encoder.
pub struct FormatEncoder {
    config: FormatConfig,
}

/// The events that an encoder with this configuration can encode without arithmetic overflow
/// (the syslog PRI value is a byte).
pub open spec fn encodable(cfg: FormatConfig, ev: AuditEvent) -> bool {
    &&& ev.timestamp.wf()
    &&& cfg.format == AuditFormat::Syslog ==> syslog_priority(cfg.syslog_facility, ev) < 256
}

/// The plan that encoding `ev` under `cfg` yields.
pub open spec fn plan_of(cfg: FormatConfig, ev: AuditEvent, p: EncodePlan) -> bool {
    match cfg.format {
        AuditFormat::Json => p == EncodePlan::Json { pretty: cfg.pretty },
        AuditFormat::JsonLines => p == EncodePlan::JsonLine,
        AuditFormat::Cef => p matches EncodePlan::Text(t) && t@ == cef_text(cfg, ev),
        AuditFormat::Leef => p matches EncodePlan::Text(t) && t@ == leef_text(cfg, ev),
        AuditFormat::Syslog => p matches EncodePlan::Text(t) && t@ == syslog_text(cfg, ev),
        AuditFormat::CloudWatch => p == EncodePlan::CloudWatch {
            timestamp_millis: ev.timestamp.millis() as i64,
        },
        AuditFormat::AzureMonitor => p matches EncodePlan::AzureMonitor(f) && azure_fields_of(f, ev),
        AuditFormat::Ocsf => p matches EncodePlan::Ocsf(f) && ocsf_fields_of(f, ev),
    }
}

impl FormatEncoder {
    /// The configuration the encoder was made with (readable by callers).
    pub fn config(&self) -> (r: &FormatConfig)
        ensures
            *r == self.cfg(),
    {
        &self.config
    }

    /// The configuration the encoder was made with.
    pub closed spec fn cfg(&self) -> FormatConfig {
        self.config
    }

    pub fn new(config: FormatConfig) -> (r: Self)
        ensures
            r.cfg() == config,
    {
        FormatEncoder { config }
    }

    /// Encode an event to the configured format.
    pub fn encode(&self, event: &AuditEvent) -> (r: EncodePlan)
        requires
            encodable(self.cfg(), *event),
        ensures
            plan_of(self.cfg(), *event, r),
    {
        match self.config.format {
            AuditFormat::Json => EncodePlan::Json { pretty: self.config.pretty },
            AuditFormat::JsonLines => EncodePlan::JsonLine,
            AuditFormat::Cef => EncodePlan::Text(encode_cef(&self.config, event)),
            AuditFormat::Leef => EncodePlan::Text(encode_leef(&self.config, event)),
            AuditFormat::Syslog => EncodePlan::Text(encode_syslog(&self.config, event)),
            AuditFormat::CloudWatch => EncodePlan::CloudWatch {
                timestamp_millis: event.timestamp.timestamp_millis(),
            },
            AuditFormat::AzureMonitor => EncodePlan::AzureMonitor(azure_monitor_fields(event)),
            AuditFormat::Ocsf => EncodePlan::Ocsf(ocsf_fields(event)),
        }
    }
}


/// Whether a text holds none of the characters that structure a CEF line: backslash, `|` and
/// line breaks.
pub open spec fn cef_plain(s: Seq<char>) -> bool {
    forall|i: int| 0 <= i < s.len() ==> s[i] != '\\' && s[i] != '|' && s[i] != '\n' && s[i] != '\r'
}

/// Whether a text holds no line break.
pub open spec fn no_line_break(s: Seq<char>) -> bool {
    forall|i: int| 0 <= i < s.len() ==> s[i] != '\n' && s[i] != '\r'
}

/// The number of `|` in a CEF text that are not escaped, reading left to right: a backslash
/// escapes the character after it.
pub open spec fn cef_bare_pipes(s: Seq<char>) -> nat
    decreases s.len(),
{
    if s.len() == 0 {
        0
    } else if s[0] == '\\' {
        if s.len() >= 2 {
            cef_bare_pipes(s.skip(2))
        } else {
            0
        }
    } else if s[0] == '|' {
        1 + cef_bare_pipes(s.skip(1))
    } else {
        cef_bare_pipes(s.skip(1))
    }
}

/// Whether a text ends outside an escape: no backslash is left without the character it
/// escapes.
pub open spec fn escapes_closed(s: Seq<char>) -> bool
    decreases s.len(),
{
    if s.len() == 0 {
        true
    } else if s[0] == '\\' {
        s.len() >= 2 && escapes_closed(s.skip(2))
    } else {
        escapes_closed(s.skip(1))
    }
}

/// A piece of a CEF line that adds no line break and no bare `|`, and ends outside an escape.
pub open spec fn cef_safe(s: Seq<char>) -> bool {
    escapes_closed(s) && cef_bare_pipes(s) == 0 && no_line_break(s)
}

proof fn lemma_concat_scan(a: Seq<char>, b: Seq<char>)
    requires
        escapes_closed(a),
        escapes_closed(b),
        no_line_break(a),
        no_line_break(b),
    ensures
        escapes_closed(a + b),
        cef_bare_pipes(a + b) == cef_bare_pipes(a) + cef_bare_pipes(b),
        no_line_break(a + b),
    decreases a.len(),
{
    if a.len() == 0 {
        assert(a + b =~= b);
    } else if a[0] == '\\' {
        assert((a + b)[0] == '\\');
        assert((a + b).skip(2) =~= a.skip(2) + b);
        lemma_concat_scan(a.skip(2), b);
    } else {
        assert((a + b)[0] == a[0]);
        assert((a + b).skip(1) =~= a.skip(1) + b);
        lemma_concat_scan(a.skip(1), b);
    }
    assert forall|i: int| 0 <= i < (a + b).len() implies (a + b)[i] != '\n' && (a + b)[i] != '\r' by {
        if i < a.len() {
            assert((a + b)[i] == a[i]);
        } else {
            assert((a + b)[i] == b[i - a.len()]);
        }
    }
}

proof fn lemma_plain_safe(s: Seq<char>)
    requires
        cef_plain(s),
    ensures
        cef_safe(s),
    decreases s.len(),
{
    if s.len() > 0 {
        assert(cef_plain(s.skip(1)));
        lemma_plain_safe(s.skip(1));
    }
}

proof fn lemma_pipe(s: Seq<char>)
    requires
        s == seq!['|'],
    ensures
        escapes_closed(s),
        cef_bare_pipes(s) == 1,
        no_line_break(s),
{
    assert(s.skip(1) =~= Seq::<char>::empty());
    assert(escapes_closed(s.skip(1)));
    assert(cef_bare_pipes(s.skip(1)) == 0);
    assert(s[0] == '|');
}

proof fn lemma_escape_char_safe(c: char)
    ensures
        cef_safe(escape_char(EscapeScheme::Cef, c)),
{
    let e = escape_char(EscapeScheme::Cef, c);
    if e.len() == 2 {
        assert(e.skip(2) =~= Seq::<char>::empty());
        assert(escapes_closed(e.skip(2)));
        assert(cef_bare_pipes(e.skip(2)) == 0);
        assert(e[0] == '\\');
    } else {
        assert(e.skip(1) =~= Seq::<char>::empty());
        assert(escapes_closed(e.skip(1)));
        assert(cef_bare_pipes(e.skip(1)) == 0);
    }
}

proof fn lemma_escaped_safe(s: Seq<char>)
    ensures
        cef_safe(escaped(EscapeScheme::Cef, s)),
    decreases s.len(),
{
    if s.len() == 0 {
        assert(escaped(EscapeScheme::Cef, s) =~= Seq::<char>::empty());
    } else {
        lemma_escaped_safe(s.drop_last());
        lemma_escape_char_safe(s.last());
        lemma_concat_scan(escaped(EscapeScheme::Cef, s.drop_last()), escape_char(EscapeScheme::Cef, s.last()));
    }
}

proof fn lemma_safe_concat(a: Seq<char>, b: Seq<char>)
    requires
        cef_safe(a),
        cef_safe(b),
    ensures
        cef_safe(a + b),
{
    lemma_concat_scan(a, b);
}

proof fn lemma_decimal_plain(n: nat)
    ensures
        cef_plain(decimal(n)),
        cef_plain(signed_decimal(n as int)),
        cef_plain(signed_decimal(-(n as int))),
{
    crate::text::lemma_decimal_digits(n);
    let d = decimal(n);
    assert forall|i: int| 0 <= i < d.len() implies d[i] != '\\' && d[i] != '|' && d[i] != '\n' && d[i] != '\r' by {
        assert(48 <= (d[i]) as int <= 57);
    }
    if n > 0 {
        let m = seq!['-'] + d;
        assert(signed_decimal(-(n as int)) == m);
        assert forall|i: int| 0 <= i < m.len() implies m[i] != '\\' && m[i] != '|' && m[i] != '\n' && m[i] != '\r' by {
            if i > 0 {
                assert(m[i] == d[i - 1]);
            }
        }
    }
}

proof fn lemma_names_plain(ev: AuditEvent)
    ensures
        cef_plain(category_name(ev.category)),
        cef_plain(outcome_name(ev.outcome)),
{
    reveal_strlit("authentication");
    reveal_strlit("authorization");
    reveal_strlit("connection");
    reveal_strlit("configuration");
    reveal_strlit("security");
    reveal_strlit("administrative");
    reveal_strlit("certificate");
    reveal_strlit("network");
    reveal_strlit("system");
    reveal_strlit("Success");
    reveal_strlit("Failure");
    reveal_strlit("Unknown");
}

proof fn lemma_keyed_safe(key: Seq<char>, value: Seq<char>)
    requires
        cef_plain(key),
        cef_safe(value),
    ensures
        cef_safe(key + value),
{
    lemma_plain_safe(key);
    lemma_safe_concat(key, value);
}

/// Every element of a list of texts is safe.
pub open spec fn all_safe(parts: Seq<Seq<char>>) -> bool {
    forall|i: int| 0 <= i < parts.len() ==> cef_safe(#[trigger] parts[i])
}

proof fn lemma_all_safe_concat(a: Seq<Seq<char>>, b: Seq<Seq<char>>)
    requires
        all_safe(a),
        all_safe(b),
    ensures
        all_safe(a + b),
{
    assert forall|i: int| 0 <= i < (a + b).len() implies cef_safe(#[trigger] (a + b)[i]) by {
        if i < a.len() {
            assert((a + b)[i] == a[i]);
        } else {
            assert((a + b)[i] == b[i - a.len()]);
        }
    }
}

proof fn lemma_opt_ext_safe(o: Option<String>, key: Seq<char>, scheme: Option<EscapeScheme>)
    requires
        cef_plain(key),
        scheme == Some(EscapeScheme::Cef) || (scheme is None && (o matches Some(v) ==> cef_plain(v@))),
    ensures
        all_safe(opt_ext(o, key, scheme)),
{
    match o {
        Some(v) => {
            if scheme is None {
                lemma_plain_safe(v@);
                lemma_keyed_safe(key, v@);
            } else {
                lemma_escaped_safe(v@);
                lemma_keyed_safe(key, escaped(EscapeScheme::Cef, v@));
            }
            assert(opt_ext(o, key, scheme)[0] == key + match scheme {
                Some(sc) => escaped(sc, v@),
                None => v@,
            });
        },
        None => {},
    }
}

proof fn lemma_join_safe(parts: Seq<Seq<char>>, sep: Seq<char>)
    requires
        all_safe(parts),
        cef_safe(sep),
    ensures
        cef_safe(join(parts, sep)),
    decreases parts.len(),
{
    if parts.len() == 0 {
        assert(join(parts, sep) =~= Seq::<char>::empty());
    } else if parts.len() == 1 {
        assert(cef_safe(parts[0]));
    } else {
        assert(all_safe(parts.drop_last()));
        lemma_join_safe(parts.drop_last(), sep);
        lemma_safe_concat(join(parts.drop_last(), sep), sep);
        assert(cef_safe(parts[parts.len() - 1]));
        lemma_safe_concat(join(parts.drop_last(), sep) + sep, parts.last());
    }
}

proof fn lemma_extensions_safe(ev: AuditEvent)
    requires
        cef_plain(ev.id@),
        ev.actor matches Some(a) ==> (a.source_ip matches Some(ip) ==> cef_plain(ip@)),
    ensures
        all_safe(cef_extensions(ev)),
{
    reveal_strlit("rt=");
    reveal_strlit("msg=");
    reveal_strlit("outcome=");
    reveal_strlit("cat=");
    reveal_strlit("suser=");
    reveal_strlit("src=");
    reveal_strlit("sproc=");
    reveal_strlit("duid=");
    reveal_strlit("duser=");
    reveal_strlit("dvchost=");
    reveal_strlit("externalId=");
    let millis = ev.timestamp.millis();
    if millis >= 0 {
        lemma_decimal_plain(millis as nat);
    } else {
        lemma_decimal_plain((-millis) as nat);
        assert(-((-millis) as nat as int) == millis);
    }
    lemma_plain_safe(signed_decimal(millis));
    lemma_keyed_safe("rt="@, signed_decimal(millis));
    lemma_escaped_safe(ev.message@);
    lemma_keyed_safe("msg="@, escaped(EscapeScheme::Cef, ev.message@));
    lemma_names_plain(ev);
    lemma_plain_safe(outcome_name(ev.outcome));
    lemma_keyed_safe("outcome="@, outcome_name(ev.outcome));
    lemma_plain_safe(category_name(ev.category));
    lemma_keyed_safe("cat="@, category_name(ev.category));
    let base = seq![
        "rt="@ + signed_decimal(ev.timestamp.millis()),
        "msg="@ + escaped(EscapeScheme::Cef, ev.message@),
        "outcome="@ + outcome_name(ev.outcome),
        "cat="@ + category_name(ev.category),
    ];
    assert(all_safe(base));
    match ev.actor {
        Some(a) => {
            lemma_opt_ext_safe(a.name, "suser="@, Some(EscapeScheme::Cef));
            lemma_opt_ext_safe(a.source_ip, "src="@, None);
            lemma_opt_ext_safe(a.session_id, "sproc="@, Some(EscapeScheme::Cef));
            lemma_all_safe_concat(opt_ext(a.name, "suser="@, Some(EscapeScheme::Cef)), opt_ext(a.source_ip, "src="@, None));
            lemma_all_safe_concat(
                opt_ext(a.name, "suser="@, Some(EscapeScheme::Cef)) + opt_ext(a.source_ip, "src="@, None),
                opt_ext(a.session_id, "sproc="@, Some(EscapeScheme::Cef)),
            );
        },
        None => {},
    }
    match ev.target {
        Some(t) => {
            lemma_opt_ext_safe(t.id, "duid="@, Some(EscapeScheme::Cef));
            lemma_opt_ext_safe(t.name, "duser="@, Some(EscapeScheme::Cef));
            lemma_all_safe_concat(opt_ext(t.id, "duid="@, Some(EscapeScheme::Cef)), opt_ext(t.name, "duser="@, Some(EscapeScheme::Cef)));
        },
        None => {},
    }
    assert(all_safe(cef_actor_part(ev)));
    assert(all_safe(cef_target_part(ev)));
    lemma_escaped_safe(ev.host@);
    lemma_keyed_safe("dvchost="@, escaped(EscapeScheme::Cef, ev.host@));
    lemma_plain_safe(ev.id@);
    lemma_keyed_safe("externalId="@, ev.id@);
    let tail = seq!["dvchost="@ + escaped(EscapeScheme::Cef, ev.host@), "externalId="@ + ev.id@];
    assert(all_safe(tail));
    lemma_all_safe_concat(base, cef_actor_part(ev));
    lemma_all_safe_concat(base + cef_actor_part(ev), cef_target_part(ev));
    lemma_all_safe_concat(base + cef_actor_part(ev) + cef_target_part(ev), tail);
}

/// A CEF line is one line with exactly seven bare `|`, the separators of its header fields:
/// every `|`, backslash or line break in the configured names, the event's key, action,
/// message, host and the actor's and target's names is escaped. This holds whenever the
/// fields written without escaping (the event identifier and the actor's source address)
/// hold none of these characters.
pub proof fn law_cef_line_structure(cfg: FormatConfig, ev: AuditEvent)
    requires
        cef_plain(ev.id@),
        ev.actor matches Some(a) ==> (a.source_ip matches Some(ip) ==> cef_plain(ip@)),
    ensures
        no_line_break(cef_text(cfg, ev)),
        escapes_closed(cef_text(cfg, ev)),
        cef_bare_pipes(cef_text(cfg, ev)) == 7,
{
    reveal_strlit("CEF:0|");
    reveal_strlit("|");
    reveal_strlit(" ");
    let e = |t: Seq<char>| escaped(EscapeScheme::Cef, t);
    let bar = "|"@;
    assert(bar =~= seq!['|']);
    lemma_pipe(bar);
    let head = "CEF:0|"@;
    assert(head =~= seq!['C', 'E', 'F', ':', '0'] + bar);
    lemma_plain_safe(seq!['C', 'E', 'F', ':', '0']);
    lemma_concat_scan(seq!['C', 'E', 'F', ':', '0'], bar);
    lemma_escaped_safe(cfg.cef_vendor@);
    lemma_escaped_safe(cfg.cef_product@);
    lemma_escaped_safe(cfg.cef_version@);
    lemma_escaped_safe(event_key(ev));
    lemma_escaped_safe(ev.action@);
    let sev = decimal(cef_severity_of(ev.severity) as nat);
    lemma_decimal_plain(cef_severity_of(ev.severity) as nat);
    lemma_plain_safe(sev);
    lemma_extensions_safe(ev);
    lemma_plain_safe(" "@);
    lemma_join_safe(cef_extensions(ev), " "@);
    let exts = join(cef_extensions(ev), " "@);
    let p1 = head + e(cfg.cef_vendor@);
    lemma_concat_scan(head, e(cfg.cef_vendor@));
    let p2 = p1 + bar;
    lemma_concat_scan(p1, bar);
    let p3 = p2 + e(cfg.cef_product@);
    lemma_concat_scan(p2, e(cfg.cef_product@));
    let p4 = p3 + bar;
    lemma_concat_scan(p3, bar);
    let p5 = p4 + e(cfg.cef_version@);
    lemma_concat_scan(p4, e(cfg.cef_version@));
    let p6 = p5 + bar;
    lemma_concat_scan(p5, bar);
    let p7 = p6 + e(event_key(ev));
    lemma_concat_scan(p6, e(event_key(ev)));
    let p8 = p7 + bar;
    lemma_concat_scan(p7, bar);
    let p9 = p8 + e(ev.action@);
    lemma_concat_scan(p8, e(ev.action@));
    let p10 = p9 + bar;
    lemma_concat_scan(p9, bar);
    let p11 = p10 + sev;
    lemma_concat_scan(p10, sev);
    let p12 = p11 + bar;
    lemma_concat_scan(p11, bar);
    let p13 = p12 + exts;
    lemma_concat_scan(p12, exts);
    assert(cef_text(cfg, ev) == p13);
}


/// An RFC 5424 syslog line opens with its header: `<PRI>1`, where PRI is the facility times
/// eight plus the severity's syslog level, then the TIMESTAMP, the HOSTNAME (the host the
/// event happened on), the APP-NAME (the configured application name) and `-` for the
/// process id, each followed by one space; the MSGID that follows is the event's category
/// name, a dot and its action, and after it come a space and the structured data, which opens
/// with the `corevpn@32473` element and the event's id; the line ends with a space and the
/// message as it is.
pub proof fn law_syslog_header(cfg: FormatConfig, ev: AuditEvent, time: Seq<char>)
    ensures
        ({
            let line = syslog_text_at(cfg, ev, time);
            let header = "<"@ + decimal((cfg.syslog_facility * 8 + syslog_severity_of(ev.severity)) as nat) + ">1 "@
                + time + " "@ + ev.host@ + " "@ + cfg.syslog_app_name@ + " - "@;
            let opening = header + category_name(ev.category) + "."@ + ev.action@ + " [corevpn@32473 eventId=\""@
                + ev.id@ + "\""@;
            let tail = " "@ + ev.message@;
            &&& opening.len() + tail.len() <= line.len()
            &&& line.subrange(0, opening.len() as int) == opening
            &&& line.subrange(line.len() - tail.len(), line.len() as int) == tail
        }),
{
    let header = "<"@ + decimal((cfg.syslog_facility * 8 + syslog_severity_of(ev.severity)) as nat) + ">1 "@ + time
        + " "@ + ev.host@ + " "@ + cfg.syslog_app_name@ + " - "@;
    let opening = header + category_name(ev.category) + "."@ + ev.action@ + " [corevpn@32473 eventId=\""@ + ev.id@
        + "\""@;
    let sd_rest = "\" outcome=\""@ + outcome_name(ev.outcome) + "\" category=\""@ + category_name(ev.category)
        + "\"]"@;
    let actor = match ev.actor {
        Some(a) => "[actor@32473 type=\""@ + a.actor_type@ + "\""@ + sd_name_part(a.name) + sd_ip_part(a.source_ip)
            + "]"@,
        None => Seq::<char>::empty(),
    };
    reveal_strlit("[corevpn@32473 eventId=\"");
    reveal_strlit("\"");
    reveal_strlit("\" outcome=\"");
    reveal_strlit(" [corevpn@32473 eventId=\"");
    reveal_strlit(" ");
    assert(" [corevpn@32473 eventId=\""@ =~= " "@ + "[corevpn@32473 eventId=\""@);
    assert("\" outcome=\""@ =~= "\""@ + " outcome=\""@) by {
        reveal_strlit(" outcome=\"");
    }
    assert(syslog_structured_data(ev) =~= "[corevpn@32473 eventId=\""@ + ev.id@ + "\" outcome=\""@ + outcome_name(
        ev.outcome,
    ) + "\" category=\""@ + category_name(ev.category) + "\"]"@ + actor);
    let tail = " "@ + ev.message@;
    let middle = " outcome=\""@ + outcome_name(ev.outcome) + "\" category=\""@ + category_name(ev.category) + "\"]"@
        + actor;
    assert(syslog_text_at(cfg, ev, time) =~= opening + middle + tail);
    assert((opening + middle + tail).subrange(0, opening.len() as int) =~= opening);
    let line = opening + middle + tail;
    assert(line.subrange(line.len() - tail.len(), line.len() as int) =~= tail);
}

} // verus!
