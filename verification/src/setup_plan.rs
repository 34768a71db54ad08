//! Decisions of the server's setup wizard and of its diagnosis command: what the wizard's
//! answers configure, and what the diagnosis reports from what it found. Asking, probing
//! the machine and printing are done by the caller.

use vstd::prelude::*;
use crate::negotiation::{ipv4_net_of, parse_ipv4_net};
use crate::text::{decimal, parse_u32, parsed_u32, push_str, str_is_empty, views, write_decimal};

verus! {

/// The standard OpenVPN port, the wizard's first port choice.
pub const STANDARD_PORT: u16 = 1194;

/// The HTTPS port, the wizard's second port choice.
pub const HTTPS_PORT: u16 = 443;

/// The port of the OAuth callback listener the wizard configures.
pub const SETUP_OAUTH_PORT: u16 = 9000;

/// The port the wizard's port menu gives: the standard OpenVPN port for the first choice,
/// the HTTPS port for the second, and the entered custom port otherwise.
pub fn port_for_choice(choice: usize, custom: u16) -> (r: u16)
    ensures
        r == (if choice == 0 {
            STANDARD_PORT
        } else if choice == 1 {
            HTTPS_PORT
        } else {
            custom
        }),
{
    if choice == 0 {
        STANDARD_PORT
    } else if choice == 1 {
        HTTPS_PORT
    } else {
        custom
    }
}

/// What `str::parse::<u16>` accepts: an optional `+` and decimal digits with a value that
/// fits in 16 bits.
pub open spec fn parsed_port(s: Seq<char>) -> Option<u16> {
    match parsed_u32(s) {
        Some(v) => if v <= 65535 {
            Some(v as u16)
        } else {
            None
        },
        None => None,
    }
}

/// Reads a custom port number; `None` when the text is not a valid port.
pub fn parse_port(input: &str) -> (r: Option<u16>)
    ensures
        r == parsed_port(input@),
{
    match parse_u32(input) {
        Some(v) => if v <= 65535 {
            Some(v as u16)
        } else {
            None
        },
        None => None,
    }
}

/// The transport protocol of the wizard's protocol menu: UDP for the first choice, TCP
/// otherwise.
pub fn protocol_for_choice(choice: usize) -> (r: &'static str)
    ensures
        r@ == (if choice == 0 {
            "udp"@
        } else {
            "tcp"@
        }),
{
    if choice == 0 {
        "udp"
    } else {
        "tcp"
    }
}

/// Identity providers the wizard can configure.
#[derive(Clone, Copy, Debug, PartialEq, Eq, Structural)]
pub enum OAuthProviderChoice {
    /// Google Workspace
    Google,
    /// Microsoft Entra ID
    Microsoft,
    /// Okta
    Okta,
}

/// The identity provider of the wizard's authentication menu: none for certificates only
/// (the first choice) or for skipping (the last), otherwise Google, Microsoft or Okta.
pub fn oauth_provider_for_choice(choice: usize) -> (r: Option<OAuthProviderChoice>)
    ensures
        r == (if choice == 1 {
            Some(OAuthProviderChoice::Google)
        } else if choice == 2 {
            Some(OAuthProviderChoice::Microsoft)
        } else if choice == 3 {
            Some(OAuthProviderChoice::Okta)
        } else {
            None
        }),
{
    if choice == 1 {
        Some(OAuthProviderChoice::Google)
    } else if choice == 2 {
        Some(OAuthProviderChoice::Microsoft)
    } else if choice == 3 {
        Some(OAuthProviderChoice::Okta)
    } else {
        None
    }
}

/// OAuth settings written by the wizard.
pub struct OAuthSetup {
    /// Whether OAuth is enabled
    pub enabled: bool,
    /// Provider name
    pub provider: String,
    /// Client ID
    pub client_id: String,
    /// Client secret
    pub client_secret: String,
    /// Issuer URL
    pub issuer_url: Option<String>,
    /// Tenant (Microsoft)
    pub tenant_id: Option<String>,
    /// Provider domain (Okta)
    pub domain: Option<String>,
    /// Email domains allowed to sign in
    pub allowed_domains: Vec<String>,
    /// Groups required to sign in
    pub required_groups: Vec<String>,
    /// Port of the callback listener
    pub oauth_port: u16,
    /// External URL of the callback listener
    pub external_url: Option<String>,
}

/// The parts every provider's settings share: enabled, no issuer or external URL, no
/// required groups, and the wizard's callback port.
pub open spec fn common_oauth(o: OAuthSetup, provider: Seq<char>, client_id: String, client_secret: String) -> bool {
    &&& o.enabled
    &&& o.provider@ == provider
    &&& o.client_id == client_id
    &&& o.client_secret == client_secret
    &&& o.issuer_url is None
    &&& o.external_url is None
    &&& o.required_groups@.len() == 0
    &&& o.oauth_port == SETUP_OAUTH_PORT
}

/// Google Workspace settings; an empty domain allows every domain.
pub fn google_oauth(client_id: String, client_secret: String, domain: String) -> (r: OAuthSetup)
    ensures
        common_oauth(r, "google"@, client_id, client_secret),
        r.tenant_id is None,
        r.domain is None,
        domain@.len() == 0 ==> r.allowed_domains@.len() == 0,
        domain@.len() > 0 ==> r.allowed_domains@ == seq![domain],
{
    let mut allowed: Vec<String> = Vec::new();
    if !str_is_empty(domain.as_str()) {
        allowed.push(domain);
    }
    OAuthSetup {
        enabled: true,
        provider: "google".to_owned(),
        client_id,
        client_secret,
        issuer_url: None,
        tenant_id: None,
        domain: None,
        allowed_domains: allowed,
        required_groups: Vec::new(),
        oauth_port: SETUP_OAUTH_PORT,
        external_url: None,
    }
}

/// Microsoft Entra ID settings for a tenant (`common` for multi-tenant).
pub fn microsoft_oauth(client_id: String, client_secret: String, tenant_id: String) -> (r: OAuthSetup)
    ensures
        common_oauth(r, "microsoft"@, client_id, client_secret),
        r.tenant_id == Some(tenant_id),
        r.domain is None,
        r.allowed_domains@.len() == 0,
{
    OAuthSetup {
        enabled: true,
        provider: "microsoft".to_owned(),
        client_id,
        client_secret,
        issuer_url: None,
        tenant_id: Some(tenant_id),
        domain: None,
        allowed_domains: Vec::new(),
        required_groups: Vec::new(),
        oauth_port: SETUP_OAUTH_PORT,
        external_url: None,
    }
}

/// Okta settings for an Okta domain.
pub fn okta_oauth(domain: String, client_id: String, client_secret: String) -> (r: OAuthSetup)
    ensures
        common_oauth(r, "okta"@, client_id, client_secret),
        r.tenant_id is None,
        r.domain == Some(domain),
        r.allowed_domains@.len() == 0,
{
    OAuthSetup {
        enabled: true,
        provider: "okta".to_owned(),
        client_id,
        client_secret,
        issuer_url: None,
        tenant_id: None,
        domain: Some(domain),
        allowed_domains: Vec::new(),
        required_groups: Vec::new(),
        oauth_port: SETUP_OAUTH_PORT,
        external_url: None,
    }
}

/// What the wizard sets up.
pub struct SetupPlan {
    /// Public hostname or address of the server
    pub public_host: String,
    /// Port to listen on (on every address)
    pub port: u16,
    /// Transport protocol
    pub protocol: String,
    /// VPN subnet
    pub subnet: String,
    /// Whether all traffic goes through the tunnel
    pub redirect_gateway: bool,
    /// OAuth settings, if an identity provider was chosen
    pub oauth: Option<OAuthSetup>,
}

/// The plan from the wizard's answers: the full tunnel is the first tunnel choice.
pub fn plan_setup(
    public_host: String,
    port_choice: usize,
    custom_port: u16,
    protocol_choice: usize,
    oauth: Option<OAuthSetup>,
    tunnel_choice: usize,
    subnet: String,
) -> (r: SetupPlan)
    ensures
        r.public_host == public_host,
        r.port == (if port_choice == 0 {
            STANDARD_PORT
        } else if port_choice == 1 {
            HTTPS_PORT
        } else {
            custom_port
        }),
        r.protocol@ == (if protocol_choice == 0 {
            "udp"@
        } else {
            "tcp"@
        }),
        r.subnet == subnet,
        r.redirect_gateway == (tunnel_choice == 0),
        r.oauth == oauth,
{
    SetupPlan {
        public_host,
        port: port_for_choice(port_choice, custom_port),
        protocol: protocol_for_choice(protocol_choice).to_owned(),
        subnet,
        redirect_gateway: tunnel_choice == 0,
        oauth,
    }
}

/// The summary the wizard shows before asking to proceed.
pub open spec fn summary_text(p: SetupPlan) -> Seq<Seq<char>> {
    let base = seq![
        "Server: "@ + p.public_host@ + ":"@ + decimal(p.port as nat) + "/"@ + p.protocol@,
        "Subnet: "@ + p.subnet@,
        "Full tunnel: "@ + (if p.redirect_gateway {
            "Yes"@
        } else {
            "No"@
        }),
    ];
    if p.oauth is Some {
        base.push("OAuth2: Enabled"@)
    } else {
        base
    }
}

/// The lines of the summary of a plan: server, subnet, full tunnel, and OAuth when set up.
pub fn summary_lines(plan: &SetupPlan) -> (r: Vec<String>)
    ensures
        views(r@) == summary_text(*plan),
{
    let mut server = "Server: ".to_owned();
    push_str(&mut server, plan.public_host.as_str());
    push_str(&mut server, ":");
    write_decimal(&mut server, plan.port as u64);
    push_str(&mut server, "/");
    push_str(&mut server, plan.protocol.as_str());
    let mut subnet = "Subnet: ".to_owned();
    push_str(&mut subnet, plan.subnet.as_str());
    let mut tunnel = "Full tunnel: ".to_owned();
    push_str(&mut tunnel, if plan.redirect_gateway { "Yes" } else { "No" });
    let mut r: Vec<String> = Vec::new();
    r.push(server);
    r.push(subnet);
    r.push(tunnel);
    if plan.oauth.is_some() {
        r.push("OAuth2: Enabled".to_owned());
    }
    assert(views(r@) =~= summary_text(*plan));
    r
}

/// What the diagnosis found on the machine.
pub struct DoctorFindings {
    /// Why the configuration did not load, if it did not
    pub config_error: Option<String>,
    /// The data directory, as shown
    pub data_dir: String,
    /// Whether the data directory exists
    pub data_dir_exists: bool,
    /// Whether the CA certificate exists
    pub ca_cert_exists: bool,
    /// Whether the server certificate exists
    pub server_cert_exists: bool,
    /// Whether the TLS auth key exists
    pub ta_key_exists: bool,
    /// Whether TLS auth is enabled
    pub tls_auth: bool,
    /// The configured subnet
    pub subnet: String,
    /// The configured listen port
    pub port: u16,
    /// Why binding the listen address failed, if it did
    pub port_error: Option<String>,
}

/// The outcome of one diagnosis check.
#[derive(Clone, Copy, Debug, PartialEq, Eq, Structural)]
pub enum CheckStatus {
    /// Passed
    Passed,
    /// Failed
    Failed,
    /// Passed with a warning
    Warning,
}

/// One diagnosis check as shown: what is checked, how it went, and a detail.
pub struct DoctorCheck {
    /// What is checked
    pub label: String,
    /// How it went
    pub status: CheckStatus,
    /// Detail shown after the status
    pub detail: String,
}

/// A check as plain text and status.
pub open spec fn check_view(c: DoctorCheck) -> (Seq<char>, CheckStatus, Seq<char>) {
    (c.label@, c.status, c.detail@)
}

/// Checks as plain text and status.
pub open spec fn checks_view(v: Seq<DoctorCheck>) -> Seq<(Seq<char>, CheckStatus, Seq<char>)> {
    v.map_values(|c: DoctorCheck| check_view(c))
}

/// One item when the condition holds, none otherwise.
pub open spec fn only_if<T>(cond: bool, item: T) -> Seq<T> {
    if cond {
        seq![item]
    } else {
        seq![]
    }
}

/// The checks the diagnosis shows. Without a configuration only its error is shown;
/// otherwise the data directory, the certificates, the TLS auth key (missing is a warning
/// when TLS auth is on, and fine when it is off), the subnet and the port are checked.
pub open spec fn doctor_check_list(f: DoctorFindings) -> Seq<(Seq<char>, CheckStatus, Seq<char>)> {
    let config_check = match f.config_error {
        Some(e) => ("Checking configuration file... "@, CheckStatus::Failed, e@),
        None => ("Checking configuration file... "@, CheckStatus::Passed, "Configuration valid"@),
    };
    if f.config_error is Some {
        seq![config_check]
    } else {
        seq![
            config_check,
            ("Checking data directory... "@, if f.data_dir_exists {
                CheckStatus::Passed
            } else {
                CheckStatus::Failed
            }, f.data_dir@ + if f.data_dir_exists {
                " exists"@
            } else {
                " not found"@
            }),
            ("Checking CA certificate... "@, if f.ca_cert_exists {
                CheckStatus::Passed
            } else {
                CheckStatus::Failed
            }, if f.ca_cert_exists {
                "Found"@
            } else {
                "Not found"@
            }),
            ("Checking server certificate... "@, if f.server_cert_exists {
                CheckStatus::Passed
            } else {
                CheckStatus::Failed
            }, if f.server_cert_exists {
                "Found"@
            } else {
                "Not found"@
            }),
            if f.ta_key_exists {
                ("Checking TLS auth key... "@, CheckStatus::Passed, "Found"@)
            } else if f.tls_auth {
                ("Checking TLS auth key... "@, CheckStatus::Warning, "Not found (tls_auth enabled)"@)
            } else {
                ("Checking TLS auth key... "@, CheckStatus::Passed, "Not required"@)
            },
            if ipv4_net_of(f.subnet@) is Some {
                ("Checking network configuration... "@, CheckStatus::Passed, "Subnet valid"@)
            } else {
                ("Checking network configuration... "@, CheckStatus::Failed, "Invalid subnet: "@ + f.subnet@)
            },
            ("Checking port "@ + decimal(f.port as nat) + "... "@, match f.port_error {
                Some(_) => CheckStatus::Warning,
                None => CheckStatus::Passed,
            }, match f.port_error {
                Some(e) => e@,
                None => "Available"@,
            }),
        ]
    }
}

/// The issues the diagnosis lists, in the order of its checks.
pub open spec fn doctor_issue_list(f: DoctorFindings) -> Seq<Seq<char>> {
    match f.config_error {
        Some(e) => seq!["Fix configuration: "@ + e@],
        None => only_if(!f.data_dir_exists, "Create data directory: mkdir -p "@ + f.data_dir@)
            + only_if(!f.ca_cert_exists, "Run 'corevpn-server setup' to initialize PKI"@)
            + only_if(!f.server_cert_exists, "Server certificate missing"@)
            + only_if(!f.ta_key_exists && f.tls_auth, "TLS auth key missing but tls_auth is enabled"@)
            + only_if(ipv4_net_of(f.subnet@) is None, "Fix subnet in configuration"@)
            + only_if(f.port_error is Some, "Port "@ + decimal(f.port as nat) + " may be in use or require root"@),
    }
}

fn check(label: String, status: CheckStatus, detail: String) -> (r: DoctorCheck)
    ensures
        check_view(r) == (label@, status, detail@),
{
    DoctorCheck { label, status, detail }
}

fn concat(a: &str, b: &str) -> (r: String)
    ensures
        r@ == a@ + b@,
{
    let mut r = a.to_owned();
    push_str(&mut r, b);
    r
}

/// The checks the diagnosis shows for what it found.
pub fn doctor_checks(f: &DoctorFindings) -> (r: Vec<DoctorCheck>)
    ensures
        checks_view(r@) == doctor_check_list(*f),
{
    let mut r: Vec<DoctorCheck> = Vec::new();
    let label = "Checking configuration file... ".to_owned();
    match &f.config_error {
        Some(e) => {
            r.push(check(label, CheckStatus::Failed, e.clone()));
            assert(checks_view(r@) =~= doctor_check_list(*f));
            return r;
        },
        None => {
            r.push(check(label, CheckStatus::Passed, "Configuration valid".to_owned()));
        },
    }
    let dir_label = "Checking data directory... ".to_owned();
    if f.data_dir_exists {
        r.push(check(dir_label, CheckStatus::Passed, concat(f.data_dir.as_str(), " exists")));
    } else {
        r.push(check(dir_label, CheckStatus::Failed, concat(f.data_dir.as_str(), " not found")));
    }
    let ca_label = "Checking CA certificate... ".to_owned();
    if f.ca_cert_exists {
        r.push(check(ca_label, CheckStatus::Passed, "Found".to_owned()));
    } else {
        r.push(check(ca_label, CheckStatus::Failed, "Not found".to_owned()));
    }
    let cert_label = "Checking server certificate... ".to_owned();
    if f.server_cert_exists {
        r.push(check(cert_label, CheckStatus::Passed, "Found".to_owned()));
    } else {
        r.push(check(cert_label, CheckStatus::Failed, "Not found".to_owned()));
    }
    let ta_label = "Checking TLS auth key... ".to_owned();
    if f.ta_key_exists {
        r.push(check(ta_label, CheckStatus::Passed, "Found".to_owned()));
    } else if f.tls_auth {
        r.push(check(ta_label, CheckStatus::Warning, "Not found (tls_auth enabled)".to_owned()));
    } else {
        r.push(check(ta_label, CheckStatus::Passed, "Not required".to_owned()));
    }
    let net_label = "Checking network configuration... ".to_owned();
    if parse_ipv4_net(f.subnet.as_str()).is_some() {
        r.push(check(net_label, CheckStatus::Passed, "Subnet valid".to_owned()));
    } else {
        r.push(check(net_label, CheckStatus::Failed, concat("Invalid subnet: ", f.subnet.as_str())));
    }
    let mut port_label = "Checking port ".to_owned();
    write_decimal(&mut port_label, f.port as u64);
    push_str(&mut port_label, "... ");
    match &f.port_error {
        Some(e) => {
            r.push(check(port_label, CheckStatus::Warning, e.clone()));
        },
        None => {
            r.push(check(port_label, CheckStatus::Passed, "Available".to_owned()));
        },
    }
    assert(checks_view(r@) =~= doctor_check_list(*f));
    r
}

/// The issues the diagnosis lists for what it found.
pub fn doctor_issues(f: &DoctorFindings) -> (r: Vec<String>)
    ensures
        views(r@) == doctor_issue_list(*f),
{
    let mut r: Vec<String> = Vec::new();
    match &f.config_error {
        Some(e) => {
            r.push(concat("Fix configuration: ", e.as_str()));
            assert(views(r@) =~= doctor_issue_list(*f));
            return r;
        },
        None => {},
    }
    let ghost s1 = only_if(!f.data_dir_exists, "Create data directory: mkdir -p "@ + f.data_dir@);
    if !f.data_dir_exists {
        r.push(concat("Create data directory: mkdir -p ", f.data_dir.as_str()));
    }
    assert(views(r@) =~= s1);
    let ghost s2 = s1 + only_if(!f.ca_cert_exists, "Run 'corevpn-server setup' to initialize PKI"@);
    if !f.ca_cert_exists {
        r.push("Run 'corevpn-server setup' to initialize PKI".to_owned());
    }
    assert(views(r@) =~= s2);
    let ghost s3 = s2 + only_if(!f.server_cert_exists, "Server certificate missing"@);
    if !f.server_cert_exists {
        r.push("Server certificate missing".to_owned());
    }
    assert(views(r@) =~= s3);
    let ghost s4 = s3 + only_if(!f.ta_key_exists && f.tls_auth, "TLS auth key missing but tls_auth is enabled"@);
    if !f.ta_key_exists && f.tls_auth {
        r.push("TLS auth key missing but tls_auth is enabled".to_owned());
    }
    assert(views(r@) =~= s4);
    let subnet_ok = parse_ipv4_net(f.subnet.as_str()).is_some();
    let ghost s5 = s4 + only_if(ipv4_net_of(f.subnet@) is None, "Fix subnet in configuration"@);
    if !subnet_ok {
        r.push("Fix subnet in configuration".to_owned());
    }
    assert(views(r@) =~= s5);
    let ghost s6 = s5 + only_if(f.port_error is Some, "Port "@ + decimal(f.port as nat) + " may be in use or require root"@);
    if f.port_error.is_some() {
        let mut m = "Port ".to_owned();
        write_decimal(&mut m, f.port as u64);
        push_str(&mut m, " may be in use or require root");
        r.push(m);
    }
    assert(views(r@) =~= s6);
    r
}

/// The closing verdict of the diagnosis: every check passed, or how many issues follow.
pub open spec fn verdict_text(issue_count: nat) -> Seq<char> {
    if issue_count == 0 {
        "All checks passed!"@
    } else {
        "Found "@ + decimal(issue_count) + " issue(s):"@
    }
}

/// The closing verdict of the diagnosis for a number of issues.
pub fn doctor_verdict(issue_count: usize) -> (r: String)
    ensures
        r@ == verdict_text(issue_count as nat),
{
    if issue_count == 0 {
        "All checks passed!".to_owned()
    } else {
        let mut r = "Found ".to_owned();
        write_decimal(&mut r, issue_count as u64);
        push_str(&mut r, " issue(s):");
        r
    }
}

/// The numbered lines listing issues, counted from one.
pub open spec fn numbered_text(issues: Seq<Seq<char>>) -> Seq<Seq<char>> {
    Seq::new(issues.len(), |i: int| "  "@ + decimal((i + 1) as nat) + ". "@ + issues[i])
}

/// Numbers the issues for display, counting from one.
pub fn numbered_issues(issues: &Vec<String>) -> (r: Vec<String>)
    ensures
        views(r@) == numbered_text(views(issues@)),
{
    let mut r: Vec<String> = Vec::new();
    let mut i: usize = 0;
    while i < issues.len()
        invariant
            i <= issues@.len(),
            views(r@) == numbered_text(views(issues@)).subrange(0, i as int),
        decreases issues@.len() - i,
    {
        let mut m = "  ".to_owned();
        write_decimal(&mut m, (i as u64) + 1);
        push_str(&mut m, ". ");
        push_str(&mut m, issues[i].as_str());
        let ghost item = m@;
        assert(item == numbered_text(views(issues@))[i as int]);
        let ghost before = views(r@);
        r.push(m);
        assert(views(r@) =~= before.push(item));
        i = i + 1;
        assert(views(r@) =~= numbered_text(views(issues@)).subrange(0, i as int));
    }
    assert(numbered_text(views(issues@)).subrange(0, i as int) =~= numbered_text(views(issues@)));
    r
}

} // verus!
