//! What the server says during the control-channel handshake: the negotiated data cipher,
//! the key-method options, the pushed network settings and the OAuth prompts.

use vstd::prelude::*;
use crate::text::{
    chars_of, contains_seq, contains_str, decimal, has_prefix, push_char, push_str, split_at_char,
    split_char, starts_with, str_eq, string_from_chars, to_uppercase, trim_prefix_all,
    trim_start_matches, upper_of, views, write_decimal, parse_u32, parsed_u32,
};

verus! {

/// A line ended by a newline loses one carriage return before it.
pub open spec fn strip_cr(l: Seq<char>) -> Seq<char> {
    if l.len() > 0 && l.last() == '\r' {
        l.drop_last()
    } else {
        l
    }
}

/// The lines of `s` (`str::lines`): the pieces between newlines, each newline-ended piece
/// without one carriage return before the newline, and no final empty piece.
pub open spec fn lines_of(s: Seq<char>) -> Seq<Seq<char>> {
    let parts = split_char(s, '\n');
    let k = parts.len();
    let head = parts.subrange(0, k - 1).map_values(|l: Seq<char>| strip_cr(l));
    if parts[k - 1].len() == 0 {
        head
    } else {
        head.push(parts[k - 1])
    }
}

fn strip_cr_string(s: &String) -> (r: String)
    ensures
        r@ == strip_cr(s@),
{
    let a = chars_of(s.as_str());
    if a.len() > 0 && a[a.len() - 1] == '\r' {
        let mut v: Vec<char> = Vec::new();
        let mut i: usize = 0;
        while i < a.len() - 1
            invariant
                a@ == s@,
                a@.len() > 0,
                i <= a@.len() - 1,
                v@ == a@.subrange(0, i as int),
            decreases a@.len() - 1 - i,
        {
            v.push(a[i]);
            i = i + 1;
            assert(v@ =~= a@.subrange(0, i as int));
        }
        assert(v@ =~= a@.drop_last());
        string_from_chars(v.as_slice())
    } else {
        s.clone()
    }
}

/// The lines of a text (`str::lines`).
pub fn lines(s: &str) -> (r: Vec<String>)
    ensures
        views(r@) == lines_of(s@),
{
    let parts = split_at_char(s, '\n');
    let ghost pv = split_char(s@, '\n');
    proof {
        crate::text::lemma_split_char_nonempty_pub(s@, '\n');
    }
    let k = parts.len();
    let mut r: Vec<String> = Vec::new();
    let mut i: usize = 0;
    while i < k - 1
        invariant
            views(parts@) == pv,
            pv == split_char(s@, '\n'),
            k == parts@.len(),
            k >= 1,
            i <= k - 1,
            views(r@) == pv.subrange(0, i as int).map_values(|l: Seq<char>| strip_cr(l)),
        decreases k - 1 - i,
    {
        let line = strip_cr_string(&parts[i]);
        let ghost before = views(r@);
        r.push(line);
        proof {
            assert(views(r@) =~= before.push(line@));
            assert(parts@[i as int]@ == pv[i as int]);
            assert(pv.subrange(0, i + 1).map_values(|l: Seq<char>| strip_cr(l)) =~= pv.subrange(
                0,
                i as int,
            ).map_values(|l: Seq<char>| strip_cr(l)).push(strip_cr(pv[i as int])));
        }
        i = i + 1;
    }
    let last = &parts[k - 1];
    assert(last@ == pv[k - 1]);
    if !crate::text::str_is_empty(last.as_str()) {
        let ghost before = views(r@);
        r.push(last.clone());
        assert(views(r@) =~= before.push(last@));
    } else {
        proof {
            assert(last@.len() == 0);
        }
    }
    r
}

/// The prefix of the peer-info line that lists the client's ciphers.
pub open spec fn iv_ciphers_key() -> Seq<char> {
    "IV_CIPHERS="@
}

/// The first line that begins with `IV_CIPHERS=`, or the empty text when none does.
pub open spec fn iv_ciphers_line(lines: Seq<Seq<char>>) -> Seq<char>
    decreases lines.len(),
{
    if lines.len() == 0 {
        seq![]
    } else if has_prefix(lines[0], iv_ciphers_key()) {
        lines[0]
    } else {
        iv_ciphers_line(lines.drop_first())
    }
}

/// Whether the server supports a cipher name, compared in uppercase.
pub open spec fn is_supported_cipher(c: Seq<char>) -> bool {
    let u = upper_of(c);
    u == "AES-256-GCM"@ || u == "AES-128-GCM"@ || u == "CHACHA20-POLY1305"@
}

/// The first supported cipher among the non-empty names of a list.
pub open spec fn first_supported(names: Seq<Seq<char>>) -> Option<Seq<char>>
    decreases names.len(),
{
    if names.len() == 0 {
        None
    } else if names[0].len() > 0 && is_supported_cipher(names[0]) {
        Some(names[0])
    } else {
        first_supported(names.drop_first())
    }
}

/// The client's cipher list: the colon-separated names after `IV_CIPHERS=` on its line.
pub open spec fn client_ciphers(peer_info: Seq<char>) -> Seq<Seq<char>> {
    split_char(trim_prefix_all(iv_ciphers_line(lines_of(peer_info)), iv_ciphers_key()), ':')
}

/// The data cipher the server picks (NCP): the first cipher of the client's list that the
/// server supports, as the client wrote it; else the configured cipher in uppercase.
pub open spec fn negotiated_cipher(peer_info: Option<Seq<char>>, server_cipher: Seq<char>) -> Seq<char> {
    match peer_info {
        None => upper_of(server_cipher),
        Some(pi) => match first_supported(client_ciphers(pi)) {
            Some(c) => c,
            None => upper_of(server_cipher),
        },
    }
}

fn find_iv_ciphers_line(ls: &Vec<String>) -> (r: String)
    ensures
        r@ == iv_ciphers_line(views(ls@)),
{
    let mut i: usize = 0;
    assert(views(ls@).skip(0) =~= views(ls@));
    while i < ls.len()
        invariant
            i <= ls@.len(),
            iv_ciphers_line(views(ls@).skip(i as int)) == iv_ciphers_line(views(ls@)),
        decreases ls@.len() - i,
    {
        let ghost rest = views(ls@).skip(i as int);
        assert(rest[0] == ls@[i as int]@);
        if starts_with(ls[i].as_str(), "IV_CIPHERS=") {
            return ls[i].clone();
        }
        assert(rest.drop_first() =~= views(ls@).skip(i + 1));
        i = i + 1;
    }
    assert(views(ls@).skip(i as int).len() == 0);
    proof {
        reveal_strlit("");
    }
    String::new()
}

fn supported_cipher(c: &str) -> (r: bool)
    ensures
        r == is_supported_cipher(c@),
{
    let u = to_uppercase(c);
    let u = u.as_str();
    str_eq(u, "AES-256-GCM") || str_eq(u, "AES-128-GCM") || str_eq(u, "CHACHA20-POLY1305")
}

/// Picks the data cipher from the client's peer info (NCP).
pub fn negotiate_cipher(peer_info: Option<&str>, server_cipher: &str) -> (r: String)
    ensures
        r@ == negotiated_cipher(
            match peer_info {
                Some(p) => Some(p@),
                None => None,
            },
            server_cipher@,
        ),
{
    match peer_info {
        None => to_uppercase(server_cipher),
        Some(pi) => {
            let ls = lines(pi);
            let line = find_iv_ciphers_line(&ls);
            let trimmed = trim_start_matches(line.as_str(), "IV_CIPHERS=");
            let names = split_at_char(trimmed.as_str(), ':');
            let ghost all = views(names@);
            let mut i: usize = 0;
            assert(all.skip(0) =~= all);
            while i < names.len()
                invariant
                    i <= names@.len(),
                    peer_info == Some(pi),
                    all == views(names@),
                    all == client_ciphers(pi@),
                    first_supported(all.skip(i as int)) == first_supported(all),
                decreases names@.len() - i,
            {
                let ghost rest = all.skip(i as int);
                assert(rest[0] == names@[i as int]@);
                if !crate::text::str_is_empty(names[i].as_str()) && supported_cipher(names[i].as_str()) {
                    return names[i].clone();
                }
                assert(rest.drop_first() =~= all.skip(i + 1));
                i = i + 1;
            }
            assert(all.skip(i as int).len() == 0);
            to_uppercase(server_cipher)
        },
    }
}

/// The AEAD used on the data channel.
#[derive(Clone, Copy, Debug, PartialEq, Eq, Structural)]
pub enum CipherSuiteKind {
    Aes256Gcm,
    ChaCha20Poly1305,
}

/// The data channel cipher of a negotiated cipher name: ChaCha20-Poly1305 when the name
/// contains `CHACHA`, AES-256-GCM otherwise.
pub fn suite_for_negotiated(cipher: &str) -> (r: CipherSuiteKind)
    ensures
        r == if contains_seq(cipher@, "CHACHA"@) {
            CipherSuiteKind::ChaCha20Poly1305
        } else {
            CipherSuiteKind::Aes256Gcm
        },
{
    if contains_str(cipher, "CHACHA") {
        CipherSuiteKind::ChaCha20Poly1305
    } else {
        CipherSuiteKind::Aes256Gcm
    }
}

/// The cipher suite a new session starts with: ChaCha20-Poly1305 when the configured cipher
/// contains `chacha`, AES-256-GCM otherwise.
pub fn get_cipher_suite(configured: &str) -> (r: CipherSuiteKind)
    ensures
        r == if contains_seq(configured@, "chacha"@) {
            CipherSuiteKind::ChaCha20Poly1305
        } else {
            CipherSuiteKind::Aes256Gcm
        },
{
    if contains_str(configured, "chacha") {
        CipherSuiteKind::ChaCha20Poly1305
    } else {
        CipherSuiteKind::Aes256Gcm
    }
}

/// The options string of the server's key-method-2 message.
pub open spec fn key_method_options_text(cipher: Seq<char>) -> Seq<char> {
    "V4,dev-type tun,link-mtu 1560,tun-mtu 1500,proto UDPv4,cipher "@ + cipher
        + ",auth [null-digest],keysize 256,key-method 2,tls-server"@
}

/// The options string of the server's key-method-2 message for the negotiated cipher.
pub fn key_method_options(cipher: &str) -> (r: String)
    ensures
        r@ == key_method_options_text(cipher@),
{
    let mut r = "V4,dev-type tun,link-mtu 1560,tun-mtu 1500,proto UDPv4,cipher ".to_owned();
    push_str(&mut r, cipher);
    push_str(&mut r, ",auth [null-digest],keysize 256,key-method 2,tls-server");
    r
}

/// Dotted-quad text of an IPv4 address given as its big-endian value.
pub open spec fn ipv4_text(v: u32) -> Seq<char> {
    decimal((v / 0x100_0000) as nat) + "."@ + decimal(((v / 0x1_0000) % 256) as nat) + "."@
        + decimal(((v / 0x100) % 256) as nat) + "."@ + decimal((v % 256) as nat)
}

/// Writes an IPv4 address as a dotted quad.
pub fn ipv4_to_string(v: u32) -> (r: String)
    ensures
        r@ == ipv4_text(v),
{
    let mut r = String::new();
    write_decimal(&mut r, (v / 0x100_0000) as u64);
    push_str(&mut r, ".");
    write_decimal(&mut r, ((v / 0x1_0000) % 256) as u64);
    push_str(&mut r, ".");
    write_decimal(&mut r, ((v / 0x100) % 256) as u64);
    push_str(&mut r, ".");
    write_decimal(&mut r, (v % 256) as u64);
    r
}

/// The network mask of a prefix length: the top `prefix` bits set.
pub open spec fn prefix_mask(prefix: u32) -> u32 {
    if prefix == 0 {
        0
    } else {
        (0xFFFF_FFFFu32 << ((32 - prefix) as u32)) as u32
    }
}

fn mask_of(prefix: u32) -> (r: u32)
    requires
        prefix <= 32,
    ensures
        r == prefix_mask(prefix),
{
    if prefix == 0 {
        0
    } else {
        0xFFFF_FFFFu32 << (32 - prefix)
    }
}

/// The network and dotted mask of a route given as `network/prefix`: exactly one `/`, and a
/// prefix length of at most 32; `None` otherwise.
pub open spec fn cidr_netmask(cidr: Seq<char>) -> Option<(Seq<char>, Seq<char>)> {
    let parts = split_char(cidr, '/');
    if parts.len() != 2 {
        None
    } else {
        match parsed_u32(parts[1]) {
            Some(p) => if p > 32 {
                None
            } else {
                Some((parts[0], ipv4_text(prefix_mask(p))))
            },
            None => None,
        }
    }
}

/// Converts a route in CIDR notation to its network and dotted netmask.
pub fn cidr_to_netmask(cidr: &str) -> (r: Option<(String, String)>)
    ensures
        match (r, cidr_netmask(cidr@)) {
            (Some((n, m)), Some((sn, sm))) => n@ == sn && m@ == sm,
            (None, None) => true,
            _ => false,
        },
{
    let parts = split_at_char(cidr, '/');
    if parts.len() != 2 {
        return None;
    }
    let prefix = match parse_u32(parts[1].as_str()) {
        Some(p) => p,
        None => return None,
    };
    if prefix > 32 {
        return None;
    }
    let mask = mask_of(prefix);
    let netmask = ipv4_to_string(mask);
    Some((parts[0].clone(), netmask))
}

} // verus!

verus! {

/// A parsed IPv4 network: its address (big-endian value) and prefix length.
pub uninterp spec fn ipv4_net_of(s: Seq<char>) -> Option<(u32, u8)>;

/// `s.parse::<ipnet::Ipv4Net>()`: the address and prefix length, or `None` when the text is
/// not `a.b.c.d/len`. The crate reads at most two prefix digits and only values below 33.
#[verifier::external_body]
pub(crate) fn parse_ipv4_net(s: &str) -> (r: Option<(u32, u8)>)
    ensures
        r == ipv4_net_of(s@),
        r matches Some((_, p)) ==> p <= 32,
{
    match s.parse::<ipnet::Ipv4Net>() {
        Ok(net) => Some((u32::from(net.addr()), net.prefix_len())),
        Err(_) => None,
    }
}

/// The subnet mask pushed to clients: the mask of the configured subnet, or
/// `255.255.255.0` when the subnet does not parse.
pub open spec fn subnet_mask_text(subnet: Seq<char>) -> Seq<char> {
    match ipv4_net_of(subnet) {
        Some((_, p)) => ipv4_text(prefix_mask(p as u32)),
        None => "255.255.255.0"@,
    }
}

/// The subnet mask of the configured subnet.
pub fn subnet_mask(subnet: &str) -> (r: String)
    ensures
        r@ == subnet_mask_text(subnet@),
{
    match parse_ipv4_net(subnet) {
        Some((_, p)) => ipv4_to_string(mask_of(p as u32)),
        None => "255.255.255.0".to_owned(),
    }
}

/// The routes a list of CIDR texts gives, skipping invalid ones.
pub open spec fn routes_of(cidrs: Seq<Seq<char>>) -> Seq<(Seq<char>, Seq<char>)>
    decreases cidrs.len(),
{
    if cidrs.len() == 0 {
        seq![]
    } else {
        let init = routes_of(cidrs.drop_last());
        match cidr_netmask(cidrs.last()) {
            Some(r) => init.push(r),
            None => init,
        }
    }
}

/// A pushed route.
#[derive(Clone, Debug)]
pub struct PushRoute {
    pub network: String,
    pub netmask: String,
}

/// The settings pushed to a client in its PUSH_REPLY (topology subnet).
#[derive(Clone, Debug)]
pub struct PushReplyPlan {
    /// Client address.
    pub ifconfig_ip: String,
    /// Subnet mask.
    pub ifconfig_mask: String,
    pub dns: Vec<String>,
    pub redirect_gateway: bool,
    pub route_gateway: Option<String>,
    /// Network and netmask of each pushed route.
    pub routes: Vec<PushRoute>,
    pub ping: u32,
    pub ping_restart: u32,
    /// Extra options: the negotiated cipher.
    pub options: Vec<String>,
}

/// The push reply for a client: its address and the subnet mask, the configured DNS servers,
/// the gateway when all traffic is redirected, the valid configured routes, keepalive 10/60
/// and the negotiated cipher.
pub fn push_reply_plan(
    client_ip: String,
    gateway_ip: &str,
    mask: String,
    dns: &Vec<String>,
    redirect_gateway: bool,
    push_routes: &Vec<String>,
    cipher: &str,
) -> (r: PushReplyPlan)
    ensures
        r.ifconfig_ip == client_ip,
        r.ifconfig_mask == mask,
        r.dns@ == dns@,
        r.redirect_gateway == redirect_gateway,
        redirect_gateway ==> (r.route_gateway matches Some(g) && g@ == gateway_ip@),
        !redirect_gateway ==> r.route_gateway is None,
        r.routes@.len() == routes_of(views(push_routes@)).len(),
        forall|i: int| 0 <= i < r.routes@.len() ==> (#[trigger] r.routes@[i]).network@ == routes_of(views(push_routes@))[i].0
            && r.routes@[i].netmask@ == routes_of(views(push_routes@))[i].1,
        r.ping == 10,
        r.ping_restart == 60,
        r.options@.len() == 1,
        r.options@[0]@ == "cipher "@ + cipher@,
{
    let mut dns_copy: Vec<String> = Vec::new();
    let mut i: usize = 0;
    while i < dns.len()
        invariant
            i <= dns@.len(),
            dns_copy@ == dns@.subrange(0, i as int),
        decreases dns@.len() - i,
    {
        dns_copy.push(dns[i].clone());
        i = i + 1;
        assert(dns_copy@ =~= dns@.subrange(0, i as int));
    }
    assert(dns@.subrange(0, dns@.len() as int) =~= dns@);
    let mut routes: Vec<PushRoute> = Vec::new();
    let mut j: usize = 0;
    while j < push_routes.len()
        invariant
            j <= push_routes@.len(),
            routes@.len() == routes_of(views(push_routes@.subrange(0, j as int))).len(),
            forall|k: int| 0 <= k < routes@.len() ==> (#[trigger] routes@[k]).network@ == routes_of(
                views(push_routes@.subrange(0, j as int)),
            )[k].0 && routes@[k].netmask@ == routes_of(views(push_routes@.subrange(0, j as int)))[k].1,
        decreases push_routes@.len() - j,
    {
        let ghost pre = views(push_routes@.subrange(0, j as int));
        let ghost next = views(push_routes@.subrange(0, j + 1));
        proof {
            assert(next.drop_last() =~= pre);
            assert(next.last() == push_routes@[j as int]@);
        }
        match cidr_to_netmask(push_routes[j].as_str()) {
            Some((network, netmask)) => {
                routes.push(PushRoute { network, netmask });
            },
            None => {},
        }
        j = j + 1;
    }
    assert(push_routes@.subrange(0, push_routes@.len() as int) =~= push_routes@);
    let route_gateway = if redirect_gateway {
        Some(gateway_ip.to_owned())
    } else {
        None
    };
    let mut opt = "cipher ".to_owned();
    push_str(&mut opt, cipher);
    let mut options: Vec<String> = Vec::new();
    options.push(opt);
    PushReplyPlan {
        ifconfig_ip: client_ip,
        ifconfig_mask: mask,
        dns: dns_copy,
        redirect_gateway,
        route_gateway,
        routes,
        ping: 10,
        ping_restart: 60,
        options,
    }
}

/// A random OAuth state token: a random 64-bit number in lowercase hexadecimal.
pub open spec fn state_token_text(n: u64) -> Seq<char> {
    crate::text::hex_lower(n as nat)
}

/// `rand::random::<u64>()`: a number drawn from the thread-local generator.
#[verifier::external_body]
fn random_u64() -> (r: u64) {
    rand::random::<u64>()
}

/// A fresh OAuth state token.
pub fn new_state_token() -> (r: String)
    ensures
        exists|n: u64| r@ == state_token_text(n),
{
    let n = random_u64();
    let mut r = String::new();
    crate::text::write_hex(&mut r, n);
    assert(r@ =~= state_token_text(n));
    r
}

/// The public base URL of the OAuth server: the configured external URL when there is one,
/// else `https://<public_host>:<oauth_port>`.
pub open spec fn oauth_base_url(public_host: Seq<char>, oauth_port: u16, external_url: Option<Seq<char>>) -> Seq<char> {
    match external_url {
        Some(u) => u,
        None => "https://"@ + public_host + ":"@ + crate::text::decimal(oauth_port as nat),
    }
}

/// The view of an optional string.
pub open spec fn opt_str_view(o: Option<&str>) -> Option<Seq<char>> {
    match o {
        Some(u) => Some(u@),
        None => None,
    }
}

/// The URL at which a client starts OAuth for a state token, under a base URL.
pub open spec fn oauth_start_url(base: Seq<char>, state: Seq<char>) -> Seq<char> {
    base + "/auth/start?state="@ + state
}

/// The URL at which a client starts OAuth.
pub fn auth_url(public_host: &str, oauth_port: u16, external_url: Option<&str>, state: &str) -> (r: String)
    ensures
        r@ == oauth_start_url(oauth_base_url(public_host@, oauth_port, opt_str_view(external_url)), state@),
{
    let mut r = String::new();
    match external_url {
        Some(u) => {
            push_str(&mut r, u);
        },
        None => {
            push_str(&mut r, "https://");
            push_str(&mut r, public_host);
            push_str(&mut r, ":");
            crate::text::write_decimal(&mut r, oauth_port as u64);
        },
    }
    push_str(&mut r, "/auth/start?state=");
    push_str(&mut r, state);
    r
}

/// The control message that asks the client to open the OAuth URL (NUL-terminated).
pub fn auth_pending_message(url: &str) -> (r: String)
    ensures
        r@ == "AUTH_PENDING,timeout 120,OPEN_URL:"@ + url@ + seq!['\0'],
{
    let mut r = "AUTH_PENDING,timeout 120,OPEN_URL:".to_owned();
    push_str(&mut r, url);
    push_char(&mut r, '\0');
    r
}

/// A control message as sent over TLS: the text and a NUL byte.
pub fn control_message(text: &str) -> (r: String)
    ensures
        r@ == text@.push('\0'),
{
    let mut r = text.to_owned();
    push_char(&mut r, '\0');
    r
}


/// Whether a cipher name is, ignoring case, one the server offers: AES-256-GCM, AES-128-GCM
/// or CHACHA20-POLY1305.
pub open spec fn server_offers(c: Seq<char>) -> bool {
    c.len() > 0 && (upper_of(c) == "AES-256-GCM"@ || upper_of(c) == "AES-128-GCM"@ || upper_of(c)
        == "CHACHA20-POLY1305"@)
}

/// The server supports exactly AES-256-GCM, AES-128-GCM and CHACHA20-POLY1305, in any case:
/// the client's first listed cipher among them is negotiated, as the client wrote it; when
/// the client lists none of them, the configured cipher is used in uppercase.
pub proof fn law_first_known_cipher_negotiated(peer_info: Seq<char>, server_cipher: Seq<char>, i: int)
    ensures
        0 <= i < client_ciphers(peer_info).len() && server_offers(client_ciphers(peer_info)[i]) && (forall|j: int|
            0 <= j < i ==> !server_offers(#[trigger] client_ciphers(peer_info)[j])) ==> negotiated_cipher(
            Some(peer_info),
            server_cipher,
        ) == client_ciphers(peer_info)[i],
        (forall|j: int| 0 <= j < client_ciphers(peer_info).len() ==> !server_offers(#[trigger] client_ciphers(peer_info)[j]))
            ==> negotiated_cipher(Some(peer_info), server_cipher) == upper_of(server_cipher),
        negotiated_cipher(None, server_cipher) == upper_of(server_cipher),
{
    let names = client_ciphers(peer_info);
    if 0 <= i < names.len() && server_offers(names[i]) && (forall|j: int| 0 <= j < i ==> !server_offers(#[trigger] names[j])) {
        lemma_first_supported_at(names, i);
    }
    if forall|j: int| 0 <= j < names.len() ==> !server_offers(#[trigger] names[j]) {
        lemma_none_supported(names);
    }
}

proof fn lemma_first_supported_at(names: Seq<Seq<char>>, i: int)
    requires
        0 <= i < names.len(),
        forall|j: int| 0 <= j < i ==> !server_offers(#[trigger] names[j]),
        server_offers(names[i]),
    ensures
        first_supported(names) == Some(names[i]),
    decreases i,
{
    if i > 0 {
        assert(!server_offers(names[0]));
        let rest = names.drop_first();
        assert forall|j: int| 0 <= j < i - 1 implies !server_offers(#[trigger] rest[j]) by {
            assert(rest[j] == names[j + 1]);
        }
        assert(rest[i - 1] == names[i]);
        lemma_first_supported_at(rest, i - 1);
    }
}

proof fn lemma_none_supported(names: Seq<Seq<char>>)
    requires
        forall|j: int| 0 <= j < names.len() ==> !server_offers(#[trigger] names[j]),
    ensures
        first_supported(names) is None,
    decreases names.len(),
{
    if names.len() > 0 {
        assert(!server_offers(names[0]));
        let rest = names.drop_first();
        assert forall|j: int| 0 <= j < rest.len() implies !server_offers(#[trigger] rest[j]) by {
            assert(rest[j] == names[j + 1]);
        }
        lemma_none_supported(rest);
    }
}

} // verus!
