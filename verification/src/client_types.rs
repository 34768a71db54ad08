//! Types of the desktop VPN client: connection status, authentication method, statistics and
//! configuration sections.

use vstd::prelude::*;
use crate::text::{decimal, push_str, write_decimal};

verus! {

/// VPN connection status.
#[derive(Clone, Copy, Debug, PartialEq, Eq, Structural)]
pub enum VpnConnectionStatus {
    /// Not connected
    Disconnected,
    /// Establishing connection
    Connecting,
    /// Authenticating with server
    Authenticating,
    /// Successfully connected
    Connected,
    /// Disconnecting from server
    Disconnecting,
    /// Attempting to reconnect
    Reconnecting,
    /// Connection error
    Error,
}

impl Default for VpnConnectionStatus {
    fn default() -> (r: Self)
        ensures
            r == VpnConnectionStatus::Disconnected,
    {
        VpnConnectionStatus::Disconnected
    }
}

/// The human-readable text of a status.
pub open spec fn status_text(s: VpnConnectionStatus) -> Seq<char> {
    match s {
        VpnConnectionStatus::Disconnected => "Disconnected"@,
        VpnConnectionStatus::Connecting => "Connecting..."@,
        VpnConnectionStatus::Authenticating => "Authenticating..."@,
        VpnConnectionStatus::Connected => "Connected"@,
        VpnConnectionStatus::Disconnecting => "Disconnecting..."@,
        VpnConnectionStatus::Reconnecting => "Reconnecting..."@,
        VpnConnectionStatus::Error => "Error"@,
    }
}

/// The statuses in which a connection is being set up or torn down.
pub open spec fn is_transition(s: VpnConnectionStatus) -> bool {
    s == VpnConnectionStatus::Connecting || s == VpnConnectionStatus::Authenticating
        || s == VpnConnectionStatus::Disconnecting || s == VpnConnectionStatus::Reconnecting
}

/// The large status text of the connection card.
pub open spec fn card_label_text(s: VpnConnectionStatus) -> Seq<char> {
    match s {
        VpnConnectionStatus::Disconnected => "Disconnected"@,
        VpnConnectionStatus::Connecting | VpnConnectionStatus::Authenticating => "Connecting..."@,
        VpnConnectionStatus::Connected => "Protected"@,
        VpnConnectionStatus::Disconnecting | VpnConnectionStatus::Reconnecting => "Disconnecting..."@,
        VpnConnectionStatus::Error => "Connection Error"@,
    }
}

/// The button the connection card offers.
#[derive(Clone, Copy, Debug, PartialEq, Eq, Structural)]
pub enum CardAction {
    /// "Connect", usable only when a profile is active.
    Connect { enabled: bool },
    /// "Disconnect".
    Disconnect,
    /// A disabled "..." while the connection changes.
    Busy,
}

/// The button of the connection card for a status: connect when disconnected or failed
/// (enabled with an active profile), disconnect when connected, else a disabled one.
pub open spec fn card_action_of(s: VpnConnectionStatus, has_profile: bool) -> CardAction {
    match s {
        VpnConnectionStatus::Disconnected | VpnConnectionStatus::Error => CardAction::Connect { enabled: has_profile },
        VpnConnectionStatus::Connected => CardAction::Disconnect,
        _ => CardAction::Busy,
    }
}

impl VpnConnectionStatus {
    /// The large status text of the connection card.
    pub fn card_label(&self) -> (r: &'static str)
        ensures
            r@ == card_label_text(*self),
    {
        match self {
            VpnConnectionStatus::Disconnected => "Disconnected",
            VpnConnectionStatus::Connecting | VpnConnectionStatus::Authenticating => "Connecting...",
            VpnConnectionStatus::Connected => "Protected",
            VpnConnectionStatus::Disconnecting | VpnConnectionStatus::Reconnecting => "Disconnecting...",
            VpnConnectionStatus::Error => "Connection Error",
        }
    }

    /// The button of the connection card, given whether a profile is active.
    pub fn card_action(&self, has_profile: bool) -> (r: CardAction)
        ensures
            r == card_action_of(*self, has_profile),
    {
        match self {
            VpnConnectionStatus::Disconnected | VpnConnectionStatus::Error => CardAction::Connect { enabled: has_profile },
            VpnConnectionStatus::Connected => CardAction::Disconnect,
            _ => CardAction::Busy,
        }
    }

    /// Get a human-readable status string.
    pub fn as_str(&self) -> (r: &'static str)
        ensures
            r@ == status_text(*self),
    {
        match self {
            VpnConnectionStatus::Disconnected => "Disconnected",
            VpnConnectionStatus::Connecting => "Connecting...",
            VpnConnectionStatus::Authenticating => "Authenticating...",
            VpnConnectionStatus::Connected => "Connected",
            VpnConnectionStatus::Disconnecting => "Disconnecting...",
            VpnConnectionStatus::Reconnecting => "Reconnecting...",
            VpnConnectionStatus::Error => "Error",
        }
    }

    /// Check if currently connected.
    pub fn is_connected(&self) -> (r: bool)
        ensures
            r == (*self == VpnConnectionStatus::Connected),
    {
        match self {
            VpnConnectionStatus::Connected => true,
            _ => false,
        }
    }

    /// Check if in a transitional state.
    pub fn is_transitioning(&self) -> (r: bool)
        ensures
            r == is_transition(*self),
    {
        match self {
            VpnConnectionStatus::Connecting | VpnConnectionStatus::Authenticating
            | VpnConnectionStatus::Disconnecting | VpnConnectionStatus::Reconnecting => true,
            _ => false,
        }
    }
}

/// Authentication method of a client profile.
#[derive(Clone, Copy, Debug, PartialEq, Eq, Structural)]
pub enum AuthMethod {
    /// Username and password
    UsernamePassword,
    /// Certificate-based authentication
    Certificate,
    /// OAuth2/OIDC authentication
    OAuth2,
    /// SAML authentication
    Saml,
}

impl Default for AuthMethod {
    fn default() -> (r: Self)
        ensures
            r == AuthMethod::Certificate,
    {
        AuthMethod::Certificate
    }
}

/// The label of an authentication method.
pub open spec fn auth_label(m: AuthMethod) -> Seq<char> {
    match m {
        AuthMethod::UsernamePassword => "Username/Password"@,
        AuthMethod::Certificate => "Certificate"@,
        AuthMethod::OAuth2 => "OAuth2/SSO"@,
        AuthMethod::Saml => "SAML/SSO"@,
    }
}

impl AuthMethod {
    /// Check if this method requires a password input.
    pub fn requires_password(&self) -> (r: bool)
        ensures
            r == (*self == AuthMethod::UsernamePassword),
    {
        match self {
            AuthMethod::UsernamePassword => true,
            _ => false,
        }
    }

    /// Check if this is an SSO method.
    pub fn is_sso(&self) -> (r: bool)
        ensures
            r == (*self == AuthMethod::OAuth2 || *self == AuthMethod::Saml),
    {
        match self {
            AuthMethod::OAuth2 | AuthMethod::Saml => true,
            _ => false,
        }
    }

    /// Get a human-readable label.
    pub fn label(&self) -> (r: &'static str)
        ensures
            r@ == auth_label(*self),
    {
        match self {
            AuthMethod::UsernamePassword => "Username/Password",
            AuthMethod::Certificate => "Certificate",
            AuthMethod::OAuth2 => "OAuth2/SSO",
            AuthMethod::Saml => "SAML/SSO",
        }
    }
}

/// Connection statistics.
#[derive(Clone, Copy, Debug, PartialEq, Eq, Structural)]
pub struct ConnectionStats {
    /// Bytes received
    pub bytes_rx: u64,
    /// Bytes transmitted
    pub bytes_tx: u64,
    /// Current download speed (bytes/sec)
    pub speed_rx: u64,
    /// Current upload speed (bytes/sec)
    pub speed_tx: u64,
    /// Connection duration in seconds
    pub duration_secs: u64,
}

impl Default for ConnectionStats {
    fn default() -> (r: Self)
        ensures
            r == (ConnectionStats { bytes_rx: 0, bytes_tx: 0, speed_rx: 0, speed_tx: 0, duration_secs: 0 }),
    {
        ConnectionStats { bytes_rx: 0, bytes_tx: 0, speed_rx: 0, speed_tx: 0, duration_secs: 0 }
    }
}

/// At least two decimal digits (`{:02}`).
pub open spec fn two_digits(n: nat) -> Seq<char> {
    if n < 10 { seq!['0'] + decimal(n) } else { decimal(n) }
}

fn write_two_digits(out: &mut String, n: u64)
    ensures
        final(out)@ == old(out)@ + two_digits(n as nat),
{
    if n < 10 {
        crate::text::push_char(out, '0');
        write_decimal(out, n);
        assert(out@ =~= old(out)@ + two_digits(n as nat));
    } else {
        write_decimal(out, n);
    }
}

/// A duration as `HH:MM:SS`, or `MM:SS` under an hour.
pub open spec fn duration_text(secs: u64) -> Seq<char> {
    let h = secs / 3600;
    let m = (secs % 3600) / 60;
    let s = secs % 60;
    if h > 0 {
        two_digits(h as nat) + ":"@ + two_digits(m as nat) + ":"@ + two_digits(s as nat)
    } else {
        two_digits(m as nat) + ":"@ + two_digits(s as nat)
    }
}

impl ConnectionStats {
    /// Format duration for display.
    pub fn format_duration(secs: u64) -> (r: String)
        ensures
            r@ == duration_text(secs),
    {
        let hours = secs / 3600;
        let minutes = (secs % 3600) / 60;
        let seconds = secs % 60;
        let mut r = String::new();
        if hours > 0 {
            write_two_digits(&mut r, hours);
            push_str(&mut r, ":");
        }
        write_two_digits(&mut r, minutes);
        push_str(&mut r, ":");
        write_two_digits(&mut r, seconds);
        assert(r@ =~= duration_text(secs));
        r
    }
}

/// `num / den` rounded to the nearest integer, ties to the even one.
pub open spec fn round_half_even_div(num: nat, den: nat) -> nat {
    let q = num / den;
    let rem = num % den;
    if 2 * rem > den || (2 * rem == den && q % 2 == 1) {
        q + 1
    } else {
        q
    }
}

/// Two to the power `e`.
pub open spec fn two_pow(e: nat) -> nat
    decreases e,
{
    if e == 0 {
        1
    } else {
        2 * two_pow((e - 1) as nat)
    }
}

/// How many low bits of `n` a double cannot hold: none below 2^53, one more per doubling.
pub open spec fn ulp_shift(n: nat) -> nat
    decreases n,
{
    if n < 0x20_0000_0000_0000 {
        0
    } else {
        1 + ulp_shift(n / 2)
    }
}

/// The value of `n as f64` for an unsigned integer: `n` itself below 2^53, otherwise the
/// nearest multiple of the spacing of doubles there, ties to the even multiple.
pub open spec fn f64_of(n: nat) -> nat {
    let u = two_pow(ulp_shift(n));
    round_half_even_div(n, u) * u
}

/// The digits after the decimal point: one, or two with a leading zero.
pub open spec fn frac_text(f: nat, places: nat) -> Seq<char> {
    if places == 2 && f < 10 {
        "0"@ + decimal(f)
    } else {
        decimal(f)
    }
}

/// `value / den` written with one or two decimal places, as `{:.1}` and `{:.2}` write the
/// exact quotient: rounded to the nearest, ties to the even last digit.
pub open spec fn fixed_text(value: nat, den: nat, places: nat) -> Seq<char> {
    let scale: nat = if places == 2 {
        100
    } else {
        10
    };
    let r = round_half_even_div(value * scale, den);
    decimal(r / scale) + "."@ + frac_text(r % scale, places)
}

/// A byte count for display: bytes below a KiB, KB with one decimal below a MiB, MB with
/// two below a GiB, and GB with two above (units of 1024).
pub open spec fn bytes_text(bytes: u64) -> Seq<char> {
    if bytes >= 0x4000_0000 {
        fixed_text(f64_of(bytes as nat), 0x4000_0000, 2) + " GB"@
    } else if bytes >= 0x10_0000 {
        fixed_text(f64_of(bytes as nat), 0x10_0000, 2) + " MB"@
    } else if bytes >= 0x400 {
        fixed_text(f64_of(bytes as nat), 0x400, 1) + " KB"@
    } else {
        decimal(bytes as nat) + " B"@
    }
}

/// A transfer speed for display: bytes per second below a KiB, KB/s with one decimal below
/// a MiB, MB/s with one decimal above.
pub open spec fn speed_text(bytes_per_sec: u64) -> Seq<char> {
    if bytes_per_sec >= 0x10_0000 {
        fixed_text(f64_of(bytes_per_sec as nat), 0x10_0000, 1) + " MB/s"@
    } else if bytes_per_sec >= 0x400 {
        fixed_text(f64_of(bytes_per_sec as nat), 0x400, 1) + " KB/s"@
    } else {
        decimal(bytes_per_sec as nat) + " B/s"@
    }
}

pub(crate) fn div_round_half_even(num: u128, den: u128) -> (r: u128)
    requires
        den > 0,
    ensures
        r == round_half_even_div(num as nat, den as nat),
        r <= num / den + 1,
{
    let q = num / den;
    let rem = num % den;
    assert(rem < den);
    if rem > den - rem || (rem == den - rem && q % 2 == 1) {
        assert(q < num) by {
            broadcast use vstd::arithmetic::div_mod::lemma_fundamental_div_mod;
            assert(num == den * q + rem);
            assert(den * q >= q) by (nonlinear_arith)
                requires den >= 1, q >= 0;
        }
        q + 1
    } else {
        q
    }
}

/// The value of `n as f64`, exactly, as an integer.
pub(crate) fn f64_value(n: u64) -> (r: u128)
    ensures
        r == f64_of(n as nat),
        r <= 0x2_0000_0000_0000_0000,
{
    let mut m: u64 = n;
    let mut u: u128 = 1;
    let ghost mut e: nat = 0;
    while m >= 0x20_0000_0000_0000
        invariant
            ulp_shift(n as nat) == e + ulp_shift(m as nat),
            u == two_pow(e),
            u >= 1,
            u * m <= n,
            n > 0 ==> m >= 1,
            n == 0 ==> u == 1,
        decreases m,
    {
        assert(u * 2 * (m / 2) <= u * m) by (nonlinear_arith)
            requires u >= 1;
        assert(u <= n) by (nonlinear_arith)
            requires u * m <= n, m >= 1;
        m = m / 2;
        u = u * 2;
        proof {
            e = e + 1;
        }
    }
    if n > 0 {
        assert(u <= n) by (nonlinear_arith)
            requires u * m <= n, m >= 1;
    }
    let q = div_round_half_even(n as u128, u);
    assert(q * u <= (n as u128) + u) by (nonlinear_arith)
        requires q <= (n as u128) / u + 1, u >= 1;
    q * u
}

/// Writes `value / den` with one or two decimal places.
pub(crate) fn write_fixed(out: &mut String, value: u128, den: u128, places: u32)
    requires
        value <= 0x2_0000_0000_0000_0000,
        den >= 0x400,
        places == 1 || places == 2,
    ensures
        final(out)@ == old(out)@ + fixed_text(value as nat, den as nat, places as nat),
{
    let scale: u128 = if places == 2 { 100 } else { 10 };
    let num = value * scale;
    let r = div_round_half_even(num, den);
    assert(num / den <= num / 0x400) by (nonlinear_arith)
        requires den >= 0x400, num >= 0;
    let whole = r / scale;
    let frac = r % scale;
    write_decimal(out, whole as u64);
    push_str(out, ".");
    if places == 2 && frac < 10 {
        push_str(out, "0");
    }
    write_decimal(out, frac as u64);
    assert(out@ =~= old(out)@ + fixed_text(value as nat, den as nat, places as nat));
}

impl ConnectionStats {
    /// Format bytes for display.
    pub fn format_bytes(bytes: u64) -> (r: String)
        ensures
            r@ == bytes_text(bytes),
    {
        let mut r = String::new();
        if bytes >= 0x4000_0000 {
            write_fixed(&mut r, f64_value(bytes), 0x4000_0000, 2);
            push_str(&mut r, " GB");
        } else if bytes >= 0x10_0000 {
            write_fixed(&mut r, f64_value(bytes), 0x10_0000, 2);
            push_str(&mut r, " MB");
        } else if bytes >= 0x400 {
            write_fixed(&mut r, f64_value(bytes), 0x400, 1);
            push_str(&mut r, " KB");
        } else {
            write_decimal(&mut r, bytes);
            push_str(&mut r, " B");
        }
        assert(r@ =~= bytes_text(bytes));
        r
    }

    /// Format speed for display.
    pub fn format_speed(bytes_per_sec: u64) -> (r: String)
        ensures
            r@ == speed_text(bytes_per_sec),
    {
        let mut r = String::new();
        if bytes_per_sec >= 0x10_0000 {
            write_fixed(&mut r, f64_value(bytes_per_sec), 0x10_0000, 1);
            push_str(&mut r, " MB/s");
        } else if bytes_per_sec >= 0x400 {
            write_fixed(&mut r, f64_value(bytes_per_sec), 0x400, 1);
            push_str(&mut r, " KB/s");
        } else {
            write_decimal(&mut r, bytes_per_sec);
            push_str(&mut r, " B/s");
        }
        assert(r@ =~= speed_text(bytes_per_sec));
        r
    }
}

} // verus!
