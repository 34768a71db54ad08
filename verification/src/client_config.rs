//! Configuration sections of the desktop client and their defaults. Window geometry (which
//! uses floating point) and loading/saving files are handled by the application.

use vstd::prelude::*;
use crate::text::push_str;

verus! {

/// Theme configuration.
#[derive(Clone, Debug)]
pub struct ThemeConfig {
    /// Theme mode: "light", "dark", or "system"
    pub mode: String,
    /// Accent color (hex)
    pub accent_color: Option<String>,
}

impl Default for ThemeConfig {
    fn default() -> (r: Self)
        ensures
            r.mode@ == "system"@,
            r.accent_color is None,
    {
        ThemeConfig { mode: "system".to_owned(), accent_color: None }
    }
}

/// Connection configuration.
#[derive(Clone, Copy, Debug, PartialEq, Eq, Structural)]
pub struct ConnectionConfig {
    /// Auto-connect on startup
    pub auto_connect: bool,
    /// Reconnect on disconnect
    pub auto_reconnect: bool,
    /// Maximum reconnection attempts
    pub max_reconnect_attempts: u32,
    /// Reconnection delay (seconds)
    pub reconnect_delay_secs: u32,
    /// Kill switch (block traffic when VPN disconnects)
    pub kill_switch: bool,
    /// Allow LAN access when connected
    pub allow_lan: bool,
    /// DNS leak protection
    pub dns_leak_protection: bool,
}

impl Default for ConnectionConfig {
    fn default() -> (r: Self)
        ensures
            r == (ConnectionConfig {
                auto_connect: false,
                auto_reconnect: true,
                max_reconnect_attempts: 3,
                reconnect_delay_secs: 5,
                kill_switch: false,
                allow_lan: true,
                dns_leak_protection: true,
            }),
    {
        ConnectionConfig {
            auto_connect: false,
            auto_reconnect: true,
            max_reconnect_attempts: 3,
            reconnect_delay_secs: 5,
            kill_switch: false,
            allow_lan: true,
            dns_leak_protection: true,
        }
    }
}

/// SSO provider configuration.
#[derive(Clone, Debug)]
pub struct SsoProviderConfig {
    /// Provider type
    pub provider_type: String,
    /// Display name
    pub name: String,
    /// Enabled
    pub enabled: bool,
    /// Client ID (if needed for public clients)
    pub client_id: Option<String>,
    /// Issuer URL
    pub issuer_url: Option<String>,
}

/// Authentication configuration.
#[derive(Clone, Debug)]
pub struct AuthConfig {
    /// Default authentication method
    pub default_method: String,
    /// Remember credentials
    pub remember_credentials: bool,
    /// OAuth2 callback port (for localhost redirect)
    pub oauth_callback_port: u16,
    /// SSO providers configuration
    pub sso_providers: Vec<SsoProviderConfig>,
}

/// Whether a provider entry is the given enabled provider without a client id.
pub open spec fn provider_is(p: SsoProviderConfig, kind: Seq<char>, name: Seq<char>, issuer: Option<Seq<char>>) -> bool {
    &&& p.provider_type@ == kind
    &&& p.name@ == name
    &&& p.enabled
    &&& p.client_id is None
    &&& match (p.issuer_url, issuer) {
        (Some(a), Some(b)) => a@ == b,
        (None, None) => true,
        _ => false,
    }
}

impl Default for AuthConfig {
    fn default() -> (r: Self)
        ensures
            r.default_method@ == "oauth2"@,
            !r.remember_credentials,
            r.oauth_callback_port == 8400,
            r.sso_providers@.len() == 3,
            provider_is(r.sso_providers@[0], "google"@, "Google Workspace"@, Some("https://accounts.google.com"@)),
            provider_is(r.sso_providers@[1], "microsoft"@, "Microsoft Entra ID"@, None),
            provider_is(r.sso_providers@[2], "okta"@, "Okta"@, None),
    {
        let mut providers: Vec<SsoProviderConfig> = Vec::new();
        providers.push(SsoProviderConfig {
            provider_type: "google".to_owned(),
            name: "Google Workspace".to_owned(),
            enabled: true,
            client_id: None,
            issuer_url: Some("https://accounts.google.com".to_owned()),
        });
        providers.push(SsoProviderConfig {
            provider_type: "microsoft".to_owned(),
            name: "Microsoft Entra ID".to_owned(),
            enabled: true,
            client_id: None,
            issuer_url: None,
        });
        providers.push(SsoProviderConfig {
            provider_type: "okta".to_owned(),
            name: "Okta".to_owned(),
            enabled: true,
            client_id: None,
            issuer_url: None,
        });
        AuthConfig {
            default_method: "oauth2".to_owned(),
            remember_credentials: false,
            oauth_callback_port: 8400,
            sso_providers: providers,
        }
    }
}

/// Notification configuration.
#[derive(Clone, Copy, Debug, PartialEq, Eq, Structural)]
pub struct NotificationConfig {
    /// Show connection notifications
    pub connection_status: bool,
    /// Show error notifications
    pub errors: bool,
    /// Show update notifications
    pub updates: bool,
    /// Notification sound
    pub sound: bool,
}

impl Default for NotificationConfig {
    fn default() -> (r: Self)
        ensures
            r == (NotificationConfig { connection_status: true, errors: true, updates: true, sound: false }),
    {
        NotificationConfig { connection_status: true, errors: true, updates: true, sound: false }
    }
}

/// CLI overrides for configuration.
#[derive(Clone, Debug)]
pub struct CliOverrides {
    /// Theme override
    pub theme: Option<String>,
    /// Auto-connect override
    pub auto_connect: bool,
    /// Start minimized
    pub minimized: bool,
}

impl Default for CliOverrides {
    fn default() -> (r: Self)
        ensures
            r.theme is None,
            !r.auto_connect,
            !r.minimized,
    {
        CliOverrides { theme: None, auto_connect: false, minimized: false }
    }
}

impl CliOverrides {
    /// Merges the overrides into the configuration: a theme replaces the theme mode, and the
    /// flags switch auto-connect and start-minimized on (never off).
    pub fn apply(&self, theme: &mut ThemeConfig, connection: &mut ConnectionConfig, start_minimized: &mut bool)
        ensures
            final(theme).mode@ == match self.theme {
                Some(t) => t@,
                None => old(theme).mode@,
            },
            final(theme).accent_color == old(theme).accent_color,
            *final(connection) == (ConnectionConfig {
                auto_connect: old(connection).auto_connect || self.auto_connect,
                ..*old(connection)
            }),
            *final(start_minimized) == (*old(start_minimized) || self.minimized),
    {
        if let Some(t) = &self.theme {
            theme.mode = t.clone();
        }
        if self.auto_connect {
            connection.auto_connect = true;
        }
        if self.minimized {
            *start_minimized = true;
        }
    }
}

/// Configuration error.
#[derive(Clone, Debug)]
pub enum ConfigError {
    /// IO error
    IoError(String),
    /// Parse error
    ParseError(String),
    /// Serialization error
    SerializeError(String),
}

/// The message of a configuration error.
pub open spec fn config_error_text(e: ConfigError) -> Seq<char> {
    match e {
        ConfigError::IoError(m) => "IO error: "@ + m@,
        ConfigError::ParseError(m) => "Parse error: "@ + m@,
        ConfigError::SerializeError(m) => "Serialization error: "@ + m@,
    }
}

impl ConfigError {
    /// The error's message.
    pub fn message(&self) -> (r: String)
        ensures
            r@ == config_error_text(*self),
    {
        match self {
            ConfigError::IoError(m) => {
                let mut r = "IO error: ".to_owned();
                push_str(&mut r, m.as_str());
                r
            },
            ConfigError::ParseError(m) => {
                let mut r = "Parse error: ".to_owned();
                push_str(&mut r, m.as_str());
                r
            },
            ConfigError::SerializeError(m) => {
                let mut r = "Serialization error: ".to_owned();
                push_str(&mut r, m.as_str());
                r
            },
        }
    }
}

} // verus!
