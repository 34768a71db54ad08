//! CoreVPN server and desktop-client logic with machine-checked contracts.

pub mod audit_events;
pub mod audit_formats;
pub mod audit_logger;
pub mod anonymizer;
pub mod client_backend;
pub mod client_config;
pub mod client_state;
pub mod client_types;
pub mod clock;
pub mod conn_log;
pub mod conn_rows;
pub mod codec;
pub mod conn_events;
pub mod digest;
pub mod ids;
pub mod negotiation;
pub mod oauth;
pub mod sessions;
pub mod setup_plan;
pub mod sinks;
pub mod system;
pub mod templates;
pub mod text;
pub mod webui;
