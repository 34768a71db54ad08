# corevpn

The decision logic of the CoreVPN server and desktop client, written in Verus: every
function carries a `requires`/`ensures` contract over mathematical models (sequences,
strings as `Seq<char>`, integers), and the cross-function properties are proved as `law_*`
proof functions.

## Layout

- `src/` — the verified library.
  - Audit logging: `audit_events` (events and their builders), `audit_formats` (CEF,
    LEEF and syslog text; the fields around JSON forms), `audit_logger` (configuration and
    the event queue), `sinks/` (batching, addressing and request bodies of each sink).
  - Connection logging: `conn_events`, `anonymizer` (keyed hashing, truncation,
    rounding, bucketing), `conn_log` (file and database logger bookkeeping, rotation plans,
    secure-deletion passes, logger choice and ghost mode), `conn_rows` (the database row of
    an event and back).
  - VPN server: `sessions` (session table, OAuth hand-off, packet decisions),
    `negotiation` (cipher negotiation, push replies, netmasks), `oauth` (authorization URLs
    and the completion decision), `setup_plan` (setup wizard and diagnosis decisions).
  - Admin web interface: `webui` (Basic authentication, CSRF tokens, sanitizing, request
    checks) and `templates` (HTML pages).
  - Desktop client: `client_types`, `client_state`, `client_config`, `client_backend`.
  - Shared text, time, digest and identifier helpers: `text`, `clock`, `digest`, `codec`,
    `ids`.
  Calls into outside crates (chrono, sha2, hmac, base64, serde_json, urlencoding, uuid,
  rand, subtle, ipnet, hostname, zeroize) sit behind small trusted wrappers whose contracts
  say what those crates document.
- `tests/` — tests of the compiled library, including comparisons of the integer-only
  number formatting with the standard library's float formatting.
- `app/` — a command-line front end: configuration files (TOML), JSON rendering of audit
  events (serde), and the file work of log rotation.
