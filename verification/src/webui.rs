//! Admin web interface logic: HTTP Basic authentication, CSRF tokens, uptime text, input
//! sanitizing and error answers. The HTTP server and its middleware plumbing call into this.

use vstd::prelude::*;
use vstd::utf8::{decode_utf8, encode_utf8, encode_utf8_decode_utf8, valid_utf8};
use crate::codec::{base64_decode, base64_decoded};
use crate::text::{
    chars_of, decimal, has_prefix, hex_lower, push_char, push_str, split_at_char, split_char, starts_with,
    str_eq, string_from_chars, utf8_len, views, write_decimal, write_hex,
};
use crate::client_types::{f64_of, f64_value, fixed_text, write_fixed};

verus! {

/// `subtle::ConstantTimeEq::ct_eq` on byte slices, converted to `bool`: whether the slices are
/// equal (slices of different lengths compare unequal), compared in constant time.
#[verifier::external_body]
pub(crate) fn ct_eq_bytes(a: &[u8], b: &[u8]) -> (r: bool)
    ensures
        r == (a@ == b@),
{
    subtle::ConstantTimeEq::ct_eq(a, b).into()
}

/// Constant-time string comparison to prevent timing attacks.
pub fn constant_time_eq(a: &str, b: &str) -> (r: bool)
    ensures
        r == (a@ == b@),
{
    proof {
        encode_utf8_decode_utf8(a@);
        encode_utf8_decode_utf8(b@);
    }
    if a.len() != b.len() {
        return false;
    }
    ct_eq_bytes(a.as_bytes(), b.as_bytes())
}

/// `String::from_utf8`: the text the bytes encode, or `None` when they are not valid UTF-8.
#[verifier::external_body]
pub(crate) fn string_from_utf8(bytes: Vec<u8>) -> (r: Option<String>)
    ensures
        match r {
            Some(s) => valid_utf8(bytes@) && s@ == decode_utf8(bytes@),
            None => !valid_utf8(bytes@),
        },
{
    String::from_utf8(bytes).ok()
}

/// Default admin username.
pub open spec fn admin_username() -> Seq<char> {
    "admin"@
}

/// The outcome of checking a request's credentials.
#[derive(Clone, Copy, Debug, PartialEq, Eq, Structural)]
pub enum BasicAuthOutcome {
    /// No admin password is configured: every request is refused with an explanation.
    NotConfigured,
    /// Missing or wrong credentials.
    Unauthorized,
    /// The admin's credentials.
    Authorized,
}

/// The user name and password of `user:password` credentials (split at the first colon; no
/// colon means an empty password).
pub open spec fn credential_parts(c: Seq<char>) -> (Seq<char>, Seq<char>) {
    let pieces = split_char(c, ':');
    if pieces.len() <= 1 {
        (c, seq![])
    } else {
        (pieces[0], c.skip(pieces[0].len() + 1int))
    }
}

/// The outcome for decoded credentials: authorized when they are UTF-8 `admin:<password>`
/// with the expected password.
pub open spec fn decoded_credentials_outcome(expected: Seq<char>, bytes: Seq<u8>) -> BasicAuthOutcome {
    if valid_utf8(bytes) && credential_parts(decode_utf8(bytes)).0 == admin_username()
        && credential_parts(decode_utf8(bytes)).1 == expected {
        BasicAuthOutcome::Authorized
    } else {
        BasicAuthOutcome::Unauthorized
    }
}

/// The outcome of a credentials check: refused when no password is configured; authorized
/// when the header is `Basic ` followed by the base64 of UTF-8 `admin:<password>`.
pub open spec fn basic_auth_outcome(expected: Option<Seq<char>>, header: Option<Seq<char>>) -> BasicAuthOutcome {
    match expected {
        None => BasicAuthOutcome::NotConfigured,
        Some(p) => if p.len() == 0 {
            BasicAuthOutcome::NotConfigured
        } else {
            match header {
                Some(h) => if has_prefix(h, "Basic "@) {
                    match base64_decoded(encode_utf8(h.skip(6))) {
                        Some(bytes) => decoded_credentials_outcome(p, bytes),
                        None => BasicAuthOutcome::Unauthorized,
                    }
                } else {
                    BasicAuthOutcome::Unauthorized
                },
                None => BasicAuthOutcome::Unauthorized,
            }
        },
    }
}

fn split_credentials(c: &str) -> (r: (String, String))
    ensures
        r.0@ == credential_parts(c@).0,
        r.1@ == credential_parts(c@).1,
{
    let pieces = split_at_char(c, ':');
    if pieces.len() <= 1 {
        proof {
            reveal_strlit("");
        }
        return (c.to_owned(), String::new());
    }
    let user = pieces[0].clone();
    let a = chars_of(c);
    proof {
        assert(views(pieces@)[0] == pieces@[0]@);
        lemma_first_piece_bound(c@, ':');
    }
    let skip = crate::text::slice_from(&a, user_len(&user) + 1);
    (user, string_from_chars(skip.as_slice()))
}

fn user_len(s: &String) -> (r: usize)
    ensures
        r == s@.len(),
{
    chars_of(s.as_str()).len()
}

proof fn lemma_first_piece_bound(s: Seq<char>, sep: char)
    ensures
        split_char(s, sep).len() >= 1,
        split_char(s, sep)[0].len() <= s.len(),
        split_char(s, sep).len() > 1 ==> split_char(s, sep)[0].len() + 1 <= s.len(),
    decreases s.len(),
{
    crate::text::lemma_split_char_nonempty_pub(s, sep);
    if s.len() > 0 {
        lemma_first_piece_bound(s.drop_last(), sep);
    }
}

/// HTTP Basic authentication of the admin interface.
pub fn check_basic_auth(expected: Option<&str>, header: Option<&str>) -> (r: BasicAuthOutcome)
    ensures
        r == basic_auth_outcome(
            match expected {
                Some(p) => Some(p@),
                None => None,
            },
            match header {
                Some(h) => Some(h@),
                None => None,
            },
        ),
{
    let p = match expected {
        None => return BasicAuthOutcome::NotConfigured,
        Some(p) => p,
    };
    if crate::text::str_is_empty(p) {
        return BasicAuthOutcome::NotConfigured;
    }
    let h = match header {
        None => return BasicAuthOutcome::Unauthorized,
        Some(h) => h,
    };
    if !starts_with(h, "Basic ") {
        return BasicAuthOutcome::Unauthorized;
    }
    proof {
        reveal_strlit("Basic ");
    }
    let a = chars_of(h);
    let rest = string_from_chars(crate::text::slice_from(&a, 6).as_slice());
    let decoded = match base64_decode(rest.as_str().as_bytes()) {
        None => return BasicAuthOutcome::Unauthorized,
        Some(d) => d,
    };
    check_decoded_credentials(p, decoded)
}

/// Checks base64-decoded `user:password` credentials against the expected password.
pub fn check_decoded_credentials(expected: &str, decoded: Vec<u8>) -> (r: BasicAuthOutcome)
    ensures
        r == decoded_credentials_outcome(expected@, decoded@),
{
    let credentials = match string_from_utf8(decoded) {
        None => return BasicAuthOutcome::Unauthorized,
        Some(c) => c,
    };
    let (user, pass) = split_credentials(credentials.as_str());
    if str_eq(user.as_str(), "admin") && constant_time_eq(pass.as_str(), expected) {
        BasicAuthOutcome::Authorized
    } else {
        BasicAuthOutcome::Unauthorized
    }
}

/// The body of a refusal: the given explanation, or the default request for credentials.
pub fn unauthorized_body(message: Option<&str>) -> (r: String)
    ensures
        r@ == match message {
            Some(m) => m@,
            None => "Unauthorized. Please provide valid credentials."@,
        },
{
    match message {
        Some(m) => m.to_owned(),
        None => "Unauthorized. Please provide valid credentials.".to_owned(),
    }
}

/// The explanation sent when no admin password is configured.
pub fn not_configured_message() -> (r: &'static str)
    ensures
        r@ == "Admin password not configured. Set COREVPN_ADMIN_PASSWORD environment variable."@,
{
    "Admin password not configured. Set COREVPN_ADMIN_PASSWORD environment variable."
}

/// The `WWW-Authenticate` challenge of a refusal.
pub fn auth_challenge() -> (r: &'static str)
    ensures
        r@ == "Basic realm=\"CoreVPN Admin\", charset=\"UTF-8\""@,
{
    "Basic realm=\"CoreVPN Admin\", charset=\"UTF-8\""
}

/// Whether a character is an ASCII letter or digit.
pub open spec fn is_ascii_alnum(c: char) -> bool {
    ('0' <= c && c <= '9') || ('A' <= c && c <= 'Z') || ('a' <= c && c <= 'z')
}

/// `rand`'s `Alphanumeric` distribution sampled `n` times from the thread-local generator:
/// `n` characters, each an ASCII letter or digit.
#[verifier::external_body]
fn random_alphanumeric(n: usize) -> (r: String)
    ensures
        r@.len() == n,
        forall|i: int| 0 <= i < n ==> is_ascii_alnum(#[trigger] r@[i]),
{
    rand::Rng::sample_iter(rand::thread_rng(), &rand::distributions::Alphanumeric).take(n).map(char::from).collect()
}

/// How long a CSRF token stays valid: one hour.
pub const CSRF_TOKEN_LIFETIME_MS: u64 = 3_600_000;

/// A CSRF token issued to a session, valid until `expires_ms`.
#[derive(Clone, Debug)]
pub struct CsrfEntry {
    pub session: String,
    pub token: String,
    pub expires_ms: u64,
}

/// No session occurs twice.
pub open spec fn sessions_unique(s: Seq<CsrfEntry>) -> bool {
    forall|i: int, j: int| 0 <= i < j < s.len() ==> s[i].session@ != s[j].session@
}

/// Whether the entries hold, for the session, this token, still valid at `now_ms`.
pub open spec fn csrf_accepts(s: Seq<CsrfEntry>, session: Seq<char>, token: Seq<char>, now_ms: u64) -> bool {
    exists|i: int|
        0 <= i < s.len() && #[trigger] s[i].session@ == session && s[i].token@ == token && s[i].expires_ms > now_ms
}

/// Tokens still valid at `now_ms`.
pub open spec fn live_pred(now_ms: u64) -> spec_fn(CsrfEntry) -> bool {
    |e: CsrfEntry| e.expires_ms > now_ms
}

/// CSRF token store: at most one token per session, each with its expiry. The tokens are kept
/// in a vector whose invariant is that no session occurs twice: for a `String` key, vstd's
/// specification of `HashMap` gives no proof of what a lookup returns.
pub struct CsrfStore {
    tokens: Vec<CsrfEntry>,
}

impl CsrfStore {
    /// The stored tokens.
    pub closed spec fn view(&self) -> Seq<CsrfEntry> {
        self.tokens@
    }

    /// One token per session.
    pub closed spec fn wf(&self) -> bool {
        sessions_unique(self.tokens@)
    }

    /// An empty store.
    pub fn new() -> (r: Self)
        ensures
            r.wf(),
            r.view().len() == 0,
    {
        CsrfStore { tokens: Vec::new() }
    }

    fn position(&self, session: &str) -> (r: Option<usize>)
        ensures
            match r {
                Some(i) => i < self.view().len() && self.view()[i as int].session@ == session@,
                None => forall|j: int| 0 <= j < self.view().len() ==> self.view()[j].session@ != session@,
            },
    {
        let mut i: usize = 0;
        while i < self.tokens.len()
            invariant
                i <= self.tokens@.len(),
                forall|j: int| 0 <= j < i ==> self.tokens@[j].session@ != session@,
            decreases self.tokens@.len() - i,
        {
            if str_eq(self.tokens[i].session.as_str(), session) {
                return Some(i);
            }
            i = i + 1;
        }
        None
    }

    /// Drops the tokens that expired at `now_ms`.
    pub fn cleanup_expired(&mut self, now_ms: u64)
        requires
            old(self).wf(),
        ensures
            final(self).wf(),
            final(self).view() == old(self).view().filter(live_pred(now_ms)),
    {
        let ghost before = self.tokens@;
        let ghost live = live_pred(now_ms);
        let mut kept: Vec<CsrfEntry> = Vec::new();
        let mut i: usize = 0;
        while i < self.tokens.len()
            invariant
                self.tokens@ == before,
                live == live_pred(now_ms),
                sessions_unique(before),
                i <= before.len(),
                kept@ == before.subrange(0, i as int).filter(live),
                forall|a: int| 0 <= a < kept@.len() ==> exists|j: int| 0 <= j < i && #[trigger] kept@[a] == before[j],
                sessions_unique(kept@),
            decreases before.len() - i,
        {
            proof {
                reveal(Seq::filter);
                let next = before.subrange(0, i + 1);
                assert(next.drop_last() =~= before.subrange(0, i as int));
                assert(next.last() == before[i as int]);
                assert(next.filter(live) == (if live(next.last()) {
                    next.drop_last().filter(live).push(next.last())
                } else {
                    next.drop_last().filter(live)
                }));
            }
            let e = &self.tokens[i];
            if e.expires_ms > now_ms {
                let ghost k0 = kept@;
                let copy = CsrfEntry { session: e.session.clone(), token: e.token.clone(), expires_ms: e.expires_ms };
                assert(copy == before[i as int]);
                kept.push(copy);
                proof {
                    assert forall|a: int, b: int| 0 <= a < b < kept@.len() implies kept@[a].session@ != kept@[b].session@ by {
                        if b == k0.len() {
                            let j = choose|j: int| 0 <= j < i && kept@[a] == before[j];
                            assert(before[j].session@ != before[i as int].session@);
                        } else {
                            assert(kept@[a] == k0[a] && kept@[b] == k0[b]);
                        }
                    }
                    assert forall|a: int| 0 <= a < kept@.len() implies exists|j: int| 0 <= j < i + 1 && #[trigger] kept@[a] == before[j] by {
                        if a == k0.len() {
                            assert(kept@[a] == before[i as int]);
                        } else {
                            assert(kept@[a] == k0[a]);
                        }
                    }
                }
            }
            i = i + 1;
        }
        assert(before.subrange(0, before.len() as int) =~= before);
        self.tokens = kept;
    }

    /// Stores the token of a session, replacing an earlier one.
    fn put(&mut self, entry: CsrfEntry)
        requires
            old(self).wf(),
        ensures
            final(self).wf(),
            exists|i: int| 0 <= i < final(self).view().len() && final(self).view()[i] == entry,
            forall|i: int| 0 <= i < final(self).view().len() && #[trigger] final(self).view()[i].session@ != entry.session@
                ==> exists|j: int| 0 <= j < old(self).view().len() && final(self).view()[i] == old(self).view()[j],
            forall|j: int| 0 <= j < old(self).view().len() && #[trigger] old(self).view()[j].session@ != entry.session@
                ==> exists|i: int| 0 <= i < final(self).view().len() && final(self).view()[i] == old(self).view()[j],
    {
        let ghost before = self.tokens@;
        match self.position(entry.session.as_str()) {
            Some(i) => {
                self.tokens.set(i, entry);
                proof {
                    assert(self.view()[i as int] == entry);
                    assert forall|k: int| 0 <= k < self.tokens@.len() && #[trigger] self.tokens@[k].session@ != entry.session@
                        implies exists|j: int| 0 <= j < before.len() && self.tokens@[k] == before[j] by {
                        assert(self.tokens@[k] == before[k]);
                    }
                    assert forall|j: int| 0 <= j < before.len() && #[trigger] before[j].session@ != entry.session@
                        implies exists|k: int| 0 <= k < self.tokens@.len() && self.tokens@[k] == before[j] by {
                        assert(self.tokens@[j] == before[j]);
                    }
                }
            },
            None => {
                self.tokens.push(entry);
                proof {
                    let n = before.len() as int;
                    assert(self.view()[n] == entry);
                    assert forall|k: int| 0 <= k < self.tokens@.len() && #[trigger] self.tokens@[k].session@ != entry.session@
                        implies exists|j: int| 0 <= j < before.len() && self.tokens@[k] == before[j] by {
                        assert(self.tokens@[k] == before[k]);
                    }
                    assert forall|j: int| 0 <= j < before.len() && #[trigger] before[j].session@ != entry.session@
                        implies exists|k: int| 0 <= k < self.tokens@.len() && self.tokens@[k] == before[j] by {
                        assert(self.tokens@[j] == before[j]);
                    }
                }
            },
        }
    }
}

/// The store after a token was issued to a session at `now_ms`: the session holds exactly
/// the new token, valid for one hour; every other entry is an earlier entry still valid at
/// `now_ms`, and every such earlier entry of another session is kept.
pub open spec fn csrf_after_issue(before: Seq<CsrfEntry>, after: Seq<CsrfEntry>, session: Seq<char>, token: Seq<char>, now_ms: u64) -> bool {
    &&& exists|i: int| 0 <= i < after.len() && #[trigger] after[i].session@ == session
    &&& forall|i: int| 0 <= i < after.len() && #[trigger] after[i].session@ == session ==> after[i].token@ == token
        && after[i].expires_ms == now_ms + CSRF_TOKEN_LIFETIME_MS
    &&& forall|i: int| 0 <= i < after.len() && #[trigger] after[i].session@ != session ==> exists|j: int|
        0 <= j < before.len() && after[i] == before[j] && before[j].expires_ms > now_ms
    &&& forall|j: int| 0 <= j < before.len() && #[trigger] before[j].session@ != session && before[j].expires_ms > now_ms
        ==> exists|i: int| 0 <= i < after.len() && after[i] == before[j]
}

/// Issues a fresh token of 32 ASCII letters and digits for a session, valid for one hour,
/// replacing the session's earlier token; expired tokens are dropped.
pub fn generate_token(store: &mut CsrfStore, session_id: &str, now_ms: u64) -> (r: String)
    requires
        old(store).wf(),
        now_ms + CSRF_TOKEN_LIFETIME_MS <= u64::MAX,
    ensures
        final(store).wf(),
        r@.len() == 32,
        forall|i: int| 0 <= i < 32 ==> is_ascii_alnum(#[trigger] r@[i]),
        csrf_after_issue(old(store).view(), final(store).view(), session_id@, r@, now_ms),
{
    let token = random_alphanumeric(32);
    let entry = CsrfEntry {
        session: session_id.to_owned(),
        token: token.clone(),
        expires_ms: now_ms + CSRF_TOKEN_LIFETIME_MS,
    };
    let ghost e = entry;
    let ghost before = store.view();
    store.put(entry);
    let ghost mid = store.view();
    store.cleanup_expired(now_ms);
    proof {
        let live = live_pred(now_ms);
        let after = store.view();
        let i = choose|i: int| 0 <= i < mid.len() && mid[i] == e;
        mid.lemma_filter_contains(live, i);
        let k = choose|k: int| 0 <= k < after.len() && after[k] == mid[i];
        assert(after[k].session@ == session_id@);
        assert forall|a: int| 0 <= a < after.len() && #[trigger] after[a].session@ == session_id@ implies after[a].token@
            == token@ && after[a].expires_ms == now_ms + CSRF_TOKEN_LIFETIME_MS by {
            lemma_filter_from(mid, live, a);
            let j = choose|j: int| 0 <= j < mid.len() && after[a] == mid[j];
            if j != i {
                if j < i {
                    assert(mid[j].session@ != mid[i].session@);
                } else {
                    assert(mid[i].session@ != mid[j].session@);
                }
            }
        }
        assert forall|a: int| 0 <= a < after.len() && #[trigger] after[a].session@ != session_id@ implies exists|j: int|
            0 <= j < before.len() && after[a] == before[j] && before[j].expires_ms > now_ms by {
            lemma_filter_from(mid, live, a);
            mid.lemma_filter_pred(live, a);
            let j = choose|j: int| 0 <= j < mid.len() && after[a] == mid[j];
            assert(mid[j].session@ != e.session@);
            let b = choose|b: int| 0 <= b < before.len() && mid[j] == before[b];
            assert(after[a] == before[b] && before[b].expires_ms > now_ms);
        }
        assert forall|b: int| 0 <= b < before.len() && #[trigger] before[b].session@ != session_id@ && before[b].expires_ms
            > now_ms implies exists|a: int| 0 <= a < after.len() && after[a] == before[b] by {
            assert(before[b].session@ != e.session@);
            let m = choose|m: int| 0 <= m < mid.len() && mid[m] == before[b];
            mid.lemma_filter_contains(live, m);
        }
    }
    token
}

/// Validates a session's CSRF token (after dropping expired ones), comparing in constant time.
pub fn validate_token(store: &mut CsrfStore, session_id: &str, token: &str, now_ms: u64) -> (r: bool)
    requires
        old(store).wf(),
    ensures
        final(store).wf(),
        final(store).view() == old(store).view().filter(live_pred(now_ms)),
        r == csrf_accepts(old(store).view(), session_id@, token@, now_ms),
{
    let ghost before = store.view();
    store.cleanup_expired(now_ms);
    match store.position(session_id) {
        Some(i) => {
            let stored = &store.tokens[i];
            proof {
                encode_utf8_decode_utf8(stored.token@);
                encode_utf8_decode_utf8(token@);
            }
            let ok = ct_eq_bytes(stored.token.as_str().as_bytes(), token.as_bytes());
            proof {
                assert(store.view()[i as int] == store.tokens@[i as int]);
                let j = choose|j: int| 0 <= j < before.len() && store.view()[i as int] == before[j];
                before.lemma_filter_pred(live_pred(now_ms), i as int);
                lemma_filter_from(before, live_pred(now_ms), i as int);
                if csrf_accepts(before, session_id@, token@, now_ms) {
                    let k = choose|k: int| 0 <= k < before.len() && #[trigger] before[k].session@ == session_id@
                        && before[k].token@ == token@ && before[k].expires_ms > now_ms;
                    if k != j {
                        assert(sessions_unique(before));
                        if k < j {
                            assert(before[k].session@ != before[j].session@);
                        } else {
                            assert(before[j].session@ != before[k].session@);
                        }
                    }
                }
                if ok {
                    assert(before[j].session@ == session_id@ && before[j].token@ == token@ && before[j].expires_ms > now_ms);
                }
            }
            ok
        },
        None => {
            proof {
                if csrf_accepts(before, session_id@, token@, now_ms) {
                    let k = choose|k: int| 0 <= k < before.len() && #[trigger] before[k].session@ == session_id@
                        && before[k].token@ == token@ && before[k].expires_ms > now_ms;
                    before.lemma_filter_contains(live_pred(now_ms), k);
                    let a = choose|a: int| 0 <= a < store.view().len() && store.view()[a] == before[k];
                    assert(store.view()[a].session@ == session_id@);
                }
            }
            false
        },
    }
}

proof fn lemma_filter_from(s: Seq<CsrfEntry>, pred: spec_fn(CsrfEntry) -> bool, i: int)
    requires
        0 <= i < s.filter(pred).len(),
    ensures
        exists|j: int| 0 <= j < s.len() && s.filter(pred)[i] == s[j],
    decreases s.len(),
{
    reveal(Seq::filter);
    if s.len() > 0 {
        let sub = s.drop_last().filter(pred);
        if i < sub.len() {
            lemma_filter_from(s.drop_last(), pred, i);
            let j = choose|j: int| 0 <= j < s.drop_last().len() && sub[i] == s.drop_last()[j];
            assert(s.filter(pred)[i] == s[j]);
        } else {
            assert(s.filter(pred)[i] == s[s.len() - 1]);
        }
    }
}

/// A token issued at `issued_ms` is accepted for its session at any time before it expires.
pub proof fn law_issued_token_accepted(entries: Seq<CsrfEntry>, session: Seq<char>, token: Seq<char>, issued_ms: u64, now_ms: u64)
    requires
        exists|i: int|
            0 <= i < entries.len() && #[trigger] entries[i].session@ == session && entries[i].token@ == token
                && entries[i].expires_ms == issued_ms + CSRF_TOKEN_LIFETIME_MS,
        now_ms < issued_ms + CSRF_TOKEN_LIFETIME_MS,
    ensures
        csrf_accepts(entries, session, token, now_ms),
{
    let i = choose|i: int|
        0 <= i < entries.len() && #[trigger] entries[i].session@ == session && entries[i].token@ == token
            && entries[i].expires_ms == issued_ms + CSRF_TOKEN_LIFETIME_MS;
    assert(entries[i].session@ == session);
}

/// After a token was issued to a session, that session's earlier tokens are refused at any
/// time, and the new token is accepted until an hour after it was issued.
pub proof fn law_new_token_replaces_earlier(
    before: Seq<CsrfEntry>,
    after: Seq<CsrfEntry>,
    session: Seq<char>,
    token: Seq<char>,
    issued_ms: u64,
    earlier: Seq<char>,
    now_ms: u64,
)
    requires
        csrf_after_issue(before, after, session, token, issued_ms),
        earlier != token,
    ensures
        !csrf_accepts(after, session, earlier, now_ms),
        now_ms < issued_ms + CSRF_TOKEN_LIFETIME_MS ==> csrf_accepts(after, session, token, now_ms),
{
    if now_ms < issued_ms + CSRF_TOKEN_LIFETIME_MS {
        let i = choose|i: int| 0 <= i < after.len() && #[trigger] after[i].session@ == session;
        assert(after[i].session@ == session);
    }
}

/// The CSRF session identifier: derived from the hash of the request's authorization
/// header, or `default` without one.
pub open spec fn session_id_text(header_hash: Option<u64>) -> Seq<char> {
    match header_hash {
        Some(h) => "session_"@ + hex_lower(h as nat),
        None => "default"@,
    }
}

/// The CSRF session identifier of a request.
pub fn session_id(header_hash: Option<u64>) -> (r: String)
    ensures
        r@ == session_id_text(header_hash),
{
    match header_hash {
        Some(h) => {
            let mut r = "session_".to_owned();
            write_hex(&mut r, h);
            r
        },
        None => "default".to_owned(),
    }
}

/// The value of the first `csrf_token=` pair of a query string: the query split at `&`, each
/// pair split at `=`; a pair named `csrf_token` without `=` is skipped.
pub open spec fn query_csrf_token(pairs: Seq<Seq<char>>) -> Option<Seq<char>>
    decreases pairs.len(),
{
    if pairs.len() == 0 {
        None
    } else {
        let parts = split_char(pairs[0], '=');
        if parts[0] == "csrf_token"@ && parts.len() >= 2 {
            Some(parts[1])
        } else {
            query_csrf_token(pairs.drop_first())
        }
    }
}

/// The CSRF token passed in a query string.
pub fn csrf_token_from_query(query: &str) -> (r: Option<String>)
    ensures
        match r {
            Some(t) => query_csrf_token(split_char(query@, '&')) == Some(t@),
            None => query_csrf_token(split_char(query@, '&')) is None,
        },
{
    let pairs = split_at_char(query, '&');
    let ghost all = views(pairs@);
    let mut i: usize = 0;
    assert(all.skip(0) =~= all);
    while i < pairs.len()
        invariant
            i <= pairs@.len(),
            all == views(pairs@),
            all == split_char(query@, '&'),
            query_csrf_token(all.skip(i as int)) == query_csrf_token(all),
        decreases pairs@.len() - i,
    {
        let ghost rest = all.skip(i as int);
        assert(rest[0] == pairs@[i as int]@);
        let parts = split_at_char(pairs[i].as_str(), '=');
        proof {
            crate::text::lemma_split_char_nonempty_pub(pairs@[i as int]@, '=');
            assert(views(parts@)[0] == parts@[0]@);
        }
        if str_eq(parts[0].as_str(), "csrf_token") && parts.len() >= 2 {
            assert(views(parts@)[1] == parts@[1]@);
            return Some(parts[1].clone());
        }
        assert(rest.drop_first() =~= all.skip(i + 1));
        i = i + 1;
    }
    assert(all.skip(i as int).len() == 0);
    None
}

/// The answer of the CSRF check.
#[derive(Clone, Debug)]
pub enum CsrfDecision {
    /// Let the request through.
    Pass,
    /// Refuse it with 403 and this text.
    Forbidden(String),
}

/// The CSRF check of a request: only POST requests are checked; their token (from the
/// `x-csrf-token` header, else the query string) must be the session's valid token.
pub fn csrf_check(
    store: &mut CsrfStore,
    is_post: bool,
    session_id: &str,
    header_token: Option<&str>,
    query: Option<&str>,
    now_ms: u64,
) -> (r: CsrfDecision)
    requires
        old(store).wf(),
    ensures
        final(store).wf(),
        !is_post ==> r is Pass && final(store).view() == old(store).view(),
        is_post ==> ({
            let token: Option<Seq<char>> = match header_token {
                Some(t) => Some(t@),
                None => match query {
                    Some(q) => query_csrf_token(split_char(q@, '&')),
                    None => None,
                },
            };
            match token {
                None => r matches CsrfDecision::Forbidden(m) && m@ == "CSRF token required"@,
                Some(t) => if csrf_accepts(old(store).view(), session_id@, t, now_ms) {
                    r is Pass
                } else {
                    r matches CsrfDecision::Forbidden(m) && m@ == "Invalid CSRF token"@
                },
            }
        }),
{
    if !is_post {
        return CsrfDecision::Pass;
    }
    let token: Option<String> = match header_token {
        Some(t) => Some(t.to_owned()),
        None => match query {
            Some(q) => csrf_token_from_query(q),
            None => None,
        },
    };
    match token {
        Some(t) => {
            if validate_token(store, session_id, t.as_str(), now_ms) {
                CsrfDecision::Pass
            } else {
                CsrfDecision::Forbidden("Invalid CSRF token".to_owned())
            }
        },
        None => CsrfDecision::Forbidden("CSRF token required".to_owned()),
    }
}

/// Human-readable uptime: seconds, minutes and seconds, hours and minutes, or days and hours.
pub open spec fn uptime_text(secs: u64) -> Seq<char> {
    if secs < 60 {
        decimal(secs as nat) + "s"@
    } else if secs < 3600 {
        decimal((secs / 60) as nat) + "m "@ + decimal((secs % 60) as nat) + "s"@
    } else if secs < 86400 {
        decimal((secs / 3600) as nat) + "h "@ + decimal(((secs % 3600) / 60) as nat) + "m"@
    } else {
        decimal((secs / 86400) as nat) + "d "@ + decimal(((secs % 86400) / 3600) as nat) + "h"@
    }
}

/// Formats a server uptime given in seconds.
pub fn format_uptime(secs: u64) -> (r: String)
    ensures
        r@ == uptime_text(secs),
{
    let mut r = String::new();
    if secs < 60 {
        write_decimal(&mut r, secs);
        push_str(&mut r, "s");
    } else if secs < 3600 {
        write_decimal(&mut r, secs / 60);
        push_str(&mut r, "m ");
        write_decimal(&mut r, secs % 60);
        push_str(&mut r, "s");
    } else if secs < 86400 {
        write_decimal(&mut r, secs / 3600);
        push_str(&mut r, "h ");
        write_decimal(&mut r, (secs % 3600) / 60);
        push_str(&mut r, "m");
    } else {
        write_decimal(&mut r, secs / 86400);
        push_str(&mut r, "d ");
        write_decimal(&mut r, (secs % 86400) / 3600);
        push_str(&mut r, "h");
    }
    r
}

/// `char::is_alphanumeric`: Unicode alphabetic or numeric.
pub uninterp spec fn unicode_alphanumeric(c: char) -> bool;

/// `char::is_alphanumeric`. For ASCII characters it holds exactly of letters and digits.
#[verifier::external_body]
pub(crate) fn is_alphanumeric(c: char) -> (r: bool)
    ensures
        r == unicode_alphanumeric(c),
        (c as u32) < 128 ==> (r == is_ascii_alnum(c)),
{
    c.is_alphanumeric()
}

/// Text of `str::trim`: without leading and trailing Unicode whitespace.
pub uninterp spec fn trimmed_text(s: Seq<char>) -> Seq<char>;

/// `str::trim`.
#[verifier::external_body]
pub(crate) fn trim(s: &str) -> (r: String)
    ensures
        r@ == trimmed_text(s@),
{
    s.trim().to_owned()
}

/// Control characters: U+0000 to U+001F and U+007F to U+009F.
pub open spec fn is_control_char(c: char) -> bool {
    c <= '\u{1f}' || ('\u{7f}' <= c && c <= '\u{9f}')
}

/// Characters kept in a download file name: no path separators and no control characters.
pub open spec fn download_name_char(c: char) -> bool {
    c != '/' && c != '\\' && !is_control_char(c)
}

/// Characters kept in a file name: alphanumerics and `-`, `_`, `.`.
pub open spec fn file_name_char(c: char) -> bool {
    unicode_alphanumeric(c) || c == '-' || c == '_' || c == '.'
}

/// Characters kept in an email: alphanumerics and `@`, `.`, `-`, `_`, `+`.
pub open spec fn email_char(c: char) -> bool {
    unicode_alphanumeric(c) || c == '@' || c == '.' || c == '-' || c == '_' || c == '+'
}

/// Characters kept in a path parameter: no separators, dots or control characters.
pub open spec fn path_param_char(c: char) -> bool {
    c != '/' && c != '\\' && c != '.' && !is_control_char(c)
}

/// The characters of `s` that satisfy `keep`, in order.
pub open spec fn kept_chars(s: Seq<char>, keep: spec_fn(char) -> bool) -> Seq<char>
    decreases s.len(),
{
    if s.len() == 0 {
        seq![]
    } else if keep(s.last()) {
        kept_chars(s.drop_last(), keep).push(s.last())
    } else {
        kept_chars(s.drop_last(), keep)
    }
}

/// At most the first `n` characters.
pub open spec fn first_n(s: Seq<char>, n: nat) -> Seq<char> {
    if s.len() <= n { s } else { s.subrange(0, n as int) }
}

proof fn lemma_kept_chars_satisfy(s: Seq<char>, keep: spec_fn(char) -> bool)
    ensures
        forall|i: int| 0 <= i < kept_chars(s, keep).len() ==> keep(#[trigger] kept_chars(s, keep)[i]),
        kept_chars(s, keep).len() <= s.len(),
    decreases s.len(),
{
    if s.len() > 0 {
        lemma_kept_chars_satisfy(s.drop_last(), keep);
    }
}

/// Sanitizing keeps only characters of the class, and at most the limit of them: a file
/// name keeps alphanumerics and `-_.`, an email also `@+`, and a path parameter has no
/// separators, dots or control characters, so it cannot climb out of a directory.
pub proof fn law_sanitized_text_is_allowed(s: Seq<char>, k: CharClass, limit: nat)
    ensures
        first_n(kept_chars(s, class_pred(k)), limit).len() <= limit,
        forall|i: int|
            0 <= i < first_n(kept_chars(s, class_pred(k)), limit).len() ==> class_pred(k)(
                #[trigger] first_n(kept_chars(s, class_pred(k)), limit)[i],
            ),
{
    lemma_kept_chars_satisfy(s, class_pred(k));
    let kept = kept_chars(s, class_pred(k));
    assert forall|i: int| 0 <= i < first_n(kept, limit).len() implies class_pred(k)(
        #[trigger] first_n(kept, limit)[i],
    ) by {
        assert(first_n(kept, limit)[i] == kept[i]);
    }
}

/// Which characters a sanitizer keeps.
#[derive(Clone, Copy, Debug, PartialEq, Eq, Structural)]
pub enum CharClass {
    DownloadName,
    FileName,
    Email,
    PathParam,
}

/// The predicate of a character class.
pub open spec fn class_pred(k: CharClass) -> spec_fn(char) -> bool {
    match k {
        CharClass::DownloadName => |c: char| download_name_char(c),
        CharClass::FileName => |c: char| file_name_char(c),
        CharClass::Email => |c: char| email_char(c),
        CharClass::PathParam => |c: char| path_param_char(c),
    }
}

fn keeps(k: CharClass, c: char) -> (r: bool)
    ensures
        r == class_pred(k)(c),
{
    match k {
        CharClass::DownloadName => c != '/' && c != '\\' && !(c <= '\u{1f}' || ('\u{7f}' <= c && c <= '\u{9f}')),
        CharClass::FileName => is_alphanumeric(c) || c == '-' || c == '_' || c == '.',
        CharClass::Email => is_alphanumeric(c) || c == '@' || c == '.' || c == '-' || c == '_' || c == '+',
        CharClass::PathParam => c != '/' && c != '\\' && c != '.' && !(c <= '\u{1f}' || ('\u{7f}' <= c && c <= '\u{9f}')),
    }
}

/// The characters of a class.
fn keep_chars(s: &str, k: CharClass) -> (r: String)
    ensures
        r@ == kept_chars(s@, class_pred(k)),
{
    let a = chars_of(s);
    let mut out: Vec<char> = Vec::new();
    let mut i: usize = 0;
    while i < a.len()
        invariant
            a@ == s@,
            i <= a@.len(),
            out@ == kept_chars(a@.subrange(0, i as int), class_pred(k)),
        decreases a@.len() - i,
    {
        proof {
            let next = a@.subrange(0, i + 1);
            assert(next.drop_last() =~= a@.subrange(0, i as int));
            assert(next.last() == a@[i as int]);
        }
        if keeps(k, a[i]) {
            out.push(a[i]);
        }
        i = i + 1;
    }
    assert(a@.subrange(0, a@.len() as int) =~= a@);
    string_from_chars(out.as_slice())
}

/// The characters of a class, at most `limit` of them.
pub fn filter_chars(s: &str, k: CharClass, limit: usize) -> (r: String)
    ensures
        r@ == first_n(kept_chars(s@, class_pred(k)), limit as nat),
{
    let kept = keep_chars(s, k);
    filter_chars_all(kept.as_str(), limit)
}

/// A file name for a `Content-Disposition` header: path separators and control characters
/// removed, surrounding whitespace trimmed, at most 255 characters.
pub fn sanitize_filename_for_download(filename: &str) -> (r: String)
    ensures
        r@ == first_n(trimmed_text(kept_chars(filename@, class_pred(CharClass::DownloadName))), 255),
{
    let kept = keep_chars(filename, CharClass::DownloadName);
    let trimmed = trim(kept.as_str());
    filter_chars_all(trimmed.as_str(), 255)
}

/// At most the first `limit` characters of a text.
fn filter_chars_all(s: &str, limit: usize) -> (r: String)
    ensures
        r@ == first_n(s@, limit as nat),
{
    let a = chars_of(s);
    if a.len() <= limit {
        return s.to_owned();
    }
    let mut t: Vec<char> = Vec::new();
    let mut j: usize = 0;
    while j < limit
        invariant
            j <= limit,
            limit < a@.len(),
            t@ == a@.subrange(0, j as int),
        decreases limit - j,
    {
        t.push(a[j]);
        j = j + 1;
        assert(t@ =~= a@.subrange(0, j as int));
    }
    string_from_chars(t.as_slice())
}

/// A file name from user input: alphanumerics, `-`, `_` and `.`, at most 64 characters.
pub fn sanitize_filename(input: &str) -> (r: String)
    ensures
        r@ == first_n(kept_chars(input@, class_pred(CharClass::FileName)), 64),
{
    filter_chars(input, CharClass::FileName, 64)
}

/// An email from user input: alphanumerics and `@.-_+`, at most 255 characters.
pub fn sanitize_email(input: &str) -> (r: String)
    ensures
        r@ == first_n(kept_chars(input@, class_pred(CharClass::Email)), 255),
{
    filter_chars(input, CharClass::Email, 255)
}

/// A path parameter: no separators, dots or control characters, at most 64 characters.
pub fn sanitize_path_param(input: &str) -> (r: String)
    ensures
        r@ == first_n(kept_chars(input@, class_pred(CharClass::PathParam)), 64),
{
    filter_chars(input, CharClass::PathParam, 64)
}

/// The error page of an answer with a status and message; the message of a 500 is replaced
/// by a generic one.
pub open spec fn error_page_text(status: u16, message: Seq<char>) -> Seq<char> {
    crate::templates::base_text(
        "Error"@,
        crate::templates::error_page_content(
            crate::templates::error_heading(status).1,
            status,
            crate::templates::error_heading(status).0,
            if status == 500 { "An internal error occurred. Please try again later."@ } else { message },
        ),
    )
}

/// An error answer: its HTTP status (a valid code as given, else 500) and the error page; the
/// message of a 500 is replaced by a generic one.
pub fn error_response(status: u16, message: &str) -> (r: (u16, String))
    ensures
        r.0 == if 100 <= status < 1000 { status } else { 500 },
        r.1@ == error_page_text(status, message@),
{
    let safe_message = if status == 500 {
        "An internal error occurred. Please try again later."
    } else {
        message
    };
    let html = crate::templates::error_page(status, safe_message);
    let code = if 100 <= status && status < 1000 { status } else { 500 };
    (code, html)
}

/// The security headers added to every answer, as name and value.
pub fn security_headers() -> (r: Vec<(&'static str, &'static str)>)
    ensures
        r@.len() == 5,
        r@[0].0@ == "content-security-policy"@,
        r@[0].1@ == "default-src 'self'; script-src 'self' 'unsafe-inline' https://cdn.tailwindcss.com https://fonts.googleapis.com; style-src 'self' 'unsafe-inline' https://cdn.tailwindcss.com https://fonts.googleapis.com; font-src 'self' https://fonts.gstatic.com; img-src 'self' data:; connect-src 'self'; frame-ancestors 'none'; base-uri 'self'; form-action 'self'"@,
        r@[1].0@ == "x-content-type-options"@ && r@[1].1@ == "nosniff"@,
        r@[2].0@ == "x-frame-options"@ && r@[2].1@ == "DENY"@,
        r@[3].0@ == "x-xss-protection"@ && r@[3].1@ == "1; mode=block"@,
        r@[4].0@ == "referrer-policy"@ && r@[4].1@ == "strict-origin-when-cross-origin"@,
{
    let mut r: Vec<(&'static str, &'static str)> = Vec::new();
    r.push((
        "content-security-policy",
        "default-src 'self'; script-src 'self' 'unsafe-inline' https://cdn.tailwindcss.com https://fonts.googleapis.com; style-src 'self' 'unsafe-inline' https://cdn.tailwindcss.com https://fonts.googleapis.com; font-src 'self' https://fonts.gstatic.com; img-src 'self' data:; connect-src 'self'; frame-ancestors 'none'; base-uri 'self'; form-action 'self'",
    ));
    r.push(("x-content-type-options", "nosniff"));
    r.push(("x-frame-options", "DENY"));
    r.push(("x-xss-protection", "1; mode=block"));
    r.push(("referrer-policy", "strict-origin-when-cross-origin"));
    r
}

/// A byte count as the session list shows it: bytes below a KiB, else KB, MB or GB with one
/// decimal (units of 1024).
pub open spec fn usage_text(bytes: u64) -> Seq<char> {
    if bytes >= 0x4000_0000 {
        fixed_text(f64_of(bytes as nat), 0x4000_0000, 1) + " GB"@
    } else if bytes >= 0x10_0000 {
        fixed_text(f64_of(bytes as nat), 0x10_0000, 1) + " MB"@
    } else if bytes >= 0x400 {
        fixed_text(f64_of(bytes as nat), 0x400, 1) + " KB"@
    } else {
        decimal(bytes as nat) + " B"@
    }
}

/// The data a session moved, both directions together, for display.
pub fn format_data_usage(rx: u64, tx: u64) -> (r: String)
    requires
        rx + tx <= u64::MAX,
    ensures
        r@ == usage_text((rx + tx) as u64),
{
    let total = rx + tx;
    let mut r = String::new();
    if total >= 0x4000_0000 {
        write_fixed(&mut r, f64_value(total), 0x4000_0000, 1);
        push_str(&mut r, " GB");
    } else if total >= 0x10_0000 {
        write_fixed(&mut r, f64_value(total), 0x10_0000, 1);
        push_str(&mut r, " MB");
    } else if total >= 0x400 {
        write_fixed(&mut r, f64_value(total), 0x400, 1);
        push_str(&mut r, " KB");
    } else {
        write_decimal(&mut r, total);
        push_str(&mut r, " B");
    }
    assert(r@ =~= usage_text(total));
    r
}

/// A refused admin request: the HTTP status and the message shown.
pub type Refusal = (u16, &'static str);

/// The client name of a form: its file-name characters, at most 64.
pub open spec fn form_client_name(name: Seq<char>) -> Seq<char> {
    first_n(kept_chars(name, class_pred(CharClass::FileName)), 64)
}

/// A name that no client may have: empty, or over 64 bytes.
pub open spec fn bad_client_name(name: Seq<char>) -> bool {
    name.len() == 0 || utf8_len(name) > 64
}

/// Checks the new-client form: the CSRF token must be valid (403) and the sanitized name
/// non-empty and at most 64 bytes (400); the result is the sanitized name and email.
pub fn create_client_input(csrf_valid: bool, name: &str, email: &str) -> (r: Result<(String, String), Refusal>)
    ensures
        !csrf_valid ==> (r matches Err(e) && e.0 == 403 && e.1@ == "Invalid CSRF token"@),
        csrf_valid && bad_client_name(form_client_name(name@)) ==> (r matches Err(e) && e.0 == 400
            && e.1@ == "Invalid client name"@),
        csrf_valid && !bad_client_name(form_client_name(name@)) ==> (r matches Ok(v) && v.0@
            == form_client_name(name@) && v.1@ == first_n(kept_chars(email@, class_pred(CharClass::Email)), 255)),
{
    if !csrf_valid {
        return Err((403, "Invalid CSRF token"));
    }
    let n = sanitize_filename(name);
    let e = sanitize_email(email);
    if crate::text::str_is_empty(n.as_str()) || n.as_str().as_bytes().len() > 64 {
        return Err((400, "Invalid client name"));
    }
    Ok((n, e))
}

/// Checks the quick-generate form, before any CA file is read: the CSRF token must be valid
/// (403) and the sanitized, trimmed name non-empty and at most 64 bytes (400). With the name
/// returned here the profile is generated, and `quick_generate_answer` gives the answer: the
/// 200 download or, when the CA or the generation failed, the generic 500 page.
pub fn quick_generate_input(csrf_valid: bool, name: &str) -> (r: Result<String, Refusal>)
    ensures
        !csrf_valid ==> (r matches Err(e) && e.0 == 403 && e.1@ == "Invalid CSRF token"@),
        csrf_valid && bad_client_name(form_client_name(trimmed_text(name@))) ==> (r matches Err(e)
            && e.0 == 400 && e.1@ == "Invalid client name. Must be 1-64 characters."@),
        csrf_valid && !bad_client_name(form_client_name(trimmed_text(name@))) ==> (r matches Ok(n) && n@
            == form_client_name(trimmed_text(name@))),
{
    if !csrf_valid {
        return Err((403, "Invalid CSRF token"));
    }
    let t = trim(name);
    let n = sanitize_filename(t.as_str());
    if crate::text::str_is_empty(n.as_str()) || n.as_str().as_bytes().len() > 64 {
        return Err((400, "Invalid client name. Must be 1-64 characters."));
    }
    Ok(n)
}

/// The client identifier of a download path: its path-parameter characters, at most 64;
/// refused (400) when that is empty or over 64 bytes.
pub fn client_id_input(id: &str) -> (r: Result<String, Refusal>)
    ensures
        bad_client_name(first_n(kept_chars(id@, class_pred(CharClass::PathParam)), 64)) ==> (r matches Err(e)
            && e.0 == 400 && e.1@ == "Invalid client ID"@),
        !bad_client_name(first_n(kept_chars(id@, class_pred(CharClass::PathParam)), 64)) ==> (r matches Ok(n)
            && n@ == first_n(kept_chars(id@, class_pred(CharClass::PathParam)), 64)),
{
    let n = sanitize_path_param(id);
    if crate::text::str_is_empty(n.as_str()) || n.as_str().as_bytes().len() > 64 {
        return Err((400, "Invalid client ID"));
    }
    Ok(n)
}

/// `@`, `.` and spaces turned into underscores.
pub open spec fn underscored(s: Seq<char>) -> Seq<char> {
    s.map_values(|c: char| if c == '@' || c == '.' || c == ' ' { '_' } else { c })
}

/// The file name of a mobile profile download for a client identifier.
pub open spec fn mobile_file_name(id: Seq<char>) -> Seq<char> {
    first_n(trimmed_text(kept_chars(underscored(id) + "-mobile.ovpn"@, class_pred(CharClass::DownloadName))), 255)
}

/// The file name of a mobile profile download.
pub fn mobile_download_name(id: &str) -> (r: String)
    ensures
        r@ == mobile_file_name(id@),
{
    let cs = chars_of(id);
    let mut out = String::new();
    let mut i: usize = 0;
    while i < cs.len()
        invariant
            i <= cs@.len(),
            cs@ == id@,
            out@ == underscored(id@).subrange(0, i as int),
        decreases cs@.len() - i,
    {
        let c = cs[i];
        if c == '@' || c == '.' || c == ' ' {
            push_char(&mut out, '_');
        } else {
            push_char(&mut out, c);
        }
        i = i + 1;
        assert(out@ =~= underscored(id@).subrange(0, i as int));
    }
    assert(underscored(id@).subrange(0, i as int) =~= underscored(id@));
    push_str(&mut out, "-mobile.ovpn");
    sanitize_filename_for_download(out.as_str())
}

/// The `Content-Disposition` value of a profile download.
pub fn attachment_disposition(filename: &str) -> (r: String)
    ensures
        r@ == "attachment; filename=\""@ + filename@ + "\""@,
{
    let mut r = "attachment; filename=\"".to_owned();
    push_str(&mut r, filename);
    push_str(&mut r, "\"");
    r
}

/// A profile handed out for download.
#[derive(Clone, Debug)]
pub struct ProfileDownload {
    /// `application/x-openvpn-profile`.
    pub content_type: String,
    /// The `Content-Disposition` header value.
    pub disposition: String,
    /// The profile text.
    pub content: String,
}

/// The file name of a quick-generated profile: for a mobile profile the one derived from the
/// client name, else the generator's file name, made safe for download.
pub open spec fn quick_profile_file_name(name: Seq<char>, mobile: bool, generator_file_name: Seq<char>) -> Seq<char> {
    if mobile {
        mobile_file_name(name)
    } else {
        first_n(trimmed_text(kept_chars(generator_file_name, class_pred(CharClass::DownloadName))), 255)
    }
}

/// The answer to a quick-generate request whose name was accepted, given what generating the
/// profile gave: with the generator's file name and profile text, the download (200); when
/// the CA could not be read or loaded or the profile not generated (`None`), a 500 whose page
/// shows only the generic message.
pub fn quick_generate_answer(name: &str, mobile: bool, generated: Option<(String, String)>) -> (r: Result<
    ProfileDownload,
    (u16, String),
>)
    ensures
        match generated {
            None => r matches Err(e) && e.0 == 500 && e.1@ == error_page_text(500, "Failed to generate configuration"@),
            Some(g) => r matches Ok(d) && d.content_type@ == "application/x-openvpn-profile"@ && d.disposition@
                == "attachment; filename=\""@ + quick_profile_file_name(name@, mobile, g.0@) + "\""@ && d.content@ == g.1@,
        },
{
    match generated {
        None => Err(error_response(500, "Failed to generate configuration")),
        Some((file_name, content)) => {
            let safe = if mobile {
                mobile_download_name(name)
            } else {
                sanitize_filename_for_download(file_name.as_str())
            };
            Ok(ProfileDownload {
                content_type: "application/x-openvpn-profile".to_owned(),
                disposition: attachment_disposition(safe.as_str()),
                content,
            })
        },
    }
}

/// Where revoking a client redirects: back with `error=csrf` for a bad token, with
/// `error=invalid_id` for an empty identifier, else back to the client list.
pub fn revoke_redirect(csrf_valid: bool, id: &str) -> (r: &'static str)
    ensures
        r@ == if !csrf_valid {
            "/admin/clients?error=csrf"@
        } else if kept_chars(id@, class_pred(CharClass::PathParam)).len() == 0 {
            "/admin/clients?error=invalid_id"@
        } else {
            "/admin/clients"@
        },
{
    if !csrf_valid {
        return "/admin/clients?error=csrf";
    }
    let n = sanitize_path_param(id);
    if crate::text::str_is_empty(n.as_str()) {
        return "/admin/clients?error=invalid_id";
    }
    "/admin/clients"
}

/// The value of a UUID in text (hyphenated, simple, braced or URN form), as `uuid` parses it.
pub uninterp spec fn uuid_value_of(s: Seq<char>) -> Option<u128>;

/// `s.parse::<uuid::Uuid>()`, as the number of the identifier. The hyphenated lowercase form
/// (what `Uuid`'s `Display` writes) is one the parser accepts, and it reads back the value it
/// was written from.
#[verifier::external_body]
pub(crate) fn parse_uuid(s: &str) -> (r: Option<u128>)
    ensures
        r == uuid_value_of(s@),
        forall|v: u128| s@ == #[trigger] crate::ids::uuid_text(v as nat) ==> r == Some(v),
{
    s.parse::<uuid::Uuid>().ok().map(|u| u.as_u128())
}

/// What disconnecting a session does: where it redirects, and the session to remove when
/// the token is valid and the sanitized identifier is a UUID.
pub fn disconnect_decision(csrf_valid: bool, id: &str) -> (r: (&'static str, Option<u128>))
    ensures
        !csrf_valid ==> r.0@ == "/admin/sessions?error=csrf"@ && r.1 is None,
        csrf_valid && kept_chars(id@, class_pred(CharClass::PathParam)).len() == 0 ==> r.0@
            == "/admin/sessions?error=invalid_id"@ && r.1 is None,
        csrf_valid && kept_chars(id@, class_pred(CharClass::PathParam)).len() > 0 ==> r.0@ == "/admin/sessions"@
            && r.1 == uuid_value_of(first_n(kept_chars(id@, class_pred(CharClass::PathParam)), 64)),
{
    if !csrf_valid {
        return ("/admin/sessions?error=csrf", None);
    }
    let n = sanitize_path_param(id);
    if crate::text::str_is_empty(n.as_str()) {
        return ("/admin/sessions?error=invalid_id", None);
    }
    ("/admin/sessions", parse_uuid(n.as_str()))
}

} // verus!
