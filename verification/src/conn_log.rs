//! Connection-log backends: what each backend counts, when it rotates, flushes or purges, and
//! how a composite backend combines its parts. Storage I/O is done by the caller.

use vstd::prelude::*;
use crate::clock::{Timestamp, MIN_SECS};
use crate::conn_events::{ConnectionEvent, ConnectionId};
use crate::text::{decimal, push_str, write_decimal};

verus! {

/// Statistics about a logger.
#[derive(Clone, Copy, Debug, PartialEq, Eq, Structural)]
pub struct LoggerStats {
    /// Total events logged
    pub events_logged: u64,
    /// Events logged since last flush
    pub pending_events: u64,
    /// Storage size in bytes (if applicable)
    pub storage_bytes: Option<u64>,
    /// Oldest event timestamp (if known)
    pub oldest_event: Option<Timestamp>,
    /// Most recent event timestamp
    pub newest_event: Option<Timestamp>,
}

impl Default for LoggerStats {
    fn default() -> (r: Self)
        ensures
            r == empty_stats(),
    {
        LoggerStats {
            events_logged: 0,
            pending_events: 0,
            storage_bytes: None,
            oldest_event: None,
            newest_event: None,
        }
    }
}

/// Statistics of a logger that has seen nothing.
pub open spec fn empty_stats() -> LoggerStats {
    LoggerStats {
        events_logged: 0,
        pending_events: 0,
        storage_bytes: None,
        oldest_event: None,
        newest_event: None,
    }
}

/// The earlier of two optional instants; an absent one is ignored.
pub open spec fn earliest(a: Option<Timestamp>, b: Option<Timestamp>) -> Option<Timestamp> {
    match (a, b) {
        (Some(x), Some(y)) => if x.le(y) { Some(x) } else { Some(y) },
        (Some(x), None) => Some(x),
        (None, Some(y)) => Some(y),
        (None, None) => None,
    }
}

/// The later of two optional instants; an absent one is ignored.
pub open spec fn latest(a: Option<Timestamp>, b: Option<Timestamp>) -> Option<Timestamp> {
    match (a, b) {
        (Some(x), Some(y)) => if x.le(y) { Some(y) } else { Some(x) },
        (Some(x), None) => Some(x),
        (None, Some(y)) => Some(y),
        (None, None) => None,
    }
}

/// The sum of two optional sizes; an absent one is ignored.
pub open spec fn sum_sizes(a: Option<u64>, b: Option<u64>) -> Option<int> {
    match (a, b) {
        (Some(x), Some(y)) => Some(x + y),
        (Some(x), None) => Some(x as int),
        (None, Some(y)) => Some(y as int),
        (None, None) => None,
    }
}

/// Two statistics whose sums fit in 64 bits.
pub open spec fn combinable(a: LoggerStats, b: LoggerStats) -> bool {
    &&& a.pending_events + b.pending_events <= u64::MAX
    &&& match sum_sizes(a.storage_bytes, b.storage_bytes) {
        Some(s) => s <= u64::MAX,
        None => true,
    }
}

/// The statistics of two loggers written together: the larger count of logged events, the
/// sum of pending events and of storage, the earliest oldest and the latest newest event.
pub open spec fn combined(a: LoggerStats, b: LoggerStats) -> LoggerStats {
    LoggerStats {
        events_logged: if a.events_logged >= b.events_logged {
            a.events_logged
        } else {
            b.events_logged
        },
        pending_events: (a.pending_events + b.pending_events) as u64,
        storage_bytes: match sum_sizes(a.storage_bytes, b.storage_bytes) {
            Some(s) => Some(s as u64),
            None => None,
        },
        oldest_event: earliest(a.oldest_event, b.oldest_event),
        newest_event: latest(a.newest_event, b.newest_event),
    }
}

fn earliest_of(a: Option<Timestamp>, b: Option<Timestamp>) -> (r: Option<Timestamp>)
    ensures
        r == earliest(a, b),
{
    match (a, b) {
        (Some(x), Some(y)) => if x.is_le(&y) { Some(x) } else { Some(y) },
        (Some(x), None) => Some(x),
        (None, Some(y)) => Some(y),
        (None, None) => None,
    }
}

fn latest_of(a: Option<Timestamp>, b: Option<Timestamp>) -> (r: Option<Timestamp>)
    ensures
        r == latest(a, b),
{
    match (a, b) {
        (Some(x), Some(y)) => if x.is_le(&y) { Some(y) } else { Some(x) },
        (Some(x), None) => Some(x),
        (None, Some(y)) => Some(y),
        (None, None) => None,
    }
}

/// Combines the statistics of the two parts of a composite logger.
pub fn combine_stats(a: &LoggerStats, b: &LoggerStats) -> (r: LoggerStats)
    requires
        combinable(*a, *b),
    ensures
        r == combined(*a, *b),
{
    let storage = match (a.storage_bytes, b.storage_bytes) {
        (Some(x), Some(y)) => Some(x + y),
        (Some(x), None) => Some(x),
        (None, Some(y)) => Some(y),
        (None, None) => None,
    };
    LoggerStats {
        events_logged: if a.events_logged >= b.events_logged {
            a.events_logged
        } else {
            b.events_logged
        },
        pending_events: a.pending_events + b.pending_events,
        storage_bytes: storage,
        oldest_event: earliest_of(a.oldest_event, b.oldest_event),
        newest_event: latest_of(a.newest_event, b.newest_event),
    }
}

/// Combining statistics does not depend on the order of the two parts.
pub proof fn law_combine_commutative(a: LoggerStats, b: LoggerStats)
    requires
        combinable(a, b),
    ensures
        combinable(b, a),
        combined(a, b) == combined(b, a),
{
    match (a.oldest_event, b.oldest_event) {
        (Some(x), Some(y)) => {
            if x.le(y) && y.le(x) {
                assert(x == y);
            }
        },
        _ => {},
    }
    match (a.newest_event, b.newest_event) {
        (Some(x), Some(y)) => {
            if x.le(y) && y.le(x) {
                assert(x == y);
            }
        },
        _ => {},
    }
}

/// Combining with the statistics of a logger that has seen nothing changes nothing.
pub proof fn law_combine_identity(a: LoggerStats)
    ensures
        combinable(a, empty_stats()),
        combined(a, empty_stats()) == a,
{
}

/// Event counters kept by the persistent loggers: events logged in total and since the last
/// flush (both wrap around like the atomic counters they model), and the first and last
/// event time seen.
#[derive(Clone, Copy, Debug, PartialEq, Eq, Structural)]
pub struct EventCounters {
    pub total_logged: u64,
    pub pending: u64,
    pub first_event: Option<Timestamp>,
    pub last_event: Option<Timestamp>,
}

impl EventCounters {
    /// Counters that have seen nothing.
    pub fn new() -> (r: Self)
        ensures
            r == (EventCounters { total_logged: 0, pending: 0, first_event: None, last_event: None }),
    {
        EventCounters { total_logged: 0, pending: 0, first_event: None, last_event: None }
    }

    /// Notes the time of an event: the first time seen stays, the last one is replaced.
    pub fn record_time(&mut self, timestamp: Timestamp)
        ensures
            final(self).first_event == match old(self).first_event {
                Some(f) => Some(f),
                None => Some(timestamp),
            },
            final(self).last_event == Some(timestamp),
            final(self).total_logged == old(self).total_logged,
            final(self).pending == old(self).pending,
    {
        if self.first_event.is_none() {
            self.first_event = Some(timestamp);
        }
        self.last_event = Some(timestamp);
    }
}

/// The smallest file size at which a file logger rotates: 1 MiB.
pub const MIN_ROTATE_SIZE: u64 = 1048576;

/// Pending events at which a file logger flushes on its own.
pub const AUTO_FLUSH_EVENTS: u64 = 100;

/// Logged events between automatic purges of a database logger.
pub const PURGE_EVERY: u64 = 1000;

/// A step of rotating a file logger's files.
#[derive(Clone, Debug)]
pub enum RotationStep {
    /// Rename `from` to `to` if `from` exists; first, if `to` exists and
    /// `secure_delete_target` holds, securely delete `to`.
    Rename { from: String, to: String, secure_delete_target: bool },
    /// Delete `path` if it exists, securely when `secure` holds.
    Delete { path: String, secure: bool },
}

/// Text of `Path::with_extension` on a path given as text.
pub uninterp spec fn with_extension_text(path: Seq<char>, ext: Seq<char>) -> Seq<char>;

/// Whether a text holds no path separator (`/`, or `\\` as Windows counts it).
pub open spec fn no_separator(s: Seq<char>) -> bool {
    forall|j: int| 0 <= j < s.len() ==> s[j] != '/' && s[j] != '\\'
}

/// `Path::new(path).with_extension(ext)`, as text. Both inputs are UTF-8, so the result is too.
/// std documents that `with_extension` panics on an extension that holds a path separator,
/// which `requires` rules out.
#[verifier::external_body]
pub(crate) fn path_with_extension(path: &str, ext: &str) -> (r: String)
    requires
        no_separator(ext@),
    ensures
        r@ == with_extension_text(path@, ext@),
{
    std::path::Path::new(path).with_extension(ext).to_string_lossy().into_owned()
}

/// The extension of backup number `i`: `log.` and the number.
pub open spec fn backup_ext(i: nat) -> Seq<char> {
    "log."@ + decimal(i)
}

/// The path of backup number `i` of the log file at `path`.
pub open spec fn backup_path(path: Seq<char>, i: nat) -> Seq<char> {
    with_extension_text(path, backup_ext(i))
}

/// The steps of a rotation that keeps `max_files` backups: first the backup numbered
/// `max_files` is deleted; then, for `i` from `max_files` down to 1, backup `i - 1` (the live
/// file when `i` is 1) moves to backup `i`.
pub open spec fn rotation_steps_spec(path: Seq<char>, max_files: nat, secure: bool) -> Seq<(bool, Seq<char>, Seq<char>, bool)> {
    seq![(false, backup_path(path, max_files), seq![], secure)] + Seq::new(
        max_files,
        |m: int|
            {
                let i = max_files - m;
                (true, if i == 1 { path } else { backup_path(path, (i - 1) as nat) }, backup_path(path, i as nat), secure)
            },
    )
}

/// A rotation that keeps `k` backups (at least one) first deletes backup `k`, then moves each
/// backup `i - 1` to `i`, oldest first, and finally moves the live file to backup 1; so every
/// former backup below `k` survives one number higher.
pub proof fn law_rotation_keeps_max_files(path: Seq<char>, k: nat, secure: bool)
    requires
        k >= 1,
    ensures
        rotation_steps_spec(path, k, secure).len() == k + 1,
        rotation_steps_spec(path, k, secure)[0] == (false, backup_path(path, k), Seq::<char>::empty(), secure),
        rotation_steps_spec(path, k, secure)[k as int] == (true, path, backup_path(path, 1), secure),
        forall|i: nat|
            2 <= i <= k ==> #[trigger] rotation_steps_spec(path, k, secure)[k - i + 1] == (
                true,
                backup_path(path, (i - 1) as nat),
                backup_path(path, i),
                secure,
            ),
{
    let plan = rotation_steps_spec(path, k, secure);
    assert(plan[k as int] == (true, path, backup_path(path, 1), secure));
    assert forall|i: nat| 2 <= i <= k implies #[trigger] plan[k - i + 1] == (
        true,
        backup_path(path, (i - 1) as nat),
        backup_path(path, i),
        secure,
    ) by {
        assert(plan[k - i + 1] == Seq::new(
            k,
            |m: int|
                {
                    let j = k - m;
                    (true, if j == 1 { path } else { backup_path(path, (j - 1) as nat) }, backup_path(path, j as nat), secure)
                },
        )[k - i]);
    }
}

proof fn lemma_backup_ext_no_separator(i: nat)
    ensures
        no_separator(backup_ext(i)),
{
    reveal_strlit("log.");
    crate::text::lemma_decimal_digits(i);
    let e = backup_ext(i);
    assert forall|j: int| 0 <= j < e.len() implies e[j] != '/' && e[j] != '\\' by {
        if j >= 4 {
            assert(e[j] == decimal(i)[j - 4]);
            assert(48 <= (decimal(i)[j - 4]) as int <= 57);
        }
    }
}

/// A rotation step as a tuple: whether it renames, its source (or the deleted path), its
/// target (empty for a deletion), and whether deletion is secure.
pub open spec fn step_view(s: RotationStep) -> (bool, Seq<char>, Seq<char>, bool) {
    match s {
        RotationStep::Rename { from, to, secure_delete_target } => (true, from@, to@, secure_delete_target),
        RotationStep::Delete { path, secure } => (false, path@, seq![], secure),
    }
}

fn backup_extension(i: u64) -> (r: String)
    ensures
        r@ == backup_ext(i as nat),
        no_separator(r@),
{
    let mut r = "log.".to_owned();
    write_decimal(&mut r, i);
    proof {
        lemma_backup_ext_no_separator(i as nat);
    }
    r
}

/// The path of backup number `i` of the log file at `path`.
fn backup_file(path: &str, i: u64) -> (r: String)
    ensures
        r@ == backup_path(path@, i as nat),
{
    let ext = backup_extension(i);
    path_with_extension(path, ext.as_str())
}

/// Errors of the file logger's own bookkeeping.
#[derive(Clone, Copy, Debug, PartialEq, Eq, Structural)]
pub enum FileLogError {
    /// An event was to be written while no log file is open.
    NotOpen,
}

/// File-based connection logger: append-only file with rotation.
pub struct FileConnectionLogger {
    path: String,
    max_size: u64,
    max_files: usize,
    secure_delete: bool,
    open: bool,
    counters: EventCounters,
}

impl FileConnectionLogger {
    /// Path of the log file.
    pub closed spec fn path(&self) -> Seq<char> {
        self.path@
    }

    /// File size at which the file is rotated.
    pub closed spec fn max_size(&self) -> u64 {
        self.max_size
    }

    /// Number of files kept.
    pub closed spec fn max_files(&self) -> usize {
        self.max_files
    }

    /// Whether removed files are overwritten first.
    pub closed spec fn secure(&self) -> bool {
        self.secure_delete
    }

    /// Whether the log file is open.
    pub closed spec fn is_open(&self) -> bool {
        self.open
    }

    /// The logger's counters.
    pub closed spec fn counters(&self) -> EventCounters {
        self.counters
    }

    /// A logger for `path`, rotating at `max_size` bytes but at least 1 MiB, keeping
    /// `max_files` files but at least one. The file still has to be opened.
    pub fn new(path: String, max_size: u64, max_files: usize, secure_delete: bool) -> (r: Self)
        ensures
            r.path() == path@,
            r.max_size() == if max_size >= MIN_ROTATE_SIZE { max_size } else { MIN_ROTATE_SIZE },
            r.max_files() == if max_files >= 1 { max_files } else { 1 },
            r.secure() == secure_delete,
            !r.is_open(),
            r.counters() == (EventCounters { total_logged: 0, pending: 0, first_event: None, last_event: None }),
    {
        FileConnectionLogger {
            path,
            max_size: if max_size >= MIN_ROTATE_SIZE { max_size } else { MIN_ROTATE_SIZE },
            max_files: if max_files >= 1 { max_files } else { 1 },
            secure_delete,
            open: false,
            counters: EventCounters::new(),
        }
    }

    /// The log file's path.
    pub fn log_path(&self) -> (r: &str)
        ensures
            r@ == self.path(),
    {
        self.path.as_str()
    }

    /// Records that the log file was opened.
    pub fn opened(&mut self)
        ensures
            final(self).is_open(),
            final(self).counters() == old(self).counters(),
            final(self).path() == old(self).path(),
            final(self).max_size() == old(self).max_size(),
            final(self).max_files() == old(self).max_files(),
            final(self).secure() == old(self).secure(),
    {
        self.open = true;
    }

    /// Whether a file of `file_size` bytes has to be rotated.
    pub fn needs_rotation(&self, file_size: u64) -> (r: bool)
        ensures
            r == (file_size >= self.max_size()),
    {
        file_size >= self.max_size
    }

    /// Closes the file for rotation and returns the rotation's steps, in order; the caller
    /// performs them and opens the file again.
    pub fn rotate(&mut self) -> (r: Vec<RotationStep>)
        ensures
            r@.len() == rotation_steps_spec(old(self).path(), old(self).max_files() as nat, old(self).secure()).len(),
            forall|k: int|
                0 <= k < r@.len() ==> step_view(#[trigger] r@[k]) == rotation_steps_spec(
                    old(self).path(),
                    old(self).max_files() as nat,
                    old(self).secure(),
                )[k],
            !final(self).is_open(),
            final(self).counters() == old(self).counters(),
            final(self).path() == old(self).path(),
            final(self).max_size() == old(self).max_size(),
            final(self).max_files() == old(self).max_files(),
            final(self).secure() == old(self).secure(),
    {
        self.open = false;
        let ghost plan = rotation_steps_spec(self.path(), self.max_files() as nat, self.secure());
        let ghost k: nat = self.max_files() as nat;
        let mut r: Vec<RotationStep> = Vec::new();
        let oldest = backup_file(self.path.as_str(), self.max_files as u64);
        r.push(RotationStep::Delete { path: oldest, secure: self.secure_delete });
        let mut i: usize = self.max_files;
        while i >= 1
            invariant
                i <= k,
                k == self.max_files() as nat,
                plan == rotation_steps_spec(self.path(), k, self.secure()),
                plan.len() == k + 1,
                r@.len() == k - i + 1,
                forall|m: int| 0 <= m < r@.len() ==> step_view(#[trigger] r@[m]) == plan[m],
            decreases i,
        {
            let from = if i == 1 {
                self.path.clone()
            } else {
                backup_file(self.path.as_str(), (i - 1) as u64)
            };
            let to = backup_file(self.path.as_str(), i as u64);
            r.push(RotationStep::Rename { from, to, secure_delete_target: self.secure_delete });
            i = i - 1;
        }
        r
    }

    /// Notes the time of an event about to be logged.
    pub fn begin_log(&mut self, timestamp: Timestamp)
        ensures
            final(self).counters().first_event == match old(self).counters().first_event {
                Some(f) => Some(f),
                None => Some(timestamp),
            },
            final(self).counters().last_event == Some(timestamp),
            final(self).counters().total_logged == old(self).counters().total_logged,
            final(self).counters().pending == old(self).counters().pending,
            final(self).is_open() == old(self).is_open(),
            final(self).path() == old(self).path(),
            final(self).max_size() == old(self).max_size(),
            final(self).max_files() == old(self).max_files(),
            final(self).secure() == old(self).secure(),
    {
        self.counters.record_time(timestamp);
    }

    /// Checks that an event can be written now; fails when the file is not open.
    pub fn check_writable(&self) -> (r: Result<(), FileLogError>)
        ensures
            r is Ok <==> self.is_open(),
            r is Err ==> r == Err::<(), FileLogError>(FileLogError::NotOpen),
    {
        if self.open {
            Ok(())
        } else {
            Err(FileLogError::NotOpen)
        }
    }

    /// Records that an event line was written; returns whether enough events are pending for
    /// a flush.
    pub fn event_written(&mut self) -> (r: bool)
        ensures
            final(self).counters().pending == (old(self).counters().pending + 1) % 0x1_0000_0000_0000_0000,
            final(self).counters().total_logged == (old(self).counters().total_logged + 1) % 0x1_0000_0000_0000_0000,
            final(self).counters().first_event == old(self).counters().first_event,
            final(self).counters().last_event == old(self).counters().last_event,
            r == (final(self).counters().pending >= AUTO_FLUSH_EVENTS),
            final(self).is_open() == old(self).is_open(),
            final(self).path() == old(self).path(),
            final(self).max_size() == old(self).max_size(),
            final(self).max_files() == old(self).max_files(),
            final(self).secure() == old(self).secure(),
    {
        self.counters.pending = self.counters.pending.wrapping_add(1);
        self.counters.total_logged = self.counters.total_logged.wrapping_add(1);
        self.counters.pending >= AUTO_FLUSH_EVENTS
    }

    /// Records a flush: the pending count restarts when the file is open.
    pub fn flushed(&mut self)
        ensures
            final(self).counters().pending == if old(self).is_open() { 0 } else { old(self).counters().pending },
            final(self).counters().total_logged == old(self).counters().total_logged,
            final(self).counters().first_event == old(self).counters().first_event,
            final(self).counters().last_event == old(self).counters().last_event,
            final(self).is_open() == old(self).is_open(),
            final(self).path() == old(self).path(),
            final(self).max_size() == old(self).max_size(),
            final(self).max_files() == old(self).max_files(),
            final(self).secure() == old(self).secure(),
    {
        if self.open {
            self.counters.pending = 0;
        }
    }

    /// The logger's statistics, with the file size the caller measured.
    pub fn stats(&self, storage_bytes: Option<u64>) -> (r: LoggerStats)
        ensures
            r == (LoggerStats {
                events_logged: self.counters().total_logged,
                pending_events: self.counters().pending,
                storage_bytes,
                oldest_event: self.counters().first_event,
                newest_event: self.counters().last_event,
            }),
    {
        LoggerStats {
            events_logged: self.counters.total_logged,
            pending_events: self.counters.pending,
            storage_bytes,
            oldest_event: self.counters.first_event,
            newest_event: self.counters.last_event,
        }
    }

    /// The logger type name.
    pub fn logger_type(&self) -> (r: &'static str)
        ensures
            r@ == "file"@,
    {
        "file"
    }
}

/// Size of the blocks in which a file is overwritten before secure deletion.
pub const WIPE_BLOCK: usize = 4096;

/// What one overwrite pass writes over the whole file.
#[derive(Clone, Copy, Debug, PartialEq, Eq, Structural)]
pub enum WipeFill {
    /// Zero bytes.
    Zeros,
    /// The byte pattern of the given pass.
    Pattern(u8),
}

/// The passes of a secure deletion of a file of `file_size` bytes, each synced to disk
/// before the next: none for an empty file (it is removed at once), else zeros, pattern 0,
/// zeros, pattern 1, zeros.
pub open spec fn wipe_passes_spec(file_size: u64) -> Seq<WipeFill> {
    if file_size == 0 {
        seq![]
    } else {
        seq![WipeFill::Zeros, WipeFill::Pattern(0), WipeFill::Zeros, WipeFill::Pattern(1), WipeFill::Zeros]
    }
}

/// The overwrite passes of a secure deletion.
pub fn wipe_passes(file_size: u64) -> (r: Vec<WipeFill>)
    ensures
        r@ == wipe_passes_spec(file_size),
{
    let mut r: Vec<WipeFill> = Vec::new();
    if file_size == 0 {
        return r;
    }
    let mut pass: u8 = 0;
    while pass < 3
        invariant
            pass <= 3,
            r@ == if pass == 0 {
                seq![]
            } else if pass == 1 {
                seq![WipeFill::Zeros, WipeFill::Pattern(0)]
            } else if pass == 2 {
                seq![WipeFill::Zeros, WipeFill::Pattern(0), WipeFill::Zeros, WipeFill::Pattern(1)]
            } else {
                seq![WipeFill::Zeros, WipeFill::Pattern(0), WipeFill::Zeros, WipeFill::Pattern(1), WipeFill::Zeros]
            },
        decreases 3 - pass,
    {
        r.push(WipeFill::Zeros);
        if pass < 2 {
            r.push(WipeFill::Pattern(pass));
        }
        pass = pass + 1;
    }
    r
}

/// The block of pattern bytes of an overwrite pass: byte `i` is `(i * 0x5A + pass) mod 256`.
pub fn wipe_pattern(pass: u8) -> (r: Vec<u8>)
    ensures
        r@.len() == WIPE_BLOCK,
        forall|i: int| 0 <= i < WIPE_BLOCK ==> #[trigger] r@[i] == (i * 0x5A + pass) % 256,
{
    let mut r: Vec<u8> = Vec::new();
    let mut i: usize = 0;
    while i < WIPE_BLOCK
        invariant
            i <= WIPE_BLOCK,
            r@.len() == i,
            forall|j: int| 0 <= j < i ==> #[trigger] r@[j] == (j * 0x5A + pass) % 256,
        decreases WIPE_BLOCK - i,
    {
        r.push(((i * 0x5A + pass as usize) % 256) as u8);
        i = i + 1;
    }
    r
}

/// The length of the next block to write when `remaining` bytes are left.
pub fn wipe_chunk(remaining: u64) -> (r: usize)
    ensures
        r as int == if remaining < WIPE_BLOCK { remaining as int } else { WIPE_BLOCK as int },
{
    if remaining < WIPE_BLOCK as u64 {
        remaining as usize
    } else {
        WIPE_BLOCK
    }
}

/// Database-backed connection logger state.
pub struct DatabaseConnectionLogger {
    retention_days: u32,
    auto_purge: bool,
    counters: EventCounters,
}

impl DatabaseConnectionLogger {
    /// Days events are kept (0: forever).
    pub closed spec fn retention(&self) -> u32 {
        self.retention_days
    }

    /// Whether old events are purged while logging.
    pub closed spec fn purges(&self) -> bool {
        self.auto_purge
    }

    /// The logger's counters.
    pub closed spec fn counters(&self) -> EventCounters {
        self.counters
    }

    /// A logger with the given retention; counters start empty.
    pub fn new(retention_days: u32, auto_purge: bool) -> (r: Self)
        ensures
            r.retention() == retention_days,
            r.purges() == auto_purge,
            r.counters() == (EventCounters { total_logged: 0, pending: 0, first_event: None, last_event: None }),
    {
        DatabaseConnectionLogger { retention_days, auto_purge, counters: EventCounters::new() }
    }

    /// Takes over what the database already holds: the number of rows (as the database's
    /// signed count, reinterpreted as unsigned) and the oldest and newest event times found.
    pub fn load_stats(&mut self, count: i64, oldest: Option<Timestamp>, newest: Option<Timestamp>)
        ensures
            final(self).counters().total_logged == count as u64,
            final(self).counters().pending == old(self).counters().pending,
            final(self).counters().first_event == match oldest {
                Some(t) => Some(t),
                None => old(self).counters().first_event,
            },
            final(self).counters().last_event == match newest {
                Some(t) => Some(t),
                None => old(self).counters().last_event,
            },
            final(self).retention() == old(self).retention(),
            final(self).purges() == old(self).purges(),
    {
        self.counters.total_logged = count as u64;
        if let Some(t) = oldest {
            self.counters.first_event = Some(t);
        }
        if let Some(t) = newest {
            self.counters.last_event = Some(t);
        }
    }

    /// Notes the time of an event about to be logged.
    pub fn begin_log(&mut self, timestamp: Timestamp)
        ensures
            final(self).counters().first_event == match old(self).counters().first_event {
                Some(f) => Some(f),
                None => Some(timestamp),
            },
            final(self).counters().last_event == Some(timestamp),
            final(self).counters().total_logged == old(self).counters().total_logged,
            final(self).counters().pending == old(self).counters().pending,
            final(self).retention() == old(self).retention(),
            final(self).purges() == old(self).purges(),
    {
        self.counters.record_time(timestamp);
    }

    /// Records that an event row was inserted; returns whether old events are to be purged
    /// now (automatic purging on, and the count a multiple of 1000).
    pub fn event_inserted(&mut self) -> (r: bool)
        ensures
            final(self).counters().total_logged == (old(self).counters().total_logged + 1) % 0x1_0000_0000_0000_0000,
            final(self).counters().pending == old(self).counters().pending,
            final(self).counters().first_event == old(self).counters().first_event,
            final(self).counters().last_event == old(self).counters().last_event,
            r == (old(self).purges() && final(self).counters().total_logged % PURGE_EVERY == 0),
            final(self).retention() == old(self).retention(),
            final(self).purges() == old(self).purges(),
    {
        self.counters.total_logged = self.counters.total_logged.wrapping_add(1);
        self.auto_purge && self.counters.total_logged % PURGE_EVERY == 0
    }

    /// The instant before which events are purged, `retention_days` days before `now`, or
    /// nothing when events are kept forever.
    pub fn purge_cutoff(&self, now: &Timestamp) -> (r: Option<Timestamp>)
        requires
            now.wf(),
            now.secs - self.retention() * 86400 >= MIN_SECS,
        ensures
            self.retention() == 0 ==> r is None,
            self.retention() > 0 ==> r == Some(
                Timestamp { secs: (now.secs - self.retention() * 86400) as i64, nanos: now.nanos },
            ),
    {
        if self.retention_days == 0 {
            return None;
        }
        let back: i64 = self.retention_days as i64 * 86400;
        Some(Timestamp { secs: now.secs - back, nanos: now.nanos })
    }

    /// The logger's statistics: nothing is ever pending and the storage size is not measured.
    pub fn stats(&self) -> (r: LoggerStats)
        ensures
            r == (LoggerStats {
                events_logged: self.counters().total_logged,
                pending_events: 0,
                storage_bytes: None,
                oldest_event: self.counters().first_event,
                newest_event: self.counters().last_event,
            }),
    {
        LoggerStats {
            events_logged: self.counters.total_logged,
            pending_events: 0,
            storage_bytes: None,
            oldest_event: self.counters.first_event,
            newest_event: self.counters.last_event,
        }
    }

    /// The logger type name.
    pub fn logger_type(&self) -> (r: &'static str)
        ensures
            r@ == "database"@,
    {
        "database"
    }
}

/// A logger writing both to a file and to a database.
pub struct CompositeLogger {
    pub file_logger: FileConnectionLogger,
    pub db_logger: DatabaseConnectionLogger,
}

impl CompositeLogger {
    pub fn new(file_logger: FileConnectionLogger, db_logger: DatabaseConnectionLogger) -> (r: Self)
        ensures
            r.file_logger == file_logger,
            r.db_logger == db_logger,
    {
        CompositeLogger { file_logger, db_logger }
    }

    /// What logging an event returns, given what each part returned for it: the event goes to
    /// the file logger first and then to the database logger, each once, and the result is the
    /// file logger's error when both failed, success otherwise.
    pub fn log_result<E, F>(file_result: Result<(), E>, db_result: Result<(), F>) -> (r: Result<(), E>)
        ensures
            (file_result is Err && db_result is Err) ==> r == file_result,
            !(file_result is Err && db_result is Err) ==> r is Ok,
    {
        match (file_result, db_result) {
            (Err(e), Err(_)) => Err(e),
            _ => Ok(()),
        }
    }

    /// The combined statistics of both parts, with the file size the caller measured.
    pub fn stats(&self, file_storage: Option<u64>) -> (r: LoggerStats)
        requires
            combinable(self.file_logger.stats_spec(file_storage), self.db_logger.stats_spec()),
        ensures
            r == combined(self.file_logger.stats_spec(file_storage), self.db_logger.stats_spec()),
    {
        let f = self.file_logger.stats(file_storage);
        let d = self.db_logger.stats();
        combine_stats(&f, &d)
    }

    /// The logger type name.
    pub fn logger_type(&self) -> (r: &'static str)
        ensures
            r@ == "composite"@,
    {
        "composite"
    }
}

/// The logger of ghost mode: every event is accepted and nothing is kept, so queries have
/// nothing to answer and the statistics stay empty.
#[derive(Clone, Copy, Debug, PartialEq, Eq, Structural)]
pub struct NullConnectionLogger {}

impl NullConnectionLogger {
    pub fn new() -> (r: Self) {
        NullConnectionLogger {}
    }

    /// Logging an event succeeds and stores nothing.
    pub fn log(&self, event: ConnectionEvent) -> (r: Result<(), FileLogError>)
        ensures
            r is Ok,
    {
        Ok(())
    }

    /// Recent events: querying is not supported.
    pub fn query_recent(&self, limit: usize) -> (r: Option<Vec<ConnectionEvent>>)
        ensures
            r is None,
    {
        None
    }

    /// The events of a connection: querying is not supported.
    pub fn query_connection(&self, id: ConnectionId) -> (r: Option<Vec<ConnectionEvent>>)
        ensures
            r is None,
    {
        None
    }

    /// The statistics: nothing logged, nothing pending, no storage, no event times.
    pub fn stats(&self) -> (r: LoggerStats)
        ensures
            r == empty_stats(),
    {
        LoggerStats::default()
    }

    /// This is the ghost-mode logger.
    pub fn is_null(&self) -> (r: bool)
        ensures
            r,
    {
        true
    }
}

impl FileConnectionLogger {
    /// The statistics `stats` reports.
    pub open spec fn stats_spec(&self, storage_bytes: Option<u64>) -> LoggerStats {
        LoggerStats {
            events_logged: self.counters().total_logged,
            pending_events: self.counters().pending,
            storage_bytes,
            oldest_event: self.counters().first_event,
            newest_event: self.counters().last_event,
        }
    }
}

impl DatabaseConnectionLogger {
    /// The statistics `stats` reports.
    pub open spec fn stats_spec(&self) -> LoggerStats {
        LoggerStats {
            events_logged: self.counters().total_logged,
            pending_events: 0,
            storage_bytes: None,
            oldest_event: self.counters().first_event,
            newest_event: self.counters().last_event,
        }
    }
}

/// How connections are logged.
#[derive(Clone, Copy, Debug, PartialEq, Eq, Structural)]
pub enum ConnectionLogMode {
    /// Ghost mode: nothing is logged.
    Disabled,
    /// In memory only.
    Memory,
    /// To a file.
    File,
    /// To a database.
    Database,
    /// To both a file and a database.
    Both,
}

/// How long and how much connection data is kept.
#[derive(Clone, Copy, Debug, PartialEq, Eq, Structural)]
pub struct RetentionSettings {
    pub days: u32,
    pub max_file_size_mb: u32,
    pub max_files: u32,
    pub secure_delete: bool,
    pub auto_purge: bool,
}

/// Connection logging settings.
#[derive(Clone, Debug)]
pub struct LoggingSettings {
    pub connection_mode: ConnectionLogMode,
    pub connection_log_file: Option<String>,
    pub connection_log_db: Option<String>,
    pub retention: RetentionSettings,
}

/// File logger parameters.
#[derive(Clone, Debug)]
pub struct FileLoggerParams {
    pub path: String,
    pub max_size: u64,
    pub max_files: usize,
    pub secure_delete: bool,
}

/// Database logger parameters.
#[derive(Clone, Debug)]
pub struct DbLoggerParams {
    pub path: String,
    pub retention_days: u32,
    pub auto_purge: bool,
}

/// Which logger to build, with its parameters.
#[derive(Clone, Debug)]
pub enum LoggerPlan {
    /// No logging at all.
    Null,
    /// In-memory logging keeping about `capacity` events.
    Memory { capacity: usize },
    File(FileLoggerParams),
    Database(DbLoggerParams),
    Both(FileLoggerParams, DbLoggerParams),
}

/// The default connection log file.
pub open spec fn default_log_file() -> Seq<char> {
    "/var/log/corevpn/connections.log"@
}

/// The default connection database.
pub open spec fn default_log_db() -> Seq<char> {
    "/var/lib/corevpn/connections.db"@
}

/// The file logger parameters the settings give.
pub open spec fn file_params_of(p: FileLoggerParams, s: LoggingSettings) -> bool {
    &&& p.path@ == match s.connection_log_file {
        Some(f) => f@,
        None => default_log_file(),
    }
    &&& p.max_size == s.retention.max_file_size_mb * 1048576
    &&& p.max_files == s.retention.max_files
    &&& p.secure_delete == s.retention.secure_delete
}

/// The database logger parameters the settings give.
pub open spec fn db_params_of(p: DbLoggerParams, s: LoggingSettings) -> bool {
    &&& p.path@ == match s.connection_log_db {
        Some(f) => f@,
        None => default_log_db(),
    }
    &&& p.retention_days == s.retention.days
    &&& p.auto_purge == s.retention.auto_purge
}

fn file_params(s: &LoggingSettings) -> (r: FileLoggerParams)
    ensures
        file_params_of(r, *s),
{
    let path = match &s.connection_log_file {
        Some(f) => f.clone(),
        None => "/var/log/corevpn/connections.log".to_owned(),
    };
    FileLoggerParams {
        path,
        max_size: s.retention.max_file_size_mb as u64 * 1048576,
        max_files: s.retention.max_files as usize,
        secure_delete: s.retention.secure_delete,
    }
}

fn db_params(s: &LoggingSettings) -> (r: DbLoggerParams)
    ensures
        db_params_of(r, *s),
{
    let path = match &s.connection_log_db {
        Some(f) => f.clone(),
        None => "/var/lib/corevpn/connections.db".to_owned(),
    };
    DbLoggerParams { path, retention_days: s.retention.days, auto_purge: s.retention.auto_purge }
}

/// The logger chosen for the settings: none in ghost mode; in memory, room for one event
/// per minute of the retention period; the file and/or database loggers with the configured
/// or default paths otherwise.
pub open spec fn plan_for(settings: LoggingSettings, r: LoggerPlan) -> bool {
    match settings.connection_mode {
        ConnectionLogMode::Disabled => r is Null,
        ConnectionLogMode::Memory => r == LoggerPlan::Memory {
            capacity: (settings.retention.days * 1440) as usize,
        },
        ConnectionLogMode::File => r matches LoggerPlan::File(f) && file_params_of(f, settings),
        ConnectionLogMode::Database => r matches LoggerPlan::Database(d) && db_params_of(d, settings),
        ConnectionLogMode::Both => r matches LoggerPlan::Both(f, d) && file_params_of(f, settings)
            && db_params_of(d, settings),
    }
}

/// The settings in effect when the server runs, with or without ghost mode.
pub open spec fn with_ghost(settings: LoggingSettings, ghost: bool) -> LoggingSettings {
    if ghost {
        LoggingSettings { connection_mode: ConnectionLogMode::Disabled, ..settings }
    } else {
        settings
    }
}

/// Ghost mode overrides the configuration: connection logging is turned off.
pub fn apply_ghost_mode(settings: &mut LoggingSettings, ghost: bool)
    ensures
        *final(settings) == with_ghost(*old(settings), ghost),
{
    if ghost {
        settings.connection_mode = ConnectionLogMode::Disabled;
    }
}

/// In ghost mode no connection logger exists, whatever the configuration says: nothing about
/// connections is recorded.
pub proof fn law_ghost_mode_logs_nothing(configured: LoggingSettings, plan: LoggerPlan)
    requires
        plan_for(with_ghost(configured, true), plan),
    ensures
        plan is Null,
{
}

/// Chooses the connection logger for the settings: none in ghost mode; in memory, room for
/// one event per minute of the retention period; the file and/or database loggers with the
/// configured or default paths otherwise.
pub fn create_logger(settings: &LoggingSettings) -> (r: LoggerPlan)
    requires
        settings.retention.days * 1440 <= usize::MAX,
    ensures
        plan_for(*settings, r),
{
    match settings.connection_mode {
        ConnectionLogMode::Disabled => LoggerPlan::Null,
        ConnectionLogMode::Memory => LoggerPlan::Memory {
            capacity: settings.retention.days as usize * 24 * 60,
        },
        ConnectionLogMode::File => LoggerPlan::File(file_params(settings)),
        ConnectionLogMode::Database => LoggerPlan::Database(db_params(settings)),
        ConnectionLogMode::Both => LoggerPlan::Both(file_params(settings), db_params(settings)),
    }
}

} // verus!
