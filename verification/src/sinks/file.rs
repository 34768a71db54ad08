//! Local file audit sink: the decisions about paths, rotation and size accounting. Opening,
//! writing and renaming files is done by the caller following these decisions.

use vstd::prelude::*;
use crate::audit_formats::{AuditFormat, FormatConfig, FormatEncoder};
use crate::clock::{now, strftime, strftime_text, Timestamp};
use crate::ids::host_name;
use crate::sinks::BatchBuffer;
use crate::text::{decimal, push_str, replace_all, replaced, str_eq, write_decimal};

verus! {

/// File sink configuration.
#[derive(Clone, Debug)]
pub struct FileConfig {
    /// File path (supports placeholders: {date}, {hour}, {host})
    pub path: String,
    /// Format configuration
    pub format: FormatConfig,
    /// Rotation strategy
    pub rotation: RotationStrategy,
    /// Maximum file size in bytes (for size-based rotation)
    pub max_size: u64,
    /// Maximum number of backup files to keep
    pub max_files: u32,
    /// Compress rotated files
    pub compress: bool,
    /// File permissions (octal, e.g., 0o600)
    pub permissions: u32,
    /// Sync after each write
    pub sync_writes: bool,
    /// Buffer size
    pub buffer_size: usize,
}

/// Default maximum file size: 100 MiB.
pub fn default_max_size() -> (r: u64)
    ensures
        r == 100 * 1024 * 1024,
{
    100 * 1024 * 1024
}

/// Default number of backup files.
pub fn default_max_files() -> (r: u32)
    ensures
        r == 10,
{
    10
}

/// Default file permissions: owner read and write.
pub fn default_permissions() -> (r: u32)
    ensures
        r == 0o600,
{
    0o600
}

/// Default number of buffered lines.
pub fn default_buffer_size() -> (r: usize)
    ensures
        r == 100,
{
    100
}

/// When the log file is rotated.
#[derive(Clone, Copy, Debug, PartialEq, Eq, Structural)]
pub enum RotationStrategy {
    /// No rotation
    Disabled,
    /// Rotate based on size
    Size,
    /// Rotate daily
    Daily,
    /// Rotate hourly
    Hourly,
    /// Rotate on both size and time
    SizeAndDaily,
}

impl Default for RotationStrategy {
    fn default() -> (r: Self)
        ensures
            r == RotationStrategy::Disabled,
    {
        RotationStrategy::Disabled
    }
}

/// A path template with its placeholders filled: `{date}` first, then `{hour}`, then
/// `{host}`.
pub open spec fn filled_path(template: Seq<char>, date: Seq<char>, hour: Seq<char>, host: Seq<char>) -> Seq<char> {
    replaced(replaced(replaced(template, "{date}"@, date), "{hour}"@, hour), "{host}"@, host)
}

/// The path a template names at an instant on a host: `{date}` becomes the UTC date
/// (`YYYY-MM-DD`), then `{hour}` the UTC hour (`HH`), then `{host}` the host name.
pub open spec fn resolved_path(template: Seq<char>, t: Timestamp, host: Seq<char>) -> Seq<char> {
    filled_path(
        template,
        strftime_text(t.secs, t.nanos, "%Y-%m-%d"@),
        strftime_text(t.secs, t.nanos, "%H"@),
        host,
    )
}

/// Fills the placeholders of a path template with a date, an hour and a host name.
pub fn fill_path_template(template: &str, date: &str, hour: &str, host: &str) -> (r: String)
    ensures
        r@ == filled_path(template@, date@, hour@, host@),
{
    proof {
        reveal_strlit("{date}");
        reveal_strlit("{hour}");
        reveal_strlit("{host}");
    }
    let a = replace_all(template, "{date}", date);
    let b = replace_all(a.as_str(), "{hour}", hour);
    replace_all(b.as_str(), "{host}", host)
}

/// Resolves the placeholders of a path template for an instant and a host name.
pub fn resolve_path_at(template: &str, t: &Timestamp, host: &str) -> (r: String)
    requires
        t.wf(),
    ensures
        r@ == resolved_path(template@, *t, host@),
{
    let date = strftime(t, "%Y-%m-%d");
    let hour = strftime(t, "%H");
    fill_path_template(template, date.as_str(), hour.as_str(), host)
}

/// Resolves the placeholders of a path template for the current time on this machine.
pub fn resolve_path(template: &str) -> (r: String)
    ensures
        exists|t: Timestamp, h: Seq<char>| t.wf() && r@ == resolved_path(template@, t, h),
{
    let t = now();
    let host = host_name();
    resolve_path_at(template, &t, host.as_str())
}

/// The output format of a file sink: JSON becomes JSON Lines, other formats stay.
pub open spec fn file_format_of(f: AuditFormat) -> AuditFormat {
    match f {
        AuditFormat::Json => AuditFormat::JsonLines,
        other => other,
    }
}

/// Whether a file of `size` bytes is due for rotation under the strategy.
pub open spec fn rotation_due(strategy: RotationStrategy, size: u64, max_size: u64) -> bool {
    match strategy {
        RotationStrategy::Size | RotationStrategy::SizeAndDaily => size >= max_size,
        _ => false,
    }
}

/// The name of backup number `i` of a log file.
pub open spec fn backup_name(path: Seq<char>, i: nat) -> Seq<char> {
    path + "."@ + decimal(i)
}

/// The renames of a rotation, in order: each backup `i` to `i + 1`, from the highest
/// (`max_files - 1`) down to 1, then the file itself to backup 1.
pub open spec fn rotation_plan(path: Seq<char>, max_files: nat) -> Seq<(Seq<char>, Seq<char>)> {
    let shifts = if max_files >= 1 { (max_files - 1) as nat } else { 0 };
    Seq::new(
        shifts,
        |k: int| (backup_name(path, (shifts - k) as nat), backup_name(path, (shifts - k + 1) as nat)),
    ).push((path, backup_name(path, 1)))
}

/// A backup file name as a string.
fn backup_path(path: &str, i: u64) -> (r: String)
    ensures
        r@ == backup_name(path@, i as nat),
{
    let mut r = path.to_owned();
    push_str(&mut r, ".");
    write_decimal(&mut r, i);
    r
}

/// File sink state: the buffered lines, the current file's path and size, and whether it is
/// open.
pub struct FileSink {
    config: FileConfig,
    encoder: FormatEncoder,
    buffer: BatchBuffer<String>,
    current_path: String,
    current_size: u64,
    file_open: bool,
}

impl FileSink {
    /// The sink's configuration.
    pub closed spec fn cfg(&self) -> FileConfig {
        self.config
    }

    /// The encoder the sink uses.
    pub closed spec fn enc(&self) -> FormatEncoder {
        self.encoder
    }

    /// The lines waiting to be written.
    pub closed spec fn pending(&self) -> BatchBuffer<String> {
        self.buffer
    }

    /// The path of the current file.
    pub closed spec fn path(&self) -> Seq<char> {
        self.current_path@
    }

    /// The size of the current file in bytes, as far as the sink knows it.
    pub closed spec fn size(&self) -> u64 {
        self.current_size
    }

    /// Whether the current file is open.
    pub closed spec fn is_open(&self) -> bool {
        self.file_open
    }

    /// A sink for an already resolved path; no file is open yet.
    pub fn with_path(config: FileConfig, path: String) -> (r: Self)
        ensures
            r.cfg() == config,
            r.enc().cfg() == (FormatConfig {
                format: file_format_of(config.format.format),
                ..config.format
            }),
            r.pending().contents().len() == 0,
            r.pending().limit() == config.buffer_size,
            r.path() == path@,
            r.size() == 0,
            !r.is_open(),
    {
        let format = match config.format.format {
            AuditFormat::Json => AuditFormat::JsonLines,
            other => other,
        };
        let encoder = FormatEncoder::new(config.format.with_format(format));
        let buffer_size = config.buffer_size;
        FileSink {
            config,
            encoder,
            buffer: BatchBuffer::new(buffer_size),
            current_path: path,
            current_size: 0,
            file_open: false,
        }
    }

    /// A sink writing to the configured path resolved for now on this machine.
    pub fn new(config: FileConfig) -> (r: Self)
        ensures
            r.cfg() == config,
            r.enc().cfg() == (FormatConfig {
                format: file_format_of(config.format.format),
                ..config.format
            }),
            r.pending().contents().len() == 0,
            r.pending().limit() == config.buffer_size,
            exists|t: Timestamp, h: Seq<char>|
                t.wf() && r.path() == resolved_path(config.path@, t, h),
            r.size() == 0,
            !r.is_open(),
    {
        let path = resolve_path(config.path.as_str());
        Self::with_path(config, path)
    }

    /// The encoder the sink uses.
    pub fn encoder(&self) -> (r: &FormatEncoder)
        ensures
            *r == self.enc(),
    {
        &self.encoder
    }

    /// The path of the current file.
    pub fn current_path(&self) -> (r: &str)
        ensures
            r@ == self.path(),
    {
        self.current_path.as_str()
    }

    /// Whether the next write must first rotate the file.
    pub fn check_rotation(&self) -> (r: bool)
        ensures
            r == rotation_due(self.cfg().rotation, self.size(), self.cfg().max_size),
    {
        match self.config.rotation {
            RotationStrategy::Size | RotationStrategy::SizeAndDaily => self.current_size
                >= self.config.max_size,
            _ => false,
        }
    }

    /// Closes the current file for rotation and returns the renames to perform, in order
    /// (a rename whose source does not exist is skipped by the caller).
    pub fn rotate(&mut self) -> (r: Vec<(String, String)>)
        ensures
            r@.len() == rotation_plan(old(self).path(), old(self).cfg().max_files as nat).len(),
            forall|k: int|
                0 <= k < r@.len() ==> (#[trigger] r@[k]).0@ == rotation_plan(
                    old(self).path(),
                    old(self).cfg().max_files as nat,
                )[k].0 && r@[k].1@ == rotation_plan(
                    old(self).path(),
                    old(self).cfg().max_files as nat,
                )[k].1,
            !final(self).is_open(),
            final(self).size() == 0,
            final(self).path() == old(self).path(),
            final(self).cfg() == old(self).cfg(),
            final(self).enc() == old(self).enc(),
            final(self).pending() == old(self).pending(),
    {
        let ghost plan = rotation_plan(self.path(), self.cfg().max_files as nat);
        let ghost shifts: nat = if self.cfg().max_files >= 1 {
            (self.cfg().max_files - 1) as nat
        } else {
            0
        };
        let mut r: Vec<(String, String)> = Vec::new();
        let mut i: u32 = if self.config.max_files >= 1 { self.config.max_files - 1 } else { 0 };
        while i >= 1
            invariant
                i <= shifts,
                shifts == (if self.cfg().max_files >= 1 { (self.cfg().max_files - 1) as nat } else { 0 }),
                plan == rotation_plan(self.path(), self.cfg().max_files as nat),
                r@.len() == shifts - i,
                forall|k: int|
                    0 <= k < r@.len() ==> (#[trigger] r@[k]).0@ == plan[k].0 && r@[k].1@
                        == plan[k].1,
            decreases i,
        {
            let from = backup_path(self.current_path.as_str(), i as u64);
            let to = backup_path(self.current_path.as_str(), i as u64 + 1);
            r.push((from, to));
            i = i - 1;
        }
        let last = backup_path(self.current_path.as_str(), 1);
        r.push((self.current_path.clone(), last));
        self.file_open = false;
        self.current_size = 0;
        r
    }

    /// Moves to a newly resolved path: when it differs from the current one, the current file
    /// is closed and the size count restarts. Returns whether the path changed.
    pub fn switch_path(&mut self, new_path: String) -> (r: bool)
        ensures
            r == (new_path@ != old(self).path()),
            r ==> (final(self).path() == new_path@ && !final(self).is_open() && final(self).size()
                == 0),
            !r ==> (final(self).path() == old(self).path() && final(self).is_open()
                == old(self).is_open() && final(self).size() == old(self).size()),
            final(self).cfg() == old(self).cfg(),
            final(self).enc() == old(self).enc(),
            final(self).pending() == old(self).pending(),
    {
        if str_eq(self.current_path.as_str(), new_path.as_str()) {
            false
        } else {
            self.file_open = false;
            self.current_path = new_path;
            self.current_size = 0;
            true
        }
    }

    /// The permission bits the log file is created with: the configured ones.
    pub fn file_mode(&self) -> (r: u32)
        ensures
            r == self.cfg().permissions,
    {
        self.config.permissions
    }

    /// Whether the current file has to be opened before writing.
    pub fn needs_open(&self) -> (r: bool)
        ensures
            r == !self.is_open(),
    {
        !self.file_open
    }

    /// Records that the current file was opened, holding `existing_len` bytes already.
    pub fn opened(&mut self, existing_len: u64)
        ensures
            final(self).is_open(),
            final(self).size() == existing_len,
            final(self).path() == old(self).path(),
            final(self).cfg() == old(self).cfg(),
            final(self).enc() == old(self).enc(),
            final(self).pending() == old(self).pending(),
    {
        self.file_open = true;
        self.current_size = existing_len;
    }

    /// Records that `bytes` more bytes were written to the current file.
    pub fn record_written(&mut self, bytes: u64)
        requires
            old(self).size() + bytes <= u64::MAX,
        ensures
            final(self).size() == old(self).size() + bytes,
            final(self).is_open() == old(self).is_open(),
            final(self).path() == old(self).path(),
            final(self).cfg() == old(self).cfg(),
            final(self).enc() == old(self).enc(),
            final(self).pending() == old(self).pending(),
    {
        self.current_size = self.current_size + bytes;
    }

    /// Records that the file was closed.
    pub fn closed(&mut self)
        ensures
            !final(self).is_open(),
            final(self).size() == old(self).size(),
            final(self).path() == old(self).path(),
            final(self).cfg() == old(self).cfg(),
            final(self).enc() == old(self).enc(),
            final(self).pending() == old(self).pending(),
    {
        self.file_open = false;
    }

    /// Buffers an encoded line; returns the lines to write once the buffer is full.
    pub fn push(&mut self, line: String) -> (r: Option<Vec<String>>)
        ensures
            final(self).cfg() == old(self).cfg(),
            final(self).enc() == old(self).enc(),
            final(self).path() == old(self).path(),
            final(self).size() == old(self).size(),
            final(self).is_open() == old(self).is_open(),
            final(self).pending().limit() == old(self).pending().limit(),
            old(self).pending().contents().len() + 1 >= old(self).pending().limit() ==> (r matches Some(
                b,
            ) && b@ == old(self).pending().contents().push(line)
                && final(self).pending().contents().len() == 0),
            old(self).pending().contents().len() + 1 < old(self).pending().limit() ==> (r is None
                && final(self).pending().contents() == old(self).pending().contents().push(line)),
    {
        self.buffer.push(line)
    }

    /// Everything buffered, to write now.
    pub fn flush(&mut self) -> (r: Vec<String>)
        ensures
            r@ == old(self).pending().contents(),
            final(self).pending().contents().len() == 0,
            final(self).pending().limit() == old(self).pending().limit(),
            final(self).cfg() == old(self).cfg(),
            final(self).enc() == old(self).enc(),
            final(self).path() == old(self).path(),
            final(self).size() == old(self).size(),
            final(self).is_open() == old(self).is_open(),
    {
        self.buffer.take_all()
    }

    /// The sink name for logging.
    pub fn name(&self) -> (r: &'static str)
        ensures
            r@ == "file"@,
    {
        "file"
    }
}

} // verus!
