//! A directory backup engine: given a source tree and a target location it
//! plans a timestamped copy of the source tree, optionally filtered,
//! compressed, incrementally pruned, and integrity-checked.
//!
//! The library holds the verified decision logic: the wavefront traversal
//! planner, the ordered feature pipeline that every entry passes through,
//! the cycle-safe visited-path tracking, the permission evaluation with its
//! cache, and the streaming integrity verifier. The surrounding binary
//! performs the filesystem work that these decisions call for.

use vstd::prelude::*;

use chrono::Datelike;
use chrono::Timelike;

pub mod args;
pub mod backup;
pub mod compression;
pub mod config;
pub mod dry_run;
pub mod features;
pub mod incremental;
pub mod integrity;
pub mod logging;
pub mod permissions;
pub mod wildcards;

verus! {

/// Names the permission whose absence caused a check to fail.
#[derive(Clone, Copy, PartialEq, Eq, Structural, Debug)]
pub enum PermissionType {
    Read,
    Write,
    Execute,
}

impl PermissionType {
    /// The permission's name, as the denial messages spell it.
    pub fn name(&self) -> (s: &'static str)
        ensures
            *self == PermissionType::Read ==> s@ == "read"@,
            *self == PermissionType::Write ==> s@ == "write"@,
            *self == PermissionType::Execute ==> s@ == "execute"@,
    {
        match self {
            PermissionType::Read => "read",
            PermissionType::Write => "write",
            PermissionType::Execute => "execute",
        }
    }
}

/// Errors that can occur during the backup process, one variant per kind:
/// I/O failure, configuration failure, missing source, denied permission,
/// thread-pool construction failure, invalid thread count, the two integrity
/// failures, and archive-write failure.
#[derive(Clone, Debug)]
pub enum BackupError {
    Io(String),
    Config(String),
    SourceNotFound(String),
    PermissionDenied { path: String, permission: PermissionType },
    ThreadPool(String),
    InvalidThreads(String),
    SizeMismatch,
    HashMismatch,
    ArchiveWrite(String),
}

/// The human-readable description of an error: a fixed phrase for its kind,
/// followed by the detail the variant carries.
pub open spec fn error_message_spec(e: BackupError) -> Seq<char> {
    match e {
        BackupError::Io(m) => "I/O error: "@ + m@,
        BackupError::Config(m) => "Configuration error: "@ + m@,
        BackupError::SourceNotFound(p) => "Source directory '"@ + p@ + "' does not exist"@,
        BackupError::PermissionDenied { path, permission } => "No "@ + (match permission {
            PermissionType::Read => "read"@,
            PermissionType::Write => "write"@,
            PermissionType::Execute => "execute"@,
        }) + " permission for '"@ + path@ + "'"@,
        BackupError::ThreadPool(m) => "Thread pool build error: "@ + m@,
        BackupError::InvalidThreads(m) => "Invalid number of threads: "@ + m@,
        BackupError::SizeMismatch => "File size mismatch"@,
        BackupError::HashMismatch => "Integrity check failed"@,
        BackupError::ArchiveWrite(m) => "Archive write error: "@ + m@,
    }
}

impl BackupError {
    /// Renders the error for the console, as `error_message_spec` describes
    /// it.
    pub fn message(&self) -> (s: String)
        ensures
            s@ == error_message_spec(*self),
    {
        let mut s = String::new();
        match self {
            BackupError::Io(m) => {
                s.append("I/O error: ");
                s.append(m.as_str());
            },
            BackupError::Config(m) => {
                s.append("Configuration error: ");
                s.append(m.as_str());
            },
            BackupError::SourceNotFound(p) => {
                s.append("Source directory '");
                s.append(p.as_str());
                s.append("' does not exist");
            },
            BackupError::PermissionDenied { path, permission } => {
                s.append("No ");
                s.append(permission.name());
                s.append(" permission for '");
                s.append(path.as_str());
                s.append("'");
            },
            BackupError::ThreadPool(m) => {
                s.append("Thread pool build error: ");
                s.append(m.as_str());
            },
            BackupError::InvalidThreads(m) => {
                s.append("Invalid number of threads: ");
                s.append(m.as_str());
            },
            BackupError::SizeMismatch => {
                s.append("File size mismatch");
            },
            BackupError::HashMismatch => {
                s.append("Integrity check failed");
            },
            BackupError::ArchiveWrite(m) => {
                s.append("Archive write error: ");
                s.append(m.as_str());
            },
        }
        proof {
            assert(s@ =~= error_message_spec(*self));
        }
        s
    }
}

/// A local calendar time, split into its fields. The clock is read by the
/// run once, at its start; everything built from it is a pure function of
/// this record.
#[derive(Clone, Copy, PartialEq, Eq, Structural, Debug)]
pub struct TimeParts {
    pub year: i32,
    pub month: u32,
    pub day: u32,
    pub hour: u32,
    pub minute: u32,
    pub second: u32,
}

/// The field ranges a calendar time satisfies.
pub open spec fn time_parts_valid(t: TimeParts) -> bool {
    &&& 1 <= t.month <= 12
    &&& 1 <= t.day <= 31
    &&& t.hour <= 23
    &&& t.minute <= 59
    &&& t.second <= 59
}

/// Relies on chrono::Local::now and the chrono Datelike/Timelike accessors:
/// the clock's reading, split into calendar fields, with the ranges those
/// accessors document (month 1 to 12, day 1 to 31, hour to 23, minute and
/// second to 59).
#[verifier::external_body]
fn current_local_time() -> (t: TimeParts)
    ensures
        time_parts_valid(t),
{
    let now = chrono::Local::now();
    TimeParts {
        year: now.year(),
        month: now.month(),
        day: now.day(),
        hour: now.hour(),
        minute: now.minute(),
        second: now.second(),
    }
}

/// The character for one decimal digit.
pub open spec fn digit_char(d: nat) -> char {
    if d == 0 {
        '0'
    } else if d == 1 {
        '1'
    } else if d == 2 {
        '2'
    } else if d == 3 {
        '3'
    } else if d == 4 {
        '4'
    } else if d == 5 {
        '5'
    } else if d == 6 {
        '6'
    } else if d == 7 {
        '7'
    } else if d == 8 {
        '8'
    } else {
        '9'
    }
}

/// The decimal digits of `n`, most significant first, with no leading zero.
pub open spec fn dec_seq(n: nat) -> Seq<char>
    decreases n,
{
    if n < 10 {
        seq![digit_char(n)]
    } else {
        dec_seq(n / 10).push(digit_char(n % 10))
    }
}

/// The decimal digits of `n`, zero-padded on the left to two places.
pub open spec fn pad2_seq(n: nat) -> Seq<char> {
    if n < 10 {
        seq!['0'] + dec_seq(n)
    } else {
        dec_seq(n)
    }
}

/// The decimal digits of `n`, zero-padded on the left to four places.
pub open spec fn pad4_seq(n: nat) -> Seq<char> {
    if n < 10 {
        seq!['0', '0', '0'] + dec_seq(n)
    } else if n < 100 {
        seq!['0', '0'] + dec_seq(n)
    } else if n < 1000 {
        seq!['0'] + dec_seq(n)
    } else {
        dec_seq(n)
    }
}

/// A year, zero-padded to four places, with a leading minus sign when it is
/// negative.
pub open spec fn year_seq(y: int) -> Seq<char> {
    if y < 0 {
        seq!['-'] + pad4_seq((-y) as nat)
    } else {
        pad4_seq(y as nat)
    }
}

/// A calendar time formatted to second precision: the year, month and day
/// joined by `-`, then `T`, then the hour, minute and second joined by `-`.
pub open spec fn timestamp_seq(t: TimeParts) -> Seq<char> {
    year_seq(t.year as int) + seq!['-'] + pad2_seq(t.month as nat) + seq!['-'] + pad2_seq(
        t.day as nat,
    ) + seq!['T'] + pad2_seq(t.hour as nat) + seq!['-'] + pad2_seq(t.minute as nat) + seq!['-']
        + pad2_seq(t.second as nat)
}

fn digit_str(d: u64) -> (s: &'static str)
    requires
        d < 10,
    ensures
        s@ == seq![digit_char(d as nat)],
{
    let s: &'static str = if d == 0 {
        "0"
    } else if d == 1 {
        "1"
    } else if d == 2 {
        "2"
    } else if d == 3 {
        "3"
    } else if d == 4 {
        "4"
    } else if d == 5 {
        "5"
    } else if d == 6 {
        "6"
    } else if d == 7 {
        "7"
    } else if d == 8 {
        "8"
    } else {
        "9"
    };
    proof {
        reveal_strlit("0");
        reveal_strlit("1");
        reveal_strlit("2");
        reveal_strlit("3");
        reveal_strlit("4");
        reveal_strlit("5");
        reveal_strlit("6");
        reveal_strlit("7");
        reveal_strlit("8");
        reveal_strlit("9");
        assert(s@ =~= seq![digit_char(d as nat)]);
    }
    s
}

/// The decimal digits of `n`, as `dec_seq` describes them.
pub fn dec_string(n: u64) -> (s: String)
    ensures
        s@ == dec_seq(n as nat),
    decreases n,
{
    if n < 10 {
        String::from_str(digit_str(n))
    } else {
        let mut s = dec_string(n / 10);
        s.append(digit_str(n % 10));
        proof {
            assert(s@ =~= dec_seq(n as nat));
        }
        s
    }
}

fn pad2_string(n: u64) -> (s: String)
    ensures
        s@ == pad2_seq(n as nat),
{
    let mut s = String::new();
    if n < 10 {
        s.append("0");
    }
    s.append(dec_string(n).as_str());
    proof {
        reveal_strlit("0");
        assert(s@ =~= pad2_seq(n as nat));
    }
    s
}

fn pad4_string(n: u64) -> (s: String)
    ensures
        s@ == pad4_seq(n as nat),
{
    let mut s = String::new();
    if n < 10 {
        s.append("000");
    } else if n < 100 {
        s.append("00");
    } else if n < 1000 {
        s.append("0");
    }
    s.append(dec_string(n).as_str());
    proof {
        reveal_strlit("000");
        reveal_strlit("00");
        reveal_strlit("0");
        assert(s@ =~= pad4_seq(n as nat));
    }
    s
}

/// Formats a calendar time to second precision, as `timestamp_seq`
/// describes it.
pub fn format_timestamp(t: &TimeParts) -> (s: String)
    ensures
        s@ == timestamp_seq(*t),
{
    let mut s = String::new();
    if t.year < 0 {
        s.append("-");
        let abs: u64 = (-(t.year as i64)) as u64;
        s.append(pad4_string(abs).as_str());
    } else {
        s.append(pad4_string(t.year as u64).as_str());
    }
    s.append("-");
    s.append(pad2_string(t.month as u64).as_str());
    s.append("-");
    s.append(pad2_string(t.day as u64).as_str());
    s.append("T");
    s.append(pad2_string(t.hour as u64).as_str());
    s.append("-");
    s.append(pad2_string(t.minute as u64).as_str());
    s.append("-");
    s.append(pad2_string(t.second as u64).as_str());
    proof {
        reveal_strlit("-");
        reveal_strlit("T");
        assert(s@ =~= timestamp_seq(*t));
    }
    s
}

/// The name of a backup root: the source directory's name and a timestamp,
/// joined by an underscore.
pub fn backup_dir_name(source_name: &String, timestamp: &String) -> (r: String)
    ensures
        r@ == source_name@ + "_"@ + timestamp@,
{
    let mut r = source_name.clone();
    r.append("_");
    r.append(timestamp.as_str());
    proof {
        assert(r@ =~= source_name@ + "_"@ + timestamp@);
    }
    r
}

/// The name of the backup root for a run starting now: the source
/// directory's name and the clock's reading formatted to second precision,
/// joined by an underscore.
pub fn timestamped_backup_name(source_name: &String) -> (r: String)
    ensures
        exists|t: TimeParts|
            #[trigger] time_parts_valid(t) && r@ == source_name@ + "_"@ + timestamp_seq(t),
{
    let t = current_local_time();
    let ts = format_timestamp(&t);
    let r = backup_dir_name(source_name, &ts);
    proof {
        assert(time_parts_valid(t) && r@ == source_name@ + "_"@ + timestamp_seq(t));
    }
    r
}

} // verus!
