//! Structured logging: every message carries the key-value context that its
//! logger has accumulated, is gated by severity, and is encoded either as a
//! CEE frame with syslog headers or as a single JSON line.

pub mod backend;
pub mod clock;
pub mod context;
pub mod decimal;
pub mod json;
pub mod logger;

use vstd::prelude::*;
use vstd::string::{StrSliceExecFns, StringExecFns};

verus! {

/// Severity of a message, from the most severe (`Panic`) to the most verbose
/// (`Debug`), matching the syslog severities.
#[derive(Clone, Copy, Debug, PartialEq, Eq, PartialOrd, Ord, Hash, Structural)]
pub enum Level {
    /// Syslog emerg level
    Panic,
    /// Syslog critical level
    Fatal,
    /// Syslog error level
    Error,
    /// Syslog warn level
    Warn,
    /// Syslog info level
    Info,
    /// Syslog debug level
    Debug,
}

impl Level {
    /// Position in the order of increasing verbosity: `Panic` is 0, `Debug` is 5.
    pub open spec fn verbosity(self) -> int {
        match self {
            Level::Panic => 0,
            Level::Fatal => 1,
            Level::Error => 2,
            Level::Warn => 3,
            Level::Info => 4,
            Level::Debug => 5,
        }
    }

    /// The syslog severity code; 5 ("notice") is not used.
    pub open spec fn severity_code(self) -> int {
        match self {
            Level::Panic => 0,
            Level::Fatal => 2,
            Level::Error => 3,
            Level::Warn => 4,
            Level::Info => 6,
            Level::Debug => 7,
        }
    }

    /// The lowercase name under which the console line reports the level.
    pub open spec fn name(self) -> Seq<char> {
        match self {
            Level::Panic => "panic"@,
            Level::Fatal => "fatal"@,
            Level::Error => "error"@,
            Level::Warn => "warning"@,
            Level::Info => "info"@,
            Level::Debug => "debug"@,
        }
    }

    /// Whether a logger configured at `self` emits a message of the given
    /// severity: the configured level must be at least as verbose.
    pub open spec fn permits(self, severity: Level) -> bool {
        self.verbosity() >= severity.verbosity()
    }

    /// The position of the level in the order of increasing verbosity.
    pub fn rank(self) -> (r: u8)
        ensures
            r as int == self.verbosity(),
    {
        match self {
            Level::Panic => 0,
            Level::Fatal => 1,
            Level::Error => 2,
            Level::Warn => 3,
            Level::Info => 4,
            Level::Debug => 5,
        }
    }

    /// True exactly when `self`, as a configured level,
    /// lets a message of `severity` through.
    pub fn allows(self, severity: Level) -> (r: bool)
        ensures
            r == self.permits(severity),
    {
        self.rank() >= severity.rank()
    }

    /// The display name of the level.
    pub fn to_string(&self) -> (r: String)
        ensures
            r@ == self.name(),
    {
        match self {
            Level::Panic => String::from_str("panic"),
            Level::Fatal => String::from_str("fatal"),
            Level::Error => String::from_str("error"),
            Level::Warn => String::from_str("warning"),
            Level::Info => String::from_str("info"),
            Level::Debug => String::from_str("debug"),
        }
    }
}

/// The verbosity order is total and antisymmetric: of two levels each permits
/// the other only when they are the same level, and one of them always
/// permits the other.
pub proof fn level_order_is_total(a: Level, b: Level)
    ensures
        a.permits(b) || b.permits(a),
        a.permits(b) && b.permits(a) ==> a == b,
        a.severity_code() <= b.severity_code() <==> b.permits(a),
{
}

/// The syslog socket that is used where none is configured: `/var/run/syslog`
/// on macOS, `/dev/log` elsewhere.
pub fn default_syslog_socket(macos: bool) -> (r: String)
    ensures
        r@ == (if macos { "/var/run/syslog"@ } else { "/dev/log"@ }),
{
    if macos {
        String::from_str("/var/run/syslog")
    } else {
        String::from_str("/dev/log")
    }
}

/// The program name and the syslog socket of the default logger: each as
/// configured, where it is; else the last component of the path the program
/// was started by, and the platform's default socket.
pub fn default_settings(
    program: Option<String>,
    started_as: &str,
    socket: Option<String>,
    macos: bool,
) -> (r: (String, String))
    ensures
        r.0@ == (match program {
            Some(name) => name@,
            None => started_as@.subrange(
                last_component_start(started_as@),
                started_as@.len() as int,
            ),
        }),
        r.1@ == (match socket {
            Some(path) => path@,
            None => if macos {
                "/var/run/syslog"@
            } else {
                "/dev/log"@
            },
        }),
{
    let app_name = match program {
        Some(name) => name,
        None => program_name(started_as),
    };
    let target = match socket {
        Some(val) => val,
        None => default_syslog_socket(macos),
    };
    (app_name, target)
}

/// Where the last component of a path begins: behind its last `/`, or at 0
/// where it has none.
pub open spec fn last_component_start(path: Seq<char>) -> int
    decreases path.len(),
{
    if path.len() == 0 {
        0
    } else if path.last() == '/' {
        path.len() as int
    } else {
        last_component_start(path.drop_last())
    }
}

/// The name under which a program logs where none is configured: the last
/// component of the path it was started by.
pub fn program_name(path: &str) -> (r: String)
    ensures
        0 <= last_component_start(path@) <= path@.len(),
        r@ == path@.subrange(last_component_start(path@), path@.len() as int),
{
    let n = path.unicode_len();
    let mut start: usize = 0;
    let mut i: usize = 0;
    while i < n
        invariant
            n == path@.len(),
            i <= n,
            start <= i,
            start as int == last_component_start(path@.take(i as int)),
        decreases n - i,
    {
        proof {
            let t = path@.take(i as int + 1);
            assert(t.drop_last() =~= path@.take(i as int));
            assert(t.last() == path@[i as int]);
        }
        if path.get_char(i) == '/' {
            start = i + 1;
        }
        i = i + 1;
    }
    assert(path@.take(n as int) =~= path@);
    String::from_str(path.substring_char(start, n))
}

} // verus!
