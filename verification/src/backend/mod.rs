//! Sinks: where an encoded message goes, and how it is encoded on the way.

pub mod cee_syslog;
pub mod stderr;
pub mod stdout;

pub use self::cee_syslog::CeeSyslog;
pub use self::stderr::Stderr;
pub use self::stdout::Stdout;

use crate::clock::{syslog_time_format, timestamp_text, Moment};
use crate::context::{object_text, Context, Pairs};
use crate::decimal::{decimal_text, push_decimal};
use crate::Level;
use vstd::prelude::*;
use vstd::string::StringExecFns;

verus! {

/// What one call of `send` hands to a sink: the program name, the severity
/// and the pairs.
pub type Record = (Seq<char>, Level, Pairs);

/// A destination for log messages. `send` is best effort: it returns nothing,
/// and whatever goes wrong on the way stays inside the sink.
pub trait Backend {
    /// Everything that was handed to this sink so far, oldest first. It
    /// records the calls of `send`, not what reached the destination. A sink
    /// defined outside verified code has no say in it: what is written here
    /// only stands in for the journal that such a sink does not spell out.
    open spec fn journal(&self) -> Seq<Record> {
        Seq::empty()
    }

    /// What handing `record` to this sink did to the sinks behind it, where
    /// it has any: `after` is this sink once the record was handed on. A sink
    /// that stands alone has nothing to say here.
    open spec fn passed_on(&self, after: &Self, record: Record) -> bool {
        true
    }

    /// Hands one message to the sink: its journal grows by the one record,
    /// and so do the journals of the sinks behind it.
    fn send(&mut self, name: &String, level: Level, pairs: &Context)
        ensures
            final(self).journal() == old(self).journal().push((name@, level, pairs@)),
            old(self).passed_on(final(self), (name@, level, pairs@)),
    ;
}

/// A sink that forwards every message to two sinks, the first before the
/// second.
#[derive(Debug, Clone)]
pub struct Fused<B1: Backend, B2: Backend> {
    b1: B1,
    b2: B2,
}

impl<B1: Backend, B2: Backend> Fused<B1, B2> {
    /// The sink that is served first.
    pub closed spec fn first(&self) -> B1 {
        self.b1
    }

    /// The sink that is served second.
    pub closed spec fn second(&self) -> B2 {
        self.b2
    }

    /// Fuses two sinks into one.
    pub fn new(b1: B1, b2: B2) -> (r: Self)
        ensures
            r.first() == b1,
            r.second() == b2,
    {
        Fused { b1: b1, b2: b2 }
    }
}

impl<B1: Backend, B2: Backend> Backend for Fused<B1, B2> {
    /// The journal of a fused sink is that of the sink it serves first.
    closed spec fn journal(&self) -> Seq<Record> {
        self.b1.journal()
    }

    /// Both sinks were handed the record, once each, and handed it on in
    /// their turn.
    open spec fn passed_on(&self, after: &Self, record: Record) -> bool {
        &&& after.first().journal() == self.first().journal().push(record)
        &&& after.second().journal() == self.second().journal().push(record)
        &&& self.first().passed_on(&after.first(), record)
        &&& self.second().passed_on(&after.second(), record)
    }

    /// Hands the message to the first sink and then, with the same
    /// arguments, to the second: each journal grows by the one record.
    fn send(&mut self, name: &String, level: Level, pairs: &Context)
        ensures
            final(self).first().journal() == old(self).first().journal().push(
                (name@, level, pairs@),
            ),
            final(self).second().journal() == old(self).second().journal().push(
                (name@, level, pairs@),
            ),
    {
        self.b1.send(name, level, pairs);
        self.b2.send(name, level, pairs);
    }
}

/// The syslog priority of a level in the facility local7, as a number.
pub open spec fn priority_of(level: Level) -> int {
    23 * 8 + level.severity_code()
}

/// The syslog priority of a level: the facility local7, 23, shifted left by
/// three bits, plus the severity code.
pub fn priority(level: Level) -> (r: i32)
    ensures
        r as int == priority_of(level),
{
    let priority: i32 = match level {
        Level::Debug => 7,
        Level::Info => 6,
        Level::Warn => 4,
        Level::Error => 3,
        Level::Fatal => 2,
        Level::Panic => 0,
    };
    let syslog_local7: i32 = 23 << 3;
    assert(23i32 << 3 == 184i32) by (bit_vector);
    syslog_local7 + priority
}

/// The CEE frame of a message whose context has the JSON text `body` and
/// whose moment has the timestamp `stamp`.
pub open spec fn cee_frame_text(
    name: Seq<char>,
    level: Level,
    body: Seq<char>,
    pid: int,
    stamp: Seq<char>,
) -> Seq<char> {
    "<"@ + decimal_text(priority_of(level)) + ">"@ + stamp + " "@ + name + "["@ + decimal_text(pid)
        + "]: @cee:"@ + body + "\n"@
}

/// The CEE frame of a message, where it has one: the moment must have a
/// timestamp and the context a JSON text.
pub open spec fn cee_frame(name: Seq<char>, level: Level, pairs: Pairs, pid: int, at: Moment) -> Option<
    Seq<char>,
> {
    if at.in_calendar() && at.year_fits() {
        match object_text(pairs) {
            Some(body) => Some(cee_frame_text(name, level, body, pid, timestamp_text(at))),
            None => None,
        }
    } else {
        None
    }
}

/// The frame is a function of the name, the level, the pairs, the process
/// and the moment: two encodings of the same five are the same text, and
/// both exist or neither does. The priority of an error is 187.
pub proof fn cee_frame_is_deterministic(
    name: Seq<char>,
    level: Level,
    pairs: Pairs,
    pid: int,
    at: Moment,
    once: Option<Seq<char>>,
    again: Option<Seq<char>>,
)
    requires
        once == cee_frame(name, level, pairs, pid, at),
        again == cee_frame(name, level, pairs, pid, at),
    ensures
        once == again,
        priority_of(Level::Error) == 187,
{
}

/// Encodes a message as a CEE frame with its syslog header:
/// `<priority>timestamp name[pid]: @cee:{..}` and a line feed. `None` where
/// the context cannot be serialised or the moment has no timestamp.
pub fn to_cee_frame(name: &String, level: Level, pairs: &Context, pid: i32, at: &Moment) -> (r:
    Option<String>)
    ensures
        match r {
            Some(s) => cee_frame(name@, level, pairs@, pid as int, *at) == Some(s@),
            None => cee_frame(name@, level, pairs@, pid as int, *at) is None,
        },
{
    let body = match pairs.to_json() {
        Some(s) => s,
        None => {
            return None;
        },
    };
    let stamp = match syslog_time_format(at) {
        Some(s) => s,
        None => {
            return None;
        },
    };
    let mut out = String::from_str("<");
    push_decimal(&mut out, priority(level));
    out.append(">");
    out.append(stamp.as_str());
    out.append(" ");
    out.append(name.as_str());
    out.append("[");
    push_decimal(&mut out, pid);
    out.append("]: @cee:");
    out.append(body.as_str());
    out.append("\n");
    Some(out)
}

} // verus!
