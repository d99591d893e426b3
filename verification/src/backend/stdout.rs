//! The sink that prints one JSON object per line to standard output.

use crate::clock::{syslog_time_format, timestamp_text, Moment};
use crate::context::{
    distinct_keys, has_key, lemma_put_distinct, lemma_put_keys, object_text, put, Context, Pairs,
};
use crate::json::{string_value, text_value};
use crate::Level;
use vstd::prelude::*;
use vstd::string::StringExecFns;

verus! {

/// The pairs of a console line: the context with `time`, `level` and
/// `syslog_program` written onto it, in that order. A key of the context
/// with one of these names keeps its place and takes the written value.
pub open spec fn console_pairs(name: Seq<char>, level: Level, pairs: Pairs, stamp: Seq<char>) -> Pairs {
    put(
        put(put(pairs, "time"@, text_value(stamp)), "level"@, text_value(level.name())),
        "syslog_program"@,
        text_value(name),
    )
}

/// The console line of a message, where it has one: the moment must have a
/// timestamp and the pairs a JSON text.
pub open spec fn console_line(name: Seq<char>, level: Level, pairs: Pairs, at: Moment) -> Option<
    Seq<char>,
> {
    if at.in_calendar() && at.year_fits() {
        object_text(console_pairs(name, level, pairs, timestamp_text(at)))
    } else {
        None
    }
}

/// The keys of a console line are exactly those of the context and `time`,
/// `level` and `syslog_program`: none is dropped and no other is added, and
/// each still stands once.
pub proof fn console_line_keys(
    name: Seq<char>,
    level: Level,
    pairs: Pairs,
    stamp: Seq<char>,
    k: Seq<char>,
)
    requires
        distinct_keys(pairs),
    ensures
        has_key(console_pairs(name, level, pairs, stamp), k) <==> (has_key(pairs, k) || k == "time"@
            || k == "level"@ || k == "syslog_program"@),
        distinct_keys(console_pairs(name, level, pairs, stamp)),
{
    let a = put(pairs, "time"@, text_value(stamp));
    let b = put(a, "level"@, text_value(level.name()));
    lemma_put_keys(pairs, "time"@, text_value(stamp), k);
    lemma_put_keys(a, "level"@, text_value(level.name()), k);
    lemma_put_keys(b, "syslog_program"@, text_value(name), k);
    lemma_put_distinct(pairs, "time"@, text_value(stamp));
    lemma_put_distinct(a, "level"@, text_value(level.name()));
    lemma_put_distinct(b, "syslog_program"@, text_value(name));
}

/// The standard-output sink. It holds nothing: each message is encoded and
/// printed on its own.
#[derive(Debug, Clone, Copy)]
pub struct Stdout {}

impl Stdout {
    /// The standard-output sink.
    pub fn new() -> (r: Self)
        ensures
            r == (Stdout {  }),
    {
        Stdout {  }
    }

    /// What this sink prints for a message: the context with the time, the
    /// level's name and the program name written onto it, as one compact JSON
    /// object; nothing where the message cannot be encoded.
    pub fn line(&self, name: &String, level: Level, pairs: &Context, at: &Moment) -> (r: Option<
        String,
    >)
        ensures
            match r {
                Some(s) => console_line(name@, level, pairs@, *at) == Some(s@),
                None => console_line(name@, level, pairs@, *at) is None,
            },
    {
        let stamp = match syslog_time_format(at) {
            Some(s) => s,
            None => {
                return None;
            },
        };
        let mut p = pairs.duplicate();
        p.insert(String::from_str("time"), string_value(stamp.as_str()));
        p.insert(String::from_str("level"), string_value(level.to_string().as_str()));
        p.insert(String::from_str("syslog_program"), string_value(name.as_str()));
        p.to_json()
    }
}

} // verus!
