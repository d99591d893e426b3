//! The logger: a name, a configured level, the accumulated context and a
//! sink. Extending the context gives a new logger and leaves the old one as
//! it was; emitting is gated by the level.

use crate::backend::{Backend, Record};
use crate::context::{distinct_keys, merge_in_steps_or_at_once, merged, put, Context, Pairs};
use crate::json::{string_value, text_value};
use crate::Level;
use vstd::pervasive::cloned;
use vstd::prelude::*;
use vstd::string::StringExecFns;

verus! {

/// What `panic` returns: the demand to end the current unit of work
/// abnormally, with the message that was emitted. Whoever holds it must
/// terminate; the logger itself never does.
#[must_use]
#[derive(Debug)]
pub struct Abort {
    /// The message that was handed to the sink.
    pub message: String,
}

/// The core interface of a logger.
pub trait Logger: Clone {
    /// The accumulated context.
    spec fn context(&self) -> Pairs;

    /// The name of the emitting program.
    spec fn name(&self) -> Seq<char>;

    /// The configured level: the most verbose severity that is emitted.
    spec fn level(&self) -> Level;

    /// What this logger's sink was handed so far, oldest first.
    spec fn emitted(&self) -> Seq<Record>;

    /// `after` is `self` once its sink was handed exactly one message: what
    /// the logger has emitted grew by the name, the severity and the context
    /// with the message written under `msg`, and nothing else changed.
    open spec fn sent_once(&self, after: &Self, severity: Level, msg: Seq<char>) -> bool {
        &&& after.emitted() == self.emitted().push(
            (self.name(), severity, put(self.context(), "msg"@, text_value(msg))),
        )
        &&& after.context() == self.context()
        &&& after.name() == self.name()
        &&& after.level() == self.level()
    }

    /// `after` is `self` once a message of the given severity was filtered
    /// by level: handed to the sink once where the configured level permits
    /// the severity, and nothing emitted or changed where it does not.
    open spec fn gated(&self, after: &Self, severity: Level, msg: Seq<char>) -> bool {
        if self.level().permits(severity) {
            self.sent_once(after, severity, msg)
        } else {
            &&& after.emitted() == self.emitted()
            &&& after.context() == self.context()
            &&& after.name() == self.name()
            &&& after.level() == self.level()
        }
    }

    /// A new logger whose context is this one's with `kvs` merged in: on a
    /// shared key the value of `kvs` wins. Name and level are kept, and this
    /// logger stays as it is.
    fn kvs(&self, kvs: Context) -> (r: Self)
        ensures
            r.context() == merged(self.context(), kvs@),
            kvs@.len() == 0 ==> r.context() == self.context(),
            distinct_keys(r.context()),
            r.name() == self.name(),
            r.level() == self.level(),
    ;

    /// A new logger that carries the diagnostic text of an error under the
    /// key `err`.
    fn err(&self, err: &str) -> (r: Self)
        ensures
            r.context() == put(self.context(), "err"@, text_value(err@)),
            distinct_keys(r.context()),
            r.name() == self.name(),
            r.level() == self.level(),
    ;

    /// Emits a message at the debug level, where the configured level
    /// permits it.
    fn debug(&mut self, msg: &str)
        ensures
            old(self).gated(final(self), Level::Debug, msg@),
    ;

    /// Emits a message at the info level, where the configured level permits
    /// it.
    fn info(&mut self, msg: &str)
        ensures
            old(self).gated(final(self), Level::Info, msg@),
    ;

    /// Emits a message at the warn level, where the configured level permits
    /// it.
    fn warn(&mut self, msg: &str)
        ensures
            old(self).gated(final(self), Level::Warn, msg@),
    ;

    /// Emits a message at the error level, where the configured level
    /// permits it.
    fn error(&mut self, msg: &str)
        ensures
            old(self).gated(final(self), Level::Error, msg@),
    ;

    /// Emits a message at the fatal level, where the configured level
    /// permits it.
    fn fatal(&mut self, msg: &str)
        ensures
            old(self).gated(final(self), Level::Fatal, msg@),
    ;

    /// Hands a message at the panic level to the sink, whatever the
    /// configured level, and returns the demand to terminate: the caller has
    /// to end the current unit of work abnormally, and the message is with
    /// the sink by then.
    fn panic(&mut self, msg: &str) -> (r: Abort)
        ensures
            old(self).sent_once(final(self), Level::Panic, msg@),
            r.message@ == msg@,
    ;
}

/// Deriving a logger by `first` and from that one by `second` gives the
/// context, the name and the level that deriving it once by `second` merged
/// into `first` gives.
pub proof fn kvs_in_steps_or_at_once<L: Logger>(
    origin: L,
    between: L,
    stepwise: L,
    at_once: L,
    first: Pairs,
    second: Pairs,
)
    requires
        distinct_keys(origin.context()),
        distinct_keys(first),
        between.context() == merged(origin.context(), first),
        between.name() == origin.name(),
        between.level() == origin.level(),
        stepwise.context() == merged(between.context(), second),
        stepwise.name() == between.name(),
        stepwise.level() == between.level(),
        at_once.context() == merged(origin.context(), merged(first, second)),
        at_once.name() == origin.name(),
        at_once.level() == origin.level(),
    ensures
        stepwise.context() == at_once.context(),
        stepwise.name() == at_once.name(),
        stepwise.level() == at_once.level(),
{
    merge_in_steps_or_at_once(origin.context(), first, second);
}

/// A logger that attaches key-value pairs to every message it emits.
#[derive(Debug, Clone)]
pub struct KvsLogger<T: Backend + Clone> {
    keyvalues: Context,
    name: String,
    level: Level,
    backend: T,
}

impl<B: Backend + Clone> KvsLogger<B> {
    /// The sink.
    pub closed spec fn sink(&self) -> B {
        self.backend
    }

    /// What the sink is handed for a message: the name, the severity, and
    /// the context with the message written under `msg`.
    pub open spec fn record(&self, severity: Level, msg: Seq<char>) -> Record {
        (self.name(), severity, put(self.context(), "msg"@, text_value(msg)))
    }

    /// A logger for the program `name` that emits at `level` and above into
    /// `backend`, with an empty context.
    pub fn new(name: String, level: Level, backend: B) -> (r: Self)
        ensures
            r.context() == Seq::<(Seq<char>, serde_json::Value)>::empty(),
            r.name() == name@,
            r.level() == level,
            r.sink() == backend,
            r.emitted() == backend.journal(),
    {
        KvsLogger { keyvalues: Context::new(), level: level, name: name, backend: backend }
    }

    /// The configured level.
    pub fn threshold(&self) -> (r: Level)
        ensures
            r == self.level(),
    {
        self.level
    }

    /// The name of the emitting program.
    pub fn program(&self) -> (r: &String)
        ensures
            r@ == self.name(),
    {
        &self.name
    }

    /// The pairs accumulated so far.
    pub fn pairs(&self) -> (r: &Context)
        ensures
            r@ == self.context(),
            distinct_keys(r@),
    {
        proof {
            use_type_invariant(&self.keyvalues);
        }
        &self.keyvalues
    }

    fn send(&mut self, level: Level, message: String)
        ensures
            old(self).sent_once(final(self), level, message@),
            old(self).sink().passed_on(&final(self).sink(), old(self).record(level, message@)),
    {
        let mut pairs = self.keyvalues.duplicate();
        pairs.insert(String::from_str("msg"), string_value(message.as_str()));
        self.backend.send(&self.name, level, &pairs);
    }
}

impl<B: Backend + Clone> Logger for KvsLogger<B> {
    closed spec fn context(&self) -> Pairs {
        self.keyvalues@
    }

    closed spec fn name(&self) -> Seq<char> {
        self.name@
    }

    closed spec fn level(&self) -> Level {
        self.level
    }

    /// What the logger has emitted is the journal of its sink.
    open spec fn emitted(&self) -> Seq<Record> {
        self.sink().journal()
    }

    /// The sink of the new logger is a clone of this logger's sink.
    fn kvs(&self, kvs: Context) -> (r: Self)
        ensures
            cloned(self.sink(), r.sink()),
    {
        let mut new_kvs = self.keyvalues.duplicate();
        new_kvs.extend(&kvs);
        KvsLogger {
            keyvalues: new_kvs,
            name: self.name.clone(),
            level: self.level,
            backend: self.backend.clone(),
        }
    }

    /// The sink of the new logger is a clone of this logger's sink.
    fn err(&self, err: &str) -> (r: Self)
        ensures
            cloned(self.sink(), r.sink()),
    {
        let mut new_kvs = Context::new();
        new_kvs.insert(String::from_str("err"), string_value(err));
        assert(new_kvs@.drop_last() =~= Seq::<(Seq<char>, serde_json::Value)>::empty());
        assert(merged(self.context(), new_kvs@) == put(self.context(), "err"@, text_value(err@))) by {
            assert(merged(self.context(), new_kvs@.drop_last()) == self.context());
        }
        self.kvs(new_kvs)
    }

    /// Where the configured level does not permit the message, the logger is
    /// left exactly as it was; where it does, the sinks behind the logger's
    /// sink were handed the message too.
    fn debug(&mut self, msg: &str)
        ensures
            !old(self).level().permits(Level::Debug) ==> *final(self) == *old(self),
            old(self).level().permits(Level::Debug) ==> old(self).sink().passed_on(
                &final(self).sink(),
                old(self).record(Level::Debug, msg@),
            ),
    {
        if self.level.allows(Level::Debug) {
            self.send(Level::Debug, String::from_str(msg));
        }
    }

    /// Where the configured level does not permit the message, the logger is
    /// left exactly as it was; where it does, the sinks behind the logger's
    /// sink were handed the message too.
    fn info(&mut self, msg: &str)
        ensures
            !old(self).level().permits(Level::Info) ==> *final(self) == *old(self),
            old(self).level().permits(Level::Info) ==> old(self).sink().passed_on(
                &final(self).sink(),
                old(self).record(Level::Info, msg@),
            ),
    {
        if self.level.allows(Level::Info) {
            self.send(Level::Info, String::from_str(msg));
        }
    }

    /// Where the configured level does not permit the message, the logger is
    /// left exactly as it was; where it does, the sinks behind the logger's
    /// sink were handed the message too.
    fn warn(&mut self, msg: &str)
        ensures
            !old(self).level().permits(Level::Warn) ==> *final(self) == *old(self),
            old(self).level().permits(Level::Warn) ==> old(self).sink().passed_on(
                &final(self).sink(),
                old(self).record(Level::Warn, msg@),
            ),
    {
        if self.level.allows(Level::Warn) {
            self.send(Level::Warn, String::from_str(msg));
        }
    }

    /// Where the configured level does not permit the message, the logger is
    /// left exactly as it was; where it does, the sinks behind the logger's
    /// sink were handed the message too.
    fn error(&mut self, msg: &str)
        ensures
            !old(self).level().permits(Level::Error) ==> *final(self) == *old(self),
            old(self).level().permits(Level::Error) ==> old(self).sink().passed_on(
                &final(self).sink(),
                old(self).record(Level::Error, msg@),
            ),
    {
        if self.level.allows(Level::Error) {
            self.send(Level::Error, String::from_str(msg));
        }
    }

    /// Where the configured level does not permit the message, the logger is
    /// left exactly as it was; where it does, the sinks behind the logger's
    /// sink were handed the message too.
    fn fatal(&mut self, msg: &str)
        ensures
            !old(self).level().permits(Level::Fatal) ==> *final(self) == *old(self),
            old(self).level().permits(Level::Fatal) ==> old(self).sink().passed_on(
                &final(self).sink(),
                old(self).record(Level::Fatal, msg@),
            ),
    {
        if self.level.allows(Level::Fatal) {
            self.send(Level::Fatal, String::from_str(msg));
        }
    }

    /// The sinks behind the logger's sink were handed the message too.
    fn panic(&mut self, msg: &str) -> (r: Abort)
        ensures
            old(self).sink().passed_on(&final(self).sink(), old(self).record(Level::Panic, msg@)),
    {
        self.send(Level::Panic, String::from_str(msg));
        Abort { message: String::from_str(msg) }
    }
}

} // verus!
