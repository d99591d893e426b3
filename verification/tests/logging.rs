use ceethane::backend::{Backend, Fused, Stdout};
use ceethane::clock::Moment;
use ceethane::context::Context;
use ceethane::logger::{KvsLogger, Logger};
use ceethane::Level;
use serde_json::Value;
use std::cell::RefCell;
use std::rc::Rc;

type Seen = Rc<RefCell<Vec<(String, Level, Context)>>>;

#[derive(Clone)]
struct Recorder {
    seen: Seen,
}

impl Recorder {
    fn new() -> (Recorder, Seen) {
        let seen: Seen = Rc::new(RefCell::new(Vec::new()));
        (Recorder { seen: seen.clone() }, seen)
    }
}

impl Backend for Recorder {
    fn send(&mut self, name: &String, level: Level, pairs: &Context) {
        self.seen
            .borrow_mut()
            .push((name.clone(), level, pairs.duplicate()));
    }
}

fn json(c: &Context) -> String {
    c.to_json().unwrap()
}

fn user_pairs() -> Context {
    let mut c = Context::new();
    c.insert("user_id".to_string(), Value::from(1337));
    c
}

fn moment() -> Moment {
    Moment {
        sec: 7,
        min: 6,
        hour: 5,
        mday: 4,
        mon: 2,
        year: 118,
        wday: 0,
        yday: 62,
        isdst: 0,
        utcoff: 0,
        nsec: 0,
    }
}

#[test]
fn new_logger_has_empty_context() {
    let (sink, seen) = Recorder::new();
    let ll = KvsLogger::new("svc".to_string(), Level::Info, sink);
    assert_eq!(ll.pairs().len(), 0);
    assert_eq!(ll.threshold(), Level::Info);
    assert_eq!(ll.program(), "svc");
    assert!(seen.borrow().is_empty());
}

#[test]
fn kvs_leaves_the_receiver_as_it_was() {
    let (sink, seen) = Recorder::new();
    let ll = KvsLogger::new("svc".to_string(), Level::Info, sink).kvs(user_pairs());
    let before = json(ll.pairs());
    let mut more = Context::new();
    more.insert("user_id".to_string(), Value::from(1));
    more.insert("component".to_string(), Value::from("db"));
    let child = ll.kvs(more);
    assert_eq!(json(ll.pairs()), before);
    assert_eq!(before, r#"{"user_id":1337}"#);
    assert_eq!(ll.threshold(), Level::Info);
    assert_eq!(json(child.pairs()), r#"{"user_id":1,"component":"db"}"#);
    assert_eq!(child.threshold(), Level::Info);
    assert!(seen.borrow().is_empty());
}

#[test]
fn kvs_of_nothing_keeps_the_context() {
    let (sink, _seen) = Recorder::new();
    let ll = KvsLogger::new("svc".to_string(), Level::Info, sink).kvs(user_pairs());
    let child = ll.kvs(Context::new());
    assert_eq!(json(child.pairs()), json(ll.pairs()));
    assert_eq!(json(child.pairs()), r#"{"user_id":1337}"#);
}

#[test]
fn kvs_twice_equals_kvs_of_the_merge() {
    let (sink, _seen) = Recorder::new();
    let ll = KvsLogger::new("svc".to_string(), Level::Info, sink).kvs(user_pairs());
    let mut c1 = Context::new();
    c1.insert("a".to_string(), Value::from(1));
    c1.insert("user_id".to_string(), Value::from(2));
    let mut c2 = Context::new();
    c2.insert("b".to_string(), Value::from(3));
    c2.insert("a".to_string(), Value::from(4));
    let stepwise = ll.kvs(c1.duplicate()).kvs(c2.duplicate());
    let mut both = c1.duplicate();
    both.extend(&c2);
    let at_once = ll.kvs(both);
    assert_eq!(json(stepwise.pairs()), json(at_once.pairs()));
    assert_eq!(json(stepwise.pairs()), r#"{"user_id":2,"a":4,"b":3}"#);
}

#[test]
fn err_attaches_the_diagnostic_text() {
    let (sink, seen) = Recorder::new();
    let ll = KvsLogger::new("svc".to_string(), Level::Info, sink).kvs(user_pairs());
    let mut child = ll.err("Custom { kind: Other, error: \"oh no!\" }");
    assert_eq!(
        json(child.pairs()),
        r#"{"user_id":1337,"err":"Custom { kind: Other, error: \"oh no!\" }"}"#
    );
    assert_eq!(json(ll.pairs()), r#"{"user_id":1337}"#);
    child.error("something went wrong doing IO");
    let seen = seen.borrow();
    assert_eq!(seen.len(), 1);
    assert_eq!(seen[0].1, Level::Error);
    assert_eq!(
        json(&seen[0].2),
        r#"{"user_id":1337,"err":"Custom { kind: Other, error: \"oh no!\" }","msg":"something went wrong doing IO"}"#
    );
}

#[test]
fn warn_threshold_gates_debug_and_info() {
    let (sink, seen) = Recorder::new();
    let mut ll = KvsLogger::new("svc".to_string(), Level::Warn, sink);
    ll.debug("d");
    assert_eq!(seen.borrow().len(), 0);
    ll.info("i");
    assert_eq!(seen.borrow().len(), 0);
    ll.warn("w");
    assert_eq!(seen.borrow().len(), 1);
    ll.error("e");
    assert_eq!(seen.borrow().len(), 2);
    ll.fatal("f");
    assert_eq!(seen.borrow().len(), 3);
    let seen = seen.borrow();
    assert_eq!(seen[0].1, Level::Warn);
    assert_eq!(json(&seen[0].2), r#"{"msg":"w"}"#);
    assert_eq!(seen[1].1, Level::Error);
    assert_eq!(json(&seen[1].2), r#"{"msg":"e"}"#);
    assert_eq!(seen[2].1, Level::Fatal);
    assert_eq!(json(&seen[2].2), r#"{"msg":"f"}"#);
}

#[test]
fn configured_level_itself_is_emitted() {
    let levels = [
        Level::Panic,
        Level::Fatal,
        Level::Error,
        Level::Warn,
        Level::Info,
        Level::Debug,
    ];
    for (i, level) in levels.iter().enumerate() {
        let (sink, seen) = Recorder::new();
        let mut ll = KvsLogger::new("svc".to_string(), *level, sink);
        ll.fatal("m");
        ll.error("m");
        ll.warn("m");
        ll.info("m");
        ll.debug("m");
        let got: Vec<Level> = seen.borrow().iter().map(|r| r.1).collect();
        let expected: Vec<Level> = levels[1..].iter().take(i).cloned().collect();
        assert_eq!(got, expected);
    }
}

#[test]
fn gated_message_leaves_the_logger_unchanged() {
    let (sink, seen) = Recorder::new();
    let mut ll = KvsLogger::new("svc".to_string(), Level::Error, sink).kvs(user_pairs());
    ll.info("quiet");
    assert_eq!(json(ll.pairs()), r#"{"user_id":1337}"#);
    assert_eq!(ll.threshold(), Level::Error);
    assert!(seen.borrow().is_empty());
}

#[test]
fn message_is_not_kept_in_the_context() {
    let (sink, seen) = Recorder::new();
    let mut ll = KvsLogger::new("svc".to_string(), Level::Debug, sink).kvs(user_pairs());
    ll.debug("one");
    ll.debug("two");
    assert_eq!(json(ll.pairs()), r#"{"user_id":1337}"#);
    let seen = seen.borrow();
    assert_eq!(json(&seen[0].2), r#"{"user_id":1337,"msg":"one"}"#);
    assert_eq!(json(&seen[1].2), r#"{"user_id":1337,"msg":"two"}"#);
}

#[test]
fn panic_is_never_gated() {
    let levels = [Level::Panic, Level::Warn, Level::Debug];
    for level in levels.iter() {
        let (sink, seen) = Recorder::new();
        let mut ll = KvsLogger::new("svc".to_string(), *level, sink);
        let abort = ll.panic("x");
        assert_eq!(abort.message, "x");
        let seen = seen.borrow();
        assert_eq!(seen.len(), 1);
        assert_eq!(seen[0].0, "svc");
        assert_eq!(seen[0].1, Level::Panic);
        assert_eq!(json(&seen[0].2), r#"{"msg":"x"}"#);
    }
}

#[test]
fn fused_sink_serves_both_sinks_once() {
    let (a, seen_a) = Recorder::new();
    let (b, seen_b) = Recorder::new();
    let mut fused = Fused::new(a, b);
    fused.send(&"svc".to_string(), Level::Info, &user_pairs());
    let seen_a = seen_a.borrow();
    let seen_b = seen_b.borrow();
    assert_eq!(seen_a.len(), 1);
    assert_eq!(seen_b.len(), 1);
    assert_eq!(seen_a[0].0, "svc");
    assert_eq!(seen_b[0].0, "svc");
    assert_eq!(seen_a[0].1, Level::Info);
    assert_eq!(seen_b[0].1, Level::Info);
    assert_eq!(json(&seen_a[0].2), r#"{"user_id":1337}"#);
    assert_eq!(json(&seen_b[0].2), r#"{"user_id":1337}"#);
}

#[test]
fn logger_over_a_fused_sink_reaches_both() {
    let (a, seen_a) = Recorder::new();
    let (b, seen_b) = Recorder::new();
    let mut ll = KvsLogger::new("svc".to_string(), Level::Info, Fused::new(a, b));
    ll.debug("no");
    ll.warn("yes");
    assert_eq!(seen_a.borrow().len(), 1);
    assert_eq!(seen_b.borrow().len(), 1);
    assert_eq!(json(&seen_a.borrow()[0].2), json(&seen_b.borrow()[0].2));
}

#[test]
fn info_scenario_on_the_console() {
    let (sink, seen) = Recorder::new();
    let mut ll = KvsLogger::new("svc".to_string(), Level::Info, sink).kvs(user_pairs());
    ll.info("hello");
    let seen = seen.borrow();
    assert_eq!(seen.len(), 1);
    let (name, level, pairs) = &seen[0];
    assert_eq!(name, "svc");
    assert_eq!(*level, Level::Info);
    let line = Stdout::new().line(name, *level, pairs, &moment());
    assert_eq!(
        line,
        Some(
            r#"{"user_id":1337,"msg":"hello","time":"2018-03-04T05:06:07.000+00:00","level":"info","syslog_program":"svc"}"#
                .to_string()
        )
    );
}
