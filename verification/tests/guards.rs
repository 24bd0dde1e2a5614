use slog::{Drain, Logger, Never, OwnedKV, OwnedKVList, Record};
use slog_async::{Async, AsyncGuard};
use slog_global::{info, set_global, GuardSlot, LoggerHandle, RecordLocation, Registry};
use std::sync::{Arc, Mutex};

#[derive(Clone, Debug, PartialEq)]
struct Seen {
    level: slog::Level,
    message: String,
    tag: String,
    file: String,
    line: u32,
    column: u32,
    function: String,
    module: String,
}

struct Capture {
    seen: Arc<Mutex<Vec<Seen>>>,
}

impl Drain for Capture {
    type Ok = ();
    type Err = Never;

    fn log(&self, record: &Record<'_>, _: &OwnedKVList) -> Result<(), Never> {
        self.seen.lock().unwrap().push(Seen {
            level: record.level(),
            message: format!("{}", record.msg()),
            tag: record.tag().to_string(),
            file: record.file().to_string(),
            line: record.line(),
            column: record.column(),
            function: record.function().to_string(),
            module: record.module().to_string(),
        });
        Ok(())
    }
}

fn capture_async() -> (Arc<Logger>, AsyncGuard, Arc<Mutex<Vec<Seen>>>) {
    let seen = Arc::new(Mutex::new(Vec::new()));
    let (drain, guard) = Async::new(Capture { seen: seen.clone() }).build_with_guard();
    let logger = Logger::root(drain.ignore_res(), OwnedKV(()));
    (Arc::new(logger), guard, seen)
}

fn handle(logger: &Arc<Logger>) -> LoggerHandle {
    LoggerHandle { logger: logger.clone() }
}

fn here(line: u32) -> RecordLocation {
    RecordLocation { file: "tests.rs", line, column: 0, function: "", module: "tests" }
}

#[test]
fn an_empty_slot_is_not_armed() {
    assert!(!GuardSlot::empty().is_armed());
}

#[test]
fn installing_into_an_empty_slot_hands_out_nothing() {
    let (_logger, guard, _seen) = capture_async();
    let mut slot = GuardSlot::empty();
    assert!(slot.install(guard).is_none());
    assert!(slot.is_armed());
}

#[test]
fn releasing_an_empty_slot_hands_out_nothing() {
    let mut slot = GuardSlot::empty();
    assert!(slot.release().is_none());
    assert!(!slot.is_armed());
}

#[test]
fn releasing_hands_out_the_guard_and_empties_the_slot() {
    let (_logger, guard, _seen) = capture_async();
    let mut slot = GuardSlot::empty();
    slot.install(guard);
    assert!(slot.release().is_some());
    assert!(!slot.is_armed());
    assert!(slot.release().is_none());
}

#[test]
fn the_second_install_hands_out_the_first_guard() {
    let (first, first_guard, first_seen) = capture_async();
    let (_second, second_guard, _second_seen) = capture_async();
    let registry = Registry::new();
    set_global(&registry, handle(&first)).unwrap();
    for line in 0..40 {
        info(&registry, here(line), &"queued");
    }
    let mut slot = GuardSlot::empty();
    assert!(slot.install(first_guard).is_none());
    let released = slot.install(second_guard);
    assert!(released.is_some());
    assert!(slot.is_armed());
    // Letting go of what came out waits for the first sink, so it was the
    // first guard that came out.
    drop(released);
    assert_eq!(first_seen.lock().unwrap().len(), 40);
}
