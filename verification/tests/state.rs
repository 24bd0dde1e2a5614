use slog::{Drain, Logger, Never, OwnedKV, OwnedKVList, Record};
use slog_async::{Async, AsyncGuard};
use slog_global::{info, set_global, LoggerHandle, RecordLocation, Registry, RegistryState};
use std::sync::{Arc, Mutex};

#[derive(Clone, Debug, PartialEq)]
struct Seen {
    level: slog::Level,
    message: String,
    tag: String,
    file: String,
    line: u32,
    column: u32,
    function: String,
    module: String,
}

struct Capture {
    seen: Arc<Mutex<Vec<Seen>>>,
}

impl Drain for Capture {
    type Ok = ();
    type Err = Never;

    fn log(&self, record: &Record<'_>, _: &OwnedKVList) -> Result<(), Never> {
        self.seen.lock().unwrap().push(Seen {
            level: record.level(),
            message: format!("{}", record.msg()),
            tag: record.tag().to_string(),
            file: record.file().to_string(),
            line: record.line(),
            column: record.column(),
            function: record.function().to_string(),
            module: record.module().to_string(),
        });
        Ok(())
    }
}

fn capture() -> (Arc<Logger>, Arc<Mutex<Vec<Seen>>>) {
    let seen = Arc::new(Mutex::new(Vec::new()));
    let logger = Logger::root(Capture { seen: seen.clone() }, OwnedKV(()));
    (Arc::new(logger), seen)
}

fn capture_async() -> (Arc<Logger>, AsyncGuard, Arc<Mutex<Vec<Seen>>>) {
    let seen = Arc::new(Mutex::new(Vec::new()));
    let (drain, guard) = Async::new(Capture { seen: seen.clone() }).build_with_guard();
    let logger = Logger::root(drain.ignore_res(), OwnedKV(()));
    (Arc::new(logger), guard, seen)
}

fn handle(logger: &Arc<Logger>) -> LoggerHandle {
    LoggerHandle { logger: logger.clone() }
}

fn here(line: u32) -> RecordLocation {
    RecordLocation { file: "tests.rs", line, column: 0, function: "", module: "tests" }
}

fn is_discard(handle: &LoggerHandle) -> bool {
    !handle.logger.is_enabled(slog::Level::Critical)
}

#[test]
fn a_new_state_holds_a_discarding_logger() {
    let state = RegistryState::new();
    assert!(is_discard(&state.get()));
}

#[test]
fn a_new_state_holds_no_guard() {
    let mut state = RegistryState::new();
    let (logger, _seen) = capture();
    let displaced = state.set(handle(&logger));
    assert!(displaced.guard.is_none());
    assert!(is_discard(&displaced.handle));
}

#[test]
fn get_after_set_gives_the_handle_that_was_set() {
    let mut state = RegistryState::new();
    let (logger, _seen) = capture();
    state.set(handle(&logger));
    assert!(Arc::ptr_eq(&state.get().logger, &logger));
    assert!(Arc::ptr_eq(&state.get().logger, &logger));
}

#[test]
fn the_last_set_wins() {
    let mut state = RegistryState::new();
    let (first, _first_seen) = capture();
    let (second, _second_seen) = capture();
    state.set(handle(&first));
    state.set(handle(&second));
    assert!(Arc::ptr_eq(&state.get().logger, &second));
    assert!(!Arc::ptr_eq(&state.get().logger, &first));
}

#[test]
fn a_write_hands_out_the_handle_it_replaces() {
    let mut state = RegistryState::new();
    let (first, _first_seen) = capture();
    let (second, _second_seen) = capture();
    state.set(handle(&first));
    let displaced = state.set(handle(&second));
    assert!(Arc::ptr_eq(&displaced.handle.logger, &first));
    assert!(displaced.guard.is_none());
}

#[test]
fn set_releases_the_guard_that_was_installed() {
    let mut state = RegistryState::new();
    let (first, guard, _first_seen) = capture_async();
    let (second, _second_seen) = capture();
    let displaced = state.set_with_async_guard(handle(&first), guard);
    assert!(displaced.guard.is_none());
    let displaced = state.set(handle(&second));
    assert!(displaced.guard.is_some());
    assert!(Arc::ptr_eq(&displaced.handle.logger, &first));
    let displaced = state.set(handle(&first));
    assert!(displaced.guard.is_none());
}

#[test]
fn the_second_guarded_write_hands_out_the_first_guard_once() {
    let mut state = RegistryState::new();
    let (first, first_guard, first_seen) = capture_async();
    let (second, second_guard, _second_seen) = capture_async();
    state.set_with_async_guard(handle(&first), first_guard);

    let registry = Registry::new();
    set_global(&registry, state.get()).unwrap();
    for line in 0..40 {
        info(&registry, here(line), &"queued");
    }

    let displaced = state.set_with_async_guard(handle(&second), second_guard);
    assert!(Arc::ptr_eq(&displaced.handle.logger, &first));
    assert!(displaced.guard.is_some());
    drop(displaced);
    assert_eq!(first_seen.lock().unwrap().len(), 40);

    // The state now holds the second guard only: the next write hands out
    // one guard, and the one after it none.
    assert!(state.clear().guard.is_some());
    assert!(state.clear().guard.is_none());
}

#[test]
fn install_puts_handle_and_guard_in_effect_together() {
    let mut state = RegistryState::new();
    let (first, guard, _first_seen) = capture_async();
    let (second, _second_seen) = capture();
    assert!(state.install(handle(&first), Some(guard)).guard.is_none());
    assert!(Arc::ptr_eq(&state.get().logger, &first));
    let displaced = state.install(handle(&second), None);
    assert!(displaced.guard.is_some());
    assert!(Arc::ptr_eq(&state.get().logger, &second));
    assert!(state.install(handle(&first), None).guard.is_none());
}

#[test]
fn clear_brings_the_state_back_to_rest() {
    let mut state = RegistryState::new();
    let (logger, guard, _seen) = capture_async();
    state.set_with_async_guard(handle(&logger), guard);
    let displaced = state.clear();
    assert!(Arc::ptr_eq(&displaced.handle.logger, &logger));
    assert!(displaced.guard.is_some());
    assert!(is_discard(&state.get()));
    let displaced = state.clear();
    assert!(is_discard(&displaced.handle));
    assert!(displaced.guard.is_none());
}

#[test]
fn a_handle_that_was_read_outlives_later_writes() {
    let mut state = RegistryState::new();
    let (logger, seen) = capture();
    state.set(handle(&logger));
    let kept = state.get();
    drop(logger);
    drop(state.clear());
    let (other, _other_seen) = capture();
    drop(state.set(handle(&other)));

    let registry = Registry::new();
    set_global(&registry, kept).unwrap();
    info(&registry, here(7), &"still here");
    let seen = seen.lock().unwrap();
    assert_eq!(seen.len(), 1);
    assert_eq!(seen[0].message, "still here");
}
