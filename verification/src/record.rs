//! What a structured record carries besides its message, and the entry
//! points that send one to the logger in use.

use crate::level::Level;
use crate::registry::{borrow_global, LoggerLease, Registry};
use vstd::prelude::*;

verus! {

/// The place in the source where a record was issued.
#[derive(Clone, Copy, Debug)]
pub struct RecordLocation {
    pub file: &'static str,
    pub line: u32,
    pub column: u32,
    pub function: &'static str,
    pub module: &'static str,
}

/// Everything about a record that is known before its message is formatted.
#[derive(Clone, Copy, Debug)]
pub struct RecordMeta<'a> {
    pub location: RecordLocation,
    pub tag: &'a str,
    pub level: Level,
}

/// `core::fmt::Arguments`: a message that is formatted when it is asked for.
#[verifier::external_type_specification]
#[verifier::external_body]
pub struct ExArguments<'a>(core::fmt::Arguments<'a>);

/// A record that lacks only its message: the leased logger, and the record's
/// metadata in that logger's own types.
#[verifier::external_body]
struct Pending<'a> {
    logger: &'a slog::Logger,
    location: slog::RecordLocation,
    tag: &'a str,
    level: slog::Level,
}

impl Pending<'_> {
    /// `Logger::log` with the record that `Record::new` makes of what is
    /// pending, of `message`, and of no key-value pairs.
    #[verifier::external_body]
    fn write_fmt(&mut self, message: core::fmt::Arguments<'_>) {
        let fixed = slog::RecordStatic { location: &self.location, tag: self.tag, level: self.level };
        self.logger.log(&slog::Record::new(&fixed, &message, slog::BorrowedKV(&())))
    }
}

/// Sends a record made of `meta` and of `message` to the leased logger.
///
/// The logger takes its message as `core::fmt::Arguments`, which only a
/// formatting macro makes: `write!` makes them of `message`, displayed as it
/// stands, and hands them to `Pending::write_fmt`, which calls the logger.
/// Before that `meta` is written in the logger's types, field for field and
/// level for level.
#[verifier::external_body]
fn emit(lease: &LoggerLease, meta: &RecordMeta<'_>, message: &dyn core::fmt::Display) {
    let level = match meta.level {
        Level::Critical => slog::Level::Critical,
        Level::Error => slog::Level::Error,
        Level::Warning => slog::Level::Warning,
        Level::Info => slog::Level::Info,
        Level::Debug => slog::Level::Debug,
        Level::Trace => slog::Level::Trace,
    };
    let at = meta.location;
    let location = slog::RecordLocation { file: at.file, line: at.line, column: at.column, function: at.function, module: at.module };
    let mut record = Pending { logger: &lease.lease, location, tag: meta.tag, level };
    write!(record, "{}", message)
}

/// The metadata of a record issued at `level` from `location`, untagged.
pub fn record_at(level: Level, location: RecordLocation) -> (meta: RecordMeta<'static>)
    ensures
        meta.level == level,
        meta.location == location,
        meta.tag@ == Seq::<char>::empty(),
{
    proof {
        reveal_strlit("");
    }
    RecordMeta { location, tag: "", level }
}

/// Sends one record, with `message` as it stands, to the logger that
/// `registry` holds at the time of the call.
pub fn log_message(registry: &Registry, meta: &RecordMeta<'_>, message: &dyn core::fmt::Display) {
    let lease = borrow_global(registry);
    emit(&lease, meta, message)
}

/// Logs `message` at the critical level through the logger of `registry`.
pub fn crit(registry: &Registry, location: RecordLocation, message: &dyn core::fmt::Display) {
    log_message(registry, &record_at(Level::Critical, location), message)
}

/// Logs `message` at the error level through the logger of `registry`.
pub fn error(registry: &Registry, location: RecordLocation, message: &dyn core::fmt::Display) {
    log_message(registry, &record_at(Level::Error, location), message)
}

/// Logs `message` at the warning level through the logger of `registry`.
pub fn warn(registry: &Registry, location: RecordLocation, message: &dyn core::fmt::Display) {
    log_message(registry, &record_at(Level::Warning, location), message)
}

/// Logs `message` at the info level through the logger of `registry`.
pub fn info(registry: &Registry, location: RecordLocation, message: &dyn core::fmt::Display) {
    log_message(registry, &record_at(Level::Info, location), message)
}

/// Logs `message` at the debug level through the logger of `registry`.
pub fn debug(registry: &Registry, location: RecordLocation, message: &dyn core::fmt::Display) {
    log_message(registry, &record_at(Level::Debug, location), message)
}

/// Logs `message` at the trace level through the logger of `registry`.
pub fn trace(registry: &Registry, location: RecordLocation, message: &dyn core::fmt::Display) {
    log_message(registry, &record_at(Level::Trace, location), message)
}

} // verus!
