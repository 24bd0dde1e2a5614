//! The backend that hands the records of the level-based logging facade to
//! the logger in use.

use crate::level::{log_to_slog_level, slog_to_log_level, Level, LogLevel, LogLevelFilter};
use crate::record::{log_message, RecordLocation, RecordMeta};
use crate::registry::Registry;
use log::{MaxLogLevelFilter, SetLoggerError};
use vstd::prelude::*;

verus! {

/// `log::SetLoggerError`: the facade's refusal of a second backend.
#[verifier::external_type_specification]
#[verifier::external_body]
pub struct ExSetLoggerError(SetLoggerError);

/// `log::MaxLogLevelFilter`: the token through which a backend that is being
/// bound sets the facade's maximum level.
#[verifier::external_type_specification]
#[verifier::external_body]
pub struct ExMaxLogLevelFilter(MaxLogLevelFilter);

/// `MaxLogLevelFilter::set`: makes `filter`, written in the facade's own
/// type, the facade's maximum level.
#[verifier::external_body]
fn set_max_level(max: &MaxLogLevelFilter, filter: LogLevelFilter) {
    max.set(match filter {
        LogLevelFilter::Off => log::LogLevelFilter::Off,
        LogLevelFilter::Error => log::LogLevelFilter::Error,
        LogLevelFilter::Warn => log::LogLevelFilter::Warn,
        LogLevelFilter::Info => log::LogLevelFilter::Info,
        LogLevelFilter::Debug => log::LogLevelFilter::Debug,
        LogLevelFilter::Trace => log::LogLevelFilter::Trace,
    })
}

/// `log::set_logger`: binds `backend` to the facade, which accepts one
/// backend in the life of a process and refuses every later one. Where the
/// facade accepts, it hands out the token for its maximum level, and
/// `limit_facade` sets that level as `level` asks; where it refuses, neither
/// the level nor the backend bound before is touched. Which of the two
/// happens depends on what the process did before, so nothing is claimed of
/// the result.
#[verifier::external_body]
fn bind_backend<B: log::Log + 'static>(level: Option<Level>, backend: B) -> Result<
    (),
    SetLoggerError,
> {
    log::set_logger(move |max| {
        limit_facade(&max, level);
        Box::new(backend)
    })
}

/// The facade was bound to a backend before: it takes one in the life of a
/// process.
#[derive(Clone, Copy, Debug, PartialEq, Eq, Structural)]
pub enum SetupError {
    AlreadyBound,
}

/// The facade's maximum level for a bridge that is to carry records up to
/// `level`; `None` leaves the maximum as it is.
pub open spec fn max_level_filter_spec(level: Option<Level>) -> Option<LogLevelFilter> {
    match level {
        Some(level) => Some(level.legacy().filter()),
        None => None,
    }
}

/// The facade's maximum level for a bridge that is to carry records up to
/// `level`; `None` leaves the maximum as it is.
pub fn max_level_filter(level: Option<Level>) -> (filter: Option<LogLevelFilter>)
    ensures
        filter == max_level_filter_spec(level),
{
    match level {
        Some(level) => Some(slog_to_log_level(level).to_log_level_filter()),
        None => None,
    }
}

/// Sets the facade's maximum level to `max_level_filter(level)`, or leaves it
/// alone where that is `None`.
fn limit_facade(max: &MaxLogLevelFilter, level: Option<Level>) {
    if let Some(filter) = max_level_filter(level) {
        set_max_level(max, filter);
    }
}

/// What binding a backend came to: success where the facade accepted the
/// backend, `SetupError::AlreadyBound` where it refused.
pub fn setup_outcome(bound: Result<(), SetLoggerError>) -> (outcome: Result<(), SetupError>)
    ensures
        bound is Ok ==> outcome == Ok::<(), SetupError>(()),
        bound is Err ==> outcome == Err::<(), SetupError>(SetupError::AlreadyBound),
{
    match bound {
        Ok(()) => Ok(()),
        Err(_) => Err(SetupError::AlreadyBound),
    }
}

/// Starts handing the facade's records to `backend`, and sets the facade's
/// maximum level to the one that expresses `level`, if there is one.
///
/// The facade takes one backend in the life of a process. A later call
/// fails with `SetupError::AlreadyBound` and changes nothing: the backend
/// bound first stays bound, and the maximum level stays as it was.
pub fn redirect_std_log<B: log::Log + 'static>(level: Option<Level>, backend: B) -> Result<
    (),
    SetupError,
> {
    setup_outcome(bind_backend(level, backend))
}

/// The metadata of the structured record that carries a facade record: the
/// level is mapped, the target becomes the tag, module, file and line are
/// kept, and column and function, which the facade does not know, are 0 and
/// empty.
pub fn std_log_record<'a>(
    level: LogLevel,
    target: &'a str,
    module: &'static str,
    file: &'static str,
    line: u32,
) -> (meta: RecordMeta<'a>)
    ensures
        meta.level == level.structured(),
        meta.tag == target,
        meta.location.file == file,
        meta.location.line == line,
        meta.location.column == 0,
        meta.location.function@ == Seq::<char>::empty(),
        meta.location.module == module,
{
    proof {
        reveal_strlit("");
    }
    let location = RecordLocation { file, line, column: 0, function: "", module };
    RecordMeta { location, tag: target, level: log_to_slog_level(level) }
}

/// The backend of the facade: it hands every record to the logger that its
/// registry holds at the time of the record.
pub struct SlogBackend<'r> {
    registry: &'r Registry,
}

impl<'r> SlogBackend<'r> {
    /// The registry that the backend logs through.
    pub closed spec fn registry(self) -> &'r Registry {
        self.registry
    }

    /// A backend that logs through `registry`.
    pub fn new(registry: &'r Registry) -> (backend: SlogBackend<'r>)
        ensures
            backend.registry() == registry,
    {
        SlogBackend { registry }
    }

    /// Whether a record would be taken: always.
    pub fn enabled(&self, level: LogLevel, target: &str) -> (enabled: bool)
        ensures
            enabled,
    {
        true
    }

    /// Hands one facade record, as the structured record that
    /// `std_log_record` describes and with `message` as it stands, to the
    /// logger that the registry holds at the time of the call.
    pub fn log(
        &self,
        level: LogLevel,
        target: &str,
        module: &'static str,
        file: &'static str,
        line: u32,
        message: &dyn core::fmt::Display,
    ) {
        let meta = std_log_record(level, target, module, file, line);
        log_message(self.registry, &meta, message)
    }
}

} // verus!
