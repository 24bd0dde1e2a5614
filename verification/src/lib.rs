//! A process-wide current logger that can be replaced at run time.
//!
//! A [`Registry`] publishes one logger handle to any number of logging call
//! sites. Readers take the handle without locking; configuration code swaps
//! it, together with the flush guard of an asynchronous sink, through a
//! shared reference. What a write does to the handle and the guard is stated
//! and proved on [`RegistryState`], the state that writers enter one at a
//! time. Records of a level-based logging facade are handed on by
//! [`SlogBackend`] to whichever handle is current when they are issued.

pub mod bridge;
pub mod guard_slot;
pub mod level;
pub mod record;
pub mod registry;

pub use bridge::{
    max_level_filter, redirect_std_log, setup_outcome, std_log_record, SetupError, SlogBackend,
};
pub use guard_slot::GuardSlot;
pub use level::{log_to_slog_level, slog_to_log_level, Level, LogLevel, LogLevelFilter};
pub use record::{
    crit, debug, error, info, log_message, record_at, trace, warn, RecordLocation, RecordMeta,
};
pub use registry::{
    borrow_global, clear_global, entry, get_global, set_global, set_global_with_async_guard,
    Displaced, FatalConcurrencyError, LoggerHandle, LoggerLease, Registry, RegistryState,
};
