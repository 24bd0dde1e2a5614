//! Severity levels of structured records and of the level-based facade, and
//! the mapping between them.

use vstd::prelude::*;

verus! {

/// Severity of a structured record, most severe first.
#[derive(Clone, Copy, Debug, PartialEq, Eq, Structural)]
pub enum Level {
    Critical,
    Error,
    Warning,
    Info,
    Debug,
    Trace,
}

/// Severity of a record issued through the level-based facade, most severe
/// first.
#[derive(Clone, Copy, Debug, PartialEq, Eq, Structural)]
pub enum LogLevel {
    Error,
    Warn,
    Info,
    Debug,
    Trace,
}

/// The least severe level that the facade still hands to its backend; `Off`
/// lets nothing through.
#[derive(Clone, Copy, Debug, PartialEq, Eq, Structural)]
pub enum LogLevelFilter {
    Off,
    Error,
    Warn,
    Info,
    Debug,
    Trace,
}

impl Level {
    /// Position in the order of severities: 1 for `Critical`, 6 for `Trace`.
    pub open spec fn rank(self) -> int {
        match self {
            Level::Critical => 1,
            Level::Error => 2,
            Level::Warning => 3,
            Level::Info => 4,
            Level::Debug => 5,
            Level::Trace => 6,
        }
    }

    /// The facade level that stands for this level. The facade has nothing
    /// above `Error`, so `Critical` is expressed as `Error`.
    pub open spec fn legacy(self) -> LogLevel {
        match self {
            Level::Critical => LogLevel::Error,
            Level::Error => LogLevel::Error,
            Level::Warning => LogLevel::Warn,
            Level::Info => LogLevel::Info,
            Level::Debug => LogLevel::Debug,
            Level::Trace => LogLevel::Trace,
        }
    }
}

impl LogLevel {
    /// Position in the order of severities: 1 for `Error`, 5 for `Trace`.
    pub open spec fn rank(self) -> int {
        match self {
            LogLevel::Error => 1,
            LogLevel::Warn => 2,
            LogLevel::Info => 3,
            LogLevel::Debug => 4,
            LogLevel::Trace => 5,
        }
    }

    /// The structured level of a record that the facade issued at this level.
    pub open spec fn structured(self) -> Level {
        match self {
            LogLevel::Error => Level::Error,
            LogLevel::Warn => Level::Warning,
            LogLevel::Info => Level::Info,
            LogLevel::Debug => Level::Debug,
            LogLevel::Trace => Level::Trace,
        }
    }

    /// The filter that lets through this level and every more severe one.
    pub open spec fn filter(self) -> LogLevelFilter {
        match self {
            LogLevel::Error => LogLevelFilter::Error,
            LogLevel::Warn => LogLevelFilter::Warn,
            LogLevel::Info => LogLevelFilter::Info,
            LogLevel::Debug => LogLevelFilter::Debug,
            LogLevel::Trace => LogLevelFilter::Trace,
        }
    }

    /// The filter that lets through this level and every more severe one.
    pub fn to_log_level_filter(&self) -> (filter: LogLevelFilter)
        ensures
            filter == self.filter(),
    {
        match self {
            LogLevel::Error => LogLevelFilter::Error,
            LogLevel::Warn => LogLevelFilter::Warn,
            LogLevel::Info => LogLevelFilter::Info,
            LogLevel::Debug => LogLevelFilter::Debug,
            LogLevel::Trace => LogLevelFilter::Trace,
        }
    }
}

impl LogLevelFilter {
    /// Position in the order of filters: 0 for `Off`, 5 for `Trace`.
    pub open spec fn rank(self) -> int {
        match self {
            LogLevelFilter::Off => 0,
            LogLevelFilter::Error => 1,
            LogLevelFilter::Warn => 2,
            LogLevelFilter::Info => 3,
            LogLevelFilter::Debug => 4,
            LogLevelFilter::Trace => 5,
        }
    }
}

/// Maps the level of a facade record to the level of the structured record
/// that carries it.
pub fn log_to_slog_level(level: LogLevel) -> (structured: Level)
    ensures
        structured == level.structured(),
{
    match level {
        LogLevel::Trace => Level::Trace,
        LogLevel::Debug => Level::Debug,
        LogLevel::Info => Level::Info,
        LogLevel::Warn => Level::Warning,
        LogLevel::Error => Level::Error,
    }
}

/// Maps a structured level to the facade level that expresses it.
pub fn slog_to_log_level(level: Level) -> (legacy: LogLevel)
    ensures
        legacy == level.legacy(),
{
    match level {
        Level::Critical | Level::Error => LogLevel::Error,
        Level::Warning => LogLevel::Warn,
        Level::Debug => LogLevel::Debug,
        Level::Trace => LogLevel::Trace,
        Level::Info => LogLevel::Info,
    }
}

/// A facade level keeps its place among the severities when it becomes a
/// structured level: the structured order has one more level, `Critical`,
/// in front, and no facade level maps to it.
pub proof fn law_structured_keeps_order(level: LogLevel)
    ensures
        level.structured().rank() == level.rank() + 1,
        level.structured() != Level::Critical,
{
}

/// A structured level is expressed by the facade level of the same place,
/// except `Critical`, which shares `Error` with the level below it.
pub proof fn law_legacy_keeps_order(level: Level)
    ensures
        level.legacy().rank() == if level == Level::Critical {
            1
        } else {
            level.rank() - 1
        },
{
}

/// Mapping a facade level to a structured level and back gives the level
/// that one started with.
pub proof fn law_facade_round_trip(level: LogLevel)
    ensures
        level.structured().legacy() == level,
{
}

/// Mapping a structured level to a facade level and back loses `Critical`,
/// which comes back as `Error`, and nothing else.
pub proof fn law_structured_round_trip(level: Level)
    ensures
        level.legacy().structured() == if level == Level::Critical {
            Level::Error
        } else {
            level
        },
{
}

/// The filter made from a level stands at that level's place among the
/// filters, so it is never `Off`.
pub proof fn law_filter_keeps_order(level: LogLevel)
    ensures
        level.filter().rank() == level.rank(),
        level.filter() != LogLevelFilter::Off,
{
}

} // verus!
