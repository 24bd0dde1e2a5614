use slog_global::{redirect_std_log, Level, SetupError};

struct Quiet;

impl log::Log for Quiet {
    fn enabled(&self, _: &log::LogMetadata) -> bool {
        true
    }

    fn log(&self, _: &log::LogRecord) {}
}

#[test]
fn the_facade_takes_one_backend_and_refuses_the_next() {
    assert_eq!(redirect_std_log(Some(Level::Critical), Quiet), Ok(()));
    assert_eq!(log::max_log_level(), log::LogLevelFilter::Error);

    assert_eq!(redirect_std_log(Some(Level::Trace), Quiet), Err(SetupError::AlreadyBound));
    assert_eq!(log::max_log_level(), log::LogLevelFilter::Error);

    assert_eq!(redirect_std_log(None, Quiet), Err(SetupError::AlreadyBound));
    assert_eq!(log::max_log_level(), log::LogLevelFilter::Error);
}
