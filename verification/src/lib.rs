//! A verbosity-driven, colorizing front end for leveled log records.
//!
//! A [`Logger`] collects the configuration. Finalizing it yields an immutable
//! [`ResolvedLogger`], which decides for each [`LogRecord`] whether it passes
//! its module's threshold, renders it and names the stream to write it to.
//! A [`GlobalSink`] holds the one logger of a process.

use vstd::prelude::*;

pub mod error;
pub mod filter;
pub mod level;
pub mod logger;
pub mod record;
pub mod resolved;
pub mod sink;
pub mod style;
mod terminal;
pub mod text;
pub mod verbosity;

pub use error::ConfigError;
pub use filter::{DirectiveView, FilterDirective, FilterSet, FilterSetView};
pub use level::{Level, DEFAULT_OFFSET};
pub use logger::{
    Logger, LoggerView, DEFAULT_COLORS, DEFAULT_INCLUDE_LEVEL, DEFAULT_INCLUDE_LINE_NUMBERS,
    DEFAULT_INCLUDE_MODULE_PATH, DEFAULT_SEPARATOR,
};
pub use record::{LogRecord, RecordView};
pub use resolved::{Emission, ResolvedLogger, ResolvedView};
pub use sink::{registration, GlobalSink};
pub use style::{
    Colour, LevelStyle, Output, Styles, DEFAULT_DEBUG_COLOR, DEFAULT_ERROR_COLOR,
    DEFAULT_INFO_COLOR, DEFAULT_TRACE_COLOR, DEFAULT_WARN_COLOR,
};
pub use verbosity::resolve;

verus! {

/// The default configuration with an explicit level.
pub open spec fn level_config(colors: bool, level: Level) -> LoggerView {
    LoggerView { max_level: Some(level), ..LoggerView::initial(colors) }
}

/// The default configuration with a verbosity count.
pub open spec fn verbosity_config(colors: bool, verbosity: u64) -> LoggerView {
    LoggerView { verbosity: Some(verbosity), ..LoggerView::initial(colors) }
}

/// Registers a logger with the default configuration and the given level as
/// its threshold. Whether it colors depends on the terminal.
pub fn init_with_level(level: Level, sink: &mut GlobalSink) -> (outcome: Result<(), ConfigError>)
    ensures
        exists|colors: bool|
            (final(sink)@, outcome) == registration(
                old(sink)@,
                (#[trigger] level_config(colors, level)).resolved(),
            ),
{
    let logger = Logger::new().max_level(level);
    assert(logger@ == level_config(logger@.colors, level));
    logger.init(sink)
}

/// Registers a logger with the default configuration and the given
/// verbosity count. Whether it colors depends on the terminal.
pub fn init_with_verbosity(verbosity: u64, sink: &mut GlobalSink) -> (outcome: Result<
    (),
    ConfigError,
>)
    ensures
        exists|colors: bool|
            (final(sink)@, outcome) == registration(
                old(sink)@,
                (#[trigger] verbosity_config(colors, verbosity)).resolved(),
            ),
{
    let logger = Logger::new().verbosity(verbosity);
    assert(logger@ == verbosity_config(logger@.colors, verbosity));
    logger.init(sink)
}

/// Registers a logger with the default configuration that writes warnings
/// and errors only.
pub fn init_quiet(sink: &mut GlobalSink) -> (outcome: Result<(), ConfigError>)
    ensures
        exists|colors: bool|
            (final(sink)@, outcome) == registration(
                old(sink)@,
                (#[trigger] level_config(colors, Level::Warn)).resolved(),
            ),
{
    init_with_level(Level::Warn, sink)
}

} // verus!
