//! The configuration of a logger, assembled by chained calls and consumed
//! when it is finalized.

use vstd::prelude::*;

use crate::error::ConfigError;
use crate::filter::{
    decides, lemma_threshold_of_deciding, lemma_threshold_without_match, none_matches, FilterSet,
    FilterSetView,
};
use crate::level::Level;
use crate::record::RecordView;
use crate::resolved::{ResolvedLogger, ResolvedView};
use crate::sink::{registration, GlobalSink};
use crate::style::{Colour, LevelStyle, Output, Styles};
use crate::terminal::stream_is_interactive;
use crate::verbosity::resolve;

verus! {

/// Colors are on by default, where the terminal allows them.
pub const DEFAULT_COLORS: bool = true;

/// The level text is left out of the tag by default.
pub const DEFAULT_INCLUDE_LEVEL: bool = false;

/// The line number is left out of the tag by default.
pub const DEFAULT_INCLUDE_LINE_NUMBERS: bool = false;

/// The module path is in the tag by default.
pub const DEFAULT_INCLUDE_MODULE_PATH: bool = true;

/// The text between the tag and the message by default.
pub const DEFAULT_SEPARATOR: &'static str = ": ";

/// A configuration as a value.
pub struct LoggerView {
    pub colors: bool,
    pub include_level: bool,
    pub include_line_numbers: bool,
    pub include_module_path: bool,
    pub separator: Seq<char>,
    pub verbosity: Option<u64>,
    pub max_level: Option<Level>,
    pub filters: FilterSetView,
    pub styles: Styles,
}

impl LoggerView {
    /// The configuration that a logger starts with.
    pub open spec fn initial(colors: bool) -> LoggerView {
        LoggerView {
            colors,
            include_level: DEFAULT_INCLUDE_LEVEL,
            include_line_numbers: DEFAULT_INCLUDE_LINE_NUMBERS,
            include_module_path: DEFAULT_INCLUDE_MODULE_PATH,
            separator: DEFAULT_SEPARATOR@,
            verbosity: None,
            max_level: None,
            filters: FilterSetView::empty(),
            styles: Styles::initial(),
        }
    }

    /// Whether the tag is empty for every record.
    pub open spec fn tag_is_empty(self) -> bool {
        !self.include_level && !self.include_line_numbers && !self.include_module_path
    }

    /// The global threshold: resolved from the most verbose threshold of the
    /// filter set as the baseline, the verbosity count and the explicit
    /// level.
    pub open spec fn threshold(self) -> Level {
        resolve(self.filters.max_threshold(), self.verbosity, self.max_level)
    }

    /// The logger that finalizing yields. The separator is empty where the
    /// tag always is. The global threshold becomes the default of the filter
    /// set; the directives for single modules stay as they are.
    pub open spec fn resolved(self) -> ResolvedView {
        ResolvedView {
            colors: self.colors,
            include_level: self.include_level,
            include_line_numbers: self.include_line_numbers,
            include_module_path: self.include_module_path,
            separator: if self.tag_is_empty() {
                Seq::empty()
            } else {
                self.separator
            },
            filters: self.filters.with_default(self.threshold()),
            styles: self.styles,
        }
    }
}

/// The configuration of a logger.
#[derive(Debug)]
pub struct Logger {
    colors: bool,
    filters: FilterSet,
    include_level: bool,
    include_line_numbers: bool,
    include_module_path: bool,
    separator: String,
    verbosity: Option<u64>,
    max_level: Option<Level>,
    styles: Styles,
}

impl View for Logger {
    type V = LoggerView;

    closed spec fn view(&self) -> LoggerView {
        LoggerView {
            colors: self.colors,
            include_level: self.include_level,
            include_line_numbers: self.include_line_numbers,
            include_module_path: self.include_module_path,
            separator: self.separator@,
            verbosity: self.verbosity,
            max_level: self.max_level,
            filters: self.filters@,
            styles: self.styles,
        }
    }
}

impl Logger {
    /// A logger with the default configuration. Colors are on only where
    /// both stdout and stderr are found to be interactive terminals.
    pub fn new() -> (logger: Logger)
        ensures
            logger@ == LoggerView::initial(logger@.colors),
    {
        let stdout = stream_is_interactive(Output::Stdout);
        let stderr = stream_is_interactive(Output::Stderr);
        Logger::with_terminal(stdout, stderr)
    }

    /// A logger with the default configuration for streams of which it is
    /// known whether they are interactive terminals.
    pub fn with_terminal(stdout_interactive: bool, stderr_interactive: bool) -> (logger: Logger)
        ensures
            logger@ == LoggerView::initial(
                DEFAULT_COLORS && stdout_interactive && stderr_interactive,
            ),
    {
        Logger {
            colors: DEFAULT_COLORS && stdout_interactive && stderr_interactive,
            filters: FilterSet::new(),
            include_level: DEFAULT_INCLUDE_LEVEL,
            include_line_numbers: DEFAULT_INCLUDE_LINE_NUMBERS,
            include_module_path: DEFAULT_INCLUDE_MODULE_PATH,
            separator: String::from_str(DEFAULT_SEPARATOR),
            verbosity: None,
            max_level: None,
            styles: Styles::new(),
        }
    }

    /// Sets the color of a level.
    pub fn color(self, level: &Level, color: Colour) -> (logger: Logger)
        ensures
            logger@ == (LoggerView {
                styles: self@.styles.with(*level, LevelStyle { color, ..self@.styles.get(*level) }),
                ..self@
            }),
    {
        let mut logger = self;
        let style = LevelStyle { output: logger.styles.get(*level).output, color };
        logger.styles = logger.styles.with(*level, style);
        logger
    }

    /// Sets the text between the tag and the message.
    pub fn separator(self, separator: &str) -> (logger: Logger)
        ensures
            logger@ == (LoggerView { separator: separator@, ..self@ }),
    {
        let mut logger = self;
        logger.separator = String::from_str(separator);
        logger
    }

    /// Turns colors on or off. They stay off, whatever is asked for, unless
    /// both stdout and stderr are found to be interactive terminals now.
    pub fn colors(self, enabled: bool) -> (logger: Logger)
        ensures
            logger@ == (LoggerView { colors: logger@.colors, ..self@ }),
            logger@.colors ==> enabled,
    {
        if enabled {
            let stdout = stream_is_interactive(Output::Stdout);
            let stderr = stream_is_interactive(Output::Stderr);
            self.colors_on_terminal(true, stdout, stderr)
        } else {
            self.no_colors()
        }
    }

    /// Turns colors on or off for streams of which it is known whether they
    /// are interactive terminals: on only where it is asked for and both are.
    pub fn colors_on_terminal(
        self,
        enabled: bool,
        stdout_interactive: bool,
        stderr_interactive: bool,
    ) -> (logger: Logger)
        ensures
            logger@ == (LoggerView {
                colors: enabled && stdout_interactive && stderr_interactive,
                ..self@
            }),
    {
        let mut logger = self;
        logger.colors = enabled && stdout_interactive && stderr_interactive;
        logger
    }

    /// Turns colors off.
    pub fn no_colors(self) -> (logger: Logger)
        ensures
            logger@ == (LoggerView { colors: false, ..self@ }),
    {
        let mut logger = self;
        logger.colors = false;
        logger
    }

    /// Puts the line number into the tag, or leaves it out.
    pub fn line_numbers(self, enabled: bool) -> (logger: Logger)
        ensures
            logger@ == (LoggerView { include_line_numbers: enabled, ..self@ }),
    {
        let mut logger = self;
        logger.include_line_numbers = enabled;
        logger
    }

    /// Puts the level text into the tag, or leaves it out.
    pub fn level(self, enabled: bool) -> (logger: Logger)
        ensures
            logger@ == (LoggerView { include_level: enabled, ..self@ }),
    {
        let mut logger = self;
        logger.include_level = enabled;
        logger
    }

    /// Sets the threshold explicitly. An explicit level wins over any
    /// verbosity count, set before or after; the count that was set is
    /// cleared.
    pub fn max_level(self, level: Level) -> (logger: Logger)
        ensures
            logger@ == (LoggerView { max_level: Some(level), verbosity: None, ..self@ }),
    {
        let mut logger = self;
        logger.max_level = Some(level);
        logger.verbosity = None;
        logger
    }

    /// Puts the module path into the tag, or leaves it out.
    pub fn include_module_path(self, enabled: bool) -> (logger: Logger)
        ensures
            logger@ == (LoggerView { include_module_path: enabled, ..self@ }),
    {
        let mut logger = self;
        logger.include_module_path = enabled;
        logger
    }

    /// Leaves the module path out of the tag.
    pub fn no_module_path(self) -> (logger: Logger)
        ensures
            logger@ == (LoggerView { include_module_path: false, ..self@ }),
    {
        let mut logger = self;
        logger.include_module_path = false;
        logger
    }

    /// Sets the stream of a level.
    pub fn output(self, level: &Level, output: Output) -> (logger: Logger)
        ensures
            logger@ == (LoggerView {
                styles: self@.styles.with(*level, LevelStyle { output, ..self@.styles.get(*level) }),
                ..self@
            }),
    {
        let mut logger = self;
        let style = LevelStyle { output, color: logger.styles.get(*level).color };
        logger.styles = logger.styles.with(*level, style);
        logger
    }

    /// Sets the verbosity count: the number of steps that the threshold
    /// moves from the baseline towards `Trace`.
    pub fn verbosity(self, count: u64) -> (logger: Logger)
        ensures
            logger@ == (LoggerView { verbosity: Some(count), ..self@ }),
    {
        let mut logger = self;
        logger.verbosity = Some(count);
        logger
    }

    /// Merges a comma-separated list of directives into the filter set.
    pub fn filter(self, directives: &str) -> (logger: Logger)
        ensures
            logger@ == (LoggerView { filters: self@.filters.add(directives@), ..self@ }),
    {
        let mut logger = self;
        logger.filters.add(directives);
        logger
    }

    pub fn colors_enabled(&self) -> (enabled: bool)
        ensures
            enabled == self@.colors,
    {
        self.colors
    }

    pub fn level_included(&self) -> (included: bool)
        ensures
            included == self@.include_level,
    {
        self.include_level
    }

    pub fn line_numbers_included(&self) -> (included: bool)
        ensures
            included == self@.include_line_numbers,
    {
        self.include_line_numbers
    }

    pub fn module_path_included(&self) -> (included: bool)
        ensures
            included == self@.include_module_path,
    {
        self.include_module_path
    }

    pub fn separator_text(&self) -> (separator: &str)
        ensures
            separator@ == self@.separator,
    {
        self.separator.as_str()
    }

    pub fn verbosity_count(&self) -> (verbosity: Option<u64>)
        ensures
            verbosity == self@.verbosity,
    {
        self.verbosity
    }

    pub fn explicit_level(&self) -> (level: Option<Level>)
        ensures
            level == self@.max_level,
    {
        self.max_level
    }

    pub fn style(&self, level: Level) -> (style: LevelStyle)
        ensures
            style == self@.styles.get(level),
    {
        self.styles.get(level)
    }

    pub fn filters(&self) -> (filters: &FilterSet)
        ensures
            filters@ == self@.filters,
    {
        &self.filters
    }

    /// The global threshold that finalizing would resolve.
    pub fn threshold(&self) -> (level: Level)
        ensures
            level == self@.threshold(),
    {
        resolve(self.filters.max_threshold(), self.verbosity, self.max_level)
    }

    /// Freezes the configuration into the logger that it describes.
    pub fn finalize(self) -> (logger: ResolvedLogger)
        ensures
            logger@ == self@.resolved(),
    {
        let mut filters = self.filters;
        let tag_is_empty = !self.include_level && !self.include_line_numbers
            && !self.include_module_path;
        let separator = if tag_is_empty {
            String::new()
        } else {
            self.separator
        };
        let baseline = filters.max_threshold();
        let threshold = resolve(baseline, self.verbosity, self.max_level);
        filters.set_default(threshold);
        ResolvedLogger::assemble(
            self.colors,
            self.include_level,
            self.include_line_numbers,
            self.include_module_path,
            separator,
            filters,
            self.styles,
        )
    }

    /// Finalizes the configuration and registers the logger in `sink`. Fails
    /// with `DoubleRegistration`, and leaves the sink as it is, where a
    /// logger is registered there.
    pub fn init(self, sink: &mut GlobalSink) -> (outcome: Result<(), ConfigError>)
        ensures
            (final(sink)@, outcome) == registration(old(sink)@, self@.resolved()),
    {
        sink.register(self.finalize())
    }
}

impl Default for Logger {
    fn default() -> (logger: Logger)
        ensures
            logger@ == LoggerView::initial(logger@.colors),
    {
        Logger::new()
    }
}

/// Where level, line number and module path are all left out, the tag
/// before color is empty for every record and the finalized logger writes no
/// separator, whatever separator is configured: a record is rendered as its
/// tag and its message, and without colors as its message alone.
pub proof fn lemma_empty_tag_drops_separator(config: LoggerView, record: RecordView)
    requires
        config.tag_is_empty(),
    ensures
        config.resolved().separator == Seq::<char>::empty(),
        config.resolved().plain_tag(record) == Seq::<char>::empty(),
        config.resolved().rendered(record) == config.resolved().tag(record) + record.message,
        !config.colors ==> config.resolved().rendered(record) == record.message,
{
}

/// The directives for single modules outlast finalizing: a module that a
/// directive decides for keeps the threshold of that directive, and every
/// module that no directive matches gets the global threshold.
pub proof fn lemma_directives_take_precedence(config: LoggerView, path: Seq<char>)
    ensures
        config.resolved().threshold() == config.threshold(),
        config.resolved().threshold_of(None) == config.threshold(),
        forall|at: int| #[trigger]
            decides(config.filters.directives, path, at) ==> config.resolved().threshold_of(
                Some(path),
            ) == config.filters.directives[at].level,
        none_matches(config.filters.directives, path) ==> config.resolved().threshold_of(
            Some(path),
        ) == config.threshold(),
{
    let filters = config.resolved().filters;
    assert forall|at: int| #[trigger]
        decides(config.filters.directives, path, at) implies config.resolved().threshold_of(
        Some(path),
    ) == config.filters.directives[at].level by {
        lemma_threshold_of_deciding(filters, path, at);
    }
    if none_matches(config.filters.directives, path) {
        lemma_threshold_without_match(filters, path);
    }
}

} // verus!
