//! The immutable logger that a finished configuration yields: it filters,
//! renders and routes records.

use vstd::prelude::*;

use crate::filter::{lemma_ceiling_bounds_thresholds, FilterSet, FilterSetView};
use crate::level::Level;
use crate::record::{LogRecord, RecordView};
use crate::style::{escape, paint, Output, Styles};
use crate::text::{decimal, free_of, lemma_decimal_digits, push_decimal};

verus! {

/// A resolved logger as a value.
pub struct ResolvedView {
    pub colors: bool,
    pub include_level: bool,
    pub include_line_numbers: bool,
    pub include_module_path: bool,
    pub separator: Seq<char>,
    pub filters: FilterSetView,
    pub styles: Styles,
}

impl ResolvedView {
    /// The level text, where the tag holds it.
    pub open spec fn level_part(self, record: RecordView) -> Seq<char> {
        if self.include_level {
            record.level.text()
        } else {
            Seq::empty()
        }
    }

    /// The module path, where the tag holds it: in square brackets behind a
    /// space where the level text stands before it, else bare. A record
    /// without a module path has `unknown` in its place.
    pub open spec fn module_part(self, record: RecordView) -> Seq<char> {
        let path = match record.module {
            Some(path) => path,
            None => "unknown"@,
        };
        if !self.include_module_path {
            Seq::empty()
        } else if self.include_level {
            " ["@ + path + "]"@
        } else {
            path
        }
    }

    /// The line number, where the tag holds it and the record has one.
    pub open spec fn line_part(self, record: RecordView) -> Seq<char> {
        match record.line {
            Some(line) if self.include_line_numbers => " (line "@ + decimal(line as nat) + ")"@,
            _ => Seq::empty(),
        }
    }

    /// The tag before any color: level text, module path and line number, as
    /// far as each is enabled.
    pub open spec fn plain_tag(self, record: RecordView) -> Seq<char> {
        self.level_part(record) + self.module_part(record) + self.line_part(record)
    }

    /// The tag, painted in the color of the record's level where colors are
    /// enabled.
    pub open spec fn tag(self, record: RecordView) -> Seq<char> {
        if self.colors {
            self.styles.get(record.level).color.painted(self.plain_tag(record))
        } else {
            self.plain_tag(record)
        }
    }

    /// The rendered record: tag, separator and message. The message is never
    /// painted.
    pub open spec fn rendered(self, record: RecordView) -> Seq<char> {
        self.tag(record) + self.separator + record.message
    }

    /// The rendered record with the line terminator behind it.
    pub open spec fn line(self, record: RecordView) -> Seq<char> {
        self.rendered(record) + "\n"@
    }

    /// The stream that records of `level` are written to.
    pub open spec fn route(self, level: Level) -> Output {
        self.styles.get(level).output
    }

    /// The threshold that records of a module are held against; a record
    /// without a module path is held against the default.
    pub open spec fn threshold_of(self, module: Option<Seq<char>>) -> Level {
        match module {
            Some(path) => self.filters.threshold_for(path),
            None => self.filters.default_threshold(),
        }
    }

    /// Whether a record of `level` from `module` is written.
    pub open spec fn enabled(self, level: Level, module: Option<Seq<char>>) -> bool {
        level.passes(self.threshold_of(module))
    }

    /// The global threshold: that of every module that no directive matches.
    pub open spec fn threshold(self) -> Level {
        self.filters.default_threshold()
    }

    /// The most verbose threshold of any module. A level beyond it is
    /// written for no module.
    pub open spec fn max_level(self) -> Level {
        self.filters.ceiling()
    }
}

/// What to write for a record, and where.
#[derive(Debug)]
pub struct Emission {
    pub output: Output,
    pub text: String,
}

/// A logger whose configuration is final.
#[derive(Debug)]
pub struct ResolvedLogger {
    colors: bool,
    include_level: bool,
    include_line_numbers: bool,
    include_module_path: bool,
    separator: String,
    filters: FilterSet,
    styles: Styles,
}

impl View for ResolvedLogger {
    type V = ResolvedView;

    closed spec fn view(&self) -> ResolvedView {
        ResolvedView {
            colors: self.colors,
            include_level: self.include_level,
            include_line_numbers: self.include_line_numbers,
            include_module_path: self.include_module_path,
            separator: self.separator@,
            filters: self.filters@,
            styles: self.styles,
        }
    }
}

impl ResolvedLogger {
    pub(crate) fn assemble(
        colors: bool,
        include_level: bool,
        include_line_numbers: bool,
        include_module_path: bool,
        separator: String,
        filters: FilterSet,
        styles: Styles,
    ) -> (logger: ResolvedLogger)
        ensures
            logger@ == (ResolvedView {
                colors,
                include_level,
                include_line_numbers,
                include_module_path,
                separator: separator@,
                filters: filters@,
                styles,
            }),
    {
        ResolvedLogger {
            colors,
            include_level,
            include_line_numbers,
            include_module_path,
            separator,
            filters,
            styles,
        }
    }

    /// Renders a record: tag, separator, message.
    pub fn format(&self, record: &LogRecord) -> (rendered: String)
        ensures
            rendered@ == self@.rendered(record@),
    {
        let mut tag = String::new();
        if self.include_level {
            tag.append(record.level.as_str());
        }
        if self.include_module_path {
            let path: &str = match &record.module {
                Some(path) => path.as_str(),
                None => "unknown",
            };
            if self.include_level {
                tag.append(" [");
                tag.append(path);
                tag.append("]");
            } else {
                tag.append(path);
            }
        }
        if self.include_line_numbers {
            match record.line {
                Some(line) => {
                    tag.append(" (line ");
                    push_decimal(&mut tag, line as u64);
                    tag.append(")");
                },
                None => {},
            }
        }
        let mut rendered = if self.colors {
            paint(tag.as_str(), self.styles.get(record.level).color)
        } else {
            tag
        };
        rendered.append(self.separator.as_str());
        rendered.append(record.message.as_str());
        rendered
    }

    pub fn colors_enabled(&self) -> (enabled: bool)
        ensures
            enabled == self@.colors,
    {
        self.colors
    }

    pub fn separator_text(&self) -> (separator: &str)
        ensures
            separator@ == self@.separator,
    {
        self.separator.as_str()
    }

    pub fn filters(&self) -> (filters: &FilterSet)
        ensures
            filters@ == self@.filters,
    {
        &self.filters
    }

    /// The global threshold.
    pub fn threshold(&self) -> (level: Level)
        ensures
            level == self@.threshold(),
    {
        match self.filters.default() {
            Some(level) => level,
            None => Level::unset(),
        }
    }

    /// The most verbose threshold of any module: the level up to which a
    /// caller has to hand records over at all.
    pub fn max_level(&self) -> (level: Level)
        ensures
            level == self@.max_level(),
    {
        self.filters.ceiling()
    }

    /// The stream that records of `level` are written to.
    pub fn route(&self, level: Level) -> (output: Output)
        ensures
            output == self@.route(level),
    {
        self.styles.get(level).output
    }

    /// Whether a record of `level` from the module at `path` would be
    /// written.
    pub fn enabled(&self, level: Level, path: Option<&str>) -> (enabled: bool)
        ensures
            enabled == self@.enabled(
                level,
                match path {
                    Some(path) => Some(path@),
                    None => None,
                },
            ),
    {
        let threshold = match path {
            Some(path) => self.filters.effective_threshold(path),
            None => match self.filters.default() {
                Some(level) => level,
                None => Level::unset(),
            },
        };
        level.passes(threshold)
    }

    /// Decides on a record: what to write and to which stream, or `None`
    /// where the record does not pass its module's threshold.
    pub fn log(&self, record: &LogRecord) -> (emission: Option<Emission>)
        ensures
            match emission {
                Some(emission) => {
                    &&& self@.enabled(record@.level, record@.module)
                    &&& emission.output == self@.route(record@.level)
                    &&& emission.text@ == self@.line(record@)
                },
                None => !self@.enabled(record@.level, record@.module),
            },
    {
        let path: Option<&str> = match &record.module {
            Some(path) => Some(path.as_str()),
            None => None,
        };
        if self.enabled(record.level, path) {
            let mut text = self.format(record);
            text.append("\n");
            Some(Emission { output: self.route(record.level), text })
        } else {
            None
        }
    }
}

/// Writing is a function of the logger and the record: any two texts that
/// meet the contract of `format` for the same logger and record are the
/// same, character by character.
pub proof fn lemma_format_is_deterministic(
    logger: ResolvedView,
    record: RecordView,
    first: Seq<char>,
    second: Seq<char>,
)
    requires
        first == logger.rendered(record),
        second == logger.rendered(record),
    ensures
        first == second,
{
}

/// Without colors no escape character is written, whatever colors are
/// configured, unless the separator, the record's module path or its message
/// holds one.
pub proof fn lemma_no_escape_without_colors(logger: ResolvedView, record: RecordView)
    requires
        !logger.colors,
        free_of(logger.separator, escape()),
        free_of(record.message, escape()),
        record.module matches Some(path) ==> free_of(path, escape()),
    ensures
        free_of(logger.rendered(record), escape()),
        free_of(logger.line(record), escape()),
{
    reveal_strlit("ERROR");
    reveal_strlit("WARN");
    reveal_strlit("INFO");
    reveal_strlit("DEBUG");
    reveal_strlit("TRACE");
    reveal_strlit("unknown");
    reveal_strlit(" [");
    reveal_strlit("]");
    reveal_strlit(" (line ");
    reveal_strlit(")");
    reveal_strlit("\n");
    assert(free_of(logger.line_part(record), escape())) by {
        match record.line {
            Some(line) => {
                lemma_decimal_digits(line as nat);
            },
            None => {},
        }
    }
}

/// A record that is written has a level within `max_level`.
pub proof fn lemma_written_within_max_level(
    logger: ResolvedView,
    level: Level,
    module: Option<Seq<char>>,
)
    requires
        logger.enabled(level, module),
    ensures
        level.rank() <= logger.max_level().rank(),
{
    match module {
        Some(path) => {
            lemma_ceiling_bounds_thresholds(logger.filters, path);
        },
        None => {
            lemma_ceiling_bounds_thresholds(logger.filters, Seq::empty());
        },
    }
}

} // verus!
