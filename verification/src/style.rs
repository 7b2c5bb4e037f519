//! Where each level is written and how its tag is colored.

use vstd::prelude::*;

use crate::level::Level;
use crate::text::decimal;

verus! {

/// One of the two streams that a rendered line can be written to.
#[derive(Debug, Clone, Copy, PartialEq, Eq, Hash, Structural)]
pub enum Output {
    Stderr,
    Stdout,
}

/// A terminal foreground color.
#[derive(Debug, Clone, Copy, PartialEq, Eq, Hash, Structural)]
pub enum Colour {
    Black,
    Red,
    Green,
    Yellow,
    Blue,
    Purple,
    Cyan,
    White,
    /// A color of the 256-color palette, by its number.
    Fixed(u8),
    /// A 24-bit color, by its red, green and blue parts.
    RGB(u8, u8, u8),
}

/// The palette number of the default color of errors: bright red.
pub const DEFAULT_ERROR_COLOR: u8 = 9;

/// The palette number of the default color of warnings: bright yellow.
pub const DEFAULT_WARN_COLOR: u8 = 11;

/// The palette number of the default color of `Info`: bright green.
pub const DEFAULT_INFO_COLOR: u8 = 10;

/// The palette number of the default color of `Debug`: light grey.
pub const DEFAULT_DEBUG_COLOR: u8 = 7;

/// The palette number of the default color of `Trace`: grey.
pub const DEFAULT_TRACE_COLOR: u8 = 8;

/// The character that starts every escape sequence.
pub open spec fn escape() -> char {
    '\x1B'
}

impl Colour {
    /// The parameter of the escape sequence that selects the color as the
    /// foreground.
    pub open spec fn foreground_code(self) -> Seq<char> {
        match self {
            Colour::Black => "30"@,
            Colour::Red => "31"@,
            Colour::Green => "32"@,
            Colour::Yellow => "33"@,
            Colour::Blue => "34"@,
            Colour::Purple => "35"@,
            Colour::Cyan => "36"@,
            Colour::White => "37"@,
            Colour::Fixed(n) => "38;5;"@ + decimal(n as nat),
            Colour::RGB(r, g, b) => "38;2;"@ + decimal(r as nat) + ";"@ + decimal(g as nat) + ";"@
                + decimal(b as nat),
        }
    }

    /// `text` between the escape sequence that selects the color and the one
    /// that resets the terminal.
    pub open spec fn painted(self, text: Seq<char>) -> Seq<char> {
        "\x1B["@ + self.foreground_code() + "m"@ + text + "\x1B[0m"@
    }
}

/// Paints `text` in `colour`.
///
/// Trusted: the body calls `ansi_term::Colour::paint` and renders the painted
/// string through its `Display` impl. The contract restates what that impl
/// writes for a style that holds a foreground color and nothing else: the
/// introducer `ESC [`, the color's foreground code, `m`, the text unchanged,
/// and the reset sequence `ESC [ 0 m`.
#[verifier::external_body]
pub(crate) fn paint(text: &str, colour: Colour) -> (painted: String)
    ensures
        painted@ == colour.painted(text@),
{
    let outside = match colour {
        Colour::Black => ansi_term::Colour::Black,
        Colour::Red => ansi_term::Colour::Red,
        Colour::Green => ansi_term::Colour::Green,
        Colour::Yellow => ansi_term::Colour::Yellow,
        Colour::Blue => ansi_term::Colour::Blue,
        Colour::Purple => ansi_term::Colour::Purple,
        Colour::Cyan => ansi_term::Colour::Cyan,
        Colour::White => ansi_term::Colour::White,
        Colour::Fixed(n) => ansi_term::Colour::Fixed(n),
        Colour::RGB(r, g, b) => ansi_term::Colour::RGB(r, g, b),
    };
    outside.paint(text).to_string()
}

/// The stream and the color of one level.
#[derive(Debug, Clone, Copy, PartialEq, Eq, Structural)]
pub struct LevelStyle {
    pub output: Output,
    pub color: Colour,
}

/// The style of every level.
#[derive(Debug, Clone, Copy, PartialEq, Eq, Structural)]
pub struct Styles {
    pub error: LevelStyle,
    pub warn: LevelStyle,
    pub info: LevelStyle,
    pub debug: LevelStyle,
    pub trace: LevelStyle,
}

impl Styles {
    /// The table that a new logger starts with: errors and warnings go to
    /// stderr, the rest to stdout, each level in its default color.
    pub open spec fn initial() -> Styles {
        Styles {
            error: LevelStyle { output: Output::Stderr, color: Colour::Fixed(DEFAULT_ERROR_COLOR) },
            warn: LevelStyle { output: Output::Stderr, color: Colour::Fixed(DEFAULT_WARN_COLOR) },
            info: LevelStyle { output: Output::Stdout, color: Colour::Fixed(DEFAULT_INFO_COLOR) },
            debug: LevelStyle { output: Output::Stdout, color: Colour::Fixed(DEFAULT_DEBUG_COLOR) },
            trace: LevelStyle { output: Output::Stdout, color: Colour::Fixed(DEFAULT_TRACE_COLOR) },
        }
    }

    /// The style of `level`.
    pub open spec fn spec_get(self, level: Level) -> LevelStyle {
        match level {
            Level::Error => self.error,
            Level::Warn => self.warn,
            Level::Info => self.info,
            Level::Debug => self.debug,
            Level::Trace => self.trace,
        }
    }

    /// The table with the style of `level` replaced.
    pub open spec fn spec_with(self, level: Level, style: LevelStyle) -> Styles {
        match level {
            Level::Error => Styles { error: style, ..self },
            Level::Warn => Styles { warn: style, ..self },
            Level::Info => Styles { info: style, ..self },
            Level::Debug => Styles { debug: style, ..self },
            Level::Trace => Styles { trace: style, ..self },
        }
    }

    /// The table that a new logger starts with.
    pub fn new() -> (styles: Styles)
        ensures
            styles == Styles::initial(),
    {
        Styles {
            error: LevelStyle { output: Output::Stderr, color: Colour::Fixed(DEFAULT_ERROR_COLOR) },
            warn: LevelStyle { output: Output::Stderr, color: Colour::Fixed(DEFAULT_WARN_COLOR) },
            info: LevelStyle { output: Output::Stdout, color: Colour::Fixed(DEFAULT_INFO_COLOR) },
            debug: LevelStyle { output: Output::Stdout, color: Colour::Fixed(DEFAULT_DEBUG_COLOR) },
            trace: LevelStyle { output: Output::Stdout, color: Colour::Fixed(DEFAULT_TRACE_COLOR) },
        }
    }

    /// The style of `level`.
    #[verifier::when_used_as_spec(spec_get)]
    pub fn get(self, level: Level) -> (style: LevelStyle)
        ensures
            style == self.spec_get(level),
    {
        match level {
            Level::Error => self.error,
            Level::Warn => self.warn,
            Level::Info => self.info,
            Level::Debug => self.debug,
            Level::Trace => self.trace,
        }
    }

    /// The table with the style of `level` replaced.
    #[verifier::when_used_as_spec(spec_with)]
    pub fn with(self, level: Level, style: LevelStyle) -> (styles: Styles)
        ensures
            styles == self.spec_with(level, style),
            styles.get(level) == style,
            forall|other: Level| other != level ==> styles.get(other) == self.get(other),
    {
        let mut styles = self;
        match level {
            Level::Error => styles.error = style,
            Level::Warn => styles.warn = style,
            Level::Info => styles.info = style,
            Level::Debug => styles.debug = style,
            Level::Trace => styles.trace = style,
        }
        styles
    }
}

} // verus!
