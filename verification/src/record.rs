//! The event that a call site hands to the logger.

use vstd::prelude::*;

use crate::level::Level;

verus! {

/// One logging event.
#[derive(Debug)]
pub struct LogRecord {
    pub level: Level,
    /// The path of the module that the event comes from, where it is known.
    pub module: Option<String>,
    /// The source line of the call site, where it is known.
    pub line: Option<u32>,
    pub message: String,
}

/// A record as a value.
pub struct RecordView {
    pub level: Level,
    pub module: Option<Seq<char>>,
    pub line: Option<u32>,
    pub message: Seq<char>,
}

impl View for LogRecord {
    type V = RecordView;

    open spec fn view(&self) -> RecordView {
        RecordView {
            level: self.level,
            module: match self.module {
                Some(path) => Some(path@),
                None => None,
            },
            line: self.line,
            message: self.message@,
        }
    }
}

impl LogRecord {
    /// A record that owns copies of the module path and the message.
    pub fn new(level: Level, module: Option<&str>, line: Option<u32>, message: &str) -> (record:
        LogRecord)
        ensures
            record@ == (RecordView {
                level,
                module: match module {
                    Some(path) => Some(path@),
                    None => None,
                },
                line,
                message: message@,
            }),
    {
        LogRecord {
            level,
            module: match module {
                Some(path) => Some(String::from_str(path)),
                None => None,
            },
            line,
            message: String::from_str(message),
        }
    }
}

} // verus!
