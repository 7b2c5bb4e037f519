//! The five severities and their total order by verbosity.

use vstd::prelude::*;

use crate::text::{chars_of, region_is_word, same_ignoring_ascii_case};

verus! {

/// The severity of a record, and equally a threshold that records are held
/// against. The variants are listed from the most severe to the most verbose.
#[derive(Debug, Clone, Copy, PartialEq, Eq, PartialOrd, Ord, Hash, Structural)]
pub enum Level {
    Error,
    Warn,
    Info,
    Debug,
    Trace,
}

/// The rank of the most verbose level.
pub const MAX_RANK: u8 = 4;

/// The rank that stands in for a threshold that nothing has set: that of
/// `Warn`.
pub const DEFAULT_OFFSET: u64 = 1;

impl Level {
    /// The verbosity rank: `Error` is 0 and `Trace` is 4.
    pub open spec fn spec_rank(self) -> u8 {
        match self {
            Level::Error => 0,
            Level::Warn => 1,
            Level::Info => 2,
            Level::Debug => 3,
            Level::Trace => 4,
        }
    }

    /// The level of a rank; every rank above 4 is `Trace`.
    pub open spec fn spec_from_rank(rank: int) -> Level {
        if rank <= 0 {
            Level::Error
        } else if rank == 1 {
            Level::Warn
        } else if rank == 2 {
            Level::Info
        } else if rank == 3 {
            Level::Debug
        } else {
            Level::Trace
        }
    }

    /// The level that stands in for a threshold that nothing has set.
    pub open spec fn spec_unset() -> Level {
        Level::spec_from_rank(DEFAULT_OFFSET as int)
    }

    /// Whether a record of severity `self` passes the threshold: it does when
    /// it is at least as severe, that is, when its rank is not above the
    /// threshold's.
    pub open spec fn spec_passes(self, threshold: Level) -> bool {
        self.spec_rank() <= threshold.spec_rank()
    }

    /// The more verbose of two levels.
    pub open spec fn spec_most_verbose(self, other: Level) -> Level {
        if self.spec_rank() >= other.spec_rank() {
            self
        } else {
            other
        }
    }

    /// The text that stands for the level in a rendered line.
    pub open spec fn text(self) -> Seq<char> {
        match self {
            Level::Error => "ERROR"@,
            Level::Warn => "WARN"@,
            Level::Info => "INFO"@,
            Level::Debug => "DEBUG"@,
            Level::Trace => "TRACE"@,
        }
    }

    /// The level that a name stands for: one of `error`, `warn`, `info`,
    /// `debug` and `trace`, in any mix of upper and lower case.
    pub open spec fn named(name: Seq<char>) -> Option<Level> {
        if same_ignoring_ascii_case(name, "error"@) {
            Some(Level::Error)
        } else if same_ignoring_ascii_case(name, "warn"@) {
            Some(Level::Warn)
        } else if same_ignoring_ascii_case(name, "info"@) {
            Some(Level::Info)
        } else if same_ignoring_ascii_case(name, "debug"@) {
            Some(Level::Debug)
        } else if same_ignoring_ascii_case(name, "trace"@) {
            Some(Level::Trace)
        } else {
            None
        }
    }

    /// The verbosity rank, from 0 for `Error` to 4 for `Trace`.
    #[verifier::when_used_as_spec(spec_rank)]
    pub fn rank(self) -> (rank: u8)
        ensures
            rank == self.spec_rank(),
            rank <= MAX_RANK,
    {
        match self {
            Level::Error => 0,
            Level::Warn => 1,
            Level::Info => 2,
            Level::Debug => 3,
            Level::Trace => 4,
        }
    }

    /// The level of a rank; every rank above 4 is `Trace`.
    pub fn from_rank(rank: u64) -> (level: Level)
        ensures
            level == Level::spec_from_rank(rank as int),
    {
        if rank == 0 {
            Level::Error
        } else if rank == 1 {
            Level::Warn
        } else if rank == 2 {
            Level::Info
        } else if rank == 3 {
            Level::Debug
        } else {
            Level::Trace
        }
    }

    /// The text that stands for the level in a rendered line.
    pub fn as_str(self) -> (text: &'static str)
        ensures
            text@ == self.text(),
    {
        match self {
            Level::Error => "ERROR",
            Level::Warn => "WARN",
            Level::Info => "INFO",
            Level::Debug => "DEBUG",
            Level::Trace => "TRACE",
        }
    }

    /// Reads a level name; `None` for any other text.
    pub fn from_name(name: &str) -> (level: Option<Level>)
        ensures
            level == Level::named(name@),
    {
        let chars = chars_of(name);
        assert(chars@.subrange(0, chars@.len() as int) =~= name@);
        Level::from_name_in(&chars, 0, chars.len())
    }

    /// Reads the level name that stands in `chars` from `from` up to `to`.
    pub fn from_name_in(chars: &Vec<char>, from: usize, to: usize) -> (level: Option<Level>)
        requires
            from <= to <= chars.len(),
        ensures
            level == Level::named(chars@.subrange(from as int, to as int)),
    {
        if region_is_word(chars, from, to, "error") {
            Some(Level::Error)
        } else if region_is_word(chars, from, to, "warn") {
            Some(Level::Warn)
        } else if region_is_word(chars, from, to, "info") {
            Some(Level::Info)
        } else if region_is_word(chars, from, to, "debug") {
            Some(Level::Debug)
        } else if region_is_word(chars, from, to, "trace") {
            Some(Level::Trace)
        } else {
            None
        }
    }

    /// The level that stands in for a threshold that nothing has set.
    #[verifier::when_used_as_spec(spec_unset)]
    pub fn unset() -> (level: Level)
        ensures
            level == Level::spec_unset(),
            level == Level::Warn,
    {
        Level::from_rank(DEFAULT_OFFSET)
    }

    /// Whether a record of this severity passes the threshold.
    #[verifier::when_used_as_spec(spec_passes)]
    pub fn passes(self, threshold: Level) -> (passes: bool)
        ensures
            passes == self.spec_passes(threshold),
    {
        self.rank() <= threshold.rank()
    }

    /// The more verbose of two levels.
    #[verifier::when_used_as_spec(spec_most_verbose)]
    pub fn most_verbose(self, other: Level) -> (level: Level)
        ensures
            level == self.spec_most_verbose(other),
    {
        if self.rank() >= other.rank() {
            self
        } else {
            other
        }
    }
}

/// The rank orders the levels totally, and names each of them.
pub proof fn lemma_rank_orders_levels(a: Level, b: Level, c: Level)
    ensures
        a.passes(a),
        a.passes(b) || b.passes(a),
        a.passes(b) && b.passes(a) ==> a == b,
        a.passes(b) && b.passes(c) ==> a.passes(c),
        Level::spec_from_rank(a.rank() as int) == a,
{
}

/// Filtering is monotone: a threshold never passes a record that is more
/// verbose than the threshold itself.
pub proof fn lemma_threshold_rejects_more_verbose(threshold: Level, severity: Level)
    requires
        threshold.rank() < severity.rank(),
    ensures
        !severity.passes(threshold),
{
}

} // verus!
