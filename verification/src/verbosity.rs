//! From a baseline, a verbosity count and an explicit level to the one
//! global threshold.

use vstd::prelude::*;

use crate::level::{Level, DEFAULT_OFFSET};

verus! {

/// The rank that a verbosity count is added to: that of the baseline, or
/// `DEFAULT_OFFSET` where no baseline is set.
pub open spec fn offset(baseline: Option<Level>) -> int {
    match baseline {
        Some(level) => level.rank() as int,
        None => DEFAULT_OFFSET as int,
    }
}

/// The global threshold. An explicit level wins outright. Else a verbosity
/// count moves the baseline that many steps towards `Trace`, where it stays.
/// Else the baseline stands as it is, and `Warn` where none is set.
pub open spec fn spec_resolve(
    baseline: Option<Level>,
    verbosity: Option<u64>,
    explicit: Option<Level>,
) -> Level {
    match explicit {
        Some(level) => level,
        None => match verbosity {
            Some(count) => Level::spec_from_rank(count + offset(baseline)),
            None => match baseline {
                Some(level) => level,
                None => Level::unset(),
            },
        },
    }
}

/// Resolves the global threshold from the baseline, the verbosity count and
/// the explicit level.
#[verifier::when_used_as_spec(spec_resolve)]
pub fn resolve(baseline: Option<Level>, verbosity: Option<u64>, explicit: Option<Level>) -> (level:
    Level)
    ensures
        level == spec_resolve(baseline, verbosity, explicit),
{
    match explicit {
        Some(level) => level,
        None => match verbosity {
            Some(count) => {
                let offset: u64 = match baseline {
                    Some(level) => level.rank() as u64,
                    None => DEFAULT_OFFSET,
                };
                if count >= 4 {
                    Level::Trace
                } else {
                    Level::from_rank(count + offset)
                }
            },
            None => match baseline {
                Some(level) => level,
                None => Level::unset(),
            },
        },
    }
}

/// An explicit level is the threshold, whatever the baseline and the
/// verbosity count are.
pub proof fn lemma_explicit_wins(baseline: Option<Level>, verbosity: Option<u64>, explicit: Level)
    ensures
        resolve(baseline, verbosity, Some(explicit)) == explicit,
{
}

/// A verbosity count of zero leaves the threshold where it is without one.
pub proof fn lemma_zero_verbosity(baseline: Option<Level>)
    ensures
        resolve(baseline, Some(0), None) == resolve(baseline, None, None),
{
}

/// Each further count moves the threshold one step towards `Trace`, and
/// leaves it there once it is reached.
pub proof fn lemma_verbosity_step(baseline: Option<Level>, count: u64)
    requires
        count < u64::MAX,
    ensures
        resolve(baseline, Some((count + 1) as u64), None) == Level::spec_from_rank(
            resolve(baseline, Some(count), None).rank() + 1,
        ),
{
}

/// A larger verbosity count never gives a less verbose threshold, and no
/// count gives one less verbose than the baseline.
pub proof fn lemma_verbosity_monotone(baseline: Option<Level>, fewer: u64, more: u64)
    requires
        fewer <= more,
    ensures
        resolve(baseline, Some(fewer), None).rank() <= resolve(baseline, Some(more), None).rank(),
        resolve(baseline, None, None).rank() <= resolve(baseline, Some(fewer), None).rank(),
{
}

} // verus!
