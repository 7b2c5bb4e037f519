//! The failures that configuring a logger can report.

use vstd::prelude::*;

verus! {

/// A failure of configuration.
#[derive(Debug, Clone, Copy, PartialEq, Eq, Hash, Structural)]
pub enum ConfigError {
    /// A filter token is neither `prefix=level` nor a bare level name.
    MalformedDirective,
    /// A sink is already registered.
    DoubleRegistration,
}

} // verus!
