//! The one question that is put to the terminal.

use vstd::prelude::*;

use crate::style::Output;

verus! {

/// Asks whether a stream is an interactive terminal.
///
/// Trusted: the body calls `atty::is` for the stream. The answer depends on
/// what the process is attached to, so nothing is claimed of it.
#[verifier::external_body]
pub(crate) fn stream_is_interactive(stream: Output) -> (interactive: bool) {
    match stream {
        Output::Stdout => atty::is(atty::Stream::Stdout),
        Output::Stderr => atty::is(atty::Stream::Stderr),
    }
}

} // verus!
