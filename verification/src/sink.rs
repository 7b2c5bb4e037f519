//! The one place that a resolved logger is registered in, once.

use vstd::prelude::*;

use crate::error::ConfigError;
use crate::level::Level;
use crate::record::LogRecord;
use crate::resolved::{Emission, ResolvedLogger, ResolvedView};

verus! {

/// One attempt to register `logger` in a sink in `state`: the state that
/// follows, and what the caller is told. An empty sink takes the logger. A
/// sink that holds one keeps it and reports the double registration.
pub open spec fn registration(state: Option<ResolvedView>, logger: ResolvedView) -> (
    Option<ResolvedView>,
    Result<(), ConfigError>,
) {
    match state {
        None => (Some(logger), Ok(())),
        Some(_) => (state, Err(ConfigError::DoubleRegistration)),
    }
}

/// The sink of a process: unregistered at first, then registered for good.
#[derive(Debug)]
pub struct GlobalSink {
    logger: Option<ResolvedLogger>,
}

impl View for GlobalSink {
    type V = Option<ResolvedView>;

    closed spec fn view(&self) -> Option<ResolvedView> {
        match self.logger {
            Some(logger) => Some(logger@),
            None => None,
        }
    }
}

impl GlobalSink {
    /// An unregistered sink.
    pub fn new() -> (sink: GlobalSink)
        ensures
            sink@ is None,
    {
        GlobalSink { logger: None }
    }

    pub fn is_registered(&self) -> (registered: bool)
        ensures
            registered == self@ is Some,
    {
        self.logger.is_some()
    }

    /// Registers a logger, unless one is registered.
    pub fn register(&mut self, logger: ResolvedLogger) -> (outcome: Result<(), ConfigError>)
        ensures
            (final(self)@, outcome) == registration(old(self)@, logger@),
    {
        if self.logger.is_some() {
            Err(ConfigError::DoubleRegistration)
        } else {
            self.logger = Some(logger);
            Ok(())
        }
    }

    /// The registered logger.
    pub fn logger(&self) -> (logger: Option<&ResolvedLogger>)
        ensures
            match logger {
                Some(logger) => self@ == Some(logger@),
                None => self@ is None,
            },
    {
        self.logger.as_ref()
    }

    /// Whether a record of `level` from the module at `path` would be
    /// written. Nothing is written before a logger is registered.
    pub fn enabled(&self, level: Level, path: Option<&str>) -> (enabled: bool)
        ensures
            enabled == match self@ {
                Some(logger) => logger.enabled(
                    level,
                    match path {
                        Some(path) => Some(path@),
                        None => None,
                    },
                ),
                None => false,
            },
    {
        match &self.logger {
            Some(logger) => logger.enabled(level, path),
            None => false,
        }
    }

    /// Decides on a record: what to write and to which stream, or `None`
    /// where no logger is registered or the record does not pass.
    pub fn log(&self, record: &LogRecord) -> (emission: Option<Emission>)
        ensures
            match emission {
                Some(emission) => {
                    &&& self@ matches Some(logger)
                    &&& logger.enabled(record@.level, record@.module)
                    &&& emission.output == logger.route(record@.level)
                    &&& emission.text@ == logger.line(record@)
                },
                None => self@ matches Some(logger) ==> !logger.enabled(
                    record@.level,
                    record@.module,
                ),
            },
    {
        match &self.logger {
            Some(logger) => logger.log(record),
            None => None,
        }
    }
}

/// Of two registrations in a row the first succeeds and the second fails
/// with `DoubleRegistration`; the sink keeps the first logger.
pub proof fn lemma_second_registration_fails(first: ResolvedView, second: ResolvedView)
    ensures
        registration(None, first) == (Some(first), Ok::<(), ConfigError>(())),
        registration(registration(None, first).0, second) == (
            Some(first),
            Err::<(), ConfigError>(ConfigError::DoubleRegistration),
        ),
{
}

/// There is no way back: after any attempt the sink is registered, and a
/// sink that was registered before holds what it held.
pub proof fn lemma_registered_for_good(state: Option<ResolvedView>, logger: ResolvedView)
    ensures
        registration(state, logger).0 is Some,
        state is Some ==> registration(state, logger).0 == state,
        registration(state, logger).1 is Ok <==> state is None,
{
}

} // verus!
