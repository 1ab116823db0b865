//! Registration of one sink as the active logger.
//!
//! A process has one place for its active logger. That place is a value here,
//! a [`Registry`], so that what registration does to it can be stated: the
//! first registration succeeds, every later one is refused and changes
//! nothing.

use crate::severity::Severity;
use crate::sink::KernelLog;
use vstd::prelude::*;

verus! {

/// The failure of a registration: a logger is installed already.
#[derive(Clone, Copy, Debug, PartialEq, Eq, Structural)]
pub struct SetLoggerError;

/// What a registry holds: the ceiling of the sink that is installed, and the
/// ceiling that call sites test before they make a record.
pub struct RegistryView {
    pub logger: Option<Severity>,
    pub max_level: Option<Severity>,
}

impl RegistryView {
    /// Whether no logger is installed.
    pub open spec fn vacant(self) -> bool {
        self.logger is None
    }

    /// Whether call sites test the ceiling that the installed sink has, so
    /// that they make exactly the records that the sink would write.
    pub open spec fn agrees(self) -> bool {
        self.max_level == self.logger
    }

    /// The registry with a sink of ceiling `level` installed and call sites
    /// told of the same ceiling.
    pub open spec fn install(self, level: Severity) -> RegistryView {
        RegistryView { logger: Some(level), max_level: Some(level) }
    }

    /// What a registration with ceiling `level` leaves behind: the new sink
    /// where the place was vacant, the registry as it was where it was not.
    pub open spec fn register(self, level: Severity) -> RegistryView {
        if self.vacant() {
            self.install(level)
        } else {
            self
        }
    }
}

/// The place of the active logger, with the ceiling that call sites test.
#[derive(Clone, Copy, Debug, PartialEq, Eq)]
pub struct Registry {
    logger: Option<KernelLog>,
    max_level: Option<Severity>,
}

impl View for Registry {
    type V = RegistryView;

    closed spec fn view(&self) -> RegistryView {
        RegistryView {
            logger: match self.logger {
                Some(sink) => Some(sink.ceiling()),
                None => None,
            },
            max_level: self.max_level,
        }
    }
}

impl Registry {
    /// A registry with no logger installed, in which call sites log nothing.
    pub fn new() -> (registry: Registry)
        ensures
            registry@ == (RegistryView { logger: None, max_level: None }),
    {
        Registry { logger: None, max_level: None }
    }

    /// The sink that is installed, if any.
    pub fn logger(&self) -> (sink: Option<KernelLog>)
        ensures
            sink is Some <==> self@.logger is Some,
            sink matches Some(sink) ==> self@.logger == Some(sink.ceiling()),
    {
        self.logger
    }

    /// The ceiling that call sites test before they make a record; `None`
    /// while they are to log nothing.
    pub fn max_level(&self) -> (ceiling: Option<Severity>)
        ensures
            ceiling == self@.max_level,
    {
        self.max_level
    }
}

/// Installs a sink that lets every severity through as the active logger, and
/// tells call sites the same.
///
/// Fails, and changes nothing, if a logger is installed already.
pub fn init(registry: &mut Registry) -> (result: Result<(), SetLoggerError>)
    ensures
        result is Ok <==> old(registry)@.vacant(),
        final(registry)@ == old(registry)@.register(Severity::Trace),
        result is Err ==> *final(registry) == *old(registry),
{
    init_with_level(registry, Severity::Trace)
}

/// Installs a sink with ceiling `level` as the active logger, and tells call
/// sites the same ceiling, so that a record the sink would drop is not even
/// made.
///
/// Fails, and changes nothing, if a logger is installed already.
pub fn init_with_level(registry: &mut Registry, level: Severity) -> (result: Result<
    (),
    SetLoggerError,
>)
    ensures
        result is Ok <==> old(registry)@.vacant(),
        final(registry)@ == old(registry)@.register(level),
        result is Err ==> *final(registry) == *old(registry),
{
    if registry.logger.is_some() {
        return Err(SetLoggerError);
    }
    let logger = KernelLog::with_level(level);
    registry.logger = Some(logger);
    registry.max_level = Some(level);
    Ok(())
}

/// After a registration that succeeded, every further registration is refused
/// and leaves the first in place, with its ceiling.
pub proof fn lemma_second_registration_is_refused(
    start: RegistryView,
    first: Severity,
    second: Severity,
)
    requires
        start.vacant(),
    ensures
        !start.register(first).vacant(),
        start.register(first).register(second) == start.register(first),
        start.register(first).logger == Some(first),
        start.register(first).max_level == Some(first),
{
}

/// Call sites and the installed sink never come to test different ceilings:
/// they agree in a new registry, and a registration, accepted or refused,
/// leaves them in agreement.
pub proof fn lemma_ceilings_agree(start: RegistryView, level: Severity)
    ensures
        (RegistryView { logger: None, max_level: None }).agrees(),
        start.agrees() ==> start.register(level).agrees(),
{
}

} // verus!
