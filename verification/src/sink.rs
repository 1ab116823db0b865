//! The sink: the severity ceiling and what it lets through.

use crate::delivery::{
    lemma_line_delivery, lemma_over_asks_nothing, CommandView, Delivery, Outcome, Progress,
};
use crate::record::{format_record, Record};
use crate::severity::Severity;
use vstd::prelude::*;

verus! {

/// The path of the special file through which the kernel takes log lines. A
/// sink writes to this file and to no other.
pub const DEVICE: &'static str = "/dev/kmsg";

/// The kernel log sink.
///
/// A sink holds its ceiling, the least severe severity that it still lets
/// through. The ceiling is set when the sink is made and never changes.
#[derive(Clone, Copy, Debug, PartialEq, Eq, Structural)]
pub struct KernelLog {
    maxlevel: Severity,
}

impl KernelLog {
    /// The ceiling of this sink.
    pub closed spec fn ceiling(&self) -> Severity {
        self.maxlevel
    }

    /// Whether this sink lets a record of the given severity through: it does
    /// when the severity is at least as severe as the ceiling.
    pub open spec fn spec_enabled(&self, severity: Severity) -> bool {
        severity.spec_passes(self.ceiling())
    }

    /// What this sink does with a record: a record that it lets through is
    /// written as its line and flushed, any other asks nothing of the device.
    pub open spec fn spec_log(&self, record: &Record) -> Progress {
        if self.spec_enabled(record.severity) {
            Progress::Locking { pending: Some(record.spec_line()) }
        } else {
            Progress::Over
        }
    }

    /// Creates a sink whose ceiling is `Info`.
    pub fn new() -> (sink: KernelLog)
        ensures
            sink.ceiling() == Severity::Info,
    {
        KernelLog::with_level(Severity::Info)
    }

    /// Creates a sink with the given ceiling.
    pub fn with_level(ceiling: Severity) -> (sink: KernelLog)
        ensures
            sink.ceiling() == ceiling,
    {
        KernelLog { maxlevel: ceiling }
    }

    /// The ceiling of this sink.
    pub fn max_level(&self) -> (ceiling: Severity)
        ensures
            ceiling == self.ceiling(),
    {
        self.maxlevel
    }

    /// Whether a record of the given severity would be written.
    pub fn enabled(&self, severity: Severity) -> (yes: bool)
        ensures
            yes == self.spec_enabled(severity),
    {
        severity <= self.maxlevel
    }

    /// Takes a record and says how it is delivered.
    ///
    /// The ceiling is tested here again, whoever tested it before. A record
    /// that passes is rendered, and the delivery writes its line and flushes;
    /// for any other the delivery is over at once.
    pub fn log(&self, record: &Record) -> (delivery: Delivery)
        ensures
            delivery@ == self.spec_log(record),
    {
        if !self.enabled(record.severity) {
            return Delivery::nothing();
        }
        let line = format_record(record);
        Delivery::of_line(line)
    }

    /// Says how the device is flushed on its own.
    pub fn flush(&self) -> (delivery: Delivery)
        ensures
            delivery@ == (Progress::Locking { pending: None }),
    {
        Delivery::of_flush()
    }
}

/// A sink is its ceiling: two sinks with the same ceiling are the same sink.
pub proof fn lemma_sink_is_its_ceiling(one: KernelLog, other: KernelLog)
    ensures
        one.ceiling() == other.ceiling() <==> one == other,
{
}

/// A record that the sink does not let through asks nothing of the device:
/// no lock is taken and no byte is written, whatever the device would answer.
pub proof fn lemma_disabled_record_writes_nothing(
    sink: KernelLog,
    record: &Record,
    outcomes: Seq<Outcome>,
)
    requires
        !sink.spec_enabled(record.severity),
    ensures
        sink.spec_log(record).commands(outcomes) == Seq::<CommandView>::empty(),
{
    lemma_over_asks_nothing(outcomes);
}

/// A record that the sink lets through is written exactly once, as its whole
/// line, and the flush follows, whatever the device reports for either: a
/// failing or short write stops nothing and is passed on to no one.
pub proof fn lemma_enabled_record_is_written_once(
    sink: KernelLog,
    record: &Record,
    outcomes: Seq<Outcome>,
)
    requires
        sink.spec_enabled(record.severity),
        outcomes.len() >= 4,
        outcomes[0] == Outcome::Done,
    ensures
        sink.spec_log(record).commands(outcomes) == seq![
            CommandView::Lock,
            CommandView::Write(record.spec_line()),
            CommandView::Flush,
            CommandView::Unlock,
        ],
        sink.spec_log(record).after_all(outcomes) == Progress::Over,
{
    lemma_line_delivery(record.spec_line(), outcomes);
}

/// What a sink lets through is closed towards the severe end: with a record
/// it lets through every record that is at least as severe. Its own ceiling
/// passes, so does `Error` under every ceiling, and nothing beyond the ceiling
/// does.
pub proof fn lemma_ceiling_bounds_what_passes(sink: KernelLog, more: Severity, less: Severity)
    requires
        more.spec_passes(less),
    ensures
        sink.spec_enabled(less) ==> sink.spec_enabled(more),
        sink.spec_enabled(sink.ceiling()),
        sink.spec_enabled(Severity::Error),
        sink.spec_enabled(less) <==> less.spec_rank() <= sink.ceiling().spec_rank(),
{
}

} // verus!
