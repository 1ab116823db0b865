//! Severities and the priority codes of the kernel log.

use std::cmp::Ordering;
use vstd::prelude::*;
use vstd::std_specs::cmp::PartialOrdSpecImpl;

verus! {

/// The importance of a record, from the most severe to the least.
///
/// The same type serves as the level of a record and as the ceiling of a sink.
#[derive(Clone, Copy, Debug, PartialEq, Eq, Structural, Hash)]
pub enum Severity {
    /// Something failed.
    Error,
    /// Something may be about to fail.
    Warn,
    /// What an operator wants to know.
    Info,
    /// What a developer wants to know.
    Debug,
    /// Every step, in full detail.
    Trace,
}

impl Severity {
    /// The place of a severity in the ordering: 1 for `Error`, the most severe,
    /// up to 5 for `Trace`, the least.
    pub open spec fn spec_rank(self) -> nat {
        match self {
            Severity::Error => 1,
            Severity::Warn => 2,
            Severity::Info => 3,
            Severity::Debug => 4,
            Severity::Trace => 5,
        }
    }

    /// The priority code under which the kernel log files a record of this
    /// severity.
    pub open spec fn spec_priority(self) -> u8 {
        match self {
            Severity::Error => 3,
            Severity::Warn => 4,
            Severity::Info => 5,
            Severity::Debug => 6,
            Severity::Trace => 7,
        }
    }

    /// Whether a record of severity `self` passes a sink whose ceiling is
    /// `ceiling`: it does when it is at least as severe as the ceiling.
    pub open spec fn spec_passes(self, ceiling: Severity) -> bool {
        self.spec_rank() <= ceiling.spec_rank()
    }

    /// The place of this severity in the ordering, `Error` first.
    pub fn rank(self) -> (rank: u8)
        ensures
            rank == self.spec_rank(),
    {
        match self {
            Severity::Error => 1,
            Severity::Warn => 2,
            Severity::Info => 3,
            Severity::Debug => 4,
            Severity::Trace => 5,
        }
    }

    /// The kernel priority code of this severity.
    pub fn priority(self) -> (code: u8)
        ensures
            code == self.spec_priority(),
    {
        match self {
            Severity::Error => 3,
            Severity::Warn => 4,
            Severity::Info => 5,
            Severity::Debug => 6,
            Severity::Trace => 7,
        }
    }
}

impl PartialOrd for Severity {
    /// Orders severities by rank, the most severe first: `Error` is the least
    /// and `Trace` the greatest.
    fn partial_cmp(&self, other: &Severity) -> (order: Option<Ordering>) {
        let mine: u8 = self.rank();
        let theirs: u8 = other.rank();
        if mine < theirs {
            Some(Ordering::Less)
        } else if mine == theirs {
            Some(Ordering::Equal)
        } else {
            Some(Ordering::Greater)
        }
    }
}

impl PartialOrdSpecImpl for Severity {
    open spec fn obeys_partial_cmp_spec() -> bool {
        true
    }

    open spec fn partial_cmp_spec(&self, other: &Severity) -> Option<Ordering> {
        if self.spec_rank() < other.spec_rank() {
            Some(Ordering::Less)
        } else if self.spec_rank() == other.spec_rank() {
            Some(Ordering::Equal)
        } else {
            Some(Ordering::Greater)
        }
    }
}

/// Every priority code lies between 3 and 7, sits two above the rank of its
/// severity, and belongs to one severity only.
pub proof fn lemma_priority_codes(a: Severity, b: Severity)
    ensures
        3 <= a.spec_priority() <= 7,
        a.spec_priority() == a.spec_rank() + 2,
        a.spec_priority() == b.spec_priority() ==> a == b,
        a.spec_passes(b) <==> a.spec_priority() <= b.spec_priority(),
{
}

} // verus!
