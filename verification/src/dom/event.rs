//! Events of the document.

use vstd::prelude::*;

verus! {

/// The phase of its flow through the document that an event is in.
#[derive(Debug, Clone, Copy, PartialEq, Eq, Hash)]
#[non_exhaustive]
pub enum PhaseType {
    /// The event travels down towards its target.
    Capturing,
    /// The event has arrived at its target.
    AtTarget,
    /// The event travels back up from its target.
    Bubbling,
}

impl PhaseType {
    /// The number by which the document names the phase.
    pub open spec fn spec_code(self) -> u16 {
        match self {
            PhaseType::Capturing => 1,
            PhaseType::AtTarget => 2,
            PhaseType::Bubbling => 3,
        }
    }

    /// The number by which the document names the phase.
    pub fn code(self) -> (code: u16)
        ensures
            code == self.spec_code(),
    {
        match self {
            PhaseType::Capturing => 1,
            PhaseType::AtTarget => 2,
            PhaseType::Bubbling => 3,
        }
    }

    /// The phase that the document names by `code`, if it names one.
    pub fn from_code(code: u16) -> (phase: Option<PhaseType>)
        ensures
            phase is Some <==> 1 <= code <= 3,
            phase matches Some(p) ==> p.spec_code() == code,
    {
        if code == 1 {
            Some(PhaseType::Capturing)
        } else if code == 2 {
            Some(PhaseType::AtTarget)
        } else if code == 3 {
            Some(PhaseType::Bubbling)
        } else {
            None
        }
    }
}

} // verus!
