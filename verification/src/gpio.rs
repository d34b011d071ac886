//! The GPIO lines that a UART needs.

use vstd::prelude::*;

verus! {

/// The two GPIO lines of a UART and how they are to be set up.
#[derive(Clone, Copy, Debug, PartialEq, Eq, Structural)]
pub struct Pins {
    /// Number of the first line.
    pub tx: u32,
    /// Number of the second line.
    pub rx: u32,
    /// Number of the alternate function that connects the lines to the UART.
    pub function: u32,
    /// Whether the lines' pull-up and pull-down are to be switched off.
    pub pull_disabled: bool,
}

/// A lease on the two lines of a UART: which of them are granted or held. A UART can be
/// configured once it holds both, and gives them back when it is released.
#[derive(Clone, Copy, Debug, PartialEq, Eq, Structural)]
pub struct PinLease {
    /// Whether the first line is held.
    pub tx: bool,
    /// Whether the second line is held.
    pub rx: bool,
}

impl PinLease {
    /// The lease on no line.
    pub open spec fn spec_none() -> PinLease {
        PinLease { tx: false, rx: false }
    }

    /// The lease on both lines.
    pub open spec fn spec_both() -> PinLease {
        PinLease { tx: true, rx: true }
    }

    /// Whether both lines are held.
    pub open spec fn spec_complete(self) -> bool {
        self.tx && self.rx
    }

    #[verifier::when_used_as_spec(spec_none)]
    pub fn none() -> (lease: PinLease)
        ensures
            lease == Self::spec_none(),
    {
        PinLease { tx: false, rx: false }
    }

    #[verifier::when_used_as_spec(spec_both)]
    pub fn both() -> (lease: PinLease)
        ensures
            lease == Self::spec_both(),
    {
        PinLease { tx: true, rx: true }
    }

    #[verifier::when_used_as_spec(spec_complete)]
    pub fn complete(self) -> (complete: bool)
        ensures
            complete == self.spec_complete(),
    {
        self.tx && self.rx
    }
}

} // verus!
